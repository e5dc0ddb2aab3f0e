use gbindgen::config::Config;
use gbindgen::text::{copy_option_text, copy_texts, join3};

#[test]
fn three_texts_are_joined_in_order() {
    assert_eq!(join3("a", "b", "c"), "abc");
    assert_eq!(join3("", "middle", ""), "middle");
    assert_eq!(join3("Couldn't open config file: ", "x.toml", "."), "Couldn't open config file: x.toml.");
}

#[test]
fn copies_hold_the_same_texts() {
    let list = vec!["glib.h".to_string(), "".to_string(), "gio/gio.h".to_string()];
    assert_eq!(copy_texts(&list), list);
    assert!(copy_texts(&Vec::new()).is_empty());
    assert_eq!(copy_option_text(&Some("Foo".to_string())), Some("Foo".to_string()));
    assert_eq!(copy_option_text(&None), None);
}

#[test]
fn clone_of_a_configuration_keeps_its_fields() {
    let config = Config {
        sys_includes: vec!["glib.h".to_string(), "gio/gio.h".to_string()],
        namespace: Some("Foo".to_string()),
    };
    let copy = config.clone();
    assert_eq!(copy.sys_includes, config.sys_includes);
    assert_eq!(copy.namespace, config.namespace);
    let copy = Config::default().clone();
    assert!(copy.sys_includes.is_empty());
    assert_eq!(copy.namespace, None);
}
