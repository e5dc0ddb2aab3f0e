use gbindgen::macros::{compose_version_macros, render_version_macros};
use gbindgen::text::{same_text, to_decimal};
use gbindgen::version::Version;

fn expected_block(ns: &str, major: u64, minor: u64, micro: u64) -> String {
    format!(
        r#"
#define {ns}_MAJOR_VERSION {major}
#define {ns}_MINOR_VERSION {minor}
#define {ns}_MICRO_VERSION {micro}

#define {ns}_CHECK_VERSION(major,minor,micro) \
    ({ns}_MAJOR_VERSION > (major) ||                                   \
     ({ns}_MAJOR_VERSION == (major) && {ns}_MINOR_VERSION > (minor)) || \
     ({ns}_MAJOR_VERSION == (major) && {ns}_MINOR_VERSION == (minor) && \
      {ns}_MICRO_VERSION >= (micro)))
"#,
        ns = ns,
        major = major,
        minor = minor,
        micro = micro
    )
}

#[test]
fn version_constants_of_a_package() {
    let block = compose_version_macros("MYLIB", Version { major: 2, minor: 0, micro: 5 });
    assert!(block.contains("#define MYLIB_MAJOR_VERSION 2\n"));
    assert!(block.contains("#define MYLIB_MINOR_VERSION 0\n"));
    assert!(block.contains("#define MYLIB_MICRO_VERSION 5\n"));
    assert!(block.contains("#define MYLIB_CHECK_VERSION(major,minor,micro) \\\n"));
}

#[test]
fn block_is_the_template_to_the_character() {
    let block = compose_version_macros("MYLIB", Version { major: 2, minor: 0, micro: 5 });
    assert_eq!(block, expected_block("MYLIB", 2, 0, 5));
    let block = render_version_macros("X", Version { major: 10, minor: 200, micro: 3000 });
    assert_eq!(block, expected_block("X", 10, 200, 3000));
}

#[test]
fn namespace_is_put_in_upper_snake_case() {
    let version = Version { major: 1, minor: 2, micro: 3 };
    assert_eq!(compose_version_macros("my_lib", version), expected_block("MY_LIB", 1, 2, 3));
    assert_eq!(compose_version_macros("GtkFoo", version), expected_block("GTK_FOO", 1, 2, 3));
    assert_eq!(compose_version_macros("gtk-foo", version), expected_block("GTK_FOO", 1, 2, 3));
    assert_eq!(
        compose_version_macros("XMLHttpRequest", version),
        expected_block("XML_HTTP_REQUEST", 1, 2, 3)
    );
}

#[test]
fn rendered_prefix_is_taken_as_it_is() {
    let version = Version { major: 1, minor: 2, micro: 3 };
    assert_eq!(render_version_macros("my_lib", version), expected_block("my_lib", 1, 2, 3));
    assert_eq!(render_version_macros("", version), expected_block("", 1, 2, 3));
}

#[test]
fn same_inputs_give_the_same_block() {
    let version = Version { major: 3, minor: 1, micro: 4 };
    let first = compose_version_macros("Namespace", version);
    let second = compose_version_macros("Namespace", version);
    assert_eq!(first.as_bytes(), second.as_bytes());
}

#[test]
fn largest_numbers_are_written_in_full() {
    let version = Version { major: u64::MAX, minor: u64::MAX, micro: u64::MAX };
    assert_eq!(
        compose_version_macros("A", version),
        expected_block("A", u64::MAX, u64::MAX, u64::MAX)
    );
}

#[test]
fn decimal_numerals() {
    assert_eq!(to_decimal(0), "0");
    assert_eq!(to_decimal(5), "5");
    assert_eq!(to_decimal(9), "9");
    assert_eq!(to_decimal(10), "10");
    assert_eq!(to_decimal(205), "205");
    assert_eq!(to_decimal(1000), "1000");
    assert_eq!(to_decimal(1234567890), "1234567890");
    assert_eq!(to_decimal(u64::MAX), "18446744073709551615");
}

#[test]
fn texts_are_compared_by_their_characters() {
    assert!(same_text("namespace", "namespace"));
    assert!(!same_text("namespace", "Namespace"));
    assert!(!same_text("a", "ab"));
    assert!(same_text("", ""));
}
