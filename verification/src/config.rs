//! The package-local configuration and the strict schema it is read with.

use vstd::prelude::*;
use vstd::string::StringExecFns;

use crate::document::{parse_document, toml_document, TomlEntry, TomlValue};
use crate::text::{copy_option_text, copy_texts, join3, option_text, same_text, texts};

verus! {

/// Name of the configuration file looked for directly inside a package root.
pub const CONFIG_FILE_NAME: &'static str = "gbindgen.toml";

/// Key of the list of additional system includes.
pub const SYS_INCLUDES_KEY: &'static str = "sys_includes";

/// Key of the package namespace.
pub const NAMESPACE_KEY: &'static str = "namespace";

/// Settings that a package keeps beside its manifest.
#[derive(Debug)]
pub struct Config {
    /// Additional system includes to put at the beginning of the generated header.
    pub sys_includes: Vec<String>,
    /// Package namespace, the prefix of the generated names.
    pub namespace: Option<String>,
}

/// A [`Config`] as mathematical values.
pub struct ConfigView {
    pub sys_includes: Seq<Seq<char>>,
    pub namespace: Option<Seq<char>>,
}

/// Why a configuration could not be had.
#[derive(Debug)]
pub enum ConfigError {
    /// The file exists but could not be read as UTF-8 text.
    Unreadable { path: String },
    /// The text is not a TOML document.
    Syntax { message: String },
    /// The document holds a key that the schema does not know.
    UnknownField { name: String },
    /// The document holds a known key twice.
    DuplicateField { name: String },
    /// A known key holds a value of the wrong type.
    InvalidType { field: String },
}

/// A [`ConfigError`] as mathematical values.
pub enum ConfigErrorView {
    Unreadable { path: Seq<char> },
    Syntax { message: Seq<char> },
    UnknownField { name: Seq<char> },
    DuplicateField { name: Seq<char> },
    InvalidType { field: Seq<char> },
}

/// What was found at the place of the configuration file.
#[derive(Debug)]
pub enum ConfigFile {
    /// No such file.
    Absent,
    /// A file that could not be read as UTF-8 text.
    Unreadable,
    /// The file's text.
    Text(String),
}

impl View for Config {
    type V = ConfigView;

    open spec fn view(&self) -> ConfigView {
        ConfigView { sys_includes: texts(self.sys_includes@), namespace: option_text(self.namespace) }
    }
}

impl View for ConfigError {
    type V = ConfigErrorView;

    open spec fn view(&self) -> ConfigErrorView {
        match *self {
            ConfigError::Unreadable { path } => ConfigErrorView::Unreadable { path: path@ },
            ConfigError::Syntax { message } => ConfigErrorView::Syntax { message: message@ },
            ConfigError::UnknownField { name } => ConfigErrorView::UnknownField { name: name@ },
            ConfigError::DuplicateField { name } => ConfigErrorView::DuplicateField { name: name@ },
            ConfigError::InvalidType { field } => ConfigErrorView::InvalidType { field: field@ },
        }
    }
}

/// The outcome of a resolution as mathematical values.
pub open spec fn outcome_view(r: Result<Config, ConfigError>) -> Result<ConfigView, ConfigErrorView> {
    match r {
        Ok(c) => Ok(c@),
        Err(e) => Err(e@),
    }
}

/// The configuration in which every field has its default.
pub open spec fn default_config() -> ConfigView {
    ConfigView { sys_includes: Seq::empty(), namespace: None }
}

/// Whether the schema knows `key`.
pub open spec fn is_known_key(key: Seq<char>) -> bool {
    key == SYS_INCLUDES_KEY@ || key == NAMESPACE_KEY@
}

/// Whether every item of a list is a string.
pub open spec fn all_strings(items: Seq<TomlValue>) -> bool {
    forall|i: int| 0 <= i < items.len() ==> (#[trigger] items[i]) is String
}

/// The texts of a list of strings, item by item.
pub open spec fn string_items(items: Seq<TomlValue>) -> Seq<Seq<char>> {
    Seq::new(items.len(), |i: int| items[i]->String_0@)
}

/// Whether `value` has the type that the schema gives to the known key `key`:
/// a list of strings for the includes, a string for the namespace.
pub open spec fn has_field_type(key: Seq<char>, value: TomlValue) -> bool {
    if key == SYS_INCLUDES_KEY@ {
        value matches TomlValue::Array(items) && all_strings(items@)
    } else {
        value is String
    }
}

/// The value of the first entry of `doc` whose key is `key`.
pub open spec fn find_value(doc: Seq<TomlEntry>, key: Seq<char>) -> Option<TomlValue>
    decreases doc.len(),
{
    if doc.len() == 0 {
        None
    } else {
        match find_value(doc.drop_last(), key) {
            Some(v) => Some(v),
            None => if doc.last().key@ == key {
                Some(doc.last().value)
            } else {
                None
            },
        }
    }
}

/// What is wrong with the entry at `i`, seen after the entries before it: its
/// key is unknown, or has occurred before, or holds a value of the wrong type.
pub open spec fn fault_at(doc: Seq<TomlEntry>, i: int) -> Option<ConfigErrorView>
    recommends
        0 <= i < doc.len(),
{
    let key = doc[i].key@;
    if !is_known_key(key) {
        Some(ConfigErrorView::UnknownField { name: key })
    } else if find_value(doc.take(i), key) is Some {
        Some(ConfigErrorView::DuplicateField { name: key })
    } else if !has_field_type(key, doc[i].value) {
        Some(ConfigErrorView::InvalidType { field: key })
    } else {
        None
    }
}

/// The fault of the first faulty entry of `doc`, if there is one.
pub open spec fn first_fault(doc: Seq<TomlEntry>) -> Option<ConfigErrorView>
    decreases doc.len(),
{
    if doc.len() == 0 {
        None
    } else {
        match first_fault(doc.drop_last()) {
            Some(e) => Some(e),
            None => fault_at(doc, doc.len() - 1),
        }
    }
}

/// The configuration that a document without fault holds: each field from
/// the entry of its key, or its default where no entry has that key.
pub open spec fn config_of(doc: Seq<TomlEntry>) -> ConfigView {
    ConfigView {
        sys_includes: match find_value(doc, SYS_INCLUDES_KEY@) {
            Some(TomlValue::Array(items)) => string_items(items@),
            _ => Seq::empty(),
        },
        namespace: match find_value(doc, NAMESPACE_KEY@) {
            Some(TomlValue::String(s)) => Some(s@),
            _ => None,
        },
    }
}

/// The strict schema: a document with a fault is refused with its first
/// fault, and one without gives its configuration.
pub open spec fn schema_outcome(doc: Seq<TomlEntry>) -> Result<ConfigView, ConfigErrorView> {
    match first_fault(doc) {
        Some(e) => Err(e),
        None => Ok(config_of(doc)),
    }
}

/// What a parse gives: the parser's message as a syntax error, or the schema
/// applied to the document.
pub open spec fn parse_outcome(parsed: Result<Vec<TomlEntry>, String>) -> Result<
    ConfigView,
    ConfigErrorView,
> {
    match parsed {
        Ok(doc) => schema_outcome(doc@),
        Err(message) => Err(ConfigErrorView::Syntax { message: message@ }),
    }
}

/// What the resolver makes of what was found at `path`.
pub open spec fn resolve_outcome(path: Seq<char>, file: ConfigFile) -> Result<
    ConfigView,
    ConfigErrorView,
> {
    match file {
        ConfigFile::Absent => Ok(default_config()),
        ConfigFile::Unreadable => Err(ConfigErrorView::Unreadable { path }),
        ConfigFile::Text(text) => parse_outcome(toml_document(text@)),
    }
}

/// What goes before the reason in the message of a file that did not parse.
pub open spec fn parse_failure(reason: Seq<char>) -> Seq<char> {
    "Couldn't parse config file: "@ + reason + "."@
}

/// The message of a configuration error, as it is shown to the user.
pub open spec fn config_error_message(error: ConfigErrorView) -> Seq<char> {
    match error {
        ConfigErrorView::Unreadable { path } => "Couldn't open config file: "@ + path + "."@,
        ConfigErrorView::Syntax { message } => parse_failure(message),
        ConfigErrorView::UnknownField { name } => parse_failure(
            "unknown field `"@ + name + "`, expected `sys_includes` or `namespace`"@,
        ),
        ConfigErrorView::DuplicateField { name } => parse_failure(
            "duplicate field `"@ + name + "`"@,
        ),
        ConfigErrorView::InvalidType { field } => parse_failure(
            "invalid type for field `"@ + field + "`"@,
        ),
    }
}

impl ConfigError {
    /// The message of this error, as it is shown to the user.
    pub fn message(&self) -> (r: String)
        ensures
            r@ == config_error_message(self@),
    {
        match self {
            ConfigError::Unreadable { path } => join3(
                "Couldn't open config file: ",
                path.as_str(),
                ".",
            ),
            ConfigError::Syntax { message } => join3(
                "Couldn't parse config file: ",
                message.as_str(),
                ".",
            ),
            ConfigError::UnknownField { name } => {
                let reason = join3(
                    "unknown field `",
                    name.as_str(),
                    "`, expected `sys_includes` or `namespace`",
                );
                join3("Couldn't parse config file: ", reason.as_str(), ".")
            },
            ConfigError::DuplicateField { name } => {
                let reason = join3("duplicate field `", name.as_str(), "`");
                join3("Couldn't parse config file: ", reason.as_str(), ".")
            },
            ConfigError::InvalidType { field } => {
                let reason = join3("invalid type for field `", field.as_str(), "`");
                join3("Couldn't parse config file: ", reason.as_str(), ".")
            },
        }
    }
}

/// The two keys of the schema are different texts.
proof fn lemma_keys_differ()
    ensures
        SYS_INCLUDES_KEY@ != NAMESPACE_KEY@,
{
    reveal_strlit("sys_includes");
    reveal_strlit("namespace");
    assert(SYS_INCLUDES_KEY@.len() == 12);
    assert(NAMESPACE_KEY@.len() == 9);
}

/// The fault of an entry depends only on the entries up to it.
proof fn lemma_fault_at_prefix(doc: Seq<TomlEntry>, n: int, i: int)
    requires
        0 <= i < n <= doc.len(),
    ensures
        fault_at(doc.take(n), i) == fault_at(doc, i),
{
    assert(doc.take(n).take(i) =~= doc.take(i));
}

/// The first fault of a prefix is the first fault of the whole document.
proof fn lemma_first_fault_extends(doc: Seq<TomlEntry>, n: int)
    requires
        0 <= n <= doc.len(),
    ensures
        first_fault(doc.take(n)) is Some ==> first_fault(doc) == first_fault(doc.take(n)),
    decreases doc.len() - n,
{
    if n == doc.len() {
        assert(doc.take(n) =~= doc);
    } else if first_fault(doc.take(n)) is Some {
        assert(doc.take(n + 1).drop_last() =~= doc.take(n));
        lemma_first_fault_extends(doc, n + 1);
    }
}

/// One more entry: how the scan of a prefix goes on.
proof fn lemma_scan_step(doc: Seq<TomlEntry>, i: int, key: Seq<char>)
    requires
        0 <= i < doc.len(),
    ensures
        doc.take(i + 1).drop_last() == doc.take(i),
        doc.take(i + 1).last() == doc[i],
        first_fault(doc.take(i)) is None ==> first_fault(doc.take(i + 1)) == fault_at(doc, i),
        find_value(doc.take(i + 1), key) == match find_value(doc.take(i), key) {
            Some(v) => Some(v),
            None => if doc[i].key@ == key {
                Some(doc[i].value)
            } else {
                None
            },
        },
{
    assert(doc.take(i + 1).drop_last() =~= doc.take(i));
    lemma_fault_at_prefix(doc, i + 1, i);
}

/// The texts of a list of values, if every one of them is a string.
fn collect_strings(items: &Vec<TomlValue>) -> (r: Option<Vec<String>>)
    ensures
        r is Some <==> all_strings(items@),
        r matches Some(list) ==> texts(list@) == string_items(items@),
{
    let mut list: Vec<String> = Vec::new();
    let mut i: usize = 0;
    while i < items.len()
        invariant
            i <= items.len(),
            list@.len() == i,
            forall|j: int| 0 <= j < i ==> (#[trigger] items@[j]) is String,
            forall|j: int| 0 <= j < i ==> (#[trigger] list@[j])@ == items@[j]->String_0@,
        decreases items.len() - i,
    {
        match &items[i] {
            TomlValue::String(s) => {
                list.push(s.clone());
            },
            _ => {
                return None;
            },
        }
        i += 1;
    }
    assert(texts(list@) =~= string_items(items@));
    Some(list)
}

impl Config {
    /// Reads a configuration from a parsed document under the strict schema.
    ///
    /// Every key must be known, occur once and hold a value of its type; the
    /// first entry that breaks this decides the error. Fields without an entry
    /// keep their defaults.
    pub fn from_document(doc: &Vec<TomlEntry>) -> (r: Result<Config, ConfigError>)
        ensures
            outcome_view(r) == schema_outcome(doc@),
    {
        let mut sys_includes: Option<Vec<String>> = None;
        let mut namespace: Option<String> = None;
        let mut i: usize = 0;
        proof {
            lemma_keys_differ();
        }
        while i < doc.len()
            invariant
                i <= doc.len(),
                SYS_INCLUDES_KEY@ != NAMESPACE_KEY@,
                first_fault(doc@.take(i as int)) is None,
                match sys_includes {
                    Some(list) => find_value(doc@.take(i as int), SYS_INCLUDES_KEY@) matches Some(
                        TomlValue::Array(items),
                    ) && texts(list@) == string_items(items@),
                    None => find_value(doc@.take(i as int), SYS_INCLUDES_KEY@) is None,
                },
                match namespace {
                    Some(ns) => find_value(doc@.take(i as int), NAMESPACE_KEY@) matches Some(
                        TomlValue::String(s),
                    ) && ns@ == s@,
                    None => find_value(doc@.take(i as int), NAMESPACE_KEY@) is None,
                },
            decreases doc.len() - i,
        {
            let entry = &doc[i];
            proof {
                lemma_scan_step(doc@, i as int, SYS_INCLUDES_KEY@);
                lemma_scan_step(doc@, i as int, NAMESPACE_KEY@);
                lemma_first_fault_extends(doc@, i as int + 1);
            }
            if same_text(entry.key.as_str(), SYS_INCLUDES_KEY) {
                if sys_includes.is_some() {
                    return Err(ConfigError::DuplicateField { name: entry.key.clone() });
                }
                let list = match &entry.value {
                    TomlValue::Array(items) => collect_strings(items),
                    _ => None,
                };
                match list {
                    Some(list) => {
                        sys_includes = Some(list);
                    },
                    None => {
                        return Err(ConfigError::InvalidType { field: entry.key.clone() });
                    },
                }
            } else if same_text(entry.key.as_str(), NAMESPACE_KEY) {
                if namespace.is_some() {
                    return Err(ConfigError::DuplicateField { name: entry.key.clone() });
                }
                match &entry.value {
                    TomlValue::String(s) => {
                        namespace = Some(s.clone());
                    },
                    _ => {
                        return Err(ConfigError::InvalidType { field: entry.key.clone() });
                    },
                }
            } else {
                return Err(ConfigError::UnknownField { name: entry.key.clone() });
            }
            i += 1;
        }
        assert(doc@.take(i as int) =~= doc@);
        let sys_includes = match sys_includes {
            Some(list) => list,
            None => Vec::new(),
        };
        let config = Config { sys_includes, namespace };
        assert(config@.sys_includes =~= config_of(doc@).sys_includes);
        Ok(config)
    }

    /// Turns the outcome of a parse into a configuration: the parser's
    /// message becomes a syntax error, and a document goes through the schema.
    pub fn from_parsed(parsed: Result<Vec<TomlEntry>, String>) -> (r: Result<Config, ConfigError>)
        ensures
            outcome_view(r) == parse_outcome(parsed),
    {
        match parsed {
            Ok(doc) => Config::from_document(&doc),
            Err(message) => Err(ConfigError::Syntax { message }),
        }
    }

    /// Reads a configuration from the text of a configuration file.
    pub fn from_text(text: &str) -> (r: Result<Config, ConfigError>)
        ensures
            outcome_view(r) == parse_outcome(toml_document(text@)),
    {
        Config::from_parsed(parse_document(text))
    }

    /// Reads a configuration from a file that exists at `file_name`, given
    /// what reading it as UTF-8 text gave: `None` where the read failed.
    pub fn from_file(file_name: &str, contents: Option<&str>) -> (r: Result<Config, ConfigError>)
        ensures
            outcome_view(r) == match contents {
                Some(text) => parse_outcome(toml_document(text@)),
                None => Err(ConfigErrorView::Unreadable { path: file_name@ }),
            },
    {
        match contents {
            Some(text) => Config::from_text(text),
            None => Err(ConfigError::Unreadable { path: String::from_str(file_name) }),
        }
    }

    /// Resolves the configuration of a package root from what was found at
    /// `file_name`, the place of the configuration file directly inside it:
    /// the defaults where there is no such file, else what the file holds.
    pub fn from_root_or_default(file_name: &str, file: &ConfigFile) -> (r: Result<
        Config,
        ConfigError,
    >)
        ensures
            outcome_view(r) == resolve_outcome(file_name@, *file),
    {
        match file {
            ConfigFile::Absent => Ok(Config::default()),
            ConfigFile::Unreadable => Config::from_file(file_name, None),
            ConfigFile::Text(text) => Config::from_file(file_name, Some(text.as_str())),
        }
    }
}

impl Clone for Config {
    fn clone(&self) -> (r: Config)
        ensures
            r@ == self@,
    {
        Config {
            sys_includes: copy_texts(&self.sys_includes),
            namespace: copy_option_text(&self.namespace),
        }
    }
}

impl Default for Config {
    fn default() -> (r: Config)
        ensures
            r@ == default_config(),
    {
        let r = Config { sys_includes: Vec::new(), namespace: None };
        assert(r@.sys_includes =~= Seq::empty());
        r
    }
}

/// No entry with a key gives no value for it.
proof fn lemma_find_value_none(doc: Seq<TomlEntry>, key: Seq<char>)
    requires
        forall|j: int| 0 <= j < doc.len() ==> (#[trigger] doc[j]).key@ != key,
    ensures
        find_value(doc, key) is None,
    decreases doc.len(),
{
    if doc.len() > 0 {
        lemma_find_value_none(doc.drop_last(), key);
    }
}

/// The first entry with a key gives the value for it.
proof fn lemma_find_value_first(doc: Seq<TomlEntry>, key: Seq<char>, i: int)
    requires
        0 <= i < doc.len(),
        doc[i].key@ == key,
        forall|j: int| 0 <= j < i ==> (#[trigger] doc[j]).key@ != key,
    ensures
        find_value(doc, key) == Some(doc[i].value),
    decreases doc.len(),
{
    if i == doc.len() - 1 {
        lemma_find_value_none(doc.drop_last(), key);
    } else {
        lemma_find_value_first(doc.drop_last(), key, i);
    }
}

/// A document has a first fault exactly when one of its entries has a fault.
proof fn lemma_first_fault_exists(doc: Seq<TomlEntry>)
    ensures
        first_fault(doc) is Some <==> exists|i: int|
            0 <= i < doc.len() && (#[trigger] fault_at(doc, i)) is Some,
    decreases doc.len(),
{
    if doc.len() > 0 {
        let front = doc.drop_last();
        let last = doc.len() - 1;
        lemma_first_fault_exists(front);
        assert forall|i: int| 0 <= i < last implies fault_at(front, i) == fault_at(doc, i) by {
            assert(front =~= doc.take(last));
            lemma_fault_at_prefix(doc, last, i);
        }
        if first_fault(front) is Some {
            let i = choose|i: int| 0 <= i < front.len() && (#[trigger] fault_at(front, i)) is Some;
            assert(fault_at(doc, i) is Some);
        } else if fault_at(doc, last) is Some {
        } else {
            assert forall|i: int| 0 <= i < doc.len() implies !((#[trigger] fault_at(doc, i))
                is Some) by {
                if i < last {
                    assert(fault_at(front, i) == fault_at(doc, i));
                }
            }
        }
    }
}

/// A document that holds a key unknown to the schema is refused, wherever
/// the key stands and whatever else the document holds.
pub proof fn lemma_unknown_field_is_refused(doc: Seq<TomlEntry>, i: int)
    requires
        0 <= i < doc.len(),
        !is_known_key(doc[i].key@),
    ensures
        schema_outcome(doc) is Err,
{
    assert(fault_at(doc, i) is Some);
    lemma_first_fault_exists(doc);
}

/// Whatever the parse of a file gave, a document with an unknown key among
/// its entries gives an error, never a configuration.
pub proof fn lemma_unknown_field_in_file_is_refused(parsed: Result<Vec<TomlEntry>, String>, i: int)
    requires
        parsed matches Ok(doc) && 0 <= i < doc@.len() && !is_known_key(doc@[i].key@),
    ensures
        parse_outcome(parsed) is Err,
{
    lemma_unknown_field_is_refused(parsed->Ok_0@, i);
}

/// Whether a document holds known keys only, each once and with a value of
/// its type.
pub open spec fn is_valid(doc: Seq<TomlEntry>) -> bool {
    &&& forall|i: int|
        0 <= i < doc.len() ==> is_known_key((#[trigger] doc[i]).key@) && has_field_type(
            doc[i].key@,
            doc[i].value,
        )
    &&& forall|i: int, j: int|
        0 <= i < j < doc.len() ==> (#[trigger] doc[i]).key@ != (#[trigger] doc[j]).key@
}

/// A valid document gives a configuration whose fields are exactly what the
/// document holds: the namespace is the string of the entry with that key,
/// the includes are the strings of the list of the entry with that key, and
/// a field without an entry has its default.
pub proof fn lemma_valid_document_is_kept(doc: Seq<TomlEntry>)
    requires
        is_valid(doc),
    ensures
        schema_outcome(doc) == Ok::<ConfigView, ConfigErrorView>(config_of(doc)),
        forall|i: int|
            0 <= i < doc.len() && (#[trigger] doc[i]).key@ == NAMESPACE_KEY@ ==> config_of(
                doc,
            ).namespace == Some(doc[i].value->String_0@),
        (forall|i: int| 0 <= i < doc.len() ==> (#[trigger] doc[i]).key@ != NAMESPACE_KEY@)
            ==> config_of(doc).namespace is None,
        forall|i: int|
            0 <= i < doc.len() && (#[trigger] doc[i]).key@ == SYS_INCLUDES_KEY@ ==> config_of(
                doc,
            ).sys_includes == string_items(doc[i].value->Array_0@),
        (forall|i: int| 0 <= i < doc.len() ==> (#[trigger] doc[i]).key@ != SYS_INCLUDES_KEY@)
            ==> config_of(doc).sys_includes == Seq::<Seq<char>>::empty(),
{
    lemma_keys_differ();
    assert forall|i: int| 0 <= i < doc.len() implies (#[trigger] fault_at(doc, i)) is None by {
        assert(is_known_key(doc[i].key@));
        assert forall|j: int| 0 <= j < doc.take(i).len() implies (#[trigger] doc.take(i)[j]).key@
            != doc[i].key@ by {
            assert(doc.take(i)[j] == doc[j]);
        }
        lemma_find_value_none(doc.take(i), doc[i].key@);
    }
    lemma_first_fault_exists(doc);
    assert forall|i: int, key: Seq<char>|
        0 <= i < doc.len() && (#[trigger] doc[i]).key@ == key implies #[trigger] find_value(
        doc,
        key,
    ) == Some(doc[i].value) by {
        lemma_find_value_first(doc, key, i);
    }
    if forall|i: int| 0 <= i < doc.len() ==> (#[trigger] doc[i]).key@ != NAMESPACE_KEY@ {
        lemma_find_value_none(doc, NAMESPACE_KEY@);
    }
    if forall|i: int| 0 <= i < doc.len() ==> (#[trigger] doc[i]).key@ != SYS_INCLUDES_KEY@ {
        lemma_find_value_none(doc, SYS_INCLUDES_KEY@);
    }
}

/// Where there is no configuration file, every field has its default.
pub proof fn lemma_missing_file_gives_defaults(path: Seq<char>)
    ensures
        resolve_outcome(path, ConfigFile::Absent) == Ok::<ConfigView, ConfigErrorView>(
            default_config(),
        ),
        default_config().sys_includes.len() == 0,
        default_config().namespace is None,
{
}

} // verus!
