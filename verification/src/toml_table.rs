//! The TOML documents that plugin declarations are written in, as far as
//! the loader reads them. Parsing and the tables themselves are the `toml`
//! crate's; what is stated of them here is taken on trust.

use vstd::prelude::*;

verus! {

/// `toml::map::Map`, of which `toml::Table` is the instance with string
/// keys and TOML values; opaque here.
#[verifier::external_type_specification]
#[verifier::external_body]
#[verifier::reject_recursive_types(K)]
#[verifier::reject_recursive_types(V)]
pub struct ExTomlMap<K, V>(toml::map::Map<K, V>);

/// `toml::Value`; opaque here.
#[verifier::external_type_specification]
#[verifier::external_body]
pub struct ExTomlValue(toml::Value);

/// `toml::de::Error`; opaque here.
#[verifier::external_type_specification]
#[verifier::external_body]
pub struct ExTomlError(toml::de::Error);

/// What a table holds under a key, as far as the loader tells values
/// apart.
pub enum Setting {
    /// A string.
    Text(Seq<char>),
    /// An integer.
    Integer(i64),
    /// A table, with what it holds under each of its keys.
    Table(Map<Seq<char>, Setting>),
    /// A value of any other type.
    Other,
}

/// A value taken out of a table.
pub enum Entry {
    /// A string.
    Text(String),
    /// An integer.
    Integer(i64),
    /// A table.
    Table(toml::map::Map<String, toml::Value>),
    /// A value of any other type.
    Other,
}

/// What `table` holds under each of its keys.
pub uninterp spec fn table_entries(table: toml::map::Map<String, toml::Value>) -> Map<
    Seq<char>,
    Setting,
>;

/// What the TOML document `text` holds under each of its top-level keys, or
/// `None` where `text` is no TOML document.
pub uninterp spec fn parsed_document(text: Seq<char>) -> Option<Map<Seq<char>, Setting>>;

impl View for Entry {
    type V = Setting;

    open spec fn view(&self) -> Setting {
        match self {
            Entry::Text(text) => Setting::Text(text@),
            Entry::Integer(number) => Setting::Integer(*number),
            Entry::Table(table) => Setting::Table(table_entries(*table)),
            Entry::Other => Setting::Other,
        }
    }
}

/// Parses `text` with `str::parse::<toml::Table>`, which is
/// `toml::from_str`. Taken on trust: the outcome is a function of the text
/// alone, named `parsed_document`; the table that comes back holds what
/// that name says, and an error comes back exactly where it says `None`.
#[verifier::external_body]
pub(crate) fn parse_table(text: &str) -> (r: Result<
    toml::map::Map<String, toml::Value>,
    toml::de::Error,
>)
    ensures
        match r {
            Ok(table) => parsed_document(text@) == Some(table_entries(table)),
            Err(_) => parsed_document(text@) is None,
        },
{
    text.parse::<toml::Table>()
}

/// Takes the value under `key` out of `table` with `toml::Table::remove`.
/// Taken on trust: the value that stood under `key` comes back, `None`
/// where there was none, and the table afterwards holds what it held under
/// every other key.
#[verifier::external_body]
pub(crate) fn table_remove(table: &mut toml::map::Map<String, toml::Value>, key: &str) -> (r:
    Option<Entry>)
    ensures
        table_entries(*final(table)) == table_entries(*old(table)).remove(key@),
        match r {
            Some(entry) => table_entries(*old(table)).get(key@) == Some(entry@),
            None => table_entries(*old(table)).get(key@) is None,
        },
{
    match table.remove(key) {
        None => None,
        Some(toml::Value::String(text)) => Some(Entry::Text(text)),
        Some(toml::Value::Integer(number)) => Some(Entry::Integer(number)),
        Some(toml::Value::Table(inner)) => Some(Entry::Table(inner)),
        Some(toml::Value::Float(_)) => Some(Entry::Other),
        Some(toml::Value::Boolean(_)) => Some(Entry::Other),
        Some(toml::Value::Datetime(_)) => Some(Entry::Other),
        Some(toml::Value::Array(_)) => Some(Entry::Other),
    }
}

/// Whether `table` has no entries, by `toml::Table::is_empty`. Taken on
/// trust: it is empty exactly where it holds something under no key.
#[verifier::external_body]
pub(crate) fn table_is_empty(table: &toml::map::Map<String, toml::Value>) -> (r: bool)
    ensures
        r == (table_entries(*table) == Map::<Seq<char>, Setting>::empty()),
{
    table.is_empty()
}

/// The text of a parse error, by its `Display`. Nothing is stated of it.
#[verifier::external_body]
pub(crate) fn error_text(err: &toml::de::Error) -> String {
    format!("{}", err)
}

} // verus!
