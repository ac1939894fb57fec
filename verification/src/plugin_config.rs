//! Plugin declarations: what a plugin's `plugin.toml` has to say, and what
//! the loader makes of it.
//!
//! A declaration is a TOML document with a table `plugin` that holds
//! `name` and `lib` (strings), `data_type` (one of `"i64"`, `"u64"` and
//! `"f64"`), and optionally `max_data` (an integer of at least 1, 10 where
//! it is left out) and `create_func` (a string). Whatever else the document
//! holds is the plugin's own configuration and is handed to its factory as
//! it stands.

use vstd::prelude::*;
use crate::text::str_eq;
use crate::toml_table::{
    error_text,
    parse_table,
    parsed_document,
    table_entries,
    table_is_empty,
    table_remove,
    Entry,
    Setting,
};

verus! {

/// The kinds of readings a plugin can decode to.
#[derive(Clone, Copy, Debug, PartialEq, Eq, Structural)]
pub enum ValueKind {
    /// Signed integers, declared as `"i64"`.
    IInteger,
    /// Unsigned integers, declared as `"u64"`.
    UInteger,
    /// Floating-point numbers, declared as `"f64"`.
    Float,
}

/// The fields of the `plugin` table.
#[derive(Clone, Copy, Debug, PartialEq, Eq, Structural)]
pub enum ConfigField {
    /// `name`
    Name,
    /// `lib`
    Lib,
    /// `max_data`
    MaxData,
    /// `data_type`
    DataType,
    /// `create_func`
    CreateFunc,
}

/// Why a plugin was not loaded. None of these stops the loader: the plugin
/// is skipped and loading goes on with the next one.
#[derive(Debug, PartialEq, Eq)]
pub enum PluginLoadFailure {
    /// The declaration is no TOML document; the text says why.
    UnparseableDeclaration(String),
    /// The declaration has no `plugin` entry.
    MissingPluginSection,
    /// The declaration's `plugin` entry is no table.
    PluginSectionNotATable,
    /// A field of the `plugin` table is missing where it is required, or
    /// holds a value it cannot have.
    InvalidField(ConfigField),
    /// The library the declaration names could not be opened.
    MissingLibrary(String),
    /// The library has no factory of the declared name.
    MissingSymbol(String),
    /// The factory did not make a manager.
    ConstructionFailed(String),
}

/// The kinds of failure of reading a declaration.
pub enum DeclarationFailure {
    /// The text is no TOML document.
    Unparseable,
    /// The document has no `plugin` entry.
    MissingPluginSection,
    /// The `plugin` entry is no table.
    PluginSectionNotATable,
    /// A field is missing or holds a value it cannot have.
    InvalidField(ConfigField),
}

impl PluginLoadFailure {
    /// The failure as one of reading a declaration, where it is one.
    pub open spec fn declaration_failure(&self) -> Option<DeclarationFailure> {
        match self {
            PluginLoadFailure::UnparseableDeclaration(_) => Some(DeclarationFailure::Unparseable),
            PluginLoadFailure::MissingPluginSection => Some(
                DeclarationFailure::MissingPluginSection,
            ),
            PluginLoadFailure::PluginSectionNotATable => Some(
                DeclarationFailure::PluginSectionNotATable,
            ),
            PluginLoadFailure::InvalidField(field) => Some(DeclarationFailure::InvalidField(*field)),
            _ => None,
        }
    }
}

/// The retention capacity of a plugin that declares none.
pub fn default_max_data() -> (capacity: usize)
    ensures
        capacity == 10,
{
    10
}

/// The kind that a declared `data_type` names, if it names one.
pub open spec fn kind_named(data_type: Seq<char>) -> Option<ValueKind> {
    if data_type == "i64"@ {
        Some(ValueKind::IInteger)
    } else if data_type == "u64"@ {
        Some(ValueKind::UInteger)
    } else if data_type == "f64"@ {
        Some(ValueKind::Float)
    } else {
        None
    }
}

/// The name of the factory of a plugin of the given kind that declares
/// none.
pub open spec fn default_symbol(kind: ValueKind) -> Seq<char> {
    match kind {
        ValueKind::IInteger => "create_iinteger_data_source_manager"@,
        ValueKind::UInteger => "create_uinteger_data_source_manager"@,
        ValueKind::Float => "create_float_data_source_manager"@,
    }
}

/// What a plugin declares of itself.
pub struct PluginConfigView {
    pub name: Seq<char>,
    pub lib: Seq<char>,
    pub max_data: nat,
    pub data_type: Seq<char>,
    pub create_func: Option<Seq<char>>,
}

/// The string that `fields` holds under `key`.
pub open spec fn required_text(
    fields: Map<Seq<char>, Setting>,
    key: Seq<char>,
    field: ConfigField,
) -> Result<Seq<char>, DeclarationFailure> {
    match fields.get(key) {
        Some(Setting::Text(text)) => Ok(text),
        _ => Err(DeclarationFailure::InvalidField(field)),
    }
}

/// The retention capacity that `fields` declares: the default where it is
/// left out, and otherwise an integer of at least 1 that fits the
/// machine's word.
pub open spec fn declared_max_data(fields: Map<Seq<char>, Setting>) -> Result<
    nat,
    DeclarationFailure,
> {
    match fields.get("max_data"@) {
        None => Ok(10),
        Some(Setting::Integer(number)) => if 1 <= number <= usize::MAX {
            Ok(number as nat)
        } else {
            Err(DeclarationFailure::InvalidField(ConfigField::MaxData))
        },
        Some(_) => Err(DeclarationFailure::InvalidField(ConfigField::MaxData)),
    }
}

/// The factory name that `fields` declares, if it declares one.
pub open spec fn declared_create_func(fields: Map<Seq<char>, Setting>) -> Result<
    Option<Seq<char>>,
    DeclarationFailure,
> {
    match fields.get("create_func"@) {
        None => Ok(None),
        Some(Setting::Text(text)) => Ok(Some(text)),
        Some(_) => Err(DeclarationFailure::InvalidField(ConfigField::CreateFunc)),
    }
}

/// The configuration that the fields of a `plugin` table spell, or the
/// first field, in the order `name`, `lib`, `max_data`, `data_type`,
/// `create_func`, that is missing or ill-formed.
pub open spec fn declared_config(fields: Map<Seq<char>, Setting>) -> Result<
    PluginConfigView,
    DeclarationFailure,
> {
    match required_text(fields, "name"@, ConfigField::Name) {
        Err(failure) => Err(failure),
        Ok(name) => match required_text(fields, "lib"@, ConfigField::Lib) {
            Err(failure) => Err(failure),
            Ok(lib) => match declared_max_data(fields) {
                Err(failure) => Err(failure),
                Ok(max_data) => match required_text(fields, "data_type"@, ConfigField::DataType) {
                    Err(failure) => Err(failure),
                    Ok(data_type) => if kind_named(data_type) is None {
                        Err(DeclarationFailure::InvalidField(ConfigField::DataType))
                    } else {
                        match declared_create_func(fields) {
                            Err(failure) => Err(failure),
                            Ok(create_func) => Ok(
                                PluginConfigView { name, lib, max_data, data_type, create_func },
                            ),
                        }
                    },
                },
            },
        },
    }
}

/// What a declaration with the given top-level entries declares: the
/// plugin's configuration, and whether it brings configuration of its own
/// for the factory.
pub open spec fn declared(document: Map<Seq<char>, Setting>) -> Result<
    (PluginConfigView, bool),
    DeclarationFailure,
> {
    match document.get("plugin"@) {
        None => Err(DeclarationFailure::MissingPluginSection),
        Some(Setting::Table(fields)) => match declared_config(fields) {
            Ok(config) => Ok(
                (config, document.remove("plugin"@) != Map::<Seq<char>, Setting>::empty()),
            ),
            Err(failure) => Err(failure),
        },
        Some(_) => Err(DeclarationFailure::PluginSectionNotATable),
    }
}

/// What the text of a declaration declares.
pub open spec fn declared_by(text: Seq<char>) -> Result<(PluginConfigView, bool), DeclarationFailure> {
    match parsed_document(text) {
        None => Err(DeclarationFailure::Unparseable),
        Some(document) => declared(document),
    }
}

/// The configuration of a plugin, as its declaration gives it.
pub struct FlorustServerPluginConfig {
    name: String,
    lib: String,
    max_data: usize,
    data_type: String,
    create_func: Option<String>,
}

impl View for FlorustServerPluginConfig {
    type V = PluginConfigView;

    closed spec fn view(&self) -> PluginConfigView {
        PluginConfigView {
            name: self.name@,
            lib: self.lib@,
            max_data: self.max_data as nat,
            data_type: self.data_type@,
            create_func: match self.create_func {
                Some(symbol) => Some(symbol@),
                None => None,
            },
        }
    }
}

/// A declaration that was read: the plugin's configuration, and the rest of
/// the document, which is the factory's, where there is any.
pub struct PluginDeclaration {
    pub config: FlorustServerPluginConfig,
    pub plugin_settings: Option<toml::map::Map<String, toml::Value>>,
}

impl PluginDeclaration {
    /// Whether the declaration is what `expected` says.
    pub open spec fn matches_declared(&self, expected: (PluginConfigView, bool)) -> bool {
        &&& self.config@ == expected.0
        &&& self.config.wf()
        &&& self.plugin_settings is Some == expected.1
    }
}

/// Whether reading a declaration gave `r` where `expected` was due.
pub open spec fn read_as(
    r: Result<PluginDeclaration, PluginLoadFailure>,
    expected: Result<(PluginConfigView, bool), DeclarationFailure>,
) -> bool {
    match r {
        Ok(declaration) => expected is Ok && declaration.matches_declared(expected->Ok_0),
        Err(failure) => expected is Err && failure.declaration_failure() == Some(expected->Err_0),
    }
}

impl FlorustServerPluginConfig {
    /// A configuration is well formed where its kind of readings is one of
    /// the three and it retains at least one reading.
    pub closed spec fn wf(&self) -> bool {
        &&& kind_named(self.data_type@) is Some
        &&& self.max_data >= 1
    }

    /// The kind of readings the plugin decodes to.
    pub open spec fn kind(&self) -> ValueKind {
        kind_named(self@.data_type)->Some_0
    }

    /// The plugin's name.
    pub fn name(&self) -> (name: &str)
        ensures
            name@ == self@.name,
    {
        self.name.as_str()
    }

    /// The path of the plugin's library, relative to the plugin's
    /// directory.
    pub fn lib(&self) -> (lib: &str)
        ensures
            lib@ == self@.lib,
    {
        self.lib.as_str()
    }

    /// The number of readings retained per data source.
    pub fn max_data(&self) -> (max_data: usize)
        ensures
            max_data == self@.max_data,
            self.wf() ==> max_data >= 1,
    {
        self.max_data
    }

    /// The declared kind of readings.
    pub fn data_type(&self) -> (data_type: &str)
        ensures
            data_type@ == self@.data_type,
    {
        self.data_type.as_str()
    }

    /// The declared name of the factory, if one is declared.
    pub fn create_func(&self) -> (create_func: Option<&str>)
        ensures
            match create_func {
                Some(symbol) => self@.create_func == Some(symbol@),
                None => self@.create_func is None,
            },
    {
        match &self.create_func {
            Some(symbol) => Some(symbol.as_str()),
            None => None,
        }
    }

    /// The kind of readings the plugin decodes to.
    pub fn value_kind(&self) -> (kind: ValueKind)
        requires
            self.wf(),
        ensures
            kind == self.kind(),
    {
        match parse_kind(self.data_type.as_str()) {
            Some(kind) => kind,
            None => ValueKind::IInteger,
        }
    }

    /// The name of the factory to resolve in the plugin's library: the
    /// declared one, or the default of the plugin's kind.
    pub fn factory_symbol(&self) -> (symbol: &str)
        requires
            self.wf(),
        ensures
            symbol@ == match self@.create_func {
                Some(declared) => declared,
                None => default_symbol(self.kind()),
            },
    {
        match &self.create_func {
            Some(symbol) => symbol.as_str(),
            None => match self.value_kind() {
                ValueKind::IInteger => "create_iinteger_data_source_manager",
                ValueKind::UInteger => "create_uinteger_data_source_manager",
                ValueKind::Float => "create_float_data_source_manager",
            },
        }
    }
}

/// The kind that `data_type` names, if it names one.
pub fn parse_kind(data_type: &str) -> (kind: Option<ValueKind>)
    ensures
        kind == kind_named(data_type@),
{
    if str_eq(data_type, "i64") {
        Some(ValueKind::IInteger)
    } else if str_eq(data_type, "u64") {
        Some(ValueKind::UInteger)
    } else if str_eq(data_type, "f64") {
        Some(ValueKind::Float)
    } else {
        None
    }
}

/// Takes the string under `key` out of `fields`.
fn take_text(fields: &mut toml::map::Map<String, toml::Value>, key: &str, field: ConfigField) -> (r:
    Result<String, PluginLoadFailure>)
    ensures
        table_entries(*final(fields)) == table_entries(*old(fields)).remove(key@),
        match r {
            Ok(text) => required_text(table_entries(*old(fields)), key@, field) == Ok::<
                Seq<char>,
                DeclarationFailure,
            >(text@),
            Err(failure) => required_text(table_entries(*old(fields)), key@, field) is Err
                && failure.declaration_failure() == Some(DeclarationFailure::InvalidField(field)),
        },
{
    match table_remove(fields, key) {
        Some(Entry::Text(text)) => Ok(text),
        _ => Err(PluginLoadFailure::InvalidField(field)),
    }
}

/// Takes the retention capacity out of `fields`.
fn take_max_data(fields: &mut toml::map::Map<String, toml::Value>) -> (r: Result<
    usize,
    PluginLoadFailure,
>)
    ensures
        table_entries(*final(fields)) == table_entries(*old(fields)).remove("max_data"@),
        match r {
            Ok(max_data) => declared_max_data(table_entries(*old(fields))) == Ok::<
                nat,
                DeclarationFailure,
            >(max_data as nat) && max_data >= 1,
            Err(failure) => declared_max_data(table_entries(*old(fields))) is Err
                && failure.declaration_failure() == Some(
                DeclarationFailure::InvalidField(ConfigField::MaxData),
            ),
        },
{
    match table_remove(fields, "max_data") {
        None => Ok(default_max_data()),
        Some(Entry::Integer(number)) => {
            if number >= 1 && number as u64 <= usize::MAX as u64 {
                Ok(number as usize)
            } else {
                Err(PluginLoadFailure::InvalidField(ConfigField::MaxData))
            }
        },
        Some(_) => Err(PluginLoadFailure::InvalidField(ConfigField::MaxData)),
    }
}

/// Takes the factory name out of `fields`.
fn take_create_func(fields: &mut toml::map::Map<String, toml::Value>) -> (r: Result<
    Option<String>,
    PluginLoadFailure,
>)
    ensures
        match r {
            Ok(Some(symbol)) => declared_create_func(table_entries(*old(fields))) == Ok::<
                Option<Seq<char>>,
                DeclarationFailure,
            >(Some(symbol@)),
            Ok(None) => declared_create_func(table_entries(*old(fields))) == Ok::<
                Option<Seq<char>>,
                DeclarationFailure,
            >(None),
            Err(failure) => declared_create_func(table_entries(*old(fields))) is Err
                && failure.declaration_failure() == Some(
                DeclarationFailure::InvalidField(ConfigField::CreateFunc),
            ),
        },
{
    match table_remove(fields, "create_func") {
        None => Ok(None),
        Some(Entry::Text(symbol)) => Ok(Some(symbol)),
        Some(_) => Err(PluginLoadFailure::InvalidField(ConfigField::CreateFunc)),
    }
}

/// Reads the configuration out of the fields of a `plugin` table.
pub fn read_config(fields: toml::map::Map<String, toml::Value>) -> (r: Result<
    FlorustServerPluginConfig,
    PluginLoadFailure,
>)
    ensures
        match r {
            Ok(config) => declared_config(table_entries(fields)) == Ok::<
                PluginConfigView,
                DeclarationFailure,
            >(config@) && config.wf(),
            Err(failure) => declared_config(table_entries(fields)) is Err
                && failure.declaration_failure() == Some(
                declared_config(table_entries(fields))->Err_0,
            ),
        },
{
    let mut fields = fields;
    proof {
        reveal_strlit("name");
        reveal_strlit("lib");
        reveal_strlit("max_data");
        reveal_strlit("data_type");
        reveal_strlit("create_func");
        assert("name"@.len() == 4 && "lib"@.len() == 3 && "max_data"@.len() == 8
            && "data_type"@.len() == 9 && "create_func"@.len() == 11);
    }
    let name = match take_text(&mut fields, "name", ConfigField::Name) {
        Ok(name) => name,
        Err(failure) => {
            return Err(failure);
        },
    };
    let lib = match take_text(&mut fields, "lib", ConfigField::Lib) {
        Ok(lib) => lib,
        Err(failure) => {
            return Err(failure);
        },
    };
    let max_data = match take_max_data(&mut fields) {
        Ok(max_data) => max_data,
        Err(failure) => {
            return Err(failure);
        },
    };
    let data_type = match take_text(&mut fields, "data_type", ConfigField::DataType) {
        Ok(data_type) => data_type,
        Err(failure) => {
            return Err(failure);
        },
    };
    if parse_kind(data_type.as_str()).is_none() {
        return Err(PluginLoadFailure::InvalidField(ConfigField::DataType));
    }
    let create_func = match take_create_func(&mut fields) {
        Ok(create_func) => create_func,
        Err(failure) => {
            return Err(failure);
        },
    };
    Ok(FlorustServerPluginConfig { name, lib, max_data, data_type, create_func })
}

/// Reads a declaration out of its parsed document.
pub fn read_declaration(document: toml::map::Map<String, toml::Value>) -> (r: Result<
    PluginDeclaration,
    PluginLoadFailure,
>)
    ensures
        read_as(r, declared(table_entries(document))),
{
    let mut document = document;
    let fields = match table_remove(&mut document, "plugin") {
        None => {
            return Err(PluginLoadFailure::MissingPluginSection);
        },
        Some(Entry::Table(fields)) => fields,
        Some(_) => {
            return Err(PluginLoadFailure::PluginSectionNotATable);
        },
    };
    let config = match read_config(fields) {
        Ok(config) => config,
        Err(failure) => {
            return Err(failure);
        },
    };
    let plugin_settings = if table_is_empty(&document) {
        None
    } else {
        Some(document)
    };
    Ok(PluginDeclaration { config, plugin_settings })
}

/// Reads the declaration of a plugin from the text of its `plugin.toml`.
pub fn parse_declaration(text: &str) -> (r: Result<PluginDeclaration, PluginLoadFailure>)
    ensures
        read_as(r, declared_by(text@)),
{
    match parse_table(text) {
        Err(err) => Err(PluginLoadFailure::UnparseableDeclaration(error_text(&err))),
        Ok(document) => read_declaration(document),
    }
}

} // verus!
