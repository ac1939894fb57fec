use florust::plugin_config::{
    default_max_data, parse_declaration, parse_kind, read_config, read_declaration, ConfigField,
    PluginLoadFailure, ValueKind,
};

const FULL: &str = r#"
[plugin]
name = "thermo"
lib = "libthermo.so"
max_data = 32
data_type = "f64"
create_func = "make_thermo"

[thermo]
unit = "K"
offset = 273
"#;

const MINIMAL: &str = r#"
[plugin]
name = "counter"
lib = "counter.so"
data_type = "u64"
"#;

fn with_plugin(fields: &str) -> String {
    format!("[plugin]\n{}\n", fields)
}

fn failure(text: &str) -> PluginLoadFailure {
    match parse_declaration(text) {
        Err(failure) => failure,
        Ok(_) => panic!("declaration was accepted: {}", text),
    }
}

#[test]
fn default_capacity_is_ten() {
    assert_eq!(default_max_data(), 10);
}

#[test]
fn full_declaration_is_read() {
    let declaration = parse_declaration(FULL).unwrap();
    let config = &declaration.config;
    assert_eq!(config.name(), "thermo");
    assert_eq!(config.lib(), "libthermo.so");
    assert_eq!(config.max_data(), 32);
    assert_eq!(config.data_type(), "f64");
    assert_eq!(config.create_func(), Some("make_thermo"));
    assert_eq!(config.value_kind(), ValueKind::Float);
    assert_eq!(config.factory_symbol(), "make_thermo");
    let rest = declaration.plugin_settings.unwrap();
    assert_eq!(rest.len(), 1);
    assert!(rest.get("plugin").is_none());
    let thermo = rest.get("thermo").unwrap().as_table().unwrap();
    assert_eq!(thermo.get("unit").unwrap().as_str(), Some("K"));
    assert_eq!(thermo.get("offset").unwrap().as_integer(), Some(273));
}

#[test]
fn minimal_declaration_takes_the_defaults() {
    let declaration = parse_declaration(MINIMAL).unwrap();
    let config = &declaration.config;
    assert_eq!(config.name(), "counter");
    assert_eq!(config.lib(), "counter.so");
    assert_eq!(config.max_data(), 10);
    assert_eq!(config.data_type(), "u64");
    assert_eq!(config.create_func(), None);
    assert_eq!(config.value_kind(), ValueKind::UInteger);
    assert_eq!(config.factory_symbol(), "create_uinteger_data_source_manager");
    assert!(declaration.plugin_settings.is_none());
}

#[test]
fn default_factory_names_follow_the_kind() {
    for (data_type, kind, symbol) in [
        ("i64", ValueKind::IInteger, "create_iinteger_data_source_manager"),
        ("u64", ValueKind::UInteger, "create_uinteger_data_source_manager"),
        ("f64", ValueKind::Float, "create_float_data_source_manager"),
    ] {
        let text = with_plugin(&format!(
            "name = \"p\"\nlib = \"p.so\"\ndata_type = \"{}\"",
            data_type
        ));
        let declaration = parse_declaration(&text).unwrap();
        assert_eq!(declaration.config.value_kind(), kind);
        assert_eq!(declaration.config.factory_symbol(), symbol);
        assert_eq!(parse_kind(data_type), Some(kind));
    }
    assert_eq!(parse_kind("i32"), None);
    assert_eq!(parse_kind(""), None);
    assert_eq!(parse_kind("I64"), None);
}

#[test]
fn text_that_is_no_toml_is_unparseable() {
    assert!(matches!(failure("[plugin"), PluginLoadFailure::UnparseableDeclaration(_)));
    assert!(matches!(failure("name = "), PluginLoadFailure::UnparseableDeclaration(_)));
    match failure("a = 1\na = 2") {
        PluginLoadFailure::UnparseableDeclaration(cause) => assert!(!cause.is_empty()),
        other => panic!("unexpected {:?}", other),
    }
}

#[test]
fn declaration_without_plugin_section_is_refused() {
    assert_eq!(failure(""), PluginLoadFailure::MissingPluginSection);
    assert_eq!(failure("[other]\nname = \"x\""), PluginLoadFailure::MissingPluginSection);
    assert_eq!(
        failure("name = \"p\"\nlib = \"p.so\"\ndata_type = \"i64\""),
        PluginLoadFailure::MissingPluginSection
    );
}

#[test]
fn plugin_entry_that_is_no_table_is_refused() {
    assert_eq!(failure("plugin = 3"), PluginLoadFailure::PluginSectionNotATable);
    assert_eq!(failure("plugin = \"thermo\""), PluginLoadFailure::PluginSectionNotATable);
    assert_eq!(failure("plugin = [1, 2]"), PluginLoadFailure::PluginSectionNotATable);
}

#[test]
fn missing_or_ill_typed_fields_are_refused() {
    let cases = [
        ("lib = \"p.so\"\ndata_type = \"i64\"", ConfigField::Name),
        ("name = 7\nlib = \"p.so\"\ndata_type = \"i64\"", ConfigField::Name),
        ("name = \"p\"\ndata_type = \"i64\"", ConfigField::Lib),
        ("name = \"p\"\nlib = true\ndata_type = \"i64\"", ConfigField::Lib),
        ("name = \"p\"\nlib = \"p.so\"", ConfigField::DataType),
        ("name = \"p\"\nlib = \"p.so\"\ndata_type = 64", ConfigField::DataType),
        ("name = \"p\"\nlib = \"p.so\"\ndata_type = \"i32\"", ConfigField::DataType),
        ("name = \"p\"\nlib = \"p.so\"\ndata_type = \"\"", ConfigField::DataType),
        ("name = \"p\"\nlib = \"p.so\"\ndata_type = \"i64\"\nmax_data = \"ten\"", ConfigField::MaxData),
        ("name = \"p\"\nlib = \"p.so\"\ndata_type = \"i64\"\nmax_data = 0", ConfigField::MaxData),
        ("name = \"p\"\nlib = \"p.so\"\ndata_type = \"i64\"\nmax_data = -4", ConfigField::MaxData),
        ("name = \"p\"\nlib = \"p.so\"\ndata_type = \"i64\"\nmax_data = 1.5", ConfigField::MaxData),
        ("name = \"p\"\nlib = \"p.so\"\ndata_type = \"i64\"\ncreate_func = 1", ConfigField::CreateFunc),
    ];
    for (fields, field) in cases {
        assert_eq!(failure(&with_plugin(fields)), PluginLoadFailure::InvalidField(field), "{}", fields);
    }
}

#[test]
fn first_bad_field_is_reported() {
    assert_eq!(
        failure(&with_plugin("data_type = \"nope\"\nmax_data = 0")),
        PluginLoadFailure::InvalidField(ConfigField::Name)
    );
    assert_eq!(
        failure(&with_plugin("name = \"p\"\nlib = \"l\"\ndata_type = \"nope\"\nmax_data = 0")),
        PluginLoadFailure::InvalidField(ConfigField::MaxData)
    );
    assert_eq!(
        failure(&with_plugin("name = \"p\"\nlib = \"l\"\ndata_type = \"nope\"\ncreate_func = 0")),
        PluginLoadFailure::InvalidField(ConfigField::DataType)
    );
}

#[test]
fn capacity_of_one_and_large_capacities_are_accepted() {
    let one = parse_declaration(&with_plugin(
        "name = \"p\"\nlib = \"l\"\ndata_type = \"i64\"\nmax_data = 1",
    ))
    .unwrap();
    assert_eq!(one.config.max_data(), 1);
    let large = parse_declaration(&with_plugin(
        "name = \"p\"\nlib = \"l\"\ndata_type = \"i64\"\nmax_data = 4000000000",
    ));
    if usize::BITS >= 64 {
        assert_eq!(large.unwrap().config.max_data(), 4_000_000_000);
    }
}

#[test]
fn unknown_fields_of_the_plugin_table_are_passed_over() {
    let declaration = parse_declaration(&with_plugin(
        "name = \"p\"\nlib = \"l\"\ndata_type = \"i64\"\nauthor = \"me\"",
    ))
    .unwrap();
    assert_eq!(declaration.config.name(), "p");
    assert!(declaration.plugin_settings.is_none());
}

#[test]
fn top_level_values_beside_the_plugin_table_are_the_plugins() {
    let text = format!("verbose = true\n{}", MINIMAL);
    let declaration = parse_declaration(&text).unwrap();
    let rest = declaration.plugin_settings.unwrap();
    assert_eq!(rest.len(), 1);
    assert_eq!(rest.get("verbose").unwrap().as_bool(), Some(true));
}

#[test]
fn parsed_tables_are_read_like_text() {
    let document: toml::Table = FULL.parse().unwrap();
    let declaration = read_declaration(document).unwrap();
    assert_eq!(declaration.config.name(), "thermo");
    assert!(declaration.plugin_settings.is_some());

    let mut document: toml::Table = MINIMAL.parse().unwrap();
    let fields = match document.remove("plugin") {
        Some(toml::Value::Table(fields)) => fields,
        _ => panic!("no plugin table"),
    };
    let config = read_config(fields).unwrap();
    assert_eq!(config.lib(), "counter.so");
    assert_eq!(read_config(toml::Table::new()).err(), Some(PluginLoadFailure::InvalidField(ConfigField::Name)));
    assert_eq!(read_declaration(toml::Table::new()).err(), Some(PluginLoadFailure::MissingPluginSection));
}

#[test]
fn a_bad_declaration_does_not_stop_the_next_one() {
    let texts = ["[plugin", MINIMAL, "plugin = 1", FULL];
    let mut names = Vec::new();
    for text in texts {
        if let Ok(declaration) = parse_declaration(text) {
            names.push(declaration.config.name().to_string());
        }
    }
    assert_eq!(names, vec!["counter".to_string(), "thermo".to_string()]);
}
