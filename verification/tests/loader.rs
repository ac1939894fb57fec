use florust::data_type::{DataType, ManagerAndData};
use florust::default_plugins::{DefaultIIntegerDataManager, DefaultUIntegerDataManager};
use florust::loader::keep_loaded;
use florust::manager_and_data::TypedManagerAndData;
use florust::plugin_config::{parse_declaration, PluginLoadFailure};
use florust::state::FlorustState;

type Signed = TypedManagerAndData<i64, DefaultIIntegerDataManager>;

#[test]
fn nothing_tried_nothing_loaded() {
    let (managers, failures) = keep_loaded(Vec::<Result<u8, PluginLoadFailure>>::new());
    assert!(managers.is_empty());
    assert!(failures.is_empty());
}

#[test]
fn failures_are_skipped_and_the_rest_keeps_its_order() {
    let outcomes = vec![
        Ok(1u8),
        Err(PluginLoadFailure::MissingLibrary("libnone.so".to_string())),
        Ok(2),
        Err(PluginLoadFailure::MissingSymbol("create".to_string())),
        Err(PluginLoadFailure::ConstructionFailed("no".to_string())),
        Ok(3),
    ];
    let (managers, failures) = keep_loaded(outcomes);
    assert_eq!(managers, vec![1, 2, 3]);
    assert_eq!(
        failures,
        vec![
            PluginLoadFailure::MissingLibrary("libnone.so".to_string()),
            PluginLoadFailure::MissingSymbol("create".to_string()),
            PluginLoadFailure::ConstructionFailed("no".to_string()),
        ]
    );
}

#[test]
fn only_failures_load_nothing() {
    let outcomes: Vec<Result<u8, PluginLoadFailure>> = vec![
        Err(PluginLoadFailure::MissingPluginSection),
        Err(PluginLoadFailure::PluginSectionNotATable),
    ];
    let (managers, failures) = keep_loaded(outcomes);
    assert!(managers.is_empty());
    assert_eq!(failures.len(), 2);
}

#[test]
fn missing_library_does_not_stop_the_other_plugins() {
    let declaration = parse_declaration(
        "[plugin]\nname = \"gone\"\nlib = \"does/not/exist.so\"\ndata_type = \"i64\"\n",
    )
    .unwrap();
    let missing = PluginLoadFailure::MissingLibrary(declaration.config.lib().to_string());
    let outcomes: Vec<Result<Signed, PluginLoadFailure>> = vec![
        Err(PluginLoadFailure::MissingLibrary(declaration.config.lib().to_string())),
        Ok(TypedManagerAndData::new(DefaultIIntegerDataManager, 3)),
    ];
    let (managers, failures) = keep_loaded(outcomes);
    assert_eq!(failures, vec![missing]);
    let (mut state, rejected) = FlorustState::new(managers);
    assert!(rejected.is_empty());
    let id = "FlorustDefaultIIntegerDataManager";
    assert!(state.manager_exists(id));
    assert_eq!(state.register_data_source(id, "s1".to_string(), None), Ok(()));
    assert_eq!(state.update_data(id, "s1", &5i64.to_be_bytes()), Ok(()));
    assert_eq!(state.get_data(id, "s1", 0), Ok(DataType::IInteger(5)));
}

#[test]
fn unsigned_manager_loads_beside_failures() {
    let outcomes = vec![
        Err(PluginLoadFailure::UnparseableDeclaration("bad".to_string())),
        Ok(TypedManagerAndData::new(DefaultUIntegerDataManager, 1)),
        Err(PluginLoadFailure::MissingSymbol("f".to_string())),
    ];
    let (managers, failures) = keep_loaded(outcomes);
    assert_eq!(failures.len(), 2);
    assert_eq!(managers.len(), 1);
    assert_eq!(managers[0].manager_id(), "FlorustDefaultUIntegerDataManager");
}
