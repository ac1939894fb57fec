use florust::data_source::DataSourceError;
use florust::manager_and_data::ManagerAndDataError;
use florust::server_plugin::{DataSourceManagerError, FlorustServerPluginError};
use florust::UploadedData;

fn answer(error: FlorustServerPluginError) -> DataSourceError {
    DataSourceError::from_error(&ManagerAndDataError::DataSourceManager(error), "body".to_string())
}

#[test]
fn conflicts_are_409() {
    let a = answer(FlorustServerPluginError::DataSourceAlreadyExists("s".to_string()));
    assert_eq!(a, DataSourceError::Conflict("body".to_string()));
    assert_eq!(a.status_code(), 409);
}

#[test]
fn unknown_sources_and_managers_are_404() {
    let a = answer(FlorustServerPluginError::DataSourceDoesntExist("s".to_string()));
    assert_eq!(a, DataSourceError::NotFound("body".to_string()));
    assert_eq!(a.status_code(), 404);
    let a = answer(FlorustServerPluginError::DataSourceAlreadyDeregistered("s".to_string()));
    assert_eq!(a, DataSourceError::NotFound("body".to_string()));
    assert_eq!(a.status_code(), 404);
    let a = answer(FlorustServerPluginError::DataSourceManagerDoesntExist("m".to_string()));
    assert_eq!(a, DataSourceError::NotFound("body".to_string()));
    assert_eq!(a.status_code(), 404);
}

#[test]
fn invalid_payloads_are_400() {
    let a = answer(FlorustServerPluginError::DataSourceManager(
        DataSourceManagerError::InvalidData("short".to_string()),
    ));
    assert_eq!(a, DataSourceError::BadRequest("body".to_string()));
    assert_eq!(a.status_code(), 400);
}

#[test]
fn failed_reads_are_500() {
    let a = DataSourceError::from_error(&ManagerAndDataError::NoData, "{}".to_string());
    assert_eq!(a, DataSourceError::InternalError("{}".to_string()));
    assert_eq!(a.status_code(), 500);
    let a = DataSourceError::from_error(&ManagerAndDataError::IndexOutOfBounds, String::new());
    assert_eq!(a, DataSourceError::InternalError(String::new()));
    assert_eq!(a.status_code(), 500);
}

#[test]
fn error_constructors_name_the_identifier() {
    assert_eq!(
        ManagerAndDataError::already_exists("a"),
        ManagerAndDataError::DataSourceManager(FlorustServerPluginError::DataSourceAlreadyExists(
            "a".to_string()
        ))
    );
    assert_eq!(
        ManagerAndDataError::doesnt_exist("b"),
        ManagerAndDataError::DataSourceManager(FlorustServerPluginError::DataSourceDoesntExist(
            "b".to_string()
        ))
    );
    assert_eq!(
        ManagerAndDataError::already_deregistered("c"),
        ManagerAndDataError::DataSourceManager(
            FlorustServerPluginError::DataSourceAlreadyDeregistered("c".to_string())
        )
    );
    assert_eq!(
        ManagerAndDataError::manager_doesnt_exist("d"),
        ManagerAndDataError::DataSourceManager(
            FlorustServerPluginError::DataSourceManagerDoesntExist("d".to_string())
        )
    );
    assert_eq!(
        ManagerAndDataError::from_manager(DataSourceManagerError::InvalidData("e".to_string())),
        ManagerAndDataError::DataSourceManager(FlorustServerPluginError::DataSourceManager(
            DataSourceManagerError::InvalidData("e".to_string())
        ))
    );
}

#[test]
fn uploaded_data_holds_the_bytes() {
    let upload = UploadedData { data: vec![1, 2, 3] };
    assert_eq!(upload.data, vec![1, 2, 3]);
}
