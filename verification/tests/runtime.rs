use std::sync::atomic::{AtomicU32, Ordering};
use std::sync::Arc;

use florust::manager_and_data::{DataSourceStatus, ManagerAndDataError, TypedManagerAndData};
use florust::server_plugin::{
    DataSourceManager, DataSourceManagerError, FlorustServerPluginError,
};

#[derive(Default)]
struct Count(AtomicU32);

impl Count {
    fn get(&self) -> u32 {
        self.0.load(Ordering::SeqCst)
    }
}

#[derive(Default)]
struct Calls {
    register: Count,
    register_with_data: Count,
    deregister: Count,
    deregister_with_data: Count,
    update: Count,
}

/// Decodes a one-byte payload to its value; refuses any other payload and
/// any registration of the identifier "refused".
struct ByteManager {
    calls: Arc<Calls>,
}

fn bump(count: &Count) {
    count.0.fetch_add(1, Ordering::SeqCst);
}

impl DataSourceManager<i64> for ByteManager {
    fn manager_id(&self) -> &'static str {
        "bytes"
    }

    fn register(&mut self, id: String) -> Result<(), DataSourceManagerError> {
        bump(&self.calls.register);
        if id == "refused" {
            return Err(DataSourceManagerError::InvalidData("not welcome".to_string()));
        }
        Ok(())
    }

    fn register_with_data(&mut self, _id: String, data: &[u8]) -> Result<(), DataSourceManagerError> {
        bump(&self.calls.register_with_data);
        if data.is_empty() {
            return Err(DataSourceManagerError::InvalidData("empty".to_string()));
        }
        Ok(())
    }

    fn deregister(&mut self, id: &str) -> Result<(), DataSourceManagerError> {
        bump(&self.calls.deregister);
        if id == "sticky" {
            return Err(DataSourceManagerError::InvalidData("stays".to_string()));
        }
        Ok(())
    }

    fn deregister_with_data(&mut self, _id: &str, _data: &[u8]) -> Result<(), DataSourceManagerError> {
        bump(&self.calls.deregister_with_data);
        Ok(())
    }

    fn update_data(&mut self, _id: &str, data: &[u8]) -> Result<i64, DataSourceManagerError> {
        bump(&self.calls.update);
        if data.len() != 1 {
            return Err(DataSourceManagerError::InvalidData("one byte expected".to_string()));
        }
        Ok(i64::from(data[0]))
    }
}

fn runtime(capacity: usize) -> (TypedManagerAndData<i64, ByteManager>, Arc<Calls>) {
    let calls = Arc::new(Calls::default());
    (TypedManagerAndData::new(ByteManager { calls: calls.clone() }, capacity), calls)
}

fn already_exists(id: &str) -> ManagerAndDataError {
    ManagerAndDataError::DataSourceManager(FlorustServerPluginError::DataSourceAlreadyExists(
        id.to_string(),
    ))
}

fn doesnt_exist(id: &str) -> ManagerAndDataError {
    ManagerAndDataError::DataSourceManager(FlorustServerPluginError::DataSourceDoesntExist(
        id.to_string(),
    ))
}

fn already_deregistered(id: &str) -> ManagerAndDataError {
    ManagerAndDataError::DataSourceManager(FlorustServerPluginError::DataSourceAlreadyDeregistered(
        id.to_string(),
    ))
}

fn invalid(cause: &str) -> ManagerAndDataError {
    ManagerAndDataError::DataSourceManager(FlorustServerPluginError::DataSourceManager(
        DataSourceManagerError::InvalidData(cause.to_string()),
    ))
}

#[test]
fn manager_id_is_the_managers() {
    let (rt, _) = runtime(3);
    assert_eq!(rt.manager_id(), "bytes");
}

#[test]
fn register_twice_fails_and_calls_hook_once() {
    let (mut rt, calls) = runtime(3);
    assert_eq!(rt.register("s1".to_string()), Ok(()));
    assert_eq!(rt.register("s1".to_string()), Err(already_exists("s1")));
    assert_eq!(rt.register_with_data("s1".to_string(), &[1]), Err(already_exists("s1")));
    assert_eq!(calls.register.get(), 1);
    assert_eq!(calls.register_with_data.get(), 0);
    assert!(rt.is_registered("s1"));
}

#[test]
fn register_with_data_uses_the_other_hook() {
    let (mut rt, calls) = runtime(3);
    assert_eq!(rt.register_with_data("s1".to_string(), &[9]), Ok(()));
    assert_eq!(calls.register.get(), 0);
    assert_eq!(calls.register_with_data.get(), 1);
    assert!(rt.is_registered("s1"));
    assert_eq!(rt.register_with_data("s2".to_string(), &[]), Err(invalid("empty")));
    assert!(!rt.is_registered("s2"));
}

#[test]
fn failed_register_hook_leaves_no_entry() {
    let (mut rt, calls) = runtime(3);
    assert_eq!(rt.register("refused".to_string()), Err(invalid("not welcome")));
    assert_eq!(calls.register.get(), 1);
    assert!(!rt.is_registered("refused"));
    assert_eq!(rt.get_data("refused", 0), Err(doesnt_exist("refused")));
    assert_eq!(rt.deregister("refused"), Err(doesnt_exist("refused")));
}

#[test]
fn deregister_absent_or_deregistered_never_touches_the_manager() {
    let (mut rt, calls) = runtime(3);
    assert_eq!(rt.deregister("ghost"), Err(doesnt_exist("ghost")));
    assert_eq!(rt.deregister_with_data("ghost", &[1]), Err(doesnt_exist("ghost")));
    assert_eq!(calls.deregister.get(), 0);
    assert_eq!(calls.deregister_with_data.get(), 0);

    assert_eq!(rt.register("s1".to_string()), Ok(()));
    assert_eq!(rt.update_data("s1", &[5]), Ok(()));
    assert_eq!(rt.deregister("s1"), Ok(()));
    assert_eq!(calls.deregister.get(), 1);
    assert_eq!(rt.deregister("s1"), Err(already_deregistered("s1")));
    assert_eq!(rt.deregister_with_data("s1", &[1]), Err(already_deregistered("s1")));
    assert_eq!(calls.deregister.get(), 1);
    assert_eq!(calls.deregister_with_data.get(), 0);
}

#[test]
fn deregister_without_history_forgets_the_source() {
    let (mut rt, _) = runtime(3);
    assert_eq!(rt.register("s1".to_string()), Ok(()));
    assert_eq!(rt.deregister("s1"), Ok(()));
    assert_eq!(rt.deregister("s1"), Err(doesnt_exist("s1")));
    assert_eq!(rt.get_data("s1", 0), Err(doesnt_exist("s1")));
    assert_eq!(rt.register("s1".to_string()), Ok(()));
    assert_eq!(rt.get_data("s1", 0), Err(ManagerAndDataError::NoData));
}

#[test]
fn failed_deregister_hook_keeps_the_source_registered() {
    let (mut rt, _) = runtime(3);
    assert_eq!(rt.register("sticky".to_string()), Ok(()));
    assert_eq!(rt.deregister("sticky"), Err(invalid("stays")));
    assert!(rt.is_registered("sticky"));
    assert_eq!(rt.update_data("sticky", &[4]), Ok(()));
    assert_eq!(rt.deregister_with_data("sticky", &[0]), Ok(()));
    assert!(!rt.is_registered("sticky"));
    assert_eq!(rt.get_data("sticky", 0), Ok(4));
}

#[test]
fn update_on_unregistered_id_fails_and_decodes_nothing() {
    let (mut rt, calls) = runtime(3);
    assert_eq!(rt.update_data("ghost", &[1]), Err(doesnt_exist("ghost")));
    assert_eq!(calls.update.get(), 0);
    assert_eq!(rt.register("s1".to_string()), Ok(()));
    assert_eq!(rt.update_data("s1", &[7]), Ok(()));
    assert_eq!(rt.update_data("ghost", &[1]), Err(doesnt_exist("ghost")));
    assert_eq!(rt.get_data("s1", 0), Ok(7));
    assert_eq!(rt.get_data("s1", 1), Err(ManagerAndDataError::IndexOutOfBounds));
    assert_eq!(calls.update.get(), 1);
}

#[test]
fn first_update_is_read_at_zero_and_one_is_out_of_bounds() {
    let (mut rt, _) = runtime(3);
    assert_eq!(rt.register("s1".to_string()), Ok(()));
    assert_eq!(rt.update_data("s1", &[42]), Ok(()));
    assert_eq!(rt.get_data("s1", 0), Ok(42));
    assert_eq!(rt.get_data("s1", 1), Err(ManagerAndDataError::IndexOutOfBounds));
}

#[test]
fn read_before_any_update_is_no_data() {
    let (mut rt, _) = runtime(3);
    assert_eq!(rt.register("s1".to_string()), Ok(()));
    assert_eq!(rt.get_data("s1", 0), Err(ManagerAndDataError::NoData));
    assert_eq!(rt.get_data("s1", 5), Err(ManagerAndDataError::NoData));
}

#[test]
fn failed_decode_is_handed_on_and_changes_nothing() {
    let (mut rt, _) = runtime(3);
    assert_eq!(rt.register("s1".to_string()), Ok(()));
    assert_eq!(rt.update_data("s1", &[1, 2]), Err(invalid("one byte expected")));
    assert_eq!(rt.get_data("s1", 0), Err(ManagerAndDataError::NoData));
    assert_eq!(rt.update_data("s1", &[3]), Ok(()));
    assert_eq!(rt.update_data("s1", &[]), Err(invalid("one byte expected")));
    assert_eq!(rt.get_data("s1", 0), Ok(3));
    assert_eq!(rt.get_data("s1", 1), Err(ManagerAndDataError::IndexOutOfBounds));
}

#[test]
fn history_survives_deregistration_and_reregistration() {
    let (mut rt, _) = runtime(2);
    assert_eq!(rt.register("s1".to_string()), Ok(()));
    assert_eq!(rt.update_data("s1", &[1]), Ok(()));
    assert_eq!(rt.update_data("s1", &[2]), Ok(()));
    assert_eq!(rt.deregister("s1"), Ok(()));
    assert_eq!(rt.get_data("s1", 0), Ok(1));
    assert_eq!(rt.get_data("s1", 1), Ok(2));
    assert_eq!(rt.update_data("s1", &[3]), Err(doesnt_exist("s1")));
    assert_eq!(rt.register("s1".to_string()), Ok(()));
    assert_eq!(rt.get_data("s1", 0), Ok(1));
    assert_eq!(rt.get_data("s1", 1), Ok(2));
    assert_eq!(rt.update_data("s1", &[3]), Ok(()));
    assert_eq!(rt.get_data("s1", 0), Ok(2));
    assert_eq!(rt.get_data("s1", 1), Ok(3));
    assert_eq!(rt.get_data("s1", 2), Err(ManagerAndDataError::IndexOutOfBounds));
}

#[test]
fn scenario_register_update_read_deregister() {
    let (mut rt, _) = runtime(10);
    assert_eq!(rt.register("s1".to_string()), Ok(()));
    assert_eq!(rt.update_data("s1", &[42]), Ok(()));
    assert_eq!(rt.get_data("s1", 0), Ok(42));
    assert_eq!(rt.deregister("s1"), Ok(()));
    assert_eq!(rt.get_data("s1", 0), Ok(42));
    assert_eq!(rt.update_data("s1", &[43]), Err(doesnt_exist("s1")));
}

#[test]
fn sources_are_independent() {
    let (mut rt, _) = runtime(2);
    for id in ["a", "b", "c"] {
        assert_eq!(rt.register(id.to_string()), Ok(()));
    }
    assert_eq!(rt.update_data("a", &[1]), Ok(()));
    assert_eq!(rt.update_data("b", &[2]), Ok(()));
    assert_eq!(rt.update_data("a", &[3]), Ok(()));
    assert_eq!(rt.deregister("b"), Ok(()));
    assert_eq!(rt.deregister("c"), Ok(()));
    assert_eq!(rt.get_data("a", 0), Ok(1));
    assert_eq!(rt.get_data("a", 1), Ok(3));
    assert_eq!(rt.get_data("b", 0), Ok(2));
    assert_eq!(rt.get_data("c", 0), Err(doesnt_exist("c")));
    assert!(rt.is_registered("a"));
    assert!(!rt.is_registered("b"));
}

#[test]
fn finish_functions_apply_the_hook_result() {
    let (mut rt, calls) = runtime(2);
    assert_eq!(rt.finish_register("s1".to_string(), Ok(())), Ok(()));
    assert_eq!(
        rt.finish_register(
            "s2".to_string(),
            Err(DataSourceManagerError::InvalidData("no".to_string()))
        ),
        Err(invalid("no"))
    );
    assert!(rt.is_registered("s1"));
    assert!(!rt.is_registered("s2"));
    assert_eq!(rt.finish_update("s1", Ok(5)), Ok(()));
    assert_eq!(
        rt.finish_update("s1", Err(DataSourceManagerError::InvalidData("bad".to_string()))),
        Err(invalid("bad"))
    );
    assert_eq!(rt.get_data("s1", 0), Ok(5));
    assert_eq!(
        rt.finish_deregister("s1", Err(DataSourceManagerError::InvalidData("no".to_string()))),
        Err(invalid("no"))
    );
    assert!(rt.is_registered("s1"));
    assert_eq!(rt.finish_deregister("s1", Ok(())), Ok(()));
    assert!(!rt.is_registered("s1"));
    assert_eq!(rt.get_data("s1", 0), Ok(5));
    assert_eq!(calls.register.get() + calls.update.get() + calls.deregister.get(), 0);
}

#[test]
fn status_transitions() {
    let status: DataSourceStatus<i64> = DataSourceStatus::RegisteredNoData;
    assert!(status.is_registered());
    assert_eq!(status.read(0), Err(ManagerAndDataError::NoData));
    assert!(status.data_or_err(|| ManagerAndDataError::NoData).is_err());
    let status = status.updated(11, 2);
    assert!(status.is_registered());
    assert_eq!(status.read(0), Ok(11));
    assert_eq!(status.data_or_err(|| ManagerAndDataError::NoData).unwrap().get(0), Some(&11));
    let status = status.deregistered().unwrap();
    assert!(!status.is_registered());
    assert_eq!(status.read(0), Ok(11));
    assert_eq!(status.read(1), Err(ManagerAndDataError::IndexOutOfBounds));
    let status = status.reregistered();
    assert!(status.is_registered());
    assert_eq!(status.read(0), Ok(11));
    let fresh: DataSourceStatus<i64> = DataSourceStatus::RegisteredNoData;
    assert!(fresh.deregistered().is_none());
}

#[test]
fn checks_say_what_the_registry_turns_down() {
    let (mut rt, calls) = runtime(2);
    assert_eq!(rt.check_register("s1"), Ok(()));
    assert_eq!(rt.check_deregister("s1"), Err(doesnt_exist("s1")));
    assert_eq!(rt.check_update("s1"), Err(doesnt_exist("s1")));

    assert_eq!(rt.register("s1".to_string()), Ok(()));
    assert_eq!(rt.check_register("s1"), Err(already_exists("s1")));
    assert_eq!(rt.check_deregister("s1"), Ok(()));
    assert_eq!(rt.check_update("s1"), Ok(()));

    assert_eq!(rt.update_data("s1", &[1]), Ok(()));
    assert_eq!(rt.deregister("s1"), Ok(()));
    assert_eq!(rt.check_register("s1"), Ok(()));
    assert_eq!(rt.check_deregister("s1"), Err(already_deregistered("s1")));
    assert_eq!(rt.check_update("s1"), Err(doesnt_exist("s1")));
    assert_eq!(calls.register.get(), 1);
    assert_eq!(calls.update.get(), 1);
    assert_eq!(calls.deregister.get(), 1);
}

#[test]
fn full_history_drops_the_oldest_reading() {
    let (mut rt, _) = runtime(3);
    assert_eq!(rt.register("s1".to_string()), Ok(()));
    for v in 1..=5u8 {
        assert_eq!(rt.update_data("s1", &[v]), Ok(()));
    }
    assert_eq!(rt.get_data("s1", 0), Ok(3));
    assert_eq!(rt.get_data("s1", 1), Ok(4));
    assert_eq!(rt.get_data("s1", 2), Ok(5));
    assert_eq!(rt.get_data("s1", 3), Err(ManagerAndDataError::IndexOutOfBounds));
}
