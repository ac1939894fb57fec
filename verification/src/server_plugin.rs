//! The contract between the runtime and a data source manager: the backend
//! that is told of registrations and turns uploaded bytes into readings.

use vstd::prelude::*;

verus! {

/// What a data source manager reports when it turns a request down.
#[derive(Debug, PartialEq, Eq)]
pub enum DataSourceManagerError {
    /// The manager was given data it cannot use; the text says why.
    InvalidData(String),
}

impl DataSourceManagerError {
    /// The cause the manager gave.
    pub open spec fn detail(&self) -> Seq<char> {
        match self {
            DataSourceManagerError::InvalidData(cause) => cause@,
        }
    }
}

/// Why the server turned a request on a data source down.
#[derive(Debug, PartialEq, Eq)]
pub enum FlorustServerPluginError {
    /// The data source is already registered with the manager.
    DataSourceAlreadyExists(String),
    /// The manager has no registered data source of that identifier.
    DataSourceDoesntExist(String),
    /// The data source was deregistered before.
    DataSourceAlreadyDeregistered(String),
    /// No manager of that identifier is loaded.
    DataSourceManagerDoesntExist(String),
    /// The manager itself turned the request down.
    DataSourceManager(DataSourceManagerError),
}

/// A reading of floating-point kind, carried as its IEEE 754 binary64 bit
/// pattern.
#[derive(Clone, Copy, Debug, PartialEq, Eq, Structural)]
pub struct FloatBits(pub u64);

/// A data source manager that decodes readings of type `T`.
///
/// The runtime calls a hook only for a request that its own bookkeeping
/// accepts, and leaves its bookkeeping as it was when the hook fails.
///
/// Beside each hook stands a predicate that says which answers the hook may
/// give. A manager that states nothing of a hook leaves its predicate as it
/// is: every answer is possible.
pub trait DataSourceManager<T>: Sync + Send {
    /// Whether `id` is an identifier that `manager_id` may give.
    open spec fn manager_id_result(&self, id: Seq<char>) -> bool {
        true
    }

    /// Whether `r` is an answer that `register` may give for `id`.
    open spec fn register_result(&self, id: Seq<char>, r: Result<(), DataSourceManagerError>) -> bool {
        true
    }

    /// Whether `r` is an answer that `register_with_data` may give for `id`
    /// and `data`.
    open spec fn register_with_data_result(
        &self,
        id: Seq<char>,
        data: Seq<u8>,
        r: Result<(), DataSourceManagerError>,
    ) -> bool {
        true
    }

    /// Whether `r` is an answer that `deregister` may give for `id`.
    open spec fn deregister_result(
        &self,
        id: Seq<char>,
        r: Result<(), DataSourceManagerError>,
    ) -> bool {
        true
    }

    /// Whether `r` is an answer that `deregister_with_data` may give for
    /// `id` and `data`.
    open spec fn deregister_with_data_result(
        &self,
        id: Seq<char>,
        data: Seq<u8>,
        r: Result<(), DataSourceManagerError>,
    ) -> bool {
        true
    }

    /// Whether `r` is an answer that `update_data` may give for `id` and
    /// `data`.
    open spec fn update_data_result(
        &self,
        id: Seq<char>,
        data: Seq<u8>,
        r: Result<T, DataSourceManagerError>,
    ) -> bool {
        true
    }

    /// The identifier under which the manager is reached.
    fn manager_id(&self) -> (id: &'static str)
        ensures
            self.manager_id_result(id@),
    ;

    /// Called when a data source registers itself.
    fn register(&mut self, id: String) -> (r: Result<(), DataSourceManagerError>)
        ensures
            old(self).register_result(id@, r),
    ;

    /// Called when a data source registers itself and sent additional data
    /// with the request.
    fn register_with_data(&mut self, id: String, data: &[u8]) -> (r: Result<
        (),
        DataSourceManagerError,
    >)
        ensures
            old(self).register_with_data_result(id@, data@, r),
    ;

    /// Called when a data source asks to be deregistered.
    fn deregister(&mut self, id: &str) -> (r: Result<(), DataSourceManagerError>)
        ensures
            old(self).deregister_result(id@, r),
    ;

    /// Called when a data source asks to be deregistered and sent additional
    /// data with the request.
    fn deregister_with_data(&mut self, id: &str, data: &[u8]) -> (r: Result<
        (),
        DataSourceManagerError,
    >)
        ensures
            old(self).deregister_with_data_result(id@, data@, r),
    ;

    /// Called when a data source has posted an update; decodes the raw data
    /// into a reading.
    fn update_data(&mut self, id: &str, data: &[u8]) -> (r: Result<T, DataSourceManagerError>)
        ensures
            old(self).update_data_result(id@, data@, r),
    ;
}

/// A boxed manager is a manager: each hook is the hook of what the box
/// holds.
impl<T> DataSourceManager<T> for Box<dyn DataSourceManager<T>> {
    open spec fn manager_id_result(&self, id: Seq<char>) -> bool {
        (**self).manager_id_result(id)
    }

    open spec fn register_result(&self, id: Seq<char>, r: Result<(), DataSourceManagerError>) -> bool {
        (**self).register_result(id, r)
    }

    open spec fn register_with_data_result(
        &self,
        id: Seq<char>,
        data: Seq<u8>,
        r: Result<(), DataSourceManagerError>,
    ) -> bool {
        (**self).register_with_data_result(id, data, r)
    }

    open spec fn deregister_result(
        &self,
        id: Seq<char>,
        r: Result<(), DataSourceManagerError>,
    ) -> bool {
        (**self).deregister_result(id, r)
    }

    open spec fn deregister_with_data_result(
        &self,
        id: Seq<char>,
        data: Seq<u8>,
        r: Result<(), DataSourceManagerError>,
    ) -> bool {
        (**self).deregister_with_data_result(id, data, r)
    }

    open spec fn update_data_result(
        &self,
        id: Seq<char>,
        data: Seq<u8>,
        r: Result<T, DataSourceManagerError>,
    ) -> bool {
        (**self).update_data_result(id, data, r)
    }

    fn manager_id(&self) -> (id: &'static str) {
        (**self).manager_id()
    }

    fn register(&mut self, id: String) -> (r: Result<(), DataSourceManagerError>) {
        (**self).register(id)
    }

    fn register_with_data(&mut self, id: String, data: &[u8]) -> (r: Result<
        (),
        DataSourceManagerError,
    >) {
        (**self).register_with_data(id, data)
    }

    fn deregister(&mut self, id: &str) -> (r: Result<(), DataSourceManagerError>) {
        (**self).deregister(id)
    }

    fn deregister_with_data(&mut self, id: &str, data: &[u8]) -> (r: Result<
        (),
        DataSourceManagerError,
    >) {
        (**self).deregister_with_data(id, data)
    }

    fn update_data(&mut self, id: &str, data: &[u8]) -> (r: Result<T, DataSourceManagerError>) {
        (**self).update_data(id, data)
    }
}

/// A manager whose readings are signed integers.
pub trait IIntegerDataSourceManager: DataSourceManager<i64> + Sync + Send {
}

/// A manager whose readings are unsigned integers.
pub trait UIntegerDataSourceManager: DataSourceManager<u64> + Sync + Send {
}

/// A manager whose readings are floating-point numbers.
pub trait FloatDataSourceManager: DataSourceManager<FloatBits> + Sync + Send {
}

} // verus!
