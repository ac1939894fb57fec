//! The lifecycle of a data source and the manager-side bookkeeping of what
//! each source has reported.

use vstd::prelude::*;
use crate::circular_vec::CircularVec;
use crate::id_table::{
    distinct,
    holds,
    lemma_slot,
    lemma_table_push,
    lemma_table_swap_remove,
    slot,
    table,
};
use crate::server_plugin::{DataSourceManager, DataSourceManagerError, FlorustServerPluginError};
use crate::source_state::{
    after_deregister,
    after_register,
    after_update,
    deregister_answered,
    deregister_done,
    deregister_refusal,
    is_read_result,
    read_state,
    register_answered,
    register_done,
    register_refusal,
    registered,
    update_answered,
    update_done,
    update_refusal,
    with_deregistered,
    with_registered,
    with_update,
    ErrorKind,
    SourceState,
};
use crate::text::str_eq;

verus! {

/// The error of every operation of a manager and its data.
#[derive(Debug, PartialEq, Eq)]
pub enum ManagerAndDataError {
    /// The request was turned down, by the server or by the manager.
    DataSourceManager(FlorustServerPluginError),
    /// The data source has reported no data yet.
    NoData,
    /// The index is not within the retained history.
    IndexOutOfBounds,
}

impl View for ManagerAndDataError {
    type V = ErrorKind;

    open spec fn view(&self) -> ErrorKind {
        match self {
            ManagerAndDataError::DataSourceManager(
                FlorustServerPluginError::DataSourceAlreadyExists(id),
            ) => ErrorKind::IdAlreadyExists(id@),
            ManagerAndDataError::DataSourceManager(
                FlorustServerPluginError::DataSourceDoesntExist(id),
            ) => ErrorKind::IdDoesntExist(id@),
            ManagerAndDataError::DataSourceManager(
                FlorustServerPluginError::DataSourceAlreadyDeregistered(id),
            ) => ErrorKind::IdAlreadyDeregistered(id@),
            ManagerAndDataError::DataSourceManager(
                FlorustServerPluginError::DataSourceManagerDoesntExist(id),
            ) => ErrorKind::ManagerDoesntExist(id@),
            ManagerAndDataError::DataSourceManager(
                FlorustServerPluginError::DataSourceManager(err),
            ) => ErrorKind::InvalidPayload(err.detail()),
            ManagerAndDataError::NoData => ErrorKind::NoData,
            ManagerAndDataError::IndexOutOfBounds => ErrorKind::IndexOutOfBounds,
        }
    }
}

impl ManagerAndDataError {
    /// The error of registering `id` while it is registered.
    pub fn already_exists(id: &str) -> (err: ManagerAndDataError)
        ensures
            err@ == ErrorKind::IdAlreadyExists(id@),
    {
        ManagerAndDataError::DataSourceManager(
            FlorustServerPluginError::DataSourceAlreadyExists(id.to_owned()),
        )
    }

    /// The error of using `id` while it is not registered.
    pub fn doesnt_exist(id: &str) -> (err: ManagerAndDataError)
        ensures
            err@ == ErrorKind::IdDoesntExist(id@),
    {
        ManagerAndDataError::DataSourceManager(
            FlorustServerPluginError::DataSourceDoesntExist(id.to_owned()),
        )
    }

    /// The error of deregistering `id` once more.
    pub fn already_deregistered(id: &str) -> (err: ManagerAndDataError)
        ensures
            err@ == ErrorKind::IdAlreadyDeregistered(id@),
    {
        ManagerAndDataError::DataSourceManager(
            FlorustServerPluginError::DataSourceAlreadyDeregistered(id.to_owned()),
        )
    }

    /// The error of asking for a manager that is not loaded.
    pub fn manager_doesnt_exist(manager_id: &str) -> (err: ManagerAndDataError)
        ensures
            err@ == ErrorKind::ManagerDoesntExist(manager_id@),
    {
        ManagerAndDataError::DataSourceManager(
            FlorustServerPluginError::DataSourceManagerDoesntExist(manager_id.to_owned()),
        )
    }

    /// Wraps what a manager reported, keeping its cause.
    pub fn from_manager(cause: DataSourceManagerError) -> (err: ManagerAndDataError)
        ensures
            err@ == ErrorKind::InvalidPayload(cause.detail()),
    {
        ManagerAndDataError::DataSourceManager(FlorustServerPluginError::DataSourceManager(cause))
    }
}

/// The stored form of a data source's state.
pub enum DataSourceStatus<T> {
    /// Registered, with retained history.
    Registered(CircularVec<T>),
    /// Registered, nothing decoded yet.
    RegisteredNoData,
    /// Deregistered, with the history it left.
    Deregistered(CircularVec<T>),
}

impl<T> View for DataSourceStatus<T> {
    type V = SourceState<T>;

    open spec fn view(&self) -> SourceState<T> {
        match self {
            DataSourceStatus::Registered(data) => SourceState::RegisteredWithData(data@),
            DataSourceStatus::RegisteredNoData => SourceState::RegisteredNoData,
            DataSourceStatus::Deregistered(data) => SourceState::DeregisteredWithData(data@),
        }
    }
}

impl<T> DataSourceStatus<T> {
    /// A stored history is a well-formed buffer that holds at least one
    /// reading.
    pub open spec fn wf(&self) -> bool {
        match self {
            DataSourceStatus::Registered(data) | DataSourceStatus::Deregistered(data) => {
                &&& data.wf()
                &&& data@.len() > 0
            },
            DataSourceStatus::RegisteredNoData => true,
        }
    }

    /// Whether the stored history, if there is one, retains up to `capacity`
    /// readings.
    pub open spec fn retains(&self, capacity: nat) -> bool {
        match self {
            DataSourceStatus::Registered(data) | DataSourceStatus::Deregistered(data) => {
                data.capacity() == capacity
            },
            DataSourceStatus::RegisteredNoData => true,
        }
    }

    /// Whether the source is in active service.
    pub fn is_registered(&self) -> (r: bool)
        ensures
            r == self@.is_registered(),
    {
        match self {
            Self::Registered(_) | Self::RegisteredNoData => true,
            Self::Deregistered(_) => false,
        }
    }

    /// The retained history, or the error that `op` makes when there is none.
    pub fn data_or_err<O: FnOnce() -> ManagerAndDataError>(&self, op: O) -> (r: Result<
        &CircularVec<T>,
        ManagerAndDataError,
    >)
        requires
            *self is RegisteredNoData ==> op.requires(()),
        ensures
            match *self {
                DataSourceStatus::Registered(data) | DataSourceStatus::Deregistered(data) => r
                    == Ok::<&CircularVec<T>, ManagerAndDataError>(&data),
                DataSourceStatus::RegisteredNoData => r is Err && op.ensures((), r->Err_0),
            },
    {
        match self {
            Self::Registered(data) | Self::Deregistered(data) => Ok(data),
            Self::RegisteredNoData => Err(op()),
        }
    }

    /// The status after a registration that found the source deregistered or
    /// without data: the history, if any, is taken up again.
    pub fn reregistered(self) -> (status: DataSourceStatus<T>)
        ensures
            status@ == after_register(Some(self@)),
            self.wf() ==> status.wf(),
            forall|capacity: nat| self.retains(capacity) ==> status.retains(capacity),
    {
        match self {
            Self::Deregistered(data) => Self::Registered(data),
            status => status,
        }
    }

    /// The status after deregistration, or `None` where the source has no
    /// history and its entry is to be removed.
    pub fn deregistered(self) -> (status: Option<DataSourceStatus<T>>)
        ensures
            match status {
                Some(s) => after_deregister(self@) == Some(s@),
                None => after_deregister(self@) is None,
            },
            status matches Some(s) ==> (self.wf() ==> s.wf()) && forall|capacity: nat|
                self.retains(capacity) ==> s.retains(capacity),
    {
        match self {
            Self::Registered(data) => Some(Self::Deregistered(data)),
            Self::RegisteredNoData => None,
            Self::Deregistered(data) => Some(Self::Deregistered(data)),
        }
    }

    /// The status after `reading` was appended; the first reading of a source
    /// creates its buffer, which retains up to `max_size` readings.
    pub fn updated(self, reading: T, max_size: usize) -> (status: DataSourceStatus<T>)
        requires
            max_size > 0,
            self.wf(),
            self.retains(max_size as nat),
        ensures
            status.wf(),
            status.retains(max_size as nat),
            status@ == after_update(self@, reading, max_size as nat),
    {
        match self {
            Self::RegisteredNoData => {
                let mut data = CircularVec::new(max_size);
                data.append(reading);
                assert(Seq::<T>::empty().push(reading).len() == 1);
                Self::Registered(data)
            },
            Self::Registered(data) | Self::Deregistered(data) => {
                let mut data = data;
                data.append(reading);
                Self::Registered(data)
            },
        }
    }
}

impl<T: Copy> DataSourceStatus<T> {
    /// The reading at position `index` of the history, where position 0 is
    /// the oldest retained reading.
    pub fn read(&self, index: usize) -> (r: Result<T, ManagerAndDataError>)
        requires
            self.wf(),
        ensures
            match r {
                Ok(reading) => read_state(self@, index as nat) == Ok::<T, ErrorKind>(reading),
                Err(err) => read_state(self@, index as nat) == Err::<T, ErrorKind>(err@),
            },
    {
        match self {
            Self::RegisteredNoData => Err(ManagerAndDataError::NoData),
            Self::Registered(data) | Self::Deregistered(data) => match data.get(index) {
                Some(reading) => Ok(*reading),
                None => Err(ManagerAndDataError::IndexOutOfBounds),
            },
        }
    }
}

/// The registry that a table of stored statuses stands for.
spec fn states<T>(entries: Map<Seq<char>, DataSourceStatus<T>>) -> Map<Seq<char>, SourceState<T>> {
    Map::new(|id: Seq<char>| entries.contains_key(id), |id: Seq<char>| entries[id]@)
}

/// A data source manager together with what its data sources have reported:
/// for each source identifier the lifecycle state and the retained readings.
pub struct TypedManagerAndData<T, M: DataSourceManager<T>> {
    manager: M,
    manager_id: &'static str,
    ids: Vec<String>,
    statuses: Vec<DataSourceStatus<T>>,
    max_logged_data_size: usize,
}

impl<T, M: DataSourceManager<T>> View for TypedManagerAndData<T, M> {
    type V = Map<Seq<char>, SourceState<T>>;

    /// The registry: the state of every source the runtime keeps an entry
    /// for, by source identifier.
    closed spec fn view(&self) -> Map<Seq<char>, SourceState<T>> {
        states(table(self.ids@, self.statuses@))
    }
}

impl<T, M: DataSourceManager<T>> TypedManagerAndData<T, M> {
    /// The representation invariant: no identifier has two entries, and every
    /// stored history is a well-formed buffer of the retention capacity.
    pub closed spec fn wf(&self) -> bool {
        &&& self.max_logged_data_size > 0
        &&& self.ids@.len() == self.statuses@.len()
        &&& distinct(self.ids@)
        &&& forall|i: int|
            0 <= i < self.statuses@.len() ==> (#[trigger] self.statuses@[i]).wf()
                && self.statuses@[i].retains(self.max_logged_data_size as nat)
    }

    /// The number of readings retained per source.
    pub closed spec fn capacity(&self) -> nat {
        self.max_logged_data_size as nat
    }

    /// The identifier of the manager, as the manager gave it when the
    /// runtime was made.
    pub closed spec fn id(&self) -> Seq<char> {
        self.manager_id@
    }

    /// The manager, as its hooks have left it.
    pub closed spec fn manager(&self) -> M {
        self.manager
    }

    /// Every entry of the registry is valid: a deregistered source is kept
    /// only with history, and no history exceeds the retention capacity.
    pub proof fn lemma_entries_valid(&self, id: Seq<char>)
        requires
            self.wf(),
            self@.contains_key(id),
        ensures
            self@[id].valid(self.capacity()),
    {
        assert(holds(self.ids@, id));
        let i = slot(self.ids@, id);
        assert(self.statuses@[i].wf());
        match self.statuses@[i] {
            DataSourceStatus::Registered(data) | DataSourceStatus::Deregistered(data) => {
                data.lemma_len_bounded();
            },
            DataSourceStatus::RegisteredNoData => {},
        }
    }

    /// A runtime without sources around `manager`, retaining up to
    /// `max_logged_data_size` readings per source.
    pub fn new(manager: M, max_logged_data_size: usize) -> (runtime: TypedManagerAndData<T, M>)
        requires
            max_logged_data_size > 0,
        ensures
            runtime.wf(),
            runtime.capacity() == max_logged_data_size,
            runtime.manager() == manager,
            manager.manager_id_result(runtime.id()),
            runtime@ == Map::<Seq<char>, SourceState<T>>::empty(),
    {
        let manager_id = manager.manager_id();
        let runtime = TypedManagerAndData {
            manager,
            manager_id,
            ids: Vec::new(),
            statuses: Vec::new(),
            max_logged_data_size,
        };
        assert(runtime@ =~= Map::<Seq<char>, SourceState<T>>::empty());
        runtime
    }

    /// The identifier of the manager.
    pub fn manager_id(&self) -> (id: &'static str)
        ensures
            id@ == self.id(),
    {
        self.manager_id
    }

    /// The position of the entry of `id`, if it has one.
    fn find(&self, id: &str) -> (found: Option<usize>)
        requires
            self.wf(),
        ensures
            match found {
                Some(i) => i < self.ids@.len() && self.ids@[i as int]@ == id@ && self@.get(id@)
                    == Some(self.statuses@[i as int]@),
                None => self@.get(id@) is None,
            },
    {
        let mut i: usize = 0;
        while i < self.ids.len()
            invariant
                self.wf(),
                i <= self.ids@.len(),
                forall|j: int| 0 <= j < i ==> (#[trigger] self.ids@[j])@ != id@,
            decreases self.ids@.len() - i,
        {
            if str_eq(self.ids[i].as_str(), id) {
                proof {
                    lemma_slot(self.ids@, i as int);
                }
                return Some(i);
            }
            i += 1;
        }
        None
    }

    /// Takes the entry at position `i` out of the registry.
    fn take(&mut self, i: usize) -> (entry: (String, DataSourceStatus<T>))
        requires
            old(self).wf(),
            i < old(self).ids@.len(),
        ensures
            final(self).wf(),
            final(self).max_logged_data_size == old(self).max_logged_data_size,
            final(self).manager == old(self).manager,
            final(self).manager_id == old(self).manager_id,
            entry.0 == old(self).ids@[i as int],
            entry.1 == old(self).statuses@[i as int],
            entry.1.wf(),
            entry.1.retains(old(self).max_logged_data_size as nat),
            final(self)@ == old(self)@.remove(entry.0@),
            !final(self)@.contains_key(entry.0@),
    {
        proof {
            lemma_table_swap_remove(self.ids@, self.statuses@, i as int);
        }
        let id = self.ids.swap_remove(i);
        let status = self.statuses.swap_remove(i);
        (id, status)
    }

    /// Adds an entry for an identifier that has none.
    fn add(&mut self, id: String, status: DataSourceStatus<T>)
        requires
            old(self).wf(),
            !old(self)@.contains_key(id@),
            status.wf(),
            status.retains(old(self).max_logged_data_size as nat),
        ensures
            final(self).wf(),
            final(self).max_logged_data_size == old(self).max_logged_data_size,
            final(self).manager == old(self).manager,
            final(self).manager_id == old(self).manager_id,
            final(self)@ == old(self)@.insert(id@, status@),
    {
        proof {
            lemma_table_push(self.ids@, self.statuses@, id, status);
        }
        self.ids.push(id);
        self.statuses.push(status);
    }

    /// Whether the registry lets `id` be registered, before the manager is
    /// told: an identifier that is currently registered is turned down with
    /// `IdAlreadyExists`.
    pub fn check_register(&self, id: &str) -> (r: Result<(), ManagerAndDataError>)
        requires
            self.wf(),
        ensures
            match r {
                Ok(_) => register_refusal(self@, id@) is None,
                Err(err) => register_refusal(self@, id@) == Some(err@),
            },
    {
        if self.is_registered(id) {
            Err(ManagerAndDataError::already_exists(id))
        } else {
            Ok(())
        }
    }

    /// Completes a registration that the registry does not turn down, with
    /// what the manager's hook returned: on success `id` is registered, a
    /// source that was deregistered taking up its history again; on failure
    /// the manager's cause is handed on and the registry stays as it was.
    pub fn finish_register(
        &mut self,
        id: String,
        outcome: Result<(), DataSourceManagerError>,
    ) -> (r: Result<(), ManagerAndDataError>)
        requires
            old(self).wf(),
            register_refusal(old(self)@, id@) is None,
        ensures
            final(self).wf(),
            final(self).capacity() == old(self).capacity(),
            final(self).id() == old(self).id(),
            final(self).manager() == old(self).manager(),
            register_answered(old(self)@, id@, outcome, r, final(self)@),
    {
        match outcome {
            Err(cause) => Err(ManagerAndDataError::from_manager(cause)),
            Ok(_) => {
                match self.find(id.as_str()) {
                    Some(i) => {
                        let (key, status) = self.take(i);
                        self.add(key, status.reregistered());
                        assert(self@ =~= with_registered(old(self)@, id@));
                    },
                    None => {
                        self.add(id, DataSourceStatus::RegisteredNoData);
                    },
                }
                Ok(())
            },
        }
    }

    /// Registers the data source `id`.
    ///
    /// An identifier that is currently registered is turned down with
    /// `IdAlreadyExists`, and the manager is not told. Otherwise the
    /// manager's register hook decides: when it accepts, `id` is registered;
    /// when it fails, its cause is handed on and the registry stays as it
    /// was.
    pub fn register(&mut self, id: String) -> (r: Result<(), ManagerAndDataError>)
        requires
            old(self).wf(),
        ensures
            final(self).wf(),
            final(self).capacity() == old(self).capacity(),
            final(self).id() == old(self).id(),
            register_done(
                old(self)@,
                id@,
                (|answer: Result<(), DataSourceManagerError>|
                    old(self).manager().register_result(id@, answer)),
                r,
                final(self)@,
            ),
            register_refusal(old(self)@, id@) is Some ==> final(self).manager() == old(
                self,
            ).manager(),
    {
        match self.check_register(id.as_str()) {
            Err(err) => Err(err),
            Ok(_) => {
                let ghost key = id@;
                let outcome = self.manager.register(id.clone());
                let r = self.finish_register(id, outcome);
                proof {
                    let answers = |answer: Result<(), DataSourceManagerError>|
                        old(self).manager().register_result(key, answer);
                    assert(answers(outcome));
                }
                r
            },
        }
    }

    /// Registers the data source `id`, handing `data` to the manager's hook.
    ///
    /// As `register`, but for the hook that is called.
    pub fn register_with_data(&mut self, id: String, data: &[u8]) -> (r: Result<
        (),
        ManagerAndDataError,
    >)
        requires
            old(self).wf(),
        ensures
            final(self).wf(),
            final(self).capacity() == old(self).capacity(),
            final(self).id() == old(self).id(),
            register_done(
                old(self)@,
                id@,
                (|answer: Result<(), DataSourceManagerError>|
                    old(self).manager().register_with_data_result(id@, data@, answer)),
                r,
                final(self)@,
            ),
            register_refusal(old(self)@, id@) is Some ==> final(self).manager() == old(
                self,
            ).manager(),
    {
        match self.check_register(id.as_str()) {
            Err(err) => Err(err),
            Ok(_) => {
                let ghost key = id@;
                let outcome = self.manager.register_with_data(id.clone(), data);
                let r = self.finish_register(id, outcome);
                proof {
                    let answers = |answer: Result<(), DataSourceManagerError>|
                        old(self).manager().register_with_data_result(key, data@, answer);
                    assert(answers(outcome));
                }
                r
            },
        }
    }

    /// Whether `id` is currently registered.
    pub fn is_registered(&self, id: &str) -> (r: bool)
        requires
            self.wf(),
        ensures
            r == registered(self@.get(id@)),
    {
        match self.find(id) {
            Some(i) => self.statuses[i].is_registered(),
            None => false,
        }
    }
}

impl<T, M: DataSourceManager<T>> TypedManagerAndData<T, M> {
    /// Completes a deregistration of a registered source, with what the
    /// manager's hook returned: on success a source with history is kept as
    /// deregistered and one without is forgotten; on failure the manager's
    /// cause is handed on and the registry stays as it was.
    pub fn finish_deregister(&mut self, id: &str, outcome: Result<(), DataSourceManagerError>) -> (r:
        Result<(), ManagerAndDataError>)
        requires
            old(self).wf(),
            deregister_refusal(old(self)@, id@) is None,
        ensures
            final(self).wf(),
            final(self).capacity() == old(self).capacity(),
            final(self).id() == old(self).id(),
            final(self).manager() == old(self).manager(),
            deregister_answered(old(self)@, id@, outcome, r, final(self)@),
    {
        match outcome {
            Err(cause) => Err(ManagerAndDataError::from_manager(cause)),
            Ok(_) => {
                match self.find(id) {
                    Some(i) => {
                        let (key, status) = self.take(i);
                        match status.deregistered() {
                            Some(kept) => {
                                self.add(key, kept);
                                assert(self@ =~= with_deregistered(old(self)@, id@));
                            },
                            None => {},
                        }
                    },
                    None => {},
                }
                Ok(())
            },
        }
    }

    /// Whether the registry lets `id` be deregistered, before the manager is
    /// told: an identifier without an entry is turned down with
    /// `IdDoesntExist`, one that is already deregistered with
    /// `IdAlreadyDeregistered`.
    pub fn check_deregister(&self, id: &str) -> (r: Result<(), ManagerAndDataError>)
        requires
            self.wf(),
        ensures
            match r {
                Ok(_) => deregister_refusal(self@, id@) is None,
                Err(err) => deregister_refusal(self@, id@) == Some(err@),
            },
    {
        match self.find(id) {
            None => Err(ManagerAndDataError::doesnt_exist(id)),
            Some(i) => if self.statuses[i].is_registered() {
                Ok(())
            } else {
                Err(ManagerAndDataError::already_deregistered(id))
            },
        }
    }

    /// Deregisters the data source `id`.
    ///
    /// An identifier without an entry is turned down with `IdDoesntExist`,
    /// one that is already deregistered with `IdAlreadyDeregistered`; in
    /// both cases the manager is not told. Otherwise the manager's
    /// deregister hook decides: when it accepts, a source with history is
    /// kept as deregistered and one without is forgotten; when it fails, its
    /// cause is handed on and the registry stays as it was.
    pub fn deregister(&mut self, id: &str) -> (r: Result<(), ManagerAndDataError>)
        requires
            old(self).wf(),
        ensures
            final(self).wf(),
            final(self).capacity() == old(self).capacity(),
            final(self).id() == old(self).id(),
            deregister_done(
                old(self)@,
                id@,
                (|answer: Result<(), DataSourceManagerError>|
                    old(self).manager().deregister_result(id@, answer)),
                r,
                final(self)@,
            ),
            deregister_refusal(old(self)@, id@) is Some ==> final(self).manager() == old(
                self,
            ).manager(),
    {
        match self.check_deregister(id) {
            Err(err) => Err(err),
            Ok(_) => {
                let outcome = self.manager.deregister(id);
                let r = self.finish_deregister(id, outcome);
                proof {
                    let answers = |answer: Result<(), DataSourceManagerError>|
                        old(self).manager().deregister_result(id@, answer);
                    assert(answers(outcome));
                }
                r
            },
        }
    }

    /// Deregisters the data source `id`, handing `data` to the manager's
    /// hook.
    ///
    /// As `deregister`, but for the hook that is called.
    pub fn deregister_with_data(&mut self, id: &str, data: &[u8]) -> (r: Result<
        (),
        ManagerAndDataError,
    >)
        requires
            old(self).wf(),
        ensures
            final(self).wf(),
            final(self).capacity() == old(self).capacity(),
            final(self).id() == old(self).id(),
            deregister_done(
                old(self)@,
                id@,
                (|answer: Result<(), DataSourceManagerError>|
                    old(self).manager().deregister_with_data_result(id@, data@, answer)),
                r,
                final(self)@,
            ),
            deregister_refusal(old(self)@, id@) is Some ==> final(self).manager() == old(
                self,
            ).manager(),
    {
        match self.check_deregister(id) {
            Err(err) => Err(err),
            Ok(_) => {
                let outcome = self.manager.deregister_with_data(id, data);
                let r = self.finish_deregister(id, outcome);
                proof {
                    let answers = |answer: Result<(), DataSourceManagerError>|
                        old(self).manager().deregister_with_data_result(id@, data@, answer);
                    assert(answers(outcome));
                }
                r
            },
        }
    }

    /// Whether the registry lets `id` be updated, before the manager is
    /// asked to decode: an identifier that is not currently registered is
    /// turned down with `IdDoesntExist`.
    pub fn check_update(&self, id: &str) -> (r: Result<(), ManagerAndDataError>)
        requires
            self.wf(),
        ensures
            match r {
                Ok(_) => update_refusal(self@, id@) is None,
                Err(err) => update_refusal(self@, id@) == Some(err@),
            },
    {
        if self.is_registered(id) {
            Ok(())
        } else {
            Err(ManagerAndDataError::doesnt_exist(id))
        }
    }

    /// Completes an update of a registered source, with what the manager
    /// decoded: a reading is appended to the source's history, which is
    /// created by the first one; a decode failure is handed on with its
    /// cause and the registry stays as it was.
    pub fn finish_update(&mut self, id: &str, outcome: Result<T, DataSourceManagerError>) -> (r:
        Result<(), ManagerAndDataError>)
        requires
            old(self).wf(),
            update_refusal(old(self)@, id@) is None,
        ensures
            final(self).wf(),
            final(self).capacity() == old(self).capacity(),
            final(self).id() == old(self).id(),
            final(self).manager() == old(self).manager(),
            update_answered(old(self)@, id@, old(self).capacity(), outcome, r, final(self)@),
    {
        match outcome {
            Err(cause) => Err(ManagerAndDataError::from_manager(cause)),
            Ok(reading) => {
                match self.find(id) {
                    Some(i) => {
                        let (key, status) = self.take(i);
                        let max_size = self.max_logged_data_size;
                        self.add(key, status.updated(reading, max_size));
                        assert(self@ =~= with_update(
                            old(self)@,
                            id@,
                            reading,
                            old(self).capacity(),
                        ));
                    },
                    None => {},
                }
                Ok(())
            },
        }
    }

    /// Decodes `data` with the manager and appends the reading to the
    /// history of the data source `id`.
    ///
    /// An identifier that is not currently registered is turned down with
    /// `IdDoesntExist`; the manager is not told and no history changes.
    /// Otherwise the manager's decoder decides: a reading is appended, the
    /// oldest one making room in a full history; a decode failure is handed
    /// on with its cause and the registry stays as it was.
    pub fn update_data(&mut self, id: &str, data: &[u8]) -> (r: Result<(), ManagerAndDataError>)
        requires
            old(self).wf(),
        ensures
            final(self).wf(),
            final(self).capacity() == old(self).capacity(),
            final(self).id() == old(self).id(),
            update_done(
                old(self)@,
                id@,
                old(self).capacity(),
                (|answer: Result<T, DataSourceManagerError>|
                    old(self).manager().update_data_result(id@, data@, answer)),
                r,
                final(self)@,
            ),
            update_refusal(old(self)@, id@) is Some ==> final(self).manager() == old(
                self,
            ).manager(),
    {
        match self.check_update(id) {
            Err(err) => Err(err),
            Ok(_) => {
                let outcome = self.manager.update_data(id, data);
                let r = self.finish_update(id, outcome);
                proof {
                    let answers = |answer: Result<T, DataSourceManagerError>|
                        old(self).manager().update_data_result(id@, data@, answer);
                    assert(answers(outcome));
                }
                r
            },
        }
    }
}

impl<T: Copy, M: DataSourceManager<T>> TypedManagerAndData<T, M> {
    /// The reading at position `index` of the history of `id`, where
    /// position 0 is the oldest retained reading. Deregistered sources with
    /// history can be read as registered ones can.
    pub fn get_data(&self, id: &str, index: usize) -> (r: Result<T, ManagerAndDataError>)
        requires
            self.wf(),
        ensures
            is_read_result(self@, id@, index as nat, r),
    {
        match self.find(id) {
            None => Err(ManagerAndDataError::doesnt_exist(id)),
            Some(i) => self.statuses[i].read(index),
        }
    }
}

} // verus!
