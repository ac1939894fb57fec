//! The loaded managers, reached by manager identifier.

use vstd::prelude::*;
use crate::data_type::{DataType, ManagerAndData};
use crate::id_table::{
    distinct,
    holds,
    lemma_slot,
    lemma_table_push,
    lemma_table_update,
    slot,
    table,
};
use crate::manager_and_data::ManagerAndDataError;
use crate::server_plugin::DataSourceManagerError;
use crate::source_state::{
    deregister_done,
    is_read_result,
    lemma_deregister_done_widens,
    lemma_register_done_widens,
    register_done,
    update_done,
    ErrorKind,
};
use crate::text::str_eq;

verus! {

/// The managers that `plugins` leaves when each is entered in turn and an
/// identifier that is already taken is turned down: of several managers
/// with one identifier the first wins.
pub open spec fn enter_all<R: ManagerAndData>(entered: Map<Seq<char>, R>, plugins: Seq<R>) -> Map<
    Seq<char>,
    R,
>
    decreases plugins.len(),
{
    if plugins.len() == 0 {
        entered
    } else if entered.contains_key(plugins[0].id()) {
        enter_all(entered, plugins.drop_first())
    } else {
        enter_all(entered.insert(plugins[0].id(), plugins[0]), plugins.drop_first())
    }
}

/// The managers of `plugins` that are turned down on the way, in their
/// order, after those turned down before.
pub open spec fn reject_all<R: ManagerAndData>(
    entered: Map<Seq<char>, R>,
    rejected: Seq<R>,
    plugins: Seq<R>,
) -> Seq<R>
    decreases plugins.len(),
{
    if plugins.len() == 0 {
        rejected
    } else if entered.contains_key(plugins[0].id()) {
        reject_all(entered, rejected.push(plugins[0]), plugins.drop_first())
    } else {
        reject_all(entered.insert(plugins[0].id(), plugins[0]), rejected, plugins.drop_first())
    }
}

/// A manager that is entered stays: whatever is tried after it, its
/// identifier keeps standing for it.
pub proof fn lemma_entered_stays<R: ManagerAndData>(
    entered: Map<Seq<char>, R>,
    plugins: Seq<R>,
    manager_id: Seq<char>,
)
    requires
        entered.contains_key(manager_id),
    ensures
        enter_all(entered, plugins).get(manager_id) == Some(entered[manager_id]),
    decreases plugins.len(),
{
    if plugins.len() > 0 {
        if entered.contains_key(plugins[0].id()) {
            lemma_entered_stays(entered, plugins.drop_first(), manager_id);
        } else {
            lemma_entered_stays(
                entered.insert(plugins[0].id(), plugins[0]),
                plugins.drop_first(),
                manager_id,
            );
        }
    }
}

/// Of several managers with one identifier the first wins: a plugin stands
/// in the registry under its identifier where no plugin before it has that
/// identifier.
pub proof fn lemma_first_wins<R: ManagerAndData>(
    entered: Map<Seq<char>, R>,
    plugins: Seq<R>,
    i: int,
)
    requires
        0 <= i < plugins.len(),
        !entered.contains_key(plugins[i].id()),
        forall|j: int| 0 <= j < i ==> (#[trigger] plugins[j]).id() != plugins[i].id(),
    ensures
        enter_all(entered, plugins).get(plugins[i].id()) == Some(plugins[i]),
    decreases plugins.len(),
{
    let next = if entered.contains_key(plugins[0].id()) {
        entered
    } else {
        entered.insert(plugins[0].id(), plugins[0])
    };
    if i == 0 {
        lemma_entered_stays(next, plugins.drop_first(), plugins[0].id());
    } else {
        assert(plugins[0].id() != plugins[i].id());
        assert(plugins.drop_first()[i - 1] == plugins[i]);
        assert forall|j: int| 0 <= j < i - 1 implies (#[trigger] plugins.drop_first()[j]).id()
            != plugins[i].id() by {
            assert(plugins.drop_first()[j] == plugins[j + 1]);
        }
        lemma_first_wins(next, plugins.drop_first(), i - 1);
    }
}

/// The bytes that a request brought with it, if it brought any.
pub open spec fn payload(data: Option<&[u8]>) -> Option<Seq<u8>> {
    match data {
        Some(data) => Some(data@),
        None => None,
    }
}

/// The managers of a server, each under its own identifier.
pub struct FlorustState<R: ManagerAndData> {
    ids: Vec<String>,
    managers_and_data: Vec<R>,
}

impl<R: ManagerAndData> View for FlorustState<R> {
    type V = Map<Seq<char>, R>;

    /// The managers by manager identifier.
    closed spec fn view(&self) -> Map<Seq<char>, R> {
        table(self.ids@, self.managers_and_data@)
    }
}

impl<R: ManagerAndData> FlorustState<R> {
    /// The representation invariant: no identifier is taken twice, and every
    /// manager is valid and stands under its own identifier.
    pub closed spec fn wf(&self) -> bool {
        &&& self.ids@.len() == self.managers_and_data@.len()
        &&& distinct(self.ids@)
        &&& forall|i: int|
            0 <= i < self.ids@.len() ==> (#[trigger] self.managers_and_data@[i]).valid()
                && self.managers_and_data@[i].id() == self.ids@[i]@
    }

    /// Every manager of the registry is valid and stands under its own
    /// identifier.
    pub proof fn lemma_managers_valid(&self, manager_id: Seq<char>)
        requires
            self.wf(),
            self@.contains_key(manager_id),
        ensures
            self@[manager_id].valid(),
            self@[manager_id].id() == manager_id,
    {
        assert(holds(self.ids@, manager_id));
        let i = slot(self.ids@, manager_id);
        assert(self.managers_and_data@[i].valid());
    }

    /// The position of the manager `manager_id`, if it is loaded.
    fn find(&self, manager_id: &str) -> (found: Option<usize>)
        requires
            self.wf(),
        ensures
            match found {
                Some(i) => i < self.ids@.len() && self.ids@[i as int]@ == manager_id@
                    && self@.get(manager_id@) == Some(self.managers_and_data@[i as int]),
                None => self@.get(manager_id@) is None,
            },
    {
        let mut i: usize = 0;
        while i < self.ids.len()
            invariant
                self.wf(),
                i <= self.ids@.len(),
                forall|j: int| 0 <= j < i ==> (#[trigger] self.ids@[j])@ != manager_id@,
            decreases self.ids@.len() - i,
        {
            if str_eq(self.ids[i].as_str(), manager_id) {
                proof {
                    lemma_slot(self.ids@, i as int);
                }
                return Some(i);
            }
            i += 1;
        }
        None
    }

    /// Enters `manager` under its identifier, or hands it back where that
    /// identifier is taken.
    fn enter(&mut self, manager: R) -> (rejected: Option<R>)
        requires
            old(self).wf(),
            manager.valid(),
        ensures
            final(self).wf(),
            old(self)@.contains_key(manager.id()) ==> rejected == Some(manager) && final(self)@
                == old(self)@,
            !old(self)@.contains_key(manager.id()) ==> rejected is None && final(self)@ == old(
                self,
            )@.insert(manager.id(), manager),
    {
        let manager_id = manager.manager_id();
        match self.find(manager_id) {
            Some(_) => Some(manager),
            None => {
                let id = manager_id.to_owned();
                proof {
                    lemma_table_push(self.ids@, self.managers_and_data@, id, manager);
                }
                self.ids.push(id);
                self.managers_and_data.push(manager);
                None
            },
        }
    }

    /// The registry of `plugins`, and the managers that were turned down
    /// because an earlier one has their identifier.
    pub fn new(plugins: Vec<R>) -> (built: (FlorustState<R>, Vec<R>))
        requires
            forall|i: int| 0 <= i < plugins@.len() ==> (#[trigger] plugins@[i]).valid(),
        ensures
            built.0.wf(),
            built.0@ == enter_all(Map::<Seq<char>, R>::empty(), plugins@),
            built.1@ == reject_all(Map::<Seq<char>, R>::empty(), Seq::<R>::empty(), plugins@),
    {
        let mut plugins = plugins;
        let mut state = FlorustState { ids: Vec::new(), managers_and_data: Vec::new() };
        let mut rejected: Vec<R> = Vec::new();
        assert(state@ =~= Map::<Seq<char>, R>::empty());
        let ghost all = plugins@;
        while plugins.len() > 0
            invariant
                state.wf(),
                forall|i: int| 0 <= i < plugins@.len() ==> (#[trigger] plugins@[i]).valid(),
                enter_all(state@, plugins@) == enter_all(Map::<Seq<char>, R>::empty(), all),
                reject_all(state@, rejected@, plugins@) == reject_all(
                    Map::<Seq<char>, R>::empty(),
                    Seq::<R>::empty(),
                    all,
                ),
            decreases plugins@.len(),
        {
            let ghost before = plugins@;
            let plugin = plugins.remove(0);
            assert(plugins@ =~= before.drop_first());
            assert(plugin == before[0]);
            assert forall|i: int| 0 <= i < plugins@.len() implies (#[trigger] plugins@[i]).valid() by {
                assert(plugins@[i] == before[i + 1]);
            }
            match state.enter(plugin) {
                Some(loser) => {
                    rejected.push(loser);
                },
                None => {},
            }
        }
        (state, rejected)
    }

    /// Whether a manager of that identifier is loaded.
    pub fn manager_exists(&self, manager_id: &str) -> (exists: bool)
        requires
            self.wf(),
        ensures
            exists == self@.contains_key(manager_id@),
    {
        self.find(manager_id).is_some()
    }

    /// The manager `manager_id`, or `ManagerDoesntExist` where none of that
    /// identifier is loaded.
    pub fn get_manager_or_err(&self, manager_id: &str) -> (r: Result<&R, ManagerAndDataError>)
        requires
            self.wf(),
        ensures
            match r {
                Ok(manager) => self@.get(manager_id@) == Some(*manager) && manager.valid(),
                Err(err) => self@.get(manager_id@) is None && err@ == ErrorKind::ManagerDoesntExist(
                    manager_id@,
                ),
            },
    {
        match self.find(manager_id) {
            Some(i) => Ok(&self.managers_and_data[i]),
            None => Err(ManagerAndDataError::manager_doesnt_exist(manager_id)),
        }
    }

    /// What a request for the manager `manager_id` leaves of the registry:
    /// an unknown manager is answered with `ManagerDoesntExist` and nothing
    /// changes; otherwise only that manager can have changed, and it keeps
    /// its identifier and its retention.
    pub open spec fn dispatched(
        before: Map<Seq<char>, R>,
        manager_id: Seq<char>,
        failure: Option<ManagerAndDataError>,
        after: Map<Seq<char>, R>,
    ) -> bool {
        match before.get(manager_id) {
            None => after == before && failure is Some && failure->Some_0@
                == ErrorKind::ManagerDoesntExist(manager_id),
            Some(manager) => {
                &&& after.contains_key(manager_id)
                &&& after == before.insert(manager_id, after[manager_id])
                &&& after[manager_id].retention() == manager.retention()
            },
        }
    }

    /// Registers `data_source_id` with the manager `manager_id`, through the
    /// manager's hook for additional data where `data` is given.
    pub fn register_data_source(
        &mut self,
        manager_id: &str,
        data_source_id: String,
        data: Option<&[u8]>,
    ) -> (r: Result<(), ManagerAndDataError>)
        requires
            old(self).wf(),
        ensures
            final(self).wf(),
            Self::dispatched(old(self)@, manager_id@, r.err(), final(self)@),
            old(self)@.contains_key(manager_id@) ==> register_done(
                old(self)@[manager_id@].sources(),
                data_source_id@,
                (|answer: Result<(), DataSourceManagerError>|
                    old(self)@[manager_id@].register_answer(
                        data_source_id@,
                        payload(data),
                        answer,
                    )),
                r,
                final(self)@[manager_id@].sources(),
            ),
    {
        match self.find(manager_id) {
            None => Err(ManagerAndDataError::manager_doesnt_exist(manager_id)),
            Some(i) => {
                let ghost id = data_source_id@;
                let ghost manager = self.managers_and_data@[i as int];
                let r = match data {
                    Some(data) => self.managers_and_data[i].register_with_data(
                        data_source_id,
                        data,
                    ),
                    None => self.managers_and_data[i].register(data_source_id),
                };
                proof {
                    let after = self.managers_and_data@[i as int].sources();
                    let wider = |answer: Result<(), DataSourceManagerError>|
                        manager.register_answer(id, payload(data), answer);
                    match data {
                        Some(bytes) => {
                            lemma_register_done_widens(
                                manager.sources(),
                                id,
                                |answer: Result<(), DataSourceManagerError>|
                                    manager.register_answer(id, Some(bytes@), answer),
                                wider,
                                r,
                                after,
                            );
                        },
                        None => {
                            lemma_register_done_widens(
                                manager.sources(),
                                id,
                                |answer: Result<(), DataSourceManagerError>|
                                    manager.register_answer(id, None, answer),
                                wider,
                                r,
                                after,
                            );
                        },
                    }
                    lemma_table_update(
                        old(self).ids@,
                        old(self).managers_and_data@,
                        i as int,
                        self.managers_and_data@[i as int],
                    );
                    lemma_slot(self.ids@, i as int);
                }
                r
            },
        }
    }

    /// Deregisters `data_source_id` from the manager `manager_id`, through
    /// the manager's hook for additional data where `data` is given.
    pub fn deregister_data_source(
        &mut self,
        manager_id: &str,
        data_source_id: &str,
        data: Option<&[u8]>,
    ) -> (r: Result<(), ManagerAndDataError>)
        requires
            old(self).wf(),
        ensures
            final(self).wf(),
            Self::dispatched(old(self)@, manager_id@, r.err(), final(self)@),
            old(self)@.contains_key(manager_id@) ==> deregister_done(
                old(self)@[manager_id@].sources(),
                data_source_id@,
                (|answer: Result<(), DataSourceManagerError>|
                    old(self)@[manager_id@].deregister_answer(
                        data_source_id@,
                        payload(data),
                        answer,
                    )),
                r,
                final(self)@[manager_id@].sources(),
            ),
    {
        match self.find(manager_id) {
            None => Err(ManagerAndDataError::manager_doesnt_exist(manager_id)),
            Some(i) => {
                let ghost id = data_source_id@;
                let ghost manager = self.managers_and_data@[i as int];
                let r = match data {
                    Some(data) => self.managers_and_data[i].deregister_with_data(
                        data_source_id,
                        data,
                    ),
                    None => self.managers_and_data[i].deregister(data_source_id),
                };
                proof {
                    let after = self.managers_and_data@[i as int].sources();
                    let wider = |answer: Result<(), DataSourceManagerError>|
                        manager.deregister_answer(id, payload(data), answer);
                    match data {
                        Some(bytes) => {
                            lemma_deregister_done_widens(
                                manager.sources(),
                                id,
                                |answer: Result<(), DataSourceManagerError>|
                                    manager.deregister_answer(id, Some(bytes@), answer),
                                wider,
                                r,
                                after,
                            );
                        },
                        None => {
                            lemma_deregister_done_widens(
                                manager.sources(),
                                id,
                                |answer: Result<(), DataSourceManagerError>|
                                    manager.deregister_answer(id, None, answer),
                                wider,
                                r,
                                after,
                            );
                        },
                    }
                    lemma_table_update(
                        old(self).ids@,
                        old(self).managers_and_data@,
                        i as int,
                        self.managers_and_data@[i as int],
                    );
                    lemma_slot(self.ids@, i as int);
                }
                r
            },
        }
    }

    /// Hands the payload `data` of `data_source_id` to the manager
    /// `manager_id`, which decodes and retains it.
    pub fn update_data(&mut self, manager_id: &str, data_source_id: &str, data: &[u8]) -> (r:
        Result<(), ManagerAndDataError>)
        requires
            old(self).wf(),
        ensures
            final(self).wf(),
            Self::dispatched(old(self)@, manager_id@, r.err(), final(self)@),
            old(self)@.contains_key(manager_id@) ==> update_done(
                old(self)@[manager_id@].sources(),
                data_source_id@,
                old(self)@[manager_id@].retention(),
                (|answer: Result<DataType, DataSourceManagerError>|
                    old(self)@[manager_id@].update_answer(data_source_id@, data@, answer)),
                r,
                final(self)@[manager_id@].sources(),
            ),
    {
        match self.find(manager_id) {
            None => Err(ManagerAndDataError::manager_doesnt_exist(manager_id)),
            Some(i) => {
                let r = self.managers_and_data[i].update_data(data_source_id, data);
                proof {
                    lemma_table_update(
                        old(self).ids@,
                        old(self).managers_and_data@,
                        i as int,
                        self.managers_and_data@[i as int],
                    );
                    lemma_slot(self.ids@, i as int);
                }
                r
            },
        }
    }

    /// The reading at position `index` of the history of `data_source_id`
    /// with the manager `manager_id`.
    pub fn get_data(&self, manager_id: &str, data_source_id: &str, index: usize) -> (r: Result<
        DataType,
        ManagerAndDataError,
    >)
        requires
            self.wf(),
        ensures
            match self@.get(manager_id@) {
                None => r is Err && r->Err_0@ == ErrorKind::ManagerDoesntExist(manager_id@),
                Some(manager) => is_read_result(
                    manager.sources(),
                    data_source_id@,
                    index as nat,
                    r,
                ),
            },
    {
        match self.get_manager_or_err(manager_id) {
            Err(err) => Err(err),
            Ok(manager) => manager.get_data(data_source_id, index),
        }
    }
}

} // verus!
