//! The lifecycle of a data source and the registry of a manager, as
//! mathematical values: what each operation is answered with and what it
//! leaves behind.

use vstd::prelude::*;
use crate::circular_vec::retained;
use crate::manager_and_data::ManagerAndDataError;
use crate::server_plugin::DataSourceManagerError;

verus! {

/// The kinds of failure of an operation on a data source, with the
/// identifier or the cause each one names.
pub enum ErrorKind {
    /// Registration of an identifier that is currently registered.
    IdAlreadyExists(Seq<char>),
    /// An operation on an identifier that is not registered.
    IdDoesntExist(Seq<char>),
    /// Deregistration of an identifier that is already deregistered.
    IdAlreadyDeregistered(Seq<char>),
    /// A request for a manager that is not loaded.
    ManagerDoesntExist(Seq<char>),
    /// The manager turned the request down, with its cause.
    InvalidPayload(Seq<char>),
    /// A read before any update succeeded.
    NoData,
    /// A read past the retained history.
    IndexOutOfBounds,
}

/// What the runtime knows of one data source.
pub enum SourceState<T> {
    /// Registered, nothing decoded yet.
    RegisteredNoData,
    /// Registered, with the readings retained so far, oldest first.
    RegisteredWithData(Seq<T>),
    /// Deregistered; the readings it left remain readable.
    DeregisteredWithData(Seq<T>),
}

impl<T> SourceState<T> {
    /// Whether the source is in active service.
    pub open spec fn is_registered(self) -> bool {
        !(self is DeregisteredWithData)
    }

    /// The retained readings, oldest first.
    pub open spec fn history(self) -> Seq<T> {
        match self {
            SourceState::RegisteredNoData => Seq::empty(),
            SourceState::RegisteredWithData(h) => h,
            SourceState::DeregisteredWithData(h) => h,
        }
    }

    /// A state with history holds at least one reading and no more than
    /// `capacity`.
    pub open spec fn valid(self, capacity: nat) -> bool {
        !(self is RegisteredNoData) ==> 0 < self.history().len() <= capacity
    }
}

/// Whether a registry entry, if there is one, is in active service.
pub open spec fn registered<T>(entry: Option<SourceState<T>>) -> bool {
    entry matches Some(state) && state.is_registered()
}

/// The entry that registration leaves: a new source has no data, a
/// deregistered one takes up its history again.
pub open spec fn after_register<T>(entry: Option<SourceState<T>>) -> SourceState<T> {
    match entry {
        Some(SourceState::DeregisteredWithData(h)) => SourceState::RegisteredWithData(h),
        Some(state) => state,
        None => SourceState::RegisteredNoData,
    }
}

/// The entry that deregistration leaves: a source with history keeps it, one
/// without is forgotten.
pub open spec fn after_deregister<T>(state: SourceState<T>) -> Option<SourceState<T>> {
    match state {
        SourceState::RegisteredNoData => None,
        SourceState::RegisteredWithData(h) => Some(SourceState::DeregisteredWithData(h)),
        SourceState::DeregisteredWithData(h) => Some(SourceState::DeregisteredWithData(h)),
    }
}

/// The entry after `reading` was appended under the given retention
/// capacity.
pub open spec fn after_update<T>(state: SourceState<T>, reading: T, capacity: nat) -> SourceState<
    T,
> {
    SourceState::RegisteredWithData(retained(state.history().push(reading), capacity))
}

/// What reading position `index` of the history of a source gives.
pub open spec fn read_state<T>(state: SourceState<T>, index: nat) -> Result<T, ErrorKind> {
    if state is RegisteredNoData {
        Err(ErrorKind::NoData)
    } else if index < state.history().len() {
        Ok(state.history()[index as int])
    } else {
        Err(ErrorKind::IndexOutOfBounds)
    }
}

/// What reading position `index` of the registry entry of `id` gives.
pub open spec fn read_outcome<T>(entry: Option<SourceState<T>>, id: Seq<char>, index: nat) -> Result<
    T,
    ErrorKind,
> {
    match entry {
        None => Err(ErrorKind::IdDoesntExist(id)),
        Some(state) => read_state(state, index),
    }
}

/// The registry `sources` with the entry of `id` set to `entry`, or removed
/// where `entry` is `None`.
pub open spec fn put<T>(
    sources: Map<Seq<char>, SourceState<T>>,
    id: Seq<char>,
    entry: Option<SourceState<T>>,
) -> Map<Seq<char>, SourceState<T>> {
    match entry {
        Some(state) => sources.insert(id, state),
        None => sources.remove(id),
    }
}

/// The failure of registering `id`, if the registry turns it down.
pub open spec fn register_refusal<T>(sources: Map<Seq<char>, SourceState<T>>, id: Seq<char>) -> Option<
    ErrorKind,
> {
    if registered(sources.get(id)) {
        Some(ErrorKind::IdAlreadyExists(id))
    } else {
        None
    }
}

/// The failure of deregistering `id`, if the registry turns it down.
pub open spec fn deregister_refusal<T>(
    sources: Map<Seq<char>, SourceState<T>>,
    id: Seq<char>,
) -> Option<ErrorKind> {
    match sources.get(id) {
        None => Some(ErrorKind::IdDoesntExist(id)),
        Some(state) => if state.is_registered() {
            None
        } else {
            Some(ErrorKind::IdAlreadyDeregistered(id))
        },
    }
}

/// The failure of updating `id`, if the registry turns it down.
pub open spec fn update_refusal<T>(sources: Map<Seq<char>, SourceState<T>>, id: Seq<char>) -> Option<
    ErrorKind,
> {
    if registered(sources.get(id)) {
        None
    } else {
        Some(ErrorKind::IdDoesntExist(id))
    }
}

/// The registry after `id` was registered.
pub open spec fn with_registered<T>(sources: Map<Seq<char>, SourceState<T>>, id: Seq<char>) -> Map<
    Seq<char>,
    SourceState<T>,
> {
    sources.insert(id, after_register(sources.get(id)))
}

/// The registry after `id` was deregistered.
pub open spec fn with_deregistered<T>(sources: Map<Seq<char>, SourceState<T>>, id: Seq<char>) -> Map<
    Seq<char>,
    SourceState<T>,
> {
    put(sources, id, after_deregister(sources[id]))
}

/// The registry after `reading` was appended to the history of `id`.
pub open spec fn with_update<T>(
    sources: Map<Seq<char>, SourceState<T>>,
    id: Seq<char>,
    reading: T,
    capacity: nat,
) -> Map<Seq<char>, SourceState<T>> {
    sources.insert(id, after_update(sources[id], reading, capacity))
}

/// What reading position `index` of `id` gives.
pub open spec fn read_result<T>(
    sources: Map<Seq<char>, SourceState<T>>,
    id: Seq<char>,
    index: nat,
) -> Result<T, ErrorKind> {
    read_outcome(sources.get(id), id, index)
}

/// What a registration of `id` that the registry does not turn down returns
/// and leaves, given the manager's answer: on success `id` is registered;
/// on failure the manager's cause is handed on and the registry stays as it
/// was.
pub open spec fn register_answered<T>(
    before: Map<Seq<char>, SourceState<T>>,
    id: Seq<char>,
    answer: Result<(), DataSourceManagerError>,
    r: Result<(), ManagerAndDataError>,
    after: Map<Seq<char>, SourceState<T>>,
) -> bool {
    match answer {
        Ok(_) => r is Ok && after == with_registered(before, id),
        Err(cause) => r is Err && r->Err_0@ == ErrorKind::InvalidPayload(cause.detail()) && after
            == before,
    }
}

/// What a deregistration of `id` that the registry does not turn down
/// returns and leaves, given the manager's answer.
pub open spec fn deregister_answered<T>(
    before: Map<Seq<char>, SourceState<T>>,
    id: Seq<char>,
    answer: Result<(), DataSourceManagerError>,
    r: Result<(), ManagerAndDataError>,
    after: Map<Seq<char>, SourceState<T>>,
) -> bool {
    match answer {
        Ok(_) => r is Ok && after == with_deregistered(before, id),
        Err(cause) => r is Err && r->Err_0@ == ErrorKind::InvalidPayload(cause.detail()) && after
            == before,
    }
}

/// What an update of `id` that the registry does not turn down returns and
/// leaves, given what the manager decoded: a reading is appended to the
/// history of `id`; a failure is handed on with its cause and the registry
/// stays as it was.
pub open spec fn update_answered<T>(
    before: Map<Seq<char>, SourceState<T>>,
    id: Seq<char>,
    capacity: nat,
    answer: Result<T, DataSourceManagerError>,
    r: Result<(), ManagerAndDataError>,
    after: Map<Seq<char>, SourceState<T>>,
) -> bool {
    match answer {
        Ok(reading) => r is Ok && after == with_update(before, id, reading, capacity),
        Err(cause) => r is Err && r->Err_0@ == ErrorKind::InvalidPayload(cause.detail()) && after
            == before,
    }
}

/// What a registration of `id` returns and leaves, where `answers` says
/// which answers the manager may give: a refusal by the registry is
/// returned and leaves the registry as it was; otherwise the manager gives
/// one of its answers, and the registration ends as that answer has it.
pub open spec fn register_done<T>(
    before: Map<Seq<char>, SourceState<T>>,
    id: Seq<char>,
    answers: spec_fn(Result<(), DataSourceManagerError>) -> bool,
    r: Result<(), ManagerAndDataError>,
    after: Map<Seq<char>, SourceState<T>>,
) -> bool {
    match register_refusal(before, id) {
        Some(refusal) => r is Err && r->Err_0@ == refusal && after == before,
        None => exists|answer: Result<(), DataSourceManagerError>| #[trigger]
            answers(answer) && register_answered(before, id, answer, r, after),
    }
}

/// What a deregistration of `id` returns and leaves, in the same way.
pub open spec fn deregister_done<T>(
    before: Map<Seq<char>, SourceState<T>>,
    id: Seq<char>,
    answers: spec_fn(Result<(), DataSourceManagerError>) -> bool,
    r: Result<(), ManagerAndDataError>,
    after: Map<Seq<char>, SourceState<T>>,
) -> bool {
    match deregister_refusal(before, id) {
        Some(refusal) => r is Err && r->Err_0@ == refusal && after == before,
        None => exists|answer: Result<(), DataSourceManagerError>| #[trigger]
            answers(answer) && deregister_answered(before, id, answer, r, after),
    }
}

/// What an update of `id` returns and leaves, where `answers` says what the
/// manager may decode the payload to: a refusal by the registry is returned
/// and leaves the registry as it was; otherwise the manager gives one of
/// its answers, and the update ends as that answer has it.
pub open spec fn update_done<T>(
    before: Map<Seq<char>, SourceState<T>>,
    id: Seq<char>,
    capacity: nat,
    answers: spec_fn(Result<T, DataSourceManagerError>) -> bool,
    r: Result<(), ManagerAndDataError>,
    after: Map<Seq<char>, SourceState<T>>,
) -> bool {
    match update_refusal(before, id) {
        Some(refusal) => r is Err && r->Err_0@ == refusal && after == before,
        None => exists|answer: Result<T, DataSourceManagerError>| #[trigger]
            answers(answer) && update_answered(before, id, capacity, answer, r, after),
    }
}

/// A registration that ends as one set of answers allows also ends as any
/// wider set allows.
pub proof fn lemma_register_done_widens<T>(
    before: Map<Seq<char>, SourceState<T>>,
    id: Seq<char>,
    answers: spec_fn(Result<(), DataSourceManagerError>) -> bool,
    wider: spec_fn(Result<(), DataSourceManagerError>) -> bool,
    r: Result<(), ManagerAndDataError>,
    after: Map<Seq<char>, SourceState<T>>,
)
    requires
        register_done(before, id, answers, r, after),
        forall|answer: Result<(), DataSourceManagerError>| #[trigger]
            answers(answer) ==> wider(answer),
    ensures
        register_done(before, id, wider, r, after),
{
    if register_refusal(before, id) is None {
        let answer = choose|answer: Result<(), DataSourceManagerError>| #[trigger]
            answers(answer) && register_answered(before, id, answer, r, after);
        assert(wider(answer));
    }
}

/// A deregistration that ends as one set of answers allows also ends as any
/// wider set allows.
pub proof fn lemma_deregister_done_widens<T>(
    before: Map<Seq<char>, SourceState<T>>,
    id: Seq<char>,
    answers: spec_fn(Result<(), DataSourceManagerError>) -> bool,
    wider: spec_fn(Result<(), DataSourceManagerError>) -> bool,
    r: Result<(), ManagerAndDataError>,
    after: Map<Seq<char>, SourceState<T>>,
)
    requires
        deregister_done(before, id, answers, r, after),
        forall|answer: Result<(), DataSourceManagerError>| #[trigger]
            answers(answer) ==> wider(answer),
    ensures
        deregister_done(before, id, wider, r, after),
{
    if deregister_refusal(before, id) is None {
        let answer = choose|answer: Result<(), DataSourceManagerError>| #[trigger]
            answers(answer) && deregister_answered(before, id, answer, r, after);
        assert(wider(answer));
    }
}

/// An update that ends as one set of answers allows also ends as any wider
/// set allows.
pub proof fn lemma_update_done_widens<T>(
    before: Map<Seq<char>, SourceState<T>>,
    id: Seq<char>,
    capacity: nat,
    answers: spec_fn(Result<T, DataSourceManagerError>) -> bool,
    wider: spec_fn(Result<T, DataSourceManagerError>) -> bool,
    r: Result<(), ManagerAndDataError>,
    after: Map<Seq<char>, SourceState<T>>,
)
    requires
        update_done(before, id, capacity, answers, r, after),
        forall|answer: Result<T, DataSourceManagerError>| #[trigger]
            answers(answer) ==> wider(answer),
    ensures
        update_done(before, id, capacity, wider, r, after),
{
    if update_refusal(before, id) is None {
        let answer = choose|answer: Result<T, DataSourceManagerError>| #[trigger]
            answers(answer) && update_answered(before, id, capacity, answer, r, after);
        assert(wider(answer));
    }
}

/// Whether `r` is what reading position `index` of `id` gives.
pub open spec fn is_read_result<T>(
    sources: Map<Seq<char>, SourceState<T>>,
    id: Seq<char>,
    index: nat,
    r: Result<T, ManagerAndDataError>,
) -> bool {
    match r {
        Ok(reading) => read_result(sources, id, index) == Ok::<T, ErrorKind>(reading),
        Err(err) => read_result(sources, id, index) == Err::<T, ErrorKind>(err@),
    }
}

/// Registering an identifier that was just registered is turned down with
/// `IdAlreadyExists`.
pub proof fn lemma_register_twice<T>(sources: Map<Seq<char>, SourceState<T>>, id: Seq<char>)
    requires
        register_refusal(sources, id) is None,
    ensures
        register_refusal(with_registered(sources, id), id) == Some(ErrorKind::IdAlreadyExists(id)),
{
}

/// Deregistering an identifier that was just deregistered is turned down:
/// with `IdAlreadyDeregistered` where the source left history, with
/// `IdDoesntExist` where it left none.
pub proof fn lemma_deregister_twice<T>(sources: Map<Seq<char>, SourceState<T>>, id: Seq<char>)
    requires
        deregister_refusal(sources, id) is None,
    ensures
        deregister_refusal(with_deregistered(sources, id), id) == Some(
            if sources[id] is RegisteredNoData {
                ErrorKind::IdDoesntExist(id)
            } else {
                ErrorKind::IdAlreadyDeregistered(id)
            },
        ),
{
}

/// After the first update of a source, position 0 holds the decoded reading
/// and position 1 is out of bounds.
pub proof fn lemma_first_update_read<T>(
    sources: Map<Seq<char>, SourceState<T>>,
    id: Seq<char>,
    reading: T,
    capacity: nat,
)
    requires
        capacity >= 1,
        sources.get(id) == Some(SourceState::<T>::RegisteredNoData),
    ensures
        read_result(with_update(sources, id, reading, capacity), id, 0) == Ok::<T, ErrorKind>(
            reading,
        ),
        read_result(with_update(sources, id, reading, capacity), id, 1) == Err::<T, ErrorKind>(
            ErrorKind::IndexOutOfBounds,
        ),
{
    assert(Seq::<T>::empty().push(reading).len() == 1);
}

/// After an update, the newest position of the history holds the decoded
/// reading.
pub proof fn lemma_update_read_newest<T>(
    sources: Map<Seq<char>, SourceState<T>>,
    id: Seq<char>,
    reading: T,
    capacity: nat,
)
    requires
        capacity >= 1,
        update_refusal(sources, id) is None,
    ensures
        ({
            let after = with_update(sources, id, reading, capacity);
            let len = after[id].history().len();
            &&& 0 < len <= capacity
            &&& read_result(after, id, (len - 1) as nat) == Ok::<T, ErrorKind>(reading)
        }),
{
}

/// A source that was registered for the first time and not updated since has
/// no data at any position.
pub proof fn lemma_read_before_update<T>(
    sources: Map<Seq<char>, SourceState<T>>,
    id: Seq<char>,
    index: nat,
)
    requires
        sources.get(id) is None,
    ensures
        read_result(with_registered(sources, id), id, index) == Err::<T, ErrorKind>(
            ErrorKind::NoData,
        ),
{
}

/// Deregistering a source with history leaves every position readable as
/// before, and so does registering it again, after which updates are
/// accepted once more.
pub proof fn lemma_history_survives<T>(
    sources: Map<Seq<char>, SourceState<T>>,
    id: Seq<char>,
    index: nat,
)
    requires
        sources.get(id) matches Some(SourceState::RegisteredWithData(_)),
    ensures
        read_result(with_deregistered(sources, id), id, index) == read_result(sources, id, index),
        update_refusal(with_deregistered(sources, id), id) == Some(ErrorKind::IdDoesntExist(id)),
        register_refusal(with_deregistered(sources, id), id) is None,
        read_result(with_registered(with_deregistered(sources, id), id), id, index) == read_result(
            sources,
            id,
            index,
        ),
        update_refusal(with_registered(with_deregistered(sources, id), id), id) is None,
{
}

/// An operation on one identifier leaves the entries of all others as they
/// were.
pub proof fn lemma_other_sources_untouched<T>(
    sources: Map<Seq<char>, SourceState<T>>,
    id: Seq<char>,
    other: Seq<char>,
    reading: T,
    capacity: nat,
)
    requires
        other != id,
    ensures
        with_registered(sources, id).get(other) == sources.get(other),
        with_deregistered(sources, id).get(other) == sources.get(other),
        with_update(sources, id, reading, capacity).get(other) == sources.get(other),
{
}

} // verus!
