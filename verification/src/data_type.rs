//! Managers of readings of any kind behind one interface.

use vstd::prelude::*;
use crate::circular_vec::retained;
use crate::manager_and_data::{ManagerAndDataError, TypedManagerAndData};
use crate::source_state::{
    after_update,
    deregister_answered,
    deregister_done,
    deregister_refusal,
    is_read_result,
    lemma_deregister_done_widens,
    lemma_register_done_widens,
    lemma_update_done_widens,
    register_answered,
    register_done,
    register_refusal,
    update_answered,
    update_done,
    update_refusal,
    with_deregistered,
    with_registered,
    with_update,
    SourceState,
};
use crate::server_plugin::{DataSourceManager, DataSourceManagerError, FloatBits};

verus! {

/// A reading together with its kind.
#[derive(Clone, Copy, Debug, PartialEq, Eq, Structural)]
pub enum DataType {
    /// A signed integer reading.
    IInteger(i64),
    /// An unsigned integer reading.
    UInteger(u64),
    /// A floating-point reading.
    Float(FloatBits),
}

/// A type of readings, each of which has a place in `DataType`.
pub trait DataValue: Copy + Send + Sync {
    /// The reading with its kind.
    spec fn data_type(self) -> DataType;

    /// The reading with its kind.
    fn into_data_type(self) -> (d: DataType)
        ensures
            d == self.data_type(),
    ;
}

impl DataValue for i64 {
    open spec fn data_type(self) -> DataType {
        DataType::IInteger(self)
    }

    fn into_data_type(self) -> DataType {
        DataType::IInteger(self)
    }
}

impl DataValue for u64 {
    open spec fn data_type(self) -> DataType {
        DataType::UInteger(self)
    }

    fn into_data_type(self) -> DataType {
        DataType::UInteger(self)
    }
}

impl DataValue for FloatBits {
    open spec fn data_type(self) -> DataType {
        DataType::Float(self)
    }

    fn into_data_type(self) -> DataType {
        DataType::Float(self)
    }
}

/// A manager of signed integer readings with its data.
pub type IIntegerManagerAndData<M> = TypedManagerAndData<i64, M>;

/// A manager of unsigned integer readings with its data.
pub type UIntegerManagerAndData<M> = TypedManagerAndData<u64, M>;

/// A manager of floating-point readings with its data.
pub type FloatManagerAndData<M> = TypedManagerAndData<FloatBits, M>;

/// The state of a source with each reading given its kind.
pub open spec fn tagged_state<T: DataValue>(state: SourceState<T>) -> SourceState<DataType> {
    match state {
        SourceState::RegisteredNoData => SourceState::RegisteredNoData,
        SourceState::RegisteredWithData(h) => SourceState::RegisteredWithData(
            h.map_values(|v: T| v.data_type()),
        ),
        SourceState::DeregisteredWithData(h) => SourceState::DeregisteredWithData(
            h.map_values(|v: T| v.data_type()),
        ),
    }
}

/// The registry with each reading given its kind.
pub open spec fn tagged<T: DataValue>(sources: Map<Seq<char>, SourceState<T>>) -> Map<
    Seq<char>,
    SourceState<DataType>,
> {
    Map::new(|id: Seq<char>| sources.contains_key(id), |id: Seq<char>| tagged_state(sources[id]))
}

/// The result of a read with the reading given its kind.
pub open spec fn tagged_read<T: DataValue>(r: Result<T, ManagerAndDataError>) -> Result<
    DataType,
    ManagerAndDataError,
> {
    match r {
        Ok(reading) => Ok(reading.data_type()),
        Err(err) => Err(err),
    }
}

/// The answer of a decoder with the reading given its kind.
pub open spec fn tagged_answer<T: DataValue>(answer: Result<T, DataSourceManagerError>) -> Result<
    DataType,
    DataSourceManagerError,
> {
    match answer {
        Ok(reading) => Ok(reading.data_type()),
        Err(cause) => Err(cause),
    }
}

/// Giving readings their kind changes nothing of how a registration ends.
pub proof fn lemma_tagged_register<T: DataValue>(
    before: Map<Seq<char>, SourceState<T>>,
    id: Seq<char>,
    answers: spec_fn(Result<(), DataSourceManagerError>) -> bool,
    r: Result<(), ManagerAndDataError>,
    after: Map<Seq<char>, SourceState<T>>,
)
    requires
        register_done(before, id, answers, r, after),
    ensures
        register_done(tagged(before), id, answers, r, tagged(after)),
{
    assert(tagged(before).get(id) == match before.get(id) {
        Some(s) => Some(tagged_state(s)),
        None => None,
    });
    if register_refusal(before, id) is None {
        let answer = choose|answer: Result<(), DataSourceManagerError>| #[trigger]
            answers(answer) && register_answered(before, id, answer, r, after);
        if answer is Ok {
            assert(tagged(after) =~= with_registered(tagged(before), id));
        }
        assert(register_answered(tagged(before), id, answer, r, tagged(after)));
    }
}

/// Giving readings their kind changes nothing of how a deregistration
/// ends.
pub proof fn lemma_tagged_deregister<T: DataValue>(
    before: Map<Seq<char>, SourceState<T>>,
    id: Seq<char>,
    answers: spec_fn(Result<(), DataSourceManagerError>) -> bool,
    r: Result<(), ManagerAndDataError>,
    after: Map<Seq<char>, SourceState<T>>,
)
    requires
        deregister_done(before, id, answers, r, after),
    ensures
        deregister_done(tagged(before), id, answers, r, tagged(after)),
{
    assert(tagged(before).get(id) == match before.get(id) {
        Some(s) => Some(tagged_state(s)),
        None => None,
    });
    if deregister_refusal(before, id) is None {
        let answer = choose|answer: Result<(), DataSourceManagerError>| #[trigger]
            answers(answer) && deregister_answered(before, id, answer, r, after);
        if answer is Ok {
            assert(tagged(after) =~= with_deregistered(tagged(before), id));
        }
        assert(deregister_answered(tagged(before), id, answer, r, tagged(after)));
    }
}

/// Giving readings their kind changes nothing of how an update ends: the
/// reading that is appended is the decoded one with its kind.
pub proof fn lemma_tagged_update<T: DataValue>(
    before: Map<Seq<char>, SourceState<T>>,
    id: Seq<char>,
    capacity: nat,
    answers: spec_fn(Result<T, DataSourceManagerError>) -> bool,
    r: Result<(), ManagerAndDataError>,
    after: Map<Seq<char>, SourceState<T>>,
)
    requires
        update_done(before, id, capacity, answers, r, after),
    ensures
        update_done(
            tagged(before),
            id,
            capacity,
            |tagged: Result<DataType, DataSourceManagerError>|
                exists|answer: Result<T, DataSourceManagerError>| #[trigger]
                    answers(answer) && tagged_answer(answer) == tagged,
            r,
            tagged(after),
        ),
{
    assert(tagged(before).get(id) == match before.get(id) {
        Some(s) => Some(tagged_state(s)),
        None => None,
    });
    if update_refusal(before, id) is None {
        let answer = choose|answer: Result<T, DataSourceManagerError>| #[trigger]
            answers(answer) && update_answered(before, id, capacity, answer, r, after);
        let tagged_answers = |tagged: Result<DataType, DataSourceManagerError>|
            exists|answer: Result<T, DataSourceManagerError>| #[trigger]
                answers(answer) && tagged_answer(answer) == tagged;
        assert(tagged_answers(tagged_answer(answer)));
        match answer {
            Ok(reading) => {
                let h = before[id].history();
                let f = |v: T| v.data_type();
                assert(retained(h.push(reading), capacity).map_values(f) =~= retained(
                    h.map_values(f).push(reading.data_type()),
                    capacity,
                ));
                assert(tagged_state(before[id]).history() =~= h.map_values(f));
                assert(tagged_state(after_update(before[id], reading, capacity)) == after_update(
                    tagged_state(before[id]),
                    reading.data_type(),
                    capacity,
                ));
                assert(tagged(after) =~= with_update(
                    tagged(before),
                    id,
                    reading.data_type(),
                    capacity,
                ));
            },
            Err(_) => {},
        }
        assert(update_answered(
            tagged(before),
            id,
            capacity,
            tagged_answer(answer),
            r,
            tagged(after),
        ));
    }
}

/// Giving readings their kind gives the result of a read its kind.
pub proof fn lemma_tagged_read<T: DataValue>(
    sources: Map<Seq<char>, SourceState<T>>,
    id: Seq<char>,
    index: nat,
    r: Result<T, ManagerAndDataError>,
)
    requires
        is_read_result(sources, id, index, r),
    ensures
        is_read_result(tagged(sources), id, index, tagged_read(r)),
{
    assert(tagged(sources).get(id) == match sources.get(id) {
        Some(s) => Some(tagged_state(s)),
        None => None,
    });
}

/// A manager with its data, whatever the kind of its readings.
pub trait ManagerAndData: Send + Sync {
    /// The representation invariant of the implementation.
    spec fn valid(&self) -> bool;

    /// The registry, each reading with its kind.
    spec fn sources(&self) -> Map<Seq<char>, SourceState<DataType>>;

    /// The number of readings retained per source.
    spec fn retention(&self) -> nat;

    /// The identifier of the manager.
    spec fn id(&self) -> Seq<char>;

    /// Whether `answer` is one that the manager may give to a registration
    /// of `id`, with `data` where the request brought any.
    spec fn register_answer(
        &self,
        id: Seq<char>,
        data: Option<Seq<u8>>,
        answer: Result<(), DataSourceManagerError>,
    ) -> bool;

    /// Whether `answer` is one that the manager may give to a
    /// deregistration of `id`, with `data` where the request brought any.
    spec fn deregister_answer(
        &self,
        id: Seq<char>,
        data: Option<Seq<u8>>,
        answer: Result<(), DataSourceManagerError>,
    ) -> bool;

    /// Whether `answer` is what the manager may decode the payload `data`
    /// of `id` to.
    spec fn update_answer(
        &self,
        id: Seq<char>,
        data: Seq<u8>,
        answer: Result<DataType, DataSourceManagerError>,
    ) -> bool;

    /// The identifier of the manager.
    fn manager_id(&self) -> (id: &'static str)
        ensures
            id@ == self.id(),
    ;

    /// Registers the data source `id`.
    fn register(&mut self, id: String) -> (r: Result<(), ManagerAndDataError>)
        requires
            old(self).valid(),
        ensures
            final(self).valid(),
            final(self).retention() == old(self).retention(),
            final(self).id() == old(self).id(),
            register_done(
                old(self).sources(),
                id@,
                (|answer: Result<(), DataSourceManagerError>|
                    old(self).register_answer(id@, None, answer)),
                r,
                final(self).sources(),
            ),
    ;

    /// Registers the data source `id`, handing `data` to the manager.
    fn register_with_data(&mut self, id: String, data: &[u8]) -> (r: Result<
        (),
        ManagerAndDataError,
    >)
        requires
            old(self).valid(),
        ensures
            final(self).valid(),
            final(self).retention() == old(self).retention(),
            final(self).id() == old(self).id(),
            register_done(
                old(self).sources(),
                id@,
                (|answer: Result<(), DataSourceManagerError>|
                    old(self).register_answer(id@, Some(data@), answer)),
                r,
                final(self).sources(),
            ),
    ;

    /// Deregisters the data source `id`.
    fn deregister(&mut self, id: &str) -> (r: Result<(), ManagerAndDataError>)
        requires
            old(self).valid(),
        ensures
            final(self).valid(),
            final(self).retention() == old(self).retention(),
            final(self).id() == old(self).id(),
            deregister_done(
                old(self).sources(),
                id@,
                (|answer: Result<(), DataSourceManagerError>|
                    old(self).deregister_answer(id@, None, answer)),
                r,
                final(self).sources(),
            ),
    ;

    /// Deregisters the data source `id`, handing `data` to the manager.
    fn deregister_with_data(&mut self, id: &str, data: &[u8]) -> (r: Result<
        (),
        ManagerAndDataError,
    >)
        requires
            old(self).valid(),
        ensures
            final(self).valid(),
            final(self).retention() == old(self).retention(),
            final(self).id() == old(self).id(),
            deregister_done(
                old(self).sources(),
                id@,
                (|answer: Result<(), DataSourceManagerError>|
                    old(self).deregister_answer(id@, Some(data@), answer)),
                r,
                final(self).sources(),
            ),
    ;

    /// Decodes `data` and appends the reading to the history of `id`.
    fn update_data(&mut self, id: &str, data: &[u8]) -> (r: Result<(), ManagerAndDataError>)
        requires
            old(self).valid(),
        ensures
            final(self).valid(),
            final(self).retention() == old(self).retention(),
            final(self).id() == old(self).id(),
            update_done(
                old(self).sources(),
                id@,
                old(self).retention(),
                (|answer: Result<DataType, DataSourceManagerError>|
                    old(self).update_answer(id@, data@, answer)),
                r,
                final(self).sources(),
            ),
    ;

    /// The reading at position `index` of the history of `id`, with its
    /// kind.
    fn get_data(&self, id: &str, index: usize) -> (r: Result<DataType, ManagerAndDataError>)
        requires
            self.valid(),
        ensures
            is_read_result(self.sources(), id@, index as nat, r),
    ;
}

impl<T: DataValue, M: DataSourceManager<T>> ManagerAndData for TypedManagerAndData<T, M> {
    open spec fn valid(&self) -> bool {
        self.wf()
    }

    open spec fn sources(&self) -> Map<Seq<char>, SourceState<DataType>> {
        tagged(self@)
    }

    open spec fn retention(&self) -> nat {
        self.capacity()
    }

    open spec fn id(&self) -> Seq<char> {
        TypedManagerAndData::id(self)
    }

    open spec fn register_answer(
        &self,
        id: Seq<char>,
        data: Option<Seq<u8>>,
        answer: Result<(), DataSourceManagerError>,
    ) -> bool {
        match data {
            Some(data) => self.manager().register_with_data_result(id, data, answer),
            None => self.manager().register_result(id, answer),
        }
    }

    open spec fn deregister_answer(
        &self,
        id: Seq<char>,
        data: Option<Seq<u8>>,
        answer: Result<(), DataSourceManagerError>,
    ) -> bool {
        match data {
            Some(data) => self.manager().deregister_with_data_result(id, data, answer),
            None => self.manager().deregister_result(id, answer),
        }
    }

    open spec fn update_answer(
        &self,
        id: Seq<char>,
        data: Seq<u8>,
        answer: Result<DataType, DataSourceManagerError>,
    ) -> bool {
        exists|typed: Result<T, DataSourceManagerError>| #[trigger]
            self.manager().update_data_result(id, data, typed) && tagged_answer(typed) == answer
    }

    fn manager_id(&self) -> (id: &'static str) {
        self.manager_id()
    }

    fn register(&mut self, id: String) -> (r: Result<(), ManagerAndDataError>) {
        let ghost key = id@;
        let r = self.register(id);
        proof {
            let answers = |answer: Result<(), DataSourceManagerError>|
                old(self).manager().register_result(key, answer);
            let wider = |answer: Result<(), DataSourceManagerError>|
                ManagerAndData::register_answer(old(self), key, None, answer);
            lemma_tagged_register(old(self)@, key, answers, r, self@);
            lemma_register_done_widens(tagged(old(self)@), key, answers, wider, r, tagged(self@));
        }
        r
    }

    fn register_with_data(&mut self, id: String, data: &[u8]) -> (r: Result<
        (),
        ManagerAndDataError,
    >) {
        let ghost key = id@;
        let r = self.register_with_data(id, data);
        proof {
            let answers = |answer: Result<(), DataSourceManagerError>|
                old(self).manager().register_with_data_result(key, data@, answer);
            let wider = |answer: Result<(), DataSourceManagerError>|
                ManagerAndData::register_answer(old(self), key, Some(data@), answer);
            lemma_tagged_register(old(self)@, key, answers, r, self@);
            lemma_register_done_widens(tagged(old(self)@), key, answers, wider, r, tagged(self@));
        }
        r
    }

    fn deregister(&mut self, id: &str) -> (r: Result<(), ManagerAndDataError>) {
        let r = self.deregister(id);
        proof {
            let answers = |answer: Result<(), DataSourceManagerError>|
                old(self).manager().deregister_result(id@, answer);
            let wider = |answer: Result<(), DataSourceManagerError>|
                ManagerAndData::deregister_answer(old(self), id@, None, answer);
            lemma_tagged_deregister(old(self)@, id@, answers, r, self@);
            lemma_deregister_done_widens(tagged(old(self)@), id@, answers, wider, r, tagged(self@));
        }
        r
    }

    fn deregister_with_data(&mut self, id: &str, data: &[u8]) -> (r: Result<
        (),
        ManagerAndDataError,
    >) {
        let r = self.deregister_with_data(id, data);
        proof {
            let answers = |answer: Result<(), DataSourceManagerError>|
                old(self).manager().deregister_with_data_result(id@, data@, answer);
            let wider = |answer: Result<(), DataSourceManagerError>|
                ManagerAndData::deregister_answer(old(self), id@, Some(data@), answer);
            lemma_tagged_deregister(old(self)@, id@, answers, r, self@);
            lemma_deregister_done_widens(tagged(old(self)@), id@, answers, wider, r, tagged(self@));
        }
        r
    }

    fn update_data(&mut self, id: &str, data: &[u8]) -> (r: Result<(), ManagerAndDataError>) {
        let r = self.update_data(id, data);
        proof {
            let answers = |answer: Result<T, DataSourceManagerError>|
                old(self).manager().update_data_result(id@, data@, answer);
            let tagged_answers = |tagged: Result<DataType, DataSourceManagerError>|
                exists|answer: Result<T, DataSourceManagerError>| #[trigger]
                    answers(answer) && tagged_answer(answer) == tagged;
            let wider = |answer: Result<DataType, DataSourceManagerError>|
                ManagerAndData::update_answer(old(self), id@, data@, answer);
            lemma_tagged_update(old(self)@, id@, old(self).capacity(), answers, r, self@);
            assert forall|tagged: Result<DataType, DataSourceManagerError>| #[trigger]
                tagged_answers(tagged) implies wider(tagged) by {
                let answer = choose|answer: Result<T, DataSourceManagerError>| #[trigger]
                    answers(answer) && tagged_answer(answer) == tagged;
                assert(old(self).manager().update_data_result(id@, data@, answer));
            }
            lemma_update_done_widens(
                tagged(old(self)@),
                id@,
                old(self).capacity(),
                tagged_answers,
                wider,
                r,
                tagged(self@),
            );
        }
        r
    }

    fn get_data(&self, id: &str, index: usize) -> (r: Result<DataType, ManagerAndDataError>) {
        let typed = self.get_data(id, index);
        proof {
            lemma_tagged_read(self@, id@, index as nat, typed);
        }
        match typed {
            Ok(reading) => Ok(reading.into_data_type()),
            Err(err) => Err(err),
        }
    }
}

/// A manager of any of the three kinds of readings, with its data.
pub enum AnyManagerAndData<I: DataSourceManager<i64>, U: DataSourceManager<u64>, F: DataSourceManager<FloatBits>> {
    /// A manager of signed integer readings.
    IInteger(TypedManagerAndData<i64, I>),
    /// A manager of unsigned integer readings.
    UInteger(TypedManagerAndData<u64, U>),
    /// A manager of floating-point readings.
    Float(TypedManagerAndData<FloatBits, F>),
}

impl<
    I: DataSourceManager<i64>,
    U: DataSourceManager<u64>,
    F: DataSourceManager<FloatBits>,
> ManagerAndData for AnyManagerAndData<I, U, F> {
    open spec fn valid(&self) -> bool {
        match self {
            AnyManagerAndData::IInteger(m) => m.valid(),
            AnyManagerAndData::UInteger(m) => m.valid(),
            AnyManagerAndData::Float(m) => m.valid(),
        }
    }

    open spec fn sources(&self) -> Map<Seq<char>, SourceState<DataType>> {
        match self {
            AnyManagerAndData::IInteger(m) => m.sources(),
            AnyManagerAndData::UInteger(m) => m.sources(),
            AnyManagerAndData::Float(m) => m.sources(),
        }
    }

    open spec fn retention(&self) -> nat {
        match self {
            AnyManagerAndData::IInteger(m) => m.retention(),
            AnyManagerAndData::UInteger(m) => m.retention(),
            AnyManagerAndData::Float(m) => m.retention(),
        }
    }

    open spec fn id(&self) -> Seq<char> {
        match self {
            AnyManagerAndData::IInteger(m) => ManagerAndData::id(m),
            AnyManagerAndData::UInteger(m) => ManagerAndData::id(m),
            AnyManagerAndData::Float(m) => ManagerAndData::id(m),
        }
    }

    open spec fn register_answer(
        &self,
        id: Seq<char>,
        data: Option<Seq<u8>>,
        answer: Result<(), DataSourceManagerError>,
    ) -> bool {
        match self {
            AnyManagerAndData::IInteger(m) => m.register_answer(id, data, answer),
            AnyManagerAndData::UInteger(m) => m.register_answer(id, data, answer),
            AnyManagerAndData::Float(m) => m.register_answer(id, data, answer),
        }
    }

    open spec fn deregister_answer(
        &self,
        id: Seq<char>,
        data: Option<Seq<u8>>,
        answer: Result<(), DataSourceManagerError>,
    ) -> bool {
        match self {
            AnyManagerAndData::IInteger(m) => m.deregister_answer(id, data, answer),
            AnyManagerAndData::UInteger(m) => m.deregister_answer(id, data, answer),
            AnyManagerAndData::Float(m) => m.deregister_answer(id, data, answer),
        }
    }

    open spec fn update_answer(
        &self,
        id: Seq<char>,
        data: Seq<u8>,
        answer: Result<DataType, DataSourceManagerError>,
    ) -> bool {
        match self {
            AnyManagerAndData::IInteger(m) => m.update_answer(id, data, answer),
            AnyManagerAndData::UInteger(m) => m.update_answer(id, data, answer),
            AnyManagerAndData::Float(m) => m.update_answer(id, data, answer),
        }
    }

    fn manager_id(&self) -> (id: &'static str) {
        match self {
            AnyManagerAndData::IInteger(m) => ManagerAndData::manager_id(m),
            AnyManagerAndData::UInteger(m) => ManagerAndData::manager_id(m),
            AnyManagerAndData::Float(m) => ManagerAndData::manager_id(m),
        }
    }

    fn register(&mut self, id: String) -> (r: Result<(), ManagerAndDataError>) {
        let ghost key = id@;
        match self {
            AnyManagerAndData::IInteger(m) => {
                let r = ManagerAndData::register(m, id);
                proof {
                    let before = old(self)->IInteger_0;
                    lemma_register_done_widens(
                        before.sources(),
                        key,
                        |answer: Result<(), DataSourceManagerError>|
                            before.register_answer(key, None, answer),
                        |answer: Result<(), DataSourceManagerError>|
                            old(self).register_answer(key, None, answer),
                        r,
                        m.sources(),
                    );
                }
                r
            },
            AnyManagerAndData::UInteger(m) => {
                let r = ManagerAndData::register(m, id);
                proof {
                    let before = old(self)->UInteger_0;
                    lemma_register_done_widens(
                        before.sources(),
                        key,
                        |answer: Result<(), DataSourceManagerError>|
                            before.register_answer(key, None, answer),
                        |answer: Result<(), DataSourceManagerError>|
                            old(self).register_answer(key, None, answer),
                        r,
                        m.sources(),
                    );
                }
                r
            },
            AnyManagerAndData::Float(m) => {
                let r = ManagerAndData::register(m, id);
                proof {
                    let before = old(self)->Float_0;
                    lemma_register_done_widens(
                        before.sources(),
                        key,
                        |answer: Result<(), DataSourceManagerError>|
                            before.register_answer(key, None, answer),
                        |answer: Result<(), DataSourceManagerError>|
                            old(self).register_answer(key, None, answer),
                        r,
                        m.sources(),
                    );
                }
                r
            },
        }
    }

    fn register_with_data(&mut self, id: String, data: &[u8]) -> (r: Result<
        (),
        ManagerAndDataError,
    >) {
        let ghost key = id@;
        match self {
            AnyManagerAndData::IInteger(m) => {
                let r = ManagerAndData::register_with_data(m, id, data);
                proof {
                    let before = old(self)->IInteger_0;
                    lemma_register_done_widens(
                        before.sources(),
                        key,
                        |answer: Result<(), DataSourceManagerError>|
                            before.register_answer(key, Some(data@), answer),
                        |answer: Result<(), DataSourceManagerError>|
                            old(self).register_answer(key, Some(data@), answer),
                        r,
                        m.sources(),
                    );
                }
                r
            },
            AnyManagerAndData::UInteger(m) => {
                let r = ManagerAndData::register_with_data(m, id, data);
                proof {
                    let before = old(self)->UInteger_0;
                    lemma_register_done_widens(
                        before.sources(),
                        key,
                        |answer: Result<(), DataSourceManagerError>|
                            before.register_answer(key, Some(data@), answer),
                        |answer: Result<(), DataSourceManagerError>|
                            old(self).register_answer(key, Some(data@), answer),
                        r,
                        m.sources(),
                    );
                }
                r
            },
            AnyManagerAndData::Float(m) => {
                let r = ManagerAndData::register_with_data(m, id, data);
                proof {
                    let before = old(self)->Float_0;
                    lemma_register_done_widens(
                        before.sources(),
                        key,
                        |answer: Result<(), DataSourceManagerError>|
                            before.register_answer(key, Some(data@), answer),
                        |answer: Result<(), DataSourceManagerError>|
                            old(self).register_answer(key, Some(data@), answer),
                        r,
                        m.sources(),
                    );
                }
                r
            },
        }
    }

    fn deregister(&mut self, id: &str) -> (r: Result<(), ManagerAndDataError>) {
        match self {
            AnyManagerAndData::IInteger(m) => {
                let r = ManagerAndData::deregister(m, id);
                proof {
                    let before = old(self)->IInteger_0;
                    lemma_deregister_done_widens(
                        before.sources(),
                        id@,
                        |answer: Result<(), DataSourceManagerError>|
                            before.deregister_answer(id@, None, answer),
                        |answer: Result<(), DataSourceManagerError>|
                            old(self).deregister_answer(id@, None, answer),
                        r,
                        m.sources(),
                    );
                }
                r
            },
            AnyManagerAndData::UInteger(m) => {
                let r = ManagerAndData::deregister(m, id);
                proof {
                    let before = old(self)->UInteger_0;
                    lemma_deregister_done_widens(
                        before.sources(),
                        id@,
                        |answer: Result<(), DataSourceManagerError>|
                            before.deregister_answer(id@, None, answer),
                        |answer: Result<(), DataSourceManagerError>|
                            old(self).deregister_answer(id@, None, answer),
                        r,
                        m.sources(),
                    );
                }
                r
            },
            AnyManagerAndData::Float(m) => {
                let r = ManagerAndData::deregister(m, id);
                proof {
                    let before = old(self)->Float_0;
                    lemma_deregister_done_widens(
                        before.sources(),
                        id@,
                        |answer: Result<(), DataSourceManagerError>|
                            before.deregister_answer(id@, None, answer),
                        |answer: Result<(), DataSourceManagerError>|
                            old(self).deregister_answer(id@, None, answer),
                        r,
                        m.sources(),
                    );
                }
                r
            },
        }
    }

    fn deregister_with_data(&mut self, id: &str, data: &[u8]) -> (r: Result<
        (),
        ManagerAndDataError,
    >) {
        match self {
            AnyManagerAndData::IInteger(m) => {
                let r = ManagerAndData::deregister_with_data(m, id, data);
                proof {
                    let before = old(self)->IInteger_0;
                    lemma_deregister_done_widens(
                        before.sources(),
                        id@,
                        |answer: Result<(), DataSourceManagerError>|
                            before.deregister_answer(id@, Some(data@), answer),
                        |answer: Result<(), DataSourceManagerError>|
                            old(self).deregister_answer(id@, Some(data@), answer),
                        r,
                        m.sources(),
                    );
                }
                r
            },
            AnyManagerAndData::UInteger(m) => {
                let r = ManagerAndData::deregister_with_data(m, id, data);
                proof {
                    let before = old(self)->UInteger_0;
                    lemma_deregister_done_widens(
                        before.sources(),
                        id@,
                        |answer: Result<(), DataSourceManagerError>|
                            before.deregister_answer(id@, Some(data@), answer),
                        |answer: Result<(), DataSourceManagerError>|
                            old(self).deregister_answer(id@, Some(data@), answer),
                        r,
                        m.sources(),
                    );
                }
                r
            },
            AnyManagerAndData::Float(m) => {
                let r = ManagerAndData::deregister_with_data(m, id, data);
                proof {
                    let before = old(self)->Float_0;
                    lemma_deregister_done_widens(
                        before.sources(),
                        id@,
                        |answer: Result<(), DataSourceManagerError>|
                            before.deregister_answer(id@, Some(data@), answer),
                        |answer: Result<(), DataSourceManagerError>|
                            old(self).deregister_answer(id@, Some(data@), answer),
                        r,
                        m.sources(),
                    );
                }
                r
            },
        }
    }

    fn update_data(&mut self, id: &str, data: &[u8]) -> (r: Result<(), ManagerAndDataError>) {
        match self {
            AnyManagerAndData::IInteger(m) => {
                let r = ManagerAndData::update_data(m, id, data);
                proof {
                    let before = old(self)->IInteger_0;
                    lemma_update_done_widens(
                        before.sources(),
                        id@,
                        before.retention(),
                        |answer: Result<DataType, DataSourceManagerError>|
                            before.update_answer(id@, data@, answer),
                        |answer: Result<DataType, DataSourceManagerError>|
                            old(self).update_answer(id@, data@, answer),
                        r,
                        m.sources(),
                    );
                }
                r
            },
            AnyManagerAndData::UInteger(m) => {
                let r = ManagerAndData::update_data(m, id, data);
                proof {
                    let before = old(self)->UInteger_0;
                    lemma_update_done_widens(
                        before.sources(),
                        id@,
                        before.retention(),
                        |answer: Result<DataType, DataSourceManagerError>|
                            before.update_answer(id@, data@, answer),
                        |answer: Result<DataType, DataSourceManagerError>|
                            old(self).update_answer(id@, data@, answer),
                        r,
                        m.sources(),
                    );
                }
                r
            },
            AnyManagerAndData::Float(m) => {
                let r = ManagerAndData::update_data(m, id, data);
                proof {
                    let before = old(self)->Float_0;
                    lemma_update_done_widens(
                        before.sources(),
                        id@,
                        before.retention(),
                        |answer: Result<DataType, DataSourceManagerError>|
                            before.update_answer(id@, data@, answer),
                        |answer: Result<DataType, DataSourceManagerError>|
                            old(self).update_answer(id@, data@, answer),
                        r,
                        m.sources(),
                    );
                }
                r
            },
        }
    }

    fn get_data(&self, id: &str, index: usize) -> (r: Result<DataType, ManagerAndDataError>) {
        match self {
            AnyManagerAndData::IInteger(m) => ManagerAndData::get_data(m, id, index),
            AnyManagerAndData::UInteger(m) => ManagerAndData::get_data(m, id, index),
            AnyManagerAndData::Float(m) => ManagerAndData::get_data(m, id, index),
        }
    }
}

} // verus!
