//! The calls of the host's executor, one function for each.
//!
//! The states of all scans live in a [`ScanArena`]. The host is given a
//! [`ScanToken`] for a state and names the state by it in every later call.
//! Each function here takes the step that one call of the host stands for and
//! says what it does to the arena, seen as a map from tokens to states.

use vstd::prelude::*;

use crate::datum::Row;
use crate::state::DataFusionFdwStat;
use crate::state::Phase;
use crate::state::QueryOutcome;
use crate::state::ScanModel;
use crate::token::deserialized;
use crate::token::serialized;
use crate::token::ScanToken;

verus! {

/// The flag of the host's executor that marks a run which only inspects the
/// plan.
pub const EXEC_FLAG_EXPLAIN_ONLY: i32 = 1;

/// Why a token names no state.
#[derive(Clone, Copy, Debug, PartialEq, Eq, Structural)]
pub enum ScanError {
    /// The reference is empty, or the state that it named has been released.
    StateAbsent,
    /// No state has been created under the reference yet.
    NotCreated,
}

/// What the host's call to start a scan asks of its caller.
#[derive(Clone, Copy, Debug, PartialEq, Eq, Structural)]
pub enum BeginAction {
    /// The run only inspects the plan: no query is to be sent.
    ExplainOnly,
    /// The remote query of the scan under this token is to be run, and its
    /// outcome handed to [`datafusion_populate_foreign_scan`].
    Execute(ScanToken),
}

/// One place of the arena.
struct Slot {
    /// The generation of the state that is in this place, or that will next
    /// be put here.
    generation: u32,
    state: Option<DataFusionFdwStat>,
}

/// The states of all scans that are under way.
pub struct ScanArena {
    slots: Vec<Slot>,
}

impl View for ScanArena {
    type V = Map<ScanToken, ScanModel>;

    /// The states that are under way, each under its token.
    open spec fn view(&self) -> Map<ScanToken, ScanModel> {
        Map::new(|token: ScanToken| self.holds(token), |token: ScanToken| self.model_of(token))
    }
}

impl ScanArena {
    /// Whether `token` names a state that is under way.
    pub open spec fn resolves(&self, token: ScanToken) -> bool {
        self@.contains_key(token)
    }

    /// Whether the place and the generation of `token` are those of a state.
    pub closed spec fn holds(&self, token: ScanToken) -> bool {
        &&& token.index < self.slots@.len()
        &&& self.slots@[token.index as int].generation == token.generation
        &&& self.slots@[token.index as int].state is Some
    }

    /// Whether a state has been created under `token` at some time, be it
    /// under way or released.
    pub closed spec fn created(&self, token: ScanToken) -> bool {
        &&& token.index < self.slots@.len()
        &&& (token.generation < self.slots@[token.index as int].generation || self.holds(token))
    }

    /// The state that `token` names.
    pub closed spec fn model_of(&self, token: ScanToken) -> ScanModel {
        self.slots@[token.index as int].state->0@
    }

    /// The number of places that the arena has ever made.
    pub closed spec fn slot_count(&self) -> nat {
        self.slots@.len()
    }

    /// Whether a place of a released state can take a new one.
    pub closed spec fn has_vacancy(&self) -> bool {
        exists|i: int| 0 <= i < self.slots@.len() && Self::vacant(#[trigger] self.slots@[i])
    }

    /// Whether the arena can take one more state: in a place of a released
    /// state, or in a new place as long as their number fits a token.
    pub open spec fn has_room(&self) -> bool {
        self.has_vacancy() || self.slot_count() < u32::MAX
    }

    /// Where the scan under `token` stands in its life: in the phase of its
    /// state as long as that is under way, at its end once the state has
    /// been released, and nowhere where none has been created.
    pub open spec fn phase_of(&self, token: ScanToken) -> Option<Phase> {
        if self.resolves(token) {
            Some(self@[token].phase)
        } else if self.created(token) {
            Some(Phase::Ended)
        } else {
            None
        }
    }

    /// Why `token` names no state, where it names none.
    pub open spec fn failure(&self, token: ScanToken) -> ScanError {
        if self.created(token) {
            ScanError::StateAbsent
        } else {
            ScanError::NotCreated
        }
    }

    /// How a later arena stands to an earlier one, whatever happened in
    /// between: what was created stays created, and what was released stays
    /// released, so that a token is never good for a second state.
    pub open spec fn keeps_history(&self, before: ScanArena) -> bool {
        &&& forall|token: ScanToken| #[trigger] before.created(token) ==> self.created(token)
        &&& forall|token: ScanToken|
            before.created(token) && !before.resolves(token) ==> !#[trigger] self.resolves(token)
        &&& before.slot_count() <= self.slot_count()
    }

    /// The invariant of the arena.
    pub closed spec fn wf(&self) -> bool {
        &&& self.slots@.len() <= u32::MAX
        &&& forall|i: int|
            0 <= i < self.slots@.len() ==> ((#[trigger] self.slots@[i]).state matches Some(state)
                ==> state.wf() && self.slots@[i].generation < u32::MAX)
    }

    /// A state that is under way has been created.
    pub proof fn lemma_under_way_is_created(&self, token: ScanToken)
        requires
            self.resolves(token),
        ensures
            self.created(token),
    {
    }

    /// The history of an arena is kept over any number of steps: an arena
    /// that keeps the history of one that keeps the history of a third keeps
    /// the history of the third.
    pub proof fn lemma_history_adds_up(&self, between: ScanArena, before: ScanArena)
        requires
            between.keeps_history(before),
            self.keeps_history(between),
        ensures
            self.keeps_history(before),
    {
        assert forall|token: ScanToken|
            before.created(token) && !before.resolves(token) implies !#[trigger] self.resolves(
            token,
        ) by {
            assert(between.created(token));
            assert(!between.resolves(token));
        }
    }

    spec fn vacant(slot: Slot) -> bool {
        slot.state is None && slot.generation < u32::MAX
    }

    /// An arena without states.
    pub fn new() -> (arena: ScanArena)
        ensures
            arena.wf(),
            arena@ == Map::<ScanToken, ScanModel>::empty(),
            arena.slot_count() == 0,
            forall|token: ScanToken| !arena.created(token),
    {
        let arena = ScanArena { slots: Vec::new() };
        assert(arena@ =~= Map::<ScanToken, ScanModel>::empty());
        arena
    }

    /// The state that `token` names.
    pub fn state(&self, token: ScanToken) -> (state: Result<&DataFusionFdwStat, ScanError>)
        requires
            self.wf(),
        ensures
            state is Ok <==> self.resolves(token),
            state matches Ok(found) ==> found.wf() && found@ == self@[token],
            state matches Err(e) ==> e == self.failure(token),
    {
        match self.locate(token) {
            Ok(i) => {
                match &self.slots[i].state {
                    Some(found) => Ok(found),
                    None => Err(ScanError::StateAbsent),
                }
            },
            Err(e) => Err(e),
        }
    }

    /// Where the scan under `token` stands in its life.
    pub fn phase(&self, token: ScanToken) -> (phase: Option<Phase>)
        requires
            self.wf(),
        ensures
            phase == self.phase_of(token),
    {
        match self.state(token) {
            Ok(found) => Some(found.phase()),
            Err(ScanError::StateAbsent) => Some(Phase::Ended),
            Err(ScanError::NotCreated) => None,
        }
    }

    /// The place of the state that `token` names.
    fn locate(&self, token: ScanToken) -> (place: Result<usize, ScanError>)
        requires
            self.wf(),
        ensures
            place is Ok <==> self.resolves(token),
            place matches Ok(i) ==> i == token.index && self.holds(token),
            place matches Err(e) ==> e == self.failure(token),
    {
        let i: usize = token.index as usize;
        if i >= self.slots.len() {
            return Err(ScanError::NotCreated);
        }
        let generation: u32 = self.slots[i].generation;
        if token.generation == generation && self.slots[i].state.is_some() {
            Ok(i)
        } else if token.generation < generation {
            Err(ScanError::StateAbsent)
        } else {
            Err(ScanError::NotCreated)
        }
    }

    /// A place that can take a new state, if there is one.
    fn find_vacancy(&self) -> (place: Option<usize>)
        ensures
            place is Some <==> self.has_vacancy(),
            place matches Some(i) ==> i < self.slots@.len() && Self::vacant(self.slots@[i as int]),
    {
        let mut i: usize = 0;
        while i < self.slots.len()
            invariant
                i <= self.slots@.len(),
                forall|j: int| 0 <= j < i ==> !Self::vacant(#[trigger] self.slots@[j]),
            decreases self.slots@.len() - i,
        {
            if self.slots[i].state.is_none() && self.slots[i].generation < u32::MAX {
                return Some(i);
            }
            i = i + 1;
        }
        None
    }
}

/// The host asks for the size of the relation, which is the first it does for
/// a scan: the state of the scan is created with nothing handed out and the
/// provisional row estimate, and the host gets its token. Where the arena has
/// no room, nothing is created.
pub fn datafusion_get_foreign_rel_size(arena: &mut ScanArena) -> (token: Option<ScanToken>)
    requires
        old(arena).wf(),
    ensures
        final(arena).wf(),
        final(arena).keeps_history(*old(arena)),
        final(arena).slot_count() <= old(arena).slot_count() + 1,
        token is Some <==> old(arena).has_room(),
        token matches Some(t) ==> {
            &&& !old(arena).created(t)
            &&& final(arena).created(t)
            &&& final(arena)@ == old(arena)@.insert(t, ScanModel::created())
        },
        token is None ==> final(arena)@ == old(arena)@,
{
    let state = DataFusionFdwStat::new();
    match arena.find_vacancy() {
        Some(i) => {
            let generation: u32 = arena.slots[i].generation;
            arena.slots[i].state = Some(state);
            let token = ScanToken { index: i as u32, generation };
            assert(arena@ =~= old(arena)@.insert(token, ScanModel::created()));
            Some(token)
        },
        None => {
            if arena.slots.len() < u32::MAX as usize {
                let i: usize = arena.slots.len();
                arena.slots.push(Slot { generation: 0, state: Some(state) });
                let token = ScanToken { index: i as u32, generation: 0 };
                assert(arena@ =~= old(arena)@.insert(token, ScanModel::created()));
                Some(token)
            } else {
                None
            }
        },
    }
}

/// The host asks for the plan of a scan: the state becomes planned and takes
/// the predicate fragments along, and the host gets the list that carries the
/// token into execution.
pub fn datafusion_get_foreign_plan(
    arena: &mut ScanArena,
    token: ScanToken,
    quals: Vec<String>,
) -> (fdw_private: Result<Vec<i64>, ScanError>)
    requires
        old(arena).wf(),
    ensures
        final(arena).wf(),
        final(arena).keeps_history(*old(arena)),
        final(arena).slot_count() == old(arena).slot_count(),
        fdw_private is Ok <==> old(arena).resolves(token),
        fdw_private matches Ok(list) ==> {
            &&& list@ == serialized(token)
            &&& final(arena)@ == old(arena)@.insert(
                token,
                old(arena)@[token].planned(quals.deep_view()),
            )
        },
        fdw_private matches Err(e) ==> {
            &&& e == old(arena).failure(token)
            &&& final(arena)@ == old(arena)@
        },
{
    match arena.locate(token) {
        Ok(i) => {
            match &mut arena.slots[i].state {
                Some(state) => {
                    state.plan(quals);
                },
                None => {},
            }
            assert(arena@ =~= old(arena)@.insert(
                token,
                old(arena)@[token].planned(quals.deep_view()),
            ));
            Ok(token.serialize_to_list())
        },
        Err(e) => Err(e),
    }
}

/// Whether the flags of a run say that it only inspects the plan.
pub open spec fn explain_only(eflags: i32) -> bool {
    eflags & EXEC_FLAG_EXPLAIN_ONLY > 0
}

/// The host starts the execution of a scan. A run that only inspects the plan
/// touches nothing. Otherwise the state that the plan's list names begins, and
/// the caller is asked to run the remote query; a list that names no state
/// ends the scan with an error.
pub fn datafusion_begin_foreign_scan(
    arena: &mut ScanArena,
    fdw_private: &Vec<i64>,
    eflags: i32,
) -> (action: Result<BeginAction, ScanError>)
    requires
        old(arena).wf(),
    ensures
        final(arena).wf(),
        final(arena).keeps_history(*old(arena)),
        final(arena).slot_count() == old(arena).slot_count(),
        explain_only(eflags) ==> {
            &&& action == Ok::<BeginAction, ScanError>(BeginAction::ExplainOnly)
            &&& final(arena)@ == old(arena)@
        },
        !explain_only(eflags) ==> match deserialized(fdw_private@) {
            Some(token) => if old(arena).resolves(token) {
                &&& action == Ok::<BeginAction, ScanError>(BeginAction::Execute(token))
                &&& final(arena)@ == old(arena)@.insert(token, old(arena)@[token].begun())
            } else {
                &&& action == Err::<BeginAction, ScanError>(old(arena).failure(token))
                &&& final(arena)@ == old(arena)@
            },
            None => {
                &&& action == Err::<BeginAction, ScanError>(ScanError::StateAbsent)
                &&& final(arena)@ == old(arena)@
            },
        },
{
    if eflags & EXEC_FLAG_EXPLAIN_ONLY > 0 {
        return Ok(BeginAction::ExplainOnly);
    }
    match ScanToken::deserialize_from_list(fdw_private) {
        None => Err(ScanError::StateAbsent),
        Some(token) => {
            match arena.locate(token) {
                Ok(i) => {
                    match &mut arena.slots[i].state {
                        Some(state) => {
                            state.begin();
                        },
                        None => {},
                    }
                    assert(arena@ =~= old(arena)@.insert(token, old(arena)@[token].begun()));
                    Ok(BeginAction::Execute(token))
                },
                Err(e) => Err(e),
            }
        },
    }
}

/// The remote query of a scan has ended: its rows are owed to the host from
/// now on. A query that failed leaves the scan without result, so that the
/// host finds the end of the data at once.
pub fn datafusion_populate_foreign_scan(
    arena: &mut ScanArena,
    token: ScanToken,
    outcome: QueryOutcome,
) -> (done: Result<(), ScanError>)
    requires
        old(arena).wf(),
    ensures
        final(arena).wf(),
        final(arena).keeps_history(*old(arena)),
        final(arena).slot_count() == old(arena).slot_count(),
        done is Ok <==> old(arena).resolves(token),
        done is Ok ==> final(arena)@ == old(arena)@.insert(
            token,
            old(arena)@[token].populated(outcome.rows()),
        ),
        done matches Err(e) ==> {
            &&& e == old(arena).failure(token)
            &&& final(arena)@ == old(arena)@
        },
{
    match arena.locate(token) {
        Ok(i) => {
            match &mut arena.slots[i].state {
                Some(state) => {
                    state.populate(outcome);
                },
                None => {},
            }
            assert(arena@ =~= old(arena)@.insert(
                token,
                old(arena)@[token].populated(outcome.rows()),
            ));
            Ok(())
        },
        Err(e) => Err(e),
    }
}

/// The host fetches a row: the next row that the scan owes, or `None` for the
/// end of the data.
pub fn datafusion_iterate_foreign_scan(arena: &mut ScanArena, token: ScanToken) -> (row: Result<
    Option<Row>,
    ScanError,
>)
    requires
        old(arena).wf(),
    ensures
        final(arena).wf(),
        final(arena).keeps_history(*old(arena)),
        final(arena).slot_count() == old(arena).slot_count(),
        row is Ok <==> old(arena).resolves(token),
        row matches Ok(fetched) ==> {
            &&& fetched.deep_view() == old(arena)@[token].next_row()
            &&& final(arena)@ == old(arena)@.insert(token, old(arena)@[token].iterated())
        },
        row matches Err(e) ==> {
            &&& e == old(arena).failure(token)
            &&& final(arena)@ == old(arena)@
        },
{
    match arena.locate(token) {
        Ok(i) => {
            let fetched = match &mut arena.slots[i].state {
                Some(state) => state.iterate(),
                None => None,
            };
            assert(arena@ =~= old(arena)@.insert(token, old(arena)@[token].iterated()));
            Ok(fetched)
        },
        Err(e) => Err(e),
    }
}

/// The host restarts a scan: nothing counts as handed out any more and the
/// result is dropped. The caller is to run the remote query again and to hand
/// its outcome to [`datafusion_populate_foreign_scan`].
pub fn datafusion_re_scan_foreign_scan(arena: &mut ScanArena, token: ScanToken) -> (done: Result<
    (),
    ScanError,
>)
    requires
        old(arena).wf(),
    ensures
        final(arena).wf(),
        final(arena).keeps_history(*old(arena)),
        final(arena).slot_count() == old(arena).slot_count(),
        done is Ok <==> old(arena).resolves(token),
        done is Ok ==> final(arena)@ == old(arena)@.insert(token, old(arena)@[token].rescanned()),
        done matches Err(e) ==> {
            &&& e == old(arena).failure(token)
            &&& final(arena)@ == old(arena)@
        },
{
    match arena.locate(token) {
        Ok(i) => {
            match &mut arena.slots[i].state {
                Some(state) => {
                    state.rescan();
                },
                None => {},
            }
            assert(arena@ =~= old(arena)@.insert(token, old(arena)@[token].rescanned()));
            Ok(())
        },
        Err(e) => Err(e),
    }
}

/// The host ends a scan: its state is released, and the token names nothing
/// from now on. The answer says whether there was a state to release, so
/// that ending a scan twice, or one that never got under way, does no harm.
pub fn datafusion_end_foreign_scan(arena: &mut ScanArena, token: ScanToken) -> (released: bool)
    requires
        old(arena).wf(),
    ensures
        final(arena).wf(),
        final(arena).keeps_history(*old(arena)),
        final(arena).slot_count() == old(arena).slot_count(),
        released == old(arena).resolves(token),
        final(arena)@ == old(arena)@.remove(token),
        !final(arena).resolves(token),
{
    match arena.locate(token) {
        Ok(i) => {
            arena.slots[i].state = None;
            arena.slots[i].generation = arena.slots[i].generation + 1;
            assert(arena@ =~= old(arena)@.remove(token));
            true
        },
        Err(_) => {
            assert(arena@ =~= old(arena)@.remove(token));
            false
        },
    }
}

} // verus!
