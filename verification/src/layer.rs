use crate::event::{EventField, EventFieldView, Transition, TransitionView};
use crate::external::{guard_index, guarded, guarded_index, made_with, same_text, share};
use std::collections::HashMap;
use std::sync::{Arc, Mutex, MutexGuard, PoisonError};
use vstd::prelude::*;

verus! {

broadcast use vstd::std_specs::hash::group_hash_axioms;

/// Lifecycle transition carried by an event.
#[derive(Debug, Clone, Copy, PartialEq, Eq, Structural)]
pub enum HookState {
    Added,
    Removed,
}

impl HookState {
    /// The transition that the text of a `state` field names: `added` and
    /// `removed` name one, no other text does.
    pub open spec fn parse(txt: Seq<char>) -> Option<HookState> {
        if txt == "added"@ {
            Some(HookState::Added)
        } else if txt == "removed"@ {
            Some(HookState::Removed)
        } else {
            None
        }
    }

    /// Reads the text of a `state` field.
    pub fn from_str(txt: &str) -> (state: Option<Self>)
        ensures
            state == Self::parse(txt@),
    {
        if same_text(txt, "added") {
            Some(HookState::Added)
        } else if same_text(txt, "removed") {
            Some(HookState::Removed)
        } else {
            None
        }
    }
}

/// What is known of one active hook.
#[derive(Debug, Clone, PartialEq, Eq)]
pub enum Hook {
    UseState { value: String },
}

/// A hook with its payload as a sequence of characters.
pub enum HookView {
    UseState { value: Seq<char> },
}

impl View for Hook {
    type V = HookView;

    open spec fn view(&self) -> HookView {
        match *self {
            Hook::UseState { value } => HookView::UseState { value: value@ },
        }
    }
}

/// The hooks of one scope, by hook index.
pub type ScopeTable = Map<usize, HookView>;

/// The hooks of every scope that has any, by scope id.
pub type DevtoolsIndex = Map<usize, ScopeTable>;

/// The table of `scope_id` in `index`, empty where the index has no such
/// scope.
pub open spec fn table_of(index: DevtoolsIndex, scope_id: usize) -> ScopeTable {
    if index.contains_key(scope_id) {
        index[scope_id]
    } else {
        Map::empty()
    }
}

/// `index` with `table` as the table of `scope_id`; with an empty table the
/// scope is left out.
pub open spec fn with_table(
    index: DevtoolsIndex,
    scope_id: usize,
    table: ScopeTable,
) -> DevtoolsIndex {
    if table.is_empty() {
        index.remove(scope_id)
    } else {
        index.insert(scope_id, table)
    }
}

/// The index after one transition of the hook `hook_idx` of scope `scope_id`:
/// `Removed` takes the hook out, and the scope with its last hook; anything
/// else puts `record` in the hook's place, whether or not one was there.
pub open spec fn apply_transition(
    index: DevtoolsIndex,
    scope_id: usize,
    hook_idx: usize,
    state: Option<HookState>,
    record: HookView,
) -> DevtoolsIndex {
    let table = table_of(index, scope_id);
    if state == Some(HookState::Removed) {
        with_table(index, scope_id, table.remove(hook_idx))
    } else {
        index.insert(scope_id, table.insert(hook_idx, record))
    }
}

/// The index after an event: the event's transition applied, or the index as
/// it was where the event yields none.
pub open spec fn ingest_event(index: DevtoolsIndex, event: Seq<EventFieldView>) -> DevtoolsIndex {
    match TransitionView::of_event(event) {
        Some(t) => apply_transition(index, t.scope_id, t.hook_idx, t.state, t.record),
        None => index,
    }
}

/// No scope of `index` has an empty table.
pub open spec fn no_empty_scope(index: DevtoolsIndex) -> bool {
    forall|scope_id: usize| #[trigger]
        index.contains_key(scope_id) ==> !index[scope_id].is_empty()
}

/// One scope's table, as it is stored, by the views of its hooks.
pub open spec fn table_view(table: HashMap<usize, Hook>) -> ScopeTable {
    Map::new(|hook_idx: usize| table@.contains_key(hook_idx), |hook_idx: usize| table@[hook_idx]@)
}

/// The live index of active hooks per scope.
#[derive(Debug)]
pub struct DevtoolsLogger {
    pub scopes: HashMap<usize, HashMap<usize, Hook>>,
}

impl View for DevtoolsLogger {
    type V = DevtoolsIndex;

    open spec fn view(&self) -> DevtoolsIndex {
        Map::new(
            |scope_id: usize| self.scopes@.contains_key(scope_id),
            |scope_id: usize| table_view(self.scopes@[scope_id]),
        )
    }
}

impl Default for DevtoolsLogger {
    /// The empty index.
    fn default() -> (index: Self)
        ensures
            index@ == Map::<usize, ScopeTable>::empty(),
            index.wf(),
    {
        let index = DevtoolsLogger { scopes: HashMap::new() };
        index
    }
}

impl DevtoolsLogger {
    /// Every scope that the index holds has at least one hook.
    pub open spec fn wf(&self) -> bool {
        no_empty_scope(self@)
    }

    /// A shared handle to an index that starts empty, and a tap that holds
    /// that same handle.
    pub fn new() -> (pair: (Arc<Mutex<Self>>, CustomLayer))
        ensures
            pair.1.0 == pair.0,
            made_with(*pair.0) == Map::<usize, ScopeTable>::empty(),
    {
        let devtools = Arc::new(guard_index(DevtoolsLogger::default()));
        (share(&devtools), CustomLayer(devtools))
    }

    /// Applies one transition to the hook `hook_idx` of scope `scope_id`.
    pub fn apply(
        &mut self,
        scope_id: usize,
        hook_idx: usize,
        state: Option<HookState>,
        record: Hook,
    )
        ensures
            final(self)@ == apply_transition(old(self)@, scope_id, hook_idx, state, record@),
            old(self).wf() ==> final(self).wf(),
    {
        let removed = match state {
            Some(HookState::Removed) => true,
            _ => false,
        };
        let table = self.scopes.entry(scope_id).or_insert(HashMap::new());
        if removed {
            table.remove(&hook_idx);
            assert(table_view(*table) =~= table_of(old(self)@, scope_id).remove(hook_idx));
        } else {
            table.insert(hook_idx, record);
            assert(table_view(*table) =~= table_of(old(self)@, scope_id).insert(
                hook_idx,
                record@,
            ));
        }
        if table.is_empty() {
            self.scopes.remove(&scope_id);
        }
        assert(self@ =~= apply_transition(old(self)@, scope_id, hook_idx, state, record@));
    }

    /// Takes one event into the index: applies the transition that the event
    /// yields, and does nothing where it yields none.
    pub fn ingest(&mut self, event: &Vec<EventField>)
        ensures
            final(self)@ == ingest_event(old(self)@, event.deep_view()),
            old(self).wf() ==> final(self).wf(),
    {
        match Transition::from_event(event) {
            Some(t) => self.apply(t.scope_id, t.hook_idx, t.state, t.record),
            None => {},
        }
    }
}

/// The lock on the index is poisoned: a thread panicked while it held it.
#[derive(Debug, Clone, Copy, PartialEq, Eq)]
pub struct LockPoisoned;

/// The tap: the handle through which events reach the index that the tap
/// shares with the consumer. Whoever feeds it takes the lock and hands the
/// result to `DevtoolsLogger::apply_locked`.
pub struct CustomLayer(pub Arc<Mutex<DevtoolsLogger>>);

/// The index behind the result of taking the lock: the one that the guard
/// guards, or none where the lock is poisoned.
pub open spec fn locked_index(
    locked: Result<MutexGuard<'_, DevtoolsLogger>, PoisonError<MutexGuard<'_, DevtoolsLogger>>>,
) -> Option<DevtoolsIndex> {
    match locked {
        Ok(guard) => Some(guarded_index(guard)),
        Err(_) => None,
    }
}

impl DevtoolsLogger {
    /// Applies a transition to the index behind the result of taking the
    /// lock. With a guard the guarded index takes the transition; with a
    /// poisoned lock nothing is touched and the poison is reported.
    pub fn apply_locked(
        locked: &mut Result<
            MutexGuard<'_, DevtoolsLogger>,
            PoisonError<MutexGuard<'_, DevtoolsLogger>>,
        >,
        transition: Transition,
    ) -> (outcome: Result<(), LockPoisoned>)
        ensures
            outcome is Ok <==> *old(locked) is Ok,
            match locked_index(*old(locked)) {
                Some(index) => locked_index(*final(locked)) == Some(
                    apply_transition(
                        index,
                        transition.scope_id,
                        transition.hook_idx,
                        transition.state,
                        transition.record@,
                    ),
                ),
                None => *final(locked) == *old(locked),
            },
    {
        match locked {
            Ok(guard) => {
                let devtools = guarded(guard);
                devtools.apply(
                    transition.scope_id,
                    transition.hook_idx,
                    transition.state,
                    transition.record,
                );
                Ok(())
            },
            Err(_) => Err(LockPoisoned),
        }
    }
}

} // verus!
