use crate::event::{BuilderView, EventFieldView, FieldValueView, TransitionView};
use crate::layer::{
    apply_transition, ingest_event, no_empty_scope, table_of, DevtoolsIndex, HookState, HookView,
};
use vstd::prelude::*;

verus! {

/// The hook `hook_idx` of scope `scope_id`, if the index holds it.
pub open spec fn hook_at(
    index: DevtoolsIndex,
    scope_id: usize,
    hook_idx: usize,
) -> Option<HookView> {
    if table_of(index, scope_id).contains_key(hook_idx) {
        Some(table_of(index, scope_id)[hook_idx])
    } else {
        None
    }
}

/// A transition decides the hook it names and touches no other: after
/// `Removed` the hook is absent, after anything else it is present with the
/// new record, whatever was there before; every other hook of every scope is
/// as it was.
pub proof fn lemma_transition_touches_one_hook(
    index: DevtoolsIndex,
    scope_id: usize,
    hook_idx: usize,
    state: Option<HookState>,
    record: HookView,
    other_scope: usize,
    other_hook: usize,
)
    ensures
        hook_at(
            apply_transition(index, scope_id, hook_idx, state, record),
            other_scope,
            other_hook,
        ) == if other_scope == scope_id && other_hook == hook_idx {
            if state == Some(HookState::Removed) {
                None
            } else {
                Some(record)
            }
        } else {
            hook_at(index, other_scope, other_hook)
        },
{
}

/// A transition leaves no scope with an empty table, in an index that had
/// none.
pub proof fn lemma_transition_keeps_scopes_inhabited(
    index: DevtoolsIndex,
    scope_id: usize,
    hook_idx: usize,
    state: Option<HookState>,
    record: HookView,
)
    requires
        no_empty_scope(index),
    ensures
        no_empty_scope(apply_transition(index, scope_id, hook_idx, state, record)),
{
}

/// Applying a transition twice gives the index that applying it once gives.
pub proof fn lemma_transition_idempotent(
    index: DevtoolsIndex,
    scope_id: usize,
    hook_idx: usize,
    state: Option<HookState>,
    record: HookView,
)
    ensures
        apply_transition(
            apply_transition(index, scope_id, hook_idx, state, record),
            scope_id,
            hook_idx,
            state,
            record,
        ) == apply_transition(index, scope_id, hook_idx, state, record),
{
    if state == Some(HookState::Removed) {
        let rest = table_of(index, scope_id).remove(hook_idx);
        assert(rest.remove(hook_idx) =~= rest);
    } else {
        let more = table_of(index, scope_id).insert(hook_idx, record);
        assert(more.insert(hook_idx, record) =~= more);
    }
}

/// Removing the only hook that a scope has left takes the scope out of the
/// index.
pub proof fn lemma_last_removal_drops_scope(
    index: DevtoolsIndex,
    scope_id: usize,
    hook_idx: usize,
    record: HookView,
)
    requires
        forall|other: usize| #[trigger]
            table_of(index, scope_id).contains_key(other) ==> other == hook_idx,
    ensures
        !apply_transition(
            index,
            scope_id,
            hook_idx,
            Some(HookState::Removed),
            record,
        ).contains_key(scope_id),
{
}

/// Removing a hook that the index does not hold leaves the index as it was.
pub proof fn lemma_absent_removal_changes_nothing(
    index: DevtoolsIndex,
    scope_id: usize,
    hook_idx: usize,
    record: HookView,
)
    requires
        no_empty_scope(index),
        hook_at(index, scope_id, hook_idx) is None,
    ensures
        apply_transition(index, scope_id, hook_idx, Some(HookState::Removed), record) == index,
{
    let table = table_of(index, scope_id);
    assert(table.remove(hook_idx) =~= table);
}

/// Transitions of two different scopes give the same index in either order.
pub proof fn lemma_disjoint_scopes_commute(
    index: DevtoolsIndex,
    a: TransitionView,
    b: TransitionView,
)
    requires
        a.scope_id != b.scope_id,
    ensures
        apply_transition(
            apply_transition(index, a.scope_id, a.hook_idx, a.state, a.record),
            b.scope_id,
            b.hook_idx,
            b.state,
            b.record,
        ) == apply_transition(
            apply_transition(index, b.scope_id, b.hook_idx, b.state, b.record),
            a.scope_id,
            a.hook_idx,
            a.state,
            a.record,
        ),
{
}

/// The index after a sequence of transitions, applied in order.
pub open spec fn apply_all(
    index: DevtoolsIndex,
    transitions: Seq<TransitionView>,
) -> DevtoolsIndex
    decreases transitions.len(),
{
    if transitions.len() == 0 {
        index
    } else {
        let last = transitions.last();
        apply_transition(
            apply_all(index, transitions.drop_last()),
            last.scope_id,
            last.hook_idx,
            last.state,
            last.record,
        )
    }
}

/// No transition of the sequence is on the scope `scope_id`.
pub open spec fn avoids(transitions: Seq<TransitionView>, scope_id: usize) -> bool {
    forall|i: int|
        0 <= i < transitions.len() ==> (#[trigger] transitions[i]).scope_id != scope_id
}

/// No scope has a transition in both sequences.
pub open spec fn on_disjoint_scopes(a: Seq<TransitionView>, b: Seq<TransitionView>) -> bool {
    forall|i: int, j: int|
        0 <= i < a.len() && 0 <= j < b.len() ==> (#[trigger] a[i]).scope_id != (
        #[trigger] b[j]).scope_id
}

/// `schedule` is an interleaving of `a` and `b`: it holds the transitions of
/// both, those of each sequence in that sequence's order.
pub open spec fn interleaves(
    schedule: Seq<TransitionView>,
    a: Seq<TransitionView>,
    b: Seq<TransitionView>,
) -> bool
    decreases schedule.len(),
{
    if schedule.len() == 0 {
        a.len() == 0 && b.len() == 0
    } else {
        ||| a.len() > 0 && schedule.last() == a.last() && interleaves(
            schedule.drop_last(),
            a.drop_last(),
            b,
        )
        ||| b.len() > 0 && schedule.last() == b.last() && interleaves(
            schedule.drop_last(),
            a,
            b.drop_last(),
        )
    }
}

/// A sequence of transitions leaves every scope that it does not name as it
/// was: absent, or present with the same table.
pub proof fn lemma_untouched_scope_is_kept(
    index: DevtoolsIndex,
    transitions: Seq<TransitionView>,
    scope_id: usize,
)
    requires
        avoids(transitions, scope_id),
    ensures
        apply_all(index, transitions).get(scope_id) == index.get(scope_id),
    decreases transitions.len(),
{
    if transitions.len() > 0 {
        lemma_untouched_scope_is_kept(index, transitions.drop_last(), scope_id);
    }
}

/// After an interleaving of two sequences, a scope that one of them does not
/// name holds what the other sequence alone gives it.
pub proof fn lemma_schedule_keeps_each_scope(
    index: DevtoolsIndex,
    a: Seq<TransitionView>,
    b: Seq<TransitionView>,
    schedule: Seq<TransitionView>,
    scope_id: usize,
)
    requires
        interleaves(schedule, a, b),
    ensures
        avoids(b, scope_id) ==> apply_all(index, schedule).get(scope_id) == apply_all(
            index,
            a,
        ).get(scope_id),
        avoids(a, scope_id) ==> apply_all(index, schedule).get(scope_id) == apply_all(
            index,
            b,
        ).get(scope_id),
    decreases schedule.len(),
{
    if schedule.len() > 0 {
        if a.len() > 0 && schedule.last() == a.last() && interleaves(
            schedule.drop_last(),
            a.drop_last(),
            b,
        ) {
            lemma_schedule_keeps_each_scope(
                index,
                a.drop_last(),
                b,
                schedule.drop_last(),
                scope_id,
            );
        } else {
            lemma_schedule_keeps_each_scope(
                index,
                a,
                b.drop_last(),
                schedule.drop_last(),
                scope_id,
            );
        }
    }
}

/// Two sequences of transitions on disjoint scopes, interleaved in any way:
/// each scope holds what the one sequence that names it gives, and a scope
/// that neither names is as it was. Nothing of either sequence is lost.
pub proof fn lemma_interleaving_on_disjoint_scopes(
    index: DevtoolsIndex,
    a: Seq<TransitionView>,
    b: Seq<TransitionView>,
    schedule: Seq<TransitionView>,
)
    requires
        interleaves(schedule, a, b),
        on_disjoint_scopes(a, b),
    ensures
        forall|scope_id: usize|
            #![trigger apply_all(index, schedule).get(scope_id)]
            apply_all(index, schedule).get(scope_id) == if !avoids(a, scope_id) {
                apply_all(index, a).get(scope_id)
            } else if !avoids(b, scope_id) {
                apply_all(index, b).get(scope_id)
            } else {
                index.get(scope_id)
            },
{
    assert forall|scope_id: usize|
        #![trigger apply_all(index, schedule).get(scope_id)]
        apply_all(index, schedule).get(scope_id) == if !avoids(a, scope_id) {
            apply_all(index, a).get(scope_id)
        } else if !avoids(b, scope_id) {
            apply_all(index, b).get(scope_id)
        } else {
            index.get(scope_id)
        } by {
        lemma_schedule_keeps_each_scope(index, a, b, schedule, scope_id);
        if avoids(a, scope_id) && avoids(b, scope_id) {
            lemma_untouched_scope_is_kept(index, a, scope_id);
        }
    }
}

/// Two interleavings of the same two sequences on disjoint scopes give the
/// same index.
pub proof fn lemma_interleavings_agree(
    index: DevtoolsIndex,
    a: Seq<TransitionView>,
    b: Seq<TransitionView>,
    one: Seq<TransitionView>,
    other: Seq<TransitionView>,
)
    requires
        interleaves(one, a, b),
        interleaves(other, a, b),
        on_disjoint_scopes(a, b),
    ensures
        apply_all(index, one) == apply_all(index, other),
{
    lemma_interleaving_on_disjoint_scopes(index, a, b, one);
    lemma_interleaving_on_disjoint_scopes(index, a, b, other);
    let first = apply_all(index, one);
    let second = apply_all(index, other);
    assert forall|scope_id: usize| #[trigger]
        first.dom().contains(scope_id) == second.dom().contains(scope_id) by {
        assert(first.get(scope_id) == second.get(scope_id));
    }
    assert forall|scope_id: usize| #[trigger]
        first.dom().contains(scope_id) implies first[scope_id] == second[scope_id] by {
        assert(first.get(scope_id) == second.get(scope_id));
    }
    assert(first =~= second);
}

/// The four field names from which a transition is made.
pub open spec fn names_a_slot(name: Seq<char>) -> bool {
    name == "scope_id"@ || name == "hook_idx"@ || name == "name"@ || name == "value"@
}

/// Fields of other names than `name` leave the name slot unset.
proof fn lemma_name_slot_needs_name_field(event: Seq<EventFieldView>)
    requires
        forall|i: int| 0 <= i < event.len() ==> (#[trigger] event[i]).name != "name"@,
    ensures
        BuilderView::collect(event).name is None,
    decreases event.len(),
{
    if event.len() > 0 {
        lemma_name_slot_needs_name_field(event.drop_last());
    }
}

/// An event that carries none of the fields `scope_id`, `hook_idx`, `name`
/// and `value` leaves the index as it was.
pub proof fn lemma_unrelated_fields_change_nothing(
    index: DevtoolsIndex,
    event: Seq<EventFieldView>,
)
    requires
        forall|i: int| 0 <= i < event.len() ==> !names_a_slot((#[trigger] event[i]).name),
    ensures
        ingest_event(index, event) == index,
{
    lemma_name_slot_needs_name_field(event);
}

/// The field is a string field called `name`.
pub open spec fn names_hook_kind(field: EventFieldView) -> bool {
    field.name == "name"@ && field.value is Str
}

/// Where no `name` field says `UseState`, the name slot does not say it.
proof fn lemma_kind_comes_from_name_field(event: Seq<EventFieldView>)
    requires
        forall|i: int|
            0 <= i < event.len() && names_hook_kind(#[trigger] event[i]) ==> event[i].value
                != FieldValueView::Str("UseState"@),
    ensures
        BuilderView::collect(event).name != Some("UseState"@),
    decreases event.len(),
{
    if event.len() > 0 {
        lemma_kind_comes_from_name_field(event.drop_last());
    }
}

/// An event whose `name` is anything but `UseState`, or that has no `name`,
/// leaves the index as it was, whatever its other fields are.
pub proof fn lemma_unknown_kind_changes_nothing(
    index: DevtoolsIndex,
    event: Seq<EventFieldView>,
)
    requires
        forall|i: int|
            0 <= i < event.len() && names_hook_kind(#[trigger] event[i]) ==> event[i].value
                != FieldValueView::Str("UseState"@),
    ensures
        ingest_event(index, event) == index,
{
    lemma_kind_comes_from_name_field(event);
}

} // verus!
