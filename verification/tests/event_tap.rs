use dioxus_library_template::event::{EventField, FieldValue, HookBuilder, Transition};
use dioxus_library_template::layer::{DevtoolsLogger, Hook, HookState};
use std::collections::HashMap;

fn signed(name: &str, value: i64) -> EventField {
    EventField { name: name.to_string(), value: FieldValue::I64(value) }
}

fn unsigned(name: &str, value: u64) -> EventField {
    EventField { name: name.to_string(), value: FieldValue::U64(value) }
}

fn text(name: &str, value: &str) -> EventField {
    EventField { name: name.to_string(), value: FieldValue::Str(value.to_string()) }
}

fn hook_event(
    scope_id: i64,
    hook_idx: i64,
    name: &str,
    value: &str,
    state: &str,
) -> Vec<EventField> {
    vec![
        signed("scope_id", scope_id),
        signed("hook_idx", hook_idx),
        text("name", name),
        text("value", value),
        text("state", state),
    ]
}

fn use_state(value: &str) -> Hook {
    Hook::UseState { value: value.to_string() }
}

fn one_hook(scope_id: usize, hook_idx: usize, hook: Hook) -> HashMap<usize, HashMap<usize, Hook>> {
    let mut hooks = HashMap::new();
    hooks.insert(hook_idx, hook);
    let mut scopes = HashMap::new();
    scopes.insert(scope_id, hooks);
    scopes
}

#[test]
fn default_builder_has_no_slot_set() {
    let builder = HookBuilder::default();
    assert_eq!(builder.scope_id, None);
    assert_eq!(builder.hook_idx, None);
    assert_eq!(builder.name, None);
    assert_eq!(builder.value, None);
    assert_eq!(builder.state, None);
}

#[test]
fn record_i64_fills_the_ids() {
    let mut builder = HookBuilder::default();
    builder.record_i64("scope_id", 7);
    assert_eq!(builder.scope_id, Some(7));
    assert_eq!(builder.hook_idx, None);
    builder.record_i64("hook_idx", 3);
    assert_eq!(builder.scope_id, Some(7));
    assert_eq!(builder.hook_idx, Some(3));
}

#[test]
fn record_i64_ignores_other_names() {
    let mut builder = HookBuilder::default();
    builder.record_i64("scope", 7);
    builder.record_i64("name", 1);
    builder.record_i64("value", 2);
    builder.record_i64("state", 3);
    assert_eq!(builder.scope_id, None);
    assert_eq!(builder.hook_idx, None);
    assert_eq!(builder.name, None);
    assert_eq!(builder.value, None);
    assert_eq!(builder.state, None);
}

#[test]
fn record_i64_wraps_negative_ids() {
    let mut builder = HookBuilder::default();
    builder.record_i64("scope_id", -1);
    builder.record_i64("hook_idx", -2);
    assert_eq!(builder.scope_id, Some(usize::MAX));
    assert_eq!(builder.hook_idx, Some(usize::MAX - 1));
}

#[test]
fn record_u64_fills_the_ids() {
    let mut builder = HookBuilder::default();
    builder.record_u64("scope_id", 11);
    builder.record_u64("hook_idx", 12);
    builder.record_u64("other", 13);
    assert_eq!(builder.scope_id, Some(11));
    assert_eq!(builder.hook_idx, Some(12));
}

#[test]
fn record_str_fills_name_value_and_state() {
    let mut builder = HookBuilder::default();
    builder.record_str("name", "UseState");
    builder.record_str("value", "123");
    builder.record_str("state", "removed");
    assert_eq!(builder.name, Some("UseState".to_string()));
    assert_eq!(builder.value, Some("123".to_string()));
    assert_eq!(builder.state, Some(HookState::Removed));
    assert_eq!(builder.scope_id, None);
    assert_eq!(builder.hook_idx, None);
}

#[test]
fn record_str_leaves_state_unset_for_other_text() {
    let mut builder = HookBuilder::default();
    builder.record_str("state", "changed");
    assert_eq!(builder.state, None);
    builder.record_str("state", "added");
    assert_eq!(builder.state, Some(HookState::Added));
    builder.record_str("state", "ADDED");
    assert_eq!(builder.state, None);
}

#[test]
fn record_str_ignores_id_names() {
    let mut builder = HookBuilder::default();
    builder.record_str("scope_id", "1");
    builder.record_str("hook_idx", "0");
    builder.record_str("message", "hello");
    assert_eq!(builder.scope_id, None);
    assert_eq!(builder.hook_idx, None);
    assert_eq!(builder.name, None);
    assert_eq!(builder.value, None);
}

#[test]
fn record_drops_fields_of_other_types() {
    let mut builder = HookBuilder::default();
    builder.record(&EventField { name: "scope_id".to_string(), value: FieldValue::Bool(true) });
    builder.record(&EventField { name: "hook_idx".to_string(), value: FieldValue::Other });
    builder.record(&EventField { name: "name".to_string(), value: FieldValue::Other });
    builder.record(&EventField { name: "value".to_string(), value: FieldValue::Bool(false) });
    builder.record(&EventField { name: "state".to_string(), value: FieldValue::I64(1) });
    assert_eq!(builder.scope_id, None);
    assert_eq!(builder.hook_idx, None);
    assert_eq!(builder.name, None);
    assert_eq!(builder.value, None);
    assert_eq!(builder.state, None);
}

#[test]
fn from_event_takes_fields_in_order() {
    let mut event = hook_event(1, 0, "UseState", "123", "added");
    event.push(text("value", "456"));
    event.push(signed("scope_id", 9));
    let builder = HookBuilder::from_event(&event);
    assert_eq!(builder.scope_id, Some(9));
    assert_eq!(builder.hook_idx, Some(0));
    assert_eq!(builder.name, Some("UseState".to_string()));
    assert_eq!(builder.value, Some("456".to_string()));
    assert_eq!(builder.state, Some(HookState::Added));
}

#[test]
fn from_event_of_no_fields_is_the_default() {
    let builder = HookBuilder::from_event(&Vec::new());
    assert_eq!(builder.scope_id, None);
    assert_eq!(builder.hook_idx, None);
    assert_eq!(builder.name, None);
    assert_eq!(builder.value, None);
    assert_eq!(builder.state, None);
}

#[test]
fn try_from_makes_a_use_state() {
    let mut builder = HookBuilder::default();
    builder.record_str("name", "UseState");
    builder.record_str("value", "123");
    assert_eq!(Hook::try_from(builder), Ok(use_state("123")));
}

#[test]
fn try_from_refuses_other_kinds() {
    let mut builder = HookBuilder::default();
    builder.record_str("name", "UseEffect");
    builder.record_str("value", "123");
    assert_eq!(Hook::try_from(builder), Err(()));
    let mut builder = HookBuilder::default();
    builder.record_str("name", "usestate");
    builder.record_str("value", "123");
    assert_eq!(Hook::try_from(builder), Err(()));
}

#[test]
fn try_from_refuses_missing_name() {
    let mut builder = HookBuilder::default();
    builder.record_str("value", "123");
    assert_eq!(Hook::try_from(builder), Err(()));
    assert_eq!(Hook::try_from(HookBuilder::default()), Err(()));
}

#[test]
fn try_from_refuses_missing_value() {
    let mut builder = HookBuilder::default();
    builder.record_str("name", "UseState");
    assert_eq!(Hook::try_from(builder), Err(()));
}

#[test]
fn transition_needs_both_ids_and_a_hook() {
    let full = hook_event(1, 0, "UseState", "123", "added");
    assert_eq!(
        Transition::from_event(&full),
        Some(Transition {
            scope_id: 1,
            hook_idx: 0,
            state: Some(HookState::Added),
            record: use_state("123"),
        })
    );
    for missing in ["scope_id", "hook_idx", "name", "value"] {
        let event: Vec<EventField> =
            full.iter().filter(|field| field.name != missing).cloned().collect();
        assert_eq!(Transition::from_event(&event), None);
    }
}

#[test]
fn transition_without_state_has_none() {
    let event = vec![
        signed("scope_id", 1),
        signed("hook_idx", 0),
        text("name", "UseState"),
        text("value", "v"),
    ];
    assert_eq!(
        Transition::from_event(&event),
        Some(Transition { scope_id: 1, hook_idx: 0, state: None, record: use_state("v") })
    );
    let mut builder = HookBuilder::default();
    builder.record_str("name", "UseState");
    builder.record_str("value", "v");
    builder.record_u64("scope_id", 1);
    assert_eq!(Transition::from_builder(builder), None);
}

#[test]
fn added_event_fills_index() {
    let mut index = DevtoolsLogger::default();
    index.ingest(&hook_event(1, 0, "UseState", "123", "added"));
    assert_eq!(index.scopes, one_hook(1, 0, use_state("123")));
}

#[test]
fn removed_event_empties_index() {
    let mut index = DevtoolsLogger::default();
    index.ingest(&hook_event(1, 0, "UseState", "123", "added"));
    index.ingest(&hook_event(1, 0, "UseState", "123", "removed"));
    assert!(index.scopes.is_empty());
}

#[test]
fn removal_event_without_hook_fields_is_dropped() {
    let mut index = DevtoolsLogger::default();
    index.ingest(&hook_event(1, 0, "UseState", "123", "added"));
    index.ingest(&vec![signed("scope_id", 1), signed("hook_idx", 0), text("state", "removed")]);
    assert_eq!(index.scopes, one_hook(1, 0, use_state("123")));
}

#[test]
fn removed_event_keeps_the_other_hook() {
    let mut index = DevtoolsLogger::default();
    index.ingest(&hook_event(1, 0, "UseState", "first", "added"));
    index.ingest(&hook_event(1, 1, "UseState", "second", "added"));
    index.ingest(&hook_event(1, 0, "UseState", "first", "removed"));
    assert_eq!(index.scopes, one_hook(1, 1, use_state("second")));
}

#[test]
fn unsupported_hook_kind_is_dropped() {
    let mut index = DevtoolsLogger::default();
    index.ingest(&hook_event(1, 0, "UseEffect", "123", "added"));
    assert!(index.scopes.is_empty());
    index.ingest(&hook_event(1, 0, "UseState", "123", "added"));
    let before = index.scopes.clone();
    index.ingest(&hook_event(1, 0, "UseEffect", "456", "added"));
    index.ingest(&hook_event(1, 0, "UseEffect", "456", "removed"));
    index.ingest(&hook_event(2, 0, "UseMemo", "456", "added"));
    assert_eq!(index.scopes, before);
}

#[test]
fn unrelated_fields_change_nothing() {
    let mut index = DevtoolsLogger::default();
    index.ingest(&hook_event(1, 0, "UseState", "123", "added"));
    let before = index.scopes.clone();
    index.ingest(&vec![
        text("message", "rendered"),
        signed("count", 3),
        unsigned("elapsed", 12),
        EventField { name: "ok".to_string(), value: FieldValue::Bool(true) },
        EventField { name: "ratio".to_string(), value: FieldValue::Other },
        text("state", "removed"),
    ]);
    assert_eq!(index.scopes, before);
    index.ingest(&Vec::new());
    assert_eq!(index.scopes, before);
}

#[test]
fn wrongly_typed_ids_drop_the_event() {
    let mut index = DevtoolsLogger::default();
    index.ingest(&vec![
        text("scope_id", "1"),
        signed("hook_idx", 0),
        text("name", "UseState"),
        text("value", "123"),
    ]);
    assert!(index.scopes.is_empty());
    index.ingest(&vec![
        signed("scope_id", 1),
        EventField { name: "hook_idx".to_string(), value: FieldValue::Bool(false) },
        text("name", "UseState"),
        text("value", "123"),
    ]);
    assert!(index.scopes.is_empty());
}

#[test]
fn event_without_state_upserts() {
    let mut index = DevtoolsLogger::default();
    index.ingest(&vec![
        unsigned("scope_id", 5),
        unsigned("hook_idx", 6),
        text("name", "UseState"),
        text("value", "a"),
    ]);
    assert_eq!(index.scopes, one_hook(5, 6, use_state("a")));
    index.ingest(&vec![
        signed("scope_id", 5),
        signed("hook_idx", 6),
        text("name", "UseState"),
        text("value", "b"),
        text("state", "unknown"),
    ]);
    assert_eq!(index.scopes, one_hook(5, 6, use_state("b")));
}
