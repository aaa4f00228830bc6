use crate::external::same_text;
use crate::layer::{Hook, HookState, HookView};
use vstd::prelude::*;

verus! {

/// The value of one field of a structured event, by its primitive type.
#[derive(Debug, Clone, PartialEq, Eq)]
pub enum FieldValue {
    I64(i64),
    U64(u64),
    Bool(bool),
    Str(String),
    /// A float, an error or a debug-formatted value. None of them is ever read.
    Other,
}

/// A field value with its text as a sequence of characters.
pub enum FieldValueView {
    I64(i64),
    U64(u64),
    Bool(bool),
    Str(Seq<char>),
    Other,
}

impl View for FieldValue {
    type V = FieldValueView;

    open spec fn view(&self) -> FieldValueView {
        match *self {
            FieldValue::I64(value) => FieldValueView::I64(value),
            FieldValue::U64(value) => FieldValueView::U64(value),
            FieldValue::Bool(value) => FieldValueView::Bool(value),
            FieldValue::Str(text) => FieldValueView::Str(text@),
            FieldValue::Other => FieldValueView::Other,
        }
    }
}

/// One named field of a structured event.
#[derive(Debug, Clone, PartialEq, Eq)]
pub struct EventField {
    pub name: String,
    pub value: FieldValue,
}

/// A field with its name and its text as sequences of characters.
pub struct EventFieldView {
    pub name: Seq<char>,
    pub value: FieldValueView,
}

impl View for EventField {
    type V = EventFieldView;

    open spec fn view(&self) -> EventFieldView {
        EventFieldView { name: self.name@, value: self.value@ }
    }
}

impl DeepView for EventField {
    type V = EventFieldView;

    open spec fn deep_view(&self) -> EventFieldView {
        self@
    }
}

/// One optional slot per recognized field name.
#[derive(Debug)]
pub struct HookBuilder {
    pub scope_id: Option<usize>,
    pub name: Option<String>,
    pub value: Option<String>,
    pub state: Option<HookState>,
    pub hook_idx: Option<usize>,
}

/// The slots of a builder, each text as a sequence of characters.
pub struct BuilderView {
    pub scope_id: Option<usize>,
    pub name: Option<Seq<char>>,
    pub value: Option<Seq<char>>,
    pub state: Option<HookState>,
    pub hook_idx: Option<usize>,
}

impl View for HookBuilder {
    type V = BuilderView;

    open spec fn view(&self) -> BuilderView {
        BuilderView {
            scope_id: self.scope_id,
            name: self.name.deep_view(),
            value: self.value.deep_view(),
            state: self.state,
            hook_idx: self.hook_idx,
        }
    }
}

impl BuilderView {
    /// The builder with every slot unset.
    pub open spec fn empty() -> BuilderView {
        BuilderView { scope_id: None, name: None, value: None, state: None, hook_idx: None }
    }

    /// The builder after an integer field: `hook_idx` and `scope_id` fill
    /// their slots, any other name changes nothing.
    pub open spec fn with_id(self, name: Seq<char>, id: usize) -> BuilderView {
        if name == "hook_idx"@ {
            BuilderView { hook_idx: Some(id), ..self }
        } else if name == "scope_id"@ {
            BuilderView { scope_id: Some(id), ..self }
        } else {
            self
        }
    }

    /// The builder after a string field: `name` and `value` fill their slots,
    /// `state` sets the transition that its text names (none for any other
    /// text), any other name changes nothing.
    pub open spec fn with_text(self, name: Seq<char>, text: Seq<char>) -> BuilderView {
        if name == "name"@ {
            BuilderView { name: Some(text), ..self }
        } else if name == "value"@ {
            BuilderView { value: Some(text), ..self }
        } else if name == "state"@ {
            BuilderView { state: HookState::parse(text), ..self }
        } else {
            self
        }
    }

    /// The builder after one field. An integer is taken as an id by
    /// truncation to `usize`; a field of any other type than integer and
    /// string changes nothing.
    pub open spec fn record(self, field: EventFieldView) -> BuilderView {
        match field.value {
            FieldValueView::I64(value) => self.with_id(field.name, value as usize),
            FieldValueView::U64(value) => self.with_id(field.name, value as usize),
            FieldValueView::Str(text) => self.with_text(field.name, text),
            _ => self,
        }
    }

    /// The builder after the fields of an event, taken in order from an
    /// empty builder.
    pub open spec fn collect(fields: Seq<EventFieldView>) -> BuilderView
        decreases fields.len(),
    {
        if fields.len() == 0 {
            BuilderView::empty()
        } else {
            BuilderView::collect(fields.drop_last()).record(fields.last())
        }
    }

    /// The hook that the slots describe: a `UseState` with the payload, where
    /// the name is `UseState` and a payload is there.
    pub open spec fn hook(self) -> Option<HookView> {
        if self.name == Some("UseState"@) && self.value is Some {
            Some(HookView::UseState { value: self.value->0 })
        } else {
            None
        }
    }
}

impl Default for HookBuilder {
    /// A builder with every slot unset.
    fn default() -> (builder: Self)
        ensures
            builder@ == BuilderView::empty(),
    {
        HookBuilder { scope_id: None, name: None, value: None, state: None, hook_idx: None }
    }
}

impl HookBuilder {
    /// Takes an id under the name of its field.
    fn record_id(&mut self, name: &str, id: usize)
        ensures
            final(self)@ == old(self)@.with_id(name@, id),
    {
        if same_text(name, "hook_idx") {
            self.hook_idx = Some(id);
        } else if same_text(name, "scope_id") {
            self.scope_id = Some(id);
        }
    }

    /// Takes a signed integer field. Its value is truncated to `usize`, so a
    /// negative one wraps around.
    pub fn record_i64(&mut self, name: &str, value: i64)
        ensures
            final(self)@ == old(self)@.with_id(name@, value as usize),
    {
        self.record_id(name, #[verifier::truncate] (value as usize));
    }

    /// Takes an unsigned integer field. Its value is truncated to `usize`.
    pub fn record_u64(&mut self, name: &str, value: u64)
        ensures
            final(self)@ == old(self)@.with_id(name@, value as usize),
    {
        self.record_id(name, #[verifier::truncate] (value as usize));
    }

    /// Takes a string field.
    pub fn record_str(&mut self, name: &str, value: &str)
        ensures
            final(self)@ == old(self)@.with_text(name@, value@),
    {
        if same_text(name, "name") {
            self.name = Some(value.to_owned());
        } else if same_text(name, "value") {
            self.value = Some(value.to_owned());
        } else if same_text(name, "state") {
            self.state = HookState::from_str(value);
        }
    }

    /// Takes one field of whatever type.
    pub fn record(&mut self, field: &EventField)
        ensures
            final(self)@ == old(self)@.record(field@),
    {
        match &field.value {
            FieldValue::I64(value) => self.record_i64(field.name.as_str(), *value),
            FieldValue::U64(value) => self.record_u64(field.name.as_str(), *value),
            FieldValue::Str(text) => self.record_str(field.name.as_str(), text.as_str()),
            _ => {},
        }
    }

    /// Takes the fields of an event in order, from an empty builder.
    pub fn from_event(event: &Vec<EventField>) -> (builder: Self)
        ensures
            builder@ == BuilderView::collect(event.deep_view()),
    {
        let mut builder = HookBuilder::default();
        let ghost fields = event.deep_view();
        let mut i: usize = 0;
        while i < event.len()
            invariant
                i <= event.len(),
                fields == event.deep_view(),
                builder@ == BuilderView::collect(fields.take(i as int)),
            decreases event.len() - i,
        {
            builder.record(&event[i]);
            proof {
                assert(fields.take(i + 1).drop_last() =~= fields.take(i as int));
            }
            i += 1;
        }
        proof {
            assert(fields.take(i as int) =~= fields);
        }
        builder
    }
}

impl Hook {
    /// The hook that a builder describes, if it describes one.
    pub fn try_from(value: HookBuilder) -> (hook: Result<Self, ()>)
        ensures
            match hook {
                Ok(hook) => value@.hook() == Some(hook@),
                Err(_) => value@.hook() is None,
            },
    {
        match (value.name, value.value) {
            (Some(name), Some(payload)) => {
                if same_text(name.as_str(), "UseState") {
                    Ok(Hook::UseState { value: payload })
                } else {
                    Err(())
                }
            },
            _ => Err(()),
        }
    }
}

/// A hook lifecycle event reduced to what the index takes.
#[derive(Debug, Clone, PartialEq, Eq)]
pub struct Transition {
    pub scope_id: usize,
    pub hook_idx: usize,
    pub state: Option<HookState>,
    pub record: Hook,
}

/// A transition with its record as a `HookView`.
pub struct TransitionView {
    pub scope_id: usize,
    pub hook_idx: usize,
    pub state: Option<HookState>,
    pub record: HookView,
}

impl View for Transition {
    type V = TransitionView;

    open spec fn view(&self) -> TransitionView {
        TransitionView {
            scope_id: self.scope_id,
            hook_idx: self.hook_idx,
            state: self.state,
            record: self.record@,
        }
    }
}

impl DeepView for Transition {
    type V = TransitionView;

    open spec fn deep_view(&self) -> TransitionView {
        self@
    }
}

impl TransitionView {
    /// The transition that filled slots yield: there is one where the slots
    /// describe a hook and both ids are set.
    pub open spec fn of_builder(builder: BuilderView) -> Option<TransitionView> {
        if builder.hook() is Some && builder.scope_id is Some && builder.hook_idx is Some {
            Some(
                TransitionView {
                    scope_id: builder.scope_id->0,
                    hook_idx: builder.hook_idx->0,
                    state: builder.state,
                    record: builder.hook()->0,
                },
            )
        } else {
            None
        }
    }

    /// The transition that an event yields.
    pub open spec fn of_event(fields: Seq<EventFieldView>) -> Option<TransitionView> {
        TransitionView::of_builder(BuilderView::collect(fields))
    }
}

impl Transition {
    /// The transition that filled slots yield, if any.
    pub fn from_builder(builder: HookBuilder) -> (transition: Option<Self>)
        ensures
            transition.deep_view() == TransitionView::of_builder(builder@),
    {
        let scope_id = builder.scope_id;
        let hook_idx = builder.hook_idx;
        let state = builder.state;
        match Hook::try_from(builder) {
            Ok(record) => match (scope_id, hook_idx) {
                (Some(scope_id), Some(hook_idx)) => Some(
                    Transition { scope_id, hook_idx, state, record },
                ),
                _ => None,
            },
            Err(_) => None,
        }
    }

    /// The transition that an event yields, if any.
    pub fn from_event(event: &Vec<EventField>) -> (transition: Option<Self>)
        ensures
            transition.deep_view() == TransitionView::of_event(event.deep_view()),
    {
        Transition::from_builder(HookBuilder::from_event(event))
    }
}

} // verus!
