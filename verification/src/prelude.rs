//! The items that most callers need.

pub use crate::event::{EventField, FieldValue, HookBuilder, Transition};
pub use crate::hooks::use_dioxus;
pub use crate::layer::{CustomLayer, DevtoolsLogger, Hook, HookState, LockPoisoned};
