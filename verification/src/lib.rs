//! Devtools for component hooks: a tap that takes hook lifecycle events and a
//! live index of the hooks that are active in each scope, shared between the
//! tap and whoever displays it.

pub mod event;
pub mod external;
pub mod hooks;
pub mod laws;
pub mod layer;
pub mod prelude;
