use dioxus::prelude::ScopeState;
use vstd::prelude::*;

verus! {

/// The text that `use_dioxus` hands out.
pub open spec fn description() -> Seq<char> {
    "Dioxus is a Rust library for building apps that run on desktop, web, mobile, and more."@
}

/// Get the Dioxus description.
pub fn use_dioxus(_cx: &ScopeState) -> (text: &'static str)
    ensures
        text@ == description(),
{
    "Dioxus is a Rust library for building apps that run on desktop, web, mobile, and more."
}

} // verus!
