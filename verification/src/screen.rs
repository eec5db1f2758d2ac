//! The screens of the TUI.
use vstd::prelude::*;

verus! {

/// The views of the TUI.
#[derive(Debug, Clone, Copy, PartialEq, Eq, Structural)]
pub enum View {
    FeatureSelector,
    TaskSelector,
    TaskDetail,
    Dashboard,
}

} // verus!
