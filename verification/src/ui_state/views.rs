//! The views of the application.
use vstd::prelude::verus;

verus! {

/// The views of the application.
#[derive(Debug, Clone, Copy, PartialEq, Eq)]
pub enum View {
    Calendar,
    Settings,
    Alerts,
}

} // verus!
