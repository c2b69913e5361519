//! The lazily created, exclusively accessed cell holding SDK-wide state.
//!
//! The cell starts absent, is set once at the end of the one successful
//! startup sequence, and is replaced wholesale (never merged) when a
//! test-reset initializes again. Reading it before it was set is a
//! programming error, not a recoverable condition: no caller-facing
//! operation reaches that point before initialization has begun.

use vstd::prelude::*;

use crate::ClientInfoMetrics;

verus! {

/// SDK-wide state owned by these bindings: the distribution channel and the
/// client info the application supplied at initialization.
pub struct RustBindingsState {
    /// The channel the application is distributed on.
    pub channel: Option<String>,
    /// Client info metrics set by the application.
    pub client_info: ClientInfoMetrics,
}

/// The cell holding the one `RustBindingsState` of the process: absent
/// until the first successful initialization, then replaced wholesale on
/// each re-initialization.
pub struct GlobalStateCell {
    inner: Option<RustBindingsState>,
}

impl GlobalStateCell {
    /// The cell's contents.
    pub closed spec fn spec_state(&self) -> Option<RustBindingsState> {
        self.inner
    }

    /// Whether the cell was set.
    pub open spec fn spec_is_set(&self) -> bool {
        self.spec_state() is Some
    }

    /// An absent cell: no initialization has published state yet.
    pub fn new() -> (cell: GlobalStateCell)
        ensures
            !cell.spec_is_set(),
    {
        GlobalStateCell { inner: None }
    }

    /// Whether the cell was set.
    pub fn is_set(&self) -> (r: bool)
        ensures
            r == self.spec_is_set(),
    {
        self.inner.is_some()
    }

    /// Sets or replaces the cell's contents wholesale.
    pub fn replace(&mut self, state: RustBindingsState)
        ensures
            final(self).spec_state() == Some(state),
    {
        self.inner = Some(state);
    }

    /// Empties the cell. Part of the bundled test teardown only: on its own
    /// this would leave a begun gate with no state behind it.
    pub fn clear(&mut self)
        ensures
            !final(self).spec_is_set(),
    {
        self.inner = None;
    }

    /// The cell's contents. Calling before the first initialization
    /// published state is a programming error, which this contract rules
    /// out.
    pub fn get(&self) -> (r: &RustBindingsState)
        requires
            self.spec_is_set(),
        ensures
            self.spec_state() == Some(*r),
    {
        match &self.inner {
            Some(state) => state,
            None => unreached(),
        }
    }
}

} // verus!
