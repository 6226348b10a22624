use vstd::prelude::*;

verus! {

/// The OS token of one hook registration. Zero stands for "not registered": the token is only
/// known once the registering thread has run, so a handle starts out unset.
pub struct RawHook {
    handle: usize,
}

impl View for RawHook {
    type V = usize;

    closed spec fn view(&self) -> usize {
        self.handle
    }
}

impl RawHook {
    /// An unset handle.
    pub fn new() -> (r: RawHook)
        ensures
            r@ == 0,
    {
        RawHook { handle: 0 }
    }

    /// Stores the token that registration returned.
    pub fn set(&mut self, handle: usize)
        ensures
            final(self)@ == handle,
    {
        self.handle = handle;
    }

    /// The stored token, zero when unset.
    pub fn get(&self) -> (r: usize)
        ensures
            r == self@,
    {
        self.handle
    }

    /// Whether a registration token is held.
    pub fn is_set(&self) -> (r: bool)
        ensures
            r == (self@ != 0),
    {
        self.handle != 0
    }

    /// Reads and clears the token: gives the token to unregister when one was set, and nothing
    /// on every later call.
    pub fn teardown(&mut self) -> (r: Option<usize>)
        ensures
            final(self)@ == 0,
            old(self)@ == 0 ==> r.is_none(),
            old(self)@ != 0 ==> r == Some(old(self)@),
    {
        if self.handle == 0 {
            None
        } else {
            let h = self.handle;
            self.handle = 0;
            Some(h)
        }
    }
}

} // verus!
