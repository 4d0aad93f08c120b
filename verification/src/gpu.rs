use vstd::prelude::*;
use crate::shell::WindowHandle;

verus! {

/// Mathematical view of the render backend stub: which window it draws to
/// and how many redraw requests it has issued so far.
pub ghost struct BackendModel {
    pub window: nat,
    pub redraw_requests: nat,
}

/// Placeholder render backend. It holds the handle of the window it renders
/// to and counts the redraw requests it has asked for; no device, queue,
/// surface or configuration state exists yet, so nothing else is tracked.
pub struct WGpuState {
    window: WindowHandle,
    redraw_requests: u64,
}

impl View for WGpuState {
    type V = BackendModel;

    closed spec fn view(&self) -> BackendModel {
        BackendModel {
            window: self.window.id as nat,
            redraw_requests: self.redraw_requests as nat,
        }
    }
}

impl WGpuState {
    /// Construction always succeeds: the stub stores the window handle and
    /// performs no device, adapter or surface negotiation.
    pub fn new(window: WindowHandle) -> (s: WGpuState)
        ensures
            s@ == (BackendModel { window: window.id as nat, redraw_requests: 0 }),
    {
        WGpuState { window, redraw_requests: 0 }
    }

    /// Accepts any dimensions, including zero, and changes nothing: no
    /// surface exists that could be reconfigured.
    pub fn resize(&mut self, _width: u32, _height: u32)
        ensures
            *final(self) == *old(self),
    {
    }

    /// Performs no drawing: it records exactly one redraw request, which the
    /// platform layer turns into one redraw of the backend's window.
    pub fn render(&mut self)
        requires
            old(self)@.redraw_requests < u64::MAX,
        ensures
            final(self)@.redraw_requests == old(self)@.redraw_requests + 1,
            final(self)@.window == old(self)@.window,
    {
        self.redraw_requests = self.redraw_requests + 1;
    }

    /// The window this backend renders to.
    pub fn window(&self) -> (w: WindowHandle)
        ensures
            w.id as nat == self@.window,
    {
        self.window
    }

    /// How many redraw requests `render` has issued so far.
    pub fn redraw_requests(&self) -> (n: u64)
        ensures
            n as nat == self@.redraw_requests,
    {
        self.redraw_requests
    }
}

} // verus!
