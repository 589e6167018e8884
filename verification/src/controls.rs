use vstd::prelude::*;

use crate::ml::Handle;

pub mod label;

verus! {

/// What a child control tells its parent about an event: who sent it and
/// which event it was.
#[derive(Clone, Copy, Debug, PartialEq, Eq, Structural)]
pub struct Notification {
    pub hwnd_from: Handle,
    pub id_from: usize,
    pub code: u32,
}

/// Anything that can receive a notification from the window that owns it.
pub trait Control {
    fn handle_notify(&mut self, info: &Notification);
}

} // verus!
