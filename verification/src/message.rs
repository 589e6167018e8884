use vstd::prelude::*;

use std::collections::HashMap;

verus! {

broadcast use vstd::std_specs::hash::group_hash_axioms;

/// The window has been made.
pub const WM_CREATE: u32 = 0x0001;

/// The window is being destroyed.
pub const WM_DESTROY: u32 = 0x0002;

/// A part of the window has to be drawn again.
pub const WM_PAINT: u32 = 0x000f;

/// The user asks to close the window.
pub const WM_CLOSE: u32 = 0x0010;

/// The first message number that belongs to the program.
pub const WM_APP: u32 = 0x8000;

/// The last message number that belongs to the program.
pub const WM_APP_LAST: u32 = 0xbfff;

/// The kinds of message that a window is sent.
#[derive(Clone, Copy, Debug, PartialEq, Eq, Structural)]
pub enum MessageKind {
    Create,
    Destroy,
    Paint,
    Close,
    /// A message of the program's own, counted from the first of them.
    App(u32),
    /// Any other message, by its number: the system knows what to do with it.
    Other(u32),
}

impl MessageKind {
    pub open spec fn spec_from_code(code: u32) -> MessageKind {
        if code == WM_CREATE {
            MessageKind::Create
        } else if code == WM_DESTROY {
            MessageKind::Destroy
        } else if code == WM_PAINT {
            MessageKind::Paint
        } else if code == WM_CLOSE {
            MessageKind::Close
        } else if WM_APP <= code <= WM_APP_LAST {
            MessageKind::App((code - WM_APP) as u32)
        } else {
            MessageKind::Other(code)
        }
    }

    pub open spec fn spec_code(self) -> u32 {
        match self {
            MessageKind::Create => WM_CREATE,
            MessageKind::Destroy => WM_DESTROY,
            MessageKind::Paint => WM_PAINT,
            MessageKind::Close => WM_CLOSE,
            MessageKind::App(n) => (WM_APP + n) as u32,
            MessageKind::Other(code) => code,
        }
    }

    /// The kind of the message with the number `code`.
    pub fn from_code(code: u32) -> (kind: MessageKind)
        ensures
            kind == MessageKind::spec_from_code(code),
            kind.spec_code() == code,
    {
        if code == WM_CREATE {
            MessageKind::Create
        } else if code == WM_DESTROY {
            MessageKind::Destroy
        } else if code == WM_PAINT {
            MessageKind::Paint
        } else if code == WM_CLOSE {
            MessageKind::Close
        } else if WM_APP <= code && code <= WM_APP_LAST {
            MessageKind::App(code - WM_APP)
        } else {
            MessageKind::Other(code)
        }
    }
}

/// Handles the messages of the type `T` that the program sends to itself.
pub trait MessageHandler<T> {
    fn handle_message(&mut self, msg: &T);
}

/// The handlers of the messages of the program's own, each under the number
/// of its message.
pub struct MessageHandlers<H> {
    table: HashMap<u32, H>,
}

impl<H> View for MessageHandlers<H> {
    type V = Map<u32, H>;

    closed spec fn view(&self) -> Map<u32, H> {
        self.table@
    }
}

impl<H> MessageHandlers<H> {
    /// A table without handlers.
    pub fn new() -> (r: Self)
        ensures
            r@ == Map::<u32, H>::empty(),
    {
        MessageHandlers { table: HashMap::new() }
    }

    /// Puts `handler` under the message `kind`. A handler that stood there
    /// before is replaced and comes back.
    pub fn register_message(&mut self, kind: u32, handler: H) -> (r: Option<H>)
        ensures
            final(self)@ == old(self)@.insert(kind, handler),
            old(self)@.contains_key(kind) ==> r == Some(old(self)@[kind]),
            !old(self)@.contains_key(kind) ==> r is None,
    {
        self.table.insert(kind, handler)
    }

    /// The handler of the message `kind`, if one was registered.
    pub fn get_message_handler(&self, kind: u32) -> (r: Option<&H>)
        ensures
            self@.contains_key(kind) ==> r == Some(&self@[kind]),
            !self@.contains_key(kind) ==> r is None,
    {
        self.table.get(&kind)
    }
}

} // verus!
