use vstd::prelude::*;

use crate::ml::{DrawText, Handle, PaintContext};
use crate::window::Window;
use std::collections::HashMap;

verus! {

broadcast use vstd::std_specs::hash::group_hash_axioms;

/// What is kept for the handle of a live window: the instance that the
/// program attached to it, and whether the window has no parent.
pub struct Slot<W: Window> {
    pub window: W,
    pub top_level: bool,
}

/// A breach of the order in which a window is made, used and destroyed.
#[derive(Clone, Copy, Debug, PartialEq, Eq, Structural)]
pub enum Fault {
    /// The null handle names no window.
    NullHandle,
    /// The handle has an instance already.
    AlreadyAttached,
    /// The handle has no instance: it never had one, or its window was
    /// destroyed.
    NotAttached,
    /// The window was made without an instance to attach.
    MissingCreateParam,
}

/// An instance that could not be attached, and why.
pub struct Rejected<W: Window> {
    pub fault: Fault,
    pub window: W,
}

/// The instances of the live windows, each under the handle of its window.
pub struct WindowRegistry<W: Window> {
    slots: HashMap<usize, Slot<W>>,
}

/// The table after `slot` was attached to `handle`.
pub open spec fn spec_attach<W: Window>(
    slots: Map<usize, Slot<W>>,
    handle: Handle,
    slot: Slot<W>,
) -> Map<usize, Slot<W>> {
    if handle.spec_is_null() || slots.contains_key(handle.0) {
        slots
    } else {
        slots.insert(handle.0, slot)
    }
}

/// The slot of `handle`, if it has one.
pub open spec fn spec_lookup<W: Window>(slots: Map<usize, Slot<W>>, handle: Handle) -> Option<
    Slot<W>,
> {
    if slots.contains_key(handle.0) {
        Some(slots[handle.0])
    } else {
        None
    }
}

/// The table after the slot of `handle` was taken out.
pub open spec fn spec_detach<W: Window>(slots: Map<usize, Slot<W>>, handle: Handle) -> Map<
    usize,
    Slot<W>,
> {
    slots.remove(handle.0)
}

impl<W: Window> View for WindowRegistry<W> {
    type V = Map<usize, Slot<W>>;

    closed spec fn view(&self) -> Map<usize, Slot<W>> {
        self.slots@
    }
}

impl<W: Window> WindowRegistry<W> {
    /// The null handle has no slot. A new registry is so, and no function
    /// of the registry changes that.
    pub open spec fn wf(self) -> bool {
        !self@.contains_key(0)
    }

    /// The handle has an instance.
    pub open spec fn spec_is_attached(self, handle: Handle) -> bool {
        self@.contains_key(handle.0)
    }

    /// A registry without windows.
    pub fn new() -> (r: WindowRegistry<W>)
        ensures
            r@ == Map::<usize, Slot<W>>::empty(),
            r.wf(),
    {
        WindowRegistry { slots: HashMap::new() }
    }

    /// Whether `handle` has an instance.
    pub fn is_attached(&self, handle: Handle) -> (r: bool)
        ensures
            r == self.spec_is_attached(handle),
            self.wf() && handle.spec_is_null() ==> !r,
    {
        self.slots.contains_key(&handle.0)
    }

    /// Attaches `window` to `handle`. The null handle and a handle that has
    /// an instance are refused: the registry stays as it is and the instance
    /// comes back.
    pub fn attach(&mut self, handle: Handle, window: W, top_level: bool) -> (r:
        Result<(), Rejected<W>>)
        ensures
            old(self).wf() ==> final(self).wf(),
            final(self)@ == spec_attach(old(self)@, handle, Slot { window, top_level }),
            handle.spec_is_null() ==> r == Err::<(), Rejected<W>>(
                Rejected { fault: Fault::NullHandle, window },
            ),
            !handle.spec_is_null() && old(self).spec_is_attached(handle) ==> r == Err::<
                (),
                Rejected<W>,
            >(Rejected { fault: Fault::AlreadyAttached, window }),
            !handle.spec_is_null() && !old(self).spec_is_attached(handle) ==> r is Ok,
    {
        if handle.is_null() {
            Err(Rejected { fault: Fault::NullHandle, window })
        } else if self.slots.contains_key(&handle.0) {
            Err(Rejected { fault: Fault::AlreadyAttached, window })
        } else {
            self.slots.insert(handle.0, Slot { window, top_level });
            Ok(())
        }
    }

    /// Takes the slot of `handle` out of the registry, for the caller to
    /// let go of the instance. Afterwards the handle has no instance.
    pub fn detach(&mut self, handle: Handle) -> (r: Option<Slot<W>>)
        ensures
            old(self).wf() ==> final(self).wf(),
            final(self)@ == spec_detach(old(self)@, handle),
            r == spec_lookup(old(self)@, handle),
            !final(self).spec_is_attached(handle),
    {
        self.slots.remove(&handle.0)
    }

    /// How many windows have an instance.
    pub fn len(&self) -> (n: usize)
        ensures
            n == self@.len(),
    {
        self.slots.len()
    }
}

/// The instance that is attached to `handle`, if there is one.
pub fn get_window_from_handle<'a, W: Window>(
    registry: &'a WindowRegistry<W>,
    handle: Handle,
) -> (r: Option<&'a W>)
    ensures
        registry.spec_is_attached(handle) ==> r == Some(&registry@[handle.0].window),
        !registry.spec_is_attached(handle) ==> r is None,
{
    match registry.slots.get(&handle.0) {
        Some(slot) => Some(&slot.window),
        None => None,
    }
}

/// `HashMap::get_mut` of std: a mutable reference to the value under `key`,
/// or `None` where the map has no such key. Nothing but that value can
/// change through the reference: the keys and the other values stay.
#[verifier::external_body]
fn slot_mut<'a, W: Window>(slots: &'a mut HashMap<usize, Slot<W>>, key: usize) -> (r: Option<
    &'a mut Slot<W>,
>)
    ensures
        match r {
            Some(slot) => {
                &&& old(slots)@.contains_key(key)
                &&& *slot == old(slots)@[key]
                &&& final(slots)@ == old(slots)@.insert(key, *final(slot))
            },
            None => !old(slots)@.contains_key(key) && final(slots)@ == old(slots)@,
        },
{
    slots.get_mut(&key)
}

/// The instance that is attached to `handle`, if there is one, to change it.
/// The handle keeps its instance, and the other handles keep theirs.
pub fn get_window_from_handle_mut<'a, W: Window>(
    registry: &'a mut WindowRegistry<W>,
    handle: Handle,
) -> (r: Option<&'a mut W>)
    ensures
        old(registry).wf() ==> final(registry).wf(),
        match r {
            Some(w) => {
                &&& old(registry).spec_is_attached(handle)
                &&& *w == old(registry)@[handle.0].window
                &&& final(registry)@ == old(registry)@.insert(
                    handle.0,
                    Slot { window: *final(w), top_level: old(registry)@[handle.0].top_level },
                )
            },
            None => !old(registry).spec_is_attached(handle) && final(registry)@ == old(registry)@,
        },
{
    match slot_mut(&mut registry.slots, handle.0) {
        Some(slot) => Some(&mut slot.window),
        None => None,
    }
}

/// Looking up a handle after attaching to it gives what was attached, unless
/// the handle is null or had an instance before.
pub proof fn lemma_attach_then_lookup<W: Window>(
    slots: Map<usize, Slot<W>>,
    handle: Handle,
    slot: Slot<W>,
)
    requires
        !handle.spec_is_null(),
        !slots.contains_key(handle.0),
    ensures
        spec_lookup(spec_attach(slots, handle, slot), handle) == Some(slot),
{
}

/// Attaching to one handle and detaching another leave every other handle
/// as it was.
pub proof fn lemma_other_handles_untouched<W: Window>(
    slots: Map<usize, Slot<W>>,
    handle: Handle,
    slot: Slot<W>,
    other: Handle,
)
    requires
        other != handle,
    ensures
        spec_lookup(spec_attach(slots, handle, slot), other) == spec_lookup(slots, other),
        spec_lookup(spec_detach(slots, handle), other) == spec_lookup(slots, other),
{
}

/// After a handle was detached it has no instance, whatever it had before,
/// and detaching it once more changes nothing.
pub proof fn lemma_detached_is_gone<W: Window>(slots: Map<usize, Slot<W>>, handle: Handle)
    ensures
        spec_lookup(spec_detach(slots, handle), handle) is None,
        spec_detach(spec_detach(slots, handle), handle) == spec_detach(slots, handle),
{
    assert(spec_detach(spec_detach(slots, handle), handle) =~= spec_detach(slots, handle));
}

/// What happened to a window.
pub enum Event<W: Window> {
    /// The window was made: the instance that was handed to the system for
    /// it, and the parent it was made with.
    Create { instance: Option<W>, parent: Handle },
    /// A paint cycle has begun.
    Paint(PaintContext),
    /// The user asks to close the window.
    Close,
    /// The window is being destroyed.
    Destroy,
    /// Any other message, by its number.
    Other(u32),
}

/// What is left to do after an event.
pub enum Action<W: Window> {
    /// Nothing.
    Done,
    /// Ask the system to destroy the window.
    DestroyWindow,
    /// Draw the list on the surface of the paint cycle.
    Draw(Vec<DrawText>),
    /// Let go of the instance; end the message loop if `quit` is set.
    Release { window: W, quit: bool },
    /// Leave the message with this number to the system.
    Default(u32),
    /// Stop: the order of events is broken.
    Abort(Fault),
}

impl<W: Window> WindowRegistry<W> {
    /// The table after the event `event` of the window `handle`. `made` is
    /// the instance after it was set up, for a window that was made.
    pub open spec fn spec_after(self, handle: Handle, event: Event<W>, made: Slot<W>) -> Map<
        usize,
        Slot<W>,
    > {
        match event {
            Event::Create { instance, parent } => if instance is Some {
                spec_attach(self@, handle, made)
            } else {
                self@
            },
            Event::Destroy => spec_detach(self@, handle),
            _ => self@,
        }
    }

    /// Whether the event `event` of the window `handle` breaks the order of
    /// events, and how.
    pub open spec fn spec_fault(self, handle: Handle, event: Event<W>) -> Option<Fault> {
        match event {
            Event::Create { instance, parent } => if instance is None {
                Some(Fault::MissingCreateParam)
            } else if handle.spec_is_null() {
                Some(Fault::NullHandle)
            } else if self.spec_is_attached(handle) {
                Some(Fault::AlreadyAttached)
            } else {
                None
            },
            Event::Paint(c) => if self.spec_is_attached(handle) {
                None
            } else {
                Some(Fault::NotAttached)
            },
            Event::Destroy => if self.spec_is_attached(handle) {
                None
            } else {
                Some(Fault::NotAttached)
            },
            Event::Close => None,
            Event::Other(code) => None,
        }
    }

    /// Handles one event of the window `handle`.
    ///
    /// A window that was made gets its instance attached, after the instance
    /// was told the handle and has run its `on_create`. A paint cycle gives
    /// the drawing of the attached instance. A request to close turns into
    /// the request to destroy the window. The destruction takes the instance
    /// out, and ends the message loop for a window without a parent. Any
    /// other message is left to the system. An event that comes out of
    /// order changes nothing and is reported.
    pub fn dispatch(&mut self, handle: Handle, event: Event<W>) -> (action: Action<W>)
        ensures
            old(self).wf() ==> final(self).wf(),
            old(self).spec_fault(handle, event) matches Some(fault) ==> {
                &&& action == Action::<W>::Abort(fault)
                &&& final(self)@ == old(self)@
            },
            old(self).spec_fault(handle, event) is None ==> {
                &&& final(self)@ == old(self).spec_after(handle, event, final(self)@[handle.0])
                &&& match event {
                    Event::Create { instance, parent } => {
                        &&& action is Done
                        &&& final(self).spec_is_attached(handle)
                        &&& final(self)@[handle.0].top_level == parent.spec_is_null()
                    },
                    Event::Paint(c) => {
                        &&& action matches Action::Draw(list)
                        &&& list@ == old(self)@[handle.0].window.spec_paint(c)
                    },
                    Event::Close => action is DestroyWindow,
                    Event::Destroy => {
                        &&& action == (Action::<W>::Release {
                            window: old(self)@[handle.0].window,
                            quit: old(self)@[handle.0].top_level,
                        })
                        &&& !final(self).spec_is_attached(handle)
                    },
                    Event::Other(code) => action == Action::<W>::Default(code),
                }
            },
    {
        match event {
            Event::Create { instance, parent } => {
                match instance {
                    None => Action::Abort(Fault::MissingCreateParam),
                    Some(window) => {
                        if handle.is_null() {
                            Action::Abort(Fault::NullHandle)
                        } else if self.slots.contains_key(&handle.0) {
                            Action::Abort(Fault::AlreadyAttached)
                        } else {
                            let mut window = window;
                            window.init_handle(handle);
                            window.on_create();
                            let top_level = parent.is_null();
                            self.slots.insert(handle.0, Slot { window, top_level });
                            Action::Done
                        }
                    },
                }
            },
            Event::Paint(c) => {
                match self.slots.get(&handle.0) {
                    Some(slot) => Action::Draw(slot.window.paint(&c)),
                    None => Action::Abort(Fault::NotAttached),
                }
            },
            Event::Close => Action::DestroyWindow,
            Event::Destroy => {
                match self.slots.remove(&handle.0) {
                    Some(slot) => Action::Release { window: slot.window, quit: slot.top_level },
                    None => Action::Abort(Fault::NotAttached),
                }
            },
            Event::Other(code) => Action::Default(code),
        }
    }
}

/// Only the making and the destruction of a window change which handle has
/// which instance: every other event leaves the table as it is.
pub proof fn lemma_only_create_and_destroy_write<W: Window>(
    registry: WindowRegistry<W>,
    handle: Handle,
    event: Event<W>,
    made: Slot<W>,
)
    requires
        !(event is Create),
        !(event is Destroy),
    ensures
        registry.spec_after(handle, event, made) == registry@,
{
}

/// After the destruction of a window no event of it reaches an instance:
/// a paint cycle and a second destruction are out of order, and the table
/// holds nothing under the handle.
pub proof fn lemma_destroyed_is_not_read<W: Window>(
    registry: WindowRegistry<W>,
    after: WindowRegistry<W>,
    handle: Handle,
    c: PaintContext,
    made: Slot<W>,
)
    requires
        after@ == registry.spec_after(handle, Event::<W>::Destroy, made),
    ensures
        !after.spec_is_attached(handle),
        after.spec_fault(handle, Event::<W>::Paint(c)) == Some(Fault::NotAttached),
        after.spec_fault(handle, Event::<W>::Destroy) == Some(Fault::NotAttached),
{
}

} // verus!
