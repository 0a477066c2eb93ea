use vstd::prelude::*;

verus! {

/// A key of the keyboard, as far as the window's logic tells keys apart.
#[derive(Clone, Copy, Debug, PartialEq, Eq, Structural)]
pub enum Key {
    Escape,
    Other,
}

/// A platform event, as far as the window's logic tells events apart.
#[derive(Clone, Copy, Debug, PartialEq, Eq, Structural)]
pub enum Event {
    /// The window was closed.
    Closed,
    /// A key went down or up; `key` is `None` where the platform gave no
    /// virtual key code.
    KeyboardInput { key: Option<Key> },
    /// Any other event of the window or of the device.
    Other,
}

/// The window is closed, or Escape was pressed.
pub open spec fn is_exit(e: Event) -> bool {
    match e {
        Event::Closed => true,
        Event::KeyboardInput { key } => key == Some(Key::Escape),
        Event::Other => false,
    }
}

/// What one frame does with the events that it drained: it hands the first
/// `forwarded` of them to the user interface, and stops the program if
/// `quit` holds.
#[derive(Clone, Copy, Debug, PartialEq, Eq, Structural)]
pub struct FramePlan {
    pub forwarded: usize,
    pub quit: bool,
}

impl Event {
    /// Whether this event ends the program.
    pub fn ends_session(&self) -> (r: bool)
        ensures
            r == is_exit(*self),
    {
        match self {
            Event::Closed => true,
            Event::KeyboardInput { key: Some(Key::Escape) } => true,
            _ => false,
        }
    }
}

/// A frame must block for one event where polling brought none.
pub fn must_wait(pending: &Vec<Event>) -> (r: bool)
    ensures
        r == (pending@.len() == 0),
{
    pending.len() == 0
}

/// Goes through the drained events in order: each is forwarded to the user
/// interface until the first that ends the program, which stops the frame.
pub fn plan_frame(events: &Vec<Event>) -> (r: FramePlan)
    ensures
        r.forwarded <= events@.len(),
        forall|i: int| 0 <= i < r.forwarded ==> !is_exit(#[trigger] events@[i]),
        r.quit <==> r.forwarded < events@.len(),
        r.quit ==> is_exit(events@[r.forwarded as int]),
{
    let mut i: usize = 0;
    while i < events.len()
        invariant
            i <= events@.len(),
            forall|j: int| 0 <= j < i ==> !is_exit(#[trigger] events@[j]),
        decreases events@.len() - i,
    {
        if events[i].ends_session() {
            return FramePlan { forwarded: i, quit: true };
        }
        i = i + 1;
    }
    FramePlan { forwarded: i, quit: false }
}

} // verus!
