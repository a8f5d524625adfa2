use vstd::prelude::*;

verus! {

/// The keys the loop tells apart.
#[derive(Clone, Copy, Debug, PartialEq, Eq, Structural)]
pub enum Key {
    Escape,
    Other,
}

/// A platform event, reduced to what the loop reads of it.
#[derive(Clone, Copy, Debug, PartialEq, Eq, Structural)]
pub enum InputEvent {
    /// The window was asked to close.
    Quit,
    /// A key went down; `scancode` is absent when the platform gave none.
    KeyDown { scancode: Option<Key> },
    /// Anything else; it is discarded.
    Other,
}

/// An event that ends the loop: a close request, or Escape going down.
pub open spec fn ends_loop(e: InputEvent) -> bool {
    match e {
        InputEvent::Quit => true,
        InputEvent::KeyDown { scancode: Some(Key::Escape) } => true,
        _ => false,
    }
}

/// Some event of a drained batch ends the loop.
pub open spec fn batch_ends_loop(events: Seq<InputEvent>) -> bool {
    exists|i: int| 0 <= i < events.len() && #[trigger] ends_loop(events[i])
}

/// Whether one event ends the loop.
pub fn is_exit_event(e: &InputEvent) -> (r: bool)
    ensures
        r == ends_loop(*e),
{
    match e {
        InputEvent::Quit => true,
        InputEvent::KeyDown { scancode: Some(Key::Escape) } => true,
        _ => false,
    }
}

/// Classifies a batch of drained events: whether any of them ends the loop.
/// All other events are discarded.
pub fn exit_requested(events: &Vec<InputEvent>) -> (r: bool)
    ensures
        r == batch_ends_loop(events@),
{
    let mut i: usize = 0;
    while i < events.len()
        invariant
            i <= events.len(),
            forall|j: int| 0 <= j < i ==> !#[trigger] ends_loop(events@[j]),
        decreases events.len() - i,
    {
        if is_exit_event(&events[i]) {
            return true;
        }
        i += 1;
    }
    false
}

} // verus!
