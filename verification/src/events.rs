//! The quit-signal handler: which window events request exit, and the
//! Running → Stopped transition of the frame driver.

use vstd::prelude::*;

verus! {

/// The keys the event handler distinguishes: the two designated quit keys,
/// and everything else collapsed to one variant.
#[derive(Clone, Copy, PartialEq, Eq, Structural, Debug)]
pub enum Key {
    Escape,
    Q,
    Other,
}

/// A window event as the core sees it, stripped of backend detail.
#[derive(Clone, Copy, PartialEq, Eq, Structural, Debug)]
pub enum WindowEvent {
    Closed,
    KeyPressed(Key),
    Other,
}

/// The frame driver's state machine: it runs until a quit signal arrives,
/// and `Stopped` is terminal.
#[derive(Clone, Copy, PartialEq, Eq, Structural, Debug)]
pub enum DriverState {
    Running,
    Stopped,
}

/// Whether a single event requests exit: the window was closed, or one of
/// the designated quit keys was pressed.
pub open spec fn is_quit_event(e: WindowEvent) -> bool {
    match e {
        WindowEvent::Closed => true,
        WindowEvent::KeyPressed(k) => k == Key::Escape || k == Key::Q,
        WindowEvent::Other => false,
    }
}

/// Whether any event of a polled batch requests exit.
pub open spec fn any_quit(events: Seq<WindowEvent>) -> bool {
    exists|i: int| 0 <= i < events.len() && is_quit_event(#[trigger] events[i])
}

/// Drains the events polled since the last frame and stops the driver if
/// any of them requests exit: the driver ends `Stopped` exactly when it
/// already was, or the batch holds a window-close or quit-key event.
pub fn process_events(state: &mut DriverState, events: &Vec<WindowEvent>)
    ensures
        *final(state) is Stopped <==> (*old(state) is Stopped || any_quit(events@)),
{
    let mut i: usize = 0;
    while i < events.len()
        invariant
            i <= events@.len(),
            *state is Stopped <==> (*old(state) is Stopped || exists|j: int|
                0 <= j < i && is_quit_event(#[trigger] events@[j])),
        decreases events@.len() - i,
    {
        let quit = match events[i] {
            WindowEvent::Closed => true,
            WindowEvent::KeyPressed(k) => match k {
                Key::Escape => true,
                Key::Q => true,
                Key::Other => false,
            },
            WindowEvent::Other => false,
        };
        if quit {
            *state = DriverState::Stopped;
        }
        i = i + 1;
    }
}

} // verus!
