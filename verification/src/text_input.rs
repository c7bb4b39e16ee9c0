use vstd::prelude::*;

verus! {

/// Explicit text-entry state carried by the window manager: whether
/// text entry is wanted, and whether the input device side-channel is
/// currently active.
#[derive(Clone, Copy, PartialEq, Eq, Structural, Debug)]
pub struct TextInputState {
    pub requested: bool,
    pub active: bool,
}

impl TextInputState {
    pub fn new() -> (r: TextInputState)
        ensures
            !r.requested,
            !r.active,
    {
        TextInputState { requested: false, active: false }
    }
}

/// What the caller must do to the input device side-channel.
#[derive(Clone, Copy, PartialEq, Eq, Structural, Debug)]
pub enum ToggleAction {
    Start,
    Stop,
}

/// Whether text entry is wanted.
pub fn get(s: &TextInputState) -> (r: bool)
    ensures
        r == s.requested,
{
    s.requested
}

/// Ask for text entry.
pub fn start(s: &mut TextInputState)
    ensures
        final(s).requested,
        final(s).active == old(s).active,
{
    s.requested = true;
}

/// Stop asking for text entry.
pub fn end(s: &mut TextInputState)
    ensures
        !final(s).requested,
        final(s).active == old(s).active,
{
    s.requested = false;
}

/// Level-triggered reconciliation: the side-channel is started or
/// stopped only when its state differs from what is wanted; the
/// returned action is what the caller must perform on the device.
pub fn check_mode(s: &mut TextInputState) -> (r: Option<ToggleAction>)
    ensures
        final(s).requested == old(s).requested,
        final(s).active == old(s).requested,
        r == if !old(s).active && old(s).requested {
            Some(ToggleAction::Start)
        } else if old(s).active && !old(s).requested {
            Some(ToggleAction::Stop)
        } else {
            None::<ToggleAction>
        },
{
    let active = s.active;
    if !active && s.requested {
        s.active = true;
        Some(ToggleAction::Start)
    } else if active && !s.requested {
        s.active = false;
        Some(ToggleAction::Stop)
    } else {
        None
    }
}

} // verus!
