use vstd::prelude::*;

verus! {

/// Every event crossing into the dispatch loop: lifecycle signals, UI
/// commands, captured frame payloads, and capture-error payloads.
#[derive(Debug, Clone, PartialEq, Eq)]
pub enum Action {
    Tick,
    Render,
    Resize(u16, u16),
    Suspend,
    Resume,
    Quit,
    ClearScreen,
    Error(String),
    Help,
    StartCamera,
    StopCamera,
    ToggleCamera,
    CameraFrame(Vec<u8>, u32, u32),
    CameraError(String),
    NextCamera,
    PreviousCamera,
    SetCamera(u32),
    NextCharacterSet,
    PreviousCharacterSet,
    ToggleColor,
    IncreaseScale,
    DecreaseScale,
    IncreaseResolution,
    DecreaseResolution,
    SetResolution(u32, u32),
}

} // verus!
