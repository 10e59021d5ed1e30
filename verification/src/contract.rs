//! Routing addresses: which extension owns a request.

use vstd::prelude::*;

verus! {

/// The facet of the device that a device-event extension reports on.
#[derive(Clone, Copy, Debug, PartialEq, Eq, Hash, Structural)]
pub enum EventAdjective {
    Input,
    Hdr,
    ScreenResolution,
    VideoResolution,
    VoiceGuidance,
    Network,
    Audio,
    SystemPowerState,
    Internet,
}

/// The address of the extension that owns an operation. The set is closed:
/// every request names exactly one of these.
#[derive(Clone, Copy, Debug, PartialEq, Eq, Hash, Structural)]
pub enum RippleContract {
    Advertising,
    Keyboard,
    Storage,
    DeviceEvents(EventAdjective),
}

} // verus!
