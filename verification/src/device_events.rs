//! The device event bridge: the fixed vocabulary of device events, their
//! names on the wire, and the extension that each one is armed through.

use vstd::prelude::*;
use std::str::FromStr;
use crate::contract::EventAdjective;
use crate::contract::RippleContract;
use crate::extn::ExtnPayload;
use crate::extn::ExtnRequest;
use crate::text::str_eq;

verus! {

/// Implemented by a source of device events, to say which event it raises.
pub trait DeviceEventProvider {
    fn get_name() -> String;
}

pub const HDCP_CHANGED_EVENT: &'static str = "device.onHdcpChanged";

pub const HDR_CHANGED_EVENT: &'static str = "device.onHdrChanged";

pub const SCREEN_RESOLUTION_CHANGED_EVENT: &'static str = "device.onScreenResolutionChanged";

pub const VIDEO_RESOLUTION_CHANGED_EVENT: &'static str = "device.onVideoResolutionChanged";

pub const NETWORK_CHANGED_EVENT: &'static str = "device.onNetworkChanged";

pub const INTERNET_CHANGED_EVENT: &'static str = "device.onInternetStatusChange";

pub const AUDIO_CHANGED_EVENT: &'static str = "device.onAudioChanged";

pub const VOICE_GUIDANCE_SETTINGS_CHANGED: &'static str =
    "accessibility.onVoiceGuidanceSettingsChanged";

pub const VOICE_GUIDANCE_ENABLED_CHANGED: &'static str = "voiceguidance.onEnabledChanged";

pub const VOICE_GUIDANCE_SPEED_CHANGED: &'static str = "voiceguidance.onSpeedChanged";

pub const POWER_STATE_CHANGED: &'static str = "device.onPowerStateChanged";

/// The name given was not one of the device event names.
#[derive(Clone, Copy, Debug, PartialEq, Eq, Structural)]
pub struct InvalidEventName;

/// A kind of device event. A name that is not in the vocabulary has no kind.
#[derive(Clone, Copy, Debug, PartialEq, Eq, Structural)]
pub enum DeviceEvent {
    InputChanged,
    HdrChanged,
    ScreenResolutionChanged,
    VideoResolutionChanged,
    VoiceGuidanceEnabledChanged,
    NetworkChanged,
    AudioChanged,
    SystemPowerStateChanged,
    InternetConnectionStatusChanged,
}

impl DeviceEvent {
    /// The name of this kind of event on the wire.
    pub open spec fn name(self) -> Seq<char> {
        match self {
            DeviceEvent::InputChanged => "device.onHdcpChanged"@,
            DeviceEvent::HdrChanged => "device.onHdrChanged"@,
            DeviceEvent::ScreenResolutionChanged => "device.onScreenResolutionChanged"@,
            DeviceEvent::VideoResolutionChanged => "device.onVideoResolutionChanged"@,
            DeviceEvent::VoiceGuidanceEnabledChanged => "voiceguidance.onEnabledChanged"@,
            DeviceEvent::NetworkChanged => "device.onNetworkChanged"@,
            DeviceEvent::AudioChanged => "device.onAudioChanged"@,
            DeviceEvent::SystemPowerStateChanged => "device.onPowerStateChanged"@,
            DeviceEvent::InternetConnectionStatusChanged => "device.onInternetStatusChange"@,
        }
    }

    /// The kind of event that `name` names, if it names one.
    pub open spec fn named(name: Seq<char>) -> Option<DeviceEvent> {
        if name == "device.onHdcpChanged"@ {
            Some(DeviceEvent::InputChanged)
        } else if name == "device.onHdrChanged"@ {
            Some(DeviceEvent::HdrChanged)
        } else if name == "device.onScreenResolutionChanged"@ {
            Some(DeviceEvent::ScreenResolutionChanged)
        } else if name == "device.onVideoResolutionChanged"@ {
            Some(DeviceEvent::VideoResolutionChanged)
        } else if name == "voiceguidance.onEnabledChanged"@ {
            Some(DeviceEvent::VoiceGuidanceEnabledChanged)
        } else if name == "device.onNetworkChanged"@ {
            Some(DeviceEvent::NetworkChanged)
        } else if name == "device.onAudioChanged"@ {
            Some(DeviceEvent::AudioChanged)
        } else if name == "device.onPowerStateChanged"@ {
            Some(DeviceEvent::SystemPowerStateChanged)
        } else if name == "device.onInternetStatusChange"@ {
            Some(DeviceEvent::InternetConnectionStatusChanged)
        } else {
            None
        }
    }

    /// The facet of the device that this kind of event reports on.
    pub open spec fn adjective(self) -> EventAdjective {
        match self {
            DeviceEvent::InputChanged => EventAdjective::Input,
            DeviceEvent::HdrChanged => EventAdjective::Hdr,
            DeviceEvent::ScreenResolutionChanged => EventAdjective::ScreenResolution,
            DeviceEvent::VideoResolutionChanged => EventAdjective::VideoResolution,
            DeviceEvent::VoiceGuidanceEnabledChanged => EventAdjective::VoiceGuidance,
            DeviceEvent::NetworkChanged => EventAdjective::Network,
            DeviceEvent::AudioChanged => EventAdjective::Audio,
            DeviceEvent::SystemPowerStateChanged => EventAdjective::SystemPowerState,
            DeviceEvent::InternetConnectionStatusChanged => EventAdjective::Internet,
        }
    }

    /// Reads a wire name. A name outside the vocabulary is refused; it is
    /// never mapped to some default kind.
    pub fn parse(name: &str) -> (r: Result<DeviceEvent, InvalidEventName>)
        ensures
            r == (match DeviceEvent::named(name@) {
                Some(kind) => Ok::<DeviceEvent, InvalidEventName>(kind),
                None => Err::<DeviceEvent, InvalidEventName>(InvalidEventName),
            }),
    {
        if str_eq(name, HDCP_CHANGED_EVENT) {
            Ok(DeviceEvent::InputChanged)
        } else if str_eq(name, HDR_CHANGED_EVENT) {
            Ok(DeviceEvent::HdrChanged)
        } else if str_eq(name, SCREEN_RESOLUTION_CHANGED_EVENT) {
            Ok(DeviceEvent::ScreenResolutionChanged)
        } else if str_eq(name, VIDEO_RESOLUTION_CHANGED_EVENT) {
            Ok(DeviceEvent::VideoResolutionChanged)
        } else if str_eq(name, VOICE_GUIDANCE_ENABLED_CHANGED) {
            Ok(DeviceEvent::VoiceGuidanceEnabledChanged)
        } else if str_eq(name, NETWORK_CHANGED_EVENT) {
            Ok(DeviceEvent::NetworkChanged)
        } else if str_eq(name, AUDIO_CHANGED_EVENT) {
            Ok(DeviceEvent::AudioChanged)
        } else if str_eq(name, POWER_STATE_CHANGED) {
            Ok(DeviceEvent::SystemPowerStateChanged)
        } else if str_eq(name, INTERNET_CHANGED_EVENT) {
            Ok(DeviceEvent::InternetConnectionStatusChanged)
        } else {
            Err(InvalidEventName)
        }
    }

    /// The wire name of this kind of event.
    pub fn format(&self) -> (r: &'static str)
        ensures
            r@ == self.name(),
    {
        match self {
            DeviceEvent::InputChanged => HDCP_CHANGED_EVENT,
            DeviceEvent::HdrChanged => HDR_CHANGED_EVENT,
            DeviceEvent::ScreenResolutionChanged => SCREEN_RESOLUTION_CHANGED_EVENT,
            DeviceEvent::VideoResolutionChanged => VIDEO_RESOLUTION_CHANGED_EVENT,
            DeviceEvent::VoiceGuidanceEnabledChanged => VOICE_GUIDANCE_ENABLED_CHANGED,
            DeviceEvent::NetworkChanged => NETWORK_CHANGED_EVENT,
            DeviceEvent::AudioChanged => AUDIO_CHANGED_EVENT,
            DeviceEvent::SystemPowerStateChanged => POWER_STATE_CHANGED,
            DeviceEvent::InternetConnectionStatusChanged => INTERNET_CHANGED_EVENT,
        }
    }

    /// The extension through which this kind of event is armed and disarmed.
    pub fn contract(&self) -> (r: RippleContract)
        ensures
            r == RippleContract::DeviceEvents(self.adjective()),
    {
        match self {
            DeviceEvent::InputChanged => RippleContract::DeviceEvents(EventAdjective::Input),
            DeviceEvent::HdrChanged => RippleContract::DeviceEvents(EventAdjective::Hdr),
            DeviceEvent::ScreenResolutionChanged => {
                RippleContract::DeviceEvents(EventAdjective::ScreenResolution)
            },
            DeviceEvent::VideoResolutionChanged => {
                RippleContract::DeviceEvents(EventAdjective::VideoResolution)
            },
            DeviceEvent::VoiceGuidanceEnabledChanged => {
                RippleContract::DeviceEvents(EventAdjective::VoiceGuidance)
            },
            DeviceEvent::NetworkChanged => RippleContract::DeviceEvents(EventAdjective::Network),
            DeviceEvent::AudioChanged => RippleContract::DeviceEvents(EventAdjective::Audio),
            DeviceEvent::SystemPowerStateChanged => {
                RippleContract::DeviceEvents(EventAdjective::SystemPowerState)
            },
            DeviceEvent::InternetConnectionStatusChanged => {
                RippleContract::DeviceEvents(EventAdjective::Internet)
            },
        }
    }
}

impl FromStr for DeviceEvent {
    type Err = InvalidEventName;

    /// Reads a wire name, as `parse` does: the kind that the name names, and
    /// `InvalidEventName` for every name outside the vocabulary.
    fn from_str(s: &str) -> (r: Result<Self, Self::Err>)
        ensures
            r == (match DeviceEvent::named(s@) {
                Some(kind) => Ok::<DeviceEvent, InvalidEventName>(kind),
                None => Err::<DeviceEvent, InvalidEventName>(InvalidEventName),
            }),
    {
        DeviceEvent::parse(s)
    }
}

/// Makes the contents of the nine event names known to the verifier.
proof fn reveal_event_names()
    ensures
        "device.onHdcpChanged"@.len() == 20,
        "device.onHdrChanged"@.len() == 19,
        "device.onScreenResolutionChanged"@.len() == 32,
        "device.onVideoResolutionChanged"@.len() == 31,
        "voiceguidance.onEnabledChanged"@.len() == 30,
        "device.onNetworkChanged"@.len() == 23,
        "device.onAudioChanged"@.len() == 21,
        "device.onPowerStateChanged"@.len() == 26,
        "device.onInternetStatusChange"@.len() == 29,
{
    reveal_strlit("device.onHdcpChanged");
    reveal_strlit("device.onHdrChanged");
    reveal_strlit("device.onScreenResolutionChanged");
    reveal_strlit("device.onVideoResolutionChanged");
    reveal_strlit("voiceguidance.onEnabledChanged");
    reveal_strlit("device.onNetworkChanged");
    reveal_strlit("device.onAudioChanged");
    reveal_strlit("device.onPowerStateChanged");
    reveal_strlit("device.onInternetStatusChange");
}

/// Formatting a kind and reading the name back gives the same kind: no two
/// kinds share a name.
pub proof fn lemma_parse_inverts_format(kind: DeviceEvent)
    ensures
        DeviceEvent::named(kind.name()) == Some(kind),
{
    reveal_event_names();
}

/// A name that reads as a kind is exactly the name that the kind formats to.
pub proof fn lemma_format_inverts_parse(name: Seq<char>, kind: DeviceEvent)
    requires
        DeviceEvent::named(name) == Some(kind),
    ensures
        kind.name() == name,
{
}

/// Where the events of a subscription are delivered: to a named application,
/// or to an observer inside the runtime.
#[derive(Debug, PartialEq, Eq)]
pub enum DeviceEventCallback {
    FireboltAppEvent(String),
    ExtnEvent,
}

impl Clone for DeviceEventCallback {
    fn clone(&self) -> (r: Self)
        ensures
            r == *self,
    {
        match self {
            DeviceEventCallback::FireboltAppEvent(id) => DeviceEventCallback::FireboltAppEvent(
                id.clone(),
            ),
            DeviceEventCallback::ExtnEvent => DeviceEventCallback::ExtnEvent,
        }
    }
}

impl DeviceEventCallback {
    /// The identifier of the target: the application's own, or `internal`.
    pub open spec fn id(self) -> Seq<char> {
        match self {
            DeviceEventCallback::FireboltAppEvent(id) => id@,
            DeviceEventCallback::ExtnEvent => "internal"@,
        }
    }

    /// The identifier of the delivery target.
    pub fn get_id(&self) -> (r: String)
        ensures
            r@ == self.id(),
    {
        match self {
            DeviceEventCallback::FireboltAppEvent(id) => id.clone(),
            DeviceEventCallback::ExtnEvent => "internal".to_owned(),
        }
    }
}

/// An intent to start or stop receiving one kind of device event.
#[derive(Debug, PartialEq, Eq)]
pub struct DeviceEventRequest {
    pub event: DeviceEvent,
    pub subscribe: bool,
    pub callback_type: DeviceEventCallback,
}

impl Clone for DeviceEventRequest {
    fn clone(&self) -> (r: Self)
        ensures
            r == *self,
    {
        DeviceEventRequest {
            event: self.event,
            subscribe: self.subscribe,
            callback_type: self.callback_type.clone(),
        }
    }
}

impl DeviceEventRequest {
    /// Builds the intent for the event that `name` names. An unknown name is
    /// refused, so that a bad request never reaches the subscription table.
    pub fn for_name(name: &str, subscribe: bool, callback_type: DeviceEventCallback) -> (r: Result<
        DeviceEventRequest,
        InvalidEventName,
    >)
        ensures
            r == (match DeviceEvent::named(name@) {
                Some(event) => Ok::<DeviceEventRequest, InvalidEventName>(
                    (DeviceEventRequest { event, subscribe, callback_type }),
                ),
                None => Err::<DeviceEventRequest, InvalidEventName>(InvalidEventName),
            }),
    {
        match DeviceEvent::parse(name) {
            Ok(event) => Ok(DeviceEventRequest { event, subscribe, callback_type }),
            Err(e) => Err(e),
        }
    }

    /// This request, wrapped for the broker.
    pub fn get_extn_payload(&self) -> (r: ExtnPayload)
        ensures
            r == ExtnPayload::Request(ExtnRequest::DeviceEvent(*self)),
    {
        ExtnPayload::Request(ExtnRequest::DeviceEvent(self.clone()))
    }

    /// The device event request inside `payload`, if that is what it holds.
    pub fn get_from_payload(payload: ExtnPayload) -> (r: Option<Self>)
        ensures
            r == (match payload {
                ExtnPayload::Request(ExtnRequest::DeviceEvent(d)) => Some(d),
                _ => None,
            }),
    {
        if let ExtnPayload::Request(ExtnRequest::DeviceEvent(d)) = payload {
            return Some(d);
        }
        None
    }

    /// The extension that owns the event of this request.
    pub fn get_contract(&self) -> (r: RippleContract)
        ensures
            r == RippleContract::DeviceEvents(self.event.adjective()),
    {
        self.event.contract()
    }

    /// The address under which device event requests are registered as a
    /// family, whatever event one of them names.
    pub fn contract() -> (r: RippleContract)
        ensures
            r == RippleContract::DeviceEvents(EventAdjective::Input),
    {
        RippleContract::DeviceEvents(EventAdjective::Input)
    }
}

} // verus!
