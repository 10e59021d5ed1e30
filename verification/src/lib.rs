//! The message bridge of a television middleware runtime, verified.
//!
//! Two pieces carry the weight. The extension broker ([`broker`]) correlates
//! each request to an extension with the one response that answers it and
//! checks that the response has the shape the request expects. The event
//! registry ([`app_events`]) holds at most one subscription per application
//! and event and computes, subscriber by subscriber, what an emitted event
//! delivers. Around them stand the device event vocabulary
//! ([`device_events`]), the persisted settings with their defaults
//! ([`storage`]), and the advertising and keyboard methods that use them.
//!
//! The library performs no I/O and awaits nothing: each exchange with the
//! outside is split into the request to make and the decision on what came
//! back. The few calls into other crates are gathered in [`codec`].

pub mod ads;
pub mod advertising;
pub mod app_events;
pub mod broker;
pub mod codec;
pub mod contract;
pub mod device_events;
pub mod extn;
pub mod gateway;
pub mod keyboard;
pub mod platform;
pub mod processor;
pub mod provider;
pub mod storage;
pub mod text;
