//! The processor of events that are raised inside the runtime.

use vstd::prelude::*;
use serde_json::Value;
use crate::app_events::audience;
use crate::app_events::emitted;
use crate::app_events::AppEvent;
use crate::app_events::AppEvents;
use crate::app_events::DecorationFailed;
use crate::app_events::Delivery;
use crate::gateway::CallContext;
use crate::platform::PlatformState;

verus! {

/// Turns each application event that reaches it into the deliveries that
/// the subscribers are owed.
#[derive(Debug, PartialEq, Eq)]
pub struct AppEventsProcessor {
    state: PlatformState,
}

impl AppEventsProcessor {
    /// A processor over `state`.
    pub fn new(state: PlatformState) -> (r: AppEventsProcessor)
        ensures
            r.state() == state,
    {
        AppEventsProcessor { state }
    }

    /// The platform that the processor works over.
    pub closed spec fn state(self) -> PlatformState {
        self.state
    }

    /// A copy of the platform state.
    pub fn get_state(&self) -> (r: PlatformState)
        ensures
            r == self.state(),
    {
        self.state.clone()
    }

    /// Processes one event: emits it through the subscription table, to the
    /// application it names or to all, and hands back the deliveries.
    pub fn process_event<
        F: Fn(&PlatformState, &CallContext, &str, &Value) -> Result<Value, DecorationFailed>,
    >(state: &PlatformState, listeners: &AppEvents<F>, extracted_message: &AppEvent) -> (r: Vec<
        Delivery,
    >)
        requires
            listeners.wf(),
        ensures
            emitted(
                audience(
                    listeners@,
                    extracted_message.event_name@,
                    match extracted_message.app_id {
                        Some(app_id) => Some(app_id@),
                        None => None,
                    },
                ),
                state,
                extracted_message.event_name@,
                &extracted_message.result,
                r@,
            ),
    {
        listeners.emit_with_app_event(state, extracted_message)
    }
}

} // verus!
