use ripple_core::contract::RippleContract;
use ripple_core::device_events::DeviceEvent;
use ripple_core::device_events::DeviceEventCallback;
use ripple_core::device_events::DeviceEventRequest;
use ripple_core::extn::ExtnPayload;
use ripple_core::extn::ExtnRequest;
use ripple_core::extn::ExtnResponse;
use ripple_core::gateway::ApiProtocol;
use ripple_core::gateway::CallContext;
use ripple_core::keyboard::KeyboardProviderResponse;
use ripple_core::keyboard::KeyboardSessionRequest;
use ripple_core::keyboard::KeyboardSessionResponse;
use ripple_core::keyboard::KeyboardType;
use ripple_core::keyboard::EMAIL_EVENT_PREFIX;
use ripple_core::keyboard::KEYBOARD_PROVIDER_CAPABILITY;
use ripple_core::keyboard::PASSWORD_EVENT_PREFIX;
use ripple_core::keyboard::STANDARD_EVENT_PREFIX;
use ripple_core::provider::ProviderResponse;
use ripple_core::provider::ProviderResponsePayload;

fn keyboard_ctx() -> CallContext {
    CallContext {
        session_id: "session-1".to_string(),
        request_id: "request-1".to_string(),
        app_id: "foo".to_string(),
        call_id: 7,
        protocol: ApiProtocol::JsonRpc,
        method: "keyboard.email".to_string(),
    }
}

#[test]
fn keyboard_provider_methods() {
    assert_eq!(KeyboardType::Email.to_provider_method(), "email");
    assert_eq!(KeyboardType::Password.to_provider_method(), "password");
    assert_eq!(KeyboardType::Standard.to_provider_method(), "standard");
}

#[test]
fn keyboard_constants() {
    assert_eq!(EMAIL_EVENT_PREFIX, "keyboard.onRequestEmail");
    assert_eq!(PASSWORD_EVENT_PREFIX, "keyboard.onRequestPassword");
    assert_eq!(STANDARD_EVENT_PREFIX, "keyboard.onRequestStandard");
    assert_eq!(KEYBOARD_PROVIDER_CAPABILITY, "xrn:firebolt:capability:input:keyboard");
}

#[test]
fn provider_response_keeps_id_and_result() {
    let result = KeyboardSessionResponse { text: "me@example.com".to_string(), canceled: false };
    let response = KeyboardProviderResponse::new("abc-123".to_string(), result.clone());
    assert_eq!(
        response.to_provider_response(),
        ProviderResponse {
            correlation_id: "abc-123".to_string(),
            result: ProviderResponsePayload::KeyboardResult(result),
        }
    );
}

#[test]
fn provider_response_of_a_cancelled_session() {
    let result = KeyboardSessionResponse { text: String::new(), canceled: true };
    let response = KeyboardProviderResponse::new(String::new(), result);
    let shared = response.to_provider_response();
    assert_eq!(shared.correlation_id, "");
    assert_eq!(
        shared.result,
        ProviderResponsePayload::KeyboardResult(KeyboardSessionResponse {
            text: String::new(),
            canceled: true
        })
    );
}

#[test]
fn keyboard_request_payload_round_trip() {
    let request = KeyboardSessionRequest {
        _type: KeyboardType::Password,
        ctx: keyboard_ctx(),
        message: "Enter your password".to_string(),
    };
    let payload = request.get_extn_payload();
    assert_eq!(payload, ExtnPayload::Request(ExtnRequest::Keyboard(request.clone())));
    assert_eq!(KeyboardSessionRequest::get_from_payload(payload), Some(request));
}

#[test]
fn keyboard_request_is_not_in_other_payloads() {
    let response = KeyboardSessionResponse { text: "x".to_string(), canceled: false };
    assert_eq!(KeyboardSessionRequest::get_from_payload(response.get_extn_payload()), None);
    let other = DeviceEventRequest {
        event: DeviceEvent::HdrChanged,
        subscribe: true,
        callback_type: DeviceEventCallback::ExtnEvent,
    };
    assert_eq!(KeyboardSessionRequest::get_from_payload(other.get_extn_payload()), None);
}

#[test]
fn keyboard_response_payload_round_trip() {
    let response = KeyboardSessionResponse { text: "secret".to_string(), canceled: false };
    let payload = response.get_extn_payload();
    assert_eq!(payload, ExtnPayload::Response(ExtnResponse::Keyboard(response.clone())));
    assert_eq!(KeyboardSessionResponse::get_from_payload(payload), Some(response));
}

#[test]
fn keyboard_response_is_not_in_other_payloads() {
    let request = KeyboardSessionRequest {
        _type: KeyboardType::Standard,
        ctx: keyboard_ctx(),
        message: String::new(),
    };
    assert_eq!(KeyboardSessionResponse::get_from_payload(request.get_extn_payload()), None);
    assert_eq!(
        KeyboardSessionResponse::get_from_payload(ExtnPayload::Response(ExtnResponse::Empty)),
        None
    );
    assert_eq!(
        KeyboardSessionResponse::get_from_payload(ExtnPayload::Response(ExtnResponse::Error(
            "busy".to_string()
        ))),
        None
    );
}

#[test]
fn keyboard_contracts() {
    assert_eq!(KeyboardSessionRequest::contract(), RippleContract::Keyboard);
    assert_eq!(KeyboardSessionResponse::contract(), RippleContract::Keyboard);
}

#[test]
fn clones_are_equal_to_their_source() {
    let ctx = keyboard_ctx();
    assert_eq!(ctx.clone(), ctx);
    let request =
        KeyboardSessionRequest { _type: KeyboardType::Email, ctx, message: "m".to_string() };
    assert_eq!(request.clone(), request);
}
