use ripple_core::ads::AccountSession;
use ripple_core::ads::AdIdResponse;
use ripple_core::ads::AdInitObjectResponse;
use ripple_core::ads::AdvertisingResponse;
use ripple_core::advertising::AdvertisingImpl;
use ripple_core::broker::resolve;
use ripple_core::broker::Arrival;
use ripple_core::broker::Broker;
use ripple_core::broker::BrokerError;
use ripple_core::broker::CorrelationId;
use ripple_core::contract::EventAdjective;
use ripple_core::contract::RippleContract;
use ripple_core::device_events::DeviceEvent;
use ripple_core::device_events::DeviceEventCallback;
use ripple_core::device_events::DeviceEventRequest;
use ripple_core::extn::ExtnPayload;
use ripple_core::extn::ExtnRequest;
use ripple_core::extn::ExtnResponse;
use ripple_core::extn::ResponseKind;
use ripple_core::gateway::ApiProtocol;
use ripple_core::gateway::CallContext;
use ripple_core::keyboard::KeyboardSessionRequest;
use ripple_core::keyboard::KeyboardSessionResponse;
use ripple_core::keyboard::KeyboardType;
use ripple_core::storage::StorageManager;
use ripple_core::storage::StorageProperty;

fn session() -> AccountSession {
    AccountSession {
        id: "id".to_string(),
        token: "token".to_string(),
        account_id: "account".to_string(),
        device_id: "device".to_string(),
    }
}

fn ctx(app_id: &str) -> CallContext {
    CallContext {
        session_id: format!("session-{}", app_id),
        request_id: "1".to_string(),
        app_id: app_id.to_string(),
        call_id: 1,
        protocol: ApiProtocol::JsonRpc,
        method: "m".to_string(),
    }
}

fn ad_id() -> AdIdResponse {
    AdIdResponse { ifa: "ifa".to_string(), ifa_type: "sessionId".to_string(), lmt: "0".to_string() }
}

fn ad_init() -> AdInitObjectResponse {
    AdInitObjectResponse {
        ad_server_url: "https://ads.example".to_string(),
        ad_server_url_template: "https://ads.example/{x}".to_string(),
        ad_network_id: "network".to_string(),
        ad_profile_id: "profile".to_string(),
        ad_site_section_id: "section".to_string(),
        ad_opt_out: false,
        privacy_data: "pd".to_string(),
        ifa_value: "value".to_string(),
        ifa: "01234567-89ab".to_string(),
        app_name: "Foo".to_string(),
        app_bundle_id: "foo.Comcast".to_string(),
        app_version: "1.0".to_string(),
        distributor_app_id: "dist".to_string(),
        device_ad_attributes: "e30=".to_string(),
        coppa: "0".to_string(),
        authentication_entity: "entity".to_string(),
    }
}

fn keyboard_request() -> ExtnRequest {
    ExtnRequest::Keyboard(KeyboardSessionRequest {
        _type: KeyboardType::Email,
        ctx: ctx("foo"),
        message: "m".to_string(),
    })
}

fn device_request() -> ExtnRequest {
    ExtnRequest::DeviceEvent(DeviceEventRequest {
        event: DeviceEvent::NetworkChanged,
        subscribe: true,
        callback_type: DeviceEventCallback::ExtnEvent,
    })
}

/// Every request of the library with the result that answers it.
fn matching_pairs() -> Vec<(RippleContract, ExtnRequest, ExtnResponse)> {
    vec![
        (
            RippleContract::Keyboard,
            keyboard_request(),
            ExtnResponse::Keyboard(KeyboardSessionResponse { text: "t".to_string(), canceled: false }),
        ),
        (RippleContract::DeviceEvents(EventAdjective::Network), device_request(), ExtnResponse::Empty),
        (
            RippleContract::Advertising,
            AdvertisingImpl::reset_identifier_request(session()),
            ExtnResponse::Empty,
        ),
        (
            RippleContract::Advertising,
            AdvertisingImpl::advertising_id_request(&ctx("foo"), session(), Vec::new()),
            ExtnResponse::Advertising(AdvertisingResponse::AdIdObject(ad_id())),
        ),
        (
            RippleContract::Advertising,
            AdvertisingImpl::config_request(
                &ctx("foo"),
                Default::default(),
                session(),
                Vec::new(),
                "dist".to_string(),
            ),
            ExtnResponse::Advertising(AdvertisingResponse::AdInitObject(ad_init())),
        ),
        (
            RippleContract::Storage,
            StorageManager::read_request(StorageProperty::SkipRestriction),
            ExtnResponse::Text("adsAll".to_string()),
        ),
        (
            RippleContract::Storage,
            StorageManager::write_request(StorageProperty::SkipRestriction, "adsAll".to_string()),
            ExtnResponse::Empty,
        ),
    ]
}

fn every_result() -> Vec<ExtnResponse> {
    vec![
        ExtnResponse::Empty,
        ExtnResponse::Text("text".to_string()),
        ExtnResponse::Keyboard(KeyboardSessionResponse { text: "t".to_string(), canceled: true }),
        ExtnResponse::Advertising(AdvertisingResponse::AdIdObject(ad_id())),
        ExtnResponse::Advertising(AdvertisingResponse::AdInitObject(ad_init())),
    ]
}

#[test]
fn send_returns_the_matching_response() {
    for (contract, request, response) in matching_pairs() {
        let mut broker = Broker::new();
        let expected = response_copy(&response);
        let r = broker.send(contract, request, Arrival::Response(response));
        assert_eq!(r, Ok(expected));
        assert_eq!(broker.pending_count(), 0);
    }
}

fn response_copy(r: &ExtnResponse) -> ExtnResponse {
    match r {
        ExtnResponse::Empty => ExtnResponse::Empty,
        ExtnResponse::Text(s) => ExtnResponse::Text(s.clone()),
        ExtnResponse::Keyboard(k) => ExtnResponse::Keyboard(k.clone()),
        ExtnResponse::Advertising(AdvertisingResponse::AdIdObject(_)) => {
            ExtnResponse::Advertising(AdvertisingResponse::AdIdObject(ad_id()))
        }
        ExtnResponse::Advertising(AdvertisingResponse::AdInitObject(_)) => {
            ExtnResponse::Advertising(AdvertisingResponse::AdInitObject(ad_init()))
        }
        ExtnResponse::Error(s) => ExtnResponse::Error(s.clone()),
    }
}

#[test]
fn send_refuses_every_mismatched_response() {
    let pairs = matching_pairs().len();
    let mut refused = 0;
    for index in 0..pairs {
        for injected in every_result() {
            let (contract, request, _) = matching_pairs().remove(index);
            let expects = request.expected_kind();
            if injected.get_kind() == Some(expects) {
                continue;
            }
            let mut broker = Broker::new();
            let r = broker.send(contract, request, Arrival::Response(injected));
            assert_eq!(r, Err(BrokerError::PayloadMismatch));
            assert_eq!(broker.pending_count(), 0);
            refused += 1;
        }
    }
    assert_eq!(refused, 7 * 4);
}

#[test]
fn send_reports_an_unreachable_extension() {
    let mut broker = Broker::new();
    let r = broker.send(RippleContract::Keyboard, keyboard_request(), Arrival::Unreachable);
    assert_eq!(r, Err(BrokerError::Unreachable));
}

#[test]
fn send_reports_a_timeout() {
    let mut broker = Broker::new();
    let r = broker.send(RippleContract::Keyboard, keyboard_request(), Arrival::Timeout);
    assert_eq!(r, Err(BrokerError::Timeout));
}

#[test]
fn send_reports_the_failure_of_the_extension() {
    let mut broker = Broker::new();
    let r = broker.send(
        RippleContract::Keyboard,
        keyboard_request(),
        Arrival::Response(ExtnResponse::Error("no keyboard attached".to_string())),
    );
    assert_eq!(r, Err(BrokerError::ExtensionError("no keyboard attached".to_string())));
}

#[test]
fn resolve_for_each_kind_of_arrival() {
    assert_eq!(
        resolve(ResponseKind::Text, Arrival::Response(ExtnResponse::Text("v".to_string()))),
        Ok(ExtnResponse::Text("v".to_string()))
    );
    assert_eq!(
        resolve(ResponseKind::Text, Arrival::Response(ExtnResponse::Empty)),
        Err(BrokerError::PayloadMismatch)
    );
    assert_eq!(
        resolve(ResponseKind::Empty, Arrival::Response(ExtnResponse::Error(String::new()))),
        Err(BrokerError::ExtensionError(String::new()))
    );
    assert_eq!(resolve(ResponseKind::Empty, Arrival::Unreachable), Err(BrokerError::Unreachable));
    assert_eq!(resolve(ResponseKind::Empty, Arrival::Timeout), Err(BrokerError::Timeout));
}

#[test]
fn expected_kind_of_each_request() {
    let kinds: Vec<ResponseKind> =
        matching_pairs().iter().map(|(_, request, _)| request.expected_kind()).collect();
    assert_eq!(
        kinds,
        vec![
            ResponseKind::Keyboard,
            ResponseKind::Empty,
            ResponseKind::Empty,
            ResponseKind::AdIdObject,
            ResponseKind::AdInitObject,
            ResponseKind::Text,
            ResponseKind::Empty,
        ]
    );
}

#[test]
fn kind_of_each_response() {
    let kinds: Vec<Option<ResponseKind>> = every_result().iter().map(|r| r.get_kind()).collect();
    assert_eq!(
        kinds,
        vec![
            Some(ResponseKind::Empty),
            Some(ResponseKind::Text),
            Some(ResponseKind::Keyboard),
            Some(ResponseKind::AdIdObject),
            Some(ResponseKind::AdInitObject),
        ]
    );
    assert_eq!(ExtnResponse::Error("e".to_string()).get_kind(), None);
}

#[test]
fn owner_of_each_request() {
    for (contract, request, _) in matching_pairs() {
        assert_eq!(request.get_contract(), contract);
    }
}

#[test]
fn open_hands_out_the_message_to_dispatch() {
    let mut broker = Broker::new();
    let message = broker.open(RippleContract::Keyboard, keyboard_request());
    assert_eq!(message.id, CorrelationId(0));
    assert_eq!(message.target, RippleContract::Keyboard);
    assert_eq!(message.payload, ExtnPayload::Request(keyboard_request()));
    assert!(broker.is_pending(message.id));
    assert_eq!(broker.pending_count(), 1);
}

#[test]
fn correlation_ids_are_never_reused() {
    let mut broker = Broker::new();
    let mut seen: Vec<CorrelationId> = Vec::new();
    for round in 0..50 {
        assert!(!broker.exhausted());
        let message = broker.open(RippleContract::Keyboard, keyboard_request());
        assert!(!seen.contains(&message.id));
        seen.push(message.id);
        if round % 3 == 0 {
            let closed = broker.close(message.id, Arrival::Timeout);
            assert_eq!(closed, Some(Err(BrokerError::Timeout)));
        }
    }
    assert_eq!(seen.len(), 50);
    assert_eq!(broker.pending_count(), 33);
}

#[test]
fn concurrent_callers_receive_only_their_own_response() {
    let mut broker = Broker::new();
    let a = broker.open(RippleContract::Keyboard, keyboard_request());
    let b = broker.open(
        RippleContract::Storage,
        StorageManager::read_request(StorageProperty::SkipRestriction),
    );
    let c = broker.open(RippleContract::Advertising, AdvertisingImpl::reset_identifier_request(session()));
    assert_ne!(a.id, b.id);
    assert_ne!(b.id, c.id);
    assert_ne!(a.id, c.id);
    // The responses arrive in another order than the requests left.
    let for_c = broker.close(c.id, Arrival::Response(ExtnResponse::Empty));
    let for_a = broker.close(
        a.id,
        Arrival::Response(ExtnResponse::Keyboard(KeyboardSessionResponse {
            text: "a".to_string(),
            canceled: false,
        })),
    );
    let for_b = broker.close(b.id, Arrival::Response(ExtnResponse::Text("b".to_string())));
    assert_eq!(for_c, Some(Ok(ExtnResponse::Empty)));
    assert_eq!(
        for_a,
        Some(Ok(ExtnResponse::Keyboard(KeyboardSessionResponse {
            text: "a".to_string(),
            canceled: false
        })))
    );
    assert_eq!(for_b, Some(Ok(ExtnResponse::Text("b".to_string()))));
    assert_eq!(broker.pending_count(), 0);
}

#[test]
fn every_interleaving_of_three_calls_gives_the_same_outcomes() {
    let orders: [[usize; 3]; 6] =
        [[0, 1, 2], [0, 2, 1], [1, 0, 2], [1, 2, 0], [2, 0, 1], [2, 1, 0]];
    for order in orders {
        let mut broker = Broker::new();
        let ids = [
            broker.open(RippleContract::Keyboard, keyboard_request()).id,
            broker
                .open(
                    RippleContract::Storage,
                    StorageManager::read_request(StorageProperty::SkipRestriction),
                )
                .id,
            broker.open(RippleContract::DeviceEvents(EventAdjective::Network), device_request()).id,
        ];
        let mut outcomes: Vec<Option<Result<ExtnResponse, BrokerError>>> = vec![None, None, None];
        for caller in order {
            // Each caller is answered with a text that carries its own number;
            // only the storage call expects a text.
            let arrival = Arrival::Response(ExtnResponse::Text(format!("for-{}", caller)));
            outcomes[caller] = broker.close(ids[caller], arrival);
        }
        assert_eq!(outcomes[0], Some(Err(BrokerError::PayloadMismatch)));
        assert_eq!(outcomes[1], Some(Ok(ExtnResponse::Text("for-1".to_string()))));
        assert_eq!(outcomes[2], Some(Err(BrokerError::PayloadMismatch)));
        assert_eq!(broker.pending_count(), 0);
    }
}

#[test]
fn a_call_is_closed_once() {
    let mut broker = Broker::new();
    let message = broker.open(RippleContract::Keyboard, keyboard_request());
    assert_eq!(broker.close(message.id, Arrival::Timeout), Some(Err(BrokerError::Timeout)));
    assert!(!broker.is_pending(message.id));
    // A late response finds no caller and changes nothing.
    assert_eq!(broker.close(message.id, Arrival::Response(ExtnResponse::Empty)), None);
    assert_eq!(broker.pending_count(), 0);
}

#[test]
fn closing_an_unknown_call_changes_nothing() {
    let mut broker = Broker::new();
    let message = broker.open(RippleContract::Keyboard, keyboard_request());
    assert_eq!(broker.close(CorrelationId(99), Arrival::Unreachable), None);
    assert!(broker.is_pending(message.id));
    assert_eq!(broker.pending_count(), 1);
}

#[test]
fn a_timeout_leaves_no_entry_behind() {
    let mut broker = Broker::new();
    for _ in 0..10 {
        let message = broker.open(RippleContract::Keyboard, keyboard_request());
        let _ = broker.close(message.id, Arrival::Timeout);
    }
    assert_eq!(broker.pending_count(), 0);
}

#[test]
fn a_new_broker_is_idle() {
    let broker = Broker::new();
    assert_eq!(broker.pending_count(), 0);
    assert!(!broker.exhausted());
    assert!(!broker.is_pending(CorrelationId(0)));
}
