use ripple_core::advertising::AdvertisingImpl;
use ripple_core::advertising::AdvertisingPolicy;
use ripple_core::advertising::AdvertisingRPCProvider;
use ripple_core::advertising::AdvertisingError;
use ripple_core::advertising::SetSkipRestrictionRequest;
use ripple_core::advertising::SkipRestriction;
use ripple_core::broker::BrokerError;
use ripple_core::extn::ExtnRequest;
use ripple_core::extn::ExtnResponse;
use ripple_core::platform::PlatformState;
use ripple_core::storage::PersistError;
use ripple_core::storage::Storage;
use ripple_core::storage::StorageError;
use ripple_core::storage::StorageManager;
use ripple_core::storage::StorageProperty;
use ripple_core::storage::StorageRequest;
use ripple_core::storage::EVENT_ADVERTISING_POLICY_CHANGED;
use ripple_core::storage::EVENT_ADVERTISING_SKIP_RESTRICTION_CHANGED;

#[test]
fn skip_restriction_names() {
    assert_eq!(SkipRestriction::Unrestricted.as_string(), "none");
    assert_eq!(SkipRestriction::AdsUnwatched.as_string(), "adsUnwatched");
    assert_eq!(SkipRestriction::AdsAll.as_string(), "adsAll");
    assert_eq!(SkipRestriction::All.as_string(), "all");
}

#[test]
fn default_of_the_skip_restriction() {
    assert_eq!(StorageProperty::SkipRestriction.default_string(), "none");
}

#[test]
fn advertising_event_names() {
    assert_eq!(EVENT_ADVERTISING_POLICY_CHANGED, "advertising.onPolicyChanged");
    assert_eq!(EVENT_ADVERTISING_SKIP_RESTRICTION_CHANGED, "advertising.onSkipRestrictionChanged");
}

#[test]
fn get_returns_the_default_when_the_key_is_absent() {
    let state = PlatformState::new(Storage::new());
    assert_eq!(state.storage.get_string(StorageProperty::SkipRestriction), Err(StorageError::NotFound));
    assert_eq!(StorageManager::get(&state, StorageProperty::SkipRestriction), "none");
}

#[test]
fn get_returns_the_default_when_the_backend_fails() {
    let state = PlatformState::new(Storage::unavailable());
    assert_eq!(
        state.storage.get_string(StorageProperty::SkipRestriction),
        Err(StorageError::Unavailable)
    );
    assert_eq!(StorageManager::get(&state, StorageProperty::SkipRestriction), "none");
}

#[test]
fn get_returns_the_default_when_the_backend_fails_over_a_stored_value() {
    let state = PlatformState::new(Storage {
        available: false,
        skip_restriction: Some("adsAll".to_string()),
    });
    assert_eq!(StorageManager::get(&state, StorageProperty::SkipRestriction), "none");
}

#[test]
fn set_then_get_returns_the_written_value() {
    let mut state = PlatformState::new(Storage::new());
    for value in ["adsAll", "adsUnwatched", "all", "none", ""] {
        assert_eq!(
            StorageManager::set(&mut state, StorageProperty::SkipRestriction, value.to_string()),
            Ok(())
        );
        assert_eq!(StorageManager::get(&state, StorageProperty::SkipRestriction), value);
        assert_eq!(
            state.storage.get_string(StorageProperty::SkipRestriction),
            Ok(value.to_string())
        );
    }
}

#[test]
fn set_reports_a_failed_write() {
    let mut state = PlatformState::new(Storage::unavailable());
    assert_eq!(
        StorageManager::set(&mut state, StorageProperty::SkipRestriction, "adsAll".to_string()),
        Err(PersistError)
    );
    assert_eq!(state, PlatformState::new(Storage::unavailable()));
    assert_eq!(StorageManager::get(&state, StorageProperty::SkipRestriction), "none");
}

#[test]
fn storage_write_fails_when_unavailable() {
    let mut storage = Storage::unavailable();
    assert_eq!(
        storage.set_string(StorageProperty::SkipRestriction, "all".to_string()),
        Err(StorageError::Unavailable)
    );
    assert_eq!(storage, Storage::unavailable());
}

#[test]
fn storage_requests_for_the_broker() {
    assert_eq!(
        StorageManager::read_request(StorageProperty::SkipRestriction),
        ExtnRequest::Storage(StorageRequest::Read(StorageProperty::SkipRestriction))
    );
    assert_eq!(
        StorageManager::write_request(StorageProperty::SkipRestriction, "all".to_string()),
        ExtnRequest::Storage(StorageRequest::Write(StorageProperty::SkipRestriction, "all".to_string()))
    );
}

#[test]
fn value_from_reply_is_the_text_that_came_back() {
    assert_eq!(
        StorageManager::value_from_reply(
            StorageProperty::SkipRestriction,
            Ok(ExtnResponse::Text("adsUnwatched".to_string()))
        ),
        "adsUnwatched"
    );
}

#[test]
fn value_from_reply_is_the_default_for_every_failure() {
    let failures = vec![
        Err(BrokerError::Unreachable),
        Err(BrokerError::Timeout),
        Err(BrokerError::PayloadMismatch),
        Err(BrokerError::ExtensionError("disk full".to_string())),
        Ok(ExtnResponse::Empty),
        Ok(ExtnResponse::Error("e".to_string())),
    ];
    for reply in failures {
        assert_eq!(StorageManager::value_from_reply(StorageProperty::SkipRestriction, reply), "none");
    }
}

#[test]
fn persisted_from_reply_accepts_only_the_empty_result() {
    assert_eq!(StorageManager::persisted_from_reply(Ok(ExtnResponse::Empty)), Ok(()));
    assert_eq!(
        StorageManager::persisted_from_reply(Ok(ExtnResponse::Text("ok".to_string()))),
        Err(PersistError)
    );
    assert_eq!(StorageManager::persisted_from_reply(Err(BrokerError::Timeout)), Err(PersistError));
    assert_eq!(StorageManager::persisted_from_reply(Err(BrokerError::Unreachable)), Err(PersistError));
}

#[test]
fn policy_reads_the_skip_restriction_with_its_default() {
    let handler = AdvertisingRPCProvider::provide(PlatformState::new(Storage::unavailable()));
    assert_eq!(
        handler.policy(true),
        AdvertisingPolicy { skip_restriction: "none".to_string(), limit_ad_tracking: true }
    );
    let handler = AdvertisingRPCProvider::provide(PlatformState::new(Storage {
        available: true,
        skip_restriction: Some("all".to_string()),
    }));
    assert_eq!(
        handler.policy(false),
        AdvertisingPolicy { skip_restriction: "all".to_string(), limit_ad_tracking: false }
    );
}

#[test]
fn skip_restriction_method_round_trip() {
    let mut handler = AdvertisingRPCProvider::provide(PlatformState::new(Storage::new()));
    assert_eq!(handler.advertising_skip_restriction(), Ok("none".to_string()));
    for (value, name) in [
        (SkipRestriction::AdsAll, "adsAll"),
        (SkipRestriction::AdsUnwatched, "adsUnwatched"),
        (SkipRestriction::All, "all"),
        (SkipRestriction::Unrestricted, "none"),
    ] {
        assert_eq!(handler.advertising_set_skip_restriction(SetSkipRestrictionRequest { value }), Ok(()));
        assert_eq!(handler.advertising_skip_restriction(), Ok(name.to_string()));
        assert_eq!(handler.policy(false).skip_restriction, name);
    }
}

#[test]
fn set_skip_restriction_reports_a_failed_write() {
    let mut handler: AdvertisingImpl =
        AdvertisingRPCProvider::provide(PlatformState::new(Storage::unavailable()));
    assert_eq!(
        handler.advertising_set_skip_restriction(SetSkipRestrictionRequest {
            value: SkipRestriction::AdsAll
        }),
        Err(AdvertisingError::NotPersisted)
    );
    assert_eq!(handler.advertising_skip_restriction(), Ok("none".to_string()));
}

#[test]
fn storage_as_a_reply_shows_it() {
    let seen = Storage::from_reply(Ok(ExtnResponse::Text("adsAll".to_string())));
    assert_eq!(seen, Storage { available: true, skip_restriction: Some("adsAll".to_string()) });
    assert_eq!(StorageManager::get(&PlatformState::new(seen), StorageProperty::SkipRestriction), "adsAll");
    for reply in [Err(BrokerError::Timeout), Err(BrokerError::Unreachable), Ok(ExtnResponse::Empty)] {
        let seen = Storage::from_reply(reply);
        assert_eq!(seen, Storage::unavailable());
        assert_eq!(StorageManager::get(&PlatformState::new(seen), StorageProperty::SkipRestriction), "none");
    }
}
