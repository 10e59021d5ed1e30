//! The advertising methods: what each one asks of the advertising
//! extension and of the storage, and what it makes of the answer.

use vstd::prelude::*;
use serde_json::Value;
use vstd::string::StringExecFns;
use vstd::utf8::decode_utf8;
use vstd::utf8::encode_utf8;
use vstd::utf8::valid_utf8;
use crate::ads::AccountSession;
use crate::ads::AdIdRequestParams;
use crate::ads::AdInitObjectRequestParams;
use crate::ads::AdInitObjectResponse;
use crate::ads::AdvertisingFrameworkConfig;
use crate::ads::AdvertisingRequest;
use crate::ads::AdvertisingResponse;
use crate::ads::GetAdConfig;
use crate::ads::ListenRequest;
use crate::ads::ListenerResponse;
use crate::app_events::subscribed;
use crate::app_events::unsubscribed;
use crate::app_events::AppEvents;
use crate::app_events::DecorationFailed;
use crate::app_events::Decorator;
use crate::app_events::Subscription;
use crate::broker::BrokerError;
use crate::codec::base64_decode;
use crate::codec::base64_decoded;
use crate::codec::from_str;
use crate::codec::json_parsed;
use crate::codec::json_string;
use crate::codec::string_from_utf8;
use crate::codec::to_value;
use crate::codec::trim;
use crate::codec::trimmed;
use crate::extn::ExtnRequest;
use crate::extn::ExtnResponse;
use crate::gateway::CallContext;
use crate::platform::PlatformState;
use crate::storage::StorageManager;
use crate::storage::StorageProperty;
use crate::storage::EVENT_ADVERTISING_POLICY_CHANGED;
use crate::storage::EVENT_ADVERTISING_SKIP_RESTRICTION_CHANGED;
use crate::text::decimal_u32;
use crate::text::parse_u32;
use crate::text::zeros;
use crate::text::zeros_spec;

verus! {

/// The payload of a skip-restriction event: the restriction currently in
/// force, as a JSON string.
pub open spec fn skip_restriction_payload(ps: PlatformState) -> Value {
    json_string(ps.storage.value(StorageProperty::SkipRestriction))
}

/// Reads the skip restriction in force and wraps it as an event payload.
fn current_skip_restriction(ps: &PlatformState) -> (r: Result<Value, DecorationFailed>)
    ensures
        r == Ok::<Value, DecorationFailed>(skip_restriction_payload(*ps)),
{
    let sr = StorageManager::get(ps, StorageProperty::SkipRestriction);
    match to_value(sr) {
        Ok(v) => Ok(v),
        Err(_) => Err(DecorationFailed { reason: "the value could not be serialised".to_owned() }),
    }
}

/// Decorates a policy event: the payload delivered is the skip restriction
/// in force when the event is delivered, whatever value triggered it.
#[derive(Clone, Copy, Debug, PartialEq, Eq)]
pub struct AdvertisingPolicyEventDecorator {}

impl AdvertisingPolicyEventDecorator {
    pub fn decorate(
        &self,
        ps: &PlatformState,
        _ctx: &CallContext,
        _event_name: &str,
        _val_in: &Value,
    ) -> (r: Result<Value, DecorationFailed>)
        ensures
            r == Ok::<Value, DecorationFailed>(skip_restriction_payload(*ps)),
    {
        current_skip_restriction(ps)
    }
}

/// Decorates a skip-restriction event: the payload delivered is the skip
/// restriction in force when the event is delivered, whatever value
/// triggered it. A failed read of the setting is no failure of the
/// decoration: the default of the setting is delivered.
#[derive(Clone, Copy, Debug, PartialEq, Eq)]
pub struct AdvertisingSetRestrictionEventDecorator {}

impl AdvertisingSetRestrictionEventDecorator {
    pub fn decorate(
        &self,
        ps: &PlatformState,
        _ctx: &CallContext,
        _event_name: &str,
        _val_in: &Value,
    ) -> (r: Result<Value, DecorationFailed>)
        ensures
            r == Ok::<Value, DecorationFailed>(skip_restriction_payload(*ps)),
    {
        current_skip_restriction(ps)
    }
}

pub const ADVERTISING_APP_BUNDLE_ID_SUFFIX: &'static str = "Comcast";

/// The advertising identifier as an application sees it.
#[derive(Debug, PartialEq, Eq)]
pub struct AdvertisingId {
    pub ifa: String,
    pub ifa_type: String,
    pub lmt: String,
}

/// The advertising policy in force.
#[derive(Debug, PartialEq, Eq)]
pub struct AdvertisingPolicy {
    pub skip_restriction: String,
    pub limit_ad_tracking: bool,
}

/// Which advertisements a viewer may skip.
#[derive(Clone, Copy, Debug, PartialEq, Eq, Structural)]
pub enum SkipRestriction {
    Unrestricted,
    AdsUnwatched,
    AdsAll,
    All,
}

impl SkipRestriction {
    /// The name of the restriction as it is persisted and delivered.
    pub open spec fn name(self) -> Seq<char> {
        match self {
            SkipRestriction::Unrestricted => "none"@,
            SkipRestriction::AdsUnwatched => "adsUnwatched"@,
            SkipRestriction::AdsAll => "adsAll"@,
            SkipRestriction::All => "all"@,
        }
    }

    /// The name of the restriction.
    pub fn as_string(&self) -> (r: &'static str)
        ensures
            r@ == self.name(),
    {
        match self {
            SkipRestriction::Unrestricted => "none",
            SkipRestriction::AdsUnwatched => "adsUnwatched",
            SkipRestriction::AdsAll => "adsAll",
            SkipRestriction::All => "all",
        }
    }
}

/// The parameters of a call that sets the skip restriction.
#[derive(Clone, Copy, Debug, PartialEq, Eq)]
pub struct SetSkipRestrictionRequest {
    pub value: SkipRestriction,
}

/// Why an advertising method failed.
#[derive(Clone, Copy, Debug, PartialEq, Eq, Structural)]
pub enum AdvertisingError {
    ResetFailed,
    ResetRefused,
    AdInitObjectUnavailable,
    AdInitObjectMissing,
    AdInitObjectInvalid,
    InvalidUtf8,
    InvalidJson,
    NotPersisted,
}

impl AdvertisingError {
    /// The text that the caller is shown for this failure.
    pub open spec fn text(self) -> Seq<char> {
        match self {
            AdvertisingError::ResetFailed => "Could not reset ad identifier for the device"@,
            AdvertisingError::ResetRefused => "Device returned Unable to reset ad identifier"@,
            AdvertisingError::AdInitObjectUnavailable => {
                "Could not get ad init object from the device"@
            },
            AdvertisingError::AdInitObjectMissing => {
                "Failed to extract ad init object from response"@
            },
            AdvertisingError::AdInitObjectInvalid => {
                "Device returned an invalid type for ad init object"@
            },
            AdvertisingError::InvalidUtf8 => "Found invalid UTF-8"@,
            AdvertisingError::InvalidJson => "Invalid JSON"@,
            AdvertisingError::NotPersisted => "Could not persist the skip restriction"@,
        }
    }

    /// The text that the caller is shown for this failure.
    pub fn message(&self) -> (r: &'static str)
        ensures
            r@ == self.text(),
    {
        match self {
            AdvertisingError::ResetFailed => "Could not reset ad identifier for the device",
            AdvertisingError::ResetRefused => "Device returned Unable to reset ad identifier",
            AdvertisingError::AdInitObjectUnavailable => {
                "Could not get ad init object from the device"
            },
            AdvertisingError::AdInitObjectMissing => {
                "Failed to extract ad init object from response"
            },
            AdvertisingError::AdInitObjectInvalid => {
                "Device returned an invalid type for ad init object"
            },
            AdvertisingError::InvalidUtf8 => "Found invalid UTF-8",
            AdvertisingError::InvalidJson => "Invalid JSON",
            AdvertisingError::NotPersisted => "Could not persist the skip restriction",
        }
    }
}

/// Whether `config` is the configuration that an application is shown for
/// the object `obj` of the extension: every field is handed on, except that
/// the site section is empty, that `coppa` is the number `coppa`, and that
/// an application without the right to the advertising identifier sees a
/// zero in place of each byte of it.
pub open spec fn config_shown(
    obj: AdInitObjectResponse,
    ad_id_authorised: bool,
    coppa: u32,
    config: AdvertisingFrameworkConfig,
) -> bool {
    &&& config.ad_server_url == obj.ad_server_url
    &&& config.ad_server_url_template == obj.ad_server_url_template
    &&& config.ad_network_id == obj.ad_network_id
    &&& config.ad_profile_id == obj.ad_profile_id
    &&& config.ad_site_section_id@ == Seq::<char>::empty()
    &&& config.ad_opt_out == obj.ad_opt_out
    &&& config.privacy_data == obj.privacy_data
    &&& config.ifa_value == obj.ifa_value
    &&& if ad_id_authorised {
        config.ifa == obj.ifa
    } else {
        config.ifa@ == zeros_spec(encode_utf8(obj.ifa@).len())
    }
    &&& config.app_name == obj.app_name
    &&& config.app_bundle_id == obj.app_bundle_id
    &&& config.distributor_app_id == obj.distributor_app_id
    &&& config.device_ad_attributes == obj.device_ad_attributes
    &&& config.coppa == coppa
    &&& config.authentication_entity == obj.authentication_entity
}

/// The text of the attribute document inside `bytes`: the bytes as UTF-8,
/// where `blank` says that the text holds nothing but white space, the
/// empty JSON object instead.
pub open spec fn document_of(bytes: Seq<u8>, blank: bool) -> Result<Seq<char>, AdvertisingError> {
    if !valid_utf8(bytes) {
        Err(AdvertisingError::InvalidUtf8)
    } else if blank {
        Ok("{}"@)
    } else {
        Ok(decode_utf8(bytes))
    }
}

/// The attributes that the text `encoded` stands for: base64 is undone
/// (text that is no base64 counts as no bytes at all), the bytes are read
/// as UTF-8, a blank text counts as the empty object, and the text is
/// read as JSON.
pub open spec fn attributes_of(encoded: Seq<char>) -> Result<Value, AdvertisingError> {
    let bytes = match base64_decoded(encoded) {
        Some(b) => b,
        None => Seq::<u8>::empty(),
    };
    match document_of(bytes, trimmed(decode_utf8(bytes)).len() == 0) {
        Err(e) => Err(e),
        Ok(text) => match json_parsed(text) {
            Some(v) => Ok(v),
            None => Err(AdvertisingError::InvalidJson),
        },
    }
}

/// The advertising methods over one platform.
#[derive(Debug, PartialEq, Eq)]
pub struct AdvertisingImpl {
    pub state: PlatformState,
}

impl AdvertisingImpl {
    /// The request that resets the advertising identifier of `session`.
    pub fn reset_identifier_request(session: AccountSession) -> (r: ExtnRequest)
        ensures
            r == ExtnRequest::Advertising(AdvertisingRequest::ResetAdIdentifier(session)),
    {
        ExtnRequest::Advertising(AdvertisingRequest::ResetAdIdentifier(session))
    }

    /// What the reply to a reset means: only the empty result is success.
    pub fn reset_identifier(reply: Result<ExtnResponse, BrokerError>) -> (r: Result<
        (),
        AdvertisingError,
    >)
        ensures
            r == (match reply {
                Err(_) => Err::<(), AdvertisingError>(AdvertisingError::ResetFailed),
                Ok(ExtnResponse::Empty) => Ok::<(), AdvertisingError>(()),
                Ok(_) => Err::<(), AdvertisingError>(AdvertisingError::ResetRefused),
            }),
    {
        match reply {
            Err(_) => Err(AdvertisingError::ResetFailed),
            Ok(payload) => match payload {
                ExtnResponse::Empty => Ok(()),
                _ => Err(AdvertisingError::ResetRefused),
            },
        }
    }

    /// The request for the advertising identifier of the calling application.
    pub fn advertising_id_request(
        ctx: &CallContext,
        session: AccountSession,
        privacy_data: Vec<(String, String)>,
    ) -> (r: ExtnRequest)
        ensures
            r matches ExtnRequest::Advertising(AdvertisingRequest::GetAdIdObject(params))
                && params.privacy_data == privacy_data && params.app_id@ == ctx.app_id@
                && params.dist_session == session,
    {
        ExtnRequest::Advertising(
            AdvertisingRequest::GetAdIdObject(
                AdIdRequestParams {
                    privacy_data,
                    app_id: ctx.app_id.as_str().to_owned(),
                    dist_session: session,
                },
            ),
        )
    }

    /// The advertising identifier in the reply, field by field.
    pub fn advertising_id(reply: Result<ExtnResponse, BrokerError>) -> (r: Result<
        AdvertisingId,
        AdvertisingError,
    >)
        ensures
            r == (match reply {
                Err(_) => Err::<AdvertisingId, AdvertisingError>(
                    AdvertisingError::AdInitObjectUnavailable,
                ),
                Ok(ExtnResponse::Advertising(AdvertisingResponse::AdIdObject(obj))) => Ok::<
                    AdvertisingId,
                    AdvertisingError,
                >((AdvertisingId { ifa: obj.ifa, ifa_type: obj.ifa_type, lmt: obj.lmt })),
                Ok(_) => Err::<AdvertisingId, AdvertisingError>(
                    AdvertisingError::AdInitObjectMissing,
                ),
            }),
    {
        match reply {
            Err(_) => Err(AdvertisingError::AdInitObjectUnavailable),
            Ok(payload) => match payload {
                ExtnResponse::Advertising(AdvertisingResponse::AdIdObject(obj)) => Ok(
                    AdvertisingId { ifa: obj.ifa, ifa_type: obj.ifa_type, lmt: obj.lmt },
                ),
                _ => Err(AdvertisingError::AdInitObjectMissing),
            },
        }
    }

    /// The bundle identifier of the calling application: its identifier, a
    /// dot and the suffix.
    pub fn app_bundle_id(ctx: CallContext) -> (r: Result<String, AdvertisingError>)
        ensures
            r matches Ok(s) && s@ == ctx.app_id@ + "."@ + "Comcast"@,
    {
        let mut out = ctx.app_id;
        out.append(".");
        out.append(ADVERTISING_APP_BUNDLE_ID_SUFFIX);
        Ok(out)
    }

    /// The request for the advertising configuration of the calling
    /// application. Options left open take their defaults: no child
    /// protection, no authentication entity.
    pub fn config_request(
        ctx: &CallContext,
        config: GetAdConfig,
        session: AccountSession,
        privacy_data: Vec<(String, String)>,
        distributor_experience_id: String,
    ) -> (r: ExtnRequest)
        ensures
            r matches ExtnRequest::Advertising(AdvertisingRequest::GetAdInitObject(params))
                && params.privacy_data == privacy_data && params.environment@
                == config.options.environment.name() && params.durable_app_id@ == ctx.app_id@
                && params.app_version@ == Seq::<char>::empty() && params.distributor_app_id
                == distributor_experience_id && params.device_ad_attributes@ == Seq::<
                (String, String),
            >::empty() && params.coppa == (match config.options.coppa {
                Some(c) => c,
                None => false,
            }) && params.authentication_entity@ == (match config.options.authentication_entity {
                Some(e) => e@,
                None => Seq::<char>::empty(),
            }) && params.dist_session == session,
    {
        let coppa = match config.options.coppa {
            Some(c) => c,
            None => false,
        };
        let authentication_entity = match config.options.authentication_entity {
            Some(e) => e,
            None => String::new(),
        };
        ExtnRequest::Advertising(
            AdvertisingRequest::GetAdInitObject(
                AdInitObjectRequestParams {
                    privacy_data,
                    environment: config.options.environment.as_string().to_owned(),
                    durable_app_id: ctx.app_id.as_str().to_owned(),
                    app_version: String::new(),
                    distributor_app_id: distributor_experience_id,
                    device_ad_attributes: Vec::new(),
                    coppa,
                    authentication_entity,
                    dist_session: session,
                },
            ),
        )
    }

    /// The advertising configuration in the reply, as the calling
    /// application may see it. `ad_id_authorised` says whether the
    /// application holds the right to the advertising identifier; without
    /// it the identifier is masked. An object whose `coppa` is no decimal
    /// number is refused like a result of the wrong shape.
    pub fn config(reply: Result<ExtnResponse, BrokerError>, ad_id_authorised: bool) -> (r: Result<
        AdvertisingFrameworkConfig,
        AdvertisingError,
    >)
        ensures
            reply is Err ==> r == Err::<AdvertisingFrameworkConfig, AdvertisingError>(
                AdvertisingError::AdInitObjectUnavailable,
            ),
            reply matches Ok(response) ==> (match response {
                ExtnResponse::Advertising(AdvertisingResponse::AdInitObject(obj)) => match decimal_u32(
                    obj.coppa@,
                ) {
                    Some(coppa) => r matches Ok(config) && config_shown(
                        obj,
                        ad_id_authorised,
                        coppa,
                        config,
                    ),
                    None => r == Err::<AdvertisingFrameworkConfig, AdvertisingError>(
                        AdvertisingError::AdInitObjectInvalid,
                    ),
                },
                _ => r == Err::<AdvertisingFrameworkConfig, AdvertisingError>(
                    AdvertisingError::AdInitObjectInvalid,
                ),
            }),
    {
        match reply {
            Err(_) => Err(AdvertisingError::AdInitObjectUnavailable),
            Ok(payload) => match payload {
                ExtnResponse::Advertising(AdvertisingResponse::AdInitObject(obj)) => {
                    let coppa = match parse_u32(obj.coppa.as_str()) {
                        Some(c) => c,
                        None => {
                            return Err(AdvertisingError::AdInitObjectInvalid);
                        },
                    };
                    let ifa = if ad_id_authorised {
                        obj.ifa
                    } else {
                        zeros(obj.ifa.as_str().as_bytes().len())
                    };
                    Ok(
                        AdvertisingFrameworkConfig {
                            ad_server_url: obj.ad_server_url,
                            ad_server_url_template: obj.ad_server_url_template,
                            ad_network_id: obj.ad_network_id,
                            ad_profile_id: obj.ad_profile_id,
                            ad_site_section_id: String::new(),
                            ad_opt_out: obj.ad_opt_out,
                            privacy_data: obj.privacy_data,
                            ifa,
                            ifa_value: obj.ifa_value,
                            app_name: obj.app_name,
                            app_bundle_id: obj.app_bundle_id,
                            distributor_app_id: obj.distributor_app_id,
                            device_ad_attributes: obj.device_ad_attributes,
                            coppa,
                            authentication_entity: obj.authentication_entity,
                        },
                    )
                },
                _ => Err(AdvertisingError::AdInitObjectInvalid),
            },
        }
    }

    /// The text of the attribute document: `text` as it is, the empty JSON
    /// object where `blank` says that it holds nothing but white space, and
    /// a failure where the bytes were no UTF-8 and there is no text.
    pub fn attributes_document(text: Option<String>, blank: bool) -> (r: Result<
        String,
        AdvertisingError,
    >)
        ensures
            text is None ==> r == Err::<String, AdvertisingError>(AdvertisingError::InvalidUtf8),
            text matches Some(t) ==> r matches Ok(doc) && doc@ == (if blank {
                "{}"@
            } else {
                t@
            }),
    {
        match text {
            None => Err(AdvertisingError::InvalidUtf8),
            Some(t) => if blank {
                Ok("{}".to_owned())
            } else {
                Ok(t)
            },
        }
    }

    /// The attributes read from the document, or the failure to read any.
    pub fn attributes_value(parsed: Result<Value, serde_json::Error>) -> (r: Result<
        Value,
        AdvertisingError,
    >)
        ensures
            r == (match parsed {
                Ok(v) => Ok::<Value, AdvertisingError>(v),
                Err(_) => Err::<Value, AdvertisingError>(AdvertisingError::InvalidJson),
            }),
    {
        match parsed {
            Ok(js) => Ok(js),
            Err(_) => Err(AdvertisingError::InvalidJson),
        }
    }

    /// The device attributes of a configuration, which it carries as JSON
    /// in base64.
    pub fn device_attributes(afc: &AdvertisingFrameworkConfig) -> (r: Result<
        Value,
        AdvertisingError,
    >)
        ensures
            r == attributes_of(afc.device_ad_attributes@),
    {
        let buff = match base64_decode(afc.device_ad_attributes.as_str()) {
            Ok(bytes) => bytes,
            Err(_) => Vec::new(),
        };
        let text = string_from_utf8(buff);
        let blank = match &text {
            Some(b_string) => trim(b_string.as_str()).is_empty(),
            None => false,
        };
        match AdvertisingImpl::attributes_document(text, blank) {
            Err(e) => Err(e),
            Ok(document) => AdvertisingImpl::attributes_value(from_str(document.as_str())),
        }
    }

    /// The advertising policy in force: the skip restriction as persisted,
    /// its default where it cannot be read, and the tracking limit given.
    pub fn policy(&self, limit_ad_tracking: bool) -> (r: AdvertisingPolicy)
        ensures
            r.skip_restriction@ == self.state.storage.value(StorageProperty::SkipRestriction),
            r.limit_ad_tracking == limit_ad_tracking,
    {
        let sr = StorageManager::get(&self.state, StorageProperty::SkipRestriction);
        AdvertisingPolicy { skip_restriction: sr, limit_ad_tracking }
    }

    /// Persists the skip restriction. A failed write is reported.
    pub fn advertising_set_skip_restriction(
        &mut self,
        set_request: SetSkipRestrictionRequest,
    ) -> (r: Result<(), AdvertisingError>)
        ensures
            old(self).state.storage.available ==> r is Ok && final(self).state.storage.available
                && final(self).state.storage.value(StorageProperty::SkipRestriction)
                == set_request.value.name(),
            !old(self).state.storage.available ==> r == Err::<(), AdvertisingError>(
                AdvertisingError::NotPersisted,
            ) && *final(self) == *old(self),
    {
        let value = set_request.value.as_string().to_owned();
        match StorageManager::set(&mut self.state, StorageProperty::SkipRestriction, value) {
            Ok(()) => Ok(()),
            Err(_) => Err(AdvertisingError::NotPersisted),
        }
    }

    /// The skip restriction in force; its default where it cannot be read.
    pub fn advertising_skip_restriction(&self) -> (r: Result<String, AdvertisingError>)
        ensures
            r matches Ok(s) && s@ == self.state.storage.value(StorageProperty::SkipRestriction),
    {
        Ok(StorageManager::get(&self.state, StorageProperty::SkipRestriction))
    }

    /// Starts or stops the calling application's listening to changes of
    /// the skip restriction. The subscription carries the decorator that
    /// delivers the restriction in force.
    pub fn advertising_on_skip_restriction_changed<
        F: Fn(&PlatformState, &CallContext, &str, &Value) -> Result<Value, DecorationFailed>,
    >(
        listeners: &mut AppEvents<F>,
        ctx: CallContext,
        request: ListenRequest,
    ) -> (r: ListenerResponse)
        requires
            old(listeners).wf(),
        ensures
            final(listeners).wf(),
            r.listening == request.listen,
            r.event@ == "advertising.onSkipRestrictionChanged"@,
            request.listen ==> exists|event_name: String|
                event_name@ == "advertising.onSkipRestrictionChanged"@ && final(listeners)@
                    == subscribed(
                    old(listeners)@,
                    (Subscription {
                        ctx,
                        event_name,
                        decorator: Some(Decorator::AdvertisingSetRestriction),
                    }),
                ),
            !request.listen ==> final(listeners)@ == unsubscribed(
                old(listeners)@,
                ctx.app_id@,
                "advertising.onSkipRestrictionChanged"@,
            ),
    {
        listeners.listen(
            ctx,
            request,
            EVENT_ADVERTISING_SKIP_RESTRICTION_CHANGED.to_owned(),
            Some(Decorator::AdvertisingSetRestriction),
        )
    }

    /// Starts or stops the calling application's listening to changes of
    /// the advertising policy. The raw value of the event is delivered.
    pub fn advertising_on_policy_changed<
        F: Fn(&PlatformState, &CallContext, &str, &Value) -> Result<Value, DecorationFailed>,
    >(
        listeners: &mut AppEvents<F>,
        ctx: CallContext,
        request: ListenRequest,
    ) -> (r: ListenerResponse)
        requires
            old(listeners).wf(),
        ensures
            final(listeners).wf(),
            r.listening == request.listen,
            r.event@ == "advertising.onPolicyChanged"@,
            request.listen ==> exists|event_name: String|
                event_name@ == "advertising.onPolicyChanged"@ && final(listeners)@ == subscribed(
                    old(listeners)@,
                    (Subscription { ctx, event_name, decorator: None }),
                ),
            !request.listen ==> final(listeners)@ == unsubscribed(
                old(listeners)@,
                ctx.app_id@,
                "advertising.onPolicyChanged"@,
            ),
    {
        listeners.listen(ctx, request, EVENT_ADVERTISING_POLICY_CHANGED.to_owned(), None)
    }
}

/// Makes the advertising methods for a platform.
#[derive(Clone, Copy, Debug, PartialEq, Eq)]
pub struct AdvertisingRPCProvider;

impl AdvertisingRPCProvider {
    /// The advertising methods over `state`.
    pub fn provide(state: PlatformState) -> (r: AdvertisingImpl)
        ensures
            r.state == state,
    {
        AdvertisingImpl { state }
    }
}

} // verus!
