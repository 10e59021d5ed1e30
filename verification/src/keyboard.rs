//! The keyboard provider: what an application asks of an on-screen keyboard
//! and what the keyboard answers.

use vstd::prelude::*;
use crate::contract::RippleContract;
use crate::extn::ExtnPayload;
use crate::extn::ExtnRequest;
use crate::extn::ExtnResponse;
use crate::gateway::CallContext;
use crate::provider::ProviderResponse;
use crate::provider::ProviderResponsePayload;

verus! {

pub const EMAIL_EVENT_PREFIX: &'static str = "keyboard.onRequestEmail";

pub const PASSWORD_EVENT_PREFIX: &'static str = "keyboard.onRequestPassword";

pub const STANDARD_EVENT_PREFIX: &'static str = "keyboard.onRequestStandard";

pub const KEYBOARD_PROVIDER_CAPABILITY: &'static str = "xrn:firebolt:capability:input:keyboard";

/// The kind of text that a keyboard session collects.
#[derive(Clone, Copy, Debug, PartialEq, Eq, Structural)]
pub enum KeyboardType {
    Email,
    Password,
    Standard,
}

impl KeyboardType {
    /// The method name under which a provider serves this kind of keyboard.
    pub open spec fn provider_method(self) -> Seq<char> {
        match self {
            KeyboardType::Email => "email"@,
            KeyboardType::Password => "password"@,
            KeyboardType::Standard => "standard"@,
        }
    }

    /// The provider method for this kind of keyboard.
    pub fn to_provider_method(&self) -> (r: &'static str)
        ensures
            r@ == self.provider_method(),
    {
        match self {
            KeyboardType::Email => "email",
            KeyboardType::Password => "password",
            KeyboardType::Standard => "standard",
        }
    }
}

/// Parameters of a request for a password.
#[derive(Debug, PartialEq, Eq)]
pub struct KeyboardRequestPassword {
    pub message: Option<String>,
}

/// Parameters of a request for an e-mail address.
#[derive(Debug, PartialEq, Eq)]
pub struct KeyboardRequestEmail {
    pub message: Option<String>,
    pub _type: EmailUsage,
}

/// What the e-mail address will be used for.
#[derive(Clone, Copy, Debug, PartialEq, Eq, Structural)]
pub enum EmailUsage {
    SignIn,
    SignUp,
}

/// Parameters of a request for free text.
#[derive(Debug, PartialEq, Eq)]
pub struct KeyboardRequest {
    pub message: String,
}

/// What a keyboard provider sends back: the session's result and the
/// identifier of the request that it answers.
#[derive(Debug, PartialEq, Eq)]
pub struct KeyboardProviderResponse {
    correlation_id: String,
    result: KeyboardSessionResponse,
}

impl KeyboardProviderResponse {
    /// A provider's answer to the request `correlation_id`.
    pub fn new(correlation_id: String, result: KeyboardSessionResponse) -> (r: Self)
        ensures
            r.correlation_id() == correlation_id,
            r.result() == result,
    {
        KeyboardProviderResponse { correlation_id, result }
    }

    /// The identifier of the request that this answers.
    pub closed spec fn correlation_id(self) -> String {
        self.correlation_id
    }

    /// The session's result.
    pub closed spec fn result(self) -> KeyboardSessionResponse {
        self.result
    }

    /// The same answer in the form that every provider shares: the
    /// identifier is kept and the result is tagged as a keyboard result.
    pub fn to_provider_response(&self) -> (r: ProviderResponse)
        ensures
            r.correlation_id == self.correlation_id(),
            r.result == ProviderResponsePayload::KeyboardResult(self.result()),
    {
        ProviderResponse {
            correlation_id: self.correlation_id.clone(),
            result: ProviderResponsePayload::KeyboardResult(self.result.clone()),
        }
    }
}

/// A request to open a keyboard session for the calling application.
#[derive(Debug, PartialEq, Eq)]
pub struct KeyboardSessionRequest {
    pub _type: KeyboardType,
    pub ctx: CallContext,
    pub message: String,
}

impl Clone for KeyboardSessionRequest {
    fn clone(&self) -> (r: Self)
        ensures
            r == *self,
    {
        KeyboardSessionRequest {
            _type: self._type,
            ctx: self.ctx.clone(),
            message: self.message.clone(),
        }
    }
}

impl KeyboardSessionRequest {
    /// This request, wrapped for the broker.
    pub fn get_extn_payload(&self) -> (r: ExtnPayload)
        ensures
            r == ExtnPayload::Request(ExtnRequest::Keyboard(*self)),
    {
        ExtnPayload::Request(ExtnRequest::Keyboard(self.clone()))
    }

    /// The keyboard request inside `payload`, if that is what it holds.
    pub fn get_from_payload(payload: ExtnPayload) -> (r: Option<Self>)
        ensures
            r == (match payload {
                ExtnPayload::Request(ExtnRequest::Keyboard(k)) => Some(k),
                _ => None,
            }),
    {
        match payload {
            ExtnPayload::Request(request) => match request {
                ExtnRequest::Keyboard(r) => Some(r),
                _ => None,
            },
            _ => None,
        }
    }

    /// The extension that owns keyboard sessions.
    pub fn contract() -> (r: RippleContract)
        ensures
            r == RippleContract::Keyboard,
    {
        RippleContract::Keyboard
    }
}

/// How a keyboard session ended: the text entered, or that it was cancelled.
#[derive(Debug, PartialEq, Eq)]
pub struct KeyboardSessionResponse {
    pub text: String,
    pub canceled: bool,
}

impl Clone for KeyboardSessionResponse {
    fn clone(&self) -> (r: Self)
        ensures
            r == *self,
    {
        KeyboardSessionResponse { text: self.text.clone(), canceled: self.canceled }
    }
}

impl KeyboardSessionResponse {
    /// This response, wrapped for the broker.
    pub fn get_extn_payload(&self) -> (r: ExtnPayload)
        ensures
            r == ExtnPayload::Response(ExtnResponse::Keyboard(*self)),
    {
        ExtnPayload::Response(ExtnResponse::Keyboard(self.clone()))
    }

    /// The keyboard response inside `payload`, if that is what it holds.
    pub fn get_from_payload(payload: ExtnPayload) -> (r: Option<Self>)
        ensures
            r == (match payload {
                ExtnPayload::Response(ExtnResponse::Keyboard(k)) => Some(k),
                _ => None,
            }),
    {
        match payload {
            ExtnPayload::Response(response) => match response {
                ExtnResponse::Keyboard(r) => Some(r),
                _ => None,
            },
            _ => None,
        }
    }

    /// The extension that owns keyboard sessions.
    pub fn contract() -> (r: RippleContract)
        ensures
            r == RippleContract::Keyboard,
    {
        RippleContract::Keyboard
    }
}

/// Parameters of a prompt for an e-mail address.
#[derive(Clone, Copy, Debug, PartialEq, Eq)]
pub struct PromptEmailRequest {
    pub prefill_type: PrefillType,
}

/// Which stored address the prompt offers first.
#[derive(Clone, Copy, Debug, PartialEq, Eq, Structural)]
pub enum PrefillType {
    SignIn,
    SignUp,
}

} // verus!
