//! What a capability provider hands back to the application that asked.

use vstd::prelude::*;
use crate::keyboard::KeyboardSessionResponse;

verus! {

/// The result that a provider produced, by the kind of provider.
#[derive(Debug, PartialEq, Eq)]
pub enum ProviderResponsePayload {
    KeyboardResult(KeyboardSessionResponse),
}

/// A provider's answer, tagged with the identifier of the request it answers.
#[derive(Debug, PartialEq, Eq)]
pub struct ProviderResponse {
    pub correlation_id: String,
    pub result: ProviderResponsePayload,
}

} // verus!
