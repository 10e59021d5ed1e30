//! Persisted settings: the enumerated keys with their defaults, the storage
//! interface, and the pass-through that reads never fail through.

use vstd::prelude::*;
use crate::broker::BrokerError;
use crate::extn::ExtnRequest;
use crate::extn::ExtnResponse;
use crate::platform::PlatformState;

verus! {

pub const EVENT_ADVERTISING_POLICY_CHANGED: &'static str = "advertising.onPolicyChanged";

pub const EVENT_ADVERTISING_SKIP_RESTRICTION_CHANGED: &'static str =
    "advertising.onSkipRestrictionChanged";

/// A persisted setting. Only these keys exist; none is a raw string.
#[derive(Clone, Copy, Debug, PartialEq, Eq, Hash, Structural)]
pub enum StorageProperty {
    SkipRestriction,
}

impl StorageProperty {
    /// The value that stands for the setting wherever it cannot be read.
    pub open spec fn default_value(self) -> Seq<char> {
        match self {
            StorageProperty::SkipRestriction => "none"@,
        }
    }

    /// The default of this setting.
    pub fn default_string(&self) -> (r: &'static str)
        ensures
            r@ == self.default_value(),
    {
        match self {
            StorageProperty::SkipRestriction => "none",
        }
    }
}

/// An operation of the storage backend.
#[derive(Debug, PartialEq, Eq)]
pub enum StorageRequest {
    Read(StorageProperty),
    Write(StorageProperty, String),
}

/// Why the storage could not answer a read.
#[derive(Clone, Copy, Debug, PartialEq, Eq, Structural)]
pub enum StorageError {
    /// The backend did not answer.
    Unavailable,
    /// The backend holds no value under the key.
    NotFound,
}

/// A write did not reach the storage.
#[derive(Clone, Copy, Debug, PartialEq, Eq, Structural)]
pub struct PersistError;

/// The settings as the runtime currently sees them: whether the backend
/// answers, and the value held under each key.
#[derive(Debug, PartialEq, Eq)]
pub struct Storage {
    pub available: bool,
    pub skip_restriction: Option<String>,
}

impl Clone for Storage {
    fn clone(&self) -> (r: Self)
        ensures
            r == *self,
    {
        let skip_restriction = match &self.skip_restriction {
            Some(s) => Some(s.clone()),
            None => None,
        };
        Storage { available: self.available, skip_restriction }
    }
}

impl Storage {
    /// The value held under `property`, if one is held.
    pub open spec fn stored(self, property: StorageProperty) -> Option<Seq<char>> {
        match property {
            StorageProperty::SkipRestriction => match self.skip_restriction {
                Some(s) => Some(s@),
                None => None,
            },
        }
    }

    /// What a read of `property` answers.
    pub open spec fn read(self, property: StorageProperty) -> Result<Seq<char>, StorageError> {
        if !self.available {
            Err(StorageError::Unavailable)
        } else {
            match self.stored(property) {
                Some(v) => Ok(v),
                None => Err(StorageError::NotFound),
            }
        }
    }

    /// The value of `property` as callers see it: what is read, or the
    /// default of the property where the read fails.
    pub open spec fn value(self, property: StorageProperty) -> Seq<char> {
        match self.read(property) {
            Ok(v) => v,
            Err(_) => property.default_value(),
        }
    }

    /// The storage after `value` was written under `property`.
    pub open spec fn written(self, property: StorageProperty, value: String) -> Storage {
        match property {
            StorageProperty::SkipRestriction => Storage {
                available: self.available,
                skip_restriction: Some(value),
            },
        }
    }

    /// A storage that answers and holds nothing yet.
    pub fn new() -> (r: Storage)
        ensures
            r.available,
            r.skip_restriction is None,
    {
        Storage { available: true, skip_restriction: None }
    }

    /// A storage whose backend does not answer.
    pub fn unavailable() -> (r: Storage)
        ensures
            !r.available,
            r.skip_restriction is None,
    {
        Storage { available: false, skip_restriction: None }
    }

    /// The settings as one read of the skip restriction shows them: the
    /// text that came back is held; after any other reply the backend
    /// counts as not answering.
    pub fn from_reply(reply: Result<ExtnResponse, BrokerError>) -> (r: Storage)
        ensures
            r == (match reply {
                Ok(ExtnResponse::Text(s)) => Storage { available: true, skip_restriction: Some(s) },
                _ => Storage { available: false, skip_restriction: None },
            }),
            r.value(StorageProperty::SkipRestriction) == reply_value(
                StorageProperty::SkipRestriction,
                reply,
            ),
    {
        match reply {
            Ok(ExtnResponse::Text(s)) => Storage { available: true, skip_restriction: Some(s) },
            _ => Storage { available: false, skip_restriction: None },
        }
    }

    /// Reads the value held under `property`.
    pub fn get_string(&self, property: StorageProperty) -> (r: Result<String, StorageError>)
        ensures
            r matches Ok(s) ==> self.read(property) == Ok::<Seq<char>, StorageError>(s@),
            r matches Err(e) ==> self.read(property) == Err::<Seq<char>, StorageError>(e),
    {
        if !self.available {
            return Err(StorageError::Unavailable);
        }
        match property {
            StorageProperty::SkipRestriction => match &self.skip_restriction {
                Some(s) => Ok(s.clone()),
                None => Err(StorageError::NotFound),
            },
        }
    }

    /// Writes `value` under `property`. Where the backend does not answer
    /// the write fails and nothing changes.
    pub fn set_string(&mut self, property: StorageProperty, value: String) -> (r: Result<
        (),
        StorageError,
    >)
        ensures
            old(self).available ==> r is Ok && *final(self) == old(self).written(property, value),
            !old(self).available ==> r == Err::<(), StorageError>(StorageError::Unavailable)
                && *final(self) == *old(self),
    {
        if !self.available {
            return Err(StorageError::Unavailable);
        }
        match property {
            StorageProperty::SkipRestriction => {
                self.skip_restriction = Some(value);
            },
        }
        Ok(())
    }
}

/// The text that a reply to a read stands for: the text that came back,
/// and the default of the property for every other reply.
pub open spec fn reply_value(
    property: StorageProperty,
    reply: Result<ExtnResponse, BrokerError>,
) -> Seq<char> {
    match reply {
        Ok(ExtnResponse::Text(s)) => s@,
        _ => property.default_value(),
    }
}

/// Typed reads and writes of persisted settings.
///
/// A read never fails towards the caller: where the value is absent or the
/// backend fails, the property's default stands in. A write does report
/// its failure.
pub struct StorageManager;

impl StorageManager {
    /// The value of `property`; its default where it cannot be read.
    pub fn get(state: &PlatformState, property: StorageProperty) -> (r: String)
        ensures
            r@ == state.storage.value(property),
    {
        match state.storage.get_string(property) {
            Ok(s) => s,
            Err(_) => property.default_string().to_owned(),
        }
    }

    /// Writes `value` under `property`, and reports a failed write.
    pub fn set(state: &mut PlatformState, property: StorageProperty, value: String) -> (r: Result<
        (),
        PersistError,
    >)
        ensures
            old(state).storage.available ==> r is Ok && final(state).storage == old(
                state,
            ).storage.written(property, value),
            !old(state).storage.available ==> r is Err && *final(state) == *old(state),
    {
        match state.storage.set_string(property, value) {
            Ok(()) => Ok(()),
            Err(_) => Err(PersistError),
        }
    }

    /// The request that reads `property` from the storage extension.
    pub fn read_request(property: StorageProperty) -> (r: ExtnRequest)
        ensures
            r == ExtnRequest::Storage(StorageRequest::Read(property)),
    {
        ExtnRequest::Storage(StorageRequest::Read(property))
    }

    /// The request that writes `value` under `property`.
    pub fn write_request(property: StorageProperty, value: String) -> (r: ExtnRequest)
        ensures
            r == ExtnRequest::Storage(StorageRequest::Write(property, value)),
    {
        ExtnRequest::Storage(StorageRequest::Write(property, value))
    }

    /// The value that a reply to a read stands for. No failure of the
    /// exchange reaches the caller: each one gives the default.
    pub fn value_from_reply(
        property: StorageProperty,
        reply: Result<ExtnResponse, BrokerError>,
    ) -> (r: String)
        ensures
            r@ == reply_value(property, reply),
    {
        match reply {
            Ok(ExtnResponse::Text(s)) => s,
            _ => property.default_string().to_owned(),
        }
    }

    /// Whether a reply to a write says that the value was persisted: only
    /// the empty result does.
    pub fn persisted_from_reply(reply: Result<ExtnResponse, BrokerError>) -> (r: Result<
        (),
        PersistError,
    >)
        ensures
            r is Ok <==> reply == Ok::<ExtnResponse, BrokerError>(ExtnResponse::Empty),
    {
        match reply {
            Ok(ExtnResponse::Empty) => Ok(()),
            _ => Err(PersistError),
        }
    }
}

/// Where the read of a property fails, because the backend does not answer
/// or holds nothing under the key, its value is its default.
pub proof fn lemma_failed_read_gives_default(storage: Storage, property: StorageProperty)
    requires
        !storage.available || storage.stored(property) is None,
    ensures
        storage.read(property) is Err,
        storage.value(property) == property.default_value(),
{
}

/// A value written to a storage that answers is the value read afterwards.
pub proof fn lemma_written_value_is_read(storage: Storage, property: StorageProperty, value: String)
    requires
        storage.available,
    ensures
        storage.written(property, value).read(property) == Ok::<Seq<char>, StorageError>(value@),
        storage.written(property, value).value(property) == value@,
{
}

} // verus!
