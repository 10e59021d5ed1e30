//! The identity of a caller, as the RPC layer hands it in.

use vstd::prelude::*;

verus! {

/// The transport over which a call arrived.
#[derive(Clone, Copy, Debug, PartialEq, Eq, Hash, Structural)]
pub enum ApiProtocol {
    Bridge,
    Extn,
    JsonRpc,
}

/// Who is calling: the application, its session and the call itself.
/// The library only ever reads it.
#[derive(Debug, PartialEq, Eq)]
pub struct CallContext {
    pub session_id: String,
    pub request_id: String,
    pub app_id: String,
    pub call_id: u64,
    pub protocol: ApiProtocol,
    pub method: String,
}

impl Clone for CallContext {
    fn clone(&self) -> (r: Self)
        ensures
            r == *self,
    {
        CallContext {
            session_id: self.session_id.clone(),
            request_id: self.request_id.clone(),
            app_id: self.app_id.clone(),
            call_id: self.call_id,
            protocol: self.protocol,
            method: self.method.clone(),
        }
    }
}

} // verus!
