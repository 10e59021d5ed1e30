//! What the advertising extension is asked and what it answers.

use vstd::prelude::*;

verus! {

/// The account and device on whose behalf the runtime speaks.
#[derive(Debug, PartialEq, Eq)]
pub struct AccountSession {
    pub id: String,
    pub token: String,
    pub account_id: String,
    pub device_id: String,
}

impl Clone for AccountSession {
    fn clone(&self) -> (r: Self)
        ensures
            r == *self,
    {
        AccountSession {
            id: self.id.clone(),
            token: self.token.clone(),
            account_id: self.account_id.clone(),
            device_id: self.device_id.clone(),
        }
    }
}

/// Parameters of a request for the advertising identifier.
#[derive(Debug, PartialEq, Eq)]
pub struct AdIdRequestParams {
    pub privacy_data: Vec<(String, String)>,
    pub app_id: String,
    pub dist_session: AccountSession,
}

/// Parameters of a request for the advertising configuration.
#[derive(Debug, PartialEq, Eq)]
pub struct AdInitObjectRequestParams {
    pub privacy_data: Vec<(String, String)>,
    pub environment: String,
    pub durable_app_id: String,
    pub app_version: String,
    pub distributor_app_id: String,
    pub device_ad_attributes: Vec<(String, String)>,
    pub coppa: bool,
    pub authentication_entity: String,
    pub dist_session: AccountSession,
}

/// An operation of the advertising extension.
#[derive(Debug, PartialEq, Eq)]
pub enum AdvertisingRequest {
    ResetAdIdentifier(AccountSession),
    GetAdIdObject(AdIdRequestParams),
    GetAdInitObject(AdInitObjectRequestParams),
}

/// The advertising identifier as the extension reports it.
#[derive(Debug, PartialEq, Eq)]
pub struct AdIdResponse {
    pub ifa: String,
    pub ifa_type: String,
    pub lmt: String,
}

/// The advertising configuration as the extension reports it.
#[derive(Debug, PartialEq, Eq)]
pub struct AdInitObjectResponse {
    pub ad_server_url: String,
    pub ad_server_url_template: String,
    pub ad_network_id: String,
    pub ad_profile_id: String,
    pub ad_site_section_id: String,
    pub ad_opt_out: bool,
    pub privacy_data: String,
    pub ifa_value: String,
    pub ifa: String,
    pub app_name: String,
    pub app_bundle_id: String,
    pub app_version: String,
    pub distributor_app_id: String,
    pub device_ad_attributes: String,
    pub coppa: String,
    pub authentication_entity: String,
}

/// A result of the advertising extension.
#[derive(Debug, PartialEq, Eq)]
pub enum AdvertisingResponse {
    AdIdObject(AdIdResponse),
    AdInitObject(AdInitObjectResponse),
}

/// The advertising configuration as an application sees it.
#[derive(Debug, PartialEq, Eq)]
pub struct AdvertisingFrameworkConfig {
    pub ad_server_url: String,
    pub ad_server_url_template: String,
    pub ad_network_id: String,
    pub ad_profile_id: String,
    pub ad_site_section_id: String,
    pub ad_opt_out: bool,
    pub privacy_data: String,
    pub ifa_value: String,
    pub ifa: String,
    pub app_name: String,
    pub app_bundle_id: String,
    pub distributor_app_id: String,
    pub device_ad_attributes: String,
    pub coppa: u32,
    pub authentication_entity: String,
}

/// The deployment that an application asks a configuration for.
#[derive(Clone, Copy, Debug, PartialEq, Eq, Structural)]
pub enum Environment {
    Prod,
    Test,
}

impl Environment {
    /// The name of the deployment on the wire.
    pub open spec fn name(self) -> Seq<char> {
        match self {
            Environment::Prod => "prod"@,
            Environment::Test => "test"@,
        }
    }

    /// The name of the deployment.
    pub fn as_string(&self) -> (r: &'static str)
        ensures
            r@ == self.name(),
    {
        match self {
            Environment::Prod => "prod",
            Environment::Test => "test",
        }
    }
}

/// The options of a request for the advertising configuration.
#[derive(Debug, PartialEq, Eq)]
pub struct AdConfig {
    pub environment: Environment,
    pub authentication_entity: Option<String>,
    pub coppa: Option<bool>,
}

/// A request for the advertising configuration.
#[derive(Debug, PartialEq, Eq)]
pub struct GetAdConfig {
    pub options: AdConfig,
}

impl Default for GetAdConfig {
    fn default() -> (r: Self)
        ensures
            r.options.environment == Environment::Prod,
            r.options.authentication_entity is None,
            r.options.coppa is None,
    {
        GetAdConfig {
            options: AdConfig {
                environment: Environment::Prod,
                authentication_entity: None,
                coppa: None,
            },
        }
    }
}

/// An application's wish to start or stop listening to an event.
#[derive(Clone, Copy, Debug, PartialEq, Eq)]
pub struct ListenRequest {
    pub listen: bool,
}

/// The answer to a listen request: the event and whether the application
/// now listens to it.
#[derive(Debug, PartialEq, Eq)]
pub struct ListenerResponse {
    pub listening: bool,
    pub event: String,
}

} // verus!
