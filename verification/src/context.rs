//! What a request is built from: the service configuration, the account's
//! credentials, the access token and the machine id.

use vstd::prelude::*;

verus! {

/// The region requests go to when neither the credentials nor the
/// configuration name one.
pub const DEFAULT_API_REGION: &'static str = "us-east-1";

/// The client version announced in the user agents when the configuration
/// names none.
pub const DEFAULT_KIRO_VERSION: &'static str = "0.7.45";

/// Service configuration.
pub struct Config {
    /// Region of the assistant API.
    pub api_region: Option<String>,
    /// Client version announced in the user agents.
    pub kiro_version: Option<String>,
    /// Operating system field of the user agent.
    pub system_version: String,
    /// Node.js version field of the user agent.
    pub node_version: String,
}

impl Default for Config {
    fn default() -> (c: Self)
        ensures
            c.api_region is None,
            c.kiro_version is None,
            c.system_version@ == "darwin#24.6.0"@,
            c.node_version@ == "22.21.1"@,
    {
        Config {
            api_region: None,
            kiro_version: None,
            system_version: String::from_str("darwin#24.6.0"),
            node_version: String::from_str("22.21.1"),
        }
    }
}

/// Credentials of one account.
pub struct KiroCredentials {
    /// Region of the assistant API for this account, in place of the configured one.
    pub api_region: Option<String>,
    /// Profile ARN of the account.
    pub profile_arn: Option<String>,
    /// Value of the `tokentype` header that this account's token needs.
    pub token_type: Option<String>,
}

impl Default for KiroCredentials {
    fn default() -> (c: Self)
        ensures
            c.api_region is None,
            c.profile_arn is None,
            c.token_type is None,
    {
        KiroCredentials { api_region: None, profile_arn: None, token_type: None }
    }
}

/// The view of an optional string.
pub open spec fn opt_view(o: Option<String>) -> Option<Seq<char>> {
    match o {
        Some(s) => Some(s@),
        None => None,
    }
}

/// The region of the API: the account's, else the configured one, else the default.
pub open spec fn api_region_spec(creds: KiroCredentials, config: Config) -> Seq<char> {
    match creds.api_region {
        Some(r) => r@,
        None => match config.api_region {
            Some(r) => r@,
            None => DEFAULT_API_REGION@,
        },
    }
}

/// The client version: the configured one where it is not empty, else the default.
pub open spec fn kiro_version_spec(configured: Option<String>) -> Seq<char> {
    match configured {
        Some(v) => if v@.len() > 0 {
            v@
        } else {
            DEFAULT_KIRO_VERSION@
        },
        None => DEFAULT_KIRO_VERSION@,
    }
}

impl KiroCredentials {
    /// The region of the API for this account under `config`.
    pub fn effective_api_region<'a>(&'a self, config: &'a Config) -> (r: &'a str)
        ensures
            r@ == api_region_spec(*self, *config),
            r@ == match self.api_region {
                Some(x) => x@,
                None => match config.api_region {
                    Some(x) => x@,
                    None => "us-east-1"@,
                },
            },
    {
        match &self.api_region {
            Some(r) => r.as_str(),
            None => match &config.api_region {
                Some(r) => r.as_str(),
                None => DEFAULT_API_REGION,
            },
        }
    }

    /// The profile ARN to announce for this account, if any.
    pub fn effective_profile_arn(&self) -> (r: Option<&str>)
        ensures
            match r {
                Some(a) => opt_view(self.profile_arn) == Some(a@),
                None => self.profile_arn is None,
            },
    {
        match &self.profile_arn {
            Some(a) => Some(a.as_str()),
            None => None,
        }
    }

    /// The value of the `tokentype` header, if this account needs one.
    pub fn token_type_header(&self) -> (r: Option<&str>)
        ensures
            match r {
                Some(t) => opt_view(self.token_type) == Some(t@),
                None => self.token_type is None,
            },
    {
        match &self.token_type {
            Some(t) => Some(t.as_str()),
            None => None,
        }
    }
}

/// The client version to announce under the configured value `configured`.
pub fn effective_kiro_version(configured: &Option<String>) -> (v: &str)
    ensures
        v@ == kiro_version_spec(*configured),
        v@ == match configured {
            Some(c) => if c@.len() > 0 {
                c@
            } else {
                "0.7.45"@
            },
            None => "0.7.45"@,
        },
{
    match configured {
        Some(v) => if v.as_str().is_empty() {
            DEFAULT_KIRO_VERSION
        } else {
            v.as_str()
        },
        None => DEFAULT_KIRO_VERSION,
    }
}

/// Everything one request is built from.
pub struct RequestContext<'a> {
    pub credentials: &'a KiroCredentials,
    pub token: &'a str,
    pub machine_id: &'a str,
    pub config: &'a Config,
}

/// The values a request context resolves to.
pub struct ContextModel {
    pub api_region: Seq<char>,
    pub token: Seq<char>,
    pub machine_id: Seq<char>,
    pub kiro_version: Seq<char>,
    pub system_version: Seq<char>,
    pub node_version: Seq<char>,
    pub profile_arn: Option<Seq<char>>,
    pub token_type: Option<Seq<char>>,
}

impl<'a> View for RequestContext<'a> {
    type V = ContextModel;

    open spec fn view(&self) -> ContextModel {
        ContextModel {
            api_region: api_region_spec(*self.credentials, *self.config),
            token: self.token@,
            machine_id: self.machine_id@,
            kiro_version: kiro_version_spec(self.config.kiro_version),
            system_version: self.config.system_version@,
            node_version: self.config.node_version@,
            profile_arn: opt_view(self.credentials.profile_arn),
            token_type: opt_view(self.credentials.token_type),
        }
    }
}

} // verus!
