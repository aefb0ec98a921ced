//! Saved SQL API hosts and how each authenticates.
use vstd::prelude::*;

verus! {

/// How requests to a host authenticate. `auth_type` is one of `"none"`,
/// `"bearer"`, `"custom-header"` and `"basic"`; any other text behaves as `"none"`.
#[derive(Debug, Clone, PartialEq)]
pub struct AuthConfig {
    pub auth_type: String,
    pub token: Option<String>,
    pub header_name: Option<String>,
    pub header_value: Option<String>,
    pub username: Option<String>,
    pub password: Option<String>,
}

/// A saved host: its base URL and its authentication, if any.
#[derive(Debug, Clone, PartialEq)]
pub struct HostConfig {
    pub name: String,
    pub auth: Option<AuthConfig>,
}

/// The list of saved hosts shared by every explorer panel.
#[derive(Debug, Clone)]
pub struct SqlApiHosts {
    pub hosts: Vec<HostConfig>,
}

impl Default for SqlApiHosts {
    /// No saved hosts.
    fn default() -> (r: SqlApiHosts)
        ensures
            r.hosts@.len() == 0,
    {
        SqlApiHosts { hosts: Vec::new() }
    }
}

/// The authentication that a new host starts with: type `"none"`, no credentials.
pub open spec fn is_no_auth(a: AuthConfig) -> bool {
    &&& a.auth_type@ == "none"@
    &&& a.token is None
    &&& a.header_name is None
    &&& a.header_value is None
    &&& a.username is None
    &&& a.password is None
}

/// The label that summarises a host's authentication.
pub open spec fn auth_summary_spec(auth: Option<AuthConfig>) -> Seq<char> {
    match auth {
        Some(a) => if a.auth_type@ == "bearer"@ {
            "🔑 Bearer"@
        } else if a.auth_type@ == "custom-header"@ {
            "🔖 Custom Header"@
        } else if a.auth_type@ == "basic"@ {
            "🔐 Basic"@
        } else {
            "🌐 None"@
        },
        None => "🌐 None"@,
    }
}

pub fn copy_opt_string(s: &Option<String>) -> (r: Option<String>)
    ensures
        r == *s,
{
    match s {
        Some(t) => Some(t.clone()),
        None => None,
    }
}

impl AuthConfig {
    /// A field-by-field copy.
    pub fn copy(&self) -> (r: AuthConfig)
        ensures
            r == *self,
    {
        AuthConfig {
            auth_type: self.auth_type.clone(),
            token: copy_opt_string(&self.token),
            header_name: copy_opt_string(&self.header_name),
            header_value: copy_opt_string(&self.header_value),
            username: copy_opt_string(&self.username),
            password: copy_opt_string(&self.password),
        }
    }
}

impl HostConfig {
    /// A host with the given URL and no authentication.
    pub fn new(name: String) -> (r: HostConfig)
        ensures
            r.name == name,
            r.auth matches Some(a) && is_no_auth(a),
    {
        HostConfig {
            name,
            auth: Some(
                AuthConfig {
                    auth_type: crate::text::to_owned_string("none"),
                    token: None,
                    header_name: None,
                    header_value: None,
                    username: None,
                    password: None,
                },
            ),
        }
    }

    /// A field-by-field copy.
    pub fn copy(&self) -> (r: HostConfig)
        ensures
            r == *self,
    {
        HostConfig {
            name: self.name.clone(),
            auth: match &self.auth {
                Some(a) => Some(a.copy()),
                None => None,
            },
        }
    }

    /// A short label for the authentication: bearer, custom header, basic, or none.
    pub fn auth_summary(&self) -> (r: String)
        ensures
            r@ == auth_summary_spec(self.auth),
    {
        match &self.auth {
            Some(auth) => {
                if crate::keyed::str_eq(auth.auth_type.as_str(), "bearer") {
                    crate::text::to_owned_string("🔑 Bearer")
                } else if crate::keyed::str_eq(auth.auth_type.as_str(), "custom-header") {
                    crate::text::to_owned_string("🔖 Custom Header")
                } else if crate::keyed::str_eq(auth.auth_type.as_str(), "basic") {
                    crate::text::to_owned_string("🔐 Basic")
                } else {
                    crate::text::to_owned_string("🌐 None")
                }
            },
            None => crate::text::to_owned_string("🌐 None"),
        }
    }
}

/// A new host summarises its authentication as none.
pub proof fn lemma_new_host_summary(h: HostConfig)
    requires
        h.auth matches Some(a) && is_no_auth(a),
    ensures
        auth_summary_spec(h.auth) == "🌐 None"@,
{
    reveal_strlit("none");
    reveal_strlit("bearer");
    reveal_strlit("custom-header");
    reveal_strlit("basic");
    let a = h.auth->0;
    assert(a.auth_type@ != "bearer"@) by {
        assert(a.auth_type@[0] != "bearer"@[0]);
    }
    assert(a.auth_type@ != "custom-header"@) by {
        assert(a.auth_type@.len() != "custom-header"@.len());
    }
    assert(a.auth_type@ != "basic"@) by {
        assert(a.auth_type@[0] != "basic"@[0]);
    }
}

} // verus!
