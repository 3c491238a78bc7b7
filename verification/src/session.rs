use vstd::prelude::*;

verus! {

/// An identity attached to a request by the external authentication
/// collaborator. The library never inspects it beyond carrying its
/// printable descriptor into a response.
#[derive(Clone)]
pub struct Identity {
    pub descriptor: String,
}

/// The optional session of one request: either a proof of
/// authentication or its absence. Handlers are pure functions of this
/// value and of the configuration.
#[derive(Clone)]
pub enum Session {
    Authenticated(Identity),
    Anonymous,
}

/// Run-time configuration of the responders: whether authentication is
/// enforced at all, and the fixed fallback payload substituted when it
/// is enforced and no session is present.
#[derive(Clone)]
pub struct Config {
    pub auth_enabled: bool,
    pub unauth_default: String,
}

impl Session {
    /// Whether this session carries a proof of authentication.
    pub open spec fn is_authenticated(&self) -> bool {
        self is Authenticated
    }
}

impl Config {
    /// A request is granted when authentication is disabled or the
    /// session is authenticated; otherwise the fallback payload is due.
    pub open spec fn grants(&self, session: &Session) -> bool {
        !self.auth_enabled || session.is_authenticated()
    }
}

} // verus!
