use vstd::prelude::*;

verus! {

/// A category of authentication mechanism that a transport can declare
/// acceptable: a username-only probe, an SSH key, a plaintext user/secret
/// pair, or a default/implicit credential.
#[derive(Clone, Copy, Debug, PartialEq, Eq, Structural)]
pub enum CredKind {
    Username,
    SshKey,
    UserPassPlaintext,
    DefaultCred,
}

/// A set of credential-kind flags. It serves both as the set of kinds a
/// transport declares acceptable for one callback round-trip and as the
/// record of kinds already attempted during a negotiation session.
///
/// `unknown` stands for any requested kind outside the four this negotiator
/// knows how to satisfy; it is never marked attempted.
#[derive(Clone, Copy, Debug, PartialEq, Eq, Structural)]
pub struct KindSet {
    pub username: bool,
    pub ssh_key: bool,
    pub user_pass_plaintext: bool,
    pub default_kind: bool,
    pub unknown: bool,
}

impl KindSet {
    pub open spec fn spec_empty() -> KindSet {
        KindSet {
            username: false,
            ssh_key: false,
            user_pass_plaintext: false,
            default_kind: false,
            unknown: false,
        }
    }

    /// The set with no kind flagged.
    pub fn empty() -> (r: KindSet)
        ensures
            r == KindSet::spec_empty(),
    {
        KindSet {
            username: false,
            ssh_key: false,
            user_pass_plaintext: false,
            default_kind: false,
            unknown: false,
        }
    }

    pub open spec fn spec_is_empty(self) -> bool {
        self == KindSet::spec_empty()
    }

    /// Whether no kind at all is flagged.
    pub fn is_empty(&self) -> (r: bool)
        ensures
            r == self.spec_is_empty(),
    {
        !self.username && !self.ssh_key && !self.user_pass_plaintext && !self.default_kind
            && !self.unknown
    }

    pub open spec fn spec_minus(self, other: KindSet) -> KindSet {
        KindSet {
            username: self.username && !other.username,
            ssh_key: self.ssh_key && !other.ssh_key,
            user_pass_plaintext: self.user_pass_plaintext && !other.user_pass_plaintext,
            default_kind: self.default_kind && !other.default_kind,
            unknown: self.unknown && !other.unknown,
        }
    }

    /// Set difference: the kinds flagged here and not in `other`.
    pub fn minus(self, other: KindSet) -> (r: KindSet)
        ensures
            r == self.spec_minus(other),
    {
        KindSet {
            username: self.username && !other.username,
            ssh_key: self.ssh_key && !other.ssh_key,
            user_pass_plaintext: self.user_pass_plaintext && !other.user_pass_plaintext,
            default_kind: self.default_kind && !other.default_kind,
            unknown: self.unknown && !other.unknown,
        }
    }

    /// Whether `kind` is flagged in this set.
    pub open spec fn has(self, kind: CredKind) -> bool {
        match kind {
            CredKind::Username => self.username,
            CredKind::SshKey => self.ssh_key,
            CredKind::UserPassPlaintext => self.user_pass_plaintext,
            CredKind::DefaultCred => self.default_kind,
        }
    }

    /// Whether every kind flagged here is flagged in `other` too.
    pub open spec fn le(self, other: KindSet) -> bool {
        &&& (self.username ==> other.username)
        &&& (self.ssh_key ==> other.ssh_key)
        &&& (self.user_pass_plaintext ==> other.user_pass_plaintext)
        &&& (self.default_kind ==> other.default_kind)
        &&& (self.unknown ==> other.unknown)
    }
}

} // verus!
