use vstd::prelude::*;

use crate::kinds::{CredKind, KindSet};

verus! {

/// The username sources visited, in strict priority order, while resolving
/// the username for an SSH-key attempt: the username supplied by the remote's
/// request, the one configured in a credential helper, the local OS account
/// name, and the literal fallback "git".
#[derive(Clone, Copy, Debug, PartialEq, Eq, Structural)]
pub enum UsernameCursor {
    RemoteSupplied,
    HelperConfigured,
    OsLocal,
    FallbackLiteral,
}

/// One candidate credential, or rather the instruction for building one:
/// a bare username response to a sub-negotiation probe, a plaintext
/// username/secret pair built from an out-of-band token, an SSH identity to
/// resolve through an agent-style lookup by username, a credential-helper
/// lookup keyed by the optional remote-supplied username, or the
/// default/implicit credential.
#[derive(Debug, Clone)]
pub enum CredentialCandidate {
    Username(String),
    Plaintext(String, String),
    SshKeyFromAgent(String),
    HelperLookup(Option<String>),
    DefaultCred,
}

/// The mathematical value of a `CredentialCandidate`.
pub enum CandidateView {
    Username(Seq<char>),
    Plaintext(Seq<char>, Seq<char>),
    SshKeyFromAgent(Seq<char>),
    HelperLookup(Option<Seq<char>>),
    DefaultCred,
}

impl View for CredentialCandidate {
    type V = CandidateView;

    open spec fn view(&self) -> CandidateView {
        match self {
            CredentialCandidate::Username(n) => CandidateView::Username(n@),
            CredentialCandidate::Plaintext(u, p) => CandidateView::Plaintext(u@, p@),
            CredentialCandidate::SshKeyFromAgent(n) => CandidateView::SshKeyFromAgent(n@),
            CredentialCandidate::HelperLookup(u) => CandidateView::HelperLookup(u.deep_view()),
            CredentialCandidate::DefaultCred => CandidateView::DefaultCred,
        }
    }
}

/// The kind of mechanism a candidate is an instance of.
pub open spec fn candidate_kind(c: CandidateView) -> CredKind {
    match c {
        CandidateView::Username(_) => CredKind::Username,
        CandidateView::Plaintext(_, _) => CredKind::UserPassPlaintext,
        CandidateView::SshKeyFromAgent(_) => CredKind::SshKey,
        CandidateView::HelperLookup(_) => CredKind::UserPassPlaintext,
        CandidateView::DefaultCred => CredKind::DefaultCred,
    }
}

/// A terminal negotiation failure: every declared-acceptable kind was already
/// attempted this session, or the remote declared no kind this negotiator
/// knows how to satisfy.
#[derive(Clone, Copy, Debug, PartialEq, Eq, Structural)]
pub enum NegotiationError {
    AuthExhausted,
    AuthUnavailable,
}

impl NegotiationError {
    /// The message handed to the transport for either terminal failure.
    pub fn message(&self) -> (r: &'static str)
        ensures
            r@ == "no authentication available"@,
    {
        "no authentication available"
    }
}

/// The read-only environment surface the negotiator consumes: an out-of-band
/// access token and the local OS account name, both gathered by the caller so
/// that the negotiation itself stays free of ambient lookups.
pub struct AuthEnv {
    pub token: Option<String>,
    pub os_user: Option<String>,
}

/// One credential negotiation session. It owns the set of kinds already
/// attempted, the username-source cursor for SSH attempts, the log of
/// usernames handed to agent lookups, and the injected read-only inputs.
/// A session serves exactly one transfer operation and is then discarded.
pub struct CredentialNegotiator {
    pub token: Option<String>,
    pub helper_username: Option<String>,
    pub os_user: Option<String>,
    pub attempted: KindSet,
    pub cursor: UsernameCursor,
    pub failed_helper: bool,
    pub username_attempts: Vec<String>,
}

/// The mathematical state of a negotiation session.
pub struct NegView {
    pub token: Option<Seq<char>>,
    pub helper_username: Option<Seq<char>>,
    pub os_user: Option<Seq<char>>,
    pub attempted: KindSet,
    pub cursor: UsernameCursor,
    pub failed_helper: bool,
    pub username_attempts: Seq<Seq<char>>,
}

impl View for CredentialNegotiator {
    type V = NegView;

    open spec fn view(&self) -> NegView {
        NegView {
            token: self.token.deep_view(),
            helper_username: self.helper_username.deep_view(),
            os_user: self.os_user.deep_view(),
            attempted: self.attempted,
            cursor: self.cursor,
            failed_helper: self.failed_helper,
            username_attempts: self.username_attempts.deep_view(),
        }
    }
}

/// A session is well formed when no unknown kind is marked attempted: the
/// negotiator only ever marks the four kinds it knows.
pub open spec fn wf(s: NegView) -> bool {
    !s.attempted.unknown
}

pub open spec fn fallback_name() -> Seq<char> {
    "git"@
}

pub open spec fn cursor_rank(c: UsernameCursor) -> int {
    match c {
        UsernameCursor::RemoteSupplied => 0,
        UsernameCursor::HelperConfigured => 1,
        UsernameCursor::OsLocal => 2,
        UsernameCursor::FallbackLiteral => 3,
    }
}

pub open spec fn next_cursor(c: UsernameCursor) -> UsernameCursor {
    match c {
        UsernameCursor::RemoteSupplied => UsernameCursor::HelperConfigured,
        UsernameCursor::HelperConfigured => UsernameCursor::OsLocal,
        UsernameCursor::OsLocal => UsernameCursor::FallbackLiteral,
        UsernameCursor::FallbackLiteral => UsernameCursor::FallbackLiteral,
    }
}

/// The username that source `c` yields, if any. The remote-supplied source
/// yields the username of the current callback round-trip; the fallback
/// literal always yields "git".
pub open spec fn source_at(s: NegView, remote: Option<Seq<char>>, c: UsernameCursor) -> Option<
    Seq<char>,
> {
    match c {
        UsernameCursor::RemoteSupplied => remote,
        UsernameCursor::HelperConfigured => s.helper_username,
        UsernameCursor::OsLocal => s.os_user,
        UsernameCursor::FallbackLiteral => Some(fallback_name()),
    }
}

/// The first source at or after `c`, in priority order, that yields a
/// username. The fallback literal always yields one, so this is well defined.
pub open spec fn first_available(s: NegView, remote: Option<Seq<char>>, c: UsernameCursor) -> UsernameCursor {
    match c {
        UsernameCursor::RemoteSupplied => if remote is Some {
            UsernameCursor::RemoteSupplied
        } else if s.helper_username is Some {
            UsernameCursor::HelperConfigured
        } else if s.os_user is Some {
            UsernameCursor::OsLocal
        } else {
            UsernameCursor::FallbackLiteral
        },
        UsernameCursor::HelperConfigured => if s.helper_username is Some {
            UsernameCursor::HelperConfigured
        } else if s.os_user is Some {
            UsernameCursor::OsLocal
        } else {
            UsernameCursor::FallbackLiteral
        },
        UsernameCursor::OsLocal => if s.os_user is Some {
            UsernameCursor::OsLocal
        } else {
            UsernameCursor::FallbackLiteral
        },
        UsernameCursor::FallbackLiteral => UsernameCursor::FallbackLiteral,
    }
}

/// The username yielded at the picked source.
pub open spec fn picked_name(s: NegView, remote: Option<Seq<char>>, pick: UsernameCursor) -> Seq<
    char,
> {
    match source_at(s, remote, pick) {
        Some(n) => n,
        None => fallback_name(),
    }
}

/// The state and result of one negotiation step.
pub struct StepOutcome {
    pub state: NegView,
    pub result: Result<CandidateView, NegotiationError>,
}

/// One invocation of the negotiator: given the kinds the remote currently
/// declares acceptable and the username its request supplied, either the
/// first matching unattempted branch produces a candidate and marks its kind,
/// or the step fails terminally without touching the state.
///
/// Branch order: the exhaustion check, the bare-username probe, the token
/// plaintext pair, the SSH agent lookup, the credential-helper lookup, the
/// default credential, and last the no-known-kind failure. When plaintext is
/// allowed but no token is set, the plaintext kind is still marked attempted
/// before control falls through to the SSH and helper branches.
pub open spec fn spec_step(s: NegView, requested: KindSet, remote: Option<Seq<char>>) -> StepOutcome {
    let a = requested.spec_minus(s.attempted);
    if a.spec_is_empty() {
        StepOutcome { state: s, result: Err(NegotiationError::AuthExhausted) }
    } else if a.username {
        StepOutcome {
            state: NegView { attempted: KindSet { username: true, ..s.attempted }, ..s },
            result: Ok(
                CandidateView::Username(
                    match remote {
                        Some(u) => u,
                        None => fallback_name(),
                    },
                ),
            ),
        }
    } else if a.user_pass_plaintext && s.token is Some {
        StepOutcome {
            state: NegView {
                attempted: KindSet { user_pass_plaintext: true, ..s.attempted },
                ..s
            },
            result: Ok(
                CandidateView::Plaintext(
                    match s.token {
                        Some(t) => t,
                        None => Seq::empty(),
                    },
                    Seq::empty(),
                ),
            ),
        }
    } else if a.ssh_key {
        let pick = first_available(s, remote, s.cursor);
        let name = picked_name(s, remote, pick);
        StepOutcome {
            state: NegView {
                attempted: KindSet {
                    ssh_key: pick is FallbackLiteral,
                    user_pass_plaintext: s.attempted.user_pass_plaintext
                        || a.user_pass_plaintext,
                    ..s.attempted
                },
                cursor: next_cursor(pick),
                username_attempts: s.username_attempts.push(name),
                ..s
            },
            result: Ok(CandidateView::SshKeyFromAgent(name)),
        }
    } else if a.user_pass_plaintext {
        StepOutcome {
            state: NegView {
                attempted: KindSet { user_pass_plaintext: true, ..s.attempted },
                ..s
            },
            result: Ok(CandidateView::HelperLookup(remote)),
        }
    } else if a.default_kind {
        StepOutcome {
            state: NegView { attempted: KindSet { default_kind: true, ..s.attempted }, ..s },
            result: Ok(CandidateView::DefaultCred),
        }
    } else {
        StepOutcome { state: s, result: Err(NegotiationError::AuthUnavailable) }
    }
}

pub open spec fn opt_str_view(o: Option<&str>) -> Option<Seq<char>> {
    match o {
        Some(s) => Some(s@),
        None => None,
    }
}

pub open spec fn step_result_view(r: Result<CredentialCandidate, NegotiationError>) -> Result<
    CandidateView,
    NegotiationError,
> {
    match r {
        Ok(c) => Ok(c@),
        Err(e) => Err(e),
    }
}

impl CredentialNegotiator {
    /// A fresh session: nothing attempted, the username cursor at its first
    /// source, an empty attempt log, and the given read-only inputs.
    pub fn new(token: Option<String>, helper_username: Option<String>, os_user: Option<String>) -> (r:
        CredentialNegotiator)
        ensures
            r@ == (NegView {
                token: token.deep_view(),
                helper_username: helper_username.deep_view(),
                os_user: os_user.deep_view(),
                attempted: KindSet::spec_empty(),
                cursor: UsernameCursor::RemoteSupplied,
                failed_helper: false,
                username_attempts: Seq::empty(),
            }),
            wf(r@),
    {
        let r = CredentialNegotiator {
            token,
            helper_username,
            os_user,
            attempted: KindSet::empty(),
            cursor: UsernameCursor::RemoteSupplied,
            failed_helper: false,
            username_attempts: Vec::new(),
        };
        proof {
            assert(r@.username_attempts =~= Seq::<Seq<char>>::empty());
        }
        r
    }

    /// Advance through the username sources from the current cursor, skipping
    /// sources that yield nothing, and give back the first username found.
    /// Consulting the fallback literal marks the SSH kind attempted, since no
    /// further source is left for a later round-trip.
    fn next_ssh_username(&mut self, remote_username: Option<&str>) -> (name: String)
        ensures
            ({
                let pick = first_available(old(self)@, opt_str_view(remote_username), old(
                    self,
                ).cursor);
                &&& name@ == picked_name(old(self)@, opt_str_view(remote_username), pick)
                &&& final(self).cursor == next_cursor(pick)
                &&& final(self).attempted == (KindSet {
                    ssh_key: old(self).attempted.ssh_key || pick is FallbackLiteral,
                    ..old(self).attempted
                })
                &&& final(self).token == old(self).token
                &&& final(self).helper_username == old(self).helper_username
                &&& final(self).os_user == old(self).os_user
                &&& final(self).failed_helper == old(self).failed_helper
                &&& final(self).username_attempts == old(self).username_attempts
            }),
    {
        if self.cursor == UsernameCursor::RemoteSupplied {
            self.cursor = UsernameCursor::HelperConfigured;
            if let Some(u) = remote_username {
                return u.to_owned();
            }
        }
        if self.cursor == UsernameCursor::HelperConfigured {
            self.cursor = UsernameCursor::OsLocal;
            match &self.helper_username {
                Some(u) => { return u.clone(); },
                None => {},
            }
        }
        if self.cursor == UsernameCursor::OsLocal {
            self.cursor = UsernameCursor::FallbackLiteral;
            match &self.os_user {
                Some(u) => { return u.clone(); },
                None => {},
            }
        }
        self.attempted.ssh_key = true;
        "git".to_owned()
    }

    /// One callback round-trip: produce exactly one credential candidate, or
    /// a terminal failure. The whole behaviour, state change included, is
    /// `spec_step` of the state before the call.
    pub fn next_credential(
        &mut self,
        requested: KindSet,
        remote_username: Option<&str>,
    ) -> (r: Result<CredentialCandidate, NegotiationError>)
        ensures
            ({
                let o = spec_step(old(self)@, requested, opt_str_view(remote_username));
                &&& final(self)@ == o.state
                &&& step_result_view(r) == o.result
            }),
    {
        let allowed = requested.minus(self.attempted);
        if allowed.is_empty() {
            return Err(NegotiationError::AuthExhausted);
        }
        if allowed.username {
            self.attempted.username = true;
            let name = match remote_username {
                Some(u) => u.to_owned(),
                None => "git".to_owned(),
            };
            return Ok(CredentialCandidate::Username(name));
        }
        if allowed.user_pass_plaintext {
            self.attempted.user_pass_plaintext = true;
            match &self.token {
                Some(t) => {
                    return Ok(CredentialCandidate::Plaintext(t.clone(), String::new()));
                },
                None => {},
            }
        }
        if allowed.ssh_key {
            let name = self.next_ssh_username(remote_username);
            self.username_attempts.push(name.clone());
            proof {
                let o = spec_step(old(self)@, requested, opt_str_view(remote_username));
                assert(self.username_attempts@.len() == old(
                    self,
                ).username_attempts@.len() + 1);
                assert(self@.username_attempts =~= o.state.username_attempts);
            }
            return Ok(CredentialCandidate::SshKeyFromAgent(name));
        }
        if allowed.user_pass_plaintext {
            let user = match remote_username {
                Some(u) => Some(u.to_owned()),
                None => None,
            };
            return Ok(CredentialCandidate::HelperLookup(user));
        }
        if allowed.default_kind {
            self.attempted.default_kind = true;
            return Ok(CredentialCandidate::DefaultCred);
        }
        Err(NegotiationError::AuthUnavailable)
    }

    /// Record, for diagnostics only, whether the last credential-helper
    /// lookup failed; nothing else of the session changes.
    pub fn note_helper_result(&mut self, succeeded: bool)
        ensures
            final(self)@ == (NegView { failed_helper: !succeeded, ..old(self)@ }),
    {
        self.failed_helper = !succeeded;
    }
}

} // verus!
