use vstd::prelude::*;

use crate::kinds::KindSet;
use crate::negotiate::{
    opt_str_view, spec_step, CandidateView, CredentialCandidate, CredentialNegotiator, NegView,
};

verus! {

#[verifier::external_type_specification]
#[verifier::external_body]
pub struct ExCred(git2::Cred);

#[verifier::external_type_specification]
#[verifier::external_body]
pub struct ExError(git2::Error);

#[verifier::external_type_specification]
#[verifier::external_body]
pub struct ExConfig(git2::Config);

#[verifier::external_type_specification]
#[verifier::external_body]
pub struct ExCredentialType(git2::CredentialType);

#[verifier::external_type_specification]
#[verifier::external_body]
pub struct ExRepository(git2::Repository);

/// Relies on git2::CredentialType::contains: reads which credential kinds the
/// transport declares acceptable, one flag each; `unknown` collects the kinds
/// this negotiator does not know how to satisfy.
#[verifier::external_body]
pub(crate) fn kinds_from(allowed: git2::CredentialType) -> (r: KindSet) {
    KindSet {
        username: allowed.contains(git2::CredentialType::USERNAME),
        ssh_key: allowed.contains(git2::CredentialType::SSH_KEY),
        user_pass_plaintext: allowed.contains(git2::CredentialType::USER_PASS_PLAINTEXT),
        default_kind: allowed.contains(git2::CredentialType::DEFAULT),
        unknown: allowed.contains(git2::CredentialType::SSH_MEMORY) || allowed.contains(
            git2::CredentialType::SSH_CUSTOM,
        ) || allowed.contains(git2::CredentialType::SSH_INTERACTIVE),
    }
}

/// Relies on git2::Cred::username: builds the bare-username credential that
/// answers a sub-negotiation probe. Fails only on an unrepresentable name or
/// an allocation failure inside the library.
#[verifier::external_body]
pub(crate) fn cred_username(name: &str) -> (r: Result<git2::Cred, git2::Error>) {
    git2::Cred::username(name)
}

/// Relies on git2::Cred::userpass_plaintext: builds a plaintext
/// username/password credential from the two given strings.
#[verifier::external_body]
pub(crate) fn cred_userpass(user: &str, pass: &str) -> (r: Result<git2::Cred, git2::Error>) {
    git2::Cred::userpass_plaintext(user, pass)
}

/// Relies on git2::Cred::ssh_key_from_agent: builds a credential that asks an
/// ssh-agent for the identity of the given username when the transport
/// authenticates.
#[verifier::external_body]
pub(crate) fn cred_ssh_agent(name: &str) -> (r: Result<git2::Cred, git2::Error>) {
    git2::Cred::ssh_key_from_agent(name)
}

/// Relies on git2::Cred::credential_helper: runs the configured credential
/// helper for the URL and optional username and, when the helper yields a
/// pair, builds a plaintext credential from it. The outcome depends on host
/// configuration and the helper program, so nothing more is promised.
#[verifier::external_body]
pub(crate) fn cred_from_helper(
    cfg: &git2::Config,
    url: &str,
    username: Option<&str>,
) -> (r: Result<git2::Cred, git2::Error>) {
    git2::Cred::credential_helper(cfg, url, username)
}

/// Relies on git2::Cred::default: builds the default/implicit credential used
/// by negotiate-style mechanisms.
#[verifier::external_body]
pub(crate) fn cred_default() -> (r: Result<git2::Cred, git2::Error>) {
    git2::Cred::default()
}

/// Relies on git2::Error::from_str: wraps a message as a transport error.
#[verifier::external_body]
pub(crate) fn git_error(msg: &str) -> (r: git2::Error) {
    git2::Error::from_str(msg)
}

/// Relies on git2::CredentialHelper::new and config: parses the credential
/// sections of the given configuration for this URL and hands back the
/// username configured there, if any.
#[verifier::external_body]
pub(crate) fn helper_username_for(cfg: &git2::Config, url: &str) -> (r: Option<String>) {
    let mut helper = git2::CredentialHelper::new(url);
    helper.config(cfg);
    helper.username
}

/// Relies on git2::Repository::config: opens the configuration the
/// repository sees, with its layered precedence.
#[verifier::external_body]
pub(crate) fn repo_config(repo: &git2::Repository) -> (r: Result<git2::Config, git2::Error>) {
    repo.config()
}

/// Relies on git2::Config::get_string: looks the key up across the layered
/// configuration. The outcome depends on the host's configuration files, so
/// nothing more is promised.
#[verifier::external_body]
pub(crate) fn config_get_string(cfg: &git2::Config, key: &str) -> (r: Result<
    String,
    git2::Error,
>) {
    cfg.get_string(key)
}

/// What one transport-facing response leaves behind: the negotiation step of
/// the pre-state decides the candidate and the session's new state; only the
/// helper-lookup diagnostic flag additionally records whether the lookup
/// came back at all, and a terminal negotiation failure is handed on as an
/// error.
pub open spec fn respond_post(
    pre: NegView,
    post: NegView,
    requested: KindSet,
    username: Option<Seq<char>>,
    r_is_err: bool,
) -> bool {
    let o = spec_step(pre, requested, username);
    &&& (o.result is Err ==> r_is_err && post == o.state)
    &&& (o.result matches Ok(c) ==> (match c {
        CandidateView::HelperLookup(_) => post == (NegView {
            failed_helper: r_is_err,
            ..o.state
        }),
        _ => post == o.state,
    }))
}

impl CredentialNegotiator {
    /// Answer one authentication callback whose allowed kinds are already
    /// read into a `KindSet`: run one negotiation step and build the
    /// credential the chosen candidate calls for.
    pub fn respond(
        &mut self,
        cfg: &git2::Config,
        url: &str,
        username: Option<&str>,
        requested: KindSet,
    ) -> (r: Result<git2::Cred, git2::Error>)
        ensures
            respond_post(old(self)@, final(self)@, requested, opt_str_view(username), r is Err),
    {
        let decision = self.next_credential(requested, username);
        match decision {
            Ok(CredentialCandidate::Username(name)) => cred_username(name.as_str()),
            Ok(CredentialCandidate::Plaintext(user, pass)) => cred_userpass(
                user.as_str(),
                pass.as_str(),
            ),
            Ok(CredentialCandidate::SshKeyFromAgent(name)) => cred_ssh_agent(name.as_str()),
            Ok(CredentialCandidate::HelperLookup(user)) => {
                let user_ref = match &user {
                    Some(u) => Some(u.as_str()),
                    None => None,
                };
                let r = cred_from_helper(cfg, url, user_ref);
                let ok = r.is_ok();
                self.note_helper_result(ok);
                r
            },
            Ok(CredentialCandidate::DefaultCred) => cred_default(),
            Err(e) => Err(git_error(e.message())),
        }
    }

    /// Answer one authentication callback as the transport poses it. Reading
    /// the allowed kinds out of the transport's flag word is trusted, so this
    /// promises the response discipline for some set of kinds rather than a
    /// particular one.
    pub fn credentials(
        &mut self,
        cfg: &git2::Config,
        url: &str,
        username: Option<&str>,
        allowed: git2::CredentialType,
    ) -> (r: Result<git2::Cred, git2::Error>)
        ensures
            exists|k: KindSet|
                #[trigger] respond_post(
                    old(self)@,
                    final(self)@,
                    k,
                    opt_str_view(username),
                    r is Err,
                ),
    {
        let kinds = kinds_from(allowed);
        self.respond(cfg, url, username, kinds)
    }
}

} // verus!
