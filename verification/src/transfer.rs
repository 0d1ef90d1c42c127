use vstd::prelude::*;

use crate::gitcred::{helper_username_for, repo_config};
use crate::negotiate::{AuthEnv, CredentialNegotiator};

verus! {

/// Relies on git2::Remote::fetch, git2::Repository::remote_anonymous,
/// git2::RemoteCallbacks::credentials and git2::FetchOptions::download_tags:
/// downloads the one refspec from the URL over an anonymous remote, asks for
/// all tags, and lets the transport query the negotiator for a credential as
/// often as it needs to. The network decides the outcome, so nothing more is
/// promised of it, nor of the session the transport drove.
#[verifier::external_body]
fn run_fetch(
    repo: &git2::Repository,
    cfg: &git2::Config,
    url: &str,
    refspec: &str,
    negotiator: &mut CredentialNegotiator,
) -> (r: Result<(), git2::Error>) {
    let mut callbacks = git2::RemoteCallbacks::new();
    callbacks.credentials(|u, username, allowed| negotiator.credentials(cfg, u, username, allowed));
    let mut remote = repo.remote_anonymous(url)?;
    let mut opts = git2::FetchOptions::new();
    opts.remote_callbacks(callbacks).download_tags(git2::AutotagOption::All);
    remote.fetch(&[refspec], Some(&mut opts), None)
}

/// One-shot refspec transfer from `url` into the local repository,
/// authenticating through a fresh negotiation session built from the
/// injected environment inputs and the configured credential-helper
/// username. Success carries no payload; a failure is the transport's or the
/// negotiator's terminal error, unmodified.
pub fn fetch(repo: &git2::Repository, url: &str, refspec: &str, auth: AuthEnv) -> (r: Result<
    (),
    git2::Error,
>) {
    let cfg = match repo_config(repo) {
        Ok(c) => c,
        Err(e) => { return Err(e); },
    };
    let helper_username = helper_username_for(&cfg, url);
    let mut negotiator = CredentialNegotiator::new(auth.token, helper_username, auth.os_user);
    run_fetch(repo, &cfg, url, refspec, &mut negotiator)
}

} // verus!
