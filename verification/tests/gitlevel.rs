use git2_commit::kinds::KindSet;
use git2_commit::negotiate::CredentialNegotiator;

fn empty_config() -> git2::Config {
    git2::Config::new().unwrap()
}

#[test]
fn username_probe_yields_a_credential() {
    let cfg = empty_config();
    let mut neg = CredentialNegotiator::new(None, None, Some("alice".to_string()));
    let r = neg.credentials(
        &cfg,
        "https://example.invalid/repo.git",
        None,
        git2::CredentialType::USERNAME,
    );
    assert!(r.is_ok());
    assert!(neg.attempted.username);
}

#[test]
fn token_plaintext_yields_a_credential() {
    let cfg = empty_config();
    let mut neg = CredentialNegotiator::new(Some("T".to_string()), None, None);
    let r = neg.credentials(
        &cfg,
        "https://example.invalid/repo.git",
        None,
        git2::CredentialType::USER_PASS_PLAINTEXT,
    );
    assert!(r.is_ok());
    assert!(neg.attempted.user_pass_plaintext);
}

#[test]
fn ssh_agent_request_carries_the_picked_username() {
    let cfg = empty_config();
    let mut neg = CredentialNegotiator::new(None, None, Some("alice".to_string()));
    let r = neg.credentials(
        &cfg,
        "https://example.invalid/repo.git",
        None,
        git2::CredentialType::SSH_KEY,
    );
    // Building the agent-backed credential object does not yet contact an
    // agent, so the candidate for "alice" comes back as a credential.
    assert!(r.is_ok());
    assert_eq!(neg.username_attempts, vec!["alice".to_string()]);
}

#[test]
fn helper_lookup_on_empty_config_fails_and_is_recorded() {
    let cfg = empty_config();
    let mut neg = CredentialNegotiator::new(None, None, None);
    let r = neg.credentials(
        &cfg,
        "https://example.invalid/repo.git",
        None,
        git2::CredentialType::USER_PASS_PLAINTEXT,
    );
    // No token and no helper configured anywhere in an empty configuration:
    // the lookup fails, the failure is recorded, the kind is consumed.
    assert!(r.is_err());
    assert!(neg.failed_helper);
    assert!(neg.attempted.user_pass_plaintext);

    let again = neg.credentials(
        &cfg,
        "https://example.invalid/repo.git",
        None,
        git2::CredentialType::USER_PASS_PLAINTEXT,
    );
    assert!(again.is_err());
}

#[test]
fn default_kind_yields_a_credential() {
    let cfg = empty_config();
    let mut neg = CredentialNegotiator::new(None, None, None);
    let r = neg.credentials(
        &cfg,
        "https://example.invalid/repo.git",
        None,
        git2::CredentialType::DEFAULT,
    );
    assert!(r.is_ok());
    assert!(neg.attempted.default_kind);
}

#[test]
fn empty_allowed_set_is_a_terminal_error() {
    let cfg = empty_config();
    let mut neg = CredentialNegotiator::new(Some("T".to_string()), None, None);
    let r = neg.credentials(
        &cfg,
        "https://example.invalid/repo.git",
        None,
        git2::CredentialType::empty(),
    );
    assert!(r.is_err());
    assert_eq!(neg.attempted, KindSet::empty());
}

#[test]
fn unknown_kind_is_a_terminal_error() {
    let cfg = empty_config();
    let mut neg = CredentialNegotiator::new(None, None, None);
    let r = neg.credentials(
        &cfg,
        "https://example.invalid/repo.git",
        None,
        git2::CredentialType::SSH_CUSTOM,
    );
    assert!(r.is_err());
    assert_eq!(neg.attempted, KindSet::empty());
}
