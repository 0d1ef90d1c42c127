use git2_commit::kinds::KindSet;
use git2_commit::negotiate::{CredentialCandidate, CredentialNegotiator, NegotiationError};

fn kinds(
    username: bool,
    ssh_key: bool,
    user_pass_plaintext: bool,
    default_kind: bool,
    unknown: bool,
) -> KindSet {
    KindSet {
        username,
        ssh_key,
        user_pass_plaintext,
        default_kind,
        unknown,
    }
}

fn some(s: &str) -> Option<String> {
    Some(s.to_string())
}

#[test]
fn scenario_username_then_ssh_key() {
    // Remote declares {Username} then {SshKey}; no token, no helper; OS user
    // is "alice"; the remote request itself supplies no username.
    let mut neg = CredentialNegotiator::new(None, None, some("alice"));

    let first = neg.next_credential(kinds(true, false, false, false, false), None);
    assert!(matches!(first, Ok(CredentialCandidate::Username(ref n)) if n == "git"));

    let second = neg.next_credential(kinds(false, true, false, false, false), None);
    assert!(matches!(second, Ok(CredentialCandidate::SshKeyFromAgent(ref n)) if n == "alice"));
    assert_eq!(neg.username_attempts, vec!["alice".to_string()]);
}

#[test]
fn scenario_token_plaintext_only() {
    // Remote declares {UserPassPlaintext} only; token set to "T": exactly one
    // credential comes back, the plaintext pair ("T", "").
    let mut neg = CredentialNegotiator::new(some("T"), None, None);

    let first = neg.next_credential(kinds(false, false, true, false, false), None);
    assert!(
        matches!(first, Ok(CredentialCandidate::Plaintext(ref u, ref p)) if u == "T" && p == "")
    );

    let second = neg.next_credential(kinds(false, false, true, false, false), None);
    assert_eq!(second.unwrap_err(), NegotiationError::AuthExhausted);
}

#[test]
fn scenario_ssh_key_exhausts_after_four_names() {
    // Remote declares {SshKey} over and over; all four sources yield a name:
    // exactly four distinct attempts in priority order, then exhaustion.
    let mut neg = CredentialNegotiator::new(None, some("huser"), some("ouser"));
    let ssh = kinds(false, true, false, false, false);

    let expected = ["ruser", "huser", "ouser", "git"];
    for want in expected {
        let r = neg.next_credential(ssh, Some("ruser"));
        assert!(matches!(r, Ok(CredentialCandidate::SshKeyFromAgent(ref n)) if n == want));
    }
    assert_eq!(
        neg.username_attempts,
        vec![
            "ruser".to_string(),
            "huser".to_string(),
            "ouser".to_string(),
            "git".to_string()
        ]
    );

    let fifth = neg.next_credential(ssh, Some("ruser"));
    assert_eq!(fifth.unwrap_err(), NegotiationError::AuthExhausted);
}

#[test]
fn ssh_skips_absent_sources_without_consuming_attempts() {
    // No remote-supplied name and no OS user: the helper-configured name is
    // picked first, then the literal fallback; absent sources cost nothing.
    let mut neg = CredentialNegotiator::new(None, some("helper"), None);
    let ssh = kinds(false, true, false, false, false);

    let first = neg.next_credential(ssh, None);
    assert!(matches!(first, Ok(CredentialCandidate::SshKeyFromAgent(ref n)) if n == "helper"));

    let second = neg.next_credential(ssh, None);
    assert!(matches!(second, Ok(CredentialCandidate::SshKeyFromAgent(ref n)) if n == "git"));
    assert_eq!(neg.username_attempts.len(), 2);

    let third = neg.next_credential(ssh, None);
    assert_eq!(third.unwrap_err(), NegotiationError::AuthExhausted);
}

#[test]
fn unknown_kinds_fail_without_touching_state() {
    let mut neg = CredentialNegotiator::new(None, None, some("alice"));

    let r = neg.next_credential(kinds(false, false, false, false, true), None);
    assert_eq!(r.unwrap_err(), NegotiationError::AuthUnavailable);
    assert_eq!(neg.attempted, KindSet::empty());
    assert!(neg.username_attempts.is_empty());

    // The failure is stable: asking again changes nothing.
    let again = neg.next_credential(kinds(false, false, false, false, true), None);
    assert_eq!(again.unwrap_err(), NegotiationError::AuthUnavailable);
    assert_eq!(neg.attempted, KindSet::empty());
}

#[test]
fn terminal_exhaustion_is_idempotent() {
    let mut neg = CredentialNegotiator::new(None, None, None);
    let username_only = kinds(true, false, false, false, false);

    let first = neg.next_credential(username_only, Some("bob"));
    assert!(matches!(first, Ok(CredentialCandidate::Username(ref n)) if n == "bob"));

    for _ in 0..3 {
        let r = neg.next_credential(username_only, Some("bob"));
        assert_eq!(r.unwrap_err(), NegotiationError::AuthExhausted);
    }
}

#[test]
fn empty_request_is_exhausted() {
    let mut neg = CredentialNegotiator::new(some("T"), None, None);
    let r = neg.next_credential(KindSet::empty(), None);
    assert_eq!(r.unwrap_err(), NegotiationError::AuthExhausted);
}

#[test]
fn token_wins_over_helper_lookup() {
    // With a token set, the very first plaintext offer is the token pair,
    // never a credential-helper lookup.
    let mut neg = CredentialNegotiator::new(some("sekrit"), None, None);
    let r = neg.next_credential(kinds(false, false, true, false, false), Some("bob"));
    assert!(
        matches!(r, Ok(CredentialCandidate::Plaintext(ref u, ref p)) if u == "sekrit" && p == "")
    );
}

#[test]
fn missing_token_falls_through_to_helper_lookup() {
    // Plaintext allowed but no token: the same invocation falls through to
    // the credential-helper lookup, keyed by the remote-supplied username,
    // and the kind counts as attempted.
    let mut neg = CredentialNegotiator::new(None, None, None);

    let r = neg.next_credential(kinds(false, false, true, false, false), Some("bob"));
    assert!(matches!(r, Ok(CredentialCandidate::HelperLookup(Some(ref u))) if u == "bob"));

    let again = neg.next_credential(kinds(false, false, true, false, false), Some("bob"));
    assert_eq!(again.unwrap_err(), NegotiationError::AuthExhausted);
}

#[test]
fn username_probe_prefers_remote_supplied_name() {
    let mut neg = CredentialNegotiator::new(None, None, None);
    let r = neg.next_credential(kinds(true, true, false, false, false), Some("carol"));
    assert!(matches!(r, Ok(CredentialCandidate::Username(ref n)) if n == "carol"));
    // The sub-negotiation consumed only the username probe; SSH is still open.
    let next = neg.next_credential(kinds(false, true, false, false, false), Some("carol"));
    assert!(matches!(next, Ok(CredentialCandidate::SshKeyFromAgent(ref n)) if n == "carol"));
}

#[test]
fn default_kind_is_served_last() {
    let mut neg = CredentialNegotiator::new(None, None, None);
    let r = neg.next_credential(kinds(false, false, false, true, false), None);
    assert!(matches!(r, Ok(CredentialCandidate::DefaultCred)));
    let again = neg.next_credential(kinds(false, false, false, true, false), None);
    assert_eq!(again.unwrap_err(), NegotiationError::AuthExhausted);
}

#[test]
fn helper_diagnostic_flag_records_last_outcome() {
    let mut neg = CredentialNegotiator::new(None, None, None);
    assert!(!neg.failed_helper);
    neg.note_helper_result(false);
    assert!(neg.failed_helper);
    neg.note_helper_result(true);
    assert!(!neg.failed_helper);
}

#[test]
fn terminal_error_message_names_the_failure() {
    assert_eq!(
        NegotiationError::AuthUnavailable.message(),
        "no authentication available"
    );
    assert_eq!(
        NegotiationError::AuthExhausted.message(),
        "no authentication available"
    );
}
