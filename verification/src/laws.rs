use vstd::prelude::*;

use crate::kinds::KindSet;
use crate::negotiate::{
    candidate_kind, cursor_rank, first_available, next_cursor, source_at, spec_step, wf,
    CandidateView, NegView, NegotiationError, UsernameCursor,
};

verus! {

/// The kinds a step can still draw from only shrink: whatever a step marks
/// attempted stays attempted, and only kinds the remote requested are added.
pub proof fn lemma_attempted_monotone(s: NegView, requested: KindSet, remote: Option<Seq<char>>)
    ensures
        s.attempted.le(spec_step(s, requested, remote).state.attempted),
        spec_step(s, requested, remote).state.attempted.le(
            KindSet {
                username: s.attempted.username || requested.username,
                ssh_key: s.attempted.ssh_key || requested.ssh_key,
                user_pass_plaintext: s.attempted.user_pass_plaintext
                    || requested.user_pass_plaintext,
                default_kind: s.attempted.default_kind || requested.default_kind,
                unknown: s.attempted.unknown || requested.unknown,
            },
        ),
        wf(s) ==> wf(spec_step(s, requested, remote).state),
{
}

/// A step never returns a credential whose kind is already marked attempted
/// when the step begins. Since attempted kinds only ever grow, this holds at
/// every point of every sequence of callback round-trips a transport can
/// present.
pub proof fn lemma_no_reattempt(s: NegView, requested: KindSet, remote: Option<Seq<char>>)
    ensures
        spec_step(s, requested, remote).result matches Ok(c) ==> !s.attempted.has(
            candidate_kind(c),
        ),
{
}

/// At no point of any sequence of callback round-trips does the negotiator
/// return a credential whose kind it already attempted earlier in the
/// session.
pub proof fn lemma_session_never_reattempts(s: NegView, queries: Seq<CallbackQuery>, i: int)
    requires
        0 <= i < queries.len(),
    ensures
        ({
            let before = run_session(s, queries.take(i));
            spec_step(before, queries[i].requested, queries[i].remote_username).result matches Ok(
                c,
            ) ==> !before.attempted.has(candidate_kind(c))
        }),
{
    let before = run_session(s, queries.take(i));
    lemma_no_reattempt(before, queries[i].requested, queries[i].remote_username);
}

/// A terminal failure is stable: it mutates nothing, so presenting the same
/// request again returns the same failure, with no resurrection of
/// already-attempted kinds.
pub proof fn lemma_terminal_failure_stable(s: NegView, requested: KindSet, remote: Option<Seq<char>>)
    ensures
        ({
            let o = spec_step(s, requested, remote);
            o.result is Err ==> {
                &&& o.state == s
                &&& spec_step(o.state, requested, remote) == o
            }
        }),
{
}

/// When the remote declares only kinds this negotiator does not know, the
/// step fails with the no-authentication-available error at once, whatever
/// was attempted before, and mutates nothing.
pub proof fn lemma_unknown_kinds_fail_immediately(
    s: NegView,
    requested: KindSet,
    remote: Option<Seq<char>>,
)
    requires
        wf(s),
        !requested.username,
        !requested.ssh_key,
        !requested.user_pass_plaintext,
        !requested.default_kind,
        requested.unknown,
    ensures
        spec_step(s, requested, remote).result == Err::<CandidateView, _>(
            NegotiationError::AuthUnavailable,
        ),
        spec_step(s, requested, remote).state == s,
{
}

/// When a token is set and the plaintext kind has not been attempted yet, the
/// first candidate of that kind is the token paired with an empty secret —
/// never a credential-helper lookup.
pub proof fn lemma_token_offered_first(s: NegView, requested: KindSet, remote: Option<Seq<char>>)
    requires
        s.token is Some,
        !s.attempted.user_pass_plaintext,
    ensures
        ({
            let o = spec_step(s, requested, remote);
            o.result matches Ok(c) ==> (candidate_kind(c) is UserPassPlaintext ==> c
                == CandidateView::Plaintext(s.token.unwrap(), Seq::empty()))
        }),
{
}

/// An SSH attempt picks the first source, at or after the cursor, that
/// yields a username: every source it skips yields nothing, so an absent
/// source consumes no attempt slot, and exactly one name enters the log.
pub proof fn lemma_ssh_priority_order(s: NegView, requested: KindSet, remote: Option<Seq<char>>)
    ensures
        ({
            let o = spec_step(s, requested, remote);
            o.result matches Ok(CandidateView::SshKeyFromAgent(n)) ==> {
                let pick = first_available(s, remote, s.cursor);
                &&& cursor_rank(s.cursor) <= cursor_rank(pick) <= 3
                &&& source_at(s, remote, pick) == Some(n)
                &&& forall|q: UsernameCursor|
                    cursor_rank(s.cursor) <= cursor_rank(q) < cursor_rank(pick)
                        ==> #[trigger] source_at(s, remote, q) is None
                &&& o.state.cursor == next_cursor(pick)
                &&& o.state.username_attempts == s.username_attempts.push(n)
            }
        }),
{
    let o = spec_step(s, requested, remote);
    if o.result matches Ok(CandidateView::SshKeyFromAgent(n)) {
        let pick = first_available(s, remote, s.cursor);
        assert forall|q: UsernameCursor|
            cursor_rank(s.cursor) <= cursor_rank(q) < cursor_rank(pick) implies #[trigger] source_at(
            s,
            remote,
            q,
        ) is None by {
            match q {
                UsernameCursor::RemoteSupplied => {},
                UsernameCursor::HelperConfigured => {},
                UsernameCursor::OsLocal => {},
                UsernameCursor::FallbackLiteral => {},
            }
        }
    }
}

/// How many SSH attempts a session can still make: none once the kind is
/// marked attempted, otherwise one per source not yet passed by the cursor.
pub open spec fn ssh_budget(s: NegView) -> int {
    if s.attempted.ssh_key {
        0
    } else {
        4 - cursor_rank(s.cursor)
    }
}

/// One query of a simulated transport: the declared-acceptable kinds and the
/// username the remote's request supplied.
pub struct CallbackQuery {
    pub requested: KindSet,
    pub remote_username: Option<Seq<char>>,
}

/// The session state after a whole sequence of callback round-trips.
pub open spec fn run_session(s: NegView, queries: Seq<CallbackQuery>) -> NegView
    decreases queries.len(),
{
    if queries.len() == 0 {
        s
    } else {
        run_session(
            spec_step(s, queries[0].requested, queries[0].remote_username).state,
            queries.drop_first(),
        )
    }
}

/// One step never lengthens the username log beyond the SSH budget it
/// consumes, never moves the cursor backwards, and never unmarks a kind.
pub proof fn lemma_step_session_measures(s: NegView, requested: KindSet, remote: Option<Seq<char>>)
    ensures
        ({
            let t = spec_step(s, requested, remote).state;
            &&& t.username_attempts.len() + ssh_budget(t) <= s.username_attempts.len()
                + ssh_budget(s)
            &&& cursor_rank(s.cursor) <= cursor_rank(t.cursor)
            &&& s.attempted.le(t.attempted)
            &&& 0 <= ssh_budget(t) <= ssh_budget(s)
            &&& s.username_attempts.len() <= t.username_attempts.len()
        }),
{
}

/// Across any sequence of callback round-trips, the log of SSH usernames
/// grows by at most the session's SSH budget, the cursor never moves
/// backwards, and attempted kinds only grow.
pub proof fn lemma_session_measures(s: NegView, queries: Seq<CallbackQuery>)
    ensures
        ({
            let t = run_session(s, queries);
            &&& t.username_attempts.len() + ssh_budget(t) <= s.username_attempts.len()
                + ssh_budget(s)
            &&& cursor_rank(s.cursor) <= cursor_rank(t.cursor)
            &&& s.attempted.le(t.attempted)
            &&& 0 <= ssh_budget(t) <= ssh_budget(s)
            &&& s.username_attempts.len() <= t.username_attempts.len()
        }),
    decreases queries.len(),
{
    if queries.len() > 0 {
        let mid = spec_step(s, queries[0].requested, queries[0].remote_username).state;
        lemma_step_session_measures(s, queries[0].requested, queries[0].remote_username);
        lemma_session_measures(mid, queries.drop_first());
    }
}

/// A fresh session makes at most four distinct SSH-username attempts, however
/// long the transport keeps asking.
pub proof fn lemma_ssh_attempts_bounded(s: NegView, queries: Seq<CallbackQuery>)
    requires
        s.username_attempts.len() == 0,
        s.cursor is RemoteSupplied,
        !s.attempted.ssh_key,
    ensures
        run_session(s, queries).username_attempts.len() <= 4,
{
    lemma_session_measures(s, queries);
}

/// The ranks of the username sources a session's SSH attempts draw from, one
/// per attempt, in the order the attempts are made.
pub open spec fn session_picks(s: NegView, queries: Seq<CallbackQuery>) -> Seq<int>
    decreases queries.len(),
{
    if queries.len() == 0 {
        Seq::empty()
    } else {
        let o = spec_step(s, queries[0].requested, queries[0].remote_username);
        let rest = session_picks(o.state, queries.drop_first());
        if o.result matches Ok(CandidateView::SshKeyFromAgent(_)) {
            Seq::empty().push(
                cursor_rank(first_available(s, queries[0].remote_username, s.cursor)),
            ) + rest
        } else {
            rest
        }
    }
}

/// Across a whole session the SSH attempts follow the fixed priority order:
/// one log entry per attempt, each attempt drawn from a source strictly later
/// in the order than the one before, all at or after the session's cursor —
/// and none at all once the SSH kind is marked attempted.
pub proof fn lemma_session_priority_order(s: NegView, queries: Seq<CallbackQuery>)
    ensures
        ({
            let t = run_session(s, queries);
            let picks = session_picks(s, queries);
            &&& t.username_attempts.len() == s.username_attempts.len() + picks.len()
            &&& (s.attempted.ssh_key ==> picks.len() == 0)
            &&& forall|i: int|
                0 <= i < picks.len() ==> cursor_rank(s.cursor) <= #[trigger] picks[i] <= 3
            &&& forall|i: int| 0 <= i < picks.len() - 1 ==> #[trigger] picks[i] < picks[i + 1]
        }),
    decreases queries.len(),
{
    if queries.len() > 0 {
        let q = queries[0];
        let o = spec_step(s, q.requested, q.remote_username);
        let rest = session_picks(o.state, queries.drop_first());
        lemma_session_priority_order(o.state, queries.drop_first());
        let picks = session_picks(s, queries);
        if o.result matches Ok(CandidateView::SshKeyFromAgent(_)) {
            let p = cursor_rank(first_available(s, q.remote_username, s.cursor));
            assert(picks == Seq::empty().push(p) + rest);
            assert(picks[0] == p);
            assert(forall|i: int| 0 <= i < rest.len() ==> #[trigger] rest[i] == picks[i + 1]);
            if p == 3 {
                assert(o.state.attempted.ssh_key);
                assert(rest.len() == 0);
            } else {
                assert(cursor_rank(o.state.cursor) == p + 1);
            }
        } else {
            assert(picks == rest);
            assert(cursor_rank(s.cursor) <= cursor_rank(o.state.cursor));
            assert(s.attempted.ssh_key ==> o.state.attempted.ssh_key);
        }
    }
}

} // verus!
