//! Properties of the protocol that span several requests, proved over the
//! abstract steps that the server's handlers are verified against.
use crate::account::password_matches;
use crate::mailbox::{delivered, enqueued, queue_of};
use crate::message::{MessageView, SAccount};
use crate::server::{
    create_spec, create_step, fetch_step, issued, login_spec, login_step, logout_step, send_spec,
    send_step, Fetched, Reply, ServerView,
};
use vstd::prelude::*;

verus! {

proof fn lemma_issued_stays_live(states: Seq<ServerView>, ts: Seq<u128>, i: int, k: int)
    requires
        states.len() == ts.len() + 1,
        forall|j: int| 0 <= j < ts.len() ==> #[trigger] issued(states[j], states[j + 1], ts[j]),
        0 <= i < k <= ts.len(),
    ensures
        states[k].sessions.contains_key(ts[i]),
    decreases k - i,
{
    let j = k - 1;
    assert(issued(states[j], states[j + 1], ts[j]));
    assert(j + 1 == k);
    if k - 1 > i {
        lemma_issued_stays_live(states, ts, i, k - 1);
    }
}

/// Tokens issued by a run of handshakes are pairwise distinct: each is
/// fresh against the live sessions, which the run only adds to.
pub proof fn lemma_tokens_distinct(states: Seq<ServerView>, ts: Seq<u128>)
    requires
        states.len() == ts.len() + 1,
        forall|j: int| 0 <= j < ts.len() ==> #[trigger] issued(states[j], states[j + 1], ts[j]),
    ensures
        forall|i: int, j: int| 0 <= i < j < ts.len() ==> ts[i] != ts[j],
{
    assert forall|i: int, j: int| 0 <= i < j < ts.len() implies ts[i] != ts[j] by {
        lemma_issued_stays_live(states, ts, i, j);
        assert(issued(states[j], states[j + 1], ts[j]));
        assert(states[j].sessions.contains_key(ts[i]));
    }
}

/// Creating the same username twice never succeeds twice: once the first
/// creation succeeds, the second answers `AccountExists` on any live
/// session.
pub proof fn lemma_account_idempotence(
    s: ServerView,
    t1: u128,
    t2: u128,
    u: Seq<char>,
    d1: Seq<char>,
    d2: Seq<char>,
)
    ensures
        !(create_step(s, t1, u, d1).0 == SAccount::Success && create_step(
            create_step(s, t1, u, d1).1,
            t2,
            u,
            d2,
        ).0 == SAccount::Success),
        create_step(s, t1, u, d1).0 == SAccount::Success && s.sessions.contains_key(t2) ==> create_step(
            create_step(s, t1, u, d1).1,
            t2,
            u,
            d2,
        ).0 == SAccount::AccountExists,
{
}

/// After an account is created, logging in with its digest succeeds and
/// logging in with any other digest answers `IncorrectPassword`.
pub proof fn lemma_login_after_create(
    s: ServerView,
    t: u128,
    t2: u128,
    u: Seq<char>,
    d: Seq<char>,
    other: Seq<char>,
)
    requires
        create_step(s, t, u, d).0 == SAccount::Success,
        s.sessions.contains_key(t2),
    ensures
        login_step(create_step(s, t, u, d).1, t2, u, d).0 == SAccount::Success,
        other != d ==> login_step(create_step(s, t, u, d).1, t2, u, other).0
            == SAccount::IncorrectPassword,
{
    let s1 = create_step(s, t, u, d).1;
    assert(password_matches(s1.accounts, u, d));
}

proof fn lemma_deliver_one(m: Map<Seq<char>, Seq<MessageView>>, b: Seq<char>, msg: MessageView)
    ensures
        delivered(m, seq![b], msg) == enqueued(m, b, msg),
{
    assert(seq![b].drop_last() =~= Seq::<Seq<char>>::empty());
    assert(delivered(m, Seq::<Seq<char>>::empty(), msg) == m);
}

/// The message that `send_step` queues for a sender `u`.
pub open spec fn sent_message(u: Seq<char>, rs: Seq<Seq<char>>, c: Seq<char>) -> MessageView {
    MessageView { sender: u, recipients: rs, contents: c }
}

/// Three messages sent one after another to a user whose mailbox is
/// empty come back from three fetches in the order they were sent.
pub proof fn lemma_mailbox_fifo(
    s: ServerView,
    ts: u128,
    tr: u128,
    sender: Seq<char>,
    bob: Seq<char>,
    c1: Seq<char>,
    c2: Seq<char>,
    c3: Seq<char>,
)
    requires
        s.sessions.contains_key(ts),
        s.sessions[ts].username == Some(sender),
        s.sessions.contains_key(tr),
        s.sessions[tr].username == Some(bob),
        queue_of(s.mailboxes, bob).len() == 0,
    ensures
        ({
            let s1 = send_step(s, ts, seq![bob], c1).1;
            let s2 = send_step(s1, ts, seq![bob], c2).1;
            let s3 = send_step(s2, ts, seq![bob], c3).1;
            let f1 = fetch_step(s3, tr);
            let f2 = fetch_step(f1.1, tr);
            let f3 = fetch_step(f2.1, tr);
            &&& f1.0 == Fetched::Ready(sent_message(sender, seq![bob], c1))
            &&& f2.0 == Fetched::Ready(sent_message(sender, seq![bob], c2))
            &&& f3.0 == Fetched::Ready(sent_message(sender, seq![bob], c3))
            &&& fetch_step(f3.1, tr).0 == Fetched::Pending
        }),
{
    let rs = seq![bob];
    let m1 = sent_message(sender, rs, c1);
    let m2 = sent_message(sender, rs, c2);
    let m3 = sent_message(sender, rs, c3);
    let s1 = send_step(s, ts, rs, c1).1;
    lemma_deliver_one(s.mailboxes, bob, m1);
    let s2 = send_step(s1, ts, rs, c2).1;
    lemma_deliver_one(s1.mailboxes, bob, m2);
    let s3 = send_step(s2, ts, rs, c3).1;
    lemma_deliver_one(s2.mailboxes, bob, m3);
    assert(queue_of(s3.mailboxes, bob) =~= seq![m1, m2, m3]);
    let f1 = fetch_step(s3, tr);
    assert(queue_of(f1.1.mailboxes, bob) =~= seq![m2, m3]);
    let f2 = fetch_step(f1.1, tr);
    assert(queue_of(f2.1.mailboxes, bob) =~= seq![m3]);
    let f3 = fetch_step(f2.1, tr);
    assert(queue_of(f3.1.mailboxes, bob) =~= Seq::<MessageView>::empty());
}

/// Sending to two distinct users queues exactly one copy for each, with
/// the session's username as sender and the full recipient list; every
/// other mailbox is unchanged.
pub proof fn lemma_fan_out(s: ServerView, t: u128, bob: Seq<char>, carol: Seq<char>, c: Seq<char>)
    requires
        s.sessions.contains_key(t),
        s.sessions[t].username is Some,
        bob != carol,
    ensures
        ({
            let m = sent_message(s.sessions[t].username.unwrap(), seq![bob, carol], c);
            let after = send_step(s, t, seq![bob, carol], c);
            &&& after.0 == Reply::Sent
            &&& queue_of(after.1.mailboxes, bob) == queue_of(s.mailboxes, bob).push(m)
            &&& queue_of(after.1.mailboxes, carol) == queue_of(s.mailboxes, carol).push(m)
            &&& forall|x: Seq<char>|
                x != bob && x != carol ==> #[trigger] queue_of(after.1.mailboxes, x) == queue_of(
                    s.mailboxes,
                    x,
                )
        }),
{
    let rs = seq![bob, carol];
    let m = sent_message(s.sessions[t].username.unwrap(), rs, c);
    assert(rs.drop_last() =~= seq![bob]);
    lemma_deliver_one(s.mailboxes, bob, m);
    assert(delivered(s.mailboxes, rs, m) == enqueued(enqueued(s.mailboxes, bob, m), carol, m));
}

/// Once a session is logged out, every request that presents its token
/// is answered `InvalidToken`, and none changes the state.
pub proof fn lemma_logout_invalidates(s: ServerView, t: u128, c: Seq<u8>)
    ensures
        ({
            let s1 = logout_step(s, t).1;
            &&& login_spec(s1, t, c) == (Ok::<SAccount, crate::envelope::CryptoError>(
                SAccount::InvalidToken,
            ), s1)
            &&& create_spec(s1, t, c) == (Ok::<SAccount, crate::envelope::CryptoError>(
                SAccount::InvalidToken,
            ), s1)
            &&& logout_step(s1, t) == (SAccount::InvalidToken, s1)
            &&& send_spec(s1, t, c) == (Ok::<Reply, crate::envelope::CryptoError>(
                Reply::Account(SAccount::InvalidToken),
            ), s1)
            &&& fetch_step(s1, t) == (Fetched::Refused(SAccount::InvalidToken), s1)
        }),
{
}

} // verus!
