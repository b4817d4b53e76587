//! The server's side of the protocol: one shared state holding the
//! session, account and mailbox stores, and one handler per request.
//! Each handler takes the whole state by `&mut`, so a caller that shares
//! the state behind a lock gets each request applied atomically.
use crate::account::{create_outcome, password_matches, AccountStore};
use crate::crypto::{
    clone_public_key, inbound_encoding, public_key_of, public_of, random_key_bytes, random_u128,
    valid_aes_key,
};
use crate::envelope::{
    aes_sealed, credentials_opened, key_sealed, opening_error, outbound_opened, rsa_opening_error,
    token_opened, token_sealed, AesData, CryptoError, RsaData,
};
use crate::mailbox::{delivered, dequeued, MailboxStore};
use crate::message::{
    copy_strings, strings_view, InboundMessage, MessageView, SAccount, SSendMessage,
};
use crate::packet::{CAccount, CPacket, CRecvMessage, CSendMessage, SPacket, SRecvMessage};
use crate::session::{logged_in, SessionRecord, SessionStore, SessionView};
use rsa::{RsaPrivateKey, RsaPublicKey};
use vstd::prelude::*;

verus! {

/// How many random tokens a handshake draws before it gives up.
pub const TOKEN_DRAWS: u64 = 64;

/// Why the server could not answer a request; the connection that sent it
/// is closed.
#[derive(PartialEq, Eq, Structural, Debug, Clone, Copy)]
pub enum ServerError {
    /// An envelope could not be sealed or opened.
    Crypto(CryptoError),
    /// Every token drawn was already in use.
    NoFreshToken,
}

/// The answer to a message submission.
#[derive(PartialEq, Eq, Structural, Debug, Clone, Copy)]
pub enum Reply {
    Account(SAccount),
    Sent,
}

/// What a fetch finds, in the abstract.
pub enum Fetched {
    Refused(SAccount),
    Pending,
    Ready(MessageView),
}

/// The answer to a fetch: a refusal, nothing yet, or the oldest waiting
/// message sealed under the session key.
pub enum FetchReply {
    Refused(SAccount),
    Pending,
    Ready(AesData),
}

/// The abstract state of the server.
pub struct ServerView {
    pub sessions: Map<u128, SessionView>,
    pub accounts: Map<Seq<char>, Seq<char>>,
    pub mailboxes: Map<Seq<char>, Seq<MessageView>>,
}

/// Logging in on session `t` as `u` with digest `d`.
pub open spec fn login_step(s: ServerView, t: u128, u: Seq<char>, d: Seq<char>) -> (
    SAccount,
    ServerView,
) {
    if !s.sessions.contains_key(t) {
        (SAccount::InvalidToken, s)
    } else if password_matches(s.accounts, u, d) {
        (
            SAccount::Success,
            ServerView {
                sessions: s.sessions.insert(t, logged_in(s.sessions[t], u)),
                accounts: s.accounts,
                mailboxes: s.mailboxes,
            },
        )
    } else {
        (SAccount::IncorrectPassword, s)
    }
}

/// A login request whose sealed credentials are `c`.
pub open spec fn login_spec(s: ServerView, t: u128, c: Seq<u8>) -> (
    Result<SAccount, CryptoError>,
    ServerView,
) {
    if !s.sessions.contains_key(t) {
        (Ok(SAccount::InvalidToken), s)
    } else {
        match credentials_opened(c, s.sessions[t].aes_key) {
            Some(p) => (Ok(login_step(s, t, p.0, p.1).0), login_step(s, t, p.0, p.1).1),
            None => (Err(opening_error(c, s.sessions[t].aes_key)), s),
        }
    }
}

/// Creating account `u` with digest `d` over session `t`.
pub open spec fn create_step(s: ServerView, t: u128, u: Seq<char>, d: Seq<char>) -> (
    SAccount,
    ServerView,
) {
    if !s.sessions.contains_key(t) {
        (SAccount::InvalidToken, s)
    } else {
        (
            create_outcome(s.accounts, u, d).0,
            ServerView {
                sessions: s.sessions,
                accounts: create_outcome(s.accounts, u, d).1,
                mailboxes: s.mailboxes,
            },
        )
    }
}

/// An account-creation request whose sealed credentials are `c`.
pub open spec fn create_spec(s: ServerView, t: u128, c: Seq<u8>) -> (
    Result<SAccount, CryptoError>,
    ServerView,
) {
    if !s.sessions.contains_key(t) {
        (Ok(SAccount::InvalidToken), s)
    } else {
        match credentials_opened(c, s.sessions[t].aes_key) {
            Some(p) => (Ok(create_step(s, t, p.0, p.1).0), create_step(s, t, p.0, p.1).1),
            None => (Err(opening_error(c, s.sessions[t].aes_key)), s),
        }
    }
}

/// Ending session `t`.
pub open spec fn logout_step(s: ServerView, t: u128) -> (SAccount, ServerView) {
    if !s.sessions.contains_key(t) {
        (SAccount::InvalidToken, s)
    } else {
        (
            SAccount::Success,
            ServerView { sessions: s.sessions.remove(t), accounts: s.accounts, mailboxes: s.mailboxes },
        )
    }
}

/// Sending `c` to the recipients `rs` over session `t`: one copy per
/// listed recipient, with the session's username as sender.
pub open spec fn send_step(s: ServerView, t: u128, rs: Seq<Seq<char>>, c: Seq<char>) -> (
    Reply,
    ServerView,
) {
    if !s.sessions.contains_key(t) {
        (Reply::Account(SAccount::InvalidToken), s)
    } else {
        match s.sessions[t].username {
            None => (Reply::Account(SAccount::NotLoggedIn), s),
            Some(u) => (
                Reply::Sent,
                ServerView {
                    sessions: s.sessions,
                    accounts: s.accounts,
                    mailboxes: delivered(
                        s.mailboxes,
                        rs,
                        MessageView { sender: u, recipients: rs, contents: c },
                    ),
                },
            ),
        }
    }
}

/// A send request whose sealed message is `c`; the message is opened only
/// on a logged-in session.
pub open spec fn send_spec(s: ServerView, t: u128, c: Seq<u8>) -> (
    Result<Reply, CryptoError>,
    ServerView,
) {
    if !s.sessions.contains_key(t) {
        (Ok(Reply::Account(SAccount::InvalidToken)), s)
    } else if s.sessions[t].username is None {
        (Ok(Reply::Account(SAccount::NotLoggedIn)), s)
    } else {
        match outbound_opened(c, s.sessions[t].aes_key) {
            Some(p) => (Ok(send_step(s, t, p.0, p.1).0), send_step(s, t, p.0, p.1).1),
            None => (Err(opening_error(c, s.sessions[t].aes_key)), s),
        }
    }
}

/// Fetching the oldest message for session `t`'s user.
pub open spec fn fetch_step(s: ServerView, t: u128) -> (Fetched, ServerView) {
    if !s.sessions.contains_key(t) {
        (Fetched::Refused(SAccount::InvalidToken), s)
    } else {
        match s.sessions[t].username {
            None => (Fetched::Refused(SAccount::NotLoggedIn), s),
            Some(u) => match dequeued(s.mailboxes, u).0 {
                None => (Fetched::Pending, s),
                Some(m) => (
                    Fetched::Ready(m),
                    ServerView {
                        sessions: s.sessions,
                        accounts: s.accounts,
                        mailboxes: dequeued(s.mailboxes, u).1,
                    },
                ),
            },
        }
    }
}

/// `r` is the concrete form of the abstract fetch result `f`, with a
/// delivered message sealed under `key`.
pub open spec fn fetch_reply_is(r: FetchReply, f: Fetched, key: Seq<u8>) -> bool {
    match f {
        Fetched::Refused(a) => r matches FetchReply::Refused(x) && x == a,
        Fetched::Pending => r is Pending,
        Fetched::Ready(m) => r matches FetchReply::Ready(d) && aes_sealed(
            d.data@,
            inbound_encoding(m.sender, m.recipients, m.contents),
            key,
        ),
    }
}

/// `s1`'s sessions are `s0`'s and one more under token `t`, which no
/// session of `s0` held.
pub open spec fn issued(s0: ServerView, s1: ServerView, t: u128) -> bool {
    !s0.sessions.contains_key(t) && s1.sessions == s0.sessions.insert(t, s1.sessions[t])
}

/// `p` answers a handshake from `client_key` at a server whose public key
/// is `server_pub`: `s1` is `s0` with one new session for `client_key`,
/// not yet logged in, under a token that no session of `s0` held, with a
/// 16-byte key; the reply carries the server's public key, and that token
/// and that session key sealed to `client_key`.
pub open spec fn handshake_answered(
    p: SPacket,
    s0: ServerView,
    s1: ServerView,
    client_key: RsaPublicKey,
    server_pub: RsaPublicKey,
) -> bool {
    match p {
        SPacket::Handshake { server_key, shared_key, token } => {
            &&& server_key == server_pub
            &&& exists|t: u128|
                #[trigger] issued(s0, s1, t) && s1.sessions[t].username is None
                    && s1.sessions[t].rsa_key == client_key && s1.sessions[t].aes_key.len() == 16
                    && token_sealed(token.data@, client_key, t) && key_sealed(
                    shared_key.data@,
                    client_key,
                    s1.sessions[t].aes_key,
                )
            &&& s1.accounts == s0.accounts
            &&& s1.mailboxes == s0.mailboxes
        },
        _ => false,
    }
}

/// The answer to a request whose sealed token does not open with
/// `server_key`.
pub open spec fn token_error(server_key: RsaPrivateKey, token: Seq<u8>) -> Result<
    Option<SPacket>,
    ServerError,
> {
    Err(ServerError::Crypto(rsa_opening_error(server_key, token)))
}

/// `r` carries the account answer `o`, or the failure to open its payload.
pub open spec fn answers_account(
    r: Result<Option<SPacket>, ServerError>,
    o: Result<SAccount, CryptoError>,
) -> bool {
    match o {
        Ok(a) => r matches Ok(Some(SPacket::Account(x))) && x == a,
        Err(e) => r == Err::<Option<SPacket>, ServerError>(ServerError::Crypto(e)),
    }
}

/// `r` carries the send answer `o`, or the failure to open its payload.
pub open spec fn answers_send(r: Result<Option<SPacket>, ServerError>, o: Result<Reply, CryptoError>) -> bool {
    match o {
        Ok(Reply::Account(a)) => r matches Ok(Some(SPacket::Account(x))) && x == a,
        Ok(Reply::Sent) => r matches Ok(Some(SPacket::SendMessage(_))),
        Err(e) => r == Err::<Option<SPacket>, ServerError>(ServerError::Crypto(e)),
    }
}

/// `r` carries the fetch result `f`, a message sealed under `key`.
pub open spec fn answers_fetch(r: Result<Option<SPacket>, ServerError>, f: Fetched, key: Seq<u8>) -> bool {
    match f {
        Fetched::Refused(a) => r matches Ok(Some(SPacket::Account(x))) && x == a,
        Fetched::Pending => r matches Ok(None),
        Fetched::Ready(m) => r matches Ok(Some(SPacket::RecvMessage(SRecvMessage::NextMsg { message })))
            && aes_sealed(message.data@, inbound_encoding(m.sender, m.recipients, m.contents), key),
    }
}

/// The whole server state.
pub struct Server {
    pub sessions: SessionStore,
    pub accounts: AccountStore,
    pub mailboxes: MailboxStore,
}

impl View for Server {
    type V = ServerView;

    open spec fn view(&self) -> ServerView {
        ServerView {
            sessions: self.sessions@,
            accounts: self.accounts@,
            mailboxes: self.mailboxes@,
        }
    }
}

impl Server {
    /// The stores are well formed and every session key is an AES key.
    pub open spec fn wf(&self) -> bool {
        &&& self.accounts.wf()
        &&& self.mailboxes.wf()
        &&& forall|t: u128|
            self.sessions@.contains_key(t) ==> valid_aes_key(#[trigger] self.sessions@[t].aes_key)
    }

    /// A server with no sessions, accounts or messages.
    pub fn new() -> (r: Server)
        ensures
            r.wf(),
            r@.sessions == Map::<u128, SessionView>::empty(),
            r@.accounts == Map::<Seq<char>, Seq<char>>::empty(),
            r@.mailboxes == Map::<Seq<char>, Seq<MessageView>>::empty(),
    {
        Server {
            sessions: SessionStore::new(),
            accounts: AccountStore::new(),
            mailboxes: MailboxStore::new(),
        }
    }

    /// A token that no live session holds, if one turns up within
    /// `TOKEN_DRAWS` random draws.
    fn fresh_token(&self) -> (r: Option<u128>)
        ensures
            r is Some ==> !self@.sessions.contains_key(r.unwrap()),
    {
        let mut draws: u64 = 0;
        while draws < TOKEN_DRAWS
            invariant
                draws <= TOKEN_DRAWS,
            decreases TOKEN_DRAWS - draws,
        {
            let t = random_u128();
            if !self.sessions.contains(t) {
                return Some(t);
            }
            draws = draws + 1;
        }
        None
    }

    /// Opens a session for `client_key`: a fresh random session key under a
    /// token that no live session holds, both sealed to the client's key,
    /// and the server's public key in the clear.
    pub fn handshake(&mut self, client_key: &RsaPublicKey, server_key: &RsaPrivateKey) -> (r:
        Result<SPacket, ServerError>)
        requires
            old(self).wf(),
        ensures
            final(self).wf(),
            r is Err ==> final(self)@ == old(self)@,
            r is Ok ==> r->Ok_0 is Handshake,
            r is Ok ==> handshake_answered(
                r->Ok_0,
                old(self)@,
                final(self)@,
                *client_key,
                public_of(*server_key),
            ),
    {
        let key = random_key_bytes();
        let ghost key_view = key@;
        let token = match self.fresh_token() {
            Some(t) => t,
            None => return Err(ServerError::NoFreshToken),
        };
        let shared_key = match RsaData::seal_key(&key, client_key) {
            Ok(d) => d,
            Err(e) => return Err(ServerError::Crypto(e)),
        };
        let sealed_token = match RsaData::seal_token(token, client_key) {
            Ok(d) => d,
            Err(e) => return Err(ServerError::Crypto(e)),
        };
        let rec = SessionRecord { username: None, rsa_key: clone_public_key(client_key), aes_key: key };
        let inserted = self.sessions.insert_if_absent(token, rec);
        assert(inserted);
        assert(self@.sessions[token].aes_key.len() == 16);
        assert(self@.sessions == old(self)@.sessions.insert(token, self@.sessions[token]));
        assert(issued(old(self)@, self@, token));
        assert(self@.sessions[token].aes_key == key_view);
        Ok(SPacket::Handshake { server_key: public_key_of(server_key), shared_key, token: sealed_token })
    }

    /// Logs session `token` in with the sealed credentials, if the account
    /// exists and the digest matches.
    pub fn login(&mut self, token: u128, creds: &AesData) -> (r: Result<SAccount, CryptoError>)
        requires
            old(self).wf(),
        ensures
            final(self).wf(),
            (r, final(self)@) == login_spec(old(self)@, token, creds.data@),
    {
        let (key, _name) = match self.sessions.lookup(token) {
            Some(p) => p,
            None => return Ok(SAccount::InvalidToken),
        };
        let c = match creds.open_credentials(&key) {
            Ok(c) => c,
            Err(e) => return Err(e),
        };
        if self.accounts.verify(&c.username, &c.pw_digest) {
            self.sessions.set_username(token, c.username);
            Ok(SAccount::Success)
        } else {
            Ok(SAccount::IncorrectPassword)
        }
    }

    /// Creates an account from the sealed credentials over session `token`.
    pub fn create_account(&mut self, token: u128, creds: &AesData) -> (r: Result<
        SAccount,
        CryptoError,
    >)
        requires
            old(self).wf(),
        ensures
            final(self).wf(),
            (r, final(self)@) == create_spec(old(self)@, token, creds.data@),
    {
        let (key, _name) = match self.sessions.lookup(token) {
            Some(p) => p,
            None => return Ok(SAccount::InvalidToken),
        };
        let c = match creds.open_credentials(&key) {
            Ok(c) => c,
            Err(e) => return Err(e),
        };
        Ok(self.accounts.create(c.username, c.pw_digest))
    }

    /// Ends session `token`.
    pub fn logout(&mut self, token: u128) -> (r: SAccount)
        requires
            old(self).wf(),
        ensures
            final(self).wf(),
            (r, final(self)@) == logout_step(old(self)@, token),
    {
        let removed = self.sessions.remove(token);
        assert(!removed ==> self@.sessions =~= old(self)@.sessions);
        if removed {
            SAccount::Success
        } else {
            SAccount::InvalidToken
        }
    }

    /// Delivers the sealed message to every listed recipient, in order,
    /// with the session's username as sender. A session that has not
    /// logged in is answered `NotLoggedIn`.
    pub fn send_message(&mut self, token: u128, message: &AesData) -> (r: Result<
        Reply,
        CryptoError,
    >)
        requires
            old(self).wf(),
        ensures
            final(self).wf(),
            (r, final(self)@) == send_spec(old(self)@, token, message.data@),
    {
        let (key, name) = match self.sessions.lookup(token) {
            Some(p) => p,
            None => return Ok(Reply::Account(SAccount::InvalidToken)),
        };
        let sender = match name {
            Some(n) => n,
            None => return Ok(Reply::Account(SAccount::NotLoggedIn)),
        };
        let msg = match message.open_outbound(&key) {
            Ok(m) => m,
            Err(e) => return Err(e),
        };
        let ghost rs = strings_view(msg.recipients@);
        let ghost mv = MessageView { sender: sender@, recipients: rs, contents: msg.contents@ };
        let mut i: usize = 0;
        while i < msg.recipients.len()
            invariant
                self.wf(),
                i <= msg.recipients@.len(),
                rs == strings_view(msg.recipients@),
                mv == (MessageView { sender: sender@, recipients: rs, contents: msg.contents@ }),
                self@.sessions == old(self)@.sessions,
                self@.accounts == old(self)@.accounts,
                self@.mailboxes == delivered(old(self)@.mailboxes, rs.take(i as int), mv),
            decreases msg.recipients@.len() - i,
        {
            let copy = InboundMessage {
                sender: sender.clone(),
                recipients: copy_strings(&msg.recipients),
                contents: msg.contents.clone(),
            };
            assert(copy@ == mv);
            self.mailboxes.enqueue(&msg.recipients[i], copy);
            assert(rs.take(i + 1).drop_last() =~= rs.take(i as int));
            i = i + 1;
        }
        assert(rs.take(i as int) =~= rs);
        Ok(Reply::Sent)
    }

    /// Takes the oldest message waiting for session `token`'s user and
    /// seals it under the session key. `Pending` means that nothing is
    /// waiting yet: the caller asks again later. A session that has not
    /// logged in is answered `NotLoggedIn`.
    pub fn fetch_next(&mut self, token: u128) -> (r: FetchReply)
        requires
            old(self).wf(),
        ensures
            final(self).wf(),
            final(self)@ == fetch_step(old(self)@, token).1,
            old(self)@.sessions.contains_key(token) ==> fetch_reply_is(
                r,
                fetch_step(old(self)@, token).0,
                old(self)@.sessions[token].aes_key,
            ),
            !old(self)@.sessions.contains_key(token) ==> (r matches FetchReply::Refused(a) && a
                == SAccount::InvalidToken),
    {
        let (key, name) = match self.sessions.lookup(token) {
            Some(p) => p,
            None => return FetchReply::Refused(SAccount::InvalidToken),
        };
        let user = match name {
            Some(n) => n,
            None => return FetchReply::Refused(SAccount::NotLoggedIn),
        };
        match self.mailboxes.dequeue(&user) {
            None => FetchReply::Pending,
            Some(m) => match AesData::seal_inbound(&m, &key) {
                Ok(d) => FetchReply::Ready(d),
                Err(_) => {
                    // Every session key is an AES key, so sealing cannot fail.
                    assert(false);
                    FetchReply::Pending
                },
            },
        }
    }

    /// Answers one request. Every request but the handshake carries its
    /// token sealed to `server_key`; a token that cannot be opened fails
    /// the request and leaves the state as it was. `Ok(None)` means that
    /// a fetch found nothing yet: the caller asks again later.
    pub fn respond(&mut self, server_key: &RsaPrivateKey, pkt: &CPacket) -> (r: Result<
        Option<SPacket>,
        ServerError,
    >)
        requires
            old(self).wf(),
        ensures
            final(self).wf(),
            r is Err ==> final(self)@ == old(self)@,
            pkt matches CPacket::Handshake { client_key } ==> (r is Ok ==> (r->Ok_0 is Some
                && handshake_answered(
                r->Ok_0.unwrap(),
                old(self)@,
                final(self)@,
                *client_key,
                public_of(*server_key),
            ))),
            pkt matches CPacket::Account(CAccount::Login { token, creds }) ==> (match token_opened(
                *server_key,
                token.data@,
            ) {
                None => r == token_error(*server_key, token.data@) && final(self)@ == old(self)@,
                Some(t) => answers_account(r, login_spec(old(self)@, t, creds.data@).0) && final(self)@ == login_spec(old(self)@, t, creds.data@).1,
            }),
            pkt matches CPacket::Account(CAccount::Create { token, creds }) ==> (match token_opened(
                *server_key,
                token.data@,
            ) {
                None => r == token_error(*server_key, token.data@) && final(self)@ == old(self)@,
                Some(t) => answers_account(r, create_spec(old(self)@, t, creds.data@).0) && final(self)@ == create_spec(old(self)@, t, creds.data@).1,
            }),
            pkt matches CPacket::Account(CAccount::Logout { token }) ==> (match token_opened(
                *server_key,
                token.data@,
            ) {
                None => r == token_error(*server_key, token.data@) && final(self)@ == old(self)@,
                Some(t) => answers_account(r, Ok(logout_step(old(self)@, t).0)) && final(self)@
                    == logout_step(old(self)@, t).1,
            }),
            pkt matches CPacket::SendMessage(CSendMessage::Send { token, message }) ==> (
            match token_opened(*server_key, token.data@) {
                None => r == token_error(*server_key, token.data@) && final(self)@ == old(self)@,
                Some(t) => answers_send(r, send_spec(old(self)@, t, message.data@).0) && final(self)@ == send_spec(old(self)@, t, message.data@).1,
            }),
            pkt matches CPacket::RecvMessage(CRecvMessage::FetchNext { token }) ==> (
            match token_opened(*server_key, token.data@) {
                None => r == token_error(*server_key, token.data@) && final(self)@ == old(self)@,
                Some(t) => answers_fetch(
                    r,
                    fetch_step(old(self)@, t).0,
                    old(self)@.sessions[t].aes_key,
                ) && final(self)@ == fetch_step(old(self)@, t).1,
            }),
    {
        match pkt {
            CPacket::Handshake { client_key } => match self.handshake(client_key, server_key) {
                Ok(p) => Ok(Some(p)),
                Err(e) => Err(e),
            },
            CPacket::Account(CAccount::Login { token, creds }) => {
                let t = match token.open_token(server_key) {
                    Ok(t) => t,
                    Err(e) => return Err(ServerError::Crypto(e)),
                };
                let r = match self.login(t, creds) {
                    Ok(a) => Ok(Some(SPacket::Account(a))),
                    Err(e) => Err(ServerError::Crypto(e)),
                };
                assert(answers_account(r, login_spec(old(self)@, t, creds.data@).0));
                r
            },
            CPacket::Account(CAccount::Create { token, creds }) => {
                let t = match token.open_token(server_key) {
                    Ok(t) => t,
                    Err(e) => return Err(ServerError::Crypto(e)),
                };
                let r = match self.create_account(t, creds) {
                    Ok(a) => Ok(Some(SPacket::Account(a))),
                    Err(e) => Err(ServerError::Crypto(e)),
                };
                assert(answers_account(r, create_spec(old(self)@, t, creds.data@).0));
                r
            },
            CPacket::Account(CAccount::Logout { token }) => {
                let t = match token.open_token(server_key) {
                    Ok(t) => t,
                    Err(e) => return Err(ServerError::Crypto(e)),
                };
                let r = Ok(Some(SPacket::Account(self.logout(t))));
                assert(answers_account(r, Ok(logout_step(old(self)@, t).0)));
                r
            },
            CPacket::SendMessage(CSendMessage::Send { token, message }) => {
                let t = match token.open_token(server_key) {
                    Ok(t) => t,
                    Err(e) => return Err(ServerError::Crypto(e)),
                };
                let r = match self.send_message(t, message) {
                    Ok(Reply::Account(a)) => Ok(Some(SPacket::Account(a))),
                    Ok(Reply::Sent) => Ok(Some(SPacket::SendMessage(SSendMessage::Success))),
                    Err(e) => Err(ServerError::Crypto(e)),
                };
                assert(answers_send(r, send_spec(old(self)@, t, message.data@).0));
                r
            },
            CPacket::RecvMessage(CRecvMessage::FetchNext { token }) => {
                let t = match token.open_token(server_key) {
                    Ok(t) => t,
                    Err(e) => return Err(ServerError::Crypto(e)),
                };
                let r = match self.fetch_next(t) {
                    FetchReply::Refused(a) => Ok(Some(SPacket::Account(a))),
                    FetchReply::Pending => Ok(None),
                    FetchReply::Ready(d) => Ok(
                        Some(SPacket::RecvMessage(SRecvMessage::NextMsg { message: d })),
                    ),
                };
                assert(answers_fetch(r, fetch_step(old(self)@, t).0, old(self)@.sessions[t].aes_key));
                r
            },
        }
    }
}

} // verus!
