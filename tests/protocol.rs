use relay_mail::client::ClientSession;
use relay_mail::envelope::{AesData, RsaData};
use relay_mail::message::{
    CreateAccountError, InboundMessage, LoginError, RecvMessageError, SAccount, SSendMessage,
    SendMessageError,
};
use relay_mail::packet::{CAccount, CPacket, CRecvMessage, SPacket, SRecvMessage};
use relay_mail::server::{Server, ServerError};
use rsa::rand_core::OsRng;
use rsa::RsaPrivateKey;

fn small_key() -> RsaPrivateKey {
    RsaPrivateKey::new(&mut OsRng, 512).unwrap()
}

fn connect(server: &mut Server, server_key: &RsaPrivateKey) -> ClientSession {
    let ck = small_key();
    let req = ClientSession::handshake_request(&ck);
    let reply = server.respond(server_key, &req).unwrap();
    ClientSession::from_handshake(ck, reply).unwrap()
}

fn create(s: &mut Server, k: &RsaPrivateKey, c: &mut ClientSession, u: &str, pw: &str) -> Result<(), CreateAccountError> {
    let req = c.create_account_request(&u.to_string(), pw).unwrap();
    let reply = s.respond(k, &req).unwrap();
    c.create_account_reply(reply)
}

fn login(s: &mut Server, k: &RsaPrivateKey, c: &mut ClientSession, u: &str, pw: &str) -> Result<(), LoginError> {
    let req = c.login_request(&u.to_string(), pw).unwrap();
    let reply = s.respond(k, &req).unwrap();
    c.login_reply(u.to_string(), reply)
}

fn send(s: &mut Server, k: &RsaPrivateKey, c: &mut ClientSession, to: &[&str], text: &str) -> Result<(), SendMessageError> {
    let rs: Vec<String> = to.iter().map(|x| x.to_string()).collect();
    let req = c.send_message_request(rs, text.to_string()).unwrap();
    let reply = s.respond(k, &req).unwrap();
    c.send_message_reply(reply)
}

fn recv(s: &mut Server, k: &RsaPrivateKey, c: &mut ClientSession) -> Option<Result<InboundMessage, RecvMessageError>> {
    let req = c.recv_message_request().unwrap();
    match s.respond(k, &req).unwrap() {
        None => None,
        Some(p) => Some(c.recv_message_reply(Some(p))),
    }
}

fn logged_in(s: &mut Server, k: &RsaPrivateKey, u: &str) -> ClientSession {
    let mut c = connect(s, k);
    let _ = create(s, k, &mut c, u, "pw");
    login(s, k, &mut c, u, "pw").unwrap();
    c
}

#[test]
fn handshake_round_trip() {
    let sk = small_key();
    let mut server = Server::new();
    let c = connect(&mut server, &sk);
    let rec = server.sessions.map.get(&c.token).unwrap();
    assert_eq!(rec.aes_key, c.aes_key);
    assert_eq!(c.aes_key.len(), 16);
    assert!(rec.username.is_none());
    assert!(c.username.is_none());
    assert_eq!(c.server_key, sk.to_public_key());
    assert_eq!(rec.rsa_key, c.client_key.to_public_key());
}

#[test]
fn handshake_reply_of_wrong_kind_fails() {
    let ck = small_key();
    assert!(ClientSession::from_handshake(ck, Some(SPacket::Account(SAccount::Success))).is_none());
    let ck = small_key();
    assert!(ClientSession::from_handshake(ck, None).is_none());
}

#[test]
fn handshake_sealed_to_another_key_fails() {
    let sk = small_key();
    let mut server = Server::new();
    let real = small_key();
    let reply = server.respond(&sk, &ClientSession::handshake_request(&real)).unwrap();
    let other = small_key();
    assert!(ClientSession::from_handshake(other, reply).is_none());
}

#[test]
fn tokens_are_pairwise_distinct() {
    let sk = small_key();
    let mut server = Server::new();
    let mut tokens = Vec::new();
    for _ in 0..12 {
        tokens.push(connect(&mut server, &sk).token);
    }
    for i in 0..tokens.len() {
        for j in (i + 1)..tokens.len() {
            assert_ne!(tokens[i], tokens[j]);
        }
    }
    assert_eq!(server.sessions.map.len(), 12);
}

#[test]
fn account_creation_is_idempotent() {
    let sk = small_key();
    let mut server = Server::new();
    let mut c = connect(&mut server, &sk);
    assert_eq!(create(&mut server, &sk, &mut c, "alice", "pw"), Ok(()));
    assert_eq!(create(&mut server, &sk, &mut c, "alice", "other"), Err(CreateAccountError::AccountExists));
    let mut d = connect(&mut server, &sk);
    assert_eq!(create(&mut server, &sk, &mut d, "alice", "pw"), Err(CreateAccountError::AccountExists));
}

#[test]
fn invalid_username_is_refused() {
    let sk = small_key();
    let mut server = Server::new();
    let mut c = connect(&mut server, &sk);
    assert_eq!(create(&mut server, &sk, &mut c, "al ice", "pw"), Err(CreateAccountError::InvalidUsername));
    assert_eq!(create(&mut server, &sk, &mut c, "", "pw"), Err(CreateAccountError::InvalidUsername));
}

#[test]
fn login_correctness() {
    let sk = small_key();
    let mut server = Server::new();
    let mut c = connect(&mut server, &sk);
    create(&mut server, &sk, &mut c, "alice", "pw").unwrap();
    assert_eq!(login(&mut server, &sk, &mut c, "alice", "wrong"), Err(LoginError::IncorrectPassword));
    assert!(c.username.is_none());
    assert_eq!(login(&mut server, &sk, &mut c, "alice", "pw"), Ok(()));
    assert_eq!(c.username.as_deref(), Some("alice"));
    assert_eq!(
        server.sessions.map.get(&c.token).unwrap().username.as_deref(),
        Some("alice")
    );
    assert_eq!(login(&mut server, &sk, &mut c, "nobody", "pw"), Err(LoginError::IncorrectPassword));
}

#[test]
fn password_travels_as_sha256_digest() {
    let sk = small_key();
    let mut server = Server::new();
    let c = connect(&mut server, &sk);
    let req = c.login_request(&"alice".to_string(), "hello").unwrap();
    match req {
        CPacket::Account(CAccount::Login { creds, .. }) => {
            let opened = creds.open_credentials(&c.aes_key).unwrap();
            assert_eq!(opened.username, "alice");
            assert_eq!(
                opened.pw_digest,
                "2cf24dba5fb0a30e26e83b2ac5b9e29e1b161e5c1fa7425e73043362938b9824"
            );
        }
        _ => panic!("not a login request"),
    }
}

#[test]
fn mailbox_fifo_through_the_protocol() {
    let sk = small_key();
    let mut server = Server::new();
    let mut alice = logged_in(&mut server, &sk, "alice");
    let mut bob = logged_in(&mut server, &sk, "bob");
    for text in ["M1", "M2", "M3"] {
        assert_eq!(send(&mut server, &sk, &mut alice, &["bob"], text), Ok(()));
    }
    for text in ["M1", "M2", "M3"] {
        let m = recv(&mut server, &sk, &mut bob).unwrap().unwrap();
        assert_eq!(m.contents, text);
        assert_eq!(m.sender, "alice");
        assert_eq!(m.recipients, vec!["bob".to_string()]);
    }
    assert!(recv(&mut server, &sk, &mut bob).is_none());
}

#[test]
fn fan_out_reaches_each_recipient_once() {
    let sk = small_key();
    let mut server = Server::new();
    let mut alice = logged_in(&mut server, &sk, "alice");
    let mut bob = logged_in(&mut server, &sk, "bob");
    let mut carol = logged_in(&mut server, &sk, "carol");
    assert_eq!(send(&mut server, &sk, &mut alice, &["bob", "carol"], "hi"), Ok(()));
    for c in [&mut bob, &mut carol] {
        let m = recv(&mut server, &sk, c).unwrap().unwrap();
        assert_eq!(m.sender, "alice");
        assert_eq!(m.recipients, vec!["bob".to_string(), "carol".to_string()]);
        assert_eq!(m.contents, "hi");
        assert!(recv(&mut server, &sk, c).is_none());
    }
}

#[test]
fn invalid_token_after_logout() {
    let sk = small_key();
    let mut server = Server::new();
    let mut c = logged_in(&mut server, &sk, "alice");
    let logout = CPacket::Account(CAccount::Logout {
        token: RsaData::seal_token(c.token, &c.server_key).unwrap(),
    });
    assert!(matches!(server.respond(&sk, &logout), Ok(Some(SPacket::Account(SAccount::Success)))));
    assert!(matches!(
        server.respond(&sk, &logout),
        Ok(Some(SPacket::Account(SAccount::InvalidToken)))
    ));
    assert_eq!(login(&mut server, &sk, &mut c, "alice", "pw"), Err(LoginError::InvalidToken));
    assert!(c.username.is_none());
    assert_eq!(create(&mut server, &sk, &mut c, "zed", "pw"), Err(CreateAccountError::InvalidToken));
    assert_eq!(send(&mut server, &sk, &mut c, &["alice"], "x"), Err(SendMessageError::InvalidToken));
    assert!(matches!(recv(&mut server, &sk, &mut c), Some(Err(RecvMessageError::InvalidToken))));
}

#[test]
fn unauthenticated_session_is_not_logged_in() {
    let sk = small_key();
    let mut server = Server::new();
    let mut c = connect(&mut server, &sk);
    let req = c.send_message_request(vec!["bob".to_string()], "x".to_string()).unwrap();
    assert!(matches!(server.respond(&sk, &req), Ok(Some(SPacket::Account(SAccount::NotLoggedIn)))));
    let req = c.recv_message_request().unwrap();
    let reply = server.respond(&sk, &req).unwrap();
    assert!(matches!(reply, Some(SPacket::Account(SAccount::NotLoggedIn))));
    assert_eq!(c.recv_message_reply(reply).err(), Some(RecvMessageError::InvalidPacket));
}

#[test]
fn token_sealed_to_wrong_key_is_a_protocol_error() {
    let sk = small_key();
    let mut server = Server::new();
    let _c = connect(&mut server, &sk);
    let stranger = small_key();
    let pkt = CPacket::RecvMessage(CRecvMessage::FetchNext {
        token: RsaData::seal_token(1, &stranger.to_public_key()).unwrap(),
    });
    assert!(matches!(server.respond(&sk, &pkt), Err(ServerError::Crypto(_))));
}

#[test]
fn unknown_token_is_invalid() {
    let sk = small_key();
    let mut server = Server::new();
    assert_eq!(server.logout(42), SAccount::InvalidToken);
    let creds = AesData { data: vec![0u8; 16] };
    assert_eq!(server.login(42, &creds), Ok(SAccount::InvalidToken));
    assert_eq!(server.create_account(42, &creds), Ok(SAccount::InvalidToken));
    let _ = sk;
}

#[test]
fn client_reply_interpretation() {
    let sk = small_key();
    let mut server = Server::new();
    let mut c = connect(&mut server, &sk);
    assert_eq!(c.login_reply("a".to_string(), None), Err(LoginError::Disconnected));
    assert_eq!(
        c.login_reply("a".to_string(), Some(SPacket::SendMessage(SSendMessage::Success))),
        Err(LoginError::InvalidPacket)
    );
    assert_eq!(c.login_reply("a".to_string(), Some(SPacket::Account(SAccount::Success))), Ok(()));
    assert_eq!(c.username.as_deref(), Some("a"));
    assert_eq!(c.create_account_reply(None), Err(CreateAccountError::Disconnected));
    assert_eq!(
        c.create_account_reply(Some(SPacket::Account(SAccount::IncorrectPassword))),
        Err(CreateAccountError::InvalidPacket)
    );
    assert_eq!(c.send_message_reply(None), Err(SendMessageError::Disconnected));
    assert_eq!(
        c.send_message_reply(Some(SPacket::Account(SAccount::Success))),
        Err(SendMessageError::InvalidPacket)
    );
    assert_eq!(c.username.as_deref(), Some("a"));
    assert_eq!(
        c.send_message_reply(Some(SPacket::Account(SAccount::InvalidToken))),
        Err(SendMessageError::InvalidToken)
    );
    assert!(c.username.is_none());
    assert_eq!(c.recv_message_reply(None).err(), Some(RecvMessageError::Disconnected));
    let garbage = SPacket::RecvMessage(SRecvMessage::NextMsg { message: AesData { data: vec![1, 2, 3] } });
    assert_eq!(c.recv_message_reply(Some(garbage)).err(), Some(RecvMessageError::DeserializationError));
}

#[test]
fn requests_seal_the_session_token() {
    let sk = small_key();
    let mut server = Server::new();
    let c = connect(&mut server, &sk);
    match c.login_request(&"alice".to_string(), "pw").unwrap() {
        CPacket::Account(CAccount::Login { token, .. }) => {
            assert_eq!(token.open_token(&sk).unwrap(), c.token)
        }
        _ => panic!("not a login request"),
    }
    match c.recv_message_request().unwrap() {
        CPacket::RecvMessage(CRecvMessage::FetchNext { token }) => {
            assert_eq!(token.open_token(&sk).unwrap(), c.token)
        }
        _ => panic!("not a fetch request"),
    }
}

#[test]
fn handshake_reply_opens_to_the_stored_session() {
    let sk = small_key();
    let mut server = Server::new();
    let ck = small_key();
    let reply = server.respond(&sk, &ClientSession::handshake_request(&ck)).unwrap().unwrap();
    match reply {
        SPacket::Handshake { server_key, shared_key, token } => {
            assert_eq!(server_key, sk.to_public_key());
            let t = token.open_token(&ck).unwrap();
            let k = shared_key.open_key(&ck).unwrap();
            assert_eq!(server.sessions.map.get(&t).unwrap().aes_key, k);
        }
        _ => panic!("not a handshake reply"),
    }
}
