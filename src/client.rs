//! The client's side of the protocol. A `ClientSession` holds the key
//! material and token that a handshake established; it builds each
//! request packet and turns the server's reply into a result. Sending
//! and receiving the packets is left to the caller.
use crate::crypto::{
    credentials_encoding, outbound_encoding, public_key_of, sha256_digest,
    sha256_hex, valid_aes_key,
};
use crate::envelope::{
    aes_sealed, credentials_opened, inbound_opened, key_opened, outbound_opened, token_opened,
    token_sealed, AesData, CryptoError, RsaData,
};
use crate::message::{
    strings_view, CreateAccountError, Credentials, InboundMessage, LoginError, OutboundMessage,
    RecvMessageError, SAccount, SSendMessage, SendMessageError,
};
use crate::packet::{CAccount, CPacket, CRecvMessage, CSendMessage, SPacket, SRecvMessage};
use rsa::{RsaPrivateKey, RsaPublicKey};
use vstd::prelude::*;

verus! {

/// What a login reply means.
pub open spec fn login_result(reply: Option<SPacket>) -> Result<(), LoginError> {
    match reply {
        None => Err(LoginError::Disconnected),
        Some(SPacket::Account(SAccount::Success)) => Ok(()),
        Some(SPacket::Account(SAccount::InvalidToken)) => Err(LoginError::InvalidToken),
        Some(SPacket::Account(SAccount::IncorrectPassword)) => Err(LoginError::IncorrectPassword),
        Some(_) => Err(LoginError::InvalidPacket),
    }
}

/// What an account-creation reply means.
pub open spec fn create_account_result(reply: Option<SPacket>) -> Result<(), CreateAccountError> {
    match reply {
        None => Err(CreateAccountError::Disconnected),
        Some(SPacket::Account(SAccount::Success)) => Ok(()),
        Some(SPacket::Account(SAccount::AccountExists)) => Err(CreateAccountError::AccountExists),
        Some(SPacket::Account(SAccount::InvalidUsername)) => Err(
            CreateAccountError::InvalidUsername,
        ),
        Some(SPacket::Account(SAccount::InvalidToken)) => Err(CreateAccountError::InvalidToken),
        Some(_) => Err(CreateAccountError::InvalidPacket),
    }
}

/// What a send reply means.
pub open spec fn send_message_result(reply: Option<SPacket>) -> Result<(), SendMessageError> {
    match reply {
        None => Err(SendMessageError::Disconnected),
        Some(SPacket::SendMessage(SSendMessage::Success)) => Ok(()),
        Some(SPacket::Account(SAccount::InvalidToken)) => Err(SendMessageError::InvalidToken),
        Some(_) => Err(SendMessageError::InvalidPacket),
    }
}

/// The replies that tell a client its token is no longer valid.
pub open spec fn token_rejected(reply: Option<SPacket>) -> bool {
    reply matches Some(SPacket::Account(SAccount::InvalidToken))
}

/// A client's established session.
pub struct ClientSession {
    pub username: Option<String>,
    pub token: u128,
    pub aes_key: Vec<u8>,
    pub server_key: RsaPublicKey,
    pub client_key: RsaPrivateKey,
}

impl ClientSession {
    /// The token, keys and server key are those of `other`.
    pub open spec fn same_keys(&self, other: &ClientSession) -> bool {
        &&& self.token == other.token
        &&& self.aes_key@ == other.aes_key@
        &&& self.server_key == other.server_key
        &&& self.client_key == other.client_key
    }

    /// The handshake request that presents `client_key`'s public half.
    pub fn handshake_request(client_key: &RsaPrivateKey) -> (r: CPacket)
        ensures
            r is Handshake,
    {
        CPacket::Handshake { client_key: public_key_of(client_key) }
    }

    /// Completes a handshake from the server's reply: both the token and
    /// the session key must open with `client_key`. The session starts
    /// with nobody logged in.
    pub fn from_handshake(client_key: RsaPrivateKey, reply: Option<SPacket>) -> (r: Option<
        ClientSession,
    >)
        ensures
            !(reply matches Some(SPacket::Handshake { .. })) ==> r is None,
            r is Some ==> r.unwrap().username is None && r.unwrap().client_key == client_key,
            reply matches Some(SPacket::Handshake { server_key, shared_key, token }) ==> ((r is Some
                <==> (token_opened(client_key, token.data@) is Some && key_opened(
                client_key,
                shared_key.data@,
            ) is Some)) && (r is Some ==> (r.unwrap().token == token_opened(
                client_key,
                token.data@,
            ).unwrap() && r.unwrap().aes_key@ == key_opened(client_key, shared_key.data@).unwrap()
                && r.unwrap().server_key == server_key))),
    {
        match reply {
            Some(SPacket::Handshake { server_key, shared_key, token }) => {
                let t = match token.open_token(&client_key) {
                    Ok(t) => t,
                    Err(_) => return None,
                };
                let k = match shared_key.open_key(&client_key) {
                    Ok(k) => k,
                    Err(_) => return None,
                };
                Some(ClientSession { username: None, token: t, aes_key: k, server_key, client_key })
            },
            _ => None,
        }
    }

    fn account_payload(&self, username: &String, password: &str) -> (r: Result<
        (RsaData, AesData),
        CryptoError,
    >)
        ensures
            r is Ok ==> valid_aes_key(self.aes_key@),
            !valid_aes_key(self.aes_key@) ==> r is Err,
            r is Ok ==> token_sealed(r->Ok_0.0.data@, self.server_key, self.token),
            r is Ok ==> aes_sealed(
                r->Ok_0.1.data@,
                credentials_encoding(username@, sha256_hex(password@)),
                self.aes_key@,
            ),
            r is Ok ==> credentials_opened(r->Ok_0.1.data@, self.aes_key@) == Some(
                (username@, sha256_hex(password@)),
            ),
    {
        let token = match RsaData::seal_token(self.token, &self.server_key) {
            Ok(d) => d,
            Err(e) => return Err(e),
        };
        let creds = Credentials { username: username.clone(), pw_digest: sha256_digest(password) };
        match AesData::seal_credentials(&creds, &self.aes_key) {
            Ok(c) => Ok((token, c)),
            Err(e) => Err(e),
        }
    }

    /// A login request: the token sealed to the server, and the username
    /// with the SHA-256 digest of the password sealed under the session
    /// key. The password itself never leaves the client.
    pub fn login_request(&self, username: &String, password: &str) -> (r: Result<CPacket, CryptoError>)
        ensures
            !valid_aes_key(self.aes_key@) ==> r is Err,
            r is Ok ==> (r->Ok_0 matches CPacket::Account(CAccount::Login { token, creds })
                && token_sealed(token.data@, self.server_key, self.token) && credentials_opened(
                creds.data@,
                self.aes_key@,
            ) == Some((username@, sha256_hex(password@))) && aes_sealed(
                    creds.data@,
                    credentials_encoding(username@, sha256_hex(password@)),
                    self.aes_key@,
                )),
    {
        match self.account_payload(username, password) {
            Ok((token, creds)) => Ok(CPacket::Account(CAccount::Login { token, creds })),
            Err(e) => Err(e),
        }
    }

    /// Interprets the reply to a login as `username`; `None` is a lost
    /// connection. Success remembers the username; a rejected token forgets
    /// it.
    pub fn login_reply(&mut self, username: String, reply: Option<SPacket>) -> (r: Result<
        (),
        LoginError,
    >)
        ensures
            r == login_result(reply),
            final(self).same_keys(old(self)),
            r is Ok ==> final(self).username == Some(username),
            token_rejected(reply) ==> final(self).username is None,
            !(r is Ok) && !token_rejected(reply) ==> final(self).username == old(self).username,
    {
        match reply {
            None => Err(LoginError::Disconnected),
            Some(SPacket::Account(SAccount::Success)) => {
                self.username = Some(username);
                Ok(())
            },
            Some(SPacket::Account(SAccount::InvalidToken)) => {
                self.username = None;
                Err(LoginError::InvalidToken)
            },
            Some(SPacket::Account(SAccount::IncorrectPassword)) => Err(LoginError::IncorrectPassword),
            Some(_) => Err(LoginError::InvalidPacket),
        }
    }

    /// An account-creation request, sealed as a login request is.
    pub fn create_account_request(&self, username: &String, password: &str) -> (r: Result<
        CPacket,
        CryptoError,
    >)
        ensures
            !valid_aes_key(self.aes_key@) ==> r is Err,
            r is Ok ==> (r->Ok_0 matches CPacket::Account(CAccount::Create { token, creds })
                && token_sealed(token.data@, self.server_key, self.token) && credentials_opened(
                creds.data@,
                self.aes_key@,
            ) == Some((username@, sha256_hex(password@))) && aes_sealed(
                    creds.data@,
                    credentials_encoding(username@, sha256_hex(password@)),
                    self.aes_key@,
                )),
    {
        match self.account_payload(username, password) {
            Ok((token, creds)) => Ok(CPacket::Account(CAccount::Create { token, creds })),
            Err(e) => Err(e),
        }
    }

    /// Interprets the reply to an account creation; a rejected token
    /// forgets the username.
    pub fn create_account_reply(&mut self, reply: Option<SPacket>) -> (r: Result<
        (),
        CreateAccountError,
    >)
        ensures
            r == create_account_result(reply),
            final(self).same_keys(old(self)),
            token_rejected(reply) ==> final(self).username is None,
            !token_rejected(reply) ==> final(self).username == old(self).username,
    {
        match reply {
            None => Err(CreateAccountError::Disconnected),
            Some(SPacket::Account(SAccount::Success)) => Ok(()),
            Some(SPacket::Account(SAccount::AccountExists)) => Err(CreateAccountError::AccountExists),
            Some(SPacket::Account(SAccount::InvalidUsername)) => Err(
                CreateAccountError::InvalidUsername,
            ),
            Some(SPacket::Account(SAccount::InvalidToken)) => {
                self.username = None;
                Err(CreateAccountError::InvalidToken)
            },
            Some(_) => Err(CreateAccountError::InvalidPacket),
        }
    }

    /// A send request: the token sealed to the server, and the recipients
    /// and contents sealed under the session key.
    pub fn send_message_request(&self, recipients: Vec<String>, contents: String) -> (r: Result<
        CPacket,
        CryptoError,
    >)
        ensures
            !valid_aes_key(self.aes_key@) ==> r is Err,
            r is Ok ==> (r->Ok_0 matches CPacket::SendMessage(CSendMessage::Send { token, message })
                && token_sealed(token.data@, self.server_key, self.token) && outbound_opened(
                message.data@,
                self.aes_key@,
            ) == Some((strings_view(recipients@), contents@)) && aes_sealed(
                    message.data@,
                    outbound_encoding(strings_view(recipients@), contents@),
                    self.aes_key@,
                )),
    {
        let token = match RsaData::seal_token(self.token, &self.server_key) {
            Ok(d) => d,
            Err(e) => return Err(e),
        };
        let out = OutboundMessage { recipients, contents };
        match AesData::seal_outbound(&out, &self.aes_key) {
            Ok(message) => Ok(CPacket::SendMessage(CSendMessage::Send { token, message })),
            Err(e) => Err(e),
        }
    }

    /// Interprets the reply to a send; a rejected token forgets the
    /// username.
    pub fn send_message_reply(&mut self, reply: Option<SPacket>) -> (r: Result<
        (),
        SendMessageError,
    >)
        ensures
            r == send_message_result(reply),
            final(self).same_keys(old(self)),
            token_rejected(reply) ==> final(self).username is None,
            !token_rejected(reply) ==> final(self).username == old(self).username,
    {
        match reply {
            None => Err(SendMessageError::Disconnected),
            Some(SPacket::SendMessage(SSendMessage::Success)) => Ok(()),
            Some(SPacket::Account(SAccount::InvalidToken)) => {
                self.username = None;
                Err(SendMessageError::InvalidToken)
            },
            Some(_) => Err(SendMessageError::InvalidPacket),
        }
    }

    /// A request for the next waiting message.
    pub fn recv_message_request(&self) -> (r: Result<CPacket, CryptoError>)
        ensures
            r is Ok ==> (r->Ok_0 matches CPacket::RecvMessage(CRecvMessage::FetchNext { token })
                && token_sealed(token.data@, self.server_key, self.token)),
    {
        match RsaData::seal_token(self.token, &self.server_key) {
            Ok(token) => Ok(CPacket::RecvMessage(CRecvMessage::FetchNext { token })),
            Err(e) => Err(e),
        }
    }

    /// Interprets the reply to a fetch: a delivered message is opened under
    /// the session key; a rejected token forgets the username.
    pub fn recv_message_reply(&mut self, reply: Option<SPacket>) -> (r: Result<
        InboundMessage,
        RecvMessageError,
    >)
        ensures
            final(self).same_keys(old(self)),
            token_rejected(reply) ==> final(self).username is None,
            !token_rejected(reply) ==> final(self).username == old(self).username,
            reply is None ==> r == Err::<InboundMessage, RecvMessageError>(
                RecvMessageError::Disconnected,
            ),
            token_rejected(reply) ==> r == Err::<InboundMessage, RecvMessageError>(
                RecvMessageError::InvalidToken,
            ),
            reply matches Some(SPacket::RecvMessage(SRecvMessage::NextMsg { message })) ==> (
            match inbound_opened(message.data@, old(self).aes_key@) {
                Some(m) => r is Ok && r->Ok_0@.sender == m.0 && r->Ok_0@.recipients == m.1
                    && r->Ok_0@.contents == m.2,
                None => r == Err::<InboundMessage, RecvMessageError>(
                    RecvMessageError::DeserializationError,
                ),
            }),
            reply is Some && !token_rejected(reply) && !(reply matches Some(
                SPacket::RecvMessage(_),
            )) ==> r == Err::<InboundMessage, RecvMessageError>(RecvMessageError::InvalidPacket),
    {
        match reply {
            None => Err(RecvMessageError::Disconnected),
            Some(SPacket::RecvMessage(SRecvMessage::NextMsg { message })) => {
                match message.open_inbound(&self.aes_key) {
                    Ok(m) => Ok(m),
                    Err(_) => Err(RecvMessageError::DeserializationError),
                }
            },
            Some(SPacket::Account(SAccount::InvalidToken)) => {
                self.username = None;
                Err(RecvMessageError::InvalidToken)
            },
            Some(_) => Err(RecvMessageError::InvalidPacket),
        }
    }
}

} // verus!
