//! The packets of the wire protocol. Every request but the handshake
//! carries the session token sealed to the server's public key.
use crate::envelope::{AesData, RsaData};
use crate::message::{SAccount, SSendMessage};
use rsa::RsaPublicKey;
use vstd::prelude::*;

verus! {

/// A request from client to server.
pub enum CPacket {
    Handshake { client_key: RsaPublicKey },
    Account(CAccount),
    SendMessage(CSendMessage),
    RecvMessage(CRecvMessage),
}

/// A message submission.
pub enum CSendMessage {
    Send { token: RsaData, message: AesData },
}

/// A request for the next waiting message.
pub enum CRecvMessage {
    FetchNext { token: RsaData },
}

/// An account operation.
pub enum CAccount {
    Login { token: RsaData, creds: AesData },
    Create { token: RsaData, creds: AesData },
    Logout { token: RsaData },
}

/// A reply from server to client.
pub enum SPacket {
    Handshake { server_key: RsaPublicKey, shared_key: RsaData, token: RsaData },
    Account(SAccount),
    SendMessage(SSendMessage),
    RecvMessage(SRecvMessage),
}

/// A delivered message, sealed under the session key.
pub enum SRecvMessage {
    NextMsg { message: AesData },
}

} // verus!
