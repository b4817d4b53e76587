//! The plain values that travel inside the protocol's envelopes, the
//! server's result codes, and the client's error taxonomy.
use vstd::prelude::*;

verus! {

/// What a list of strings holds, as character sequences.
pub open spec fn strings_view(v: Seq<String>) -> Seq<Seq<char>> {
    v.map_values(|s: String| s@)
}

/// Copies a list of strings element by element.
pub fn copy_strings(v: &Vec<String>) -> (r: Vec<String>)
    ensures
        strings_view(r@) == strings_view(v@),
{
    let mut r: Vec<String> = Vec::new();
    let mut i: usize = 0;
    while i < v.len()
        invariant
            i <= v@.len(),
            r@.len() == i,
            forall|j: int| 0 <= j < i ==> (#[trigger] r@[j])@ == v@[j]@,
        decreases v@.len() - i,
    {
        let s = v[i].clone();
        r.push(s);
        i = i + 1;
    }
    assert(strings_view(r@) =~= strings_view(v@));
    r
}

/// Copies a byte buffer.
pub fn copy_bytes(v: &Vec<u8>) -> (r: Vec<u8>)
    ensures
        r@ == v@,
{
    let mut r: Vec<u8> = Vec::new();
    let mut i: usize = 0;
    while i < v.len()
        invariant
            i <= v@.len(),
            r@ == v@.subrange(0, i as int),
        decreases v@.len() - i,
    {
        r.push(v[i]);
        i = i + 1;
        assert(r@ =~= v@.subrange(0, i as int));
    }
    assert(v@.subrange(0, v@.len() as int) =~= v@);
    r
}

/// A message as the sender writes it: the server fills in the sender.
pub struct OutboundMessage {
    pub recipients: Vec<String>,
    pub contents: String,
}

/// A message as it sits in a mailbox and reaches its recipient.
pub struct InboundMessage {
    pub sender: String,
    pub recipients: Vec<String>,
    pub contents: String,
}

/// The abstract content of an inbound message.
pub struct MessageView {
    pub sender: Seq<char>,
    pub recipients: Seq<Seq<char>>,
    pub contents: Seq<char>,
}

impl View for InboundMessage {
    type V = MessageView;

    open spec fn view(&self) -> MessageView {
        MessageView {
            sender: self.sender@,
            recipients: strings_view(self.recipients@),
            contents: self.contents@,
        }
    }
}

impl InboundMessage {
    /// A field-by-field copy.
    pub fn copy(&self) -> (r: InboundMessage)
        ensures
            r@ == self@,
    {
        InboundMessage {
            sender: self.sender.clone(),
            recipients: copy_strings(&self.recipients),
            contents: self.contents.clone(),
        }
    }
}

/// A login or account-creation request's payload: the password is only
/// ever carried as a digest.
pub struct Credentials {
    pub username: String,
    pub pw_digest: String,
}

/// The server's answer to an account operation.
#[derive(PartialEq, Eq, Structural, Debug, Clone, Copy)]
pub enum SAccount {
    Success,
    AccountExists,
    IncorrectPassword,
    InvalidUsername,
    InvalidToken,
    NotLoggedIn,
}

/// The server's answer to a message submission.
#[derive(PartialEq, Eq, Structural, Debug, Clone, Copy)]
pub enum SSendMessage {
    Success,
}

/// Why creating an account failed, as the client sees it.
#[derive(PartialEq, Eq, Structural, Debug, Clone, Copy)]
pub enum CreateAccountError {
    AccountExists,
    InvalidUsername,
    InvalidToken,
    Disconnected,
    InvalidPacket,
}

/// Why a login failed, as the client sees it.
#[derive(PartialEq, Eq, Structural, Debug, Clone, Copy)]
pub enum LoginError {
    IncorrectPassword,
    InvalidToken,
    Disconnected,
    InvalidPacket,
}

/// Why sending a message failed, as the client sees it.
#[derive(PartialEq, Eq, Structural, Debug, Clone, Copy)]
pub enum SendMessageError {
    InvalidToken,
    Disconnected,
    InvalidPacket,
}

/// Why fetching the next message failed, as the client sees it.
#[derive(PartialEq, Eq, Structural, Debug, Clone, Copy)]
pub enum RecvMessageError {
    DeserializationError,
    InvalidToken,
    Disconnected,
    InvalidPacket,
}

} // verus!
