//! The server's session store: live sessions keyed by their token.
use crate::message::copy_bytes;
use rsa::RsaPublicKey;
use std::collections::HashMap;
use vstd::prelude::*;
use vstd::std_specs::hash::group_hash_axioms;

verus! {

broadcast use group_hash_axioms;

/// One handshake-established session.
pub struct SessionRecord {
    pub username: Option<String>,
    pub rsa_key: RsaPublicKey,
    pub aes_key: Vec<u8>,
}

/// The abstract content of a session: who is logged in on it, the
/// client's public key, and the shared session key.
pub struct SessionView {
    pub username: Option<Seq<char>>,
    pub rsa_key: RsaPublicKey,
    pub aes_key: Seq<u8>,
}

/// The username held by an optional string, as characters.
pub open spec fn name_view(n: Option<String>) -> Option<Seq<char>> {
    match n {
        Some(s) => Some(s@),
        None => None,
    }
}

impl View for SessionRecord {
    type V = SessionView;

    open spec fn view(&self) -> SessionView {
        SessionView {
            username: name_view(self.username),
            rsa_key: self.rsa_key,
            aes_key: self.aes_key@,
        }
    }
}

/// Live sessions by token.
pub struct SessionStore {
    pub map: HashMap<u128, SessionRecord>,
}

impl View for SessionStore {
    type V = Map<u128, SessionView>;

    open spec fn view(&self) -> Map<u128, SessionView> {
        self.map@.map_values(|r: SessionRecord| r@)
    }
}

/// A session after a successful login as `u`: only the username changes.
pub open spec fn logged_in(v: SessionView, u: Seq<char>) -> SessionView {
    SessionView { username: Some(u), rsa_key: v.rsa_key, aes_key: v.aes_key }
}

impl SessionStore {
    /// An empty store.
    pub fn new() -> (r: SessionStore)
        ensures
            r@ == Map::<u128, SessionView>::empty(),
    {
        let r = SessionStore { map: HashMap::new() };
        assert(r@ =~= Map::<u128, SessionView>::empty());
        r
    }

    /// Whether `token` names a live session.
    pub fn contains(&self, token: u128) -> (r: bool)
        ensures
            r == self@.contains_key(token),
    {
        self.map.contains_key(&token)
    }

    /// Inserts `rec` under `token` unless the token is taken: the check and
    /// the insertion are one step, so two sessions never share a token.
    pub fn insert_if_absent(&mut self, token: u128, rec: SessionRecord) -> (r: bool)
        ensures
            r == !old(self)@.contains_key(token),
            r ==> final(self)@ == old(self)@.insert(token, rec@),
            !r ==> final(self)@ == old(self)@,
    {
        if self.map.contains_key(&token) {
            false
        } else {
            self.map.insert(token, rec);
            assert(self@ =~= old(self)@.insert(token, rec@));
            true
        }
    }

    /// The session key and username of a live session.
    pub fn lookup(&self, token: u128) -> (r: Option<(Vec<u8>, Option<String>)>)
        ensures
            r is Some <==> self@.contains_key(token),
            r is Some ==> r.unwrap().0@ == self@[token].aes_key && name_view(r.unwrap().1)
                == self@[token].username,
    {
        match self.map.get(&token) {
            Some(rec) => {
                let name = match &rec.username {
                    Some(n) => Some(n.clone()),
                    None => None,
                };
                Some((copy_bytes(&rec.aes_key), name))
            },
            None => None,
        }
    }

    /// Records that `token`'s session is logged in as `username`.
    pub fn set_username(&mut self, token: u128, username: String) -> (r: bool)
        ensures
            r == old(self)@.contains_key(token),
            r ==> final(self)@ == old(self)@.insert(token, logged_in(old(self)@[token], username@)),
            !r ==> final(self)@ == old(self)@,
    {
        match self.map.remove(&token) {
            Some(rec) => {
                let updated = SessionRecord {
                    username: Some(username),
                    rsa_key: rec.rsa_key,
                    aes_key: rec.aes_key,
                };
                self.map.insert(token, updated);
                assert(self@ =~= old(self)@.insert(token, logged_in(old(self)@[token], username@)));
                true
            },
            None => false,
        }
    }

    /// Ends a session.
    pub fn remove(&mut self, token: u128) -> (r: bool)
        ensures
            r == old(self)@.contains_key(token),
            final(self)@ == old(self)@.remove(token),
    {
        let r = self.map.remove(&token);
        assert(self@ =~= old(self)@.remove(token));
        r.is_some()
    }
}

} // verus!
