//! The server's account store: usernames and their password digests.
use crate::crypto::{char_is_alphanumeric, is_alphanumeric_char};
use crate::message::{Credentials, SAccount};
use vstd::prelude::*;

verus! {

/// A username is non-empty and every character of it is alphanumeric.
pub open spec fn username_ok(u: Seq<char>) -> bool {
    u.len() > 0 && forall|i: int| 0 <= i < u.len() ==> #[trigger] is_alphanumeric_char(u[i])
}

/// What creating account `u` with digest `d` answers, and the accounts
/// afterwards.
pub open spec fn create_outcome(m: Map<Seq<char>, Seq<char>>, u: Seq<char>, d: Seq<char>) -> (
    SAccount,
    Map<Seq<char>, Seq<char>>,
) {
    if !username_ok(u) {
        (SAccount::InvalidUsername, m)
    } else if m.contains_key(u) {
        (SAccount::AccountExists, m)
    } else {
        (SAccount::Success, m.insert(u, d))
    }
}

/// Whether `u` has an account whose digest is exactly `d`.
pub open spec fn password_matches(m: Map<Seq<char>, Seq<char>>, u: Seq<char>, d: Seq<char>) -> bool {
    m.contains_key(u) && m[u] == d
}

/// Whether a username is acceptable for a new account.
pub fn valid_username(u: &String) -> (r: bool)
    ensures
        r == username_ok(u@),
{
    let s: &str = u.as_str();
    let n = s.unicode_len();
    if n == 0 {
        return false;
    }
    let mut i: usize = 0;
    while i < n
        invariant
            n == s@.len(),
            s@ == u@,
            i <= n,
            forall|j: int| 0 <= j < i ==> #[trigger] is_alphanumeric_char(u@[j]),
        decreases n - i,
    {
        let c = s.get_char(i);
        if !char_is_alphanumeric(c) {
            return false;
        }
        i = i + 1;
    }
    true
}

/// Accounts, each a username and the digest of its password.
pub struct AccountStore {
    pub accounts: Vec<Credentials>,
    pub model: Ghost<Map<Seq<char>, Seq<char>>>,
}

impl View for AccountStore {
    type V = Map<Seq<char>, Seq<char>>;

    open spec fn view(&self) -> Map<Seq<char>, Seq<char>> {
        self.model@
    }
}

impl AccountStore {
    /// Each stored account is in the model with its digest, usernames are
    /// unique, and the model holds nothing else.
    pub open spec fn wf(&self) -> bool {
        &&& forall|i: int|
            0 <= i < self.accounts@.len() ==> self.model@.contains_key(
                #[trigger] self.accounts@[i].username@,
            ) && self.model@[self.accounts@[i].username@] == self.accounts@[i].pw_digest@
        &&& forall|i: int, j: int|
            0 <= i < j < self.accounts@.len() ==> #[trigger] self.accounts@[i].username@
                != #[trigger] self.accounts@[j].username@
        &&& forall|u: Seq<char>|
            #[trigger] self.model@.contains_key(u) ==> exists|i: int|
                0 <= i < self.accounts@.len() && #[trigger] self.accounts@[i].username@ == u
    }

    /// An empty store.
    pub fn new() -> (r: AccountStore)
        ensures
            r.wf(),
            r@ == Map::<Seq<char>, Seq<char>>::empty(),
    {
        AccountStore { accounts: Vec::new(), model: Ghost(Map::empty()) }
    }

    /// The position of `u`'s account, if there is one.
    fn find(&self, u: &String) -> (r: Option<usize>)
        requires
            self.wf(),
        ensures
            r is Some <==> self@.contains_key(u@),
            r is Some ==> r.unwrap() < self.accounts@.len() && self.accounts@[r.unwrap() as int].username@
                == u@,
    {
        let mut i: usize = 0;
        while i < self.accounts.len()
            invariant
                self.wf(),
                i <= self.accounts@.len(),
                forall|j: int| 0 <= j < i ==> self.accounts@[j].username@ != u@,
            decreases self.accounts@.len() - i,
        {
            if self.accounts[i].username == *u {
                return Some(i);
            }
            i = i + 1;
        }
        None
    }

    /// Creates an account unless the username is invalid or taken; the
    /// check and the insertion are one step.
    pub fn create(&mut self, username: String, pw_digest: String) -> (r: SAccount)
        requires
            old(self).wf(),
        ensures
            final(self).wf(),
            (r, final(self)@) == create_outcome(old(self)@, username@, pw_digest@),
    {
        if !valid_username(&username) {
            return SAccount::InvalidUsername;
        }
        if self.find(&username).is_some() {
            return SAccount::AccountExists;
        }
        let ghost u = username@;
        let ghost d = pw_digest@;
        self.accounts.push(Credentials { username, pw_digest });
        self.model = Ghost(self.model@.insert(u, d));
        proof {
            let n = self.accounts@.len() - 1;
            assert(self.accounts@[n as int].username@ == u);
            assert forall|v: Seq<char>| #[trigger] self.model@.contains_key(v) implies exists|i: int|
                0 <= i < self.accounts@.len() && #[trigger] self.accounts@[i].username@ == v by {
                if v != u {
                    let i = choose|i: int|
                        0 <= i < old(self).accounts@.len() && #[trigger] old(
                            self,
                        ).accounts@[i].username@ == v;
                    assert(self.accounts@[i].username@ == v);
                }
            }
        }
        SAccount::Success
    }

    /// Whether `username` has an account whose digest is exactly `pw_digest`.
    pub fn verify(&self, username: &String, pw_digest: &String) -> (r: bool)
        requires
            self.wf(),
        ensures
            r == password_matches(self@, username@, pw_digest@),
    {
        match self.find(username) {
            Some(i) => self.accounts[i].pw_digest == *pw_digest,
            None => false,
        }
    }
}

} // verus!
