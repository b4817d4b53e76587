use relay_mail::account::{valid_username, AccountStore};
use relay_mail::mailbox::MailboxStore;
use relay_mail::message::{InboundMessage, SAccount};

fn msg(sender: &str, to: &[&str], contents: &str) -> InboundMessage {
    InboundMessage {
        sender: sender.to_string(),
        recipients: to.iter().map(|s| s.to_string()).collect(),
        contents: contents.to_string(),
    }
}

#[test]
fn usernames_must_be_alphanumeric_and_non_empty() {
    assert!(valid_username(&"alice".to_string()));
    assert!(valid_username(&"Bob42".to_string()));
    assert!(valid_username(&"élan".to_string()));
    assert!(!valid_username(&"".to_string()));
    assert!(!valid_username(&"al ice".to_string()));
    assert!(!valid_username(&"al-ice".to_string()));
    assert!(!valid_username(&"bob!".to_string()));
}

#[test]
fn account_created_once() {
    let mut a = AccountStore::new();
    assert_eq!(a.create("alice".to_string(), "d1".to_string()), SAccount::Success);
    assert_eq!(a.create("alice".to_string(), "d2".to_string()), SAccount::AccountExists);
    assert!(a.verify(&"alice".to_string(), &"d1".to_string()));
    assert!(!a.verify(&"alice".to_string(), &"d2".to_string()));
}

#[test]
fn invalid_username_is_not_stored() {
    let mut a = AccountStore::new();
    assert_eq!(a.create("a b".to_string(), "d".to_string()), SAccount::InvalidUsername);
    assert_eq!(a.create("".to_string(), "d".to_string()), SAccount::InvalidUsername);
    assert!(!a.verify(&"a b".to_string(), &"d".to_string()));
}

#[test]
fn verify_unknown_user_fails() {
    let a = AccountStore::new();
    assert!(!a.verify(&"nobody".to_string(), &"".to_string()));
}

#[test]
fn mailbox_is_fifo() {
    let mut m = MailboxStore::new();
    m.enqueue(&"bob".to_string(), msg("alice", &["bob"], "M1"));
    m.enqueue(&"bob".to_string(), msg("alice", &["bob"], "M2"));
    m.enqueue(&"carol".to_string(), msg("alice", &["carol"], "C1"));
    m.enqueue(&"bob".to_string(), msg("alice", &["bob"], "M3"));
    let bob = "bob".to_string();
    assert_eq!(m.dequeue(&bob).unwrap().contents, "M1");
    assert_eq!(m.dequeue(&bob).unwrap().contents, "M2");
    assert_eq!(m.dequeue(&bob).unwrap().contents, "M3");
    assert!(m.dequeue(&bob).is_none());
    assert_eq!(m.dequeue(&"carol".to_string()).unwrap().contents, "C1");
}

#[test]
fn dequeue_without_mailbox_is_none() {
    let mut m = MailboxStore::new();
    assert!(m.dequeue(&"dave".to_string()).is_none());
}

#[test]
fn duplicate_recipient_gets_two_copies() {
    let mut m = MailboxStore::new();
    let bob = "bob".to_string();
    m.enqueue(&bob, msg("alice", &["bob", "bob"], "x"));
    m.enqueue(&bob, msg("alice", &["bob", "bob"], "x"));
    assert!(m.dequeue(&bob).is_some());
    assert!(m.dequeue(&bob).is_some());
    assert!(m.dequeue(&bob).is_none());
}
