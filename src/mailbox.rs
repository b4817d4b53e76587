//! The server's mailbox store: for each username, the messages waiting
//! for it, oldest first.
use crate::message::{InboundMessage, MessageView};
use vstd::prelude::*;

verus! {

/// The queue waiting for `u`; a user with no mailbox has an empty one.
pub open spec fn queue_of(m: Map<Seq<char>, Seq<MessageView>>, u: Seq<char>) -> Seq<MessageView> {
    if m.contains_key(u) {
        m[u]
    } else {
        Seq::empty()
    }
}

/// The mailboxes after `msg` is appended to `u`'s queue.
pub open spec fn enqueued(m: Map<Seq<char>, Seq<MessageView>>, u: Seq<char>, msg: MessageView) -> Map<
    Seq<char>,
    Seq<MessageView>,
> {
    m.insert(u, queue_of(m, u).push(msg))
}

/// The mailboxes after `msg` is appended, in order, for each entry of
/// `rs`; a name listed twice gets two copies.
pub open spec fn delivered(
    m: Map<Seq<char>, Seq<MessageView>>,
    rs: Seq<Seq<char>>,
    msg: MessageView,
) -> Map<Seq<char>, Seq<MessageView>>
    decreases rs.len(),
{
    if rs.len() == 0 {
        m
    } else {
        enqueued(delivered(m, rs.drop_last(), msg), rs.last(), msg)
    }
}

/// What taking the oldest message for `u` yields, and the mailboxes
/// afterwards.
pub open spec fn dequeued(m: Map<Seq<char>, Seq<MessageView>>, u: Seq<char>) -> (
    Option<MessageView>,
    Map<Seq<char>, Seq<MessageView>>,
) {
    if queue_of(m, u).len() == 0 {
        (None, m)
    } else {
        (Some(queue_of(m, u)[0]), m.insert(u, queue_of(m, u).drop_first()))
    }
}

/// One user's pending messages.
pub struct Mailbox {
    pub owner: String,
    pub queue: Vec<InboundMessage>,
}

/// The messages of a queue, as views.
pub open spec fn queue_view(q: Seq<InboundMessage>) -> Seq<MessageView> {
    q.map_values(|x: InboundMessage| x@)
}

/// All mailboxes.
pub struct MailboxStore {
    pub boxes: Vec<Mailbox>,
    pub model: Ghost<Map<Seq<char>, Seq<MessageView>>>,
}

impl View for MailboxStore {
    type V = Map<Seq<char>, Seq<MessageView>>;

    open spec fn view(&self) -> Map<Seq<char>, Seq<MessageView>> {
        self.model@
    }
}

impl MailboxStore {
    /// Each mailbox is in the model with its queue, owners are unique, and
    /// the model holds nothing else.
    pub open spec fn wf(&self) -> bool {
        &&& forall|i: int|
            0 <= i < self.boxes@.len() ==> self.model@.contains_key(
                #[trigger] self.boxes@[i].owner@,
            ) && self.model@[self.boxes@[i].owner@] == queue_view(self.boxes@[i].queue@)
        &&& forall|i: int, j: int|
            0 <= i < j < self.boxes@.len() ==> #[trigger] self.boxes@[i].owner@
                != #[trigger] self.boxes@[j].owner@
        &&& forall|u: Seq<char>|
            #[trigger] self.model@.contains_key(u) ==> exists|i: int|
                0 <= i < self.boxes@.len() && #[trigger] self.boxes@[i].owner@ == u
    }

    /// No mailboxes.
    pub fn new() -> (r: MailboxStore)
        ensures
            r.wf(),
            r@ == Map::<Seq<char>, Seq<MessageView>>::empty(),
    {
        MailboxStore { boxes: Vec::new(), model: Ghost(Map::empty()) }
    }

    /// The position of `u`'s mailbox, if it has one.
    fn find(&self, u: &String) -> (r: Option<usize>)
        requires
            self.wf(),
        ensures
            r is Some <==> self@.contains_key(u@),
            r is Some ==> r.unwrap() < self.boxes@.len() && self.boxes@[r.unwrap() as int].owner@
                == u@,
    {
        let mut i: usize = 0;
        while i < self.boxes.len()
            invariant
                self.wf(),
                i <= self.boxes@.len(),
                forall|j: int| 0 <= j < i ==> self.boxes@[j].owner@ != u@,
            decreases self.boxes@.len() - i,
        {
            if self.boxes[i].owner == *u {
                return Some(i);
            }
            i = i + 1;
        }
        None
    }

    /// Appends `msg` to `recipient`'s queue, creating the mailbox if needed.
    pub fn enqueue(&mut self, recipient: &String, msg: InboundMessage)
        requires
            old(self).wf(),
        ensures
            final(self).wf(),
            final(self)@ == enqueued(old(self)@, recipient@, msg@),
    {
        let ghost u = recipient@;
        let ghost mv = msg@;
        match self.find(recipient) {
            Some(i) => {
                let mut b = self.boxes.remove(i);
                b.queue.push(msg);
                assert(queue_view(b.queue@) =~= queue_of(old(self)@, u).push(mv));
                self.boxes.insert(i, b);
                self.model = Ghost(enqueued(old(self)@, u, mv));
                proof {
                    assert forall|k: int| 0 <= k < self.boxes@.len() implies self.model@.contains_key(
                        #[trigger] self.boxes@[k].owner@,
                    ) && self.model@[self.boxes@[k].owner@] == queue_view(self.boxes@[k].queue@) by {
                        if k != i {
                            assert(self.boxes@[k] == old(self).boxes@[k]);
                        }
                    }
                    assert forall|v: Seq<char>| #[trigger] self.model@.contains_key(v) implies exists|
                        k: int,
                    | 0 <= k < self.boxes@.len() && #[trigger] self.boxes@[k].owner@ == v by {
                        if v != u {
                            let k = choose|k: int|
                                0 <= k < old(self).boxes@.len() && #[trigger] old(
                                    self,
                                ).boxes@[k].owner@ == v;
                            assert(self.boxes@[k] == old(self).boxes@[k]);
                        } else {
                            assert(self.boxes@[i as int].owner@ == v);
                        }
                    }
                    assert forall|a: int, c: int|
                        0 <= a < c < self.boxes@.len() implies #[trigger] self.boxes@[a].owner@
                        != #[trigger] self.boxes@[c].owner@ by {
                        assert(self.boxes@[a].owner@ == old(self).boxes@[a].owner@);
                        assert(self.boxes@[c].owner@ == old(self).boxes@[c].owner@);
                    }
                }
            },
            None => {
                let mut q: Vec<InboundMessage> = Vec::new();
                q.push(msg);
                assert(queue_view(q@) =~= queue_of(old(self)@, u).push(mv));
                self.boxes.push(Mailbox { owner: recipient.clone(), queue: q });
                self.model = Ghost(enqueued(old(self)@, u, mv));
                proof {
                    let n = self.boxes@.len() - 1;
                    assert(self.boxes@[n as int].owner@ == u);
                    assert forall|v: Seq<char>| #[trigger] self.model@.contains_key(v) implies exists|
                        k: int,
                    | 0 <= k < self.boxes@.len() && #[trigger] self.boxes@[k].owner@ == v by {
                        if v != u {
                            let k = choose|k: int|
                                0 <= k < old(self).boxes@.len() && #[trigger] old(
                                    self,
                                ).boxes@[k].owner@ == v;
                            assert(self.boxes@[k] == old(self).boxes@[k]);
                        }
                    }
                }
            },
        }
    }

    /// Removes and returns the oldest message waiting for `u`, if any.
    pub fn dequeue(&mut self, u: &String) -> (r: Option<InboundMessage>)
        requires
            old(self).wf(),
        ensures
            final(self).wf(),
            (match r {
                Some(x) => Some(x@),
                None => None,
            }, final(self)@) == dequeued(old(self)@, u@),
    {
        let ghost name = u@;
        match self.find(u) {
            Some(i) => {
                if self.boxes[i].queue.len() == 0 {
                    return None;
                }
                let mut b = self.boxes.remove(i);
                let first = b.queue.remove(0);
                assert(queue_view(b.queue@) =~= queue_of(old(self)@, name).drop_first());
                self.boxes.insert(i, b);
                self.model = Ghost(dequeued(old(self)@, name).1);
                proof {
                    assert forall|k: int| 0 <= k < self.boxes@.len() implies self.model@.contains_key(
                        #[trigger] self.boxes@[k].owner@,
                    ) && self.model@[self.boxes@[k].owner@] == queue_view(self.boxes@[k].queue@) by {
                        if k != i {
                            assert(self.boxes@[k] == old(self).boxes@[k]);
                        }
                    }
                    assert forall|v: Seq<char>| #[trigger] self.model@.contains_key(v) implies exists|
                        k: int,
                    | 0 <= k < self.boxes@.len() && #[trigger] self.boxes@[k].owner@ == v by {
                        if v != name {
                            let k = choose|k: int|
                                0 <= k < old(self).boxes@.len() && #[trigger] old(
                                    self,
                                ).boxes@[k].owner@ == v;
                            assert(self.boxes@[k] == old(self).boxes@[k]);
                        } else {
                            assert(self.boxes@[i as int].owner@ == v);
                        }
                    }
                    assert forall|a: int, c: int|
                        0 <= a < c < self.boxes@.len() implies #[trigger] self.boxes@[a].owner@
                        != #[trigger] self.boxes@[c].owner@ by {
                        assert(self.boxes@[a].owner@ == old(self).boxes@[a].owner@);
                        assert(self.boxes@[c].owner@ == old(self).boxes@[c].owner@);
                    }
                }
                Some(first)
            },
            None => None,
        }
    }
}

} // verus!
