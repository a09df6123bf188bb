use vstd::prelude::*;

use crate::port::Addr;

verus! {

/// A routing edge from a sender port to a destination port.
#[derive(Clone, Copy, Debug, PartialEq, Eq, Structural)]
pub struct Subscription {
    pub sender: Addr,
    pub dest: Addr,
}

/// What `connect` decided for a (sender, destination) pair.
#[derive(Clone, Copy, Debug, PartialEq, Eq, Structural)]
pub enum ConnectDecision {
    /// The pair is already subscribed: nothing is to be created.
    AlreadyConnected(Subscription),
    /// The pair is not subscribed yet: this subscription is to be created.
    Create(Subscription),
}

impl ConnectDecision {
    pub open spec fn spec_created(self) -> bool {
        self is Create
    }

    /// Whether the decision creates a new subscription.
    pub fn created(&self) -> (r: bool)
        ensures
            r == self.spec_created(),
    {
        match self {
            ConnectDecision::AlreadyConnected(_) => false,
            ConnectDecision::Create(_) => true,
        }
    }

    /// The subscription the decision is about, found or to be created.
    pub fn subscription(&self) -> (r: Subscription)
        ensures
            r == self.spec_subscription(),
    {
        match self {
            ConnectDecision::AlreadyConnected(s) => *s,
            ConnectDecision::Create(s) => *s,
        }
    }

    pub open spec fn spec_subscription(self) -> Subscription {
        match self {
            ConnectDecision::AlreadyConnected(s) => s,
            ConnectDecision::Create(s) => s,
        }
    }
}

/// Whether some subscription of `subs` goes exactly from `sender` to `dest`.
pub open spec fn is_subscribed(subs: Seq<Subscription>, sender: Addr, dest: Addr) -> bool {
    exists|i: int| 0 <= i < subs.len() && subs[i] == (Subscription { sender, dest })
}

/// The decision for a pair, given the subscriptions that exist.
pub open spec fn connect_decision(subs: Seq<Subscription>, sender: Addr, dest: Addr) -> ConnectDecision {
    if is_subscribed(subs, sender, dest) {
        ConnectDecision::AlreadyConnected(Subscription { sender, dest })
    } else {
        ConnectDecision::Create(Subscription { sender, dest })
    }
}

/// The subscriptions that exist once a decision has been carried out.
pub open spec fn after_connect(subs: Seq<Subscription>, d: ConnectDecision) -> Seq<Subscription> {
    match d {
        ConnectDecision::AlreadyConnected(_) => subs,
        ConnectDecision::Create(s) => subs.push(s),
    }
}

/// How many subscriptions of `subs` go from `sender` to `dest`.
pub open spec fn pair_count(subs: Seq<Subscription>, sender: Addr, dest: Addr) -> nat {
    subs.filter(same_pair(sender, dest)).len()
}

/// Whether a subscription goes from `sender` to `dest`.
pub open spec fn same_pair(sender: Addr, dest: Addr) -> spec_fn(Subscription) -> bool {
    |s: Subscription| s.sender == sender && s.dest == dest
}

/// The notes played through a new subscription to confirm it: a major triad.
pub open spec fn confirmation(created: bool) -> Seq<u8> {
    if created {
        seq![60u8, 64u8, 69u8]
    } else {
        Seq::empty()
    }
}

/// The first position of `subs` that holds the pair (sender, dest), if any.
pub fn find_subscription(subs: &Vec<Subscription>, sender: Addr, dest: Addr) -> (r: Option<usize>)
    ensures
        r is None <==> !is_subscribed(subs@, sender, dest),
        r matches Some(i) ==> i < subs@.len() && subs@[i as int] == (Subscription { sender, dest })
            && forall|j: int| 0 <= j < i ==> subs@[j] != (Subscription { sender, dest }),
{
    let ghost target = Subscription { sender, dest };
    let mut i: usize = 0;
    while i < subs.len()
        invariant
            i <= subs@.len(),
            target == (Subscription { sender, dest }),
            forall|j: int| 0 <= j < i ==> subs@[j] != target,
        decreases subs@.len() - i,
    {
        let s = &subs[i];
        if s.sender.client == sender.client && s.sender.port == sender.port
            && s.dest.client == dest.client && s.dest.port == dest.port {
            assert(subs@[i as int] == target);
            return Some(i);
        }
        assert(subs@[i as int] != target);
        i = i + 1;
    }
    assert(!is_subscribed(subs@, sender, dest));
    None
}

/// Decides whether a subscription from `sender` to `dest` is to be created,
/// given the subscriptions of `sender` that exist now.
///
/// A pair that is already subscribed is never subscribed a second time.
pub fn connect(existing: &Vec<Subscription>, sender: Addr, dest: Addr) -> (r: ConnectDecision)
    ensures
        r == connect_decision(existing@, sender, dest),
{
    match find_subscription(existing, sender, dest) {
        Some(i) => ConnectDecision::AlreadyConnected(existing[i]),
        None => ConnectDecision::Create(Subscription { sender, dest }),
    }
}

/// The notes to play once a connection has been made: the triad for a new
/// subscription, none for one that already existed.
pub fn confirmation_notes(created: bool) -> (r: Vec<u8>)
    ensures
        r@ == confirmation(created),
{
    if created {
        let r: Vec<u8> = vec![60u8, 64u8, 69u8];
        assert(r@ =~= confirmation(created));
        r
    } else {
        let r: Vec<u8> = Vec::new();
        assert(r@ =~= confirmation(created));
        r
    }
}

/// Connecting a pair that is not subscribed yet, and then connecting it
/// again, creates a subscription the first time and not the second; exactly
/// one subscription for the pair exists afterwards.
pub proof fn lemma_connect_idempotent(subs: Seq<Subscription>, sender: Addr, dest: Addr)
    requires
        !is_subscribed(subs, sender, dest),
    ensures
        ({
            let first = connect_decision(subs, sender, dest);
            let once = after_connect(subs, first);
            let second = connect_decision(once, sender, dest);
            &&& first.spec_created()
            &&& !second.spec_created()
            &&& after_connect(once, second) == once
            &&& pair_count(once, sender, dest) == 1
        }),
{
    let pair = Subscription { sender, dest };
    let once = subs.push(pair);
    assert(once[subs.len() as int] == pair);
    assert(is_subscribed(once, sender, dest));
    assert forall|i: int| 0 <= i < subs.len() implies !same_pair(sender, dest)(subs[i]) by {
        if same_pair(sender, dest)(subs[i]) {
            assert(subs[i] == pair);
        }
    }
    subs.lemma_all_neg_filter_empty(same_pair(sender, dest));
    subs.lemma_filter_len_push(same_pair(sender, dest), pair);
}

/// Connecting a pair that is already subscribed creates nothing and plays
/// no confirmation.
pub proof fn lemma_no_duplicate_confirmation(subs: Seq<Subscription>, sender: Addr, dest: Addr)
    requires
        is_subscribed(subs, sender, dest),
    ensures
        !connect_decision(subs, sender, dest).spec_created(),
        after_connect(subs, connect_decision(subs, sender, dest)) == subs,
        confirmation(connect_decision(subs, sender, dest).spec_created()).len() == 0,
{
}

} // verus!
