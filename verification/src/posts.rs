//! The post ledger: a stake-gated, append-only registry of posts with a
//! monotonic id allocator.

use vstd::prelude::*;

use crate::dispatch::{DispatchError, DispatchResult};
use crate::ledger::BalanceLedger;
use crate::origin::{ensure_signed, Origin};

verus! {

/// Fixed per-deployment bounds of the post ledger, distinct from the
/// governance-mutable parameter store: the longest admissible content and
/// the stake reserved for every post.
#[derive(Clone, Copy, PartialEq, Eq, Structural, Debug)]
pub struct Config {
    pub max_post_length: u32,
    pub min_stake: u64,
}

/// A rejection raised by the post ledger itself.
#[derive(Clone, Copy, PartialEq, Eq, Structural, Debug)]
pub enum Error {
    /// The content exceeds the configured maximum length.
    PostTooLong,
}

/// An observable record of a committed post creation.
#[derive(Clone, Copy, PartialEq, Eq, Structural, Debug)]
pub enum Event {
    PostCreated { account: u64, post_id: u64 },
}

/// A committed post. Once created, the tuple is immutable.
#[derive(PartialEq, Eq, Debug)]
pub struct Post {
    pub author: u64,
    pub content: Vec<u8>,
    pub staked_amount: u64,
}

/// The id a creation event recorded.
pub open spec fn event_post_id(e: Event) -> u64 {
    match e {
        Event::PostCreated { post_id, .. } => post_id,
    }
}

/// The post ledger: the id allocator, the committed posts (the post with id
/// `i` sits at position `i`), and the event log.
pub struct Pallet {
    pub next_post_id: u64,
    pub posts: Vec<Post>,
    pub events: Vec<Event>,
}

impl Pallet {
    /// Well-formed: the allocator equals the count of posts ever created, and
    /// the event log records the assigned ids in strictly increasing order,
    /// each below the allocator.
    pub open spec fn wf(&self) -> bool {
        &&& self.next_post_id == self.posts@.len()
        &&& forall|i: int|
            0 <= i < self.events@.len() ==> event_post_id(self.events@[i]) < self.next_post_id
        &&& forall|i: int, j: int|
            0 <= i < j < self.events@.len() ==> event_post_id(self.events@[i]) < event_post_id(
                self.events@[j],
            )
    }

    /// An empty post ledger: no posts, no events, ids start at 0.
    pub fn new() -> (r: Pallet)
        ensures
            r.wf(),
            r.next_post_id == 0,
            r.posts@.len() == 0,
            r.events@.len() == 0,
    {
        Pallet { next_post_id: 0, posts: Vec::new(), events: Vec::new() }
    }

    /// Creates a post: admits only a signed author and content within the
    /// configured bound, reserves exactly the configured stake from the
    /// author, and only then allocates the next id and commits the record.
    /// Any rejection leaves both the post ledger and the balance ledger
    /// exactly as they were.
    ///
    /// Exhausting the 64-bit id allocator is deployment-fatal rather than
    /// recoverable, so callers must check for it; silent wrapping would let
    /// ids collide.
    pub fn create_post(
        &mut self,
        ledger: &mut BalanceLedger,
        config: &Config,
        origin: Origin,
        content: Vec<u8>,
    ) -> (r: DispatchResult)
        requires
            old(self).wf(),
            old(ledger).wf(),
            old(self).next_post_id < u64::MAX,
        ensures
            final(self).wf(),
            final(ledger).wf(),
            !(origin matches Origin::Signed(_)) ==> r == Err::<(), DispatchError>(
                DispatchError::BadOrigin,
            ) && *final(self) == *old(self) && *final(ledger) == *old(ledger),
            origin matches Origin::Signed(who) ==> if content@.len() > config.max_post_length
                as nat {
                &&& r == Err::<(), DispatchError>(DispatchError::Module(Error::PostTooLong))
                &&& *final(self) == *old(self)
                &&& *final(ledger) == *old(ledger)
            } else if old(ledger).free_of(who) < config.min_stake {
                &&& r == Err::<(), DispatchError>(DispatchError::InsufficientBalance)
                &&& *final(self) == *old(self)
                &&& *final(ledger) == *old(ledger)
            } else {
                &&& r == Ok::<(), DispatchError>(())
                &&& final(ledger).free_of(who) == old(ledger).free_of(who) - config.min_stake
                &&& final(ledger).reserved_of(who) == old(ledger).reserved_of(who)
                    + config.min_stake
                &&& forall|a: u64| a != who ==> final(ledger).free_of(a) == old(ledger).free_of(a)
                &&& forall|a: u64|
                    a != who ==> final(ledger).reserved_of(a) == old(ledger).reserved_of(a)
                &&& final(self).next_post_id == old(self).next_post_id + 1
                &&& final(self).posts@.len() == old(self).posts@.len() + 1
                &&& forall|i: int|
                    0 <= i < old(self).posts@.len() ==> final(self).posts@[i] == old(
                        self,
                    ).posts@[i]
                &&& final(self).posts@.last().author == who
                &&& final(self).posts@.last().content@ == content@
                &&& final(self).posts@.last().staked_amount == config.min_stake
                &&& final(self).events@ == old(self).events@.push(
                    (Event::PostCreated { account: who, post_id: old(self).next_post_id }),
                )
            },
    {
        let who = match ensure_signed(origin) {
            Ok(w) => w,
            Err(e) => {
                return Err(e);
            },
        };
        if content.len() > config.max_post_length as usize {
            return Err(DispatchError::Module(Error::PostTooLong));
        }
        let stake_amount = config.min_stake;
        match ledger.reserve(who, stake_amount) {
            Ok(()) => {},
            Err(e) => {
                return Err(e);
            },
        }
        let post_id = self.next_post_id;
        self.next_post_id = post_id + 1;
        self.posts.push(Post { author: who, content, staked_amount: stake_amount });
        self.events.push(Event::PostCreated { account: who, post_id });
        proof {
            let pre = *old(self);
            let ev = Event::PostCreated { account: who, post_id: pre.next_post_id };
            assert(self.events@ == pre.events@.push(ev));
            assert forall|i: int|
                0 <= i < self.events@.len() implies event_post_id(self.events@[i])
                < self.next_post_id by {
                if i < pre.events@.len() {
                    assert(self.events@[i] == pre.events@[i]);
                }
            }
            assert forall|i: int, j: int|
                0 <= i < j < self.events@.len() implies event_post_id(self.events@[i])
                < event_post_id(self.events@[j]) by {
                assert(self.events@[i] == pre.events@[i]);
                if j < pre.events@.len() {
                    assert(self.events@[j] == pre.events@[j]);
                } else {
                    assert(event_post_id(self.events@[j]) == pre.next_post_id);
                }
            }
        }
        Ok(())
    }

    /// Reads the id the next successful creation will be assigned; it equals
    /// the count of posts ever created.
    pub fn next_post_id(&self) -> (r: u64)
        ensures
            r == self.next_post_id,
    {
        self.next_post_id
    }

    /// Looks a post up by its id: every id below the allocator has exactly
    /// one post, every other id none.
    pub fn posts(&self, post_id: u64) -> (r: Option<&Post>)
        requires
            self.wf(),
        ensures
            post_id < self.next_post_id ==> (r matches Some(p) && *p == self.posts@[post_id as int]),
            post_id >= self.next_post_id ==> r is None,
    {
        let n = self.posts.len();
        if post_id < n as u64 {
            Some(&self.posts[post_id as usize])
        } else {
            None
        }
    }
}

/// The ids recorded by creation events are strictly increasing in the order
/// the events were appended, and therefore pairwise distinct: no id is ever
/// assigned twice.
pub proof fn lemma_post_ids_strictly_increasing(p: Pallet)
    requires
        p.wf(),
    ensures
        forall|i: int, j: int|
            0 <= i < j < p.events@.len() ==> event_post_id(p.events@[i]) < event_post_id(
                p.events@[j],
            ),
        forall|i: int, j: int|
            0 <= i < j < p.events@.len() ==> event_post_id(p.events@[i]) != event_post_id(
                p.events@[j],
            ),
{
}

} // verus!
