//! The governance-controlled parameter store: named economic and descriptive
//! parameters, readable by anyone and writable only by the governance
//! authority.

use vstd::prelude::*;

use crate::dispatch::{DispatchError, DispatchResult};
use crate::origin::{ensure_root, Origin};

verus! {

/// The named parameters, each always present with a current value
/// (default-valued until first written).
pub struct ParamStore {
    pub post_stake: u64,
    pub comment_stake: u64,
    pub min_upvote_cost: u64,
    pub min_downvote_cost: u64,
    /// Percentage tax on proof-of-stake nodes. The type admits values above
    /// 100; no write path for it exists in this core.
    pub pos_node_tax: u8,
    pub max_daily_posts: u32,
    pub chain_cover_photo: Vec<u8>,
    pub chain_description: Vec<u8>,
}

/// An observable record of a committed parameter change.
#[derive(Clone, Copy, PartialEq, Eq, Structural, Debug)]
pub enum Event {
    PostStakeUpdated(u64),
    CommentStakeUpdated(u64),
}

/// The parameter store together with its event log.
pub struct Pallet {
    pub params: ParamStore,
    pub events: Vec<Event>,
}

/// The genesis record: the two parameters injected at chain start.
pub struct GenesisConfig {
    pub post_stake: u64,
    pub comment_stake: u64,
}

/// The genesis record a chain starts from when none is given explicitly.
pub open spec fn default_genesis() -> GenesisConfig {
    GenesisConfig { post_stake: 1000, comment_stake: 500 }
}

/// What a freshly built store looks like: the genesis values for the two
/// injected parameters, the type's zero or empty default for every other,
/// and an empty event log.
pub open spec fn built_from(g: GenesisConfig, p: Pallet) -> bool {
    &&& p.params.post_stake == g.post_stake
    &&& p.params.comment_stake == g.comment_stake
    &&& p.params.min_upvote_cost == 0
    &&& p.params.min_downvote_cost == 0
    &&& p.params.pos_node_tax == 0
    &&& p.params.max_daily_posts == 0
    &&& p.params.chain_cover_photo@ == Seq::<u8>::empty()
    &&& p.params.chain_description@ == Seq::<u8>::empty()
    &&& p.events@ == Seq::<Event>::empty()
}

/// A committed `post_stake` write: the new value is stored, every other
/// parameter keeps its value, and the change event is appended.
pub open spec fn post_stake_written(pre: Pallet, post: Pallet, new_stake: u64) -> bool {
    &&& post.params.post_stake == new_stake
    &&& post.params.comment_stake == pre.params.comment_stake
    &&& unrelated_params_kept(pre, post)
    &&& post.events@ == pre.events@.push(Event::PostStakeUpdated(new_stake))
}

/// A committed `comment_stake` write: the new value is stored, every other
/// parameter keeps its value, and the change event is appended.
pub open spec fn comment_stake_written(pre: Pallet, post: Pallet, new_stake: u64) -> bool {
    &&& post.params.comment_stake == new_stake
    &&& post.params.post_stake == pre.params.post_stake
    &&& unrelated_params_kept(pre, post)
    &&& post.events@ == pre.events@.push(Event::CommentStakeUpdated(new_stake))
}

/// The parameters no write path of this core touches keep their values.
pub open spec fn unrelated_params_kept(pre: Pallet, post: Pallet) -> bool {
    &&& post.params.min_upvote_cost == pre.params.min_upvote_cost
    &&& post.params.min_downvote_cost == pre.params.min_downvote_cost
    &&& post.params.pos_node_tax == pre.params.pos_node_tax
    &&& post.params.max_daily_posts == pre.params.max_daily_posts
    &&& post.params.chain_cover_photo@ == pre.params.chain_cover_photo@
    &&& post.params.chain_description@ == pre.params.chain_description@
}

impl Default for GenesisConfig {
    /// The defaults injected when no explicit genesis record is given:
    /// `post_stake` 1000, `comment_stake` 500.
    fn default() -> (r: GenesisConfig)
        ensures
            r == default_genesis(),
    {
        GenesisConfig { post_stake: 1000, comment_stake: 500 }
    }
}

impl GenesisConfig {
    /// Builds the initial parameter store from this genesis record.
    pub fn build(&self) -> (p: Pallet)
        ensures
            built_from(*self, p),
    {
        Pallet {
            params: ParamStore {
                post_stake: self.post_stake,
                comment_stake: self.comment_stake,
                min_upvote_cost: 0,
                min_downvote_cost: 0,
                pos_node_tax: 0,
                max_daily_posts: 0,
                chain_cover_photo: Vec::new(),
                chain_description: Vec::new(),
            },
            events: Vec::new(),
        }
    }
}

impl Pallet {
    /// Sets the `post_stake` parameter. Only the governance authority may
    /// call this; any other origin is rejected with `BadOrigin` and the store
    /// is left exactly as it was.
    pub fn update_post_stake(&mut self, origin: Origin, new_stake: u64) -> (r: DispatchResult)
        ensures
            origin is Root ==> r == Ok::<(), DispatchError>(()) && post_stake_written(
                *old(self),
                *final(self),
                new_stake,
            ),
            !(origin is Root) ==> r == Err::<(), DispatchError>(DispatchError::BadOrigin)
                && *final(self) == *old(self),
    {
        match ensure_root(origin) {
            Err(e) => Err(e),
            Ok(()) => {
                self.params.post_stake = new_stake;
                self.events.push(Event::PostStakeUpdated(new_stake));
                Ok(())
            },
        }
    }

    /// Sets the `comment_stake` parameter. Only the governance authority may
    /// call this; any other origin is rejected with `BadOrigin` and the store
    /// is left exactly as it was.
    pub fn update_comment_stake(&mut self, origin: Origin, new_stake: u64) -> (r: DispatchResult)
        ensures
            origin is Root ==> r == Ok::<(), DispatchError>(()) && comment_stake_written(
                *old(self),
                *final(self),
                new_stake,
            ),
            !(origin is Root) ==> r == Err::<(), DispatchError>(DispatchError::BadOrigin)
                && *final(self) == *old(self),
    {
        match ensure_root(origin) {
            Err(e) => Err(e),
            Ok(()) => {
                self.params.comment_stake = new_stake;
                self.events.push(Event::CommentStakeUpdated(new_stake));
                Ok(())
            },
        }
    }

    /// Reads the `post_stake` parameter.
    pub fn post_stake(&self) -> (r: u64)
        ensures
            r == self.params.post_stake,
    {
        self.params.post_stake
    }

    /// Reads the `comment_stake` parameter.
    pub fn comment_stake(&self) -> (r: u64)
        ensures
            r == self.params.comment_stake,
    {
        self.params.comment_stake
    }

    /// Reads the `min_upvote_cost` parameter.
    pub fn min_upvote_cost(&self) -> (r: u64)
        ensures
            r == self.params.min_upvote_cost,
    {
        self.params.min_upvote_cost
    }

    /// Reads the `min_downvote_cost` parameter.
    pub fn min_downvote_cost(&self) -> (r: u64)
        ensures
            r == self.params.min_downvote_cost,
    {
        self.params.min_downvote_cost
    }

    /// Reads the `pos_node_tax` parameter.
    pub fn pos_node_tax(&self) -> (r: u8)
        ensures
            r == self.params.pos_node_tax,
    {
        self.params.pos_node_tax
    }

    /// Reads the `max_daily_posts` parameter.
    pub fn max_daily_posts(&self) -> (r: u32)
        ensures
            r == self.params.max_daily_posts,
    {
        self.params.max_daily_posts
    }

    /// Reads the `chain_cover_photo` parameter.
    pub fn chain_cover_photo(&self) -> (r: &Vec<u8>)
        ensures
            r@ == self.params.chain_cover_photo@,
    {
        &self.params.chain_cover_photo
    }

    /// Reads the `chain_description` parameter.
    pub fn chain_description(&self) -> (r: &Vec<u8>)
        ensures
            r@ == self.params.chain_description@,
    {
        &self.params.chain_description
    }
}

/// Round trip: a committed `post_stake` write is observed exactly by the
/// next read, and nothing else moved -- reading any other parameter after
/// the write returns what it returned before.
pub proof fn lemma_post_stake_round_trip(pre: Pallet, post: Pallet, new_stake: u64)
    requires
        post_stake_written(pre, post, new_stake),
    ensures
        post.params.post_stake == new_stake,
        post.params.comment_stake == pre.params.comment_stake,
        unrelated_params_kept(pre, post),
{
}

/// Round trip: a committed `comment_stake` write is observed exactly by the
/// next read, and nothing else moved.
pub proof fn lemma_comment_stake_round_trip(pre: Pallet, post: Pallet, new_stake: u64)
    requires
        comment_stake_written(pre, post, new_stake),
    ensures
        post.params.comment_stake == new_stake,
        post.params.post_stake == pre.params.post_stake,
        unrelated_params_kept(pre, post),
{
}

/// Genesis defaults are observable before any write: a store built from the
/// default genesis record reads `post_stake` 1000 and `comment_stake` 500,
/// and zero or empty for every other parameter.
pub proof fn lemma_genesis_defaults_observable(g: GenesisConfig, p: Pallet)
    requires
        g == default_genesis(),
        built_from(g, p),
    ensures
        p.params.post_stake == 1000,
        p.params.comment_stake == 500,
        p.params.min_upvote_cost == 0,
        p.params.min_downvote_cost == 0,
        p.params.pos_node_tax == 0,
        p.params.max_daily_posts == 0,
        p.params.chain_cover_photo@.len() == 0,
        p.params.chain_description@.len() == 0,
{
}

} // verus!
