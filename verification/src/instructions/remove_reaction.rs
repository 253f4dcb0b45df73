//! Removing a reaction: derives the record address from (signer, parent)
//! and rejects a mismatched claimed address, reads the stored kind,
//! decrements exactly the counter matching it after a lower-bound check,
//! then closes the record, refunding the signer.
use vstd::prelude::*;

use crate::address::{derive_reaction_address, derived_address_of, reaction_seeds, Address};
use crate::counters::{counter_can_decrement, saturating_decrement};
use crate::errors::TwitterError;
use crate::states::{ReactionType, Tweet};
use crate::store::{close_spec, RecordData, RecordDataModel, RecordStore, StoreModel};

verus! {

/// The participants of one remove-reaction action: the signer, the parent
/// tweet's address, the reaction record's address, and the program
/// identity under which addresses are derived.
pub struct RemoveReactionContext {
    pub reaction_author: Address,
    pub tweet: Address,
    pub tweet_reaction: Address,
    pub program_id: Address,
}

/// What `remove_reaction` does to the store and the parent's counters, for
/// every input. The address is derived from the signer, so only the
/// derivation check guards removal; the refund goes to the signer.
pub open spec fn remove_reaction_spec(
    s: StoreModel,
    t: Tweet,
    program_id: Seq<u8>,
    signer: Seq<u8>,
    parent: Seq<u8>,
    claimed: Seq<u8>,
) -> (StoreModel, Tweet, Result<(), TwitterError>) {
    match derived_address_of(reaction_seeds(signer, parent), program_id) {
        Option::None => (s, t, Err(TwitterError::AddressMismatch)),
        Option::Some(pair) => {
            if claimed != pair.0 {
                (s, t, Err(TwitterError::AddressMismatch))
            } else if !s.records.dom().contains(claimed) {
                (s, t, Err(TwitterError::NotFound))
            } else {
                match s.records[claimed].data {
                    RecordDataModel::CommentRecord(_) => (s, t, Err(TwitterError::NotFound)),
                    RecordDataModel::ReactionRecord(rm) => {
                        match rm.reaction {
                            ReactionType::Like => {
                                if t.likes == 0 {
                                    (s, t, Err(TwitterError::LikeCounterUnderflow))
                                } else {
                                    (
                                        close_spec(s, claimed, signer).0,
                                        Tweet {
                                            likes: (t.likes - 1) as u64,
                                            dislikes: t.dislikes,
                                        },
                                        Ok(()),
                                    )
                                }
                            },
                            ReactionType::Dislike => {
                                if t.dislikes == 0 {
                                    (s, t, Err(TwitterError::DislikeCounterUnderflow))
                                } else {
                                    (
                                        close_spec(s, claimed, signer).0,
                                        Tweet {
                                            likes: t.likes,
                                            dislikes: (t.dislikes - 1) as u64,
                                        },
                                        Ok(()),
                                    )
                                }
                            },
                        }
                    },
                }
            }
        },
    }
}

/// Closes the reaction record at the claimed address after the derivation
/// check, decrementing the parent counter matching the stored kind.
pub fn remove_reaction(
    store: &mut RecordStore,
    tweet: &mut Tweet,
    ctx: &RemoveReactionContext,
) -> (r: Result<(), TwitterError>)
    requires
        old(store).wf(),
        ctx.program_id@.len() == 32,
    ensures
        final(store).wf(),
        (final(store)@, *final(tweet), r) == remove_reaction_spec(
            old(store)@,
            *old(tweet),
            ctx.program_id@,
            ctx.reaction_author@,
            ctx.tweet@,
            ctx.tweet_reaction@,
        ),
{
    match derive_reaction_address(&ctx.reaction_author, &ctx.tweet, &ctx.program_id) {
        None => {
            return Err(TwitterError::AddressMismatch);
        },
        Some((expected, _bump)) => {
            if !expected.equals(&ctx.tweet_reaction) {
                return Err(TwitterError::AddressMismatch);
            }
        },
    }
    let kind = {
        let record = match store.read(&ctx.tweet_reaction) {
            Some(record) => record,
            None => {
                return Err(TwitterError::NotFound);
            },
        };
        match &record.data {
            RecordData::ReactionRecord(reaction) => reaction.reaction,
            RecordData::CommentRecord(_) => {
                return Err(TwitterError::NotFound);
            },
        }
    };
    match kind {
        ReactionType::Like => {
            if !counter_can_decrement(tweet.likes) {
                return Err(TwitterError::LikeCounterUnderflow);
            }
            tweet.likes = saturating_decrement(tweet.likes);
        },
        ReactionType::Dislike => {
            if !counter_can_decrement(tweet.dislikes) {
                return Err(TwitterError::DislikeCounterUnderflow);
            }
            tweet.dislikes = saturating_decrement(tweet.dislikes);
        },
    }
    store.close(&ctx.tweet_reaction, &ctx.reaction_author)
}

} // verus!
