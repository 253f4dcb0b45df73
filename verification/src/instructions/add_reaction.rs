//! Adding a reaction: derives the content-independent record address from
//! (author, parent), rejects a mismatched claimed address or an existing
//! reaction, checks the matching counter's bound, then creates the record
//! and increments the counter.
use vstd::prelude::*;

use crate::address::{derive_reaction_address, derived_address_of, reaction_seeds, Address};
use crate::counters::{counter_can_increment, saturating_increment};
use crate::errors::TwitterError;
use crate::states::{Reaction, ReactionModel, ReactionType, Tweet, REACTION_SPACE};
use crate::store::{
    min_funding_spec, RecordData, RecordDataModel, RecordStore, StoreModel, StoredRecordModel,
};

verus! {

/// The participants of one add-reaction action: the signing author, the
/// parent tweet's address, the claimed reaction address, and the program
/// identity under which addresses are derived.
pub struct AddReactionContext {
    pub reaction_author: Address,
    pub tweet: Address,
    pub tweet_reaction: Address,
    pub program_id: Address,
}

/// The store after a successful add-reaction: the record under its derived
/// address, its funding held out of the author's balance.
pub open spec fn reaction_commit(
    s: StoreModel,
    addr: Seq<u8>,
    bump: u8,
    author: Seq<u8>,
    parent: Seq<u8>,
    kind: ReactionType,
) -> StoreModel {
    StoreModel {
        records: s.records.insert(
            addr,
            StoredRecordModel {
                data: RecordDataModel::ReactionRecord(
                    ReactionModel {
                        reaction_author: author,
                        parent_tweet: parent,
                        reaction: kind,
                        bump: bump,
                    },
                ),
                lamports: min_funding_spec(REACTION_SPACE),
            },
        ),
        balances: s.balances.insert(
            author,
            (s.balance_of(author) - min_funding_spec(REACTION_SPACE)) as u64,
        ),
    }
}

/// What `add_reaction` does to the store and the parent's counters, for
/// every input.
pub open spec fn add_reaction_spec(
    s: StoreModel,
    t: Tweet,
    program_id: Seq<u8>,
    author: Seq<u8>,
    parent: Seq<u8>,
    claimed: Seq<u8>,
    kind: ReactionType,
) -> (StoreModel, Tweet, Result<(), TwitterError>) {
    match derived_address_of(reaction_seeds(author, parent), program_id) {
        Option::None => (s, t, Err(TwitterError::AddressMismatch)),
        Option::Some(pair) => {
            if claimed != pair.0 {
                (s, t, Err(TwitterError::AddressMismatch))
            } else if s.records.dom().contains(pair.0) {
                (s, t, Err(TwitterError::AlreadyReacted))
            } else if s.balance_of(author) < min_funding_spec(REACTION_SPACE) {
                (s, t, Err(TwitterError::InsufficientFunds))
            } else {
                match kind {
                    ReactionType::Like => {
                        if t.likes == u64::MAX {
                            (s, t, Err(TwitterError::LikeCounterSaturated))
                        } else {
                            (
                                reaction_commit(s, pair.0, pair.1, author, parent, kind),
                                Tweet { likes: (t.likes + 1) as u64, dislikes: t.dislikes },
                                Ok(()),
                            )
                        }
                    },
                    ReactionType::Dislike => {
                        if t.dislikes == u64::MAX {
                            (s, t, Err(TwitterError::DislikeCounterSaturated))
                        } else {
                            (
                                reaction_commit(s, pair.0, pair.1, author, parent, kind),
                                Tweet { likes: t.likes, dislikes: (t.dislikes + 1) as u64 },
                                Ok(()),
                            )
                        }
                    },
                }
            }
        },
    }
}

/// Creates the reaction record for (author, parent) at its derived address
/// and increments the parent counter matching the reaction kind.
pub fn add_reaction(
    store: &mut RecordStore,
    tweet: &mut Tweet,
    ctx: &AddReactionContext,
    reaction: ReactionType,
) -> (r: Result<(), TwitterError>)
    requires
        old(store).wf(),
        ctx.program_id@.len() == 32,
    ensures
        final(store).wf(),
        (final(store)@, *final(tweet), r) == add_reaction_spec(
            old(store)@,
            *old(tweet),
            ctx.program_id@,
            ctx.reaction_author@,
            ctx.tweet@,
            ctx.tweet_reaction@,
            reaction,
        ),
{
    match derive_reaction_address(&ctx.reaction_author, &ctx.tweet, &ctx.program_id) {
        None => Err(TwitterError::AddressMismatch),
        Some((expected, bump)) => {
            if !expected.equals(&ctx.tweet_reaction) {
                return Err(TwitterError::AddressMismatch);
            }
            if store.contains(&expected) {
                return Err(TwitterError::AlreadyReacted);
            }
            let fee = RecordStore::minimum_funding(REACTION_SPACE);
            if store.balance_of(&ctx.reaction_author) < fee {
                return Err(TwitterError::InsufficientFunds);
            }
            match reaction {
                ReactionType::Like => {
                    if !counter_can_increment(tweet.likes) {
                        return Err(TwitterError::LikeCounterSaturated);
                    }
                    tweet.likes = saturating_increment(tweet.likes);
                },
                ReactionType::Dislike => {
                    if !counter_can_increment(tweet.dislikes) {
                        return Err(TwitterError::DislikeCounterSaturated);
                    }
                    tweet.dislikes = saturating_increment(tweet.dislikes);
                },
            }
            let record = Reaction {
                reaction_author: ctx.reaction_author.dup(),
                parent_tweet: ctx.tweet.dup(),
                reaction,
                bump,
            };
            store.create(
                &expected,
                REACTION_SPACE,
                &ctx.reaction_author,
                RecordData::ReactionRecord(record),
            )
        },
    }
}

} // verus!
