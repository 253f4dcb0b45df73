//! The record types of the feed: comments, reactions and the parent tweet's
//! aggregate counters, together with their mathematical models.
use vstd::prelude::*;

use crate::address::Address;

verus! {

/// Upper bound, in bytes, on a comment's text.
pub const COMMENT_MAX_LEN: usize = 500;

/// Stored size of a comment record: 8 (record discriminator) + 32 (author)
/// + 32 (parent) + 4 + 500 (length-prefixed content) + 1 (nonce).
pub const COMMENT_SPACE: u64 = 8 + 32 + 32 + 4 + 500 + 1;

/// Stored size of a reaction record: 8 (record discriminator) + 32 (author)
/// + 32 (parent) + 1 (kind) + 1 (nonce).
pub const REACTION_SPACE: u64 = 8 + 32 + 32 + 1 + 1;

/// A reaction kind: a closed tagged variant, so that all counter logic is a
/// single exhaustive match with no default branch.
#[derive(Clone, Copy, Debug, PartialEq, Eq, Structural)]
pub enum ReactionType {
    Like,
    Dislike,
}

/// The parts of the parent tweet record this core mutates: its two
/// saturating aggregate counters. The record itself is owned by the ledger
/// layer; each action holds it by exclusive reference.
#[derive(Clone, Copy, Debug, PartialEq, Eq, Structural)]
pub struct Tweet {
    pub likes: u64,
    pub dislikes: u64,
}

/// A comment record: author, parent back-reference, bounded text content
/// and derivation nonce. Its address must equal the derivation from
/// (author, digest of content, parent).
pub struct Comment {
    pub comment_author: Address,
    pub parent_tweet: Address,
    pub content: Vec<u8>,
    pub bump: u8,
}

/// The mathematical model of a comment record.
pub struct CommentModel {
    pub comment_author: Seq<u8>,
    pub parent_tweet: Seq<u8>,
    pub content: Seq<u8>,
    pub bump: u8,
}

impl View for Comment {
    type V = CommentModel;

    open spec fn view(&self) -> CommentModel {
        CommentModel {
            comment_author: self.comment_author@,
            parent_tweet: self.parent_tweet@,
            content: self.content@,
            bump: self.bump,
        }
    }
}

/// A reaction record: author, parent back-reference, kind and derivation
/// nonce. Its address is content-independent: it must equal the derivation
/// from (author, parent) alone.
pub struct Reaction {
    pub reaction_author: Address,
    pub parent_tweet: Address,
    pub reaction: ReactionType,
    pub bump: u8,
}

/// The mathematical model of a reaction record.
pub struct ReactionModel {
    pub reaction_author: Seq<u8>,
    pub parent_tweet: Seq<u8>,
    pub reaction: ReactionType,
    pub bump: u8,
}

impl View for Reaction {
    type V = ReactionModel;

    open spec fn view(&self) -> ReactionModel {
        ReactionModel {
            reaction_author: self.reaction_author@,
            parent_tweet: self.parent_tweet@,
            reaction: self.reaction,
            bump: self.bump,
        }
    }
}

} // verus!
