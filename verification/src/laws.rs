//! The guarantees that span several actions, proved over the transition
//! functions that the executable functions are verified against.
use vstd::prelude::*;

use crate::address::{comment_seeds, derived_address_of, digest_of, reaction_seeds};
use crate::errors::TwitterError;
use crate::instructions::add_comment::add_comment_spec;
use crate::instructions::add_reaction::add_reaction_spec;
use crate::instructions::remove_comment::remove_comment_spec;
use crate::instructions::remove_reaction::remove_reaction_spec;
use crate::states::{ReactionType, Tweet, COMMENT_MAX_LEN, REACTION_SPACE};
use crate::store::{min_funding_spec, RecordDataModel, StoreModel};

verus! {

/// Adding a comment and then removing it as the same author restores the
/// store exactly: the record is gone and the author's funding is back to
/// its prior value.
pub proof fn lemma_comment_round_trip(
    s: StoreModel,
    program_id: Seq<u8>,
    author: Seq<u8>,
    parent: Seq<u8>,
    claimed: Seq<u8>,
    content: Seq<u8>,
)
    ensures
        ({
            let (s1, r1) = add_comment_spec(s, program_id, author, parent, claimed, content);
            r1 == Ok::<(), TwitterError>(()) ==> remove_comment_spec(s1, program_id, author, claimed)
                == (s, Ok::<(), TwitterError>(()))
        }),
{
    let (s1, r1) = add_comment_spec(s, program_id, author, parent, claimed, content);
    if r1 == Ok::<(), TwitterError>(()) {
        let (s2, r2) = remove_comment_spec(s1, program_id, author, claimed);
        assert(s2.records =~= s.records);
        assert(s2.balances =~= s.balances);
        assert(s2 =~= s);
    }
}

/// Oversized content is always rejected as too long, and the store is left
/// unchanged: no record is created.
pub proof fn lemma_long_content_rejected(
    s: StoreModel,
    program_id: Seq<u8>,
    author: Seq<u8>,
    parent: Seq<u8>,
    claimed: Seq<u8>,
    content: Seq<u8>,
)
    ensures
        content.len() > COMMENT_MAX_LEN ==> add_comment_spec(
            s,
            program_id,
            author,
            parent,
            claimed,
            content,
        ) == (s, Err::<(), TwitterError>(TwitterError::ContentTooLong)),
{
}

/// Comment addressing is deterministic, so re-submitting an identical
/// (author, content, parent) after a successful add fails at the store
/// level: the address is already occupied, and nothing changes.
pub proof fn lemma_duplicate_comment_collides(
    s: StoreModel,
    program_id: Seq<u8>,
    author: Seq<u8>,
    parent: Seq<u8>,
    claimed: Seq<u8>,
    content: Seq<u8>,
)
    ensures
        ({
            let (s1, r1) = add_comment_spec(s, program_id, author, parent, claimed, content);
            r1 == Ok::<(), TwitterError>(()) ==> add_comment_spec(
                s1,
                program_id,
                author,
                parent,
                claimed,
                content,
            ) == (s1, Err::<(), TwitterError>(TwitterError::AddressInUse))
        }),
{
}

/// The reaction address is derived from (author, parent) alone, so after a
/// successful add, a second add by the same author on the same parent
/// collides, whatever kind either carries, and changes nothing.
pub proof fn lemma_second_reaction_collides(
    s: StoreModel,
    t: Tweet,
    program_id: Seq<u8>,
    author: Seq<u8>,
    parent: Seq<u8>,
    claimed: Seq<u8>,
    first_kind: ReactionType,
    second_kind: ReactionType,
)
    ensures
        ({
            let (s1, t1, r1) = add_reaction_spec(s, t, program_id, author, parent, claimed, first_kind);
            r1 == Ok::<(), TwitterError>(()) ==> add_reaction_spec(
                s1,
                t1,
                program_id,
                author,
                parent,
                claimed,
                second_kind,
            ) == (s1, t1, Err::<(), TwitterError>(TwitterError::AlreadyReacted))
        }),
{
}

/// Liking a parent whose like counter is saturated fails with the named
/// error and leaves the counters and the store unchanged.
pub proof fn lemma_like_saturated(
    s: StoreModel,
    t: Tweet,
    program_id: Seq<u8>,
    author: Seq<u8>,
    parent: Seq<u8>,
    claimed: Seq<u8>,
)
    ensures
        derived_address_of(reaction_seeds(author, parent), program_id) matches Some(pair) ==> ((
        claimed == pair.0 && !s.records.dom().contains(claimed) && min_funding_spec(REACTION_SPACE)
            <= s.balance_of(author) && t.likes == u64::MAX) ==> add_reaction_spec(
            s,
            t,
            program_id,
            author,
            parent,
            claimed,
            ReactionType::Like,
        ) == (s, t, Err::<(), TwitterError>(TwitterError::LikeCounterSaturated))),
{
}

/// Removing a reaction decrements exactly the counter matching its stored
/// kind and restores the store: adding any reaction and then removing it
/// brings both counters and the author's funding back to their prior
/// values.
pub proof fn lemma_reaction_round_trip(
    s: StoreModel,
    t: Tweet,
    program_id: Seq<u8>,
    author: Seq<u8>,
    parent: Seq<u8>,
    claimed: Seq<u8>,
    kind: ReactionType,
)
    ensures
        ({
            let (s1, t1, r1) = add_reaction_spec(s, t, program_id, author, parent, claimed, kind);
            r1 == Ok::<(), TwitterError>(()) ==> remove_reaction_spec(
                s1,
                t1,
                program_id,
                author,
                parent,
                claimed,
            ) == (s, t, Ok::<(), TwitterError>(()))
        }),
{
    let (s1, t1, r1) = add_reaction_spec(s, t, program_id, author, parent, claimed, kind);
    if r1 == Ok::<(), TwitterError>(()) {
        let (s2, t2, r2) = remove_reaction_spec(s1, t1, program_id, author, parent, claimed);
        assert(s2.records =~= s.records);
        assert(s2.balances =~= s.balances);
        assert(s2 =~= s);
        assert(t2 == t);
    }
}

/// A signer other than the stored author cannot remove a comment: the
/// action fails as unauthorized and the record remains.
pub proof fn lemma_remove_comment_unauthorized(
    s: StoreModel,
    program_id: Seq<u8>,
    signer: Seq<u8>,
    claimed: Seq<u8>,
)
    ensures
        s.records.dom().contains(claimed) ==> (s.records[claimed].data matches
            RecordDataModel::CommentRecord(c) ==> (derived_address_of(
            comment_seeds(c.comment_author, digest_of(c.content), c.parent_tweet),
            program_id,
        ) matches Some(pair) ==> ((pair.0 == claimed && c.comment_author != signer)
            ==> remove_comment_spec(s, program_id, signer, claimed) == (
            s,
            Err::<(), TwitterError>(TwitterError::Unauthorized),
        )))),
{
}

} // verus!
