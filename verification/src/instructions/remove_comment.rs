//! Removing a comment: recomputes the expected address from the record's
//! own stored fields (detecting corruption or mismatched derivation),
//! enforces that the signer is the stored author, then closes the record
//! and refunds its funding to the author.
use vstd::prelude::*;

use crate::address::{
    comment_seeds, derive_comment_address, derived_address_of, digest_of, Address,
};
use crate::errors::TwitterError;
use crate::store::{close_spec, RecordData, RecordDataModel, RecordStore, StoreModel};

verus! {

/// The participants of one remove-comment action: the signer, the comment
/// record's address, and the program identity under which addresses are
/// derived.
pub struct RemoveCommentContext {
    pub comment_author: Address,
    pub comment: Address,
    pub program_id: Address,
}

/// What `remove_comment` does to the store, for every input. A missing
/// record, or a record that is not a comment, is not found; a comment
/// whose stored fields do not derive its own address is rejected as
/// mismatched; a signer other than the stored author is unauthorized.
pub open spec fn remove_comment_spec(
    s: StoreModel,
    program_id: Seq<u8>,
    signer: Seq<u8>,
    claimed: Seq<u8>,
) -> (StoreModel, Result<(), TwitterError>) {
    if !s.records.dom().contains(claimed) {
        (s, Err(TwitterError::NotFound))
    } else {
        match s.records[claimed].data {
            RecordDataModel::ReactionRecord(_) => (s, Err(TwitterError::NotFound)),
            RecordDataModel::CommentRecord(c) => {
                match derived_address_of(
                    comment_seeds(c.comment_author, digest_of(c.content), c.parent_tweet),
                    program_id,
                ) {
                    Option::None => (s, Err(TwitterError::AddressMismatch)),
                    Option::Some(pair) => {
                        if pair.0 != claimed {
                            (s, Err(TwitterError::AddressMismatch))
                        } else if c.comment_author != signer {
                            (s, Err(TwitterError::Unauthorized))
                        } else {
                            close_spec(s, claimed, signer)
                        }
                    },
                }
            },
        }
    }
}

/// Closes the comment record at the claimed address after the derivation
/// and ownership checks, refunding its funding to the author.
pub fn remove_comment(store: &mut RecordStore, ctx: &RemoveCommentContext) -> (r: Result<
    (),
    TwitterError,
>)
    requires
        old(store).wf(),
        ctx.program_id@.len() == 32,
    ensures
        final(store).wf(),
        (final(store)@, r) == remove_comment_spec(
            old(store)@,
            ctx.program_id@,
            ctx.comment_author@,
            ctx.comment@,
        ),
{
    {
        let record = match store.read(&ctx.comment) {
            Some(record) => record,
            None => {
                return Err(TwitterError::NotFound);
            },
        };
        let comment = match &record.data {
            RecordData::CommentRecord(comment) => comment,
            RecordData::ReactionRecord(_) => {
                return Err(TwitterError::NotFound);
            },
        };
        match derive_comment_address(
            &comment.comment_author,
            &comment.content,
            &comment.parent_tweet,
            &ctx.program_id,
        ) {
            None => {
                return Err(TwitterError::AddressMismatch);
            },
            Some((expected, _bump)) => {
                if !expected.equals(&ctx.comment) {
                    return Err(TwitterError::AddressMismatch);
                }
            },
        }
        if !comment.comment_author.equals(&ctx.comment_author) {
            return Err(TwitterError::Unauthorized);
        }
    }
    store.close(&ctx.comment, &ctx.comment_author)
}

} // verus!
