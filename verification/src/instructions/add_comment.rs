//! Adding a comment: bounds the content, derives the expected record
//! address from (author, digest of content, parent), rejects a mismatched
//! claimed address, and creates the record funded by the author.
use vstd::prelude::*;

use crate::address::{
    comment_seeds, derive_comment_address, derived_address_of, digest_of, Address,
};
use crate::errors::TwitterError;
use crate::states::{Comment, CommentModel, COMMENT_MAX_LEN, COMMENT_SPACE};
use crate::store::{create_spec, RecordData, RecordDataModel, RecordStore, StoreModel};

verus! {

/// The participants of one add-comment action: the signing author, the
/// parent tweet's address, the claimed comment address, and the program
/// identity under which addresses are derived.
pub struct AddCommentContext {
    pub comment_author: Address,
    pub tweet: Address,
    pub comment: Address,
    pub program_id: Address,
}

/// What `add_comment` does to the store, for every input.
pub open spec fn add_comment_spec(
    s: StoreModel,
    program_id: Seq<u8>,
    author: Seq<u8>,
    parent: Seq<u8>,
    claimed: Seq<u8>,
    content: Seq<u8>,
) -> (StoreModel, Result<(), TwitterError>) {
    if content.len() > COMMENT_MAX_LEN {
        (s, Err(TwitterError::ContentTooLong))
    } else {
        match derived_address_of(comment_seeds(author, digest_of(content), parent), program_id) {
            Option::None => (s, Err(TwitterError::AddressMismatch)),
            Option::Some(pair) => {
                if claimed != pair.0 {
                    (s, Err(TwitterError::AddressMismatch))
                } else {
                    create_spec(
                        s,
                        pair.0,
                        COMMENT_SPACE,
                        author,
                        RecordDataModel::CommentRecord(
                            CommentModel {
                                comment_author: author,
                                parent_tweet: parent,
                                content: content,
                                bump: pair.1,
                            },
                        ),
                    )
                }
            },
        }
    }
}

/// Creates the comment record for (author, content, parent) at its derived
/// address, after the content-length bound and the address check.
pub fn add_comment(store: &mut RecordStore, ctx: &AddCommentContext, comment_content: Vec<u8>) -> (r:
    Result<(), TwitterError>)
    requires
        old(store).wf(),
        ctx.program_id@.len() == 32,
    ensures
        final(store).wf(),
        (final(store)@, r) == add_comment_spec(
            old(store)@,
            ctx.program_id@,
            ctx.comment_author@,
            ctx.tweet@,
            ctx.comment@,
            comment_content@,
        ),
{
    if comment_content.len() > COMMENT_MAX_LEN {
        return Err(TwitterError::ContentTooLong);
    }
    match derive_comment_address(&ctx.comment_author, &comment_content, &ctx.tweet, &ctx.program_id) {
        None => Err(TwitterError::AddressMismatch),
        Some((expected, bump)) => {
            if !expected.equals(&ctx.comment) {
                return Err(TwitterError::AddressMismatch);
            }
            let comment = Comment {
                comment_author: ctx.comment_author.dup(),
                parent_tweet: ctx.tweet.dup(),
                content: comment_content,
                bump,
            };
            store.create(
                &expected,
                COMMENT_SPACE,
                &ctx.comment_author,
                RecordData::CommentRecord(comment),
            )
        },
    }
}

} // verus!
