use twitter::address::{derive_comment_address, derive_reaction_address, Address};
use twitter::errors::TwitterError;
use twitter::instructions::add_comment::{add_comment, AddCommentContext};
use twitter::instructions::add_reaction::{add_reaction, AddReactionContext};
use twitter::instructions::remove_comment::{remove_comment, RemoveCommentContext};
use twitter::instructions::remove_reaction::{remove_reaction, RemoveReactionContext};
use twitter::states::{ReactionType, Tweet, COMMENT_SPACE, REACTION_SPACE};
use twitter::store::{RecordData, RecordStore};

fn addr(seed: u8) -> Address {
    Address::from_bytes(vec![seed; 32])
}

fn comment_ctx(author: u8, parent: u8, content: &[u8]) -> AddCommentContext {
    let derived = derive_comment_address(&addr(author), &content.to_vec(), &addr(parent), &addr(9))
        .expect("derivation should find a nonce");
    AddCommentContext {
        comment_author: addr(author),
        tweet: addr(parent),
        comment: derived.0,
        program_id: addr(9),
    }
}

fn reaction_ctx(author: u8, parent: u8) -> AddReactionContext {
    let derived = derive_reaction_address(&addr(author), &addr(parent), &addr(9))
        .expect("derivation should find a nonce");
    AddReactionContext {
        reaction_author: addr(author),
        tweet: addr(parent),
        tweet_reaction: derived.0,
        program_id: addr(9),
    }
}

fn funded_store(author: u8, amount: u64) -> RecordStore {
    let mut store = RecordStore::new();
    store.set_balance(&addr(author), amount);
    store
}

#[test]
fn minimum_funding_exact_values() {
    assert_eq!(RecordStore::minimum_funding(COMMENT_SPACE), 4_906_800);
    assert_eq!(RecordStore::minimum_funding(REACTION_SPACE), 1_405_920);
    assert_eq!(RecordStore::minimum_funding(0), 890_880);
}

#[test]
fn comment_add_then_remove_round_trip() {
    let mut store = funded_store(1, 10_000_000);
    let ctx = comment_ctx(1, 2, b"hello");
    assert_eq!(add_comment(&mut store, &ctx, b"hello".to_vec()), Ok(()));
    let fee = RecordStore::minimum_funding(COMMENT_SPACE);
    assert_eq!(store.balance_of(&addr(1)), 10_000_000 - fee);
    match &store.read(&ctx.comment).expect("record should exist").data {
        RecordData::CommentRecord(c) => {
            assert_eq!(c.content, b"hello".to_vec());
            assert_eq!(c.comment_author.bytes, addr(1).bytes);
            assert_eq!(c.parent_tweet.bytes, addr(2).bytes);
        },
        RecordData::ReactionRecord(_) => panic!("expected a comment record"),
    }

    let remove_ctx = RemoveCommentContext {
        comment_author: addr(1),
        comment: ctx.comment.dup(),
        program_id: addr(9),
    };
    assert_eq!(remove_comment(&mut store, &remove_ctx), Ok(()));
    assert!(store.read(&ctx.comment).is_none());
    assert_eq!(store.balance_of(&addr(1)), 10_000_000);
}

#[test]
fn duplicate_comment_is_rejected_at_the_store() {
    let mut store = funded_store(1, 20_000_000);
    let ctx = comment_ctx(1, 2, b"hello");
    assert_eq!(add_comment(&mut store, &ctx, b"hello".to_vec()), Ok(()));
    assert_eq!(
        add_comment(&mut store, &ctx, b"hello".to_vec()),
        Err(TwitterError::AddressInUse)
    );
}

#[test]
fn oversized_comment_is_rejected() {
    let mut store = funded_store(1, 20_000_000);
    let long = vec![120u8; 501];
    let ctx = comment_ctx(1, 2, &long);
    assert_eq!(
        add_comment(&mut store, &ctx, long.clone()),
        Err(TwitterError::ContentTooLong)
    );
    assert!(store.read(&ctx.comment).is_none());
    assert_eq!(store.balance_of(&addr(1)), 20_000_000);
}

#[test]
fn empty_comment_is_accepted() {
    let mut store = funded_store(1, 20_000_000);
    let ctx = comment_ctx(1, 2, b"");
    assert_eq!(add_comment(&mut store, &ctx, Vec::new()), Ok(()));
    assert!(store.read(&ctx.comment).is_some());
}

#[test]
fn comment_at_exact_bound_is_accepted() {
    let mut store = funded_store(1, 20_000_000);
    let content = vec![120u8; 500];
    let ctx = comment_ctx(1, 2, &content);
    assert_eq!(add_comment(&mut store, &ctx, content), Ok(()));
}

#[test]
fn mismatched_comment_address_is_rejected() {
    let mut store = funded_store(1, 20_000_000);
    let mut ctx = comment_ctx(1, 2, b"hello");
    ctx.comment = addr(33);
    assert_eq!(
        add_comment(&mut store, &ctx, b"hello".to_vec()),
        Err(TwitterError::AddressMismatch)
    );
    assert!(store.read(&addr(33)).is_none());
}

#[test]
fn underfunded_comment_author_is_rejected() {
    let mut store = RecordStore::new();
    let ctx = comment_ctx(1, 2, b"hello");
    assert_eq!(
        add_comment(&mut store, &ctx, b"hello".to_vec()),
        Err(TwitterError::InsufficientFunds)
    );
}

#[test]
fn removing_someone_elses_comment_is_unauthorized() {
    let mut store = funded_store(1, 20_000_000);
    let ctx = comment_ctx(1, 2, b"hello");
    assert_eq!(add_comment(&mut store, &ctx, b"hello".to_vec()), Ok(()));

    let remove_ctx = RemoveCommentContext {
        comment_author: addr(4),
        comment: ctx.comment.dup(),
        program_id: addr(9),
    };
    assert_eq!(
        remove_comment(&mut store, &remove_ctx),
        Err(TwitterError::Unauthorized)
    );
    assert!(store.read(&ctx.comment).is_some());
}

#[test]
fn removing_a_missing_comment_is_not_found() {
    let mut store = RecordStore::new();
    let remove_ctx = RemoveCommentContext {
        comment_author: addr(1),
        comment: addr(2),
        program_id: addr(9),
    };
    assert_eq!(
        remove_comment(&mut store, &remove_ctx),
        Err(TwitterError::NotFound)
    );
}

#[test]
fn reaction_slot_is_reusable_after_removal() {
    let mut store = funded_store(3, 20_000_000);
    let mut tweet = Tweet { likes: 0, dislikes: 0 };
    let ctx = reaction_ctx(3, 2);

    assert_eq!(
        add_reaction(&mut store, &mut tweet, &ctx, ReactionType::Like),
        Ok(())
    );
    assert_eq!(tweet.likes, 1);
    assert_eq!(tweet.dislikes, 0);

    let remove_ctx = RemoveReactionContext {
        reaction_author: addr(3),
        tweet: addr(2),
        tweet_reaction: ctx.tweet_reaction.dup(),
        program_id: addr(9),
    };
    assert_eq!(remove_reaction(&mut store, &mut tweet, &remove_ctx), Ok(()));
    assert_eq!(tweet.likes, 0);
    assert_eq!(tweet.dislikes, 0);
    assert!(store.read(&ctx.tweet_reaction).is_none());
    assert_eq!(store.balance_of(&addr(3)), 20_000_000);

    assert_eq!(
        add_reaction(&mut store, &mut tweet, &ctx, ReactionType::Dislike),
        Ok(())
    );
    assert_eq!(tweet.likes, 0);
    assert_eq!(tweet.dislikes, 1);
}

#[test]
fn second_reaction_collides_whatever_its_kind() {
    let mut store = funded_store(3, 20_000_000);
    let mut tweet = Tweet { likes: 0, dislikes: 0 };
    let ctx = reaction_ctx(3, 2);

    assert_eq!(
        add_reaction(&mut store, &mut tweet, &ctx, ReactionType::Like),
        Ok(())
    );
    assert_eq!(
        add_reaction(&mut store, &mut tweet, &ctx, ReactionType::Dislike),
        Err(TwitterError::AlreadyReacted)
    );
    assert_eq!(
        add_reaction(&mut store, &mut tweet, &ctx, ReactionType::Like),
        Err(TwitterError::AlreadyReacted)
    );
    assert_eq!(tweet.likes, 1);
    assert_eq!(tweet.dislikes, 0);
}

#[test]
fn liking_a_saturated_counter_fails() {
    let mut store = funded_store(3, 20_000_000);
    let mut tweet = Tweet { likes: u64::MAX, dislikes: 0 };
    let ctx = reaction_ctx(3, 2);
    assert_eq!(
        add_reaction(&mut store, &mut tweet, &ctx, ReactionType::Like),
        Err(TwitterError::LikeCounterSaturated)
    );
    assert_eq!(tweet.likes, u64::MAX);
    assert!(store.read(&ctx.tweet_reaction).is_none());
}

#[test]
fn disliking_a_saturated_counter_fails() {
    let mut store = funded_store(3, 20_000_000);
    let mut tweet = Tweet { likes: 0, dislikes: u64::MAX };
    let ctx = reaction_ctx(3, 2);
    assert_eq!(
        add_reaction(&mut store, &mut tweet, &ctx, ReactionType::Dislike),
        Err(TwitterError::DislikeCounterSaturated)
    );
    assert_eq!(tweet.dislikes, u64::MAX);
    assert!(store.read(&ctx.tweet_reaction).is_none());
}

#[test]
fn removing_a_dislike_touches_only_the_dislike_counter() {
    let mut store = funded_store(3, 20_000_000);
    let mut tweet = Tweet { likes: 5, dislikes: 9 };
    let ctx = reaction_ctx(3, 2);

    assert_eq!(
        add_reaction(&mut store, &mut tweet, &ctx, ReactionType::Dislike),
        Ok(())
    );
    assert_eq!(tweet.likes, 5);
    assert_eq!(tweet.dislikes, 10);

    let remove_ctx = RemoveReactionContext {
        reaction_author: addr(3),
        tweet: addr(2),
        tweet_reaction: ctx.tweet_reaction.dup(),
        program_id: addr(9),
    };
    assert_eq!(remove_reaction(&mut store, &mut tweet, &remove_ctx), Ok(()));
    assert_eq!(tweet.likes, 5);
    assert_eq!(tweet.dislikes, 9);
    assert_eq!(store.balance_of(&addr(3)), 20_000_000);
}

#[test]
fn removing_a_like_at_zero_underflows() {
    let mut store = funded_store(3, 20_000_000);
    let mut tweet = Tweet { likes: 0, dislikes: 0 };
    let ctx = reaction_ctx(3, 2);
    assert_eq!(
        add_reaction(&mut store, &mut tweet, &ctx, ReactionType::Like),
        Ok(())
    );

    tweet.likes = 0;
    let remove_ctx = RemoveReactionContext {
        reaction_author: addr(3),
        tweet: addr(2),
        tweet_reaction: ctx.tweet_reaction.dup(),
        program_id: addr(9),
    };
    assert_eq!(
        remove_reaction(&mut store, &mut tweet, &remove_ctx),
        Err(TwitterError::LikeCounterUnderflow)
    );
    assert!(store.read(&ctx.tweet_reaction).is_some());
}

#[test]
fn removing_a_dislike_at_zero_underflows() {
    let mut store = funded_store(3, 20_000_000);
    let mut tweet = Tweet { likes: 0, dislikes: 0 };
    let ctx = reaction_ctx(3, 2);
    assert_eq!(
        add_reaction(&mut store, &mut tweet, &ctx, ReactionType::Dislike),
        Ok(())
    );

    tweet.dislikes = 0;
    let remove_ctx = RemoveReactionContext {
        reaction_author: addr(3),
        tweet: addr(2),
        tweet_reaction: ctx.tweet_reaction.dup(),
        program_id: addr(9),
    };
    assert_eq!(
        remove_reaction(&mut store, &mut tweet, &remove_ctx),
        Err(TwitterError::DislikeCounterUnderflow)
    );
    assert!(store.read(&ctx.tweet_reaction).is_some());
}

#[test]
fn removing_a_missing_reaction_is_not_found() {
    let mut store = RecordStore::new();
    let mut tweet = Tweet { likes: 1, dislikes: 1 };
    let derived = derive_reaction_address(&addr(3), &addr(2), &addr(9)).expect("should derive");
    let remove_ctx = RemoveReactionContext {
        reaction_author: addr(3),
        tweet: addr(2),
        tweet_reaction: derived.0,
        program_id: addr(9),
    };
    assert_eq!(
        remove_reaction(&mut store, &mut tweet, &remove_ctx),
        Err(TwitterError::NotFound)
    );
    assert_eq!(tweet.likes, 1);
    assert_eq!(tweet.dislikes, 1);
}

#[test]
fn removing_a_reaction_under_another_signer_mismatches() {
    let mut store = funded_store(3, 20_000_000);
    let mut tweet = Tweet { likes: 0, dislikes: 0 };
    let ctx = reaction_ctx(3, 2);
    assert_eq!(
        add_reaction(&mut store, &mut tweet, &ctx, ReactionType::Like),
        Ok(())
    );

    let remove_ctx = RemoveReactionContext {
        reaction_author: addr(4),
        tweet: addr(2),
        tweet_reaction: ctx.tweet_reaction.dup(),
        program_id: addr(9),
    };
    assert_eq!(
        remove_reaction(&mut store, &mut tweet, &remove_ctx),
        Err(TwitterError::AddressMismatch)
    );
    assert_eq!(tweet.likes, 1);
    assert!(store.read(&ctx.tweet_reaction).is_some());
}
