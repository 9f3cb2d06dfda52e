use vstd::prelude::*;

use crate::identity::Identity;
use crate::identity::is_authorized;

verus! {

/// Failures of the counter-adjust handlers. Every one is a local,
/// synchronous validation failure; none is retried.
#[derive(Clone, Copy, PartialEq, Eq, Structural, Debug)]
pub enum TwitterError {
    /// The like counter is at its upper bound.
    MaxLikesReached,
    /// The dislike counter is at its upper bound.
    MaxDislikesReached,
    /// The like counter is at zero; decrementing it would underflow.
    MinLikesReached,
    /// The dislike counter is at zero; decrementing it would underflow.
    MinDislikesReached,
    /// The caller identity does not match the reaction's author.
    AuthorizationMismatch,
}

/// The polarity of a reaction.
#[derive(Clone, Copy, PartialEq, Eq, Structural, Debug)]
pub enum ReactionType {
    Like,
    Dislike,
}

/// A parent record carrying the two reaction counters.
#[derive(Clone, Copy, PartialEq, Eq, Structural, Debug)]
pub struct Tweet {
    /// The record's own identity (its address on the ledger).
    pub id: Identity,
    pub likes: u64,
    pub dislikes: u64,
}

/// A child record linking one author to one parent record with a polarity.
/// Created by the add handler, destroyed by the remove handler.
#[derive(Clone, Copy, PartialEq, Eq, Structural, Debug)]
pub struct Reaction {
    pub reaction_author: Identity,
    pub parent_tweet: Identity,
    pub reaction: ReactionType,
    /// Uniqueness nonce that the runtime derives for the (author, parent)
    /// storage slot.
    pub bump: u8,
}

/// The account view the add handler operates on: the signing author, the
/// writable parent record, and the nonce the runtime derived for the new
/// reaction's slot.
#[derive(Clone, Copy, PartialEq, Eq, Structural, Debug)]
pub struct AddReactionContext {
    pub reaction_author: Identity,
    pub tweet: Tweet,
    pub bump: u8,
}

/// The account view the remove handler operates on: the signing author, the
/// reaction record to destroy, and the writable parent record.
#[derive(Clone, Copy, PartialEq, Eq, Structural, Debug)]
pub struct RemoveReactionContext {
    pub reaction_author: Identity,
    pub tweet_reaction: Reaction,
    pub tweet: Tweet,
}

/// The counter of `t` that `kind` selects.
pub open spec fn counter(t: Tweet, kind: ReactionType) -> u64 {
    match kind {
        ReactionType::Like => t.likes,
        ReactionType::Dislike => t.dislikes,
    }
}

/// The error reported when the counter that `kind` selects is at its upper
/// bound.
pub open spec fn max_error(kind: ReactionType) -> TwitterError {
    match kind {
        ReactionType::Like => TwitterError::MaxLikesReached,
        ReactionType::Dislike => TwitterError::MaxDislikesReached,
    }
}

/// The error reported when the counter that `kind` selects is at zero.
pub open spec fn min_error(kind: ReactionType) -> TwitterError {
    match kind {
        ReactionType::Like => TwitterError::MinLikesReached,
        ReactionType::Dislike => TwitterError::MinDislikesReached,
    }
}

/// `t` with the counter that `kind` selects one higher: the effect of a
/// successful add.
pub open spec fn spec_add_reaction(t: Tweet, kind: ReactionType) -> Tweet
    recommends
        counter(t, kind) < u64::MAX,
{
    match kind {
        ReactionType::Like => Tweet { id: t.id, likes: (t.likes + 1) as u64, dislikes: t.dislikes },
        ReactionType::Dislike => Tweet {
            id: t.id,
            likes: t.likes,
            dislikes: (t.dislikes + 1) as u64,
        },
    }
}

/// `t` with the counter that `kind` selects one lower: the effect of a
/// successful remove.
pub open spec fn spec_remove_reaction(t: Tweet, kind: ReactionType) -> Tweet
    recommends
        counter(t, kind) > 0,
{
    match kind {
        ReactionType::Like => Tweet { id: t.id, likes: (t.likes - 1) as u64, dislikes: t.dislikes },
        ReactionType::Dislike => Tweet {
            id: t.id,
            likes: t.likes,
            dislikes: (t.dislikes - 1) as u64,
        },
    }
}

/// Counter-adjust handler, add side. When the counter that `reaction`
/// selects is below its maximum, increments it and returns the populated
/// reaction record for the runtime to store in the derived slot; at the
/// maximum it fails and mutates nothing. Duplicate detection is not this
/// handler's concern: the registry (standing in for the runtime's derived
/// addressing) rejects a second record for the same (author, parent) pair.
pub fn add_reaction(ctx: &mut AddReactionContext, reaction: ReactionType) -> (r: Result<
    Reaction,
    TwitterError,
>)
    ensures
        counter(old(ctx).tweet, reaction) == u64::MAX ==> r == Err::<Reaction, TwitterError>(
            max_error(reaction),
        ) && *final(ctx) == *old(ctx),
        counter(old(ctx).tweet, reaction) < u64::MAX ==> {
            &&& r == Ok::<Reaction, TwitterError>(
                Reaction {
                    reaction_author: old(ctx).reaction_author,
                    parent_tweet: old(ctx).tweet.id,
                    reaction,
                    bump: old(ctx).bump,
                },
            )
            &&& final(ctx).tweet == spec_add_reaction(old(ctx).tweet, reaction)
            &&& final(ctx).reaction_author == old(ctx).reaction_author
            &&& final(ctx).bump == old(ctx).bump
        },
{
    match reaction {
        ReactionType::Like => {
            if !(ctx.tweet.likes < u64::MAX) {
                return Err(TwitterError::MaxLikesReached);
            }
            ctx.tweet.likes = ctx.tweet.likes + 1;
        },
        ReactionType::Dislike => {
            if !(ctx.tweet.dislikes < u64::MAX) {
                return Err(TwitterError::MaxDislikesReached);
            }
            ctx.tweet.dislikes = ctx.tweet.dislikes + 1;
        },
    }
    Ok(
        Reaction {
            reaction_author: ctx.reaction_author,
            parent_tweet: ctx.tweet.id,
            reaction,
            bump: ctx.bump,
        },
    )
}

/// Counter-adjust handler, remove side. Checks, in order: that the caller is
/// the reaction's author, then that the counter the reaction's kind selects
/// is above zero; the first failure aborts with no mutation. On success it
/// decrements that counter; destroying the reaction record and refunding its
/// allocation cost is the registry's (runtime's) part.
pub fn remove_reaction(ctx: &mut RemoveReactionContext) -> (r: Result<(), TwitterError>)
    ensures
        old(ctx).tweet_reaction.reaction_author != old(ctx).reaction_author ==> r == Err::<
            (),
            TwitterError,
        >(TwitterError::AuthorizationMismatch) && *final(ctx) == *old(ctx),
        old(ctx).tweet_reaction.reaction_author == old(ctx).reaction_author && counter(
            old(ctx).tweet,
            old(ctx).tweet_reaction.reaction,
        ) == 0 ==> r == Err::<(), TwitterError>(min_error(old(ctx).tweet_reaction.reaction))
            && *final(ctx) == *old(ctx),
        old(ctx).tweet_reaction.reaction_author == old(ctx).reaction_author && counter(
            old(ctx).tweet,
            old(ctx).tweet_reaction.reaction,
        ) > 0 ==> {
            &&& r == Ok::<(), TwitterError>(())
            &&& final(ctx).tweet == spec_remove_reaction(
                old(ctx).tweet,
                old(ctx).tweet_reaction.reaction,
            )
            &&& final(ctx).reaction_author == old(ctx).reaction_author
            &&& final(ctx).tweet_reaction == old(ctx).tweet_reaction
        },
{
    if !is_authorized(ctx.tweet_reaction.reaction_author, ctx.reaction_author) {
        return Err(TwitterError::AuthorizationMismatch);
    }
    match ctx.tweet_reaction.reaction {
        ReactionType::Like => {
            if !(ctx.tweet.likes > 0) {
                return Err(TwitterError::MinLikesReached);
            }
            ctx.tweet.likes = ctx.tweet.likes - 1;
        },
        ReactionType::Dislike => {
            if !(ctx.tweet.dislikes > 0) {
                return Err(TwitterError::MinDislikesReached);
            }
            ctx.tweet.dislikes = ctx.tweet.dislikes - 1;
        },
    }
    Ok(())
}

} // verus!
