use ledger_auth::identity::Identity;
use ledger_auth::registry::ReactionRegistry;
use ledger_auth::registry::RegistryError;
use ledger_auth::tweet::AddReactionContext;
use ledger_auth::tweet::Reaction;
use ledger_auth::tweet::ReactionType;
use ledger_auth::tweet::RemoveReactionContext;
use ledger_auth::tweet::Tweet;
use ledger_auth::tweet::add_reaction;
use ledger_auth::tweet::remove_reaction;

fn rec(author: u64, parent: u64, kind: ReactionType) -> Reaction {
    Reaction {
        reaction_author: Identity { key: author },
        parent_tweet: Identity { key: parent },
        reaction: kind,
        bump: 255,
    }
}

#[test]
fn new_registry_is_empty() {
    let reg = ReactionRegistry::new();
    assert_eq!(reg.len(), 0);
    assert!(!reg.contains(Identity { key: 1 }, Identity { key: 2 }));
    assert!(reg.get(Identity { key: 1 }, Identity { key: 2 }).is_none());
}

#[test]
fn insert_then_contains_and_get() {
    let mut reg = ReactionRegistry::new();
    let r = rec(1, 2, ReactionType::Like);
    assert_eq!(reg.insert(r), Ok(()));
    assert_eq!(reg.len(), 1);
    assert!(reg.contains(Identity { key: 1 }, Identity { key: 2 }));
    assert_eq!(reg.get(Identity { key: 1 }, Identity { key: 2 }), Some(r));
}

#[test]
fn second_insert_for_same_slot_is_rejected() {
    let mut reg = ReactionRegistry::new();
    assert_eq!(reg.insert(rec(1, 2, ReactionType::Like)), Ok(()));
    // even a different kind lands in the same (author, parent) slot
    assert_eq!(
        reg.insert(rec(1, 2, ReactionType::Dislike)),
        Err(RegistryError::SlotOccupied)
    );
    assert_eq!(reg.len(), 1);
    assert_eq!(
        reg.get(Identity { key: 1 }, Identity { key: 2 }).unwrap().reaction,
        ReactionType::Like
    );
}

#[test]
fn remove_frees_the_slot_and_returns_the_record() {
    let mut reg = ReactionRegistry::new();
    let r = rec(1, 2, ReactionType::Dislike);
    assert_eq!(reg.insert(r), Ok(()));
    assert_eq!(reg.remove(Identity { key: 1 }, Identity { key: 2 }), Some(r));
    assert_eq!(reg.len(), 0);
    assert!(!reg.contains(Identity { key: 1 }, Identity { key: 2 }));
}

#[test]
fn remove_of_a_free_slot_returns_none() {
    let mut reg = ReactionRegistry::new();
    assert_eq!(reg.insert(rec(1, 2, ReactionType::Like)), Ok(()));
    assert_eq!(reg.remove(Identity { key: 9 }, Identity { key: 2 }), None);
    assert_eq!(reg.len(), 1);
}

#[test]
fn distinct_slots_coexist_and_removal_keeps_the_others() {
    let mut reg = ReactionRegistry::new();
    assert_eq!(reg.insert(rec(1, 2, ReactionType::Like)), Ok(()));
    assert_eq!(reg.insert(rec(1, 3, ReactionType::Like)), Ok(()));
    assert_eq!(reg.insert(rec(4, 2, ReactionType::Dislike)), Ok(()));
    assert_eq!(reg.len(), 3);
    assert_eq!(
        reg.remove(Identity { key: 1 }, Identity { key: 2 }),
        Some(rec(1, 2, ReactionType::Like))
    );
    assert_eq!(reg.len(), 2);
    assert!(!reg.contains(Identity { key: 1 }, Identity { key: 2 }));
    assert!(reg.contains(Identity { key: 1 }, Identity { key: 3 }));
    assert!(reg.contains(Identity { key: 4 }, Identity { key: 2 }));
}

#[test]
fn add_then_remove_round_trip_on_tweet_and_registry() {
    let author = Identity { key: 11 };
    let parent = Identity { key: 3 };
    let mut reg = ReactionRegistry::new();
    assert!(!reg.contains(author, parent));

    // the runtime-replacement flow: run the handler, then store the record
    let mut add = AddReactionContext {
        reaction_author: author,
        tweet: Tweet { id: parent, likes: 10, dislikes: 4 },
        bump: 253,
    };
    let stored = add_reaction(&mut add, ReactionType::Like).unwrap();
    assert_eq!(reg.insert(stored), Ok(()));
    assert_eq!(add.tweet.likes, 11);
    assert!(reg.contains(author, parent));

    // the paired removal: run the handler, then free the slot
    let mut rem = RemoveReactionContext {
        reaction_author: author,
        tweet_reaction: reg.get(author, parent).unwrap(),
        tweet: add.tweet,
    };
    assert_eq!(remove_reaction(&mut rem), Ok(()));
    assert_eq!(reg.remove(author, parent), Some(stored));

    // net effect: counters as before, record gone
    assert_eq!(rem.tweet, Tweet { id: parent, likes: 10, dislikes: 4 });
    assert!(!reg.contains(author, parent));
    assert_eq!(reg.len(), 0);
}
