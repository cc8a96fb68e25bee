use convshare::conversation::{
    ConversationContents, ConversationMetadata, NewConversation, PatchConversation, Utterance,
};
use convshare::digest::compute_digest;
use convshare::store::{ContentStore, StoreError};

fn dialog(lines: &[(&str, &str)]) -> Vec<Utterance> {
    let mut d = Vec::new();
    for (who, what) in lines {
        d.push(Utterance { who: who.to_string(), what: what.to_string() });
    }
    d
}

fn form(title: &str, lines: &[(&str, &str)], paid: bool) -> NewConversation {
    NewConversation {
        openaiid: "conv-1".to_string(),
        title: title.to_string(),
        contents: ConversationContents { avatar: "data:,x".to_string(), dialog: dialog(lines) },
        model: "gpt-4".to_string(),
        public: true,
        research: false,
        paiduser: paid,
    }
}

#[test]
fn scenario_free_limit_one() {
    // Owner "u1", unpaid, free_limit = 1: first post is stored, the identical
    // payload resolves to the same id, a different payload is over quota.
    let mut store = ContentStore::new(1);
    let payload = form("t", &[("human", "hi")], false);
    let a = store.create("u1".to_string(), payload, 100).expect("first create");
    let again = form("t", &[("human", "hi")], false);
    let b = store.create("u1".to_string(), again, 200).expect("identical create");
    assert_eq!(a, b);
    assert_eq!(store.conversation_count(&"u1".to_string()), 1);
    let different = form("t2", &[("human", "hello")], false);
    let c = store.create("u1".to_string(), different, 300);
    assert_eq!(c, Err(StoreError::QuotaExceeded));
}

#[test]
fn create_is_idempotent() {
    let mut store = ContentStore::new(10);
    let a = store.create("u1".to_string(), form("t", &[("human", "hi"), ("gpt", "yo")], false), 5)
        .expect("create");
    let b = store.create("u1".to_string(), form("t", &[("human", "hi"), ("gpt", "yo")], false), 99)
        .expect("repeat create");
    assert_eq!(a, b);
    assert_eq!(store.conversation_count(&"u1".to_string()), 1);
    // The drawn identifier is a 32-digit rendering of a fresh uuid.
    assert_eq!(a.len(), 32);
}

#[test]
fn same_content_different_owner_is_distinct() {
    let mut store = ContentStore::new(10);
    let a = store.create("u1".to_string(), form("t", &[("human", "hi")], false), 5).unwrap();
    let b = store.create("u2".to_string(), form("t", &[("human", "hi")], false), 5).unwrap();
    assert_ne!(a, b);
    assert_eq!(store.conversation_count(&"u1".to_string()), 1);
    assert_eq!(store.conversation_count(&"u2".to_string()), 1);
}

#[test]
fn paid_owner_ignores_quota() {
    let mut store = ContentStore::new(1);
    store.create("u1".to_string(), form("a", &[("human", "1")], true), 1).expect("paid 1");
    store.create("u1".to_string(), form("b", &[("human", "2")], true), 2).expect("paid 2");
    store.create("u1".to_string(), form("c", &[("human", "3")], true), 3).expect("paid 3");
    assert_eq!(store.conversation_count(&"u1".to_string()), 3);
}

#[test]
fn quota_frees_up_after_delete() {
    let mut store = ContentStore::new(1);
    let owner = "u1".to_string();
    let a = store.create(owner.clone(), form("a", &[("human", "1")], false), 1).unwrap();
    assert_eq!(
        store.create(owner.clone(), form("b", &[("human", "2")], false), 2),
        Err(StoreError::QuotaExceeded)
    );
    store.set_deleted(&a, &owner, true).expect("delete");
    assert_eq!(store.conversation_count(&owner), 0);
    let b = store.create(owner.clone(), form("b", &[("human", "2")], false), 3).expect("after delete");
    assert_ne!(a, b);
    assert_eq!(store.conversation_count(&owner), 1);
}

#[test]
fn delete_undelete_round_trip() {
    let mut store = ContentStore::new(5);
    let owner = "u1".to_string();
    let id = store.create(owner.clone(), form("t", &[("human", "hi")], false), 42).unwrap();

    let before = store.read(&id, false).expect("visible after create");
    assert_eq!(before.id, id);
    assert_eq!(before.metadata.title, "t");
    assert_eq!(before.metadata.creationdate, 42);
    assert_eq!(before.metadata.length, 1);
    assert!(!before.deleted);

    store.set_deleted(&id, &owner, true).expect("delete");
    assert!(store.read(&id, false).is_none());
    let hidden = store.read(&id, true).expect("reachable as deleted");
    assert!(hidden.deleted);

    store.set_deleted(&id, &owner, false).expect("undelete");
    let after = store.read(&id, false).expect("visible again");
    assert_eq!(after.id, before.id);
    assert_eq!(after.digest, before.digest);
    assert_eq!(after.metadata.title, before.metadata.title);
    assert_eq!(after.metadata.creationdate, before.metadata.creationdate);
    assert!(!after.deleted);
}

#[test]
fn delete_requires_live_and_undelete_requires_deleted() {
    let mut store = ContentStore::new(5);
    let owner = "u1".to_string();
    let id = store.create(owner.clone(), form("t", &[("human", "hi")], false), 1).unwrap();
    // Undeleting a live record: no such transition.
    assert_eq!(store.set_deleted(&id, &owner, false), Err(StoreError::NotFound));
    store.set_deleted(&id, &owner, true).unwrap();
    // Deleting a deleted record: no such transition.
    assert_eq!(store.set_deleted(&id, &owner, true), Err(StoreError::NotFound));
    // An id never stored.
    assert_eq!(
        store.set_deleted(&"missing".to_string(), &owner, true),
        Err(StoreError::NotFound)
    );
}

#[test]
fn ownership_is_enforced() {
    let mut store = ContentStore::new(5);
    let owner = "u1".to_string();
    let other = "u2".to_string();
    let id = store.create(owner.clone(), form("t", &[("human", "hi")], false), 1).unwrap();

    assert_eq!(store.set_deleted(&id, &other, true), Err(StoreError::Forbidden));
    let patch = PatchConversation {
        id: id.clone(),
        contents: ConversationContents { avatar: String::new(), dialog: dialog(&[("gpt", "x")]) },
        metadata: ConversationMetadata {
            title: "new".to_string(),
            openaiid: "conv-1".to_string(),
            model: "gpt-4".to_string(),
            creationdate: 9,
            length: 1,
        },
        public: false,
        research: false,
    };
    assert_eq!(store.patch(&other, patch), Err(StoreError::Forbidden));

    // Even once the record is soft-deleted, a stranger is told Forbidden.
    store.set_deleted(&id, &owner, true).unwrap();
    assert_eq!(store.set_deleted(&id, &other, false), Err(StoreError::Forbidden));
    assert_eq!(store.set_deleted(&id, &other, true), Err(StoreError::Forbidden));
}

#[test]
fn patch_replaces_contents_and_digest() {
    let mut store = ContentStore::new(5);
    let owner = "u1".to_string();
    let id = store.create(owner.clone(), form("t", &[("human", "hi")], false), 1).unwrap();
    let old_digest = store.read(&id, false).unwrap().digest;

    let new_contents = ConversationContents {
        avatar: "data:,y".to_string(),
        dialog: dialog(&[("human", "hi"), ("gpt", "hello")]),
    };
    let new_metadata = ConversationMetadata {
        title: "patched".to_string(),
        openaiid: "conv-1".to_string(),
        model: "gpt-4".to_string(),
        creationdate: 7,
        length: 2,
    };
    let expected_digest = compute_digest(&new_contents, &new_metadata, &owner);
    let patch = PatchConversation {
        id: id.clone(),
        contents: new_contents,
        metadata: new_metadata,
        public: false,
        research: true,
    };
    store.patch(&owner, patch).expect("patch");

    let after = store.read(&id, false).expect("still visible");
    assert_eq!(after.metadata.title, "patched");
    assert_eq!(after.metadata.length, 2);
    assert!(!after.public);
    assert!(after.research);
    assert_eq!(after.digest, expected_digest);
    assert_ne!(after.digest, old_digest);

    // A deleted record cannot be patched, even by its owner.
    store.set_deleted(&id, &owner, true).unwrap();
    let patch2 = PatchConversation {
        id: id.clone(),
        contents: ConversationContents { avatar: String::new(), dialog: dialog(&[("gpt", "z")]) },
        metadata: ConversationMetadata {
            title: "again".to_string(),
            openaiid: "conv-1".to_string(),
            model: "gpt-4".to_string(),
            creationdate: 8,
            length: 1,
        },
        public: true,
        research: false,
    };
    assert_eq!(store.patch(&owner, patch2), Err(StoreError::NotFound));
}

#[test]
fn listing_shows_all_records_of_owner() {
    let mut store = ContentStore::new(5);
    let owner = "u1".to_string();
    let a = store.create(owner.clone(), form("a", &[("human", "1")], false), 1).unwrap();
    let b = store.create(owner.clone(), form("b", &[("human", "2")], false), 2).unwrap();
    store.create("u2".to_string(), form("c", &[("human", "3")], false), 3).unwrap();
    store.set_deleted(&b, &owner, true).unwrap();

    let list = store.find_conversations_by_user(&owner);
    assert_eq!(list.len(), 2);
    assert_eq!(list[0].id, a);
    assert!(!list[0].deleted);
    assert_eq!(list[0].metadata.title, "a");
    assert_eq!(list[1].id, b);
    assert!(list[1].deleted);
    assert_eq!(list[1].metadata.title, "b");
}

#[test]
fn digest_ignores_creation_time_but_reads_everything_else() {
    let contents = ConversationContents { avatar: "av".to_string(), dialog: dialog(&[("human", "hi")]) };
    let meta = |created: u64, title: &str| ConversationMetadata {
        title: title.to_string(),
        openaiid: "o".to_string(),
        model: "m".to_string(),
        creationdate: created,
        length: 1,
    };
    let owner = "u1".to_string();
    let d1 = compute_digest(&contents, &meta(1, "t"), &owner);
    let d2 = compute_digest(&contents, &meta(999, "t"), &owner);
    assert_eq!(d1, d2);
    let d3 = compute_digest(&contents, &meta(1, "other"), &owner);
    assert_ne!(d1, d3);
    let d4 = compute_digest(&contents, &meta(1, "t"), &"u2".to_string());
    assert_ne!(d1, d4);
    let other_contents =
        ConversationContents { avatar: "av".to_string(), dialog: dialog(&[("human", "hi!")]) };
    let d5 = compute_digest(&other_contents, &meta(1, "t"), &owner);
    assert_ne!(d1, d5);
}

#[test]
fn duplicate_lookup_sees_only_live_records() {
    let mut store = ContentStore::new(5);
    let owner = "u1".to_string();
    let id = store.create(owner.clone(), form("t", &[("human", "hi")], false), 1).unwrap();
    let digest = store.read(&id, false).unwrap().digest;
    assert_eq!(store.conversation_exists(&owner, digest), Some(id.clone()));
    store.set_deleted(&id, &owner, true).unwrap();
    assert_eq!(store.conversation_exists(&owner, digest), None);
    // With the duplicate soft-deleted, the same payload is stored anew.
    let id2 = store.create(owner.clone(), form("t", &[("human", "hi")], false), 2).unwrap();
    assert_ne!(id, id2);
}

#[test]
fn error_messages_are_fixed() {
    assert_eq!(StoreError::NotFound.message(), "conversation not found");
    assert_eq!(StoreError::Forbidden.message(), "authorization problem");
    assert_eq!(StoreError::QuotaExceeded.message(), "Maximum free share count reached");
    assert_eq!(StoreError::IdUnavailable.message(), "could not assign a fresh identifier");
}

#[test]
fn read_of_missing_id_finds_nothing() {
    let store = ContentStore::new(5);
    assert!(store.read(&"nope".to_string(), false).is_none());
    assert!(store.read(&"nope".to_string(), true).is_none());
    assert!(!store.contains_id(&"nope".to_string()));
    assert_eq!(store.free_limit(), 5);
}

#[test]
fn digest_has_a_fixed_value() {
    // The digest of the all-empty conversation, and of the same with owner
    // "A": pinned values of the hash, independent of the creation time.
    let contents = ConversationContents { avatar: String::new(), dialog: Vec::new() };
    let metadata = ConversationMetadata {
        title: String::new(),
        openaiid: String::new(),
        model: String::new(),
        creationdate: 77,
        length: 0,
    };
    assert_eq!(compute_digest(&contents, &metadata, &String::new()), 0x8ac1_23d6_f7dc_e585);
    assert_eq!(compute_digest(&contents, &metadata, &"A".to_string()), 0x0faa_d6e9_97be_9fdf);
}
