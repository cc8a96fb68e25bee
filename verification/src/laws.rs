//! The store's laws: idempotent creation, quota enforcement, the
//! delete/undelete round trip, and ownership enforcement, each proved of the
//! transition functions that the store's contracts are stated over.

use vstd::prelude::*;

use crate::conversation::{ConversationView, NewConversationView, PatchConversationView};
use crate::digest::{digest_of, lemma_digest_ignores_creationdate};
use crate::store::{
    has_id, ids_unique, idx_of_id, live_count, live_dup_count, spec_create, spec_find_dup,
    spec_form_metadata, spec_new_record, spec_patch, spec_read, spec_set_deleted, StoreError,
};

verus! {

/// What one record adds to an owner's live count.
pub open spec fn live_contrib(c: ConversationView, owner: Seq<char>) -> nat {
    if c.owner == owner && !c.deleted {
        1nat
    } else {
        0nat
    }
}

proof fn lemma_find_dup_push(s: Seq<ConversationView>, r: ConversationView, owner: Seq<char>, digest: u64)
    ensures
        spec_find_dup(s.push(r), owner, digest) == (match spec_find_dup(s, owner, digest) {
            Some(x) => Some(x),
            None => if r.owner == owner && r.digest == digest && !r.deleted {
                Some(r.id)
            } else {
                None
            },
        }),
    decreases s.len(),
{
    let l = spec_find_dup(s.push(r), owner, digest);
    if s.len() == 0 {
        assert(s.push(r).first() == r);
        assert(s.push(r).drop_first() =~= Seq::<ConversationView>::empty());
        if r.owner == owner && r.digest == digest && !r.deleted {
            assert(l == Some(r.id));
        } else {
            assert(l == spec_find_dup(Seq::<ConversationView>::empty(), owner, digest));
            assert(l is None);
        }
    } else {
        assert(s.push(r).first() == s.first());
        assert(s.push(r).drop_first() =~= s.drop_first().push(r));
        lemma_find_dup_push(s.drop_first(), r, owner, digest);
        if s.first().owner == owner && s.first().digest == digest && !s.first().deleted {
            assert(l == Some(s.first().id));
            assert(spec_find_dup(s, owner, digest) == Some(s.first().id));
        } else {
            assert(l == spec_find_dup(s.drop_first().push(r), owner, digest));
            assert(spec_find_dup(s, owner, digest) == spec_find_dup(s.drop_first(), owner, digest));
        }
    }
}

proof fn lemma_dup_count_push(s: Seq<ConversationView>, r: ConversationView, owner: Seq<char>, digest: u64)
    ensures
        live_dup_count(s.push(r), owner, digest) == live_dup_count(s, owner, digest) + (
        if r.owner == owner && r.digest == digest && !r.deleted {
            1nat
        } else {
            0nat
        }),
    decreases s.len(),
{
    let l = live_dup_count(s.push(r), owner, digest);
    if s.len() == 0 {
        assert(s.push(r).first() == r);
        assert(s.push(r).drop_first() =~= Seq::<ConversationView>::empty());
        assert(live_dup_count(Seq::<ConversationView>::empty(), owner, digest) == 0);
        assert(live_dup_count(s, owner, digest) == 0);
    } else {
        assert(s.push(r).first() == s.first());
        assert(s.push(r).drop_first() =~= s.drop_first().push(r));
        lemma_dup_count_push(s.drop_first(), r, owner, digest);
        assert(live_dup_count(s.push(r).drop_first(), owner, digest) == live_dup_count(
            s.drop_first().push(r),
            owner,
            digest,
        ));
    }
}

proof fn lemma_find_dup_none_iff_count_zero(s: Seq<ConversationView>, owner: Seq<char>, digest: u64)
    ensures
        (spec_find_dup(s, owner, digest) is None) <==> live_dup_count(s, owner, digest) == 0,
    decreases s.len(),
{
    if s.len() > 0 {
        lemma_find_dup_none_iff_count_zero(s.drop_first(), owner, digest);
    }
}

proof fn lemma_live_count_update(s: Seq<ConversationView>, i: int, c2: ConversationView, owner: Seq<char>)
    requires
        0 <= i < s.len(),
    ensures
        live_count(s.update(i, c2), owner) + live_contrib(s[i], owner) == live_count(s, owner)
            + live_contrib(c2, owner),
    decreases s.len(),
{
    if i == s.len() - 1 {
        assert(s.update(i, c2).drop_last() =~= s.drop_last());
        assert(s.update(i, c2).last() == c2);
    } else {
        assert(s.update(i, c2).drop_last() =~= s.drop_last().update(i, c2));
        assert(s.update(i, c2).last() == s.last());
        lemma_live_count_update(s.drop_last(), i, c2, owner);
    }
}

proof fn lemma_find_dup_update_still_none(
    s: Seq<ConversationView>,
    i: int,
    c2: ConversationView,
    owner: Seq<char>,
    digest: u64,
)
    requires
        0 <= i < s.len(),
        spec_find_dup(s, owner, digest) is None,
        !(c2.owner == owner && c2.digest == digest && !c2.deleted),
    ensures
        spec_find_dup(s.update(i, c2), owner, digest) is None,
    decreases s.len(),
{
    if i == 0 {
        assert(s.update(0, c2).first() == c2);
        assert(s.update(0, c2).drop_first() =~= s.drop_first());
    } else {
        assert(s.update(i, c2).first() == s.first());
        assert(s.update(i, c2).drop_first() =~= s.drop_first().update(i - 1, c2));
        lemma_find_dup_update_still_none(s.drop_first(), i - 1, c2, owner, digest);
    }
}

proof fn lemma_has_id_update_same(s: Seq<ConversationView>, i: int, c2: ConversationView, x: Seq<char>)
    requires
        0 <= i < s.len(),
        c2.id == s[i].id,
    ensures
        has_id(s.update(i, c2), x) == has_id(s, x),
{
    let s2 = s.update(i, c2);
    if has_id(s, x) {
        let k = choose|k: int| 0 <= k < s.len() && s[k].id == x;
        if k == i {
            assert(s2[i].id == x);
        } else {
            assert(s2[k].id == x);
        }
    }
    if has_id(s2, x) {
        let k = choose|k: int| 0 <= k < s2.len() && s2[k].id == x;
        if k == i {
            assert(s[i].id == x);
        } else {
            assert(s[k].id == x);
        }
    }
}

proof fn lemma_ids_unique_update(s: Seq<ConversationView>, i: int, c2: ConversationView)
    requires
        0 <= i < s.len(),
        ids_unique(s),
        c2.id == s[i].id,
    ensures
        ids_unique(s.update(i, c2)),
{
    let s2 = s.update(i, c2);
    assert forall|a: int, b: int| 0 <= a < b < s2.len() implies s2[a].id != s2[b].id by {
        assert(s[a].id != s[b].id);
    }
}

proof fn lemma_ids_unique_push_fresh(s: Seq<ConversationView>, r: ConversationView)
    requires
        ids_unique(s),
        !has_id(s, r.id),
    ensures
        ids_unique(s.push(r)),
        idx_of_id(s.push(r), r.id) == s.len(),
{
    let s1 = s.push(r);
    assert forall|a: int, b: int| 0 <= a < b < s1.len() implies s1[a].id != s1[b].id by {
        if b == s.len() {
            assert(!(0 <= a < s.len() && s[a].id == r.id));
            assert(s1[a] == s[a]);
        } else {
            assert(s1[a] == s[a] && s1[b] == s[b]);
        }
    }
    assert(s1[s.len() as int].id == r.id);
    assert(has_id(s1, r.id));
    let k = idx_of_id(s1, r.id);
    assert(0 <= k < s1.len() && s1[k].id == r.id);
    if k < s.len() {
        assert(s[k].id == r.id);
        assert(has_id(s, r.id));
    }
}

/// **Idempotent creation.** Submitting the same contents and metadata twice
/// for the same owner — at whatever times, with whatever drawn identifiers —
/// stores one record: the first submission is assigned its drawn id, the
/// second resolves to that same id and changes nothing, and exactly one live
/// record of that owner carries the content's digest afterwards.
pub proof fn lemma_create_idempotent(
    s: Seq<ConversationView>,
    limit: usize,
    owner: Seq<char>,
    form: NewConversationView,
    now1: u64,
    now2: u64,
    drawn1: Seq<char>,
    drawn2: Seq<char>,
)
    requires
        spec_find_dup(s, owner, digest_of(form.contents, spec_form_metadata(form, now1), owner))
            is None,
        !form.paiduser ==> live_count(s, owner) < limit,
        !has_id(s, drawn1),
    ensures
        ({
            let d2 = digest_of(form.contents, spec_form_metadata(form, now2), owner);
            let (s1, r1) = spec_create(s, limit, owner, form, now1, drawn1);
            let (s2, r2) = spec_create(s1, limit, owner, form, now2, drawn2);
            &&& r1 == Ok::<Seq<char>, StoreError>(drawn1)
            &&& r2 == Ok::<Seq<char>, StoreError>(drawn1)
            &&& s2 == s1
            &&& live_dup_count(s1, owner, d2) == 1
        }),
{
    let d1 = digest_of(form.contents, spec_form_metadata(form, now1), owner);
    let d2 = digest_of(form.contents, spec_form_metadata(form, now2), owner);
    lemma_digest_ignores_creationdate(
        form.contents,
        spec_form_metadata(form, now1),
        spec_form_metadata(form, now2),
        owner,
    );
    assert(d1 == d2);
    let rec = spec_new_record(form, owner, now1, drawn1);
    let (s1, r1) = spec_create(s, limit, owner, form, now1, drawn1);
    assert(s1 == s.push(rec) && r1 == Ok::<Seq<char>, StoreError>(drawn1));
    lemma_find_dup_push(s, rec, owner, d2);
    assert(spec_find_dup(s1, owner, d2) == Some(drawn1));
    lemma_dup_count_push(s, rec, owner, d2);
    lemma_find_dup_none_iff_count_zero(s, owner, d2);
    assert(live_dup_count(s1, owner, d2) == 1);
}

/// **Quota enforcement.** An unpaid owner holding their full allowance of
/// live records is refused a distinct new submission with `QuotaExceeded`,
/// and the store is left untouched; after soft-deleting one of their live
/// records, the same submission is accepted.
pub proof fn lemma_quota_enforced(
    s: Seq<ConversationView>,
    limit: usize,
    owner: Seq<char>,
    form: NewConversationView,
    now1: u64,
    now2: u64,
    drawn1: Seq<char>,
    drawn2: Seq<char>,
    victim: Seq<char>,
)
    requires
        ids_unique(s),
        !form.paiduser,
        live_count(s, owner) == limit,
        spec_find_dup(s, owner, digest_of(form.contents, spec_form_metadata(form, now1), owner))
            is None,
        has_id(s, victim),
        s[idx_of_id(s, victim)].owner == owner,
        !s[idx_of_id(s, victim)].deleted,
        !has_id(s, drawn2),
    ensures
        ({
            let (s1, r1) = spec_create(s, limit, owner, form, now1, drawn1);
            let (s2, r2) = spec_set_deleted(s, victim, owner, true);
            let (s3, r3) = spec_create(s2, limit, owner, form, now2, drawn2);
            &&& r1 == Err::<Seq<char>, StoreError>(StoreError::QuotaExceeded)
            &&& s1 == s
            &&& r2 == Ok::<(), StoreError>(())
            &&& r3 == Ok::<Seq<char>, StoreError>(drawn2)
        }),
{
    let d1 = digest_of(form.contents, spec_form_metadata(form, now1), owner);
    let d2 = digest_of(form.contents, spec_form_metadata(form, now2), owner);
    lemma_digest_ignores_creationdate(
        form.contents,
        spec_form_metadata(form, now1),
        spec_form_metadata(form, now2),
        owner,
    );
    let i = idx_of_id(s, victim);
    assert(0 <= i < s.len() && s[i].id == victim);
    let (s2, r2) = spec_set_deleted(s, victim, owner, true);
    let c2 = ConversationView {
        id: s[i].id,
        digest: s[i].digest,
        contents: s[i].contents,
        metadata: s[i].metadata,
        public: s[i].public,
        research: s[i].research,
        deleted: true,
        owner: s[i].owner,
    };
    assert(s2 == s.update(i, c2) && r2 == Ok::<(), StoreError>(()));
    lemma_live_count_update(s, i, c2, owner);
    assert(live_count(s2, owner) + 1 == limit);
    lemma_find_dup_update_still_none(s, i, c2, owner, d2);
    lemma_has_id_update_same(s, i, c2, drawn2);
}

/// **Delete/undelete round trip.** A freshly created record is visible to a
/// default read; after its owner deletes it, a default read finds nothing
/// and only a read that asks for deleted records reaches it; after its owner
/// undeletes it, a default read returns the original record again, unchanged
/// — and the store as a whole is exactly what it was before the delete.
pub proof fn lemma_delete_undelete_round_trip(
    s: Seq<ConversationView>,
    limit: usize,
    owner: Seq<char>,
    form: NewConversationView,
    now: u64,
    drawn: Seq<char>,
)
    requires
        ids_unique(s),
        spec_find_dup(s, owner, digest_of(form.contents, spec_form_metadata(form, now), owner))
            is None,
        !form.paiduser ==> live_count(s, owner) < limit,
        !has_id(s, drawn),
    ensures
        ({
            let rec = spec_new_record(form, owner, now, drawn);
            let (s1, r1) = spec_create(s, limit, owner, form, now, drawn);
            let (s2, r2) = spec_set_deleted(s1, drawn, owner, true);
            let (s3, r3) = spec_set_deleted(s2, drawn, owner, false);
            &&& r1 == Ok::<Seq<char>, StoreError>(drawn)
            &&& spec_read(s1, drawn, false) == Some(rec)
            &&& r2 == Ok::<(), StoreError>(())
            &&& spec_read(s2, drawn, false) is None
            &&& spec_read(s2, drawn, true) is Some
            &&& r3 == Ok::<(), StoreError>(())
            &&& spec_read(s3, drawn, false) == Some(rec)
            &&& s3 == s1
        }),
{
    let rec = spec_new_record(form, owner, now, drawn);
    let (s1, r1) = spec_create(s, limit, owner, form, now, drawn);
    assert(s1 == s.push(rec) && r1 == Ok::<Seq<char>, StoreError>(drawn));
    lemma_ids_unique_push_fresh(s, rec);
    let i = s.len() as int;
    assert(idx_of_id(s1, drawn) == i);
    assert(spec_read(s1, drawn, false) == Some(rec));
    let (s2, r2) = spec_set_deleted(s1, drawn, owner, true);
    let c2 = ConversationView {
        id: rec.id,
        digest: rec.digest,
        contents: rec.contents,
        metadata: rec.metadata,
        public: rec.public,
        research: rec.research,
        deleted: true,
        owner: rec.owner,
    };
    assert(s2 == s1.update(i, c2) && r2 == Ok::<(), StoreError>(()));
    lemma_ids_unique_update(s1, i, c2);
    lemma_has_id_update_same(s1, i, c2, drawn);
    assert(s2[i].id == drawn);
    assert(idx_of_id(s2, drawn) == i) by {
        let k = idx_of_id(s2, drawn);
        assert(0 <= k < s2.len() && s2[k].id == drawn);
    }
    assert(spec_read(s2, drawn, false) is None);
    assert(spec_read(s2, drawn, true) == Some(c2));
    let (s3, r3) = spec_set_deleted(s2, drawn, owner, false);
    assert(s3 == s2.update(i, rec) && r3 == Ok::<(), StoreError>(()));
    lemma_ids_unique_update(s2, i, rec);
    lemma_has_id_update_same(s2, i, rec, drawn);
    assert(idx_of_id(s3, drawn) == i) by {
        let k = idx_of_id(s3, drawn);
        assert(0 <= k < s3.len() && s3[k].id == drawn);
    }
    assert(spec_read(s3, drawn, false) == Some(rec));
    assert(s3 =~= s1);
}

/// **Ownership enforcement.** Whatever state a record is in, a patch, delete
/// or undelete issued by any subject other than its owner fails `Forbidden`
/// and leaves the store untouched.
pub proof fn lemma_ownership_enforced(
    s: Seq<ConversationView>,
    id: Seq<char>,
    caller: Seq<char>,
    deleted: bool,
    patch: PatchConversationView,
)
    requires
        has_id(s, id),
        s[idx_of_id(s, id)].owner != caller,
        patch.id == id,
    ensures
        spec_set_deleted(s, id, caller, deleted) == (s, Err::<(), StoreError>(StoreError::Forbidden)),
        spec_patch(s, caller, patch) == (s, Err::<(), StoreError>(StoreError::Forbidden)),
{
}

} // verus!
