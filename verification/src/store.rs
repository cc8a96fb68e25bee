//! The conversation store's policy layer: content-addressed de-duplication,
//! per-owner quota, and the create / soft-delete / undelete lifecycle.
//!
//! Records live in the store; every mutation goes through the checks below.
//! A soft-deleted record is invisible to default reads and only reachable by
//! asking for deleted records; delete and undelete are the only transitions,
//! and both re-check ownership. The quota counts an owner's live records at
//! the time of the write, so deleting frees room.

use vstd::prelude::*;
use vstd::pervasive::VecAdditionalExecFns;

use crate::conversation::{
    info_of_record, short_info_of_record, Conversation, ConversationInfo, ConversationMetadata,
    ConversationView, NewConversation, NewConversationView, PatchConversation,
    PatchConversationView, ShortConversationInfo, ShortConversationInfoView,
};
use crate::digest::{compute_digest, digest_of};

verus! {

/// Why a store operation was refused.
#[derive(Clone, Copy, Debug, PartialEq, Eq, Structural)]
pub enum StoreError {
    /// No record in the required state carries the requested id.
    NotFound,
    /// The record exists but the caller is not its owner.
    Forbidden,
    /// The owner is unpaid and already holds their full allowance of live
    /// records.
    QuotaExceeded,
    /// The freshly drawn identifier was already taken, so nothing was stored.
    IdUnavailable,
}

impl StoreError {
    /// A fixed description of the failure.
    pub fn message(&self) -> (r: &'static str)
        ensures
            *self == StoreError::NotFound ==> r@ == "conversation not found"@,
            *self == StoreError::Forbidden ==> r@ == "authorization problem"@,
            *self == StoreError::QuotaExceeded ==> r@ == "Maximum free share count reached"@,
            *self == StoreError::IdUnavailable ==> r@ == "could not assign a fresh identifier"@,
    {
        match self {
            StoreError::NotFound => "conversation not found",
            StoreError::Forbidden => "authorization problem",
            StoreError::QuotaExceeded => "Maximum free share count reached",
            StoreError::IdUnavailable => "could not assign a fresh identifier",
        }
    }
}

/// No two records carry the same id.
pub open spec fn ids_unique(s: Seq<ConversationView>) -> bool {
    forall|i: int, j: int| 0 <= i < j < s.len() ==> s[i].id != s[j].id
}

/// Whether some record, live or deleted, carries this id.
pub open spec fn has_id(s: Seq<ConversationView>, id: Seq<char>) -> bool {
    exists|i: int| 0 <= i < s.len() && s[i].id == id
}

/// The position of the record carrying this id. Meaningful when `has_id`
/// holds and ids are unique.
pub open spec fn idx_of_id(s: Seq<ConversationView>, id: Seq<char>) -> int {
    choose|i: int| 0 <= i < s.len() && s[i].id == id
}

/// What a read returns: the record with this id, provided its deletion flag
/// matches what the reader asked to see.
pub open spec fn spec_read(
    s: Seq<ConversationView>,
    id: Seq<char>,
    include_deleted: bool,
) -> Option<ConversationView> {
    if has_id(s, id) && s[idx_of_id(s, id)].deleted == include_deleted {
        Some(s[idx_of_id(s, id)])
    } else {
        None
    }
}

/// How many live records an owner holds.
pub open spec fn live_count(s: Seq<ConversationView>, owner: Seq<char>) -> nat
    decreases s.len(),
{
    if s.len() == 0 {
        0
    } else {
        live_count(s.drop_last(), owner) + if s.last().owner == owner && !s.last().deleted {
            1nat
        } else {
            0nat
        }
    }
}

/// How many live records an owner holds with a given digest.
pub open spec fn live_dup_count(s: Seq<ConversationView>, owner: Seq<char>, digest: u64) -> nat
    decreases s.len(),
{
    if s.len() == 0 {
        0
    } else {
        (if s.first().owner == owner && s.first().digest == digest && !s.first().deleted {
            1nat
        } else {
            0nat
        }) + live_dup_count(s.drop_first(), owner, digest)
    }
}

/// The id of the first live record of this owner with this digest, if any:
/// the record a duplicate submission resolves to.
pub open spec fn spec_find_dup(
    s: Seq<ConversationView>,
    owner: Seq<char>,
    digest: u64,
) -> Option<Seq<char>>
    decreases s.len(),
{
    if s.len() == 0 {
        None
    } else if s.first().owner == owner && s.first().digest == digest && !s.first().deleted {
        Some(s.first().id)
    } else {
        spec_find_dup(s.drop_first(), owner, digest)
    }
}

/// The listing an owner sees: every record of theirs, live or deleted, in
/// store order.
pub open spec fn spec_user_infos(s: Seq<ConversationView>, owner: Seq<char>) -> Seq<
    ShortConversationInfoView,
>
    decreases s.len(),
{
    if s.len() == 0 {
        Seq::empty()
    } else {
        spec_user_infos(s.drop_last(), owner) + if s.last().owner == owner {
            seq![short_info_of_record(s.last())]
        } else {
            Seq::empty()
        }
    }
}

/// The metadata a submission is stored with: the client's descriptive fields
/// and the store's own stamp of the creation instant.
pub open spec fn spec_form_metadata(form: NewConversationView, now: u64)
    -> crate::conversation::MetadataView {
    crate::conversation::MetadataView {
        title: form.title,
        openaiid: form.openaiid,
        model: form.model,
        creationdate: now,
        length: form.contents.dialog.len() as usize,
    }
}

/// The record a submission becomes when it is stored under `id` at `now`.
pub open spec fn spec_new_record(
    form: NewConversationView,
    owner: Seq<char>,
    now: u64,
    id: Seq<char>,
) -> ConversationView {
    ConversationView {
        id: id,
        digest: digest_of(form.contents, spec_form_metadata(form, now), owner),
        contents: form.contents,
        metadata: spec_form_metadata(form, now),
        public: form.public,
        research: form.research,
        deleted: false,
        owner: owner,
    }
}

/// What one create does, `drawn` being the identifier that would be assigned
/// if a new record is stored: a duplicate resolves to the existing record's
/// id; otherwise an unpaid owner at their allowance is refused; otherwise the
/// submission is stored under `drawn` — unless `drawn` is already taken, in
/// which case nothing changes.
pub open spec fn spec_create(
    s: Seq<ConversationView>,
    free_limit: usize,
    owner: Seq<char>,
    form: NewConversationView,
    now: u64,
    drawn: Seq<char>,
) -> (Seq<ConversationView>, Result<Seq<char>, StoreError>) {
    let d = digest_of(form.contents, spec_form_metadata(form, now), owner);
    match spec_find_dup(s, owner, d) {
        Some(existing) => (s, Ok(existing)),
        None => if !form.paiduser && live_count(s, owner) >= free_limit {
            (s, Err(StoreError::QuotaExceeded))
        } else if has_id(s, drawn) {
            (s, Err(StoreError::IdUnavailable))
        } else {
            (s.push(spec_new_record(form, owner, now, drawn)), Ok(drawn))
        },
    }
}

/// What one delete (`deleted == true`) or undelete (`deleted == false`)
/// does. A missing id is `NotFound`; a caller other than the owner is
/// `Forbidden`, whatever the record's state; a record already in the
/// requested state is `NotFound`, since the transition it asks for does not
/// exist.
pub open spec fn spec_set_deleted(
    s: Seq<ConversationView>,
    id: Seq<char>,
    owner: Seq<char>,
    deleted: bool,
) -> (Seq<ConversationView>, Result<(), StoreError>) {
    if !has_id(s, id) {
        (s, Err(StoreError::NotFound))
    } else {
        let i = idx_of_id(s, id);
        let c = s[i];
        if c.owner != owner {
            (s, Err(StoreError::Forbidden))
        } else if c.deleted == deleted {
            (s, Err(StoreError::NotFound))
        } else {
            (
                s.update(
                    i,
                    ConversationView {
                        id: c.id,
                        digest: c.digest,
                        contents: c.contents,
                        metadata: c.metadata,
                        public: c.public,
                        research: c.research,
                        deleted: deleted,
                        owner: c.owner,
                    },
                ),
                Ok(()),
            )
        }
    }
}

/// What one patch does: only the owner may patch, only a live record can be
/// patched, and the patched record carries the new contents and metadata
/// under a freshly computed digest.
pub open spec fn spec_patch(
    s: Seq<ConversationView>,
    owner: Seq<char>,
    patch: PatchConversationView,
) -> (Seq<ConversationView>, Result<(), StoreError>) {
    if !has_id(s, patch.id) {
        (s, Err(StoreError::NotFound))
    } else {
        let i = idx_of_id(s, patch.id);
        let c = s[i];
        if c.owner != owner {
            (s, Err(StoreError::Forbidden))
        } else if c.deleted {
            (s, Err(StoreError::NotFound))
        } else {
            (
                s.update(
                    i,
                    ConversationView {
                        id: c.id,
                        digest: digest_of(patch.contents, patch.metadata, owner),
                        contents: patch.contents,
                        metadata: patch.metadata,
                        public: patch.public,
                        research: patch.research,
                        deleted: false,
                        owner: c.owner,
                    },
                ),
                Ok(()),
            )
        }
    }
}

/// The image of a create result: the assigned id as a character sequence.
pub open spec fn id_res_view(r: Result<String, StoreError>) -> Result<Seq<char>, StoreError> {
    match r {
        Ok(id) => Ok(id@),
        Err(e) => Err(e),
    }
}

/// The conversation store: every record, and the live-record allowance of an
/// unpaid owner.
pub struct ContentStore {
    records: Vec<Conversation>,
    free_limit: usize,
}

/// Mathematical image of a [`ContentStore`].
pub struct StoreView {
    pub records: Seq<ConversationView>,
    pub free_limit: usize,
}

impl View for ContentStore {
    type V = StoreView;

    closed spec fn view(&self) -> StoreView {
        StoreView { records: self.records.deep_view(), free_limit: self.free_limit }
    }
}

impl ContentStore {
    /// Every record carries its own id.
    pub open spec fn inv(&self) -> bool {
        ids_unique(self@.records)
    }

    /// An empty store with the given live-record allowance for unpaid owners.
    pub fn new(free_limit: usize) -> (r: Self)
        ensures
            r@.records == Seq::<ConversationView>::empty(),
            r@.free_limit == free_limit,
            r.inv(),
    {
        let records: Vec<Conversation> = Vec::new();
        proof {
            assert(records.deep_view() =~= Seq::<ConversationView>::empty());
        }
        ContentStore { records, free_limit }
    }

    /// The configured allowance.
    pub fn free_limit(&self) -> (r: usize)
        ensures
            r == self@.free_limit,
    {
        self.free_limit
    }

    /// Whether any record, live or deleted, carries this id.
    pub fn contains_id(&self, id: &String) -> (r: bool)
        ensures
            r == has_id(self@.records, id@),
    {
        let ghost s = self@.records;
        let mut i: usize = 0;
        while i < self.records.len()
            invariant
                i <= self.records.len(),
                s == self@.records,
                forall|j: int| 0 <= j < i ==> s[j].id != id@,
            decreases self.records.len() - i,
        {
            proof {
                assert(self.records@[i as int]@ == s[i as int]);
            }
            if self.records[i].id == *id {
                return true;
            }
            i += 1;
        }
        false
    }

    /// The record with this id whose deletion flag matches what the reader
    /// asked to see, if there is one.
    pub fn find_by_id(&self, id: &String, include_deleted: bool) -> (r: Option<&Conversation>)
        requires
            self.inv(),
        ensures
            match r {
                Some(c) => spec_read(self@.records, id@, include_deleted) == Some(c@),
                None => spec_read(self@.records, id@, include_deleted) is None,
            },
    {
        let ghost s = self@.records;
        let mut i: usize = 0;
        while i < self.records.len()
            invariant
                i <= self.records.len(),
                s == self@.records,
                ids_unique(s),
                forall|j: int| 0 <= j < i ==> s[j].id != id@,
            decreases self.records.len() - i,
        {
            proof {
                assert(self.records@[i as int]@ == s[i as int]);
            }
            if self.records[i].id == *id {
                proof {
                    assert(has_id(s, id@));
                    assert(idx_of_id(s, id@) == i as int) by {
                        let k = idx_of_id(s, id@);
                        assert(0 <= k < s.len() && s[k].id == id@);
                    }
                }
                if self.records[i].deleted == include_deleted {
                    return Some(&self.records[i]);
                } else {
                    return None;
                }
            }
            i += 1;
        }
        proof {
            if has_id(s, id@) {
                let k = idx_of_id(s, id@);
                assert(0 <= k < s.len() && s[k].id == id@);
            }
        }
        None
    }

    /// Read one conversation, as the read endpoint answers: the record's
    /// fields, without its owner.
    pub fn read(&self, id: &String, include_deleted: bool) -> (r: Option<ConversationInfo>)
        requires
            self.inv(),
        ensures
            ({
                let f = spec_read(self@.records, id@, include_deleted);
                match r {
                    Some(info) => f is Some && info@ == info_of_record(f.unwrap()),
                    None => f is None,
                }
            }),
    {
        match self.find_by_id(id, include_deleted) {
            Some(c) => Some(
                ConversationInfo {
                    id: c.id.clone(),
                    contents: c.contents.clone(),
                    metadata: c.metadata.clone(),
                    public: c.public,
                    research: c.research,
                    deleted: c.deleted,
                    digest: c.digest,
                },
            ),
            None => None,
        }
    }

    /// How many live records this owner holds: what the quota is checked
    /// against.
    pub fn conversation_count(&self, owner: &String) -> (r: usize)
        ensures
            r == live_count(self@.records, owner@),
    {
        let ghost s = self@.records;
        let mut count: usize = 0;
        let mut i: usize = 0;
        while i < self.records.len()
            invariant
                i <= self.records.len(),
                s == self@.records,
                count == live_count(s.take(i as int), owner@),
                count <= i,
            decreases self.records.len() - i,
        {
            proof {
                assert(s.take(i as int + 1).drop_last() =~= s.take(i as int));
                assert(s.take(i as int + 1).last() == s[i as int]);
                assert(self.records@[i as int]@ == s[i as int]);
            }
            if self.records[i].owner == *owner && !self.records[i].deleted {
                count += 1;
            }
            i += 1;
        }
        proof {
            assert(s.take(s.len() as int) =~= s);
        }
        count
    }

    /// The id of the first live record of this owner with this digest: the
    /// record a duplicate submission would resolve to.
    pub fn conversation_exists(&self, owner: &String, digest: u64) -> (r: Option<String>)
        ensures
            match r {
                Some(id) => spec_find_dup(self@.records, owner@, digest) == Some(id@),
                None => spec_find_dup(self@.records, owner@, digest) is None,
            },
    {
        let ghost s = self@.records;
        let mut i: usize = 0;
        proof {
            assert(s.skip(0) =~= s);
        }
        while i < self.records.len()
            invariant
                i <= self.records.len(),
                s == self@.records,
                spec_find_dup(s, owner@, digest) == spec_find_dup(s.skip(i as int), owner@, digest),
            decreases self.records.len() - i,
        {
            proof {
                assert(s.skip(i as int).drop_first() =~= s.skip(i as int + 1));
                assert(s.skip(i as int).first() == s[i as int]);
                assert(self.records@[i as int]@ == s[i as int]);
            }
            if self.records[i].owner == *owner && self.records[i].digest == digest
                && !self.records[i].deleted {
                return Some(self.records[i].id.clone());
            }
            i += 1;
        }
        proof {
            assert(s.skip(s.len() as int) =~= Seq::<ConversationView>::empty());
        }
        None
    }

    /// Every record of this owner, live or deleted, in store order, as the
    /// listing endpoint answers.
    pub fn find_conversations_by_user(&self, owner: &String) -> (r: Vec<ShortConversationInfo>)
        ensures
            r.deep_view() == spec_user_infos(self@.records, owner@),
    {
        let ghost s = self@.records;
        let mut out: Vec<ShortConversationInfo> = Vec::new();
        let mut i: usize = 0;
        proof {
            assert(out.deep_view() =~= spec_user_infos(s.take(0), owner@));
        }
        while i < self.records.len()
            invariant
                i <= self.records.len(),
                s == self@.records,
                out.deep_view() == spec_user_infos(s.take(i as int), owner@),
            decreases self.records.len() - i,
        {
            proof {
                assert(s.take(i as int + 1).drop_last() =~= s.take(i as int));
                assert(s.take(i as int + 1).last() == s[i as int]);
                assert(self.records@[i as int]@ == s[i as int]);
            }
            if self.records[i].owner == *owner {
                let c = &self.records[i];
                let ghost before = out.deep_view();
                out.push(
                    ShortConversationInfo {
                        id: c.id.clone(),
                        metadata: c.metadata.clone(),
                        public: c.public,
                        research: c.research,
                        deleted: c.deleted,
                        digest: c.digest,
                    },
                );
                proof {
                    assert(out.deep_view() =~= before + seq![short_info_of_record(s[i as int])]);
                }
            }
            i += 1;
        }
        proof {
            assert(s.take(s.len() as int) =~= s);
        }
        out
    }

    /// Store a submission under a caller-chosen identifier. This is `create`
    /// with the one random ingredient — the drawn identifier — made an
    /// argument, so its whole behaviour is fixed by its inputs.
    pub fn create_with_id(
        &mut self,
        owner: String,
        form: NewConversation,
        now: u64,
        id: String,
    ) -> (r: Result<String, StoreError>)
        requires
            old(self).inv(),
        ensures
            final(self).inv(),
            final(self)@.free_limit == old(self)@.free_limit,
            ({
                let (s2, res) = spec_create(
                    old(self)@.records,
                    old(self)@.free_limit,
                    owner@,
                    form@,
                    now,
                    id@,
                );
                final(self)@.records == s2 && id_res_view(r) == res
            }),
    {
        let ghost s = self@.records;
        let metadata = ConversationMetadata {
            title: form.title.clone(),
            openaiid: form.openaiid.clone(),
            model: form.model.clone(),
            creationdate: now,
            length: form.contents.dialog.len(),
        };
        proof {
            assert(metadata@ == spec_form_metadata(form@, now));
        }
        let d = compute_digest(&form.contents, &metadata, &owner);
        if let Some(existing) = self.conversation_exists(&owner, d) {
            return Ok(existing);
        }
        let count = self.conversation_count(&owner);
        if !form.paiduser && count >= self.free_limit {
            return Err(StoreError::QuotaExceeded);
        }
        if self.contains_id(&id) {
            return Err(StoreError::IdUnavailable);
        }
        let record = Conversation {
            id: id.clone(),
            digest: d,
            contents: form.contents,
            metadata,
            public: form.public,
            research: form.research,
            deleted: false,
            owner,
        };
        let ghost rec = record@;
        self.records.push(record);
        proof {
            assert forall|j: int| 0 <= j < self.records@.len() implies self.records.deep_view()[j]
                == s.push(rec)[j] by {
                if j < s.len() {
                    assert(self.records@[j] == old(self).records@[j]);
                }
            }
            assert(self.records.deep_view() =~= s.push(rec));
            assert(rec == spec_new_record(form@, owner@, now, id@));
            assert forall|a: int, b: int|
                0 <= a < b < self@.records.len() implies self@.records[a].id
                != self@.records[b].id by {
                if b == s.len() {
                    assert(!(0 <= a < s.len() && s[a].id == id@));
                }
            }
        }
        Ok(id)
    }

    /// Store a submission: compute its digest, resolve a duplicate to the
    /// existing record, enforce the unpaid allowance, and otherwise persist
    /// it under a freshly drawn identifier, stamped with `now`.
    pub fn create(&mut self, owner: String, form: NewConversation, now: u64) -> (r: Result<
        String,
        StoreError,
    >)
        requires
            old(self).inv(),
        ensures
            final(self).inv(),
            final(self)@.free_limit == old(self)@.free_limit,
            ({
                let s = old(self)@.records;
                let lim = old(self)@.free_limit;
                let d = digest_of(form@.contents, spec_form_metadata(form@, now), owner@);
                match spec_find_dup(s, owner@, d) {
                    Some(existing) => final(self)@.records == s && id_res_view(r) == Ok::<
                        Seq<char>,
                        StoreError,
                    >(existing),
                    None => if !form@.paiduser && live_count(s, owner@) >= lim {
                        final(self)@.records == s && r == Err::<String, StoreError>(
                            StoreError::QuotaExceeded,
                        )
                    } else {
                        match r {
                            Ok(id) => !has_id(s, id@) && final(self)@.records == s.push(
                                spec_new_record(form@, owner@, now, id@),
                            ),
                            Err(e) => e == StoreError::IdUnavailable && final(self)@.records == s,
                        }
                    },
                }
            }),
    {
        let id = fresh_uuid();
        self.create_with_id(owner, form, now, id)
    }

    /// Flip a record's soft-delete flag: `true` deletes a live record,
    /// `false` restores a deleted one. Only the owner may do either, and a
    /// record already in the requested state answers `NotFound`, as the
    /// asked-for transition does not exist.
    pub fn set_deleted(&mut self, id: &String, owner: &String, deleted: bool) -> (r: Result<
        (),
        StoreError,
    >)
        requires
            old(self).inv(),
        ensures
            final(self).inv(),
            final(self)@.free_limit == old(self)@.free_limit,
            (final(self)@.records, r) == spec_set_deleted(old(self)@.records, id@, owner@, deleted),
    {
        let ghost s = self@.records;
        let mut i: usize = 0;
        while i < self.records.len()
            invariant
                i <= self.records.len(),
                s == self@.records,
                self@ == old(self)@,
                ids_unique(s),
                forall|j: int| 0 <= j < i ==> s[j].id != id@,
            decreases self.records.len() - i,
        {
            proof {
                assert(self.records@[i as int]@ == s[i as int]);
            }
            if self.records[i].id == *id {
                proof {
                    assert(has_id(s, id@));
                    assert(idx_of_id(s, id@) == i as int) by {
                        let k = idx_of_id(s, id@);
                        assert(0 <= k < s.len() && s[k].id == id@);
                    }
                }
                if self.records[i].owner != *owner {
                    return Err(StoreError::Forbidden);
                }
                if self.records[i].deleted == deleted {
                    return Err(StoreError::NotFound);
                }
                let c = self.records[i].clone();
                let updated = Conversation {
                    id: c.id,
                    digest: c.digest,
                    contents: c.contents,
                    metadata: c.metadata,
                    public: c.public,
                    research: c.research,
                    deleted,
                    owner: c.owner,
                };
                let ghost up = updated@;
                let ghost pre = self.records@;
                self.records.set(i, updated);
                proof {
                    assert forall|j: int|
                        0 <= j < self.records@.len() implies self.records.deep_view()[j]
                        == s.update(i as int, up)[j] by {
                        if j != i as int {
                            assert(self.records@[j] == pre[j]);
                        }
                    }
                    assert(self.records.deep_view() =~= s.update(i as int, up));
                }
                return Ok(());
            }
            i += 1;
        }
        proof {
            if has_id(s, id@) {
                let k = idx_of_id(s, id@);
                assert(0 <= k < s.len() && s[k].id == id@);
            }
        }
        Err(StoreError::NotFound)
    }

    /// Replace a live record's contents, metadata and flags, recomputing its
    /// digest. Only the owner may patch, whatever the record's state, and a
    /// deleted record answers `NotFound`.
    pub fn patch(&mut self, owner: &String, form: PatchConversation) -> (r: Result<
        (),
        StoreError,
    >)
        requires
            old(self).inv(),
        ensures
            final(self).inv(),
            final(self)@.free_limit == old(self)@.free_limit,
            (final(self)@.records, r) == spec_patch(old(self)@.records, owner@, form@),
    {
        let ghost s = self@.records;
        let mut i: usize = 0;
        while i < self.records.len()
            invariant
                i <= self.records.len(),
                s == self@.records,
                self@ == old(self)@,
                ids_unique(s),
                forall|j: int| 0 <= j < i ==> s[j].id != form.id@,
            decreases self.records.len() - i,
        {
            proof {
                assert(self.records@[i as int]@ == s[i as int]);
            }
            if self.records[i].id == form.id {
                proof {
                    assert(has_id(s, form@.id));
                    assert(idx_of_id(s, form@.id) == i as int) by {
                        let k = idx_of_id(s, form@.id);
                        assert(0 <= k < s.len() && s[k].id == form@.id);
                    }
                }
                if self.records[i].owner != *owner {
                    return Err(StoreError::Forbidden);
                }
                if self.records[i].deleted {
                    return Err(StoreError::NotFound);
                }
                let d = compute_digest(&form.contents, &form.metadata, owner);
                let c = self.records[i].clone();
                let updated = Conversation {
                    id: c.id,
                    digest: d,
                    contents: form.contents,
                    metadata: form.metadata,
                    public: form.public,
                    research: form.research,
                    deleted: false,
                    owner: c.owner,
                };
                let ghost up = updated@;
                let ghost pre = self.records@;
                self.records.set(i, updated);
                proof {
                    assert forall|j: int|
                        0 <= j < self.records@.len() implies self.records.deep_view()[j]
                        == s.update(i as int, up)[j] by {
                        if j != i as int {
                            assert(self.records@[j] == pre[j]);
                        }
                    }
                    assert(self.records.deep_view() =~= s.update(i as int, up));
                }
                return Ok(());
            }
            i += 1;
        }
        proof {
            if has_id(s, form@.id) {
                let k = idx_of_id(s, form@.id);
                assert(0 <= k < s.len() && s[k].id == form@.id);
            }
        }
        Err(StoreError::NotFound)
    }
}

/// Relies on `uuid::Uuid::new_v4`: a fresh random identifier, rendered in the
/// simple format of 32 hexadecimal digits. Randomness promises nothing about
/// distinctness, so callers test the drawn id against the store.
#[verifier::external_body]
fn fresh_uuid() -> (r: String)
    ensures
        r@.len() == 32,
{
    uuid::Uuid::new_v4().simple().to_string()
}

} // verus!
