//! The conversation data model: dialogs, their metadata, and the records
//! the content store keeps for them.

use vstd::prelude::*;

verus! {

/// One utterance of a dialog: who spoke ("human" or "gpt") and what was said.
pub struct Utterance {
    pub who: String,
    pub what: String,
}

/// Mathematical image of an [`Utterance`].
pub struct UtteranceView {
    pub who: Seq<char>,
    pub what: Seq<char>,
}

impl View for Utterance {
    type V = UtteranceView;

    open spec fn view(&self) -> UtteranceView {
        UtteranceView { who: self.who@, what: self.what@ }
    }
}

impl DeepView for Utterance {
    type V = UtteranceView;

    open spec fn deep_view(&self) -> UtteranceView {
        self.view()
    }
}

impl Clone for Utterance {
    fn clone(&self) -> (r: Self)
        ensures
            r@ == self@,
    {
        Utterance { who: self.who.clone(), what: self.what.clone() }
    }
}

/// What a client shares: an avatar and the transcript itself.
pub struct ConversationContents {
    pub avatar: String,
    pub dialog: Vec<Utterance>,
}

/// Mathematical image of [`ConversationContents`].
pub struct ContentsView {
    pub avatar: Seq<char>,
    pub dialog: Seq<UtteranceView>,
}

impl View for ConversationContents {
    type V = ContentsView;

    open spec fn view(&self) -> ContentsView {
        ContentsView { avatar: self.avatar@, dialog: self.dialog.deep_view() }
    }
}

impl DeepView for ConversationContents {
    type V = ContentsView;

    open spec fn deep_view(&self) -> ContentsView {
        self.view()
    }
}

impl Clone for ConversationContents {
    fn clone(&self) -> (r: Self)
        ensures
            r@ == self@,
    {
        let mut dialog: Vec<Utterance> = Vec::new();
        let mut i: usize = 0;
        while i < self.dialog.len()
            invariant
                i <= self.dialog.len(),
                dialog@.len() == i,
                forall|j: int| 0 <= j < i ==> #[trigger] dialog@[j]@ == self.dialog@[j]@,
            decreases self.dialog.len() - i,
        {
            dialog.push(self.dialog[i].clone());
            i += 1;
        }
        proof {
            assert(dialog.deep_view() =~= self.dialog.deep_view());
        }
        ConversationContents { avatar: self.avatar.clone(), dialog }
    }
}

/// Descriptive fields of a conversation. `creationdate` is an epoch-seconds
/// timestamp stamped by the store; all other fields come from the client.
pub struct ConversationMetadata {
    pub title: String,
    pub openaiid: String,
    pub model: String,
    pub creationdate: u64,
    pub length: usize,
}

/// Mathematical image of [`ConversationMetadata`].
pub struct MetadataView {
    pub title: Seq<char>,
    pub openaiid: Seq<char>,
    pub model: Seq<char>,
    pub creationdate: u64,
    pub length: usize,
}

impl View for ConversationMetadata {
    type V = MetadataView;

    open spec fn view(&self) -> MetadataView {
        MetadataView {
            title: self.title@,
            openaiid: self.openaiid@,
            model: self.model@,
            creationdate: self.creationdate,
            length: self.length,
        }
    }
}

impl DeepView for ConversationMetadata {
    type V = MetadataView;

    open spec fn deep_view(&self) -> MetadataView {
        self.view()
    }
}

impl Clone for ConversationMetadata {
    fn clone(&self) -> (r: Self)
        ensures
            r@ == self@,
    {
        ConversationMetadata {
            title: self.title.clone(),
            openaiid: self.openaiid.clone(),
            model: self.model.clone(),
            creationdate: self.creationdate,
            length: self.length,
        }
    }
}

/// A stored conversation record, as the content store keeps it.
pub struct Conversation {
    pub id: String,
    pub digest: u64,
    pub contents: ConversationContents,
    pub metadata: ConversationMetadata,
    pub public: bool,
    pub research: bool,
    pub deleted: bool,
    pub owner: String,
}

/// Mathematical image of a [`Conversation`] record.
pub struct ConversationView {
    pub id: Seq<char>,
    pub digest: u64,
    pub contents: ContentsView,
    pub metadata: MetadataView,
    pub public: bool,
    pub research: bool,
    pub deleted: bool,
    pub owner: Seq<char>,
}

impl View for Conversation {
    type V = ConversationView;

    open spec fn view(&self) -> ConversationView {
        ConversationView {
            id: self.id@,
            digest: self.digest,
            contents: self.contents@,
            metadata: self.metadata@,
            public: self.public,
            research: self.research,
            deleted: self.deleted,
            owner: self.owner@,
        }
    }
}

impl DeepView for Conversation {
    type V = ConversationView;

    open spec fn deep_view(&self) -> ConversationView {
        self.view()
    }
}

impl Clone for Conversation {
    fn clone(&self) -> (r: Self)
        ensures
            r@ == self@,
    {
        Conversation {
            id: self.id.clone(),
            digest: self.digest,
            contents: self.contents.clone(),
            metadata: self.metadata.clone(),
            public: self.public,
            research: self.research,
            deleted: self.deleted,
            owner: self.owner.clone(),
        }
    }
}

/// What a client submits to create a conversation.
pub struct NewConversation {
    pub openaiid: String,
    pub title: String,
    pub contents: ConversationContents,
    pub model: String,
    pub public: bool,
    pub research: bool,
    pub paiduser: bool,
}

/// Mathematical image of a [`NewConversation`] request.
pub struct NewConversationView {
    pub openaiid: Seq<char>,
    pub title: Seq<char>,
    pub contents: ContentsView,
    pub model: Seq<char>,
    pub public: bool,
    pub research: bool,
    pub paiduser: bool,
}

impl View for NewConversation {
    type V = NewConversationView;

    open spec fn view(&self) -> NewConversationView {
        NewConversationView {
            openaiid: self.openaiid@,
            title: self.title@,
            contents: self.contents@,
            model: self.model@,
            public: self.public,
            research: self.research,
            paiduser: self.paiduser,
        }
    }
}

/// What a client submits to patch an existing conversation.
pub struct PatchConversation {
    pub id: String,
    pub contents: ConversationContents,
    pub metadata: ConversationMetadata,
    pub public: bool,
    pub research: bool,
}

/// Mathematical image of a [`PatchConversation`] request.
pub struct PatchConversationView {
    pub id: Seq<char>,
    pub contents: ContentsView,
    pub metadata: MetadataView,
    pub public: bool,
    pub research: bool,
}

impl View for PatchConversation {
    type V = PatchConversationView;

    open spec fn view(&self) -> PatchConversationView {
        PatchConversationView {
            id: self.id@,
            contents: self.contents@,
            metadata: self.metadata@,
            public: self.public,
            research: self.research,
        }
    }
}

/// What a read of one conversation returns.
pub struct ConversationInfo {
    pub id: String,
    pub contents: ConversationContents,
    pub metadata: ConversationMetadata,
    pub public: bool,
    pub research: bool,
    pub deleted: bool,
    pub digest: u64,
}

/// Mathematical image of a [`ConversationInfo`].
pub struct ConversationInfoView {
    pub id: Seq<char>,
    pub contents: ContentsView,
    pub metadata: MetadataView,
    pub public: bool,
    pub research: bool,
    pub deleted: bool,
    pub digest: u64,
}

impl View for ConversationInfo {
    type V = ConversationInfoView;

    open spec fn view(&self) -> ConversationInfoView {
        ConversationInfoView {
            id: self.id@,
            contents: self.contents@,
            metadata: self.metadata@,
            public: self.public,
            research: self.research,
            deleted: self.deleted,
            digest: self.digest,
        }
    }
}

impl DeepView for ConversationInfo {
    type V = ConversationInfoView;

    open spec fn deep_view(&self) -> ConversationInfoView {
        self.view()
    }
}

/// What a listing of a user's conversations returns for each record.
pub struct ShortConversationInfo {
    pub id: String,
    pub metadata: ConversationMetadata,
    pub public: bool,
    pub research: bool,
    pub deleted: bool,
    pub digest: u64,
}

/// Mathematical image of a [`ShortConversationInfo`].
pub struct ShortConversationInfoView {
    pub id: Seq<char>,
    pub metadata: MetadataView,
    pub public: bool,
    pub research: bool,
    pub deleted: bool,
    pub digest: u64,
}

impl View for ShortConversationInfo {
    type V = ShortConversationInfoView;

    open spec fn view(&self) -> ShortConversationInfoView {
        ShortConversationInfoView {
            id: self.id@,
            metadata: self.metadata@,
            public: self.public,
            research: self.research,
            deleted: self.deleted,
            digest: self.digest,
        }
    }
}

impl DeepView for ShortConversationInfo {
    type V = ShortConversationInfoView;

    open spec fn deep_view(&self) -> ShortConversationInfoView {
        self.view()
    }
}

/// The image a stored record presents when it is read back in full.
pub open spec fn info_of_record(c: ConversationView) -> ConversationInfoView {
    ConversationInfoView {
        id: c.id,
        contents: c.contents,
        metadata: c.metadata,
        public: c.public,
        research: c.research,
        deleted: c.deleted,
        digest: c.digest,
    }
}

/// The image a stored record presents in a listing.
pub open spec fn short_info_of_record(c: ConversationView) -> ShortConversationInfoView {
    ShortConversationInfoView {
        id: c.id,
        metadata: c.metadata,
        public: c.public,
        research: c.research,
        deleted: c.deleted,
        digest: c.digest,
    }
}

} // verus!
