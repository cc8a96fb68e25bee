//! Content-addressing digest for conversations.
//!
//! The digest is a deterministic function of a conversation's contents, its
//! metadata apart from the creation timestamp, and its owner. Two submissions
//! by the same owner with the same contents and metadata therefore collide to
//! the same digest, which is what makes `create` idempotent. The hash is a
//! 64-bit FNV-1a over a length-prefixed encoding of the fields; it addresses
//! content, it is not a cryptographic commitment.

use vstd::prelude::*;
use vstd::utf8::encode_utf8;

use crate::conversation::{
    ContentsView, ConversationContents, ConversationMetadata, MetadataView, Utterance,
    UtteranceView,
};

verus! {

/// 64-bit FNV-1a offset basis.
pub const FNV_OFFSET: u64 = 0xcbf2_9ce4_8422_2325;

/// 64-bit FNV-1a prime.
pub const FNV_PRIME: u64 = 0x0000_0100_0000_01b3;

/// One FNV-1a step: fold one byte into the running state.
pub open spec fn fnv_byte(h: u64, b: u8) -> u64 {
    (h ^ (b as u64)).wrapping_mul(FNV_PRIME)
}

/// Fold a whole byte sequence into the running state.
pub open spec fn fnv_bytes(h: u64, bs: Seq<u8>) -> u64
    decreases bs.len(),
{
    if bs.len() == 0 {
        h
    } else {
        fnv_byte(fnv_bytes(h, bs.drop_last()), bs.last())
    }
}

/// The eight little-endian bytes of a 64-bit word.
pub open spec fn le_bytes_of_word(x: u64) -> Seq<u8> {
    seq![
        (x & 0xff) as u8,
        ((x >> 8) & 0xff) as u8,
        ((x >> 16) & 0xff) as u8,
        ((x >> 24) & 0xff) as u8,
        ((x >> 32) & 0xff) as u8,
        ((x >> 40) & 0xff) as u8,
        ((x >> 48) & 0xff) as u8,
        ((x >> 56) & 0xff) as u8,
    ]
}

/// Fold a 64-bit word into the running state, little-endian.
pub open spec fn fnv_word(h: u64, x: u64) -> u64 {
    fnv_bytes(h, le_bytes_of_word(x))
}

/// Fold a string into the running state: its UTF-8 byte length first, then
/// its UTF-8 bytes. The length prefix keeps adjacent fields apart.
pub open spec fn fnv_str(h: u64, s: Seq<char>) -> u64 {
    fnv_bytes(fnv_word(h, encode_utf8(s).len() as u64), encode_utf8(s))
}

/// Fold one utterance into the running state.
pub open spec fn fnv_utterance(h: u64, u: UtteranceView) -> u64 {
    fnv_str(fnv_str(h, u.who), u.what)
}

/// Fold a whole dialog into the running state.
pub open spec fn fnv_dialog(h: u64, d: Seq<UtteranceView>) -> u64
    decreases d.len(),
{
    if d.len() == 0 {
        h
    } else {
        fnv_utterance(fnv_dialog(h, d.drop_last()), d.last())
    }
}

/// The content digest of a conversation: a function of its contents, its
/// metadata apart from `creationdate`, and its owner — and of nothing else.
pub open spec fn digest_of(c: ContentsView, m: MetadataView, owner: Seq<char>) -> u64 {
    fnv_str(
        fnv_word(
            fnv_str(
                fnv_str(
                    fnv_str(
                        fnv_dialog(
                            fnv_word(fnv_str(FNV_OFFSET, c.avatar), c.dialog.len() as u64),
                            c.dialog,
                        ),
                        m.title,
                    ),
                    m.openaiid,
                ),
                m.model,
            ),
            m.length as u64,
        ),
        owner,
    )
}

/// The digest never reads the creation timestamp: stamping a different time
/// on otherwise identical metadata leaves the digest unchanged.
pub proof fn lemma_digest_ignores_creationdate(
    c: ContentsView,
    m1: MetadataView,
    m2: MetadataView,
    owner: Seq<char>,
)
    requires
        m1.title == m2.title,
        m1.openaiid == m2.openaiid,
        m1.model == m2.model,
        m1.length == m2.length,
    ensures
        digest_of(c, m1, owner) == digest_of(c, m2, owner),
{
}

fn fnv_slice(h0: u64, bs: &[u8]) -> (r: u64)
    ensures
        r == fnv_bytes(h0, bs@),
{
    let mut h = h0;
    let mut i: usize = 0;
    while i < bs.len()
        invariant
            i <= bs@.len(),
            h == fnv_bytes(h0, bs@.take(i as int)),
        decreases bs@.len() - i,
    {
        proof {
            assert(bs@.take(i as int + 1).drop_last() =~= bs@.take(i as int));
            assert(bs@.take(i as int + 1).last() == bs@[i as int]);
        }
        h = (h ^ (bs[i] as u64)).wrapping_mul(FNV_PRIME);
        i += 1;
    }
    proof {
        assert(bs@.take(bs@.len() as int) =~= bs@);
    }
    h
}

fn fnv_word_exec(h0: u64, x: u64) -> (r: u64)
    ensures
        r == fnv_word(h0, x),
{
    let mut h = h0;
    h = (h ^ (x & 0xff)).wrapping_mul(FNV_PRIME);
    h = (h ^ ((x >> 8) & 0xff)).wrapping_mul(FNV_PRIME);
    h = (h ^ ((x >> 16) & 0xff)).wrapping_mul(FNV_PRIME);
    h = (h ^ ((x >> 24) & 0xff)).wrapping_mul(FNV_PRIME);
    h = (h ^ ((x >> 32) & 0xff)).wrapping_mul(FNV_PRIME);
    h = (h ^ ((x >> 40) & 0xff)).wrapping_mul(FNV_PRIME);
    h = (h ^ ((x >> 48) & 0xff)).wrapping_mul(FNV_PRIME);
    h = (h ^ ((x >> 56) & 0xff)).wrapping_mul(FNV_PRIME);
    proof {
        assert(forall|y: u64| (y & 0xff) < 256) by (bit_vector);
        assert forall|hh: u64, y: u64| y & 0xff < 256 implies (hh ^ ((y & 0xff) as u8) as u64)
            == (hh ^ (y & 0xff)) by {
            assert(((y & 0xff) as u8) as u64 == y & 0xff) by (bit_vector);
        }
        reveal_with_fuel(fnv_bytes, 9);
    }
    h
}

fn fnv_string(h0: u64, s: &str) -> (r: u64)
    ensures
        r == fnv_str(h0, s@),
{
    let bs = s.as_bytes();
    let h = fnv_word_exec(h0, bs.len() as u64);
    fnv_slice(h, bs)
}

fn fnv_utterance_exec(h0: u64, u: &Utterance) -> (r: u64)
    ensures
        r == fnv_utterance(h0, u@),
{
    let h = fnv_string(h0, u.who.as_str());
    fnv_string(h, u.what.as_str())
}

/// Compute the content digest of a conversation submission.
pub fn compute_digest(
    contents: &ConversationContents,
    metadata: &ConversationMetadata,
    owner: &String,
) -> (r: u64)
    ensures
        r == digest_of(contents@, metadata@, owner@),
{
    let mut h = fnv_string(FNV_OFFSET, contents.avatar.as_str());
    h = fnv_word_exec(h, contents.dialog.len() as u64);
    let ghost dialog = contents.dialog.deep_view();
    let mut i: usize = 0;
    while i < contents.dialog.len()
        invariant
            i <= contents.dialog.len(),
            dialog == contents.dialog.deep_view(),
            h == fnv_dialog(
                fnv_word(fnv_str(FNV_OFFSET, contents@.avatar), dialog.len() as u64),
                dialog.take(i as int),
            ),
        decreases contents.dialog.len() - i,
    {
        proof {
            assert(dialog.take(i as int + 1).drop_last() =~= dialog.take(i as int));
            assert(dialog.take(i as int + 1).last() == dialog[i as int]);
            assert(contents.dialog@[i as int]@ == dialog[i as int]);
        }
        h = fnv_utterance_exec(h, &contents.dialog[i]);
        i += 1;
    }
    proof {
        assert(dialog.take(dialog.len() as int) =~= dialog);
    }
    h = fnv_string(h, metadata.title.as_str());
    h = fnv_string(h, metadata.openaiid.as_str());
    h = fnv_string(h, metadata.model.as_str());
    h = fnv_word_exec(h, metadata.length as u64);
    fnv_string(h, owner.as_str())
}

} // verus!
