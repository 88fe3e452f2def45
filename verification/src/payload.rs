//! Text packed into one buffer that a shader addresses in 32-bit words.
//!
//! Each text is followed by as many zero bytes as bring the buffer to a word
//! boundary, so every text begins at a whole word.

use vstd::prelude::*;
use crate::bytes::{append, append_zeros, zeros};

verus! {

/// Size in bytes of the word in which the shader addresses the payload.
pub const WORD: u32 = 4;

/// Where one text lies in the payload.
#[derive(Clone, Copy, PartialEq, Eq, Debug, Structural)]
pub struct PayloadEntry {
    /// The word at which the text begins: its byte offset over [`WORD`].
    pub offset: u32,
    /// The length of the text in bytes, one byte a glyph.
    pub length: u32,
}

/// Why the payload was not packed.
#[derive(Clone, Copy, PartialEq, Eq, Debug, Structural)]
pub enum PayloadError {
    /// The packed texts take more bytes than the buffer holds.
    CapacityExceeded,
}

/// The packed texts and where each of them lies.
#[derive(Clone, PartialEq, Eq, Debug)]
pub struct PackedText {
    /// The payload: every text in order, each padded to a word boundary.
    pub data: Vec<u8>,
    /// One entry for each text, in order.
    pub entries: Vec<PayloadEntry>,
}

/// The number of zero bytes that follow a text of `len` bytes.
pub open spec fn padding(len: nat) -> nat {
    ((4 - len % 4) % 4) as nat
}

/// A text with its padding.
pub open spec fn padded(text: Seq<u8>) -> Seq<u8> {
    text + zeros(padding(text.len()))
}

/// The payload of the given texts: each text with its padding, in order.
pub open spec fn packed(texts: Seq<Seq<u8>>) -> Seq<u8>
    decreases texts.len(),
{
    if texts.len() == 0 {
        Seq::empty()
    } else {
        packed(texts.drop_last()) + padded(texts.last())
    }
}

/// The byte at which text `i` begins in the payload of `texts`.
pub open spec fn start_of(texts: Seq<Seq<u8>>, i: int) -> int {
    packed(texts.take(i)).len() as int
}

/// Where text `i` lies in the payload of `texts`.
pub open spec fn entry_of(texts: Seq<Seq<u8>>, i: int) -> PayloadEntry {
    PayloadEntry { offset: (start_of(texts, i) / 4) as u32, length: texts[i].len() as u32 }
}

/// The bytes that an entry addresses in a payload.
pub open spec fn addressed(data: Seq<u8>, entry: PayloadEntry) -> Seq<u8> {
    data.subrange(4 * entry.offset, 4 * entry.offset + entry.length)
}

/// The bytes of each text of a list.
pub open spec fn text_views(texts: Seq<Vec<u8>>) -> Seq<Seq<u8>> {
    Seq::new(texts.len(), |i: int| texts[i]@)
}

/// A padded text ends on a word boundary, and takes fewer than a word more
/// than the text.
pub proof fn lemma_padded_len(text: Seq<u8>)
    ensures
        padded(text).len() == text.len() + padding(text.len()),
        padded(text).len() % 4 == 0,
        padding(text.len()) < 4,
{
}

/// The payload of the first `i + 1` texts is that of the first `i` texts
/// followed by text `i` with its padding.
pub proof fn lemma_packed_step(texts: Seq<Seq<u8>>, i: int)
    requires
        0 <= i < texts.len(),
    ensures
        packed(texts.take(i + 1)) == packed(texts.take(i)) + padded(texts[i]),
{
    assert(texts.take(i + 1).drop_last() =~= texts.take(i));
}

/// Every text begins on a word boundary, and so the payload ends on one.
pub proof fn lemma_start_aligned(texts: Seq<Seq<u8>>, i: int)
    requires
        0 <= i <= texts.len(),
    ensures
        start_of(texts, i) % 4 == 0,
    decreases i,
{
    if i > 0 {
        lemma_start_aligned(texts, i - 1);
        lemma_packed_step(texts, i - 1);
        lemma_padded_len(texts[i - 1]);
    } else {
    }
}

/// A later text begins where an earlier one, with its padding, has ended,
/// or behind that: no two texts share a byte.
pub proof fn lemma_starts_ordered(texts: Seq<Seq<u8>>, i: int, j: int)
    requires
        0 <= i < j <= texts.len(),
    ensures
        start_of(texts, i) + padded(texts[i]).len() <= start_of(texts, j),
    decreases j - i,
{
    if j == i + 1 {
        lemma_packed_step(texts, i);
    } else {
        lemma_starts_ordered(texts, i, j - 1);
        lemma_packed_step(texts, j - 1);
    }
}

/// The payload of the first `i` texts is the beginning of the whole
/// payload.
pub proof fn lemma_packed_prefix(texts: Seq<Seq<u8>>, i: int)
    requires
        0 <= i <= texts.len(),
    ensures
        start_of(texts, i) <= packed(texts).len(),
        packed(texts).subrange(0, start_of(texts, i)) == packed(texts.take(i)),
    decreases texts.len() - i,
{
    if i == texts.len() {
        assert(texts.take(i) =~= texts);
    } else {
        lemma_packed_prefix(texts, i + 1);
        lemma_packed_step(texts, i);
    }
}

/// Reading the payload at the place of text `i`, for the length of text
/// `i`, gives text `i` back; the bytes between its end and the next word
/// boundary are zero.
pub proof fn lemma_read_back(texts: Seq<Seq<u8>>, i: int)
    requires
        0 <= i < texts.len(),
    ensures
        start_of(texts, i) + padded(texts[i]).len() <= packed(texts).len(),
        packed(texts).subrange(
            start_of(texts, i),
            start_of(texts, i) + texts[i].len(),
        ) == texts[i],
        packed(texts).subrange(
            start_of(texts, i) + texts[i].len(),
            start_of(texts, i) + padded(texts[i]).len(),
        ) == zeros(padding(texts[i].len())),
{
    lemma_packed_prefix(texts, i + 1);
    lemma_packed_step(texts, i);
    let upto = packed(texts.take(i + 1));
    let begin = start_of(texts, i);
    assert(upto.subrange(begin, begin + texts[i].len()) =~= texts[i]);
    assert(upto.subrange(begin + texts[i].len(), begin + padded(texts[i]).len()) =~= zeros(
        padding(texts[i].len()),
    ));
}

/// In a payload that 32 bits address, every text begins at the word that
/// its entry records, and the bytes of an earlier text end before those of
/// a later text begin.
pub proof fn lemma_entries_disjoint(texts: Seq<Seq<u8>>, i: int, j: int)
    requires
        packed(texts).len() <= u32::MAX,
        0 <= i < j < texts.len(),
    ensures
        4 * entry_of(texts, i).offset == start_of(texts, i),
        4 * entry_of(texts, j).offset == start_of(texts, j),
        entry_of(texts, i).length == texts[i].len(),
        4 * entry_of(texts, i).offset + entry_of(texts, i).length <= 4 * entry_of(
            texts,
            j,
        ).offset,
{
    lemma_start_aligned(texts, i);
    lemma_start_aligned(texts, j);
    lemma_starts_ordered(texts, i, j);
    lemma_packed_prefix(texts, j);
    lemma_read_back(texts, i);
}

/// The number of zero bytes that follow a text of `len` bytes.
pub fn padding_for(len: usize) -> (pad: usize)
    ensures
        pad == padding(len as nat),
{
    (4 - len % 4) % 4
}

/// Packs the texts, in order, into one payload of at most `capacity` bytes:
/// each text is appended, then zero bytes up to the next word boundary, and
/// the word at which it began is recorded. Packing fails when the payload
/// would outgrow the capacity; the buffer never grows beyond it.
pub fn pack(texts: &Vec<Vec<u8>>, capacity: u32) -> (result: Result<PackedText, PayloadError>)
    ensures
        match result {
            Ok(text) => {
                &&& packed(text_views(texts@)).len() <= capacity
                &&& text.data@ == packed(text_views(texts@))
                &&& text.entries@.len() == texts@.len()
                &&& forall|i: int|
                    0 <= i < texts@.len() ==> #[trigger] text.entries@[i] == entry_of(
                        text_views(texts@),
                        i,
                    )
                &&& forall|i: int|
                    0 <= i < texts@.len() ==> addressed(text.data@, #[trigger] text.entries@[i])
                        == texts@[i]@
            },
            Err(cause) => packed(text_views(texts@)).len() > capacity
                && cause == PayloadError::CapacityExceeded,
        },
{
    let ghost all = text_views(texts@);
    let mut data: Vec<u8> = Vec::new();
    let mut entries: Vec<PayloadEntry> = Vec::new();
    let mut i: usize = 0;
    while i < texts.len()
        invariant
            i <= texts@.len(),
            all == text_views(texts@),
            data@ == packed(all.take(i as int)),
            data@.len() <= capacity,
            entries@.len() == i,
            forall|k: int| 0 <= k < i ==> #[trigger] entries@[k] == entry_of(all, k),
        decreases texts@.len() - i,
    {
        let text: &Vec<u8> = &texts[i];
        let len: usize = text.len();
        let pad: usize = padding_for(len);
        let room: usize = capacity as usize - data.len();
        proof {
            lemma_packed_step(all, i as int);
            lemma_packed_prefix(all, i + 1);
        }
        if len > room || pad > room - len {
            return Err(PayloadError::CapacityExceeded);
        }
        let entry = PayloadEntry { offset: (data.len() / 4) as u32, length: len as u32 };
        append(&mut data, text.as_slice());
        append_zeros(&mut data, pad);
        entries.push(entry);
        i += 1;
    }
    proof {
        assert(all.take(texts@.len() as int) =~= all);
        assert forall|k: int| 0 <= k < texts@.len() implies addressed(
            data@,
            #[trigger] entries@[k],
        ) == texts@[k]@ by {
            lemma_read_back(all, k);
            lemma_start_aligned(all, k);
        }
    }
    Ok(PackedText { data, entries })
}

impl PackedText {
    /// The bytes that entry `i` addresses, or `None` where there is no
    /// entry `i` or it reaches beyond the payload.
    pub fn text(&self, i: usize) -> (bytes: Option<&[u8]>)
        ensures
            match bytes {
                Some(bytes) => i < self.entries@.len() && 4 * self.entries@[i as int].offset
                    + self.entries@[i as int].length <= self.data@.len() && bytes@ == addressed(
                    self.data@,
                    self.entries@[i as int],
                ),
                None => i >= self.entries@.len() || 4 * self.entries@[i as int].offset
                    + self.entries@[i as int].length > self.data@.len(),
            },
    {
        if i >= self.entries.len() {
            return None;
        }
        let entry: PayloadEntry = self.entries[i];
        let begin: u64 = 4 * (entry.offset as u64);
        let end: u64 = begin + entry.length as u64;
        if end > self.data.len() as u64 {
            return None;
        }
        Some(vstd::slice::slice_subrange(self.data.as_slice(), begin as usize, end as usize))
    }
}

} // verus!
