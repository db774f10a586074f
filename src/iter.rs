//! The field iterator: presence-bitmap walker, alignment cursor and codec,
//! composed into a lazy state machine.
use vstd::prelude::*;

use crate::bytes::{le_u32_at, read_u32};
use crate::consts::{align_size, lookup_align_size, valid_align, VARIABLE_LENGTH};
use crate::field_types::{decode_field, decoded_len, RadiotapField};

verus! {

/// Length of the header prologue (version, pad, total length) that precedes
/// the field region; alignment is counted from the start of the header.
pub const PROLOGUE_LEN: usize = 4;

/// Bytes needed after `offset` for the next multiple of `align`.
pub open spec fn pad(offset: int, align: int) -> int {
    (align - offset % align) % align
}

/// Bytes needed after `offset` for the next multiple of `align`, a power of two.
pub fn calculate_padding(offset: usize, align: usize) -> (r: usize)
    requires
        valid_align(align),
        offset + align - 1 <= usize::MAX,
    ensures
        r == pad(offset as int, align as int),
        r < align,
        (offset + r) % (align as int) == 0,
{
    let aligned_offset = (offset + (align - 1)) & !(align - 1);
    proof {
        let o = offset;
        let s = aligned_offset;
        if align == 1 {
            assert(s == o) by (bit_vector) requires s == (o + 0) as usize & !0usize;
        } else if align == 2 {
            assert(s >= o && (s - o) as usize == ((2 - o % 2) % 2) as usize) by (bit_vector)
                requires s == (o + 1) as usize & !1usize, o <= (o + 1) as usize;
        } else if align == 4 {
            assert(s >= o && (s - o) as usize == ((4 - o % 4) % 4) as usize) by (bit_vector)
                requires s == (o + 3) as usize & !3usize, o <= (o + 3) as usize;
        } else {
            assert(s >= o && (s - o) as usize == ((8 - o % 8) % 8) as usize) by (bit_vector)
                requires s == (o + 7) as usize & !7usize, o <= (o + 7) as usize;
        }
        lemma_pad(offset as int, align as int);
    }
    aligned_offset - offset
}

pub proof fn lemma_pad(o: int, a: int)
    requires
        o >= 0,
        a == 1 || a == 2 || a == 4 || a == 8,
    ensures
        0 <= pad(o, a) < a,
        (o + pad(o, a)) % a == 0,
        pad(o, a) == pad(o % a, a),
{
    if a == 1 {
    } else if a == 2 {
    } else if a == 4 {
    } else {
    }
}

/// Whether bit `b` of `word` is set.
pub open spec fn bit_set(word: u32, b: u32) -> bool {
    (word >> b) & 1u32 == 1u32
}

/// The `w`-th presence word of a field region.
pub open spec fn word_at(region: Seq<u8>, w: int) -> u32 {
    le_u32_at(region, 4 * w)
}

/// The number of presence words, counted from word `w`: the chain goes on
/// while bit 31 is set, and is incomplete if the region ends first.
pub open spec fn presence_count_from(region: Seq<u8>, w: nat) -> Option<nat>
    decreases region.len() - 4 * w,
{
    if 4 * w + 4 > region.len() {
        None
    } else if bit_set(word_at(region, w as int), 31) {
        presence_count_from(region, w + 1)
    } else {
        Some(w + 1)
    }
}

/// The number of presence words at the start of a field region, if the chain is complete.
pub open spec fn presence_count(region: Seq<u8>) -> Option<nat> {
    presence_count_from(region, 0)
}

/// The id base of the word after word `w`: numbering goes on by 32 ids, or
/// starts again at 0 after a word that switches namespace.
pub open spec fn next_base(word: u32, base: nat) -> nat {
    if bit_set(word, 29) || bit_set(word, 30) { 0 } else { base + 32 }
}

/// The field-type ids to decode, in order, from bit `b` of presence word `w`
/// on, where word `w` numbers its bits from `base` and `vendor` says whether
/// a vendor namespace is open. Bit 31 chains words, bit 29 returns to the
/// standard namespace, bit 30 opens a vendor namespace and is itself decoded
/// as the vendor-namespace descriptor; the other bits are suppressed while a
/// vendor namespace is open.
pub open spec fn ids_from(region: Seq<u8>, count: nat, w: nat, b: nat, base: nat, vendor: bool) -> Seq<nat>
    decreases count - w, 31 - b,
{
    if w >= count {
        seq![]
    } else if b >= 31 {
        ids_from(region, count, w + 1, 0, next_base(word_at(region, w as int), base), vendor)
    } else if !bit_set(word_at(region, w as int), b as u32) {
        ids_from(region, count, w, b + 1, base, vendor)
    } else if b == 29 {
        ids_from(region, count, w, b + 1, base, false)
    } else if b == 30 {
        seq![30nat] + ids_from(region, count, w, b + 1, base, true)
    } else if vendor {
        ids_from(region, count, w, b + 1, base, vendor)
    } else {
        seq![base + b] + ids_from(region, count, w, b + 1, base, vendor)
    }
}

/// Where the window of field `id` starts when the cursor stands at region offset `c`.
pub open spec fn field_start(id: nat, c: int) -> int {
    c + pad(c + PROLOGUE_LEN, align_size(id).0 as int)
}

/// Bytes skipped after a decoded field: the vendor data after a vendor-namespace descriptor.
pub open spec fn skip_after(f: RadiotapField) -> nat {
    match f {
        RadiotapField::VendorNamespace { skip_length, .. } => skip_length as nat,
        _ => 0,
    }
}

/// Decodes field `id` at cursor `c`: the value and the next cursor, or nothing
/// when the field is unsupported or its window does not fit in the region.
pub open spec fn step(region: Seq<u8>, id: nat, c: int) -> Option<(RadiotapField, int)> {
    let size = align_size(id).1;
    let start = field_start(id, c);
    if size == VARIABLE_LENGTH || start + size > region.len() {
        None
    } else {
        match decode_field(id, region.subrange(start, start + size)) {
            None => None,
            Some(f) => Some((f, start + size + skip_after(f))),
        }
    }
}

/// The fields decoded for `ids` from cursor `c`, up to the first that fails.
pub open spec fn decode_run(region: Seq<u8>, ids: Seq<nat>, c: int) -> Seq<RadiotapField>
    decreases ids.len(),
{
    if ids.len() == 0 {
        seq![]
    } else {
        match step(region, ids[0], c) {
            None => seq![],
            Some((f, n)) => seq![f] + decode_run(region, ids.drop_first(), n),
        }
    }
}

/// The fields of a field region (presence words, then field data), in order.
pub open spec fn decode_all(region: Seq<u8>) -> Seq<RadiotapField> {
    match presence_count(region) {
        None => seq![],
        Some(n) => decode_run(region, ids_from(region, n, 0, 0, 0, false), 4 * n as int),
    }
}

/// The state of one walk over a field region.
pub struct FieldIter<'a> {
    region: &'a [u8],
    count: usize,
    word: usize,
    bit: usize,
    base: Ghost<nat>,
    extended: bool,
    vendor: bool,
    cursor: usize,
    done: bool,
}

impl<'a> FieldIter<'a> {
    /// The field region being walked.
    pub closed spec fn region_view(&self) -> Seq<u8> {
        self.region@
    }

    pub closed spec fn wf(&self) -> bool {
        &&& self.word <= self.count
        &&& self.bit <= 31
        &&& 4 * self.count <= self.region@.len()
        &&& !self.done ==> self.cursor <= self.region@.len()
        &&& self.region@.len() <= usize::MAX
        &&& !self.extended ==> self.base@ == 0
        &&& self.extended ==> self.base@ >= 32
    }

    /// The fields that the walk has still to produce.
    pub closed spec fn remaining(&self) -> Seq<RadiotapField> {
        if self.done {
            seq![]
        } else {
            decode_run(
                self.region@,
                ids_from(self.region@, self.count as nat, self.word as nat, self.bit as nat, self.base@, self.vendor),
                self.cursor as int,
            )
        }
    }
    /// Starts a walk over a field region: presence words, then field data.
    pub fn new(region: &'a [u8]) -> (r: FieldIter<'a>)
        ensures
            r.wf(),
            r.region_view() == region@,
            r.remaining() == decode_all(region@),
    {
        let mut n: usize = 0;
        loop
            invariant
                4 * n <= region@.len(),
                presence_count(region@) == presence_count_from(region@, n as nat),
            decreases region@.len() - 4 * n,
        {
            if region.len() - 4 * n < 4 {
                return FieldIter {
                    region,
                    count: 0,
                    word: 0,
                    bit: 0,
                    base: Ghost(0),
                    extended: false,
                    vendor: false,
                    cursor: 0,
                    done: true,
                };
            }
            let word = read_u32(region, 4 * n);
            if (word >> 31u32) & 1u32 != 1u32 {
                return FieldIter {
                    region,
                    count: n + 1,
                    word: 0,
                    bit: 0,
                    base: Ghost(0),
                    extended: false,
                    vendor: false,
                    cursor: 4 * (n + 1),
                    done: false,
                };
            }
            n = n + 1;
        }
    }

    /// Decodes field `id` at the cursor and moves the cursor past it, or ends the walk.
    fn decode_next(&mut self, id: usize) -> (r: Option<RadiotapField>)
        requires
            old(self).wf(),
            !old(self).done,
        ensures
            final(self).wf(),
            final(self).region == old(self).region,
            final(self).count == old(self).count,
            final(self).word == old(self).word,
            final(self).bit == old(self).bit,
            final(self).base == old(self).base,
            final(self).extended == old(self).extended,
            final(self).vendor == old(self).vendor,
            match step(old(self).region@, id as nat, old(self).cursor as int) {
                None => r is None && final(self).done,
                Some((f, n)) => r == Some(f) && (final(self).done ==> n > old(self).region@.len())
                    && (!final(self).done ==> final(self).cursor == n),
            },
    {
        let (align, size) = lookup_align_size(id);
        if size == VARIABLE_LENGTH {
            self.done = true;
            return None;
        }
        let len = self.region.len();
        let c = self.cursor;
        let padding = calculate_padding(c % align + PROLOGUE_LEN, align);
        proof {
            lemma_pad((c + PROLOGUE_LEN) as int, align as int);
            lemma_pad((c % align + PROLOGUE_LEN) as int, align as int);
            lemma_mod_shift(c as int, align as int);
        }
        assert(padding == pad(c + PROLOGUE_LEN, align as int));
        if padding > len - c || size > len - c - padding {
            self.done = true;
            return None;
        }
        let start = c + padding;
        let window = &self.region[start..start + size];
        match RadiotapField::from_bytes(window, id) {
            None => {
                self.done = true;
                None
            },
            Some(f) => {
                let next = start + size;
                let skip: usize = match f {
                    RadiotapField::VendorNamespace { skip_length, .. } => skip_length as usize,
                    _ => 0,
                };
                if skip > len - next {
                    self.done = true;
                } else {
                    self.cursor = next + skip;
                }
                Some(f)
            },
        }
    }

    /// Produces the next decoded field, or `None` once the walk has ended: at
    /// the end of the presence words, or at the first field that cannot be
    /// decoded, after which nothing more is produced.
    pub fn next_field(&mut self) -> (r: Option<RadiotapField>)
        requires
            old(self).wf(),
        ensures
            final(self).wf(),
            final(self).region_view() == old(self).region_view(),
            old(self).remaining().len() == 0 ==> r is None && final(self).remaining().len() == 0,
            old(self).remaining().len() > 0 ==> r == Some(old(self).remaining()[0])
                && final(self).remaining() == old(self).remaining().drop_first(),
    {
        let ghost rem = self.remaining();
        loop
            invariant
                self.wf(),
                self.region == old(self).region,
                self.remaining() == rem,
                rem == old(self).remaining(),
            decreases (self.count - self.word) * 32 + (32 - self.bit),
        {
            if self.done || self.word >= self.count {
                self.done = true;
                return None;
            }
            let word = read_u32(self.region, 4 * self.word);
            let ghost region = self.region@;
            let ghost count = self.count as nat;
            let ghost (w, b, base, vendor) = (self.word as nat, self.bit as nat, self.base@, self.vendor);
            let ghost c = self.cursor as int;
            let ghost ids = ids_from(region, count, w, b, base, vendor);
            assert(word == word_at(region, w as int));
            if self.bit >= 31 {
                if (word >> 29u32) & 1u32 == 1u32 || (word >> 30u32) & 1u32 == 1u32 {
                    self.base = Ghost(0);
                    self.extended = false;
                } else {
                    self.base = Ghost(self.base@ + 32);
                    self.extended = true;
                }
                self.word = self.word + 1;
                self.bit = 0;
            } else {
                let bit = self.bit;
                self.bit = self.bit + 1;
                if (word >> (bit as u32)) & 1u32 == 1u32 {
                    if bit == 29 {
                        self.vendor = false;
                    } else if bit == 30 {
                        self.vendor = true;
                        let ghost rest = ids_from(region, count, w, b + 1, base, true);
                        assert(ids == seq![30nat] + rest);
                        assert(ids[0] == 30 && ids.drop_first() =~= rest);
                        let r = self.decode_next(30);
                        proof {
                            if let Some((f, n)) = step(region, 30, c) {
                                if self.done {
                                    lemma_run_past_end(region, rest, n);
                                }
                            }
                        }
                        return r;
                    } else if !self.vendor {
                        let ghost rest = ids_from(region, count, w, b + 1, base, false);
                        assert(ids == seq![base + b] + rest);
                        assert(ids[0] == base + b && ids.drop_first() =~= rest);
                        if self.extended {
                            assert(decoded_len(base + b) is None);
                            self.done = true;
                            return None;
                        }
                        let r = self.decode_next(bit);
                        proof {
                            if let Some((f, n)) = step(region, b, c) {
                                if self.done {
                                    lemma_run_past_end(region, rest, n);
                                }
                            }
                        }
                        return r;
                    }
                }
            }
        }
    }
    /// Produces all the fields that the walk has still to produce.
    pub fn collect_fields(&mut self) -> (r: Vec<RadiotapField>)
        requires
            old(self).wf(),
        ensures
            final(self).wf(),
            r@ == old(self).remaining(),
            final(self).remaining().len() == 0,
    {
        let mut v: Vec<RadiotapField> = Vec::new();
        loop
            invariant
                self.wf(),
                v@ + self.remaining() == old(self).remaining(),
            decreases self.remaining().len(),
        {
            let ghost before = self.remaining();
            match self.next_field() {
                None => {
                    assert(v@ =~= old(self).remaining());
                    return v;
                },
                Some(f) => {
                    v.push(f);
                    assert(v@ + self.remaining() =~= old(self).remaining());
                },
            }
        }
    }
}

/// Decodes every field of a field region (presence words, then field data).
pub fn decode_fields(region: &[u8]) -> (r: Vec<RadiotapField>)
    ensures
        r@ == decode_all(region@),
{
    let mut it = FieldIter::new(region);
    it.collect_fields()
}

/// Nothing is decoded from a cursor past the end of the region.
proof fn lemma_run_past_end(region: Seq<u8>, ids: Seq<nat>, c: int)
    requires
        c > region.len(),
    ensures
        decode_run(region, ids, c) == Seq::<RadiotapField>::empty(),
{
    if ids.len() > 0 {
        lemma_pad(c + PROLOGUE_LEN, align_size(ids[0]).0 as int);
    }
}

proof fn lemma_mod_shift(c: int, a: int)
    requires
        c >= 0,
        a == 1 || a == 2 || a == 4 || a == 8,
    ensures
        pad(c + 4, a) == pad(c % a + 4, a),
{
    if a == 1 {
    } else if a == 2 {
    } else if a == 4 {
    } else {
    }
}

} // verus!
