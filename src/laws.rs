//! Properties of the field walk that relate several of its parts.
use vstd::prelude::*;

use crate::consts::align_size;
use crate::field_types::decoded_len;
use crate::iter::{
    next_base, bit_set, decode_all, decode_run, field_start, ids_from, lemma_pad, presence_count,
    presence_count_from, step, word_at, PROLOGUE_LEN,
};

verus! {

/// Every field window starts on a multiple of its field type's alignment,
/// counted from the start of the header, and never before the cursor.
pub proof fn lemma_window_aligned(id: nat, c: int)
    requires
        c >= 0,
    ensures
        (field_start(id, c) + PROLOGUE_LEN) % (align_size(id).0 as int) == 0,
        c <= field_start(id, c) < c + align_size(id).0,
{
    lemma_pad(c + PROLOGUE_LEN, align_size(id).0 as int);
}

/// Decoding a truncated field region never yields more than a prefix of the
/// fields of the whole region.
pub proof fn lemma_truncation(region: Seq<u8>, k: nat)
    requires
        k <= region.len(),
    ensures
        decode_all(region.subrange(0, k as int)).is_prefix_of(decode_all(region)),
{
    let pre = region.subrange(0, k as int);
    if let Some(n) = presence_count(pre) {
        lemma_count_prefix(pre, region, 0);
        lemma_ids_prefix(pre, region, n, 0, 0, 0, false);
        lemma_run_prefix(pre, region, ids_from(region, n, 0, 0, 0, false), 4 * n as int);
    }
}

proof fn lemma_count_prefix(pre: Seq<u8>, full: Seq<u8>, w: nat)
    requires
        pre.len() <= full.len(),
        pre =~= full.subrange(0, pre.len() as int),
        presence_count_from(pre, w) is Some,
    ensures
        presence_count_from(full, w) == presence_count_from(pre, w),
        4 * presence_count_from(pre, w)->0 <= pre.len(),
    decreases pre.len() - 4 * w,
{
    assert(word_at(pre, w as int) == word_at(full, w as int));
    if bit_set(word_at(pre, w as int), 31) {
        lemma_count_prefix(pre, full, w + 1);
    }
}

proof fn lemma_ids_prefix(pre: Seq<u8>, full: Seq<u8>, count: nat, w: nat, b: nat, base: nat, vendor: bool)
    requires
        pre.len() <= full.len(),
        pre =~= full.subrange(0, pre.len() as int),
        4 * count <= pre.len(),
    ensures
        ids_from(pre, count, w, b, base, vendor) == ids_from(full, count, w, b, base, vendor),
    decreases count - w, 31 - b,
{
    if w < count {
        assert(word_at(pre, w as int) == word_at(full, w as int));
        if b >= 31 {
            let nb = crate::iter::next_base(word_at(full, w as int), base);
            lemma_ids_prefix(pre, full, count, w + 1, 0, nb, vendor);
        } else if !bit_set(word_at(full, w as int), b as u32) {
            lemma_ids_prefix(pre, full, count, w, b + 1, base, vendor);
        } else if b == 29 {
            lemma_ids_prefix(pre, full, count, w, b + 1, base, false);
        } else if b == 30 {
            lemma_ids_prefix(pre, full, count, w, b + 1, base, true);
        } else {
            lemma_ids_prefix(pre, full, count, w, b + 1, base, vendor);
        }
    }
}

proof fn lemma_run_prefix(pre: Seq<u8>, full: Seq<u8>, ids: Seq<nat>, c: int)
    requires
        c >= 0,
        pre.len() <= full.len(),
        pre =~= full.subrange(0, pre.len() as int),
    ensures
        decode_run(pre, ids, c).is_prefix_of(decode_run(full, ids, c)),
    decreases ids.len(),
{
    if ids.len() > 0 {
        let id = ids[0];
        let size = align_size(id).1;
        let start = field_start(id, c);
        lemma_pad(c + PROLOGUE_LEN, align_size(id).0 as int);
        if start + size <= pre.len() {
            assert(pre.subrange(start, start + size) =~= full.subrange(start, start + size));
        }
        if let Some((f, n)) = step(pre, id, c) {
            assert(step(full, id, c) == Some((f, n)));
            lemma_run_prefix(pre, full, ids.drop_first(), n);
            let a = decode_run(pre, ids.drop_first(), n);
            let bb = decode_run(full, ids.drop_first(), n);
            assert((seq![f] + a) =~= (seq![f] + bb).subrange(0, a.len() as int + 1));
        }
    }
}

/// The offset just past the last of `ids` when each is laid out at its
/// alignment from cursor `c`.
pub open spec fn layout_end(ids: Seq<nat>, c: int) -> int
    decreases ids.len(),
{
    if ids.len() == 0 {
        c
    } else {
        layout_end(ids.drop_first(), field_start(ids[0], c) + align_size(ids[0]).1)
    }
}

/// The standard fields that the codec decodes.
pub open spec fn is_standard_decodable(id: nat) -> bool {
    decoded_len(id) is Some && id != 30
}

/// With standard fields only, the walk decodes every field exactly when the
/// field data holds the whole layout, and the layout then ends where the last
/// field's window ends.
pub proof fn lemma_standard_layout(region: Seq<u8>, ids: Seq<nat>, c: int)
    requires
        0 <= c <= region.len(),
        forall|i: int| 0 <= i < ids.len() ==> is_standard_decodable(#[trigger] ids[i]),
    ensures
        decode_run(region, ids, c).len() == ids.len() <==> layout_end(ids, c) <= region.len(),
    decreases ids.len(),
{
    if ids.len() > 0 {
        let id = ids[0];
        assert(is_standard_decodable(ids[0]));
        lemma_pad(c + PROLOGUE_LEN, align_size(id).0 as int);
        let start = field_start(id, c);
        let next = start + align_size(id).1;
        assert forall|i: int| 0 <= i < ids.drop_first().len() implies is_standard_decodable(
            #[trigger] ids.drop_first()[i],
        ) by {
            assert(ids.drop_first()[i] == ids[i + 1]);
        }
        if next <= region.len() {
            lemma_standard_layout(region, ids.drop_first(), next);
            assert(step(region, id, c) is Some);
        } else {
            lemma_layout_grows(ids.drop_first(), next);
        }
    }
}

proof fn lemma_layout_grows(ids: Seq<nat>, c: int)
    requires
        c >= 0,
    ensures
        layout_end(ids, c) >= c,
    decreases ids.len(),
{
    if ids.len() > 0 {
        lemma_pad(c + PROLOGUE_LEN, align_size(ids[0]).0 as int);
        lemma_layout_grows(ids.drop_first(), field_start(ids[0], c) + align_size(ids[0]).1);
    }
}

/// A presence word with the continuation bit followed by one without it makes
/// two presence words, and the field data is read from after both.
pub proof fn lemma_two_presence_words(region: Seq<u8>)
    requires
        region.len() >= 8,
        bit_set(word_at(region, 0), 31),
        !bit_set(word_at(region, 1), 31),
    ensures
        presence_count(region) == Some(2nat),
        decode_all(region) == decode_run(region, ids_from(region, 2, 0, 0, 0, false), 8),
{
    assert(presence_count_from(region, 1) == Some(2nat));
}

/// Bits that are clear, or that an open vendor namespace suppresses, add no ids.
proof fn lemma_skip(region: Seq<u8>, count: nat, w: nat, b: nat, e: nat, base: nat, vendor: bool)
    requires
        w < count,
        b <= e <= 31,
        forall|j: nat|
            b <= j < e ==> !#[trigger] bit_set(word_at(region, w as int), j as u32) || (vendor && j < 29),
    ensures
        ids_from(region, count, w, b, base, vendor) == ids_from(region, count, w, e, base, vendor),
    decreases e - b,
{
    if b < e {
        assert(b <= b < e);
        lemma_skip(region, count, w, b + 1, e, base, vendor);
    }
}

proof fn lemma_bits_below_clear(word: u32, j: u32, e: u32)
    requires
        e <= 31,
        j < e,
        word & (((1u32 << e) - 1u32) as u32) == 0,
    ensures
        !bit_set(word, j),
{
    assert((word >> j) & 1u32 != 1u32) by (bit_vector)
        requires e <= 31, j < e, word & (((1u32 << e) - 1u32) as u32) == 0;
}

/// With a vendor-namespace switch, then a bit `x`, then a switch back to the
/// standard namespace, then a bit `y` (the first three in chained presence
/// words), the walk decodes the vendor-namespace descriptor and then `y`,
/// and never `x`.
pub proof fn lemma_vendor_suppression(region: Seq<u8>, x: u32, y: u32)
    requires
        x < 29,
        y < 29,
        region.len() >= 12,
        word_at(region, 0) == 0xc000_0000u32,
        word_at(region, 1) == (1u32 << x) | 0xa000_0000u32,
        word_at(region, 2) == 1u32 << y,
    ensures
        presence_count(region) == Some(3nat),
        ids_from(region, 3, 0, 0, 0, false) == seq![30nat, y as nat],
        decode_all(region) == decode_run(region, seq![30nat, y as nat], 12),
{
    let w0 = word_at(region, 0);
    let w1 = word_at(region, 1);
    let w2 = word_at(region, 2);
    assert(bit_set(w0, 31) && bit_set(w0, 30) && w0 & (((1u32 << 30u32) - 1u32) as u32) == 0)
        by (bit_vector) requires w0 == 0xc000_0000u32;
    assert(bit_set(w1, 31) && bit_set(w1, 29) && !bit_set(w1, 30)) by (bit_vector)
        requires w1 == (1u32 << x) | 0xa000_0000u32, x < 29;
    assert(!bit_set(w2, 31) && !bit_set(w2, 30) && !bit_set(w2, 29) && bit_set(w2, y)
        && w2 & (((1u32 << y) - 1u32) as u32) == 0) by (bit_vector)
        requires w2 == 1u32 << y, y < 29;
    assert forall|j: u32| y < j < 31 implies !bit_set(w2, j) by {
        assert(!bit_set(w2, j)) by (bit_vector) requires w2 == 1u32 << y, y < j, j < 31;
    }
    assert(presence_count_from(region, 2) == Some(3nat));
    assert(presence_count_from(region, 1) == Some(3nat));
    // word 0: nothing below the vendor switch
    assert forall|j: nat| 0 <= j < 30 implies !#[trigger] bit_set(w0, j as u32) by {
        lemma_bits_below_clear(w0, j as u32, 30);
    }
    lemma_skip(region, 3, 0, 0, 30, 0, false);
    assert(next_base(w0, 0) == 0);
    // word 1: everything below the standard switch is vendor data
    lemma_skip(region, 3, 1, 0, 29, 0, true);
    assert(next_base(w1, 0) == 0);
    // word 2: y alone
    assert forall|j: nat| 0 <= j < y implies !#[trigger] bit_set(w2, j as u32) by {
        lemma_bits_below_clear(w2, j as u32, y);
    }
    lemma_skip(region, 3, 2, 0, y as nat, 0, false);
    lemma_skip(region, 3, 2, y as nat + 1, 31, 0, false);
    let tail = ids_from(region, 3, 2, 0, 0, false);
    assert(tail == seq![y as nat] + ids_from(region, 3, 2, y as nat + 1, 0, false));
    assert(ids_from(region, 3, 3, 0, next_base(w2, 0), false) == Seq::<nat>::empty());
    assert(ids_from(region, 3, 2, 31, 0, false) == Seq::<nat>::empty());
    assert(tail =~= seq![y as nat]);
    let mid = ids_from(region, 3, 1, 0, 0, true);
    assert(ids_from(region, 3, 1, 31, 0, false) == tail);
    assert(ids_from(region, 3, 1, 30, 0, false) == tail);
    assert(ids_from(region, 3, 1, 29, 0, true) == tail);
    assert(mid == tail);
    assert(ids_from(region, 3, 0, 31, 0, true) == mid);
    assert(ids_from(region, 3, 0, 30, 0, false) == seq![30nat] + mid);
    let all = ids_from(region, 3, 0, 0, 0, false);
    assert(all == seq![30nat] + mid);
    assert(all =~= seq![30nat, y as nat]);
}

} // verus!
