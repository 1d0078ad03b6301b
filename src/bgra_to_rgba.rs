//! Conversion of packed BGRA pixels to packed RGBA pixels.
//!
//! The wide path moves eight pixels per step as two 16-byte lanes, each lane
//! permuted by the same byte shuffle mask; a narrower path moves one lane per
//! step, and a per-pixel loop finishes whatever is left.  Every path yields
//! the same bytes, which the contracts below state.
use vstd::prelude::*;

verus! {

/// Where byte `i` of the converted buffer comes from: the first and third
/// bytes of every 4-byte group trade places, the other two stay.
pub open spec fn source_index(i: int) -> int {
    if i % 4 == 0 {
        i + 2
    } else if i % 4 == 2 {
        i - 2
    } else {
        i
    }
}

/// The RGBA bytes of the BGRA buffer `src`, whose length is a multiple of 4.
pub open spec fn bgra_to_rgba(src: Seq<u8>) -> Seq<u8> {
    Seq::new(src.len(), |i: int| src[source_index(i)])
}

/// The RGBA bytes of the `n` pixels of `src` that start at byte `start`.
pub open spec fn converted_pixels(src: Seq<u8>, start: int, n: int) -> Seq<u8> {
    bgra_to_rgba(src.subrange(start, start + 4 * n))
}

/// `after` is `before` with the converted `n` pixels of `src` from `start` appended,
/// stated byte by byte.
pub open spec fn appended_pointwise(
    before: Seq<u8>,
    after: Seq<u8>,
    src: Seq<u8>,
    start: int,
    n: int,
) -> bool {
    &&& after.len() == before.len() + 4 * n
    &&& forall|j: int| 0 <= j < before.len() ==> #[trigger] after[j] == before[j]
    &&& forall|j: int|
        0 <= j < 4 * n ==> #[trigger] after[before.len() + j] == src[start + source_index(j)]
}

proof fn lemma_source_index_in_group(j: int)
    requires
        0 <= j,
    ensures
        0 <= source_index(j),
        source_index(j) / 4 == j / 4,
        source_index(j) % 4 == if j % 4 == 0 { 2 } else if j % 4 == 2 { 0 } else { j % 4 },
{
}

proof fn lemma_pointwise_is_append(before: Seq<u8>, after: Seq<u8>, src: Seq<u8>, start: int, n: int)
    requires
        0 <= start,
        0 <= n,
        start + 4 * n <= src.len(),
        appended_pointwise(before, after, src, start, n),
    ensures
        after == before + converted_pixels(src, start, n),
{
    let conv = converted_pixels(src, start, n);
    assert forall|j: int| 0 <= j < 4 * n implies #[trigger] conv[j] == src[start + source_index(j)] by {
        lemma_source_index_in_group(j);
        assert(source_index(j) < 4 * n);
    }
    assert forall|j: int| 0 <= j < after.len() implies #[trigger] after[j] == (before + conv)[j] by {
        if j >= before.len() {
            assert(after[before.len() + (j - before.len())] == src[start + source_index(j - before.len())]);
        }
    }
    assert(after =~= before + conv);
}

/// Index into a 16-byte lane that the shuffle mask reads for output byte `k`.
fn shuffle_mask(k: usize) -> (r: usize)
    requires
        k < 16,
    ensures
        r as int == source_index(k as int),
        r < 16,
{
    if k % 4 == 0 {
        k + 2
    } else if k % 4 == 2 {
        k - 2
    } else {
        k
    }
}

/// One pixel at a time: appends the converted `pixel_count` pixels of `src`
/// that start at byte `start`.
fn convert_bgra_to_rgba_scalar(src: &[u8], dst: &mut Vec<u8>, start: usize, pixel_count: usize)
    requires
        start + 4 * pixel_count <= src@.len(),
    ensures
        appended_pointwise(old(dst)@, final(dst)@, src@, start as int, pixel_count as int),
{
    let ghost before = dst@;
    let src_len = src.len();
    let mut i: usize = 0;
    while i < pixel_count
        invariant
            i <= pixel_count,
                start + 4 * pixel_count <= src@.len(),
            src_len == src@.len(),
            appended_pointwise(before, dst@, src@, start as int, i as int),
        decreases pixel_count - i,
    {
        let offset = start + i * 4;
        dst.push(src[offset + 2]);
        dst.push(src[offset + 1]);
        dst.push(src[offset]);
        dst.push(src[offset + 3]);
        proof {
            let n = i as int;
            assert forall|j: int| 0 <= j < 4 * (n + 1) implies #[trigger] dst@[before.len() + j]
                == src@[start + source_index(j)] by {
                if j >= 4 * n {
                    assert(j / 4 == n);
                }
            }
        }
        i = i + 1;
    }
}

/// One 16-byte lane (four pixels) permuted by the shuffle mask: appends the
/// converted four pixels of `src` that start at byte `offset`.
fn shuffle_lane(src: &[u8], dst: &mut Vec<u8>, offset: usize)
    requires
        offset + 16 <= src@.len(),
    ensures
        appended_pointwise(old(dst)@, final(dst)@, src@, offset as int, 4),
{
    let ghost before = dst@;
    let src_len = src.len();
    let mut k: usize = 0;
    while k < 16
        invariant
            k <= 16,
                offset + 16 <= src@.len(),
            src_len == src@.len(),
            dst@.len() == before.len() + k,
            forall|j: int| 0 <= j < before.len() ==> #[trigger] dst@[j] == before[j],
            forall|j: int|
                0 <= j < k ==> #[trigger] dst@[before.len() + j] == src@[offset + source_index(j)],
        decreases 16 - k,
    {
        let m = shuffle_mask(k);
        dst.push(src[offset + m]);
        k = k + 1;
    }
}

proof fn lemma_pointwise_concat(
    a: Seq<u8>,
    b: Seq<u8>,
    c: Seq<u8>,
    src: Seq<u8>,
    start: int,
    n: int,
    m: int,
)
    requires
        0 <= n,
        0 <= m,
        appended_pointwise(a, b, src, start, n),
        appended_pointwise(b, c, src, start + 4 * n, m),
    ensures
        appended_pointwise(a, c, src, start, n + m),
{
    assert forall|j: int| 0 <= j < 4 * (n + m) implies #[trigger] c[a.len() + j] == src[start
        + source_index(j)] by {
        if j >= 4 * n {
            let t = j - 4 * n;
            assert(c[b.len() + t] == src[start + 4 * n + source_index(t)]);
            assert(source_index(j) == 4 * n + source_index(t));
        } else {
            assert(c[a.len() + j] == b[a.len() + j]);
        }
    }
}

/// Four pixels per step, then the per-pixel loop for the rest: appends the
/// converted `pixel_count` pixels of `src` from byte `start`.
fn convert_bgra_to_rgba_lanes(src: &[u8], dst: &mut Vec<u8>, start: usize, pixel_count: usize)
    requires
        start + 4 * pixel_count <= src@.len(),
    ensures
        appended_pointwise(old(dst)@, final(dst)@, src@, start as int, pixel_count as int),
{
    let ghost before = dst@;
    let src_len = src.len();
    let lane_count = pixel_count / 4;
    let remainder = pixel_count % 4;
    let mut i: usize = 0;
    while i < lane_count
        invariant
            i <= lane_count,
            lane_count == pixel_count / 4,
                start + 4 * pixel_count <= src@.len(),
            src_len == src@.len(),
            appended_pointwise(before, dst@, src@, start as int, 4 * i as int),
        decreases lane_count - i,
    {
        let ghost mid = dst@;
        shuffle_lane(src, dst, start + i * 16);
        proof {
            lemma_pointwise_concat(before, mid, dst@, src@, start as int, 4 * i as int, 4);
        }
        i = i + 1;
    }
    let ghost mid = dst@;
    convert_bgra_to_rgba_scalar(src, dst, start + lane_count * 16, remainder);
    proof {
        lemma_pointwise_concat(
            before,
            mid,
            dst@,
            src@,
            start as int,
            4 * lane_count as int,
            remainder as int,
        );
    }
}

/// Eight pixels (two lanes) per step, then the per-pixel loop for the rest;
/// with fewer than eight pixels the one-lane path takes over at once.
fn convert_bgra_to_rgba_wide(src: &[u8], dst: &mut Vec<u8>, start: usize, pixel_count: usize)
    requires
        start + 4 * pixel_count <= src@.len(),
    ensures
        appended_pointwise(old(dst)@, final(dst)@, src@, start as int, pixel_count as int),
{
    if pixel_count < 8 {
        convert_bgra_to_rgba_lanes(src, dst, start, pixel_count);
        return;
    }
    let ghost before = dst@;
    let src_len = src.len();
    let block_count = pixel_count / 8;
    let remainder = pixel_count % 8;
    let mut i: usize = 0;
    while i < block_count
        invariant
            i <= block_count,
            block_count == pixel_count / 8,
                start + 4 * pixel_count <= src@.len(),
            src_len == src@.len(),
            appended_pointwise(before, dst@, src@, start as int, 8 * i as int),
        decreases block_count - i,
    {
        let offset = start + i * 32;
        let ghost m0 = dst@;
        shuffle_lane(src, dst, offset);
        let ghost m1 = dst@;
        shuffle_lane(src, dst, offset + 16);
        proof {
            lemma_pointwise_concat(m0, m1, dst@, src@, offset as int, 4, 4);
            lemma_pointwise_concat(before, m0, dst@, src@, start as int, 8 * i as int, 8);
        }
        i = i + 1;
    }
    let ghost mid = dst@;
    convert_bgra_to_rgba_scalar(src, dst, start + block_count * 32, remainder);
    proof {
        lemma_pointwise_concat(
            before,
            mid,
            dst@,
            src@,
            start as int,
            8 * block_count as int,
            remainder as int,
        );
    }
}

/// Converts every whole pixel of `src` (its length rounded down to a multiple
/// of 4) into `dst`, which afterwards holds exactly the converted bytes.
pub fn convert_bgra_to_rgba_simd(src: &[u8], dst: &mut Vec<u8>)
    ensures
        final(dst)@ == converted_pixels(src@, 0, (src@.len() / 4) as int),
        final(dst)@.len() == 4 * (src@.len() / 4),
        src@.len() % 4 == 0 ==> final(dst)@.len() == src@.len(),
{
    let pixel_count = src.len() / 4;
    dst.clear();
    convert_bgra_to_rgba_wide(src, dst, 0, pixel_count);
    proof {
        lemma_pointwise_is_append(Seq::empty(), dst@, src@, 0, pixel_count as int);
        assert(Seq::<u8>::empty() + converted_pixels(src@, 0, pixel_count as int)
            =~= converted_pixels(src@, 0, pixel_count as int));
    }
}

/// Converts the `pixel_count` pixels of the scanline that starts at byte
/// `start` of `src` and appends them to `dst`; bytes past them (row padding)
/// are not read.
pub fn convert_bgra_to_rgba_row(src: &[u8], start: usize, dst: &mut Vec<u8>, pixel_count: usize)
    requires
        start + 4 * pixel_count <= src@.len(),
    ensures
        final(dst)@ == old(dst)@ + converted_pixels(src@, start as int, pixel_count as int),
{
    convert_bgra_to_rgba_wide(src, dst, start, pixel_count);
    proof {
        lemma_pointwise_is_append(old(dst)@, dst@, src@, start as int, pixel_count as int);
    }
}

} // verus!
