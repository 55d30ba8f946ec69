//! Byte-level layout of the values this engine uploads into GPU buffers.
//!
//! Buffer contents are modelled as byte sequences; everything the engine
//! uploads is a sequence of 32-bit (or, for index data, 16-bit) words laid
//! out least-significant byte first.

use vstd::prelude::*;

verus! {

use vstd::bytes::{
    spec_u16_to_le_bytes, spec_u32_from_le_bytes, spec_u32_to_le_bytes,
    lemma_auto_spec_u32_to_from_le_bytes,
};

/// The bytes of a word sequence, each word least-significant byte first.
pub open spec fn words_bytes(ws: Seq<u32>) -> Seq<u8>
    decreases ws.len(),
{
    if ws.len() == 0 {
        Seq::empty()
    } else {
        spec_u32_to_le_bytes(ws[0]) + words_bytes(ws.drop_first())
    }
}

/// The words read back from a byte sequence, four bytes at a time; a
/// trailing fragment shorter than a word is dropped.
pub open spec fn bytes_words(bs: Seq<u8>) -> Seq<u32>
    decreases bs.len(),
{
    if bs.len() < 4 {
        Seq::empty()
    } else {
        seq![spec_u32_from_le_bytes(bs.take(4))] + bytes_words(bs.skip(4))
    }
}

/// The bytes of a 16-bit word sequence, least-significant byte first.
pub open spec fn words16_bytes(ws: Seq<u16>) -> Seq<u8>
    decreases ws.len(),
{
    if ws.len() == 0 {
        Seq::empty()
    } else {
        spec_u16_to_le_bytes(ws[0]) + words16_bytes(ws.drop_first())
    }
}

pub proof fn lemma_words_bytes_len(ws: Seq<u32>)
    ensures
        words_bytes(ws).len() == 4 * ws.len(),
    decreases ws.len(),
{
    lemma_auto_spec_u32_to_from_le_bytes();
    if ws.len() != 0 {
        lemma_words_bytes_len(ws.drop_first());
    }
}

pub proof fn lemma_words16_bytes_len(ws: Seq<u16>)
    ensures
        words16_bytes(ws).len() == 2 * ws.len(),
    decreases ws.len(),
{
    vstd::bytes::lemma_auto_spec_u16_to_from_le_bytes();
    if ws.len() != 0 {
        lemma_words16_bytes_len(ws.drop_first());
    }
}

pub proof fn lemma_words_bytes_append(a: Seq<u32>, b: Seq<u32>)
    ensures
        words_bytes(a + b) == words_bytes(a) + words_bytes(b),
    decreases a.len(),
{
    if a.len() == 0 {
        assert(a + b =~= b);
        assert(words_bytes(a) + words_bytes(b) =~= words_bytes(b));
    } else {
        assert((a + b).drop_first() =~= a.drop_first() + b);
        lemma_words_bytes_append(a.drop_first(), b);
        assert(words_bytes(a + b) =~= words_bytes(a) + words_bytes(b));
    }
}

pub proof fn lemma_words16_bytes_append(a: Seq<u16>, b: Seq<u16>)
    ensures
        words16_bytes(a + b) == words16_bytes(a) + words16_bytes(b),
    decreases a.len(),
{
    if a.len() == 0 {
        assert(a + b =~= b);
        assert(words16_bytes(a) + words16_bytes(b) =~= words16_bytes(b));
    } else {
        assert((a + b).drop_first() =~= a.drop_first() + b);
        lemma_words16_bytes_append(a.drop_first(), b);
        assert(words16_bytes(a + b) =~= words16_bytes(a) + words16_bytes(b));
    }
}

pub proof fn lemma_words_bytes_push(ws: Seq<u32>, w: u32)
    ensures
        words_bytes(ws.push(w)) == words_bytes(ws) + spec_u32_to_le_bytes(w),
{
    lemma_auto_spec_u32_to_from_le_bytes();
    assert(ws.push(w) =~= ws + seq![w]);
    lemma_words_bytes_append(ws, seq![w]);
    assert(seq![w].drop_first() =~= Seq::<u32>::empty());
    assert(words_bytes(Seq::<u32>::empty()) =~= Seq::<u8>::empty());
    assert(words_bytes(seq![w]) =~= spec_u32_to_le_bytes(w));
}

pub proof fn lemma_words16_bytes_push(ws: Seq<u16>, w: u16)
    ensures
        words16_bytes(ws.push(w)) == words16_bytes(ws) + spec_u16_to_le_bytes(w),
{
    vstd::bytes::lemma_auto_spec_u16_to_from_le_bytes();
    assert(ws.push(w) =~= ws + seq![w]);
    lemma_words16_bytes_append(ws, seq![w]);
    assert(seq![w].drop_first() =~= Seq::<u16>::empty());
    assert(words16_bytes(Seq::<u16>::empty()) =~= Seq::<u8>::empty());
    assert(words16_bytes(seq![w]) =~= spec_u16_to_le_bytes(w));
}

/// Words of a concatenation, when the prefix ends on a word boundary.
pub proof fn lemma_bytes_words_prefix(pre: Seq<u8>, post: Seq<u8>)
    requires
        pre.len() % 4 == 0,
    ensures
        bytes_words(pre + post) == bytes_words(pre) + bytes_words(post),
    decreases pre.len(),
{
    if pre.len() == 0 {
        assert(pre + post =~= post);
        assert(bytes_words(pre) + bytes_words(post) =~= bytes_words(post));
    } else {
        let all = pre + post;
        assert(all.len() >= 4);
        assert(all.take(4) =~= pre.take(4));
        assert(all.skip(4) =~= pre.skip(4) + post);
        lemma_bytes_words_prefix(pre.skip(4), post);
        assert(bytes_words(pre) =~= seq![spec_u32_from_le_bytes(pre.take(4))] + bytes_words(
            pre.skip(4),
        ));
        assert(bytes_words(pre + post) =~= bytes_words(pre) + bytes_words(post));
    }
}

/// Reading words back from the bytes of a word sequence returns the words.
pub proof fn lemma_bytes_words_roundtrip(ws: Seq<u32>)
    ensures
        bytes_words(words_bytes(ws)) == ws,
    decreases ws.len(),
{
    lemma_auto_spec_u32_to_from_le_bytes();
    if ws.len() == 0 {
    } else {
        let bs = words_bytes(ws);
        lemma_words_bytes_len(ws.drop_first());
        assert(bs.take(4) =~= spec_u32_to_le_bytes(ws[0]));
        assert(bs.skip(4) =~= words_bytes(ws.drop_first()));
        lemma_bytes_words_roundtrip(ws.drop_first());
        assert(bytes_words(bs) =~= ws);
    }
}

/// Serialize a word vector into its byte layout.
pub fn words_to_bytes(ws: &Vec<u32>) -> (r: Vec<u8>)
    ensures
        r@ == words_bytes(ws@),
        r@.len() == 4 * ws@.len(),
{
    let mut r: Vec<u8> = Vec::new();
    let mut i: usize = 0;
    proof {
        assert(ws@.take(0) =~= Seq::<u32>::empty());
    }
    while i < ws.len()
        invariant
            i <= ws@.len(),
            r@ == words_bytes(ws@.take(i as int)),
        decreases ws@.len() - i,
    {
        let mut wordb = vstd::bytes::u32_to_le_bytes(ws[i]);
        r.append(&mut wordb);
        proof {
            assert(ws@.take(i as int + 1) =~= ws@.take(i as int).push(ws@[i as int]));
            lemma_words_bytes_push(ws@.take(i as int), ws@[i as int]);
        }
        i = i + 1;
    }
    proof {
        assert(ws@.take(ws@.len() as int) =~= ws@);
        lemma_words_bytes_len(ws@);
    }
    r
}

/// Serialize a 16-bit word vector into its byte layout.
pub fn words16_to_bytes(ws: &Vec<u16>) -> (r: Vec<u8>)
    ensures
        r@ == words16_bytes(ws@),
        r@.len() == 2 * ws@.len(),
{
    let mut r: Vec<u8> = Vec::new();
    let mut i: usize = 0;
    proof {
        assert(ws@.take(0) =~= Seq::<u16>::empty());
    }
    while i < ws.len()
        invariant
            i <= ws@.len(),
            r@ == words16_bytes(ws@.take(i as int)),
        decreases ws@.len() - i,
    {
        let mut wordb = vstd::bytes::u16_to_le_bytes(ws[i]);
        r.append(&mut wordb);
        proof {
            assert(ws@.take(i as int + 1) =~= ws@.take(i as int).push(ws@[i as int]));
            lemma_words16_bytes_push(ws@.take(i as int), ws@[i as int]);
        }
        i = i + 1;
    }
    proof {
        assert(ws@.take(ws@.len() as int) =~= ws@);
        lemma_words16_bytes_len(ws@);
    }
    r
}

/// The sixteen words of a four-by-four matrix of float bit patterns, as a
/// vector.
pub fn mat4_to_words(m: &[u32; 16]) -> (r: Vec<u32>)
    ensures
        r@ == m@,
{
    let mut r: Vec<u32> = Vec::new();
    let mut i: usize = 0;
    while i < 16
        invariant
            i <= 16,
            m@.len() == 16,
            r@ == m@.take(i as int),
        decreases 16 - i,
    {
        r.push(m[i]);
        proof {
            assert(m@.take(i as int + 1) =~= m@.take(i as int).push(m@[i as int]));
        }
        i = i + 1;
    }
    proof {
        assert(m@.take(16) =~= m@);
    }
    r
}

/// An element-for-element copy of a vector of plain values.
pub fn copy_vec<T: Copy>(v: &Vec<T>) -> (r: Vec<T>)
    ensures
        r@ == v@,
{
    let mut r: Vec<T> = Vec::new();
    let mut i: usize = 0;
    while i < v.len()
        invariant
            i <= v@.len(),
            r@ == v@.take(i as int),
        decreases v@.len() - i,
    {
        r.push(v[i]);
        proof {
            assert(v@.take(i as int + 1) =~= v@.take(i as int).push(v@[i as int]));
        }
        i = i + 1;
    }
    proof {
        assert(v@.take(v@.len() as int) =~= v@);
    }
    r
}

/// Read a word vector back out of its byte layout.
pub fn bytes_to_words(bs: &Vec<u8>) -> (r: Vec<u32>)
    ensures
        r@ == bytes_words(bs@),
{
    let mut r: Vec<u32> = Vec::new();
    let mut i: usize = 0;
    while i < bs.len() && bs.len() - i >= 4
        invariant
            i <= bs@.len(),
            i % 4 == 0,
            r@ == bytes_words(bs@.take(i as int)),
        decreases bs@.len() - i,
    {
        let mut window: Vec<u8> = Vec::new();
        window.push(bs[i]);
        window.push(bs[i + 1]);
        window.push(bs[i + 2]);
        window.push(bs[i + 3]);
        let w = vstd::bytes::u32_from_le_bytes(window.as_slice());
        proof {
            let pre = bs@.take(i as int);
            let win = bs@.subrange(i as int, i as int + 4);
            assert(window@ =~= win);
            assert(w == spec_u32_from_le_bytes(win));
            assert(bs@.take(i as int + 4) =~= pre + win);
            lemma_bytes_words_prefix(pre, win);
            assert(win.take(4) =~= win);
            assert(win.skip(4) =~= Seq::<u8>::empty());
            assert(bytes_words(Seq::<u8>::empty()) =~= Seq::<u32>::empty());
            assert(bytes_words(win) =~= seq![spec_u32_from_le_bytes(win)]);
            assert(bytes_words(bs@.take(i as int + 4)) =~= bytes_words(pre).push(w));
        }
        r.push(w);
        i = i + 4;
    }
    proof {
        let pre = bs@.take(i as int);
        let post = bs@.skip(i as int);
        lemma_bytes_words_prefix(pre, post);
        assert(pre + post =~= bs@);
        assert(post.len() < 4);
        assert(bytes_words(post) =~= Seq::<u32>::empty());
        assert(r@ =~= bytes_words(bs@));
    }
    r
}

} // verus!
