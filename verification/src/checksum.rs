use vstd::prelude::*;
use crate::encoder::body;
use crate::encoder::checksum;
use crate::encoder::payload;
use crate::encoder::xor_fold;
use crate::model::FunctionView;

verus! {

/// What the seven header bytes under the checksum fold to.
pub const HEADER_FOLD: u8 = 0x05;

proof fn lemma_xor_facts(a: u8, b: u8, c: u8)
    by (bit_vector)
    ensures
        a ^ 0 == a,
        0 ^ a == a,
        (a ^ b) ^ c == a ^ (b ^ c),
        ((((((0u8 ^ 0) ^ 0) ^ 0) ^ 0x0a) ^ 0x02) ^ 0x0c) ^ 0x01 == 0x05,
{
}

/// Folding one more byte.
pub proof fn lemma_fold_push(s: Seq<u8>, b: u8)
    ensures
        xor_fold(s.push(b)) == xor_fold(s) ^ b,
{
    assert(s.push(b).drop_last() =~= s);
}

/// The fold of two sequences joined is the fold of their folds.
pub proof fn lemma_fold_concat(s: Seq<u8>, t: Seq<u8>)
    ensures
        xor_fold(s + t) == xor_fold(s) ^ xor_fold(t),
    decreases t.len(),
{
    if t.len() == 0 {
        assert(s + t =~= s);
        lemma_xor_facts(xor_fold(s), 0, 0);
    } else {
        assert((s + t).drop_last() =~= s + t.drop_last());
        lemma_fold_concat(s, t.drop_last());
        lemma_xor_facts(xor_fold(s), xor_fold(t.drop_last()), t.last());
    }
}

/// Zeros fold to zero.
pub proof fn lemma_fold_zeros(n: nat)
    ensures
        xor_fold(Seq::new(n, |i: int| 0u8)) == 0,
    decreases n,
{
    if n > 0 {
        assert(Seq::new(n, |i: int| 0u8).drop_last() =~= Seq::new((n - 1) as nat, |i: int| 0u8));
        lemma_fold_zeros((n - 1) as nat);
        lemma_xor_facts(0, 0, 0);
    }
}

/// The checksum of a report is the fold of its payload and of the header
/// bytes under the checksum, which are the same in every report: the zeros
/// after the payload add nothing. Written out, it is the fold of that
/// constant and the nine payload bytes.
pub proof fn lemma_checksum_of_payload(f: FunctionView)
    ensures
        checksum(f) == HEADER_FOLD ^ xor_fold(payload(f)),
        checksum(f) == HEADER_FOLD ^ (payload(f)[0] ^ payload(f)[1] ^ payload(f)[2] ^ payload(
            f,
        )[3] ^ payload(f)[4] ^ payload(f)[5] ^ payload(f)[6] ^ payload(f)[7] ^ payload(f)[8]),
{
    let e = Seq::<u8>::empty();
    let tail = e.push(0).push(0).push(0).push(0x0a).push(0x02).push(0x0c).push(0x01);
    let zeros = Seq::new(70, |i: int| 0u8);
    assert(body(f).subrange(3, 89) =~= tail + payload(f) + zeros);
    lemma_fold_push(e, 0);
    lemma_fold_push(e.push(0), 0);
    lemma_fold_push(e.push(0).push(0), 0);
    lemma_fold_push(e.push(0).push(0).push(0), 0x0a);
    lemma_fold_push(e.push(0).push(0).push(0).push(0x0a), 0x02);
    lemma_fold_push(e.push(0).push(0).push(0).push(0x0a).push(0x02), 0x0c);
    lemma_fold_push(e.push(0).push(0).push(0).push(0x0a).push(0x02).push(0x0c), 0x01);
    lemma_xor_facts(0, 0, 0);
    assert(xor_fold(tail) == HEADER_FOLD);
    lemma_fold_concat(tail + payload(f), zeros);
    lemma_fold_concat(tail, payload(f));
    lemma_fold_zeros(70);
    lemma_xor_facts(HEADER_FOLD ^ xor_fold(payload(f)), 0, 0);

    let p = payload(f);
    let s1 = e.push(p[0]);
    let s2 = s1.push(p[1]);
    let s3 = s2.push(p[2]);
    let s4 = s3.push(p[3]);
    let s5 = s4.push(p[4]);
    let s6 = s5.push(p[5]);
    let s7 = s6.push(p[6]);
    let s8 = s7.push(p[7]);
    let s9 = s8.push(p[8]);
    assert(p =~= s9);
    lemma_fold_push(e, p[0]);
    lemma_fold_push(s1, p[1]);
    lemma_fold_push(s2, p[2]);
    lemma_fold_push(s3, p[3]);
    lemma_fold_push(s4, p[4]);
    lemma_fold_push(s5, p[5]);
    lemma_fold_push(s6, p[6]);
    lemma_fold_push(s7, p[7]);
    lemma_fold_push(s8, p[8]);
    lemma_xor_facts(p[0], 0, 0);
}

} // verus!
