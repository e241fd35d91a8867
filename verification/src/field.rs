//! Field elements on the wire: non-negative integers below `2^256` as exactly
//! 32 bytes, most significant byte first.

use vstd::prelude::*;

verus! {

/// Length of an encoded field element in bytes.
pub const FIELD_BYTES: usize = 32;

/// `256^k`.
pub open spec fn exp256(k: nat) -> nat
    decreases k,
{
    if k == 0 {
        1
    } else {
        256 * exp256((k - 1) as nat)
    }
}

/// The first integer that no field element can hold: `2^256`.
pub open spec fn field_bound() -> nat {
    exp256(32)
}

/// The integer that a big-endian byte string denotes.
pub open spec fn be_value(bytes: Seq<u8>) -> nat
    decreases bytes.len(),
{
    if bytes.len() == 0 {
        0
    } else {
        256 * be_value(bytes.drop_last()) + bytes.last() as nat
    }
}

/// The `len` low-order bytes of `n`, most significant first.
pub open spec fn be_bytes(n: nat, len: nat) -> Seq<u8>
    decreases len,
{
    if len == 0 {
        Seq::empty()
    } else {
        be_bytes(n / 256, (len - 1) as nat).push((n % 256) as u8)
    }
}

/// `k` zero bytes.
pub open spec fn zeros(k: nat) -> Seq<u8> {
    Seq::new(k, |i: int| 0u8)
}

/// Byte-wise lexicographic order, as `<` on byte slices.
pub open spec fn lex_less(x: Seq<u8>, y: Seq<u8>) -> bool
    decreases x.len(),
{
    if x.len() == 0 || y.len() == 0 {
        x.len() < y.len()
    } else if x[0] != y[0] {
        x[0] < y[0]
    } else {
        lex_less(x.skip(1), y.skip(1))
    }
}

/// The byte strings that a list of field elements holds.
pub open spec fn element_bytes(elements: Seq<[u8; 32]>) -> Seq<Seq<u8>> {
    Seq::new(elements.len(), |i: int| elements[i]@)
}

/// A byte string is minimal when it is not empty and carries no leading zero
/// byte besides the single byte of zero itself.
pub open spec fn is_minimal_be(bytes: Seq<u8>) -> bool {
    bytes.len() >= 1 && (bytes.len() > 1 ==> bytes[0] != 0)
}

/// A power of 256 is at least one.
pub proof fn lemma_exp256_positive(k: nat)
    ensures
        exp256(k) >= 1,
    decreases k,
{
    if k > 0 {
        lemma_exp256_positive((k - 1) as nat);
    }
}

/// A higher power of 256 is no smaller.
pub proof fn lemma_exp256_monotonic(j: nat, k: nat)
    requires
        j <= k,
    ensures
        exp256(j) <= exp256(k),
    decreases k,
{
    if j < k {
        lemma_exp256_monotonic(j, (k - 1) as nat);
        lemma_exp256_positive((k - 1) as nat);
    }
}

/// The encoding at a length has that length.
pub proof fn lemma_be_bytes_len(n: nat, len: nat)
    ensures
        be_bytes(n, len).len() == len,
    decreases len,
{
    if len > 0 {
        lemma_be_bytes_len(n / 256, (len - 1) as nat);
    }
}

/// A byte string of length `k` denotes a number below `256^k`.
pub proof fn lemma_be_value_bound(bytes: Seq<u8>)
    ensures
        be_value(bytes) < exp256(bytes.len()),
    decreases bytes.len(),
{
    if bytes.len() > 0 {
        lemma_be_value_bound(bytes.drop_last());
    }
}

/// Encoding then reading gives the number back, where it fits.
pub proof fn lemma_be_value_of_bytes(n: nat, len: nat)
    requires
        n < exp256(len),
    ensures
        be_value(be_bytes(n, len)) == n,
    decreases len,
{
    if len > 0 {
        let rest = be_bytes(n / 256, (len - 1) as nat);
        lemma_be_value_of_bytes(n / 256, (len - 1) as nat);
        assert(be_bytes(n, len).drop_last() =~= rest);
    }
}

/// Reading then encoding at the same length gives the bytes back: no two byte
/// strings of one length denote the same number.
pub proof fn lemma_be_bytes_of_value(bytes: Seq<u8>)
    ensures
        be_bytes(be_value(bytes), bytes.len()) == bytes,
    decreases bytes.len(),
{
    if bytes.len() > 0 {
        lemma_be_bytes_of_value(bytes.drop_last());
        let v = be_value(bytes);
        let hi = be_value(bytes.drop_last());
        assert(v / 256 == hi && v % 256 == bytes.last() as nat) by {
            assert(v == 256 * hi + bytes.last() as nat);
        }
        assert(be_bytes(v, bytes.len()) =~= bytes);
    } else {
        assert(be_bytes(be_value(bytes), bytes.len()) =~= bytes);
    }
}

/// Zero bytes in front change nothing.
pub proof fn lemma_be_value_leading_zeros(k: nat, bytes: Seq<u8>)
    ensures
        be_value(zeros(k) + bytes) == be_value(bytes),
    decreases bytes.len(),
{
    if bytes.len() == 0 {
        assert(zeros(k) + bytes =~= zeros(k));
        lemma_be_value_zeros(k);
    } else {
        lemma_be_value_leading_zeros(k, bytes.drop_last());
        assert((zeros(k) + bytes).drop_last() =~= zeros(k) + bytes.drop_last());
    }
}

/// Zero bytes denote zero.
pub proof fn lemma_be_value_zeros(k: nat)
    ensures
        be_value(zeros(k)) == 0,
    decreases k,
{
    if k > 0 {
        lemma_be_value_zeros((k - 1) as nat);
        assert(zeros(k).drop_last() =~= zeros((k - 1) as nat));
    }
}

/// The value split at the first byte.
pub proof fn lemma_be_value_front(bytes: Seq<u8>)
    requires
        bytes.len() > 0,
    ensures
        be_value(bytes) == bytes[0] as nat * exp256((bytes.len() - 1) as nat) + be_value(
            bytes.skip(1),
        ),
    decreases bytes.len(),
{
    let f = bytes[0] as nat;
    let last = bytes.last() as nat;
    let tail = bytes.skip(1);
    let init = bytes.drop_last();
    let whole = be_value(bytes);
    let high = exp256((bytes.len() - 1) as nat);
    assert(whole == 256 * be_value(init) + last);
    if bytes.len() == 1 {
        assert(init =~= Seq::<u8>::empty());
        assert(tail =~= Seq::<u8>::empty());
        assert(be_value(init) == 0);
        assert(be_value(tail) == 0);
        assert(high == 1);
        assert(last == f);
        assert(whole == f * high + be_value(tail)) by (nonlinear_arith)
            requires
                whole == f,
                high == 1,
                be_value(tail) == 0,
        ;
    } else {
        lemma_be_value_front(init);
        assert(init.skip(1) =~= tail.drop_last());
        assert(tail.last() == bytes.last());
        assert(init[0] == bytes[0]);
        let p = exp256((init.len() - 1) as nat);
        let m = be_value(init.skip(1));
        let mid = be_value(init);
        let low = be_value(tail);
        assert(high == 256 * p);
        assert(mid == f * p + m);
        assert(low == 256 * m + last);
        assert(whole == f * high + low) by (nonlinear_arith)
            requires
                whole == 256 * mid + last,
                mid == f * p + m,
                low == 256 * m + last,
                high == 256 * p,
        ;
    }
}

/// A minimal byte string of length `k` denotes at least `256^(k-1)`, unless it
/// is the single zero byte.
pub proof fn lemma_be_value_lower(bytes: Seq<u8>)
    requires
        bytes.len() > 0,
        bytes[0] != 0,
    ensures
        be_value(bytes) >= exp256((bytes.len() - 1) as nat),
{
    lemma_be_value_front(bytes);
    let p = exp256((bytes.len() - 1) as nat);
    let f = bytes[0] as nat;
    assert(f * p >= p) by (nonlinear_arith)
        requires
            f >= 1,
    ;
}

/// On byte strings of one length, the numeric order and the byte-wise order agree.
pub proof fn lemma_order_agrees(x: Seq<u8>, y: Seq<u8>)
    requires
        x.len() == y.len(),
    ensures
        be_value(x) < be_value(y) <==> lex_less(x, y),
    decreases x.len(),
{
    if x.len() > 0 {
        lemma_be_value_front(x);
        lemma_be_value_front(y);
        lemma_be_value_bound(x.skip(1));
        lemma_be_value_bound(y.skip(1));
        let p = exp256((x.len() - 1) as nat);
        let a = x[0] as nat;
        let b = y[0] as nat;
        if a == b {
            lemma_order_agrees(x.skip(1), y.skip(1));
        } else if a < b {
            assert(a * p + p <= b * p) by (nonlinear_arith)
                requires
                    a + 1 <= b,
            ;
        } else {
            assert(b * p + p <= a * p) by (nonlinear_arith)
                requires
                    b + 1 <= a,
            ;
        }
    }
}

/// Encoding preserves order: of two integers below `2^256`, the smaller has the
/// encoding that comes first byte by byte.
pub proof fn lemma_encoding_preserves_order(a: nat, b: nat)
    requires
        a < b,
        b < field_bound(),
    ensures
        lex_less(be_bytes(a, 32), be_bytes(b, 32)),
{
    lemma_be_bytes_len(a, 32);
    lemma_be_bytes_len(b, 32);
    lemma_be_value_of_bytes(a, 32);
    lemma_be_value_of_bytes(b, 32);
    lemma_order_agrees(be_bytes(a, 32), be_bytes(b, 32));
}

/// Pads a big-endian byte string with zero bytes in front to the width of a
/// field element. `None` where it is longer than that.
pub fn pad_to_field(be: &[u8]) -> (r: Option<[u8; 32]>)
    ensures
        match r {
            Some(out) => be@.len() <= 32 && out@ == zeros((32 - be@.len()) as nat) + be@,
            None => be@.len() > 32,
        },
{
    let len = be.len();
    if len > 32 {
        return None;
    }
    let offset = 32 - len;
    let mut out = [0u8; 32];
    let mut i: usize = 0;
    while i < len
        invariant
            len == be@.len(),
            len <= 32,
            offset == 32 - len,
            i <= len,
            forall|j: int| 0 <= j < offset ==> out@[j] == 0u8,
            forall|j: int| 0 <= j < i ==> out@[offset + j] == be@[j],
        decreases len - i,
    {
        out[offset + i] = be[i];
        i += 1;
    }
    assert(out@ =~= zeros((32 - be@.len()) as nat) + be@);
    Some(out)
}

} // verus!
