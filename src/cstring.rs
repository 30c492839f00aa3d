use vstd::prelude::*;

use vstd::utf8::encode_utf8;

use crate::error::BindingError;

verus! {

/// No byte of `b` is a nul.
pub open spec fn nul_free(b: Seq<u8>) -> bool {
    forall|i: int| 0 <= i < b.len() ==> b[i] != 0u8
}

/// `i` is the offset of the first nul byte of `b`.
pub open spec fn is_first_nul(b: Seq<u8>, i: int) -> bool {
    0 <= i < b.len() && b[i] == 0u8 && nul_free(b.take(i))
}

/// The offset of the first nul byte of `b` (meaningful when `b` holds one).
pub open spec fn first_nul(b: Seq<u8>) -> int {
    choose|i: int| is_first_nul(b, i)
}

/// What the native side receives for the bytes `b`: the bytes followed by a
/// terminating nul, or the offset of the nul that makes this impossible.
pub open spec fn c_string_of(b: Seq<u8>) -> Result<Seq<u8>, BindingError> {
    if nul_free(b) {
        Ok(b.push(0u8))
    } else {
        Err(BindingError::InteriorNul { position: first_nul(b) as usize })
    }
}

/// The bytes of a nul-terminated buffer before its terminator.
pub open spec fn bytes_of_c(b: Seq<u8>) -> Result<Seq<u8>, BindingError> {
    if nul_free(b) {
        Err(BindingError::MissingTerminator)
    } else {
        Ok(b.take(first_nul(b)))
    }
}

/// At most one offset is the first nul of a sequence.
pub proof fn lemma_first_nul_unique(b: Seq<u8>, i: int, j: int)
    requires
        is_first_nul(b, i),
        is_first_nul(b, j),
    ensures
        i == j,
{
    if i < j {
        assert(b.take(j)[i] == 0u8);
    } else if j < i {
        assert(b.take(i)[j] == 0u8);
    }
}

/// Once a witness is known, `first_nul` is that witness.
pub proof fn lemma_first_nul_is(b: Seq<u8>, i: int)
    requires
        is_first_nul(b, i),
    ensures
        first_nul(b) == i,
        !nul_free(b),
{
    lemma_first_nul_unique(b, i, first_nul(b));
}

/// Scans `b` for a nul byte: returns the offset of the first one, or `b.len()`.
fn scan_nul(b: &[u8]) -> (r: usize)
    ensures
        r <= b@.len(),
        r == b@.len() ==> nul_free(b@),
        r < b@.len() ==> is_first_nul(b@, r as int),
{
    let mut i: usize = 0;
    while i < b.len()
        invariant
            i <= b@.len(),
            nul_free(b@.take(i as int)),
        decreases b@.len() - i,
    {
        if b[i] == 0u8 {
            return i;
        }
        assert(b@.take(i as int + 1) =~= b@.take(i as int).push(b@[i as int]));
        i = i + 1;
    }
    assert(b@.take(i as int) =~= b@);
    i
}

/// Builds the nul-terminated form of `s` that a native call expects.
///
/// Fails with `InteriorNul` exactly when the UTF-8 bytes of `s` hold a nul,
/// naming the offset of the first one; the string is never truncated.
pub fn to_c_bytes(s: &str) -> (r: Result<Vec<u8>, BindingError>)
    ensures
        match r {
            Ok(v) => c_string_of(encode_utf8(s@)) == Ok::<Seq<u8>, BindingError>(v@),
            Err(e) => c_string_of(encode_utf8(s@)) == Err::<Seq<u8>, BindingError>(e),
        },
        r is Ok <==> nul_free(encode_utf8(s@)),
{
    let b = s.as_bytes();
    let n = scan_nul(b);
    if n < b.len() {
        proof {
            lemma_first_nul_is(b@, n as int);
        }
        return Err(BindingError::InteriorNul { position: n });
    }
    let mut v: Vec<u8> = Vec::with_capacity(b.len());
    let mut i: usize = 0;
    while i < b.len()
        invariant
            i <= b@.len(),
            v@ == b@.take(i as int),
        decreases b@.len() - i,
    {
        v.push(b[i]);
        assert(b@.take(i as int + 1) =~= b@.take(i as int).push(b@[i as int]));
        i = i + 1;
    }
    assert(v@ =~= b@);
    v.push(0u8);
    Ok(v)
}

/// Copies the bytes of a nul-terminated buffer that precede its terminator.
///
/// Fails with `MissingTerminator` exactly when `buf` holds no nul byte.
pub fn c_bytes_prefix(buf: &[u8]) -> (r: Result<Vec<u8>, BindingError>)
    ensures
        match r {
            Ok(v) => bytes_of_c(buf@) == Ok::<Seq<u8>, BindingError>(v@),
            Err(e) => bytes_of_c(buf@) == Err::<Seq<u8>, BindingError>(e),
        },
        r is Ok <==> !nul_free(buf@),
{
    let n = scan_nul(buf);
    if n == buf.len() {
        return Err(BindingError::MissingTerminator);
    }
    proof {
        lemma_first_nul_is(buf@, n as int);
    }
    let mut v: Vec<u8> = Vec::with_capacity(n);
    let mut i: usize = 0;
    while i < n
        invariant
            n < buf@.len(),
            i <= n,
            v@ == buf@.take(i as int),
        decreases n - i,
    {
        v.push(buf[i]);
        assert(buf@.take(i as int + 1) =~= buf@.take(i as int).push(buf@[i as int]));
        i = i + 1;
    }
    Ok(v)
}

/// Byte sequences survive the trip to a native string and back: the bytes
/// before the terminator of the encoded form are the original bytes.
pub proof fn lemma_c_bytes_round_trip(b: Seq<u8>)
    requires
        nul_free(b),
    ensures
        c_string_of(b) == Ok::<Seq<u8>, BindingError>(b.push(0u8)),
        bytes_of_c(b.push(0u8)) == Ok::<Seq<u8>, BindingError>(b),
{
    let e = b.push(0u8);
    assert(e.take(b.len() as int) =~= b);
    lemma_first_nul_is(e, b.len() as int);
}

} // verus!
