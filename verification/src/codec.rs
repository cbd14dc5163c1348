//! Big-endian encoding of the integers and length prefixes that TLS messages are built from.
use vstd::prelude::*;
use crate::enums::CodePoint;

verus! {

/// One byte holding `n` modulo 256.
pub open spec fn u8_be(n: nat) -> Seq<u8> {
    seq![(n % 256) as u8]
}

/// Two bytes holding `n` modulo 65536, most significant byte first.
pub open spec fn u16_be(n: nat) -> Seq<u8> {
    seq![((n / 256) % 256) as u8, (n % 256) as u8]
}

/// The encoding of a list of 16-bit code points, each written big-endian.
pub open spec fn u16_items(vals: Seq<u16>) -> Seq<u8>
    decreases vals.len(),
{
    if vals.len() == 0 {
        Seq::empty()
    } else {
        u16_items(vals.drop_last()) + u16_be(vals.last() as nat)
    }
}

/// Appends `v` as two big-endian bytes.
pub fn put_u16(v: u16, bytes: &mut Vec<u8>)
    ensures
        final(bytes)@ == old(bytes)@ + u16_be(v as nat),
{
    let hi: u16 = v / 256;
    let lo: u16 = v % 256;
    bytes.push(hi as u8);
    bytes.push(lo as u8);
    assert(final(bytes)@ =~= old(bytes)@ + u16_be(v as nat));
}

/// Appends a two-byte length prefix for a body of `n` bytes; the prefix keeps `n` modulo 65536.
pub fn put_u16_len(n: usize, bytes: &mut Vec<u8>)
    ensures
        final(bytes)@ == old(bytes)@ + u16_be(n as nat),
{
    let hi: usize = (n / 256) % 256;
    let lo: usize = n % 256;
    bytes.push(hi as u8);
    bytes.push(lo as u8);
    assert(final(bytes)@ =~= old(bytes)@ + u16_be(n as nat));
}

/// Appends a one-byte length prefix for a body of `n` bytes; the prefix keeps `n` modulo 256.
pub fn put_u8_len(n: usize, bytes: &mut Vec<u8>)
    ensures
        final(bytes)@ == old(bytes)@ + u8_be(n as nat),
{
    let lo: usize = n % 256;
    bytes.push(lo as u8);
    assert(final(bytes)@ =~= old(bytes)@ + u8_be(n as nat));
}

/// Appends all of `data`.
pub fn put_bytes(data: &[u8], bytes: &mut Vec<u8>)
    ensures
        final(bytes)@ == old(bytes)@ + data@,
{
    let mut i: usize = 0;
    let ghost start = bytes@;
    while i < data.len()
        invariant
            i <= data@.len(),
            bytes@ == start + data@.take(i as int),
        decreases data@.len() - i,
    {
        bytes.push(data[i]);
        i = i + 1;
        assert(bytes@ =~= start + data@.take(i as int));
    }
    assert(data@.take(i as int) =~= data@);
}

/// A fresh vector holding the same bytes as `data`.
pub fn bytes_to_vec(data: &[u8]) -> (v: Vec<u8>)
    ensures
        v@ == data@,
{
    let mut v: Vec<u8> = Vec::new();
    put_bytes(data, &mut v);
    assert(v@ =~= data@);
    v
}


/// The concatenation of `f(x)` over the items `x` of `s`, in order.
pub open spec fn flatten_with<T>(s: Seq<T>, f: spec_fn(T) -> Seq<u8>) -> Seq<u8>
    decreases s.len(),
{
    if s.len() == 0 {
        Seq::empty()
    } else {
        flatten_with(s.drop_last(), f) + f(s.last())
    }
}

/// Extending a prefix of `s` by one item extends its flattening by that item's bytes.
pub proof fn lemma_flatten_take_step<T>(s: Seq<T>, f: spec_fn(T) -> Seq<u8>, i: int)
    requires
        0 <= i < s.len(),
    ensures
        flatten_with(s.take(i + 1), f) == flatten_with(s.take(i), f) + f(s[i]),
{
    assert(s.take(i + 1).drop_last() =~= s.take(i));
}

/// The flattening of a sequence with one more item at the end.
pub proof fn lemma_flatten_push<T>(s: Seq<T>, f: spec_fn(T) -> Seq<u8>, x: T)
    ensures
        flatten_with(s.push(x), f) == flatten_with(s, f) + f(x),
{
    assert(s.push(x).drop_last() =~= s);
}

/// The encoding of a list of code points: each one as two big-endian bytes.
pub open spec fn code_items<T: CodePoint>(s: Seq<T>) -> Seq<u8> {
    flatten_with(s, |x: T| u16_be(x.code() as nat))
}

/// Appends each item's code point as two big-endian bytes.
pub fn put_code_items<T: CodePoint>(items: &Vec<T>, bytes: &mut Vec<u8>)
    ensures
        final(bytes)@ == old(bytes)@ + code_items(items@),
{
    let ghost start = bytes@;
    let ghost f = |x: T| u16_be(x.code() as nat);
    let mut i: usize = 0;
    assert(items@.take(0) =~= Seq::<T>::empty());
    while i < items.len()
        invariant
            i <= items@.len(),
            f == (|x: T| u16_be(x.code() as nat)),
            bytes@ == start + flatten_with(items@.take(i as int), f),
        decreases items@.len() - i,
    {
        let v = items[i].code_point();
        put_u16(v, bytes);
        proof {
            lemma_flatten_take_step(items@, f, i as int);
            assert(bytes@ =~= start + flatten_with(items@.take(i + 1), f));
        }
        i = i + 1;
    }
    assert(items@.take(i as int) =~= items@);
}


/// `n` zero bytes.
pub fn zero_bytes(n: usize) -> (v: Vec<u8>)
    ensures
        v@ == Seq::new(n as nat, |i: int| 0u8),
{
    let mut v: Vec<u8> = Vec::new();
    let mut i: usize = 0;
    while i < n
        invariant
            i <= n,
            v@ == Seq::new(i as nat, |k: int| 0u8),
        decreases n - i,
    {
        v.push(0u8);
        i = i + 1;
        assert(v@ =~= Seq::new(i as nat, |k: int| 0u8));
    }
    v
}

} // verus!
