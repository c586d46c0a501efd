//! Little-endian encoding of the integers and byte arrays that make up the
//! structures of an image in memory.
use vstd::bytes::*;
use vstd::prelude::*;

verus! {

broadcast use vstd::seq::group_seq_axioms;

/// `n` zero bytes.
pub open spec fn zeros(n: nat) -> Seq<u8> {
    Seq::new(n, |i: int| 0u8)
}

/// `n` copies of `b`, one after the other.
pub open spec fn repeat_bytes(b: Seq<u8>, n: nat) -> Seq<u8>
    decreases n,
{
    if n == 0 {
        Seq::empty()
    } else {
        repeat_bytes(b, (n - 1) as nat) + b
    }
}

/// `n` copies of `b` take `n` times as many bytes as `b`.
pub proof fn lemma_repeat_bytes_len(b: Seq<u8>, n: nat)
    ensures
        repeat_bytes(b, n).len() == n * b.len(),
    decreases n,
{
    if n > 0 {
        lemma_repeat_bytes_len(b, (n - 1) as nat);
        let m = (n - 1) as nat;
        assert(repeat_bytes(b, n) == repeat_bytes(b, m) + b);
        assert(n * b.len() == m * b.len() + b.len()) by (nonlinear_arith)
            requires
                m == n - 1,
        ;
    } else {
        assert(n * b.len() == 0) by (nonlinear_arith)
            requires
                n == 0,
        ;
    }
}

/// The two's-complement bytes of an `i32`.
pub open spec fn enc_i32(x: i32) -> Seq<u8> {
    spec_u32_to_le_bytes(x as u32)
}

/// The `i32` whose two's-complement bytes are `s`.
pub open spec fn dec_i32(s: Seq<u8>) -> i32 {
    spec_u32_from_le_bytes(s) as i32
}

/// The two's-complement bytes of an `i64`.
pub open spec fn enc_i64(x: i64) -> Seq<u8> {
    spec_u64_to_le_bytes(x as u64)
}

/// The bytes of an array of C characters.
pub open spec fn enc_chars(a: Seq<i8>) -> Seq<u8> {
    a.map_values(|x: i8| x as u8)
}

/// The C characters whose bytes are `s`.
pub open spec fn dec_chars(s: Seq<u8>) -> Seq<i8> {
    s.map_values(|x: u8| x as i8)
}

/// Decoding the encoding of any integer or character array gives it back.
pub proof fn lemma_integer_encodings_roundtrip()
    ensures
        forall|x: u16|
            #![trigger spec_u16_to_le_bytes(x)]
            spec_u16_to_le_bytes(x).len() == 2 && spec_u16_from_le_bytes(spec_u16_to_le_bytes(x))
                == x,
        forall|x: u32|
            #![trigger spec_u32_to_le_bytes(x)]
            spec_u32_to_le_bytes(x).len() == 4 && spec_u32_from_le_bytes(spec_u32_to_le_bytes(x))
                == x,
        forall|x: u64|
            #![trigger spec_u64_to_le_bytes(x)]
            spec_u64_to_le_bytes(x).len() == 8 && spec_u64_from_le_bytes(spec_u64_to_le_bytes(x))
                == x,
        forall|x: i32| #![trigger enc_i32(x)] enc_i32(x).len() == 4 && dec_i32(enc_i32(x)) == x,
        forall|a: Seq<i8>| #![trigger enc_chars(a)] enc_chars(a).len() == a.len() && dec_chars(enc_chars(a)) == a,
{
    lemma_auto_spec_u16_to_from_le_bytes();
    lemma_auto_spec_u32_to_from_le_bytes();
    lemma_auto_spec_u64_to_from_le_bytes();
    assert forall|x: u16| #![trigger spec_u16_to_le_bytes(x)]
        spec_u16_to_le_bytes(x).len() == 2 && spec_u16_from_le_bytes(spec_u16_to_le_bytes(x)) == x by {
    }
    assert forall|x: u32| #![trigger spec_u32_to_le_bytes(x)]
        spec_u32_to_le_bytes(x).len() == 4 && spec_u32_from_le_bytes(spec_u32_to_le_bytes(x)) == x by {
    }
    assert forall|x: i32| #![trigger enc_i32(x)] enc_i32(x).len() == 4 && dec_i32(enc_i32(x)) == x by {
        assert(((x as u32) as i32) == x) by (bit_vector);
    }
    assert forall|a: Seq<i8>| #![trigger enc_chars(a)] enc_chars(a).len() == a.len() && dec_chars(enc_chars(a)) == a by {
        assert forall|i: int| 0 <= i < a.len() implies #[trigger] dec_chars(enc_chars(a))[i] == a[i] by {
            let x = a[i];
            assert(((x as u8) as i8) == x) by (bit_vector);
        }
        assert(dec_chars(enc_chars(a)) =~= a);
    }
}

/// Appends `s` to `v`.
pub fn push_all(v: &mut Vec<u8>, s: Vec<u8>)
    ensures
        final(v)@ == old(v)@ + s@,
{
    let mut s = s;
    v.append(&mut s);
}

/// Appends one byte.
pub fn push_u8(v: &mut Vec<u8>, x: u8)
    ensures
        final(v)@ == old(v)@ + seq![x],
{
    v.push(x);
}

/// Appends the little-endian bytes of a `u16`.
pub fn push_u16(v: &mut Vec<u8>, x: u16)
    ensures
        final(v)@ == old(v)@ + spec_u16_to_le_bytes(x),
{
    push_all(v, u16_to_le_bytes(x));
}

/// Appends the little-endian bytes of a `u32`.
pub fn push_u32(v: &mut Vec<u8>, x: u32)
    ensures
        final(v)@ == old(v)@ + spec_u32_to_le_bytes(x),
{
    push_all(v, u32_to_le_bytes(x));
}

/// Appends the little-endian bytes of a `u64`.
pub fn push_u64(v: &mut Vec<u8>, x: u64)
    ensures
        final(v)@ == old(v)@ + spec_u64_to_le_bytes(x),
{
    push_all(v, u64_to_le_bytes(x));
}

/// Appends the little-endian two's-complement bytes of an `i32`.
pub fn push_i32(v: &mut Vec<u8>, x: i32)
    ensures
        final(v)@ == old(v)@ + enc_i32(x),
{
    push_u32(v, x as u32);
}

/// Appends the little-endian two's-complement bytes of an `i64`.
pub fn push_i64(v: &mut Vec<u8>, x: i64)
    ensures
        final(v)@ == old(v)@ + enc_i64(x),
{
    push_u64(v, x as u64);
}

/// Appends the bytes of a byte array.
pub fn push_bytes(v: &mut Vec<u8>, a: &[u8])
    ensures
        final(v)@ == old(v)@ + a@,
{
    let ghost start = v@;
    let mut i: usize = 0;
    while i < a.len()
        invariant
            i <= a@.len(),
            v@ =~= start + a@.take(i as int),
        decreases a@.len() - i,
    {
        v.push(a[i]);
        assert(a@.take(i + 1) =~= a@.take(i as int).push(a@[i as int]));
        i = i + 1;
    }
    assert(a@.take(a@.len() as int) =~= a@);
}

/// Appends `n` copies of `b`.
pub fn push_repeated(v: &mut Vec<u8>, b: &[u8], n: usize)
    ensures
        final(v)@ == old(v)@ + repeat_bytes(b@, n as nat),
{
    let ghost start = v@;
    let mut i: usize = 0;
    while i < n
        invariant
            i <= n,
            v@ == start + repeat_bytes(b@, i as nat),
        decreases n - i,
    {
        push_bytes(v, b);
        assert(start + repeat_bytes(b@, (i + 1) as nat) =~= start + repeat_bytes(b@, i as nat) + b@);
        i = i + 1;
    }
}

/// Appends `n` zero bytes.
pub fn push_zeros(v: &mut Vec<u8>, n: usize)
    ensures
        final(v)@ == old(v)@ + zeros(n as nat),
{
    let ghost start = v@;
    let mut i: usize = 0;
    while i < n
        invariant
            i <= n,
            v@ =~= start + zeros(i as nat),
        decreases n - i,
    {
        v.push(0u8);
        i = i + 1;
    }
}

/// Appends the bytes of an array of C characters.
pub fn push_chars(v: &mut Vec<u8>, a: &[i8])
    ensures
        final(v)@ == old(v)@ + enc_chars(a@),
{
    let ghost start = v@;
    let mut i: usize = 0;
    while i < a.len()
        invariant
            i <= a@.len(),
            v@ =~= start + enc_chars(a@.take(i as int)),
        decreases a@.len() - i,
    {
        v.push(a[i] as u8);
        assert(a@.take(i + 1) =~= a@.take(i as int).push(a@[i as int]));
        i = i + 1;
    }
    assert(a@.take(a@.len() as int) =~= a@);
}

/// The `u16` stored at `off`.
pub fn read_u16(b: &[u8], off: usize) -> (r: u16)
    requires
        off + 2 <= b@.len(),
    ensures
        r == spec_u16_from_le_bytes(b@.subrange(off as int, off + 2)),
{
    let len = b.len();
    assert(off + 2 <= len);
    u16_from_le_bytes(vstd::slice::slice_subrange(b, off, off + 2))
}

/// The `u32` stored at `off`.
pub fn read_u32(b: &[u8], off: usize) -> (r: u32)
    requires
        off + 4 <= b@.len(),
    ensures
        r == spec_u32_from_le_bytes(b@.subrange(off as int, off + 4)),
{
    let len = b.len();
    assert(off + 4 <= len);
    u32_from_le_bytes(vstd::slice::slice_subrange(b, off, off + 4))
}

/// The `u64` stored at `off`.
pub fn read_u64(b: &[u8], off: usize) -> (r: u64)
    requires
        off + 8 <= b@.len(),
    ensures
        r == spec_u64_from_le_bytes(b@.subrange(off as int, off + 8)),
{
    let len = b.len();
    assert(off + 8 <= len);
    u64_from_le_bytes(vstd::slice::slice_subrange(b, off, off + 8))
}

/// The `i32` stored at `off`.
pub fn read_i32(b: &[u8], off: usize) -> (r: i32)
    requires
        off + 4 <= b@.len(),
    ensures
        r == dec_i32(b@.subrange(off as int, off + 4)),
{
    read_u32(b, off) as i32
}

/// The `N` C characters stored from `off`.
pub fn read_chars<const N: usize>(b: &[u8], off: usize) -> (r: [i8; N])
    requires
        off + N <= b@.len(),
    ensures
        r@ == dec_chars(b@.subrange(off as int, off + N)),
{
    let len = b.len();
    let mut r: [i8; N] = vstd::array::array_fill_for_copy_types::<i8, N>(0i8);
    let mut i: usize = 0;
    while i < N
        invariant
            i <= N,
            len == b@.len(),
            off + N <= b@.len(),
            r@.len() == N,
            forall|j: int| 0 <= j < i ==> r@[j] == (b@[off + j] as i8),
        decreases N - i,
    {
        r[i] = b[off + i] as i8;
        i = i + 1;
    }
    assert(r@ =~= dec_chars(b@.subrange(off as int, off + N)));
    r
}

} // verus!
