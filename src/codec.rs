use vstd::prelude::*;

verus! {

/// A 32-byte public key or hash.
pub type Address = [u8; 32];

/// The unsigned value of a little-endian byte string.
pub open spec fn le_value(s: Seq<u8>) -> nat
    decreases s.len(),
{
    if s.len() == 0 {
        0
    } else {
        s[0] as nat + 256 * le_value(s.drop_first())
    }
}

/// `256` to the power `n`.
pub open spec fn pow256(n: nat) -> nat
    decreases n,
{
    if n == 0 {
        1
    } else {
        256 * pow256((n - 1) as nat)
    }
}

/// The `width` low-order bytes of `x`, least significant first.
pub open spec fn le_bytes(x: nat, width: nat) -> Seq<u8>
    decreases width,
{
    if width == 0 {
        Seq::empty()
    } else {
        seq![(x % 256) as u8] + le_bytes(x / 256, (width - 1) as nat)
    }
}

/// The two's-complement bit pattern of a signed 64-bit value, as an unsigned number.
pub open spec fn i64_bits(x: i64) -> nat {
    if x >= 0 {
        x as nat
    } else {
        (x + 0x1_0000_0000_0000_0000int) as nat
    }
}

/// The signed 64-bit value whose two's-complement bit pattern is `u`.
pub open spec fn i64_from_bits(u: nat) -> int {
    if u < 0x8000_0000_0000_0000 {
        u as int
    } else {
        u - 0x1_0000_0000_0000_0000int
    }
}

/// The 32 bytes of `data` from `start` on, as a key.
pub open spec fn key_at(data: Seq<u8>, start: int) -> Address {
    choose|k: Address| k@ == data.subrange(start, start + 32)
}

pub proof fn lemma_pow256_small(n: nat)
    requires
        n <= 8,
    ensures
        pow256(n) <= pow256(8),
        pow256(8) == 0x1_0000_0000_0000_0000,
        pow256(2) == 0x1_0000,
    decreases 8 - n,
{
    reveal_with_fuel(pow256, 9);
    if n < 8 {
        lemma_pow256_small(n + 1);
    }
}

pub proof fn lemma_le_value_bound(s: Seq<u8>)
    ensures
        le_value(s) < pow256(s.len()),
    decreases s.len(),
{
    if s.len() > 0 {
        lemma_le_value_bound(s.drop_first());
    }
}

pub proof fn lemma_le_bytes_len(x: nat, width: nat)
    ensures
        le_bytes(x, width).len() == width,
    decreases width,
{
    if width > 0 {
        lemma_le_bytes_len(x / 256, (width - 1) as nat);
    }
}

/// Reading back the bytes of a value that fits gives the value.
pub proof fn lemma_le_round_trip(x: nat, width: nat)
    requires
        x < pow256(width),
    ensures
        le_value(le_bytes(x, width)) == x,
    decreases width,
{
    if width > 0 {
        let rest = le_bytes(x / 256, (width - 1) as nat);
        lemma_le_round_trip(x / 256, (width - 1) as nat);
        assert(le_bytes(x, width).drop_first() =~= rest);
    }
}

pub proof fn lemma_i64_bits_round_trip(x: i64)
    ensures
        i64_bits(x) < pow256(8),
        i64_from_bits(i64_bits(x)) == x,
{
    lemma_pow256_small(0);
}

/// A key read from 32 bytes is the key those bytes name.
pub proof fn lemma_key_at(data: Seq<u8>, start: int, k: Address)
    requires
        k@ == data.subrange(start, start + 32),
    ensures
        key_at(data, start) == k,
{
    let c = key_at(data, start);
    assert(c@ == data.subrange(start, start + 32));
    assert(c =~= k);
}

/// Byte-wise equality of two keys.
pub fn keys_equal(a: &Address, b: &Address) -> (r: bool)
    ensures
        r == (*a == *b),
{
    let mut i: usize = 0;
    while i < 32
        invariant
            i <= 32,
            forall|j: int| 0 <= j < i ==> a[j] == b[j],
        decreases 32 - i,
    {
        if a[i] != b[i] {
            assert(a@[i as int] != b@[i as int]);
            return false;
        }
        i = i + 1;
    }
    assert(*a =~= *b);
    true
}

/// The 32 bytes of `data` from `start` on.
pub fn read_key(data: &[u8], start: usize) -> (r: Address)
    requires
        start + 32 <= data@.len(),
    ensures
        r@ == data@.subrange(start as int, start + 32),
        r == key_at(data@, start as int),
{
    let mut out: Address = [0u8; 32];
    let n = data.len();
    let mut i: usize = 0;
    while i < 32
        invariant
            i <= 32,
            n == data@.len(),
            start + 32 <= data@.len(),
            forall|j: int| 0 <= j < i ==> out@[j] == data@[start + j],
        decreases 32 - i,
    {
        out[i] = data[start + i];
        i = i + 1;
    }
    assert(out@ =~= data@.subrange(start as int, start + 32));
    proof {
        lemma_key_at(data@, start as int, out);
    }
    out
}

/// The unsigned little-endian value of `width` bytes of `data` from `start` on.
pub fn read_le(data: &[u8], start: usize, width: usize) -> (r: u64)
    requires
        start + width <= data@.len(),
        width <= 8,
    ensures
        r == le_value(data@.subrange(start as int, start + width)),
{
    let mut acc: u64 = 0;
    let n = data.len();
    let mut i: usize = width;
    while i > 0
        invariant
            n == data@.len(),
            i <= width <= 8,
            start + width <= data@.len(),
            acc == le_value(data@.subrange(start + i, start + width)),
            acc < pow256((width - i) as nat),
        decreases i,
    {
        i = i - 1;
        let b = data[start + i];
        proof {
            let s = data@.subrange(start + i, start + width);
            assert(s.drop_first() =~= data@.subrange(start + i + 1, start + width));
            lemma_pow256_small((width - i - 1) as nat);
            lemma_pow256_small((width - i) as nat);
            assert(pow256((width - i) as nat) == 256 * pow256((width - i - 1) as nat));
        }
        acc = b as u64 + acc * 256;
    }
    assert(data@.subrange(start as int, start + width) =~= data@.subrange(start + i, start + width));
    acc
}

/// Appends the `width` low-order bytes of `x`, least significant first.
pub fn push_le(out: &mut Vec<u8>, x: u64, width: usize)
    ensures
        final(out)@ == old(out)@ + le_bytes(x as nat, width as nat),
{
    let ghost start = out@;
    let mut rest: u64 = x;
    let mut k: usize = 0;
    while k < width
        invariant
            k <= width,
            out@ + le_bytes(rest as nat, (width - k) as nat) == start + le_bytes(x as nat, width as nat),
        decreases width - k,
    {
        let b: u8 = (rest % 256) as u8;
        proof {
            let tail = le_bytes(rest as nat / 256, (width - k - 1) as nat);
            assert(le_bytes(rest as nat, (width - k) as nat) == seq![b] + tail);
            assert(out@ + (seq![b] + tail) =~= out@.push(b) + tail);
        }
        out.push(b);
        rest = rest / 256;
        k = k + 1;
    }
    assert(out@ + le_bytes(rest as nat, 0) =~= out@);
}

/// Appends all bytes of `src`.
pub fn push_bytes(out: &mut Vec<u8>, src: &[u8])
    ensures
        final(out)@ == old(out)@ + src@,
{
    let ghost start = out@;
    let mut i: usize = 0;
    while i < src.len()
        invariant
            i <= src@.len(),
            out@ == start + src@.subrange(0, i as int),
        decreases src@.len() - i,
    {
        out.push(src[i]);
        i = i + 1;
        assert(out@ =~= start + src@.subrange(0, i as int));
    }
    assert(src@.subrange(0, i as int) =~= src@);
}

} // verus!
