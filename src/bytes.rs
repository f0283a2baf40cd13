//! Byte-level helpers shared by log decoding and vote encoding: fixed-size
//! word comparisons, big-endian integer reads and little-endian writes.

use vstd::prelude::*;

verus! {

broadcast use vstd::array::group_array_axioms;

/// A 20-byte account or contract address on the external chain.
pub type ChainAddress = [u8; 20];

/// A 32-byte hash or log topic on the external chain.
pub type ChainHash = [u8; 32];

/// The value of `s` read as a big-endian unsigned integer.
pub open spec fn be_value(s: Seq<u8>) -> nat
    decreases s.len(),
{
    if s.len() == 0 {
        0
    } else {
        be_value(s.drop_last()) * 256 + s.last() as nat
    }
}

/// `256` raised to the power `n`.
pub open spec fn byte_power(n: nat) -> nat
    decreases n,
{
    if n == 0 {
        1
    } else {
        256 * byte_power((n - 1) as nat)
    }
}

/// The first `k` bytes of `s` are zero.
pub open spec fn leading_zero(s: Seq<u8>, k: int) -> bool {
    forall|i: int| 0 <= i < k ==> s[i] == 0
}

/// The 32-byte topic that carries address `a`: twelve zero bytes, then the address.
pub open spec fn padded_address(a: Seq<u8>) -> Seq<u8> {
    Seq::new(12, |i: int| 0u8) + a
}

/// The twenty zero bytes of the zero address.
pub open spec fn zero_address() -> Seq<u8> {
    Seq::new(20, |i: int| 0u8)
}

/// The `n` low bytes of `v`, least significant first.
pub open spec fn le_bytes(v: nat, n: nat) -> Seq<u8>
    decreases n,
{
    if n == 0 {
        Seq::empty()
    } else {
        seq![(v % 256) as u8] + le_bytes(v / 256, (n - 1) as nat)
    }
}

pub proof fn lemma_be_value_bound(s: Seq<u8>)
    ensures
        be_value(s) < byte_power(s.len()),
    decreases s.len(),
{
    if s.len() > 0 {
        lemma_be_value_bound(s.drop_last());
        let v = be_value(s.drop_last());
        let b = byte_power((s.len() - 1) as nat);
        let l = s.last() as nat;
        assert(v * 256 + l < 256 * b) by (nonlinear_arith)
            requires
                v < b,
                l < 256,
        ;
    }
}

proof fn lemma_byte_power_values()
    ensures
        byte_power(4) == 0x1_0000_0000,
        byte_power(8) == 0x1_0000_0000_0000_0000,
        byte_power(16) == 0x1_0000_0000_0000_0000_0000_0000_0000_0000,
{
    reveal_with_fuel(byte_power, 17);
}

proof fn lemma_byte_power_monotone(a: nat, b: nat)
    requires
        a <= b,
    ensures
        byte_power(a) <= byte_power(b),
    decreases b,
{
    if a < b {
        lemma_byte_power_monotone(a, (b - 1) as nat);
    }
}

/// Compares two 32-byte hashes.
pub fn hash_eq(a: &ChainHash, b: &ChainHash) -> (r: bool)
    ensures
        r == (a@ == b@),
        r == (*a == *b),
{
    let mut i: usize = 0;
    while i < 32
        invariant
            0 <= i <= 32,
            forall|j: int| 0 <= j < i ==> a@[j] == b@[j],
        decreases 32 - i,
    {
        if a[i] != b[i] {
            return false;
        }
        i = i + 1;
    }
    assert(a@ =~= b@);
    assert(*a =~= *b);
    true
}

/// Whether `h` occurs in `hs`.
pub fn contains_hash(hs: &Vec<ChainHash>, h: &ChainHash) -> (r: bool)
    ensures
        r == hs@.contains(*h),
{
    let mut i: usize = 0;
    while i < hs.len()
        invariant
            0 <= i <= hs.len(),
            forall|j: int| 0 <= j < i ==> hs@[j] != *h,
        decreases hs.len() - i,
    {
        if hash_eq(&hs[i], h) {
            return true;
        }
        i = i + 1;
    }
    false
}

/// Whether `a` is the zero address.
pub fn is_zero_address(a: &ChainAddress) -> (r: bool)
    ensures
        r == (a@ == zero_address()),
{
    let mut i: usize = 0;
    while i < 20
        invariant
            0 <= i <= 20,
            forall|j: int| 0 <= j < i ==> a@[j] == 0,
        decreases 20 - i,
    {
        if a[i] != 0 {
            return false;
        }
        i = i + 1;
    }
    assert(a@ =~= zero_address());
    true
}

/// The topic that carries address `a`: right-aligned in 32 bytes, the high
/// twelve bytes zero.
pub fn address_to_topic(a: &ChainAddress) -> (r: ChainHash)
    ensures
        r@ == padded_address(a@),
{
    let mut t: ChainHash = [0u8; 32];
    let mut i: usize = 0;
    while i < 20
        invariant
            0 <= i <= 20,
            forall|j: int| 0 <= j < 12 ==> t@[j] == 0,
            forall|j: int| 0 <= j < i ==> t@[12 + j] == a@[j],
        decreases 20 - i,
    {
        t[12 + i] = a[i];
        i = i + 1;
    }
    assert(t@ =~= padded_address(a@));
    t
}

/// The address carried by topic or word `w`, when its high twelve bytes are zero.
pub fn word_to_address(w: &ChainHash) -> (r: Option<ChainAddress>)
    ensures
        r.is_some() == leading_zero(w@, 12),
        r matches Some(a) ==> a@ == w@.subrange(12, 32),
{
    let mut i: usize = 0;
    while i < 12
        invariant
            0 <= i <= 12,
            leading_zero(w@, i as int),
        decreases 12 - i,
    {
        if w[i] != 0 {
            return None;
        }
        i = i + 1;
    }
    let mut a: ChainAddress = [0u8; 20];
    let mut k: usize = 0;
    while k < 20
        invariant
            0 <= k <= 20,
            forall|j: int| 0 <= j < k ==> a@[j] == w@[12 + j],
        decreases 20 - k,
    {
        a[k] = w[12 + k];
        k = k + 1;
    }
    assert(a@ =~= w@.subrange(12, 32));
    Some(a)
}

/// The big-endian integer held in the last `n` bytes of word `w`, when the
/// bytes before them are all zero.
pub fn word_to_uint(w: &ChainHash, n: usize) -> (r: Option<u128>)
    requires
        1 <= n <= 16,
    ensures
        r.is_some() == leading_zero(w@, 32 - n),
        r matches Some(v) ==> v as nat == be_value(w@.subrange(32 - n, 32)),
        r matches Some(v) ==> (v as nat) < byte_power(n as nat),
{
    let start: usize = 32 - n;
    let mut i: usize = 0;
    while i < start
        invariant
            start == 32 - n,
            0 <= i <= start,
            leading_zero(w@, i as int),
        decreases start - i,
    {
        if w[i] != 0 {
            return None;
        }
        i = i + 1;
    }
    let mut acc: u128 = 0;
    let mut k: usize = start;
    assert(w@.subrange(start as int, start as int) =~= Seq::<u8>::empty());
    while k < 32
        invariant
            start == 32 - n,
            1 <= n <= 16,
            start <= k <= 32,
            acc as nat == be_value(w@.subrange(start as int, k as int)),
        decreases 32 - k,
    {
        let ghost prev = w@.subrange(start as int, k as int);
        let ghost next = w@.subrange(start as int, k + 1);
        assert(next.drop_last() =~= prev);
        proof {
            lemma_be_value_bound(prev);
            lemma_byte_power_monotone(prev.len(), 15);
            lemma_byte_power_values();
            assert(byte_power(16) == 256 * byte_power(15));
            let b = byte_power(15);
            let a = acc as nat;
            assert(a * 256 + 255 < 256 * b) by (nonlinear_arith)
                requires
                    a < b,
            ;
        }
        acc = acc * 256 + w[k] as u128;
        k = k + 1;
    }
    proof {
        lemma_be_value_bound(w@.subrange(start as int, 32));
    }
    Some(acc)
}

/// Appends the `n` low bytes of `v` to `out`, least significant first.
pub fn push_le(out: &mut Vec<u8>, v: u64, n: usize)
    requires
        n <= 8,
    ensures
        final(out)@ == old(out)@ + le_bytes(v as nat, n as nat),
{
    let mut x: u64 = v;
    let mut i: usize = 0;
    while i < n
        invariant
            0 <= i <= n,
            out@ + le_bytes(x as nat, (n - i) as nat) == old(out)@ + le_bytes(v as nat, n as nat),
        decreases n - i,
    {
        let ghost before = out@;
        let ghost rest = le_bytes((x / 256) as nat, (n - i - 1) as nat);
        assert(le_bytes(x as nat, (n - i) as nat) == seq![(x % 256) as u8] + rest);
        out.push((x % 256) as u8);
        assert(out@ + rest =~= before + (seq![(x % 256) as u8] + rest));
        x = x / 256;
        i = i + 1;
    }
    assert(out@ + le_bytes(x as nat, 0) =~= out@);
}

} // verus!
