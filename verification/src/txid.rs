use vstd::prelude::*;
use crate::text::push_char;

verus! {

/// A transaction id, taken as the 256-bit number that its usual hex form
/// spells out: `hi` holds its first 32 hex digits, `lo` its last 32.
#[derive(Clone, Copy, Debug, PartialEq, Eq, Structural)]
pub struct Txid {
    pub hi: u128,
    pub lo: u128,
}

/// The lower-case hex digit of a number below sixteen.
pub open spec fn hex_digit(n: u128) -> char {
    if n < 10 {
        (48 + n) as char
    } else {
        (87 + n) as char
    }
}

/// The `i`-th hex digit of `x`, counted from the most significant one.
pub open spec fn nibble(x: u128, i: int) -> u128 {
    (x >> ((124 - 4 * i) as u128)) & 15
}

/// The 32 hex digits of a 128-bit number, most significant first.
pub open spec fn hex_u128(x: u128) -> Seq<char> {
    Seq::new(32, |i: int| hex_digit(nibble(x, i)))
}

/// The 64 hex digits that spell a transaction id.
pub open spec fn txid_hex(t: Txid) -> Seq<char> {
    hex_u128(t.hi) + hex_u128(t.lo)
}

fn hex_char(n: u128) -> (c: char)
    requires
        n < 16,
    ensures
        c == hex_digit(n),
{
    let b: u8 = n as u8;
    if n < 10 {
        (48u8 + b) as char
    } else {
        (87u8 + b) as char
    }
}

fn push_hex_u128(s: &mut String, x: u128)
    ensures
        final(s)@ == old(s)@ + hex_u128(x),
{
    let ghost start = s@;
    let mut i: u32 = 0;
    while i < 32
        invariant
            i <= 32,
            s@ == start + hex_u128(x).take(i as int),
        decreases 32 - i,
    {
        let shift: u32 = 124 - 4 * i;
        let n: u128 = (x >> shift) & 15;
        assert(n < 16) by (bit_vector)
            requires
                n == (x >> shift) & 15,
        ;
        assert(n == nibble(x, i as int));
        let c = hex_char(n);
        push_char(s, c);
        assert(hex_u128(x).take(i + 1) =~= hex_u128(x).take(i as int).push(c));
        i = i + 1;
    }
    assert(hex_u128(x).take(32) =~= hex_u128(x));
}

impl Txid {
    /// The usual hex form of the id: 64 lower-case hex digits.
    pub fn to_hex_string(&self) -> (s: String)
        ensures
            s@ == txid_hex(*self),
    {
        let mut s = String::new();
        push_hex_u128(&mut s, self.hi);
        push_hex_u128(&mut s, self.lo);
        assert(s@ =~= txid_hex(*self));
        s
    }
}

/// `256^n`.
pub open spec fn pow256(n: nat) -> nat
    decreases n,
{
    if n == 0 {
        1
    } else {
        256 * pow256((n - 1) as nat)
    }
}

/// The number that bytes spell least significant byte first.
pub open spec fn le_value(s: Seq<u8>) -> nat
    decreases s.len(),
{
    if s.len() == 0 {
        0
    } else {
        (s[0] + 256 * le_value(s.drop_first())) as nat
    }
}

/// The txid of a transaction hash given as its 32 bytes, in the order in
/// which the hash is computed. The hex form prints them in reverse: the
/// hash's last byte first.
pub open spec fn txid_of_hash(h: Seq<u8>) -> Txid {
    Txid { hi: le_value(h.subrange(16, 32)) as u128, lo: le_value(h.subrange(0, 16)) as u128 }
}

proof fn lemma_pow256_grows(m: nat, n: nat)
    requires
        m <= n,
    ensures
        1 <= pow256(m) <= pow256(n),
    decreases n,
{
    if n > 0 {
        if m < n {
            lemma_pow256_grows(m, (n - 1) as nat);
        } else {
            lemma_pow256_grows((n - 1) as nat, (n - 1) as nat);
        }
    }
}

proof fn lemma_pow256_16()
    ensures
        pow256(16) == u128::MAX + 1,
{
    reveal_with_fuel(pow256, 17);
}

proof fn lemma_le_value_bound(s: Seq<u8>)
    ensures
        le_value(s) < pow256(s.len()),
    decreases s.len(),
{
    if s.len() > 0 {
        lemma_le_value_bound(s.drop_first());
    }
}

/// The number that 16 bytes of `h`, from `start`, spell least significant
/// byte first.
fn le_u128(h: &[u8], start: usize) -> (x: u128)
    requires
        start + 16 <= h.len(),
    ensures
        x == le_value(h@.subrange(start as int, start + 16)),
{
    let end: usize = start + 16;
    let mut acc: u128 = 0;
    let mut k: usize = 16;
    proof {
        assert(h@.subrange(end as int, end as int) =~= Seq::<u8>::empty());
    }
    while k > 0
        invariant
            k <= 16,
            end == start + 16,
            end <= h@.len(),
            acc == le_value(h@.subrange(start + k, end as int)),
            acc < pow256((16 - k) as nat),
        decreases k,
    {
        let b: u8 = h[start + k - 1];
        let ghost tail = h@.subrange(start + k, end as int);
        let ghost longer = h@.subrange(start + k - 1, end as int);
        proof {
            assert(longer.drop_first() =~= tail);
            lemma_pow256_grows((16 - k) as nat, 15);
            lemma_pow256_16();
            assert(pow256(16) == 256 * pow256(15));
        }
        acc = acc * 256 + b as u128;
        k = k - 1;
        proof {
            lemma_le_value_bound(longer);
        }
    }
    acc
}

/// The bytes, least significant first, of a number below `256^n`.
fn le_bytes(x: u128, n: usize) -> (r: Vec<u8>)
    requires
        x < pow256(n as nat),
    ensures
        r@.len() == n,
        le_value(r@) == x,
    decreases n,
{
    if n == 0 {
        return Vec::new();
    }
    let low: u8 = (x % 256) as u8;
    let rest: u128 = x / 256;
    assert(pow256(n as nat) == 256 * pow256((n - 1) as nat));
    let mut r = le_bytes(rest, n - 1);
    let ghost tail = r@;
    r.insert(0, low);
    assert(r@.drop_first() =~= tail);
    r
}

impl Txid {
    /// The txid of a transaction hash given as its 32 bytes, in the order
    /// in which the hash is computed.
    pub fn from_hash_bytes(h: &[u8]) -> (t: Txid)
        requires
            h@.len() == 32,
        ensures
            t == txid_of_hash(h@),
    {
        let lo = le_u128(h, 0);
        let hi = le_u128(h, 16);
        Txid { hi, lo }
    }

    /// The 32 bytes of the transaction hash, in the order in which the hash
    /// is computed.
    pub fn to_hash_bytes(&self) -> (h: Vec<u8>)
        ensures
            h@.len() == 32,
            txid_of_hash(h@) == *self,
    {
        proof {
            lemma_pow256_16();
        }
        let mut h = le_bytes(self.lo, 16);
        let high = le_bytes(self.hi, 16);
        let ghost low_bytes = h@;
        let mut i: usize = 0;
        while i < 16
            invariant
                i <= 16,
                high@.len() == 16,
                h@ == low_bytes + high@.take(i as int),
            decreases 16 - i,
        {
            h.push(high[i]);
            assert(high@.take(i + 1) =~= high@.take(i as int).push(high@[i as int]));
            i = i + 1;
        }
        assert(h@.subrange(0, 16) =~= low_bytes);
        assert(h@.subrange(16, 32) =~= high@);
        h
    }
}

} // verus!
