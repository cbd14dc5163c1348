//! GREASE values (RFC 8701) and the small deterministic generator that picks them.
use vstd::prelude::*;

verus! {

/// GREASE values according to RFC 8701.
pub const GREASE_VALUES: [u16; 16] = [
    0x0A0A, 0x1A1A, 0x2A2A, 0x3A3A, 0x4A4A, 0x5A5A, 0x6A6A, 0x7A7A, 0x8A8A, 0x9A9A, 0xAAAA,
    0xBABA, 0xCACA, 0xDADA, 0xEAEA, 0xFAFA,
];

/// The `i`-th GREASE value: `0x0A0A`, `0x1A1A`, ..., `0xFAFA`.
pub open spec fn grease_value(i: int) -> u16 {
    (0x0A0A + 0x1010 * i) as u16
}

/// `v` is one of the sixteen GREASE values.
pub open spec fn is_grease(v: u16) -> bool {
    v % 0x1010 == 0x0A0A
}

/// Each table entry is a GREASE value, and the table holds them in order.
pub proof fn lemma_grease_value_is_grease(i: int)
    requires
        0 <= i < 16,
    ensures
        is_grease(grease_value(i)),
        grease_value(i) as int == 0x0A0A + 0x1010 * i,
{
}

/// The table as a sequence: the sixteen GREASE values in order, each once.
pub open spec fn grease_table() -> Seq<u16> {
    Seq::new(16, |i: int| grease_value(i))
}

/// The table holds no value twice, and holds only GREASE values.
pub proof fn lemma_grease_table()
    ensures
        grease_table().no_duplicates(),
        forall|x: u16| grease_table().contains(x) ==> is_grease(x),
{
    assert forall|i: int, j: int| 0 <= i < 16 && 0 <= j < 16 && i != j implies grease_table()[i]
        != grease_table()[j] by {
        lemma_grease_value_is_grease(i);
        lemma_grease_value_is_grease(j);
    }
    assert forall|x: u16| grease_table().contains(x) implies is_grease(x) by {
        let i = choose|i: int| 0 <= i < 16 && grease_table()[i] == x;
        lemma_grease_value_is_grease(i);
    }
}

/// Returns [`GREASE_VALUES`].
pub fn grease_values() -> (t: [u16; 16])
    ensures
        t@ == grease_table(),
{
    let table = GREASE_VALUES;
    assert(table@ =~= seq![0x0A0Au16, 0x1A1A, 0x2A2A, 0x3A3A, 0x4A4A, 0x5A5A, 0x6A6A, 0x7A7A,
        0x8A8A, 0x9A9A, 0xAAAA, 0xBABA, 0xCACA, 0xDADA, 0xEAEA, 0xFAFA]);
    assert(table@ =~= grease_table());
    table
}

/// Returns the `i`-th entry of [`GREASE_VALUES`].
pub fn grease_value_at(i: usize) -> (v: u16)
    requires
        i < 16,
    ensures
        v == grease_value(i as int),
{
    let table = GREASE_VALUES;
    assert(table@ =~= seq![0x0A0Au16, 0x1A1A, 0x2A2A, 0x3A3A, 0x4A4A, 0x5A5A, 0x6A6A, 0x7A7A,
        0x8A8A, 0x9A9A, 0xAAAA, 0xBABA, 0xCACA, 0xDADA, 0xEAEA, 0xFAFA]);
    table[i]
}


/// The multiplier of the xorshift64* output function.
pub const XORSHIFT_MULTIPLIER: u64 = 0x2545_F491_4F6C_DD1D;

/// The state that replaces an all-zero seed, on which xorshift would stay at zero forever.
pub const ZERO_SEED_REPLACEMENT: u64 = 0x9E37_79B9_7F4A_7C15;

/// Big-endian value of the first `n` bytes of `bytes`, where bytes past the end count as zero.
pub open spec fn be_prefix(bytes: Seq<u8>, n: nat) -> nat
    decreases n,
{
    if n == 0 {
        0
    } else {
        let b: nat = if n - 1 < bytes.len() { bytes[n - 1] as nat } else { 0 };
        be_prefix(bytes, (n - 1) as nat) * 256 + b
    }
}

/// `256^n`.
pub open spec fn pow256(n: nat) -> nat
    decreases n,
{
    if n == 0 {
        1
    } else {
        pow256((n - 1) as nat) * 256
    }
}

/// The seed drawn from a session id: its first eight bytes read big-endian, the missing
/// ones taken as zero, with an all-zero seed replaced by [`ZERO_SEED_REPLACEMENT`].
pub open spec fn spec_seed(session_id: Seq<u8>) -> u64 {
    let s = be_prefix(session_id, 8);
    if s == 0 {
        ZERO_SEED_REPLACEMENT
    } else {
        s as u64
    }
}

/// One xorshift64 step.
#[verifier::opaque]
pub open spec fn xorshift(s: u64) -> u64 {
    let a = s ^ (s >> 12u64);
    let b = a ^ (a << 25u64);
    b ^ (b >> 27u64)
}

/// The 32-bit output of xorshift64* for a stepped state.
#[verifier::opaque]
pub open spec fn rng_output(s: u64) -> u32 {
    ((((s as nat) * (XORSHIFT_MULTIPLIER as nat)) % 0x1_0000_0000_0000_0000) as u64 >> 32u64) as u32
}

/// The index in `0..max` drawn from state `s`: the state advances one step, and the
/// output of the new state is reduced modulo `max`.
pub open spec fn draw_index(s: u64, max: nat) -> (nat, u64) {
    let s1 = xorshift(s);
    ((rng_output(s1) as nat) % max, s1)
}

/// A GREASE value drawn from state `s`, and the state after the draw.
pub open spec fn draw_grease(s: u64) -> (u16, u64) {
    let (i, s1) = draw_index(s, 16);
    (grease_value(i as int), s1)
}

proof fn lemma_be_prefix_bound(bytes: Seq<u8>, n: nat)
    ensures
        be_prefix(bytes, n) < pow256(n),
    decreases n,
{
    if n > 0 {
        lemma_be_prefix_bound(bytes, (n - 1) as nat);
        let p = be_prefix(bytes, (n - 1) as nat);
        let q = pow256((n - 1) as nat);
        let b: nat = if n - 1 < bytes.len() { bytes[n - 1] as nat } else { 0 };
        assert(p * 256 + b < q * 256) by (nonlinear_arith)
            requires
                p < q,
                b < 256,
        ;
    }
}

proof fn lemma_pow256_mono(a: nat, b: nat)
    requires
        a <= b,
    ensures
        pow256(a) <= pow256(b),
    decreases b,
{
    if a < b {
        lemma_pow256_mono(a, (b - 1) as nat);
    }
}

/// Simple generator seeded from session id bytes, so that GREASE values stay the same
/// across the ClientHellos of one handshake.
pub struct GreaseRng {
    state: u64,
}

impl View for GreaseRng {
    type V = u64;

    closed spec fn view(&self) -> u64 {
        self.state
    }
}

impl GreaseRng {
    /// Seeds the generator from up to the first eight bytes of `session_id`.
    pub fn from_session_id(session_id: &[u8]) -> (rng: Self)
        ensures
            rng@ == spec_seed(session_id@),
    {
        let mut seed: u64 = 0;
        let mut i: usize = 0;
        while i < 8
            invariant
                i <= 8,
                seed as nat == be_prefix(session_id@, i as nat),
            decreases 8 - i,
        {
            let b: u64 = if i < session_id.len() { session_id[i] as u64 } else { 0 };
            proof {
                lemma_be_prefix_bound(session_id@, i as nat);
                lemma_pow256_mono(i as nat, 7);
                assert(pow256(7) == 0x100_0000_0000_0000) by {
                    reveal_with_fuel(pow256, 8);
                }
                assert(seed * 256 + b < 0x1_0000_0000_0000_0000);
            }
            seed = seed * 256 + b;
            i = i + 1;
        }
        if seed == 0 {
            seed = ZERO_SEED_REPLACEMENT;
        }
        GreaseRng { state: seed }
    }

    /// Advances the state one xorshift64 step and returns the xorshift64* output.
    pub fn next_u32(&mut self) -> (r: u32)
        ensures
            final(self)@ == xorshift(old(self)@),
            r == rng_output(final(self)@),
    {
        proof {
            reveal(xorshift);
            reveal(rng_output);
        }
        self.state = self.state ^ (self.state >> 12u64);
        self.state = self.state ^ (self.state << 25u64);
        self.state = self.state ^ (self.state >> 27u64);
        let prod = self.state.wrapping_mul(XORSHIFT_MULTIPLIER);
        let hi = prod >> 32u64;
        assert(hi <= u32::MAX) by (bit_vector)
            requires
                hi == prod >> 32u64,
        ;
        hi as u32
    }

    /// Draws an index in `0..max`.
    pub fn next_usize(&mut self, max: usize) -> (r: usize)
        requires
            max > 0,
        ensures
            (r as nat, final(self)@) == draw_index(old(self)@, max as nat),
    {
        let x = self.next_u32();
        (x as usize) % max
    }
}

/// Picks a GREASE value.
pub fn get_grease_value(rng: &mut GreaseRng) -> (v: u16)
    ensures
        (v, final(rng)@) == draw_grease(old(rng)@),
        is_grease(v),
{
    let i = rng.next_usize(16);
    proof {
        lemma_grease_value_is_grease(i as int);
    }
    grease_value_at(i)
}


/// How many draws of a redrawn GREASE value may repeat the value to avoid: one full period
/// of the generator, after which its states, and so its draws, come round again.
pub const REDRAW_LIMIT: u64 = 0xFFFF_FFFF_FFFF_FFFE;

/// The GREASE value that follows `v` in [`GREASE_VALUES`], cyclically (`0xFAFA` is
/// followed by `0x0A0A`).
pub open spec fn next_grease(v: u16) -> u16 {
    if v == 0xFAFA {
        0x0A0A
    } else {
        ((v + 0x1010) % 0x10000) as u16
    }
}

/// A GREASE value that differs from `avoid`, drawn from state `s`: the first draw that
/// differs; where `fuel + 1` draws all repeat `avoid`, the value after `avoid`.
pub open spec fn distinct_grease(s: u64, avoid: u16, fuel: nat) -> (u16, u64)
    decreases fuel,
{
    let (v, s1) = draw_grease(s);
    if v != avoid {
        (v, s1)
    } else if fuel == 0 {
        (next_grease(avoid), s1)
    } else {
        distinct_grease(s1, avoid, (fuel - 1) as nat)
    }
}

/// The value drawn by [`distinct_grease`] is a GREASE value other than `avoid`.
pub proof fn lemma_distinct_grease(s: u64, avoid: u16, fuel: nat)
    requires
        is_grease(avoid),
    ensures
        distinct_grease(s, avoid, fuel).0 != avoid,
        is_grease(distinct_grease(s, avoid, fuel).0),
    decreases fuel,
{
    let (v, s1) = draw_grease(s);
    let (i, _) = draw_index(s, 16);
    lemma_grease_value_is_grease(i as int);
    if v == avoid && fuel > 0 {
        lemma_distinct_grease(s1, avoid, (fuel - 1) as nat);
    }
}

/// Draws a GREASE value other than `avoid`.
pub fn get_distinct_grease_value(rng: &mut GreaseRng, avoid: u16) -> (v: u16)
    ensures
        (v, final(rng)@) == distinct_grease(old(rng)@, avoid, REDRAW_LIMIT as nat),
{
    let ghost s0 = rng@;
    let ghost result = distinct_grease(s0, avoid, REDRAW_LIMIT as nat);
    let mut v = get_grease_value(rng);
    let mut tries: u64 = 0;
    while v == avoid
        invariant_except_break
            tries <= REDRAW_LIMIT,
            result == (if v != avoid {
                (v, rng@)
            } else if tries == REDRAW_LIMIT {
                (next_grease(avoid), rng@)
            } else {
                distinct_grease(rng@, avoid, (REDRAW_LIMIT - tries - 1) as nat)
            }),
        ensures
            (v, rng@) == result,
        decreases REDRAW_LIMIT - tries,
    {
        if tries == REDRAW_LIMIT {
            v = if avoid == 0xFAFA { 0x0A0A } else { ((avoid as u32 + 0x1010) % 0x10000) as u16 };
            break;
        }
        v = get_grease_value(rng);
        tries = tries + 1;
    }
    v
}

/// The five GREASE values that a browser profile draws for one ClientHello.
#[derive(Clone, Copy, Debug, PartialEq, Eq, Structural)]
pub struct ProfileGreases {
    pub cipher: u16,
    pub group: u16,
    pub version: u16,
    pub ext1: u16,
    pub ext2: u16,
}

/// The draws of a profile from state `s`, in order: cipher suite, group, version, first
/// extension, and a second extension that differs from the first; and the state after.
pub open spec fn profile_greases(s: u64) -> (ProfileGreases, u64) {
    let (c, s1) = draw_grease(s);
    let (g, s2) = draw_grease(s1);
    let (v, s3) = draw_grease(s2);
    let (e1, s4) = draw_grease(s3);
    let (e2, s5) = distinct_grease(s4, e1, REDRAW_LIMIT as nat);
    (ProfileGreases { cipher: c, group: g, version: v, ext1: e1, ext2: e2 }, s5)
}

/// Draws the GREASE values of one ClientHello.
pub fn draw_profile_greases(rng: &mut GreaseRng) -> (g: ProfileGreases)
    ensures
        (g, final(rng)@) == profile_greases(old(rng)@),
        is_grease(g.cipher),
        is_grease(g.group),
        is_grease(g.version),
        is_grease(g.ext1),
        is_grease(g.ext2),
        g.ext1 != g.ext2,
{
    let cipher = get_grease_value(rng);
    let group = get_grease_value(rng);
    let version = get_grease_value(rng);
    let ext1 = get_grease_value(rng);
    let ghost s4 = rng@;
    let ext2 = get_distinct_grease_value(rng, ext1);
    proof {
        lemma_distinct_grease(s4, ext1, REDRAW_LIMIT as nat);
    }
    ProfileGreases { cipher, group, version, ext1, ext2 }
}


/// A seed is never zero, so the generator never stays stuck at zero.
pub proof fn lemma_seed_nonzero(session_id: Seq<u8>)
    ensures
        spec_seed(session_id) != 0,
{
    lemma_be_prefix_bound(session_id, 8);
    assert(pow256(8) == 0x1_0000_0000_0000_0000) by {
        reveal_with_fuel(pow256, 9);
    }
}

/// An xorshift step takes a non-zero state to a non-zero state.
pub proof fn lemma_xorshift_nonzero(s: u64)
    requires
        s != 0,
    ensures
        xorshift(s) != 0,
{
    reveal(xorshift);
    let a = s ^ (s >> 12u64);
    let b = a ^ (a << 25u64);
    assert(a != 0) by (bit_vector)
        requires
            s != 0,
            a == s ^ (s >> 12u64),
    ;
    assert(b != 0) by (bit_vector)
        requires
            a != 0,
            b == a ^ (a << 25u64),
    ;
    assert(b ^ (b >> 27u64) != 0) by (bit_vector)
        requires
            b != 0,
    ;
}

/// The GREASE values of a profile are GREASE values, and its two GREASE extensions
/// get different ones.
pub proof fn lemma_profile_greases_valid(s: u64)
    ensures
        ({
            let g = profile_greases(s).0;
            &&& is_grease(g.cipher)
            &&& is_grease(g.group)
            &&& is_grease(g.version)
            &&& is_grease(g.ext1)
            &&& is_grease(g.ext2)
            &&& g.ext1 != g.ext2
        }),
{
    let (c, s1) = draw_grease(s);
    let (g, s2) = draw_grease(s1);
    let (v, s3) = draw_grease(s2);
    let (e1, s4) = draw_grease(s3);
    lemma_grease_value_is_grease(draw_index(s, 16).0 as int);
    lemma_grease_value_is_grease(draw_index(s1, 16).0 as int);
    lemma_grease_value_is_grease(draw_index(s2, 16).0 as int);
    lemma_grease_value_is_grease(draw_index(s3, 16).0 as int);
    lemma_distinct_grease(s4, e1, REDRAW_LIMIT as nat);
}


/// A drawn index is below the bound.
pub proof fn lemma_draw_index_bound(s: u64, max: nat)
    requires
        max > 0,
    ensures
        draw_index(s, max).0 < max,
{
    let x = rng_output(xorshift(s)) as nat;
    assert(x % max < max) by (nonlinear_arith)
        requires
            max > 0,
    ;
}

/// Byte `i` of `bytes`, or zero past its end.
pub open spec fn byte_at(bytes: Seq<u8>, i: int) -> int {
    if 0 <= i < bytes.len() {
        bytes[i] as int
    } else {
        0
    }
}

/// The first eight bytes of `bytes` (zero past its end) as a big-endian number.
pub open spec fn first_eight_be(bytes: Seq<u8>) -> int {
    byte_at(bytes, 0) * 0x100_0000_0000_0000 + byte_at(bytes, 1) * 0x1_0000_0000_0000
        + byte_at(bytes, 2) * 0x100_0000_0000 + byte_at(bytes, 3) * 0x1_0000_0000 + byte_at(bytes, 4)
        * 0x100_0000 + byte_at(bytes, 5) * 0x1_0000 + byte_at(bytes, 6) * 0x100 + byte_at(bytes, 7)
}

/// The generator's seed is the first eight bytes of the session id (zero past its end)
/// read big-endian, with zero replaced by [`ZERO_SEED_REPLACEMENT`]; bytes after the
/// eighth play no part.
pub proof fn lemma_seed_big_endian(bytes: Seq<u8>)
    ensures
        be_prefix(bytes, 8) == first_eight_be(bytes),
        spec_seed(bytes) as int == (if first_eight_be(bytes) == 0 {
            ZERO_SEED_REPLACEMENT as int
        } else {
            first_eight_be(bytes)
        }),
{
    reveal_with_fuel(be_prefix, 9);
    lemma_be_prefix_bound(bytes, 8);
    assert(pow256(8) == 0x1_0000_0000_0000_0000) by {
        reveal_with_fuel(pow256, 9);
    }
}

/// Equal big-endian prefixes come from equal bytes.
proof fn lemma_be_prefix_injective(a: Seq<u8>, b: Seq<u8>, n: nat)
    requires
        n <= a.len(),
        n <= b.len(),
        be_prefix(a, n) == be_prefix(b, n),
    ensures
        forall|i: int| 0 <= i < n ==> a[i] == b[i],
    decreases n,
{
    if n > 0 {
        let pa = be_prefix(a, (n - 1) as nat);
        let pb = be_prefix(b, (n - 1) as nat);
        let x = a[n - 1] as int;
        let y = b[n - 1] as int;
        assert(pa * 256 + x == pb * 256 + y);
        if pa < pb {
            assert(pa * 256 + 256 <= pb * 256);
        } else if pa > pb {
            assert(pb * 256 + 256 <= pa * 256);
        }
        lemma_be_prefix_injective(a, b, (n - 1) as nat);
    }
}

/// Session ids (or randoms) of at least eight bytes whose first eight bytes differ, and
/// are not all zero, give different seeds.
pub proof fn lemma_seed_injective(a: Seq<u8>, b: Seq<u8>)
    requires
        a.len() >= 8,
        b.len() >= 8,
        exists|i: int| 0 <= i < 8 && a[i] != b[i],
        exists|i: int| 0 <= i < 8 && a[i] != 0,
        exists|i: int| 0 <= i < 8 && b[i] != 0,
    ensures
        spec_seed(a) != spec_seed(b),
{
    lemma_seed_big_endian(a);
    lemma_seed_big_endian(b);
    let ia = choose|i: int| 0 <= i < 8 && a[i] != 0;
    let ib = choose|i: int| 0 <= i < 8 && b[i] != 0;
    assert(byte_at(a, ia) >= 1);
    assert(byte_at(b, ib) >= 1);
    assert(first_eight_be(a) >= 1);
    assert(first_eight_be(b) >= 1);
    if spec_seed(a) == spec_seed(b) {
        lemma_be_prefix_injective(a, b, 8);
    }
}

} // verus!
