//! The xoshiro256++ generator: a 256-bit state, one 64-bit output per step,
//! and the jump walks that move the state far along its stream.
use vstd::prelude::*;

verus! {

/// The generator state as four 64-bit words.
pub type Words = (u64, u64, u64, u64);

/// Circular left rotation of a 64-bit word by `k` bits, `0 < k < 64`.
pub open spec fn rotl(x: u64, k: u64) -> u64 {
    (x << k) | (x >> ((64 - k) as u64))
}

/// The output produced from state `s` by one step.
pub open spec fn draw_of(s: Words) -> u64 {
    rotl(s.0.wrapping_add(s.3), 23).wrapping_add(s.0)
}

/// The state that follows `s` after one step.
pub open spec fn advance(s: Words) -> Words {
    let t = s.1 << 17u64;
    let s2 = s.2 ^ s.0;
    let s3 = s.3 ^ s.1;
    let s1 = s.1 ^ s2;
    let s0 = s.0 ^ s3;
    (s0, s1, s2 ^ t, rotl(s3, 45))
}

/// Word-wise exclusive or of two states.
pub open spec fn xor_words(a: Words, b: Words) -> Words {
    (a.0 ^ b.0, a.1 ^ b.1, a.2 ^ b.2, a.3 ^ b.3)
}

/// Whether bit `b` of word `i` of a jump polynomial is set.
pub open spec fn poly_bit(poly: Seq<u64>, i: int, b: u64) -> bool {
    poly[i] & (1u64 << b) != 0
}

/// The jump walk from word `i`, bit `b` of `poly` on: at each of the
/// remaining bits, `acc` takes in `s` where the bit is set, then `s` steps
/// once. The result is the accumulator at the end.
pub open spec fn walk(poly: Seq<u64>, i: nat, b: nat, s: Words, acc: Words) -> Words
    decreases 4 - i, 64 - b,
{
    if i >= 4 {
        acc
    } else if b >= 64 {
        walk(poly, i + 1, 0, s, acc)
    } else {
        let acc2 = if poly_bit(poly, i as int, b as u64) {
            xor_words(acc, s)
        } else {
            acc
        };
        walk(poly, i, b + 1, advance(s), acc2)
    }
}

/// The polynomial of the jump: 2^128 steps ahead.
pub open spec fn jump_poly() -> Seq<u64> {
    seq![0x180ec6d33cfd0abau64, 0xd5a61266f0c9392cu64, 0xa9582618e03fc9aau64, 0x39abdc4529b1661cu64]
}

/// The polynomial of the long jump: 2^192 steps ahead.
pub open spec fn long_jump_poly() -> Seq<u64> {
    seq![0x76e15d3efefdcbbfu64, 0xc5004e441c522fb3u64, 0x77710069854ee241u64, 0x39109bb02acbe635u64]
}

/// The state after a jump from `s`.
pub open spec fn jumped(s: Words) -> Words {
    walk(jump_poly(), 0, 0, s, (0u64, 0u64, 0u64, 0u64))
}

/// The state after a long jump from `s`.
pub open spec fn long_jumped(s: Words) -> Words {
    walk(long_jump_poly(), 0, 0, s, (0u64, 0u64, 0u64, 0u64))
}

/// The value mixed into every seed before it is spread over the state.
pub const SEED_MIX: u64 = 16868548727063204;

/// The sparse state spread from a seed: the four 16-bit slices of
/// `seed ^ SEED_MIX`, one in the low bits of each word.
pub open spec fn spread(seed: u64) -> Words {
    let m = seed ^ SEED_MIX;
    (m & 0xFFFFu64, (m >> 16u64) & 0xFFFFu64, (m >> 32u64) & 0xFFFFu64, (m >> 48u64) & 0xFFFFu64)
}

/// The all-zero state: a fixed point of `advance`, whose every output is 0.
pub open spec fn zero_words() -> Words {
    (0u64, 0u64, 0u64, 0u64)
}

/// The fixed non-zero state that seeding falls back on where the jump walk
/// ends in the all-zero state.
pub open spec fn fallback_words() -> Words {
    (0x9e3779b97f4a7c15u64, 0xbf58476d1ce4e5b9u64, 0x94d049bb133111ebu64, 0x2545f4914f6cdd1du64)
}

/// The state that a seed gives: the spread seed, then one jump; where that
/// is the all-zero state (the spread is zero only for `seed == SEED_MIX`),
/// the fallback state instead. It is never all zero.
pub open spec fn seeded(seed: u64) -> Words {
    let j = jumped(spread(seed));
    if j == zero_words() {
        fallback_words()
    } else {
        j
    }
}

pub struct Xoroshiro256pp {
    pub s: [u64; 4],
}

impl Xoroshiro256pp {
    /// The four state words.
    pub open spec fn words(&self) -> Words {
        (self.s@[0], self.s@[1], self.s@[2], self.s@[3])
    }

    /// A generator whose state is all zero (a fixed point: seed it before use).
    pub fn new() -> (r: Self)
        ensures
            r.words() == (0u64, 0u64, 0u64, 0u64),
    {
        Self { s: [0; 4] }
    }

    /// A generator seeded with `seed`.
    pub fn from_seed(seed: u64) -> (r: Self)
        ensures
            r.words() == seeded(seed),
            r.words() != zero_words(),
    {
        let mut s = Self { s: [0; 4] };
        s.set_seed(seed);
        s
    }

    /// Move the state 2^128 steps ahead.
    pub fn jump(&mut self)
        ensures
            final(self).words() == jumped(old(self).words()),
    {
        let jump_params: [u64; 4] = [
            0x180ec6d33cfd0aba,
            0xd5a61266f0c9392c,
            0xa9582618e03fc9aa,
            0x39abdc4529b1661c,
        ];
        assert(jump_params@ =~= jump_poly());
        self.walk_with(&jump_params);
    }

    /// Move the state 2^192 steps ahead.
    pub fn long_jump(&mut self)
        ensures
            final(self).words() == long_jumped(old(self).words()),
    {
        let jump_params: [u64; 4] = [
            0x76e15d3efefdcbbf,
            0xc5004e441c522fb3,
            0x77710069854ee241,
            0x39109bb02acbe635,
        ];
        assert(jump_params@ =~= long_jump_poly());
        self.walk_with(&jump_params);
    }

    /// Replace the state by the one that `seed` gives.
    pub fn set_seed(&mut self, seed: u64)
        ensures
            final(self).words() == seeded(seed),
            final(self).words() != zero_words(),
    {
        let seed = seed ^ SEED_MIX;
        self.s = [seed & 0xFFFF, seed >> 16 & 0xFFFF, seed >> 32 & 0xFFFF, seed >> 48 & 0xFFFF];
        self.jump();
        if self.s[0] == 0 && self.s[1] == 0 && self.s[2] == 0 && self.s[3] == 0 {
            self.s = [0x9e3779b97f4a7c15, 0xbf58476d1ce4e5b9, 0x94d049bb133111eb, 0x2545f4914f6cdd1d];
        }
    }

    /// Run the jump walk of `params` over the state.
    fn walk_with(&mut self, params: &[u64; 4])
        ensures
            final(self).words() == walk(params@, 0, 0, old(self).words(), (0u64, 0u64, 0u64, 0u64)),
    {
        let ghost target = walk(params@, 0, 0, self.words(), (0u64, 0u64, 0u64, 0u64));
        let mut s0: u64 = 0;
        let mut s1: u64 = 0;
        let mut s2: u64 = 0;
        let mut s3: u64 = 0;
        let mut i: usize = 0;
        while i < 4
            invariant
                i <= 4,
                walk(params@, i as nat, 0, self.words(), (s0, s1, s2, s3)) == target,
            decreases 4 - i,
        {
            let mut b: u64 = 0;
            while b < 64
                invariant
                    i < 4,
                    b <= 64,
                    walk(params@, i as nat, b as nat, self.words(), (s0, s1, s2, s3)) == target,
                decreases 64 - b,
            {
                if params[i] & (1u64 << b) != 0 {
                    s0 ^= self.s[0];
                    s1 ^= self.s[1];
                    s2 ^= self.s[2];
                    s3 ^= self.s[3];
                }
                self.next();
                b += 1;
            }
            i += 1;
        }
        self.s = [s0, s1, s2, s3];
    }

    /// Produce one output and advance the state.
    pub fn next(&mut self) -> (r: u64)
        ensures
            r == draw_of(old(self).words()),
            final(self).words() == advance(old(self).words()),
    {
        let s0 = self.s[0];
        let s1 = self.s[1];
        let s2 = self.s[2];
        let s3 = self.s[3];
        let added = s0.wrapping_add(s3);
        let result = rtol(added, 23).wrapping_add(s0);
        let t = s1 << 17;

        let s2 = s2 ^ s0;
        let s3 = s3 ^ s1;
        let s1 = s1 ^ s2;
        let s0 = s0 ^ s3;

        let s2 = s2 ^ t;
        let s3 = rtol(s3, 45);
        self.s = [s0, s1, s2, s3];
        result
    }
}

fn rtol(x: u64, k: usize) -> (r: u64)
    requires
        0 < k < 64,
    ensures
        r == rotl(x, k as u64),
{
    let k = k as u64;
    (x << k) | (x >> (64 - k))
}

} // verus!
