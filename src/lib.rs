//! A small pseudo-random number library built on xoshiro256++.
//!
//! The generator state, the seeding walk and every derived draw (bounded
//! integers, booleans, shuffles, picks) are stated as spec functions, and the
//! executable code is proved against them. The library is not
//! cryptographically secure: it aims at speed and reproducibility.
pub mod xoshiro256pp;
pub mod xorshift;

use vstd::prelude::*;
use xoshiro256pp::{advance, draw_of, seeded, zero_words, Words, Xoroshiro256pp};

verus! {

broadcast use vstd::seq_lib::group_to_multiset_ensures;

/// Tag of a generator whose seed was never set.
pub const TAG_UNINITIALIZED: u32 = 0;

/// Tag of a generator seeded from ambient entropy.
pub const TAG_AUTO_SEEDED: u32 = 1;

/// Tag of a generator seeded by its user.
pub const TAG_USER_SEEDED: u32 = 2;

/// The state `n` steps after `s`.
pub open spec fn advance_n(s: Words, n: nat) -> Words
    decreases n,
{
    if n == 0 {
        s
    } else {
        advance_n(advance(s), (n - 1) as nat)
    }
}

/// The first `n` outputs from state `s`.
pub open spec fn stream(s: Words, n: nat) -> Seq<u64>
    decreases n,
{
    if n == 0 {
        Seq::empty()
    } else {
        seq![draw_of(s)] + stream(advance(s), (n - 1) as nat)
    }
}

/// The integer in `[min, max]` that the draw `d` maps to:
/// `min + d mod (max - min + 1)`.
pub open spec fn bounded_int(min: i64, max: i64, d: u64) -> int {
    min + (d as int) % (max - min + 1)
}

/// `s` with the elements at `i` and `j` exchanged.
pub open spec fn swapped<T>(s: Seq<T>, i: int, j: int) -> Seq<T> {
    s.update(i, s[j]).update(j, s[i])
}

/// The sequence that shuffling `s` from index `last` down to 1 gives when the
/// generator starts in state `st`: at each index `i` the element there is
/// exchanged with the one at `draw mod i`.
pub open spec fn shuffled<T>(s: Seq<T>, st: Words, last: int) -> Seq<T>
    decreases last,
{
    if last < 1 {
        s
    } else {
        let j = draw_of(st) % (last as u64);
        shuffled(swapped(s, last, j as int), advance(st), last - 1)
    }
}

/// The number of draws that shuffling a sequence of length `len` takes.
pub open spec fn shuffle_draws(len: nat) -> nat {
    if len == 0 {
        0
    } else {
        (len - 1) as nat
    }
}

/// The `k`-th of the first `n` outputs from state `s` is the output of the
/// state `k` steps past `s`.
pub proof fn lemma_stream_index(s: Words, n: nat)
    ensures
        stream(s, n).len() == n,
        forall|k: int| 0 <= k < n ==> #[trigger] stream(s, n)[k] == draw_of(advance_n(s, k as nat)),
    decreases n,
{
    if n > 0 {
        lemma_stream_index(advance(s), (n - 1) as nat);
        assert forall|k: int| 0 <= k < n implies #[trigger] stream(s, n)[k] == draw_of(
            advance_n(s, k as nat),
        ) by {
            if k > 0 {
                assert(stream(s, n)[k] == stream(advance(s), (n - 1) as nat)[k - 1]);
            }
        }
    }
}

/// Two generators seeded with the same value give the same draws, however
/// many are taken: the `k`-th draw after seeding with `seed` is the output
/// of the state `k` steps past `seeded(seed)`, a function of `seed` and `k`
/// alone.
pub proof fn lemma_same_seed_same_draws(seed: u64, a: Random, b: Random, n: nat)
    requires
        a.state() == seeded(seed),
        b.state() == seeded(seed),
    ensures
        stream(a.state(), n) == stream(b.state(), n),
        forall|k: int|
            0 <= k < n ==> #[trigger] stream(a.state(), n)[k] == draw_of(
                advance_n(seeded(seed), k as nat),
            ),
{
    lemma_stream_index(seeded(seed), n);
}

/// Relies on `<[T]>::swap`: the elements at `a` and `b` change places.
#[verifier::external_body]
fn swap_items<T>(slice: &mut [T], a: usize, b: usize)
    requires
        a < old(slice)@.len(),
        b < old(slice)@.len(),
    ensures
        final(slice)@ == swapped(old(slice)@, a as int, b as int),
{
    slice.swap(a, b)
}

/// A xoshiro256++ generator together with a tag that records how it was
/// seeded.
pub struct Random {
    pub gen: Xoroshiro256pp,
    pub tag: u32,
}

impl Random {
    /// The generator's state.
    pub open spec fn state(&self) -> Words {
        self.gen.words()
    }

    /// A generator seeded with `seed`, a value taken from ambient entropy
    /// by the caller; it is tagged as auto-seeded.
    pub fn new(seed: u64) -> (r: Self)
        ensures
            r.state() == seeded(seed),
            r.state() != zero_words(),
            r.tag == TAG_AUTO_SEEDED,
    {
        let gen = Xoroshiro256pp::from_seed(seed);
        Self { gen, tag: TAG_AUTO_SEEDED }
    }

    /// A generator seeded with `seed`; it is tagged as user-seeded.
    pub fn from_seed(seed: u64) -> (r: Self)
        ensures
            r.state() == seeded(seed),
            r.state() != zero_words(),
            r.tag == TAG_USER_SEEDED,
    {
        let gen = Xoroshiro256pp::from_seed(seed);
        Self { gen, tag: TAG_USER_SEEDED }
    }

    /// Re-seed the generator with `seed`, whatever it drew before.
    pub fn set_seed(&mut self, seed: u64)
        ensures
            final(self).state() == seeded(seed),
            final(self).state() != zero_words(),
            final(self).tag == TAG_USER_SEEDED,
    {
        self.tag = TAG_USER_SEEDED;
        self.gen.set_seed(seed);
    }

    /// A number in `[0, u64::MAX]`: the next output.
    pub fn rand(&mut self) -> (r: u64)
        ensures
            r == draw_of(old(self).state()),
            final(self).state() == advance(old(self).state()),
            final(self).tag == old(self).tag,
    {
        self.gen.next()
    }

    /// A number in `[min, max]`: `min` plus the next output modulo the
    /// width of the range.
    pub fn randint(&mut self, min: i64, max: i64) -> (r: i64)
        requires
            min <= max,
        ensures
            r == bounded_int(min, max, draw_of(old(self).state())),
            min <= r <= max,
            final(self).state() == advance(old(self).state()),
            final(self).tag == old(self).tag,
    {
        let width: u128 = (max as i128 - min as i128 + 1) as u128;
        let d = self.rand();
        let r: u128 = (d as u128) % width;
        (min as i128 + r as i128) as i64
    }

    /// Shuffle `slice` in place: from the last index down to 1, the element
    /// at index `i` changes place with the one at `rand() mod i`.
    pub fn shuffle<T>(&mut self, slice: &mut [T])
        ensures
            final(slice)@ == shuffled(old(slice)@, old(self).state(), old(slice)@.len() - 1),
            final(slice)@.to_multiset() == old(slice)@.to_multiset(),
            final(slice)@.len() == old(slice)@.len(),
            final(self).state() == advance_n(
                old(self).state(),
                shuffle_draws(old(slice)@.len()),
            ),
            final(self).tag == old(self).tag,
    {
        let n = slice.len();
        if n <= 1 {
            return;
        }
        let mut last: usize = n - 1;
        while last >= 1
            invariant
                last < n,
                slice@.len() == n,
                shuffled(slice@, self.state(), last as int) == shuffled(
                    old(slice)@,
                    old(self).state(),
                    n - 1,
                ),
                advance_n(self.state(), last as nat) == advance_n(
                    old(self).state(),
                    (n - 1) as nat,
                ),
                slice@.to_multiset() == old(slice)@.to_multiset(),
                self.tag == old(self).tag,
            decreases last,
        {
            let r = (self.rand() % (last as u64)) as usize;
            proof {
                let s = slice@;
                let t = s.update(last as int, s[r as int]);
                assert(t.to_multiset() =~= s.to_multiset().insert(s[r as int]).remove(s[last as int]));
                assert(swapped(s, last as int, r as int).to_multiset() =~= t.to_multiset().insert(s[last as int]).remove(t[r as int]));
            }
            swap_items(slice, last, r);
            last -= 1;
        }
    }

    /// One element of `slice`, cloned: the one at `rand() mod len`.
    /// An empty slice gives `None` and draws nothing.
    pub fn choice<T: Clone>(&mut self, slice: &[T]) -> (r: Option<T>)
        ensures
            r.is_none() <==> slice@.len() == 0,
            slice@.len() == 0 ==> final(self).state() == old(self).state(),
            slice@.len() > 0 ==> final(self).state() == advance(old(self).state()),
            slice@.len() > 0 ==> cloned(
                slice@[(draw_of(old(self).state()) % (slice@.len() as u64)) as int],
                r.unwrap(),
            ),
            final(self).tag == old(self).tag,
    {
        if slice.len() == 0 {
            return None;
        }
        let r = (self.rand() % (slice.len() as u64)) as usize;
        Some(slice[r].clone())
    }

    /// A boolean: whether the next output is odd.
    pub fn rand_bool(&mut self) -> (r: bool)
        ensures
            r == (draw_of(old(self).state()) % 2 == 1),
            final(self).state() == advance(old(self).state()),
            final(self).tag == old(self).tag,
    {
        (self.rand() % 2) == 1
    }

    /// The next output as an `isize`.
    pub fn rand_isize(&mut self) -> (r: isize)
        ensures
            r == draw_of(old(self).state()) as isize,
            final(self).state() == advance(old(self).state()),
            final(self).tag == old(self).tag,
    {
        self.rand() as isize
    }

    /// The next output as a `usize`.
    pub fn rand_usize(&mut self) -> (r: usize)
        ensures
            r == draw_of(old(self).state()) as usize,
            final(self).state() == advance(old(self).state()),
            final(self).tag == old(self).tag,
    {
        self.rand() as usize
    }
}

} // verus!
