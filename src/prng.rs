use vstd::prelude::*;

verus! {

/// Modulus of the generator's recurrence.
pub const MODULUS: u64 = 4294967296;

/// Multiplier of the generator's recurrence.
pub const MULTIPLIER: u64 = 1664525;

/// Increment of the generator's recurrence.
pub const INCREMENT: u64 = 1013904223;

/// One step of the linear congruential recurrence, over unbounded integers.
pub open spec fn lcg_step(seed: int) -> int {
    (MULTIPLIER * seed + INCREMENT) % (MODULUS as int)
}

/// A linear congruential pseudo random number generator.
#[derive(Clone, Copy, Debug)]
pub struct PseudoRandomNumberGenerator {
    seed: u64,
}

impl PseudoRandomNumberGenerator {
    /// The current state of the generator.
    pub closed spec fn state(&self) -> u64 {
        self.seed
    }

    /// Create a generator that starts from `seed`.
    pub fn new(seed: u64) -> (r: Self)
        ensures
            r.state() == seed,
    {
        PseudoRandomNumberGenerator { seed }
    }

    /// Advance the generator and return its new state.
    pub fn next(&mut self) -> (r: u64)
        ensures
            r as int == lcg_step(old(self).state() as int),
            final(self).state() == r,
            r < MODULUS,
    {
        let low: u64 = self.seed % MODULUS;
        proof {
            lemma_step_on_low_bits(self.seed as int);
        }
        let r: u64 = (MULTIPLIER * low + INCREMENT) % MODULUS;
        self.seed = r;
        r
    }
}

/// The step only depends on the seed modulo the modulus.
proof fn lemma_step_on_low_bits(s: int)
    requires
        0 <= s,
    ensures
        lcg_step(s) == lcg_step(s % (MODULUS as int)),
        MULTIPLIER * (s % (MODULUS as int)) + INCREMENT < u64::MAX,
{
    let m = MODULUS as int;
    assert(0 <= s % m < m) by (nonlinear_arith)
        requires m > 0;
    assert(MULTIPLIER * (s % m) <= MULTIPLIER * m) by (nonlinear_arith)
        requires 0 <= s % m < m;
    vstd::arithmetic::div_mod::lemma_mul_mod_noop_right(MULTIPLIER as int, s, m);
    vstd::arithmetic::div_mod::lemma_add_mod_noop(MULTIPLIER * s, INCREMENT as int, m);
    vstd::arithmetic::div_mod::lemma_add_mod_noop(MULTIPLIER * (s % m), INCREMENT as int, m);
    vstd::arithmetic::div_mod::lemma_mod_twice(MULTIPLIER * s, m);
}

/// The first `n` outputs of a generator whose state is `seed`.
pub open spec fn lcg_outputs(seed: int, n: nat) -> Seq<int>
    decreases n,
{
    if n == 0 {
        Seq::empty()
    } else {
        seq![lcg_step(seed)] + lcg_outputs(lcg_step(seed), (n - 1) as nat)
    }
}

/// No state below the modulus is a fixed point of the recurrence: the
/// multiplier minus one is a multiple of four while the increment is odd.
pub proof fn lemma_step_moves(x: int)
    requires
        0 <= x < MODULUS,
    ensures
        lcg_step(x) != x,
{
    let m = MODULUS as int;
    let v = MULTIPLIER * x + INCREMENT;
    vstd::arithmetic::div_mod::lemma_fundamental_div_mod(v, m);
    let q = v / m;
    if lcg_step(x) == x {
        assert(1664524 * x + 1013904223 == 4294967296 * q);
        assert(false);
    }
}

/// Every output of a generator lies below the modulus, and no two
/// consecutive outputs are equal, so any run of outputs longer than one is
/// not constant.
pub proof fn lemma_outputs(seed: int, n: nat)
    requires
        0 <= seed,
    ensures
        lcg_outputs(seed, n).len() == n,
        forall|i: int| 0 <= i < n ==> 0 <= #[trigger] lcg_outputs(seed, n)[i] < MODULUS,
        forall|i: int|
            0 <= i < n - 1 ==> #[trigger] lcg_outputs(seed, n)[i] != lcg_outputs(seed, n)[i + 1],
    decreases n,
{
    if n > 0 {
        let next = lcg_step(seed);
        let out = lcg_outputs(seed, n);
        let rest = lcg_outputs(next, (n - 1) as nat);
        assert(0 <= next < MODULUS);
        lemma_outputs(next, (n - 1) as nat);
        assert forall|i: int| 0 <= i < n implies 0 <= #[trigger] out[i] < MODULUS by {
            if i > 0 {
                assert(out[i] == rest[i - 1]);
            }
        }
        assert forall|i: int| 0 <= i < n - 1 implies #[trigger] out[i] != out[i + 1] by {
            if i == 0 {
                reveal_with_fuel(lcg_outputs, 2);
                lemma_step_moves(next);
                assert(out[1] == rest[0]);
            } else {
                assert(out[i] == rest[i - 1]);
                assert(out[i + 1] == rest[i]);
            }
        }
    }
}

} // verus!
