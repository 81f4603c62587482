use vstd::prelude::*;

verus! {

/// The number of binary digits of `x`.
pub open spec fn bit_length(x: nat) -> nat
    decreases x,
{
    if x == 0 {
        0
    } else {
        1 + bit_length(x / 2)
    }
}

/// Two to the power `n`.
pub open spec fn two_pow(n: nat) -> nat
    decreases n,
{
    if n == 0 {
        1
    } else {
        2 * two_pow((n - 1) as nat)
    }
}

/// `x` rounded to 24 significant binary digits, ties to even. A positive fraction held as `x`
/// units of 2^-32 keeps exactly this when it is stored in a single-precision float, whose
/// precision is 24 bits (the values met here are far inside its exponent range).
pub open spec fn single_round(x: nat) -> nat {
    if bit_length(x) <= 24 {
        x
    } else {
        let u = two_pow((bit_length(x) - 24) as nat);
        let q = x / u;
        let r = x % u;
        if r * 2 > u || (r * 2 == u && q % 2 == 1) {
            (q + 1) * u
        } else {
            q * u
        }
    }
}

/// A value of `n` binary digits lies in `[2^(n-1), 2^n)`.
pub proof fn lemma_bit_length_range(x: nat)
    ensures
        x < two_pow(bit_length(x)),
        x > 0 ==> two_pow((bit_length(x) - 1) as nat) <= x,
    decreases x,
{
    if x > 0 {
        lemma_bit_length_range(x / 2);
    }
}

/// Powers of two grow with the exponent.
pub proof fn lemma_two_pow_monotone(a: nat, b: nat)
    requires
        a <= b,
    ensures
        two_pow(a) <= two_pow(b),
    decreases b,
{
    if a < b {
        lemma_two_pow_monotone(a, (b - 1) as nat);
    }
}

/// `2^(a + b) == 2^a * 2^b`.
pub proof fn lemma_two_pow_add(a: nat, b: nat)
    ensures
        two_pow(a + b) == two_pow(a) * two_pow(b),
    decreases b,
{
    if b > 0 {
        lemma_two_pow_add(a, (b - 1) as nat);
        assert((a + b - 1) as nat == a + (b - 1) as nat);
        assert(two_pow(a + b) == 2 * two_pow((a + b - 1) as nat));
        assert(two_pow(a) * two_pow(b) == two_pow(a) * (2 * two_pow((b - 1) as nat)));
        assert(two_pow(a) * (2 * two_pow((b - 1) as nat)) == 2 * (two_pow(a) * two_pow((b - 1) as nat)))
            by (nonlinear_arith);
    } else {
        assert(two_pow(b) == 1);
        assert(two_pow(a) * two_pow(b) == two_pow(a)) by (nonlinear_arith)
            requires
                two_pow(b) == 1,
        ;
    }
}

/// A value in `[2^(k-1), 2^k)` has `k` binary digits.
pub proof fn lemma_bit_length_exact(x: nat, k: nat)
    requires
        k > 0,
        two_pow((k - 1) as nat) <= x < two_pow(k),
    ensures
        bit_length(x) == k,
{
    lemma_bit_length_range(x);
    if bit_length(x) > k {
        lemma_two_pow_monotone(k, (bit_length(x) - 1) as nat);
    }
    if bit_length(x) < k {
        lemma_two_pow_monotone(bit_length(x), (k - 1) as nat);
    }
}

/// Values below `2^k` have at most `k` binary digits.
pub proof fn lemma_bit_length_below(x: nat, k: nat)
    requires
        x < two_pow(k),
    ensures
        bit_length(x) <= k,
{
    lemma_bit_length_range(x);
    if bit_length(x) > k {
        lemma_two_pow_monotone(k, (bit_length(x) - 1) as nat);
    }
}

/// `2^32`, `2^33`, `2^56` and `2^57`.
pub proof fn lemma_two_pow_values()
    ensures
        two_pow(32) == 0x1_0000_0000,
        two_pow(33) == 0x2_0000_0000,
        two_pow(56) == 0x0100_0000_0000_0000,
        two_pow(57) == 0x0200_0000_0000_0000,
{
    reveal_with_fuel(two_pow, 58);
}

/// Rounding to 24 significant binary digits moves a value by at most a 2^23-th of it.
pub proof fn lemma_single_round_close(x: nat)
    ensures
        single_round(x) <= x + x / 0x80_0000,
        x <= single_round(x) + x / 0x80_0000,
{
    if bit_length(x) > 24 {
        let n = bit_length(x);
        let u = two_pow((n - 24) as nat);
        lemma_bit_length_range(x);
        lemma_two_pow_add((n - 24) as nat, 23);
        assert((n - 24) as nat + 23 == (n - 1) as nat);
        reveal_with_fuel(two_pow, 24);
        assert(two_pow(23) == 0x80_0000);
        assert(u * 0x80_0000 <= x);
        assert(u >= 1) by {
            lemma_two_pow_monotone(0, (n - 24) as nat);
        }
        assert(u <= x / 0x80_0000) by (nonlinear_arith)
            requires
                u * 0x80_0000 <= x,
        ;
        let q = x / u;
        let r = x % u;
        assert(x == q * u + r && 0 <= r < u) by (nonlinear_arith)
            requires
                u >= 1,
                q == x / u,
                r == x % u,
        ;
        assert((q + 1) * u == q * u + u) by (nonlinear_arith);
    }
}

/// `amount` stored as a single-precision float, multiplied by 0.75 in single precision, and
/// rounded down: the product `3 * s / 4` of the stored `s` is rounded to 24 significant binary
/// digits, which commutes with the division by a power of two.
pub open spec fn float_three_quarters(amount: nat) -> nat {
    single_round(3 * single_round(amount)) / 4
}

/// `amount` stored as a single-precision float, multiplied by 1.5 in single precision, and
/// rounded down (see `float_three_quarters`).
pub open spec fn float_half_again(amount: nat) -> nat {
    single_round(3 * single_round(amount)) / 2
}

/// The float products stay near the exact ones: three quarters of at most the amount, and
/// half as much again of at least the amount, and both within `u64`.
pub proof fn lemma_float_products(amount: nat)
    requires
        amount <= u32::MAX,
    ensures
        float_three_quarters(amount) <= amount,
        float_three_quarters(amount) <= u32::MAX,
        float_half_again(amount) >= amount,
        float_half_again(amount) <= 0x2_0000_0000,
{
    let s = single_round(amount);
    lemma_single_round_close(amount);
    lemma_single_round_close(3 * s);
    let t = single_round(3 * s);
    assert(s <= amount + amount / 0x80_0000);
    assert(amount <= s + amount / 0x80_0000);
    assert(t <= 3 * s + (3 * s) / 0x80_0000);
    assert(3 * s <= t + (3 * s) / 0x80_0000);
    assert(t / 4 <= amount) by (nonlinear_arith)
        requires
            s <= amount + amount / 0x80_0000,
            t <= 3 * s + (3 * s) / 0x80_0000,
            amount <= 0xffff_ffff,
    ;
    assert(t / 2 >= amount) by (nonlinear_arith)
        requires
            amount <= s + amount / 0x80_0000,
            3 * s <= t + (3 * s) / 0x80_0000,
            s <= amount + amount / 0x80_0000,
            amount <= 0xffff_ffff,
    ;
    assert(t / 2 <= 0x2_0000_0000) by (nonlinear_arith)
        requires
            s <= amount + amount / 0x80_0000,
            t <= 3 * s + (3 * s) / 0x80_0000,
            amount <= 0xffff_ffff,
    ;
}

/// `float_three_quarters`, computed.
pub fn float_three_quarters_of(amount: u32) -> (r: u32)
    ensures
        r == float_three_quarters(amount as nat),
{
    proof {
        lemma_float_products(amount as nat);
        lemma_single_round_close(amount as nat);
    }
    let s = round_single(amount as u64);
    let t = round_single(3 * s);
    (t / 4) as u32
}

/// `float_half_again`, computed, then converted to `u32` as a float is: kept at `u32::MAX` when
/// larger.
pub fn float_half_again_of(amount: u32) -> (r: u32)
    ensures
        r == (if float_half_again(amount as nat) > u32::MAX { u32::MAX as nat } else { float_half_again(amount as nat) }),
{
    proof {
        lemma_float_products(amount as nat);
        lemma_single_round_close(amount as nat);
    }
    let s = round_single(amount as u64);
    let t = round_single(3 * s);
    let h = t / 2;
    if h > u32::MAX as u64 { u32::MAX } else { h as u32 }
}

/// `x` rounded to 24 significant binary digits, ties to even (see `single_round`).
pub fn round_single(x: u64) -> (r: u64)
    requires
        x < 0x0200_0000_0000_0000,
    ensures
        r == single_round(x as nat),
        r <= x + 0x2_0000_0000,
{
    proof {
        lemma_two_pow_values();
        lemma_bit_length_below(x as nat, 57);
    }
    let mut n: u64 = 0;
    let mut t: u64 = x;
    while t > 0
        invariant
            bit_length(x as nat) == n + bit_length(t as nat),
            bit_length(x as nat) <= 57,
        decreases t,
    {
        t = t / 2;
        n = n + 1;
    }
    if n <= 24 {
        return x;
    }
    let mut u: u64 = 1;
    let mut k: u64 = 0;
    while k < n - 24
        invariant
            n == bit_length(x as nat),
            24 < n <= 57,
            k <= n - 24,
            u == two_pow(k as nat),
            u >= 1,
            two_pow(33) == 0x2_0000_0000,
        decreases n - 24 - k,
    {
        proof {
            lemma_two_pow_monotone((k + 1) as nat, 33);
        }
        u = u * 2;
        k = k + 1;
    }
    proof {
        lemma_two_pow_monotone(k as nat, 33);
    }
    let q = x / u;
    let r = x % u;
    proof {
        vstd::arithmetic::div_mod::lemma_fundamental_div_mod(x as int, u as int);
        assert((q + 1) * u == u * q + u) by (nonlinear_arith);
        assert(q * u == u * q) by (nonlinear_arith);
    }
    if r * 2 > u || (r * 2 == u && q % 2 == 1) {
        (q + 1) * u
    } else {
        q * u
    }
}

/// The cap under which the room probabilities of the event generator stay: 2^56 units of
/// 2^-32, that is 2^24. Adding a weight of at most one to a value that high is lost to
/// rounding.
pub open spec fn probability_cap() -> nat {
    0x0100_0000_0000_0000
}

/// Rounding a value that does not pass a power of two (of at least 24 digits) does not pass it.
pub proof fn lemma_round_below_power(x: nat, k: nat)
    requires
        24 <= k <= 56,
        x <= two_pow(k),
    ensures
        single_round(x) <= two_pow(k),
{
    lemma_bit_length_range(x);
    let b = bit_length(x);
    if b > 24 {
        lemma_two_pow_monotone(k, k + 1);
        lemma_bit_length_below(x, k + 1);
        let u = two_pow((b - 24) as nat);
        let m = two_pow((k + 24 - b) as nat);
        lemma_two_pow_add((b - 24) as nat, (k + 24 - b) as nat);
        assert((b - 24) as nat + (k + 24 - b) as nat == k);
        assert(two_pow(k) == u * m);
        lemma_two_pow_monotone(0, (b - 24) as nat);
        let q = x / u;
        let r = x % u;
        vstd::arithmetic::div_mod::lemma_fundamental_div_mod(x as int, u as int);
        assert(x == u * q + r);
        if q >= m {
            assert(q * u >= m * u) by (nonlinear_arith)
                requires
                    q >= m,
                    u > 0,
            ;
            assert(r == 0) by (nonlinear_arith)
                requires
                    x == u * q + r,
                    q * u >= m * u,
                    x <= u * m,
                    r >= 0,
            ;
        } else {
            assert((q + 1) * u <= m * u) by (nonlinear_arith)
                requires
                    q + 1 <= m,
                    u > 0,
            ;
        }
        assert(q * u <= x) by (nonlinear_arith)
            requires
                x == u * q + r,
                r >= 0,
        ;
    }
}

/// Adding a weight of at most one to a value within the cap, and rounding, stays within the
/// cap.
pub proof fn lemma_round_sum_within_cap(m: nat, w: nat)
    requires
        m <= probability_cap(),
        w <= 0x1_0000_0000,
    ensures
        single_round(m + w) <= probability_cap(),
{
    let x = m + w;
    lemma_two_pow_values();
    if x <= probability_cap() {
        lemma_round_below_power(x, 56);
    } else {
        lemma_bit_length_exact(x, 57);
        let u: nat = 0x2_0000_0000;
        assert(x / u == 0x80_0000);
        assert(x % u == x - 0x0100_0000_0000_0000);
        assert(two_pow((bit_length(x) - 24) as nat) == u);
        assert(single_round(x) == 0x80_0000 * u);
    }
}

} // verus!
