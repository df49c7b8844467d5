//! Natural numbers of any size, held as little-endian 32-bit limbs: enough
//! arithmetic to compute delays that scale by a rational factor many times
//! over and are rounded only once.
use vstd::prelude::*;

verus! {

/// `b` to the power `e`.
pub open spec fn pow_nat(b: nat, e: nat) -> nat
    decreases e,
{
    if e == 0 {
        1
    } else {
        b * pow_nat(b, (e - 1) as nat)
    }
}

/// The base of the limbs, 2^32.
pub open spec fn limb_base() -> nat {
    0x1_0000_0000
}

/// The number that the limbs `s` hold, least significant first.
pub open spec fn big_val(s: Seq<u32>) -> nat
    decreases s.len(),
{
    if s.len() == 0 {
        0
    } else {
        big_val(s.drop_last()) + (s.last() as nat) * pow_nat(limb_base(), (s.len() - 1) as nat)
    }
}

/// A positive base has positive powers.
pub proof fn lemma_pow_positive(b: nat, e: nat)
    requires
        b > 0,
    ensures
        pow_nat(b, e) > 0,
    decreases e,
{
    if e > 0 {
        lemma_pow_positive(b, (e - 1) as nat);
        assert(b * pow_nat(b, (e - 1) as nat) > 0) by (nonlinear_arith)
            requires
                b > 0,
                pow_nat(b, (e - 1) as nat) > 0,
        ;
    }
}

/// Powers add their exponents.
pub proof fn lemma_pow_add(b: nat, e1: nat, e2: nat)
    ensures
        pow_nat(b, e1 + e2) == pow_nat(b, e1) * pow_nat(b, e2),
    decreases e2,
{
    if e2 > 0 {
        let k = (e2 - 1) as nat;
        lemma_pow_add(b, e1, k);
        let p = pow_nat(b, e1);
        let q = pow_nat(b, k);
        assert(pow_nat(b, e1 + k) == p * q);
        assert(((e1 + e2) - 1) as nat == e1 + k);
        assert(pow_nat(b, e1 + e2) == b * pow_nat(b, e1 + k));
        assert(pow_nat(b, e2) == b * q);
        assert(b * (p * q) == p * (b * q)) by (nonlinear_arith);
        assert(pow_nat(b, e1 + e2) == p * pow_nat(b, e2));
    } else {
        assert(pow_nat(b, e2) == 1);
        assert(e1 + e2 == e1);
        assert(pow_nat(b, e1) * 1 == pow_nat(b, e1));
    }
}

/// A larger base gives a power at least as large.
pub proof fn lemma_pow_base_monotone(a: nat, b: nat, e: nat)
    requires
        a <= b,
    ensures
        pow_nat(a, e) <= pow_nat(b, e),
    decreases e,
{
    if e > 0 {
        lemma_pow_base_monotone(a, b, (e - 1) as nat);
        let pa = pow_nat(a, (e - 1) as nat);
        let pb = pow_nat(b, (e - 1) as nat);
        assert(a * pa <= b * pb) by (nonlinear_arith)
            requires
                a <= b,
                pa <= pb,
        ;
    }
}

/// Pushing a limb adds it at the next place.
proof fn lemma_big_val_push(s: Seq<u32>, x: u32)
    ensures
        big_val(s.push(x)) == big_val(s) + (x as nat) * pow_nat(limb_base(), s.len()),
{
    assert(s.push(x).drop_last() =~= s);
}

/// The limbs of a prefix one longer add the next limb.
proof fn lemma_big_val_take(s: Seq<u32>, i: int)
    requires
        0 <= i < s.len(),
    ensures
        big_val(s.take(i + 1)) == big_val(s.take(i)) + (s[i] as nat) * pow_nat(limb_base(), i as nat),
{
    assert(s.take(i + 1).drop_last() =~= s.take(i));
}

/// `n` limbs hold less than 2^(32 n).
proof fn lemma_big_val_bound(s: Seq<u32>)
    ensures
        big_val(s) < pow_nat(limb_base(), s.len()),
    decreases s.len(),
{
    if s.len() > 0 {
        let p = s.len() - 1;
        lemma_big_val_bound(s.drop_last());
        let w = pow_nat(limb_base(), p as nat);
        let v = big_val(s.drop_last());
        let l = s.last() as nat;
        assert(pow_nat(limb_base(), s.len()) == limb_base() * w);
        assert(v + l * w < limb_base() * w) by (nonlinear_arith)
            requires
                v < w,
                l < limb_base(),
        ;
    }
}

/// One step of splitting `v` into a low limb and the rest.
proof fn lemma_split_limb(acc: nat, v: nat, w: nat)
    ensures
        acc + (v % limb_base()) * w + (v / limb_base()) * (limb_base() * w) == acc + v * w,
{
    let b = limb_base();
    let q = v / b;
    let r = v % b;
    assert(v == b * q + r) by (nonlinear_arith)
        requires
            b > 0,
            q == v / b,
            r == v % b,
    ;
    assert(r * w + q * (b * w) == v * w) by (nonlinear_arith)
        requires
            v == b * q + r,
    ;
}

/// The limbs of `v`.
pub fn big_from_u128(v: u128) -> (r: Vec<u32>)
    ensures
        big_val(r@) == v,
{
    let mut r: Vec<u32> = Vec::new();
    let mut rest: u128 = v;
    assert(big_val(r@) == 0);
    assert(pow_nat(limb_base(), 0) == 1);
    while rest > 0
        invariant
            big_val(r@) + rest * pow_nat(limb_base(), r@.len()) == v,
        decreases rest,
    {
        let low: u32 = (rest % 0x1_0000_0000) as u32;
        proof {
            lemma_big_val_push(r@, low);
            lemma_split_limb(big_val(r@), rest as nat, pow_nat(limb_base(), r@.len()));
            assert(pow_nat(limb_base(), r@.len() + 1) == limb_base() * pow_nat(limb_base(), r@.len()));
        }
        r.push(low);
        rest = rest / 0x1_0000_0000;
    }
    r
}

/// The limbs of `a` times `m`.
pub fn big_mul_small(a: &Vec<u32>, m: u64) -> (r: Vec<u32>)
    ensures
        big_val(r@) == big_val(a@) * m,
{
    let mut r: Vec<u32> = Vec::new();
    let mut carry: u64 = 0;
    let mut i: usize = 0;
    assert(big_val(r@) == 0);
    assert(big_val(a@.take(0)) == 0);
    while i < a.len()
        invariant
            i <= a@.len(),
            r@.len() == i,
            big_val(r@) + carry * pow_nat(limb_base(), i as nat) == big_val(a@.take(i as int)) * m,
        decreases a@.len() - i,
    {
        let ai: u128 = a[i] as u128;
        let mm: u128 = m as u128;
        assert(ai * mm <= 0xFFFF_FFFF * 0xFFFF_FFFF_FFFF_FFFF) by (nonlinear_arith)
            requires
                ai <= 0xFFFF_FFFF,
                mm <= 0xFFFF_FFFF_FFFF_FFFF,
        ;
        let t: u128 = ai * mm + (carry as u128);
        let low: u32 = (t % 0x1_0000_0000) as u32;
        let high: u64 = (t / 0x1_0000_0000) as u64;
        proof {
            let w = pow_nat(limb_base(), i as nat);
            lemma_big_val_push(r@, low);
            lemma_big_val_take(a@, i as int);
            lemma_split_limb(big_val(r@), t as nat, w);
            assert(pow_nat(limb_base(), (i + 1) as nat) == limb_base() * w);
            let prev = big_val(a@.take(i as int));
            let ai = a@[i as int] as nat;
            assert(big_val(r@) + t * w == (prev + ai * w) * m) by (nonlinear_arith)
                requires
                    big_val(r@) + carry * w == prev * m,
                    t == ai * m + carry,
            ;
        }
        r.push(low);
        carry = high;
        i = i + 1;
    }
    assert(a@.take(a@.len() as int) =~= a@);
    while carry > 0
        invariant
            big_val(r@) + carry * pow_nat(limb_base(), r@.len()) == big_val(a@) * m,
        decreases carry,
    {
        let low: u32 = (carry % 0x1_0000_0000) as u32;
        proof {
            lemma_big_val_push(r@, low);
            lemma_split_limb(big_val(r@), carry as nat, pow_nat(limb_base(), r@.len()));
            assert(pow_nat(limb_base(), r@.len() + 1) == limb_base() * pow_nat(limb_base(), r@.len()));
        }
        r.push(low);
        carry = carry / 0x1_0000_0000;
    }
    r
}

/// `s` with zero limbs added up to `len` limbs; the number is unchanged.
fn padded(s: &Vec<u32>, len: usize) -> (r: Vec<u32>)
    requires
        s@.len() <= len,
    ensures
        r@.len() == len,
        big_val(r@) == big_val(s@),
{
    let mut r = s.clone();
    assert(r@ == s@);
    while r.len() < len
        invariant
            r@.len() <= len,
            big_val(r@) == big_val(s@),
        decreases len - r@.len(),
    {
        proof {
            lemma_big_val_push(r@, 0);
        }
        r.push(0);
    }
    r
}

/// Whether the number held by `x` is at most that held by `y`.
pub fn big_le(x: &Vec<u32>, y: &Vec<u32>) -> (r: bool)
    ensures
        r == (big_val(x@) <= big_val(y@)),
{
    let len = if x.len() > y.len() { x.len() } else { y.len() };
    let xs = padded(x, len);
    let ys = padded(y, len);
    let mut borrow: u64 = 0;
    let ghost mut d: nat = 0;
    let mut i: usize = 0;
    while i < len
        invariant
            xs@.len() == len,
            ys@.len() == len,
            i <= len,
            borrow <= 1,
            d < pow_nat(limb_base(), i as nat),
            big_val(xs@.take(i as int)) + d == big_val(ys@.take(i as int)) + borrow * pow_nat(
                limb_base(),
                i as nat,
            ),
        decreases len - i,
    {
        let xi = xs[i] as u64;
        let yi = ys[i] as u64;
        let (digit, next): (u64, u64) = if yi >= xi + borrow {
            (yi - xi - borrow, 0)
        } else {
            (yi + 0x1_0000_0000 - xi - borrow, 1)
        };
        proof {
            let w = pow_nat(limb_base(), i as nat);
            lemma_big_val_take(xs@, i as int);
            lemma_big_val_take(ys@, i as int);
            assert(pow_nat(limb_base(), (i + 1) as nat) == limb_base() * w);
            assert(digit + xi + borrow == yi + next * limb_base());
            assert(d + digit * w < limb_base() * w) by (nonlinear_arith)
                requires
                    d < w,
                    digit < limb_base(),
            ;
            let px = big_val(xs@.take(i as int));
            let py = big_val(ys@.take(i as int));
            assert(px + xi * w + (d + digit * w) == py + yi * w + next * (limb_base() * w)) by (nonlinear_arith)
                requires
                    px + d == py + borrow * w,
                    digit + xi + borrow == yi + next * limb_base(),
            ;
            d = (d + digit * w) as nat;
        }
        borrow = next;
        i = i + 1;
    }
    proof {
        assert(xs@.take(len as int) =~= xs@);
        assert(ys@.take(len as int) =~= ys@);
        lemma_big_val_bound(ys@);
    }
    borrow == 0
}


/// `num / den` rounded down, or `cap` when that is at least `cap`.
pub open spec fn capped_quotient(num: nat, den: nat, cap: nat) -> nat {
    if num >= cap * den {
        cap
    } else {
        num / den
    }
}

/// The quotient is `q` when `q * y <= x < (q + 1) * y`.
pub proof fn lemma_quotient_is(x: nat, y: nat, q: nat)
    requires
        y > 0,
        q * y <= x,
        x < q * y + y,
    ensures
        x / y == q,
{
    let r = x / y;
    assert(x == y * r + x % y && 0 <= x % y < y) by (nonlinear_arith)
        requires
            y > 0,
            r == x / y,
    ;
    assert(r == q) by (nonlinear_arith)
        requires
            x == y * r + x % y,
            0 <= x % y < y,
            q * y <= x,
            x < q * y + y,
            y > 0,
    ;
}

/// With a factor of at least 1000/1000 per step, once the scaled value
/// reaches `cap` it stays there.
proof fn lemma_stays_capped(a: nat, b: nat, m: nat, j: nat, k: nat, cap: nat)
    requires
        m >= 1000,
        j <= k,
        a * pow_nat(m, j) >= cap * (b * pow_nat(1000, j)),
    ensures
        a * pow_nat(m, k) >= cap * (b * pow_nat(1000, k)),
    decreases k,
{
    if j < k {
        lemma_stays_capped(a, b, m, j, (k - 1) as nat, cap);
        let pm = pow_nat(m, (k - 1) as nat);
        let pt = pow_nat(1000, (k - 1) as nat);
        assert(a * (m * pm) >= cap * (b * (1000 * pt))) by (nonlinear_arith)
            requires
                a * pm >= cap * (b * pt),
                m >= 1000,
        ;
    }
}

/// With a factor below 1000/1000 per step, once the scaled value is below
/// one it stays there.
proof fn lemma_stays_below_one(a: nat, b: nat, m: nat, j: nat, k: nat)
    requires
        m < 1000,
        j <= k,
        a * pow_nat(m, j) < b * pow_nat(1000, j),
    ensures
        a * pow_nat(m, k) < b * pow_nat(1000, k),
    decreases k,
{
    if j < k {
        lemma_stays_below_one(a, b, m, j, (k - 1) as nat);
        let pm = pow_nat(m, (k - 1) as nat);
        let pt = pow_nat(1000, (k - 1) as nat);
        assert(a * (m * pm) < b * (1000 * pt)) by (nonlinear_arith)
            requires
                a * pm < b * pt,
                m < 1000,
        ;
    }
}

/// `a * m^k / (b * 1000^k)` rounded down once, at the end, and capped at
/// `cap`: the value of `a / b` scaled `k` times by `m / 1000`.
pub fn scaled_floor_capped(a: u128, b: u128, m: u64, k: u32, cap: u64) -> (r: u64)
    requires
        1 <= b <= u64::MAX,
    ensures
        r == capped_quotient((a as nat) * pow_nat(m as nat, k as nat), (b as nat) * pow_nat(1000, k as nat), cap as nat),
{
    let ghost num: nat = (a as nat) * pow_nat(m as nat, k as nat);
    let ghost den: nat = (b as nat) * pow_nat(1000, k as nat);
    proof {
        lemma_pow_positive(1000, k as nat);
        assert(den > 0) by (nonlinear_arith)
            requires
                den == b * pow_nat(1000, k as nat),
                b >= 1,
                pow_nat(1000, k as nat) > 0,
        ;
    }
    if a == 0 {
        proof {
            assert(num == 0);
            if cap > 0 {
                assert(num < cap * den) by (nonlinear_arith)
                    requires
                        num == 0,
                        cap > 0,
                        den > 0,
                ;
                lemma_quotient_is(num, den, 0nat);
            }
        }
        return 0;
    }
    if m == 1000 {
        let ghost p = pow_nat(1000, k as nat);
        assert(num == a * p && den == b * p);
        assert((cap as u128) * b <= 0xFFFF_FFFF_FFFF_FFFF * 0xFFFF_FFFF_FFFF_FFFF) by (nonlinear_arith)
            requires
                cap <= 0xFFFF_FFFF_FFFF_FFFF,
                b <= 0xFFFF_FFFF_FFFF_FFFF,
        ;
        if a >= (cap as u128) * b {
            assert(num >= cap * den) by (nonlinear_arith)
                requires
                    a >= cap * b,
                    num == a * p,
                    den == b * p,
            ;
            return cap;
        }
        let q: u128 = a / b;
        proof {
            assert(q * b <= a && a < q * b + b) by (nonlinear_arith)
                requires
                    q == a / b,
                    b > 0,
            ;
            assert(num < cap * den && q * den <= num && num < q * den + den) by (nonlinear_arith)
                requires
                    a < cap * b,
                    q * b <= a,
                    a < q * b + b,
                    num == a * p,
                    den == b * p,
                    p > 0,
            ;
            lemma_quotient_is(num, den, q as nat);
            assert(q < cap) by (nonlinear_arith)
                requires
                    q * b <= a,
                    a < cap * b,
                    b > 0,
            ;
        }
        return q as u64;
    }
    let mut n = big_from_u128(a);
    let mut d = big_from_u128(b);
    let mut j: u32 = 0;
    assert(pow_nat(m as nat, 0) == 1 && pow_nat(1000, 0) == 1);
    while j < k
        invariant
            j <= k,
            m != 1000,
            b >= 1,
            num == a * pow_nat(m as nat, k as nat),
            den == b * pow_nat(1000, k as nat),
            big_val(n@) == a * pow_nat(m as nat, j as nat),
            big_val(d@) == b * pow_nat(1000, j as nat),
        decreases k - j,
    {
        if m > 1000 {
            let capped = big_mul_small(&d, cap);
            if big_le(&capped, &n) {
                proof {
                    let bd = b * pow_nat(1000, j as nat);
                    assert(bd * cap == cap * bd) by (nonlinear_arith);
                    lemma_stays_capped(a as nat, b as nat, m as nat, j as nat, k as nat, cap as nat);
                }
                return cap;
            }
        } else {
            if !big_le(&d, &n) {
                proof {
                    lemma_stays_below_one(a as nat, b as nat, m as nat, j as nat, k as nat);
                    if cap > 0 {
                        assert(num < cap * den) by (nonlinear_arith)
                            requires
                                num < den,
                                cap >= 1,
                        ;
                        lemma_quotient_is(num, den, 0nat);
                    }
                }
                return 0;
            }
        }
        let ghost pm = pow_nat(m as nat, j as nat);
        let ghost pt = pow_nat(1000, j as nat);
        n = big_mul_small(&n, m);
        d = big_mul_small(&d, 1000);
        proof {
            assert(pow_nat(m as nat, (j + 1) as nat) == m * pm);
            assert(pow_nat(1000, (j + 1) as nat) == 1000 * pt);
            assert(a * pm * m == a * (m * pm)) by (nonlinear_arith);
            assert(b * pt * 1000 == b * (1000 * pt)) by (nonlinear_arith);
        }
        j = j + 1;
    }
    let capped = big_mul_small(&d, cap);
    assert(den * cap == cap * den) by (nonlinear_arith);
    if big_le(&capped, &n) {
        return cap;
    }
    let mut lo: u64 = 0;
    let mut hi: u64 = cap;
    assert(lo * den <= num);
    while hi - lo > 1
        invariant
            lo < hi <= cap,
            big_val(n@) == num,
            big_val(d@) == den,
            den > 0,
            lo * den <= num,
            num < hi * den,
        decreases hi - lo,
    {
        let mid: u64 = lo + (hi - lo) / 2;
        let scaled = big_mul_small(&d, mid);
        assert(den * mid == mid * den) by (nonlinear_arith);
        if big_le(&scaled, &n) {
            lo = mid;
        } else {
            hi = mid;
        }
    }
    proof {
        assert(hi == lo + 1);
        assert(num < lo * den + den) by (nonlinear_arith)
            requires
                num < hi * den,
                hi == lo + 1,
        ;
        lemma_quotient_is(num, den, lo as nat);
    }
    lo
}


/// A capped quotient never exceeds its cap.
pub proof fn lemma_capped_quotient_le_cap(num: nat, den: nat, cap: nat)
    requires
        den > 0,
    ensures
        capped_quotient(num, den, cap) <= cap,
{
    if num < cap * den {
        let q = num / den;
        assert(q * den <= num) by (nonlinear_arith)
            requires
                q == num / den,
                den > 0,
        ;
        assert(q < cap) by (nonlinear_arith)
            requires
                q * den <= num,
                num < cap * den,
                den > 0,
        ;
    }
}

/// A larger fraction has a capped quotient at least as large.
pub proof fn lemma_capped_quotient_monotone(n1: nat, d1: nat, n2: nat, d2: nat, cap: nat)
    requires
        d1 > 0,
        d2 > 0,
        n1 * d2 <= n2 * d1,
    ensures
        capped_quotient(n1, d1, cap) <= capped_quotient(n2, d2, cap),
{
    lemma_capped_quotient_le_cap(n1, d1, cap);
    if n1 >= cap * d1 {
        assert(n2 >= cap * d2) by (nonlinear_arith)
            requires
                n1 >= cap * d1,
                n1 * d2 <= n2 * d1,
                d1 > 0,
                d2 > 0,
        ;
    } else if n2 < cap * d2 {
        let q1 = n1 / d1;
        let q2 = n2 / d2;
        assert(q1 * d1 <= n1 && n2 < q2 * d2 + d2) by (nonlinear_arith)
            requires
                q1 == n1 / d1,
                q2 == n2 / d2,
                d1 > 0,
                d2 > 0,
        ;
        assert(q1 <= q2) by (nonlinear_arith)
            requires
                q1 * d1 <= n1,
                n1 * d2 <= n2 * d1,
                n2 < q2 * d2 + d2,
                d1 > 0,
                d2 > 0,
        ;
    }
}

/// A capped quotient below its cap rises by at least one when the
/// numerator reaches one more multiple of the denominator.
pub proof fn lemma_capped_quotient_step(n1: nat, n2: nat, den: nat, cap: nat)
    requires
        den > 0,
        n1 < cap * den,
        n2 >= (n1 / den + 1) * den,
    ensures
        capped_quotient(n2, den, cap) > capped_quotient(n1, den, cap),
{
    let q1 = n1 / den;
    assert(q1 * den <= n1) by (nonlinear_arith)
        requires
            q1 == n1 / den,
            den > 0,
    ;
    assert(q1 < cap) by (nonlinear_arith)
        requires
            q1 * den <= n1,
            n1 < cap * den,
            den > 0,
    ;
    if n2 < cap * den {
        let q2 = n2 / den;
        assert(n2 < q2 * den + den) by (nonlinear_arith)
            requires
                q2 == n2 / den,
                den > 0,
        ;
        assert(q2 > q1) by (nonlinear_arith)
            requires
                n2 >= (q1 + 1) * den,
                n2 < q2 * den + den,
                den > 0,
        ;
    }
}

} // verus!
