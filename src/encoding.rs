use vstd::prelude::*;

verus! {

/// The `n`-byte big-endian encoding of `x` (its low `n` bytes, most
/// significant first).
pub open spec fn be_bytes(x: nat, n: nat) -> Seq<u8>
    decreases n,
{
    if n == 0 {
        Seq::empty()
    } else {
        be_bytes(x / 256, (n - 1) as nat).push((x % 256) as u8)
    }
}

/// The unsigned integer whose big-endian encoding is `s`.
pub open spec fn be_value(s: Seq<u8>) -> nat
    decreases s.len(),
{
    if s.len() == 0 {
        0
    } else {
        be_value(s.drop_last()) * 256 + s.last() as nat
    }
}

/// The decimal digits of `n` as ASCII bytes, without leading zeros.
pub open spec fn decimal(n: nat) -> Seq<u8>
    decreases n,
{
    if n < 10 {
        seq![(48 + n) as u8]
    } else {
        decimal(n / 10).push((48 + n % 10) as u8)
    }
}

pub proof fn lemma_be_value_bound(s: Seq<u8>)
    ensures
        be_value(s) < pow256(s.len()),
    decreases s.len(),
{
    if s.len() > 0 {
        lemma_be_value_bound(s.drop_last());
        let v = be_value(s.drop_last());
        let p = pow256(s.drop_last().len());
        assert(v * 256 + (s.last() as nat) < p * 256) by (nonlinear_arith)
            requires
                v < p,
                s.last() < 256,
        ;
    }
}

pub open spec fn pow256(n: nat) -> nat
    decreases n,
{
    if n == 0 {
        1
    } else {
        256 * pow256((n - 1) as nat)
    }
}

/// Writes the low `N` bytes of `x` in big-endian order.
fn be_encode(x: u64, n: usize) -> (r: Vec<u8>)
    requires
        n <= 8,
    ensures
        r@ == be_bytes(x as nat, n as nat),
    decreases n,
{
    if n == 0 {
        Vec::new()
    } else {
        let mut r = be_encode(x / 256, n - 1);
        r.push((x % 256) as u8);
        r
    }
}

/// Big-endian bytes of a `u32`, as `u32::to_be_bytes` gives them.
pub fn u32_be_bytes(x: u32) -> (r: Vec<u8>)
    ensures
        r@ == be_bytes(x as nat, 4),
{
    be_encode(x as u64, 4)
}

/// Big-endian bytes of a `u64`, as `u64::to_be_bytes` gives them.
pub fn u64_be_bytes(x: u64) -> (r: Vec<u8>)
    ensures
        r@ == be_bytes(x as nat, 8),
{
    be_encode(x, 8)
}

/// Reads sixteen bytes as a big-endian `u128`, as `u128::from_be_bytes` does.
pub fn u128_from_be_bytes(b: [u8; 16]) -> (r: u128)
    ensures
        r as nat == be_value(b@),
{
    let mut r: u128 = 0;
    let mut i: usize = 0;
    while i < 16
        invariant
            0 <= i <= 16,
            b@.len() == 16,
            r as nat == be_value(b@.take(i as int)),
        decreases 16 - i,
    {
        proof {
            let s = b@.take(i as int + 1);
            assert(s.drop_last() =~= b@.take(i as int));
            lemma_be_value_bound(b@.take(i as int));
            reveal_with_fuel(pow256, 16);
            lemma_pow256_mono(i as nat, 15);
            assert(r as nat * 256 + b@[i as int] as nat <= 0xffff_ffff_ffff_ffff_ffff_ffff_ffff_ffff) by (nonlinear_arith)
                requires
                    r < pow256(i as nat),
                    pow256(i as nat) <= pow256(15),
                    pow256(15) * 256 == 0x1_0000_0000_0000_0000_0000_0000_0000_0000,
                    b@[i as int] < 256,
            ;
        }
        r = r * 256 + b[i] as u128;
        i = i + 1;
    }
    proof {
        assert(b@.take(16) =~= b@);
    }
    r
}

proof fn lemma_pow256_mono(a: nat, b: nat)
    requires
        a <= b,
    ensures
        pow256(a) <= pow256(b),
    decreases b,
{
    if a < b {
        lemma_pow256_mono(a, (b - 1) as nat);
    }
}

/// The decimal text of `n`, as `n.to_string().into_bytes()` gives it.
pub fn decimal_bytes(n: u64) -> (r: Vec<u8>)
    ensures
        r@ == decimal(n as nat),
    decreases n,
{
    if n < 10 {
        vec![48 + n as u8]
    } else {
        let mut r = decimal_bytes(n / 10);
        r.push(48 + (n % 10) as u8);
        r
    }
}

} // verus!
