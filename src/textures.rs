use vstd::prelude::*;
use vstd::string::StringSliceAdditionalSpecFns;

verus! {

/// Entries of a texture archive are named `pics/<n>.png`, `n` the texture's
/// slot, written with one to nine decimal digits.
pub open spec fn name_prefix() -> Seq<u8> {
    seq![112u8, 105u8, 99u8, 115u8, 47u8]
}

pub open spec fn name_suffix() -> Seq<u8> {
    seq![46u8, 112u8, 110u8, 103u8]
}

pub open spec fn is_digit(b: u8) -> bool {
    48 <= b <= 57
}

/// The number written by decimal digits `d`.
pub open spec fn decimal(d: Seq<u8>) -> int
    decreases d.len(),
{
    if d.len() == 0 {
        0
    } else {
        decimal(d.drop_last()) * 10 + (d.last() - 48)
    }
}

pub open spec fn pow10(k: nat) -> nat
    decreases k,
{
    if k == 0 { 1 } else { 10 * pow10((k - 1) as nat) }
}

proof fn lemma_pow10_grows(a: nat, b: nat)
    requires
        a <= b,
    ensures
        1 <= pow10(a) <= pow10(b),
    decreases b,
{
    if b > a {
        lemma_pow10_grows(a, (b - 1) as nat);
    } else if a > 0 {
        lemma_pow10_grows((a - 1) as nat, (a - 1) as nat);
    }
}

/// The digits part of an entry name of the right shape.
pub open spec fn slot_digits(s: Seq<u8>) -> Seq<u8> {
    s.subrange(5, s.len() - 4)
}

pub open spec fn is_slot_name(s: Seq<u8>) -> bool {
    &&& 10 <= s.len() <= 18
    &&& s.subrange(0, 5) == name_prefix()
    &&& s.subrange(s.len() - 4, s.len() as int) == name_suffix()
    &&& forall|i: int| 0 <= i < slot_digits(s).len() ==> is_digit(#[trigger] slot_digits(s)[i])
}

/// The texture slot named by an archive entry, or `None` for any other
/// name (a directory, another file).
pub fn texture_slot(name: &str) -> (r: Option<usize>)
    ensures
        r is Some <==> is_slot_name(name.spec_bytes()),
        r matches Some(v) ==> v == decimal(slot_digits(name.spec_bytes())),
{
    let b = name.as_bytes();
    let n = b.len();
    if n < 10 || n > 18 {
        return None;
    }
    if !(b[0] == 112 && b[1] == 105 && b[2] == 99 && b[3] == 115 && b[4] == 47) {
        proof {
            assert(!(b@.subrange(0, 5) == name_prefix())) by {
                if b@.subrange(0, 5) == name_prefix() {
                    assert(b@.subrange(0, 5)[0] == b@[0]);
                    assert(b@.subrange(0, 5)[1] == b@[1]);
                    assert(b@.subrange(0, 5)[2] == b@[2]);
                    assert(b@.subrange(0, 5)[3] == b@[3]);
                    assert(b@.subrange(0, 5)[4] == b@[4]);
                }
            }
        }
        return None;
    }
    assert(b@.subrange(0, 5) =~= name_prefix());
    if !(b[n - 4] == 46 && b[n - 3] == 112 && b[n - 2] == 110 && b[n - 1] == 103) {
        proof {
            let t = b@.subrange(n - 4, n as int);
            assert(!(t == name_suffix())) by {
                if t == name_suffix() {
                    assert(t[0] == b@[n - 4]);
                    assert(t[1] == b@[n - 3]);
                    assert(t[2] == b@[n - 2]);
                    assert(t[3] == b@[n - 1]);
                }
            }
        }
        return None;
    }
    assert(b@.subrange(n - 4, n as int) =~= name_suffix());
    let ghost d = slot_digits(b@);
    let mut v: usize = 0;
    let mut i: usize = 5;
    while i < n - 4
        invariant
            b@ == name.spec_bytes(),
            n == b@.len(),
            10 <= n <= 18,
            d == slot_digits(b@),
            5 <= i <= n - 4,
            forall|k: int| 0 <= k < i - 5 ==> is_digit(#[trigger] d[k]),
            v == decimal(d.subrange(0, i - 5)),
            v < pow10((i - 5) as nat),
        decreases n - 4 - i,
    {
        let c = b[i];
        if c < 48 || c > 57 {
            assert(d[i - 5] == c);
            return None;
        }
        proof {
            assert(d.subrange(0, i + 1 - 5).drop_last() =~= d.subrange(0, i - 5));
            assert(d.subrange(0, i + 1 - 5).last() == c);
            lemma_pow10_grows((i - 5) as nat, 8);
            reveal_with_fuel(pow10, 9);
            assert(pow10(8) == 100000000);
            let p = pow10((i - 5) as nat);
            assert(pow10((i + 1 - 5) as nat) == 10 * p);
            assert(v * 10 + 9 < p * 10) by (nonlinear_arith)
                requires v < p;
        }
        v = v * 10 + (c - 48) as usize;
        i += 1;
    }
    assert(d.subrange(0, i - 5) =~= d);
    Some(v)
}

} // verus!
