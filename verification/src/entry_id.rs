//! Identifiers derived from a UUID and a counter: when a freshly drawn UUID
//! is already in use, replacing 18 of its random hexadecimal digits by a
//! counter gives a family of UUIDs that are pairwise different, so one of
//! them is free.

use vstd::prelude::*;
use vstd::arithmetic::power::pow;
use crate::dictionary::{is_lower_hex, is_uuid_v4_text};

verus! {

broadcast use Seq::lemma_push_map_commute;

/// The lower-case hexadecimal digit for `d`, for `0 <= d < 16`.
pub open spec fn hex_char(d: nat) -> char {
    if d == 0 { '0' } else if d == 1 { '1' } else if d == 2 { '2' } else if d == 3 { '3' }
    else if d == 4 { '4' } else if d == 5 { '5' } else if d == 6 { '6' } else if d == 7 { '7' }
    else if d == 8 { '8' } else if d == 9 { '9' } else if d == 10 { 'a' } else if d == 11 { 'b' }
    else if d == 12 { 'c' } else if d == 13 { 'd' } else if d == 14 { 'e' } else { 'f' }
}

/// The lowest `len` base-16 digits of `k`, least significant first.
pub open spec fn le_digits(k: nat, len: nat) -> Seq<nat>
    decreases len,
{
    if len == 0 {
        seq![]
    } else {
        seq![k % 16] + le_digits(k / 16, (len - 1) as nat)
    }
}

/// `k` has at most `len` base-16 digits.
pub open spec fn fits_digits(k: nat, len: nat) -> bool
    decreases len,
{
    if len == 0 {
        k == 0
    } else {
        fits_digits(k / 16, (len - 1) as nat)
    }
}

/// The 18-digit lower-case hexadecimal text of `k`, most significant first.
pub open spec fn counter_text(k: nat) -> Seq<char> {
    Seq::new(18, |i: int| hex_char(le_digits(k, 18)[17 - i]))
}

/// `base` with its hexadecimal digits at positions 15-17, 20-22 and 24-35
/// replaced, in order, by the 18 digits of `k`.
pub open spec fn derived_id(base: Seq<char>, k: nat) -> Seq<char> {
    let c = counter_text(k);
    base.take(15) + c.subrange(0, 3) + base.subrange(18, 20) + c.subrange(3, 6) + base.subrange(
        23,
        24,
    ) + c.subrange(6, 18)
}

proof fn lemma_hex_char(d: nat, e: nat)
    requires
        d < 16,
        e < 16,
    ensures
        is_lower_hex(hex_char(d)),
        hex_char(d) == hex_char(e) ==> d == e,
{
}

proof fn lemma_le_digits_shape(k: nat, len: nat)
    ensures
        le_digits(k, len).len() == len,
        forall|i: int| 0 <= i < len ==> #[trigger] le_digits(k, len)[i] < 16,
    decreases len,
{
    if len > 0 {
        lemma_le_digits_shape(k / 16, (len - 1) as nat);
        assert forall|i: int| 0 <= i < len implies #[trigger] le_digits(k, len)[i] < 16 by {
            if i > 0 {
                assert(le_digits(k, len)[i] == le_digits(k / 16, (len - 1) as nat)[i - 1]);
            }
        }
    }
}

proof fn lemma_le_digits_injective(a: nat, b: nat, len: nat)
    requires
        fits_digits(a, len),
        fits_digits(b, len),
        le_digits(a, len) == le_digits(b, len),
    ensures
        a == b,
    decreases len,
{
    if len > 0 {
        let da = le_digits(a, len);
        let db = le_digits(b, len);
        assert(da[0] == a % 16);
        assert(db[0] == b % 16);
        assert(da.drop_first() =~= le_digits(a / 16, (len - 1) as nat));
        assert(db.drop_first() =~= le_digits(b / 16, (len - 1) as nat));
        lemma_le_digits_injective(a / 16, b / 16, (len - 1) as nat);
    }
}

proof fn lemma_fits_below_pow(k: nat, len: nat)
    requires
        k < pow(16, len),
    ensures
        fits_digits(k, len),
    decreases len,
{
    if len == 0 {
        assert(pow(16, 0) == 1) by {
            reveal(pow);
        }
    } else {
        let p = pow(16, (len - 1) as nat);
        assert(pow(16, len) == 16 * p) by {
            reveal(pow);
        }
        assert(k / 16 < p) by (nonlinear_arith)
            requires
                k < 16 * p,
        ;
        lemma_fits_below_pow(k / 16, (len - 1) as nat);
    }
}

/// Every 64-bit counter has at most 18 hexadecimal digits.
proof fn lemma_u64_fits(k: u64)
    ensures
        fits_digits(k as nat, 18),
{
    assert(pow(16, 18) == 0x1000000000000000000) by {
        reveal_with_fuel(pow, 19);
    }
    lemma_fits_below_pow(k as nat, 18);
}

/// Different 64-bit counters give different identifiers from the same base.
pub proof fn lemma_derived_ids_differ(base: Seq<char>, a: u64, b: u64)
    requires
        base.len() == 36,
        a != b,
    ensures
        derived_id(base, a as nat) != derived_id(base, b as nat),
{
    if derived_id(base, a as nat) == derived_id(base, b as nat) {
        let x = derived_id(base, a as nat);
        let y = derived_id(base, b as nat);
        let ca = counter_text(a as nat);
        let cb = counter_text(b as nat);
        assert(x.subrange(15, 18) =~= ca.subrange(0, 3));
        assert(x.subrange(20, 23) =~= ca.subrange(3, 6));
        assert(x.subrange(24, 36) =~= ca.subrange(6, 18));
        assert(y.subrange(15, 18) =~= cb.subrange(0, 3));
        assert(y.subrange(20, 23) =~= cb.subrange(3, 6));
        assert(y.subrange(24, 36) =~= cb.subrange(6, 18));
        assert forall|i: int| 0 <= i < 18 implies ca[i] == cb[i] by {
            if i < 3 {
                assert(ca[i] == ca.subrange(0, 3)[i]);
                assert(cb[i] == cb.subrange(0, 3)[i]);
            } else if i < 6 {
                assert(ca[i] == ca.subrange(3, 6)[i - 3]);
                assert(cb[i] == cb.subrange(3, 6)[i - 3]);
            } else {
                assert(ca[i] == ca.subrange(6, 18)[i - 6]);
                assert(cb[i] == cb.subrange(6, 18)[i - 6]);
            }
        }
        lemma_le_digits_shape(a as nat, 18);
        lemma_le_digits_shape(b as nat, 18);
        assert forall|j: int| 0 <= j < 18 implies le_digits(a as nat, 18)[j] == le_digits(
            b as nat,
            18,
        )[j] by {
            assert(ca[17 - j] == cb[17 - j]);
            lemma_hex_char(le_digits(a as nat, 18)[j], le_digits(b as nat, 18)[j]);
        }
        assert(le_digits(a as nat, 18) =~= le_digits(b as nat, 18));
        lemma_u64_fits(a);
        lemma_u64_fits(b);
        lemma_le_digits_injective(a as nat, b as nat, 18);
    }
}

/// An identifier derived from a version 4 UUID is a version 4 UUID.
pub proof fn lemma_derived_id_is_uuid(base: Seq<char>, k: nat)
    requires
        is_uuid_v4_text(base),
    ensures
        is_uuid_v4_text(derived_id(base, k)),
{
    let x = derived_id(base, k);
    let c = counter_text(k);
    lemma_le_digits_shape(k, 18);
    assert forall|i: int| 0 <= i < 18 implies is_lower_hex(#[trigger] c[i]) by {
        lemma_hex_char(le_digits(k, 18)[17 - i], 0);
    }
    assert(x.len() == 36);
    assert forall|i: int|
        0 <= i < 36 implies if i == 8 || i == 13 || i == 18 || i == 23 {
        #[trigger] x[i] == '-'
    } else {
        is_lower_hex(x[i])
    } by {
        if i < 15 {
            assert(x[i] == base[i]);
        } else if i < 18 {
            assert(x[i] == c[i - 15]);
        } else if i < 20 {
            assert(x[i] == base[i]);
        } else if i < 23 {
            assert(x[i] == c[i - 17]);
        } else if i < 24 {
            assert(x[i] == base[i]);
        } else {
            assert(x[i] == c[i - 18]);
        }
    }
    assert(x[14] == base[14]);
    assert(x[19] == base[19]);
}

/// The 18-digit hexadecimal text of a counter.
fn counter_string(k: u64) -> (s: String)
    ensures
        s@ == counter_text(k as nat),
{
    let mut digits: Vec<u64> = Vec::new();
    let mut rem: u64 = k;
    let mut i: usize = 0;
    while i < 18
        invariant
            i <= 18,
            digits@.len() == i,
            forall|j: int| 0 <= j < i ==> #[trigger] digits@[j] < 16,
            le_digits(k as nat, 18) == digits@.map_values(|d: u64| d as nat) + le_digits(
                rem as nat,
                (18 - i) as nat,
            ),
        decreases 18 - i,
    {
        let ghost before = digits@.map_values(|d: u64| d as nat);
        assert(le_digits(rem as nat, (18 - i) as nat) =~= seq![(rem % 16) as nat] + le_digits(
            (rem / 16) as nat,
            (18 - i - 1) as nat,
        ));
        digits.push(rem % 16);
        assert(digits@.map_values(|d: u64| d as nat) =~= before.push((rem % 16) as nat));
        rem = rem / 16;
        i += 1;
    }
    let ghost le = le_digits(k as nat, 18);
    assert(le =~= digits@.map_values(|d: u64| d as nat));
    let hex = "0123456789abcdef";
    proof {
        reveal_strlit("0123456789abcdef");
    }
    assert(hex@ =~= seq!['0', '1', '2', '3', '4', '5', '6', '7', '8', '9', 'a', 'b', 'c', 'd', 'e', 'f']);
    let mut s = String::new();
    let mut j: usize = 0;
    while j < 18
        invariant
            j <= 18,
            digits@.len() == 18,
            forall|m: int| 0 <= m < 18 ==> #[trigger] digits@[m] < 16,
            le == digits@.map_values(|d: u64| d as nat),
            le == le_digits(k as nat, 18),
            hex@ =~= seq!['0', '1', '2', '3', '4', '5', '6', '7', '8', '9', 'a', 'b', 'c', 'd', 'e', 'f'],
            s@ == counter_text(k as nat).take(j as int),
        decreases 18 - j,
    {
        let d = digits[17 - j];
        let piece = hex.substring_char(d as usize, d as usize + 1);
        assert(piece@ =~= seq![hex_char(d as nat)]) by {
            assert(d == 0 || d == 1 || d == 2 || d == 3 || d == 4 || d == 5 || d == 6 || d == 7
                || d == 8 || d == 9 || d == 10 || d == 11 || d == 12 || d == 13 || d == 14 || d == 15);
        }
        assert(counter_text(k as nat)[j as int] == hex_char(le[17 - j]));
        assert(le[17 - j] == d as nat);
        s.append(piece);
        assert(counter_text(k as nat).take(j + 1) =~= counter_text(k as nat).take(j as int).push(
            hex_char(d as nat),
        ));
        j += 1;
    }
    assert(counter_text(k as nat).take(18) =~= counter_text(k as nat));
    s
}

/// The identifier derived from `base` for counter `k`.
pub fn derive_id(base: &String, k: u64) -> (id: String)
    requires
        base@.len() == 36,
    ensures
        id@ == derived_id(base@, k as nat),
{
    let c = counter_string(k);
    let b = base.as_str();
    let cs = c.as_str();
    let mut id = String::from_str(b.substring_char(0, 15));
    id.append(cs.substring_char(0, 3));
    id.append(b.substring_char(18, 20));
    id.append(cs.substring_char(3, 6));
    id.append(b.substring_char(23, 24));
    id.append(cs.substring_char(6, 18));
    assert(base@.subrange(0, 15) =~= base@.take(15));
    id
}

} // verus!
