use vstd::prelude::*;
use vstd::arithmetic::div_mod::{
    lemma_div_denominator, lemma_fundamental_div_mod, lemma_fundamental_div_mod_converse,
    lemma_multiply_divide_lt,
};
use vstd::string::{StrSliceExecFns, StringExecFns};
use crate::errors::Error;

verus! {

// The prime modulus of the network's field is P = 2^251 + 17 * 2^192 + 1.
// Little-endian in base 2^64 its limbs are [1, 0, 0, P_LIMB_3].
pub const P_LIMB_0: u64 = 1;
pub const P_LIMB_3: u64 = 0x0800000000000011;

/// A 252-bit field element: the scalar type every address, selector, call
/// argument, class hash and transaction hash is made of.
///
/// Held as four 64-bit limbs, little-endian. Well-formed when the value it
/// stands for lies below the field's prime modulus.
#[derive(Clone, Copy, Debug, PartialEq, Eq, Structural)]
pub struct Felt {
    pub d0: u64,
    pub d1: u64,
    pub d2: u64,
    pub d3: u64,
}

/// 16 raised to `n`.
pub open spec fn pow16(n: nat) -> nat
    decreases n,
{
    if n == 0 {
        1
    } else {
        16 * pow16((n - 1) as nat)
    }
}

/// The prime modulus P = 2^251 + 17 * 2^192 + 1.
pub open spec fn p_modulus() -> nat {
    0x800000000000011000000000000000000000000000000000000000000000001nat
}

impl Felt {
    /// The integer this felt stands for.
    pub open spec fn value(self) -> nat {
        (self.d0 + self.d1 * 0x10000000000000000int + self.d2 * 0x100000000000000000000000000000000int
            + self.d3 * 0x1000000000000000000000000000000000000000000000000int) as nat
    }

    /// Well-formed: the value lies in the field.
    pub open spec fn wf(self) -> bool {
        self.value() < p_modulus()
    }

    /// The zero element.
    pub fn zero() -> (r: Felt)
        ensures
            r == felt_zero(),
            r.value() == 0,
            r.wf(),
    {
        Felt { d0: 0, d1: 0, d2: 0, d3: 0 }
    }
}

/// The zero element.
pub open spec fn felt_zero() -> Felt {
    Felt { d0: 0, d1: 0, d2: 0, d3: 0 }
}

/// Each felt of a sequence, canonically serialized.
pub open spec fn felt_seq_hex(fs: Seq<Felt>) -> Seq<Seq<char>> {
    Seq::new(fs.len(), |i: int| fs[i].to_hex_spec())
}

/// The felt whose value is `v % 2^256`, limb by limb.
pub open spec fn felt_of_nat(v: nat) -> Felt {
    Felt {
        d0: (v % 0x10000000000000000nat) as u64,
        d1: ((v / 0x10000000000000000nat) % 0x10000000000000000nat) as u64,
        d2: ((v / 0x100000000000000000000000000000000nat) % 0x10000000000000000nat) as u64,
        d3: ((v / 0x1000000000000000000000000000000000000000000000000nat) % 0x10000000000000000nat) as u64,
    }
}

/// `c` is an ASCII hex digit, either case.
pub open spec fn is_hex_digit(c: char) -> bool {
    (48 <= c as u32 && c as u32 <= 57) || (97 <= c as u32 && c as u32 <= 102) || (65 <= c as u32
        && c as u32 <= 70)
}

/// `c` is a lower-case ASCII hex digit.
pub open spec fn is_lower_hex_digit(c: char) -> bool {
    (48 <= c as u32 && c as u32 <= 57) || (97 <= c as u32 && c as u32 <= 102)
}

/// The numeric value of a hex digit; 0 on other characters.
pub open spec fn hex_digit_value(c: char) -> nat {
    if 48 <= c as u32 && c as u32 <= 57 {
        (c as u32 - 48) as nat
    } else if 97 <= c as u32 && c as u32 <= 102 {
        (c as u32 - 87) as nat
    } else if 65 <= c as u32 && c as u32 <= 70 {
        (c as u32 - 55) as nat
    } else {
        0
    }
}

pub open spec fn all_hex_digits(s: Seq<char>) -> bool {
    forall|i: int| 0 <= i < s.len() ==> is_hex_digit(#[trigger] s[i])
}

pub open spec fn all_lower_hex_digits(s: Seq<char>) -> bool {
    forall|i: int| 0 <= i < s.len() ==> is_lower_hex_digit(#[trigger] s[i])
}

/// The big-endian base-16 value of a digit string.
pub open spec fn hex_value(s: Seq<char>) -> nat
    decreases s.len(),
{
    if s.len() == 0 {
        0
    } else {
        (16 * hex_value(s.drop_last()) + hex_digit_value(s.last())) as nat
    }
}

/// The big-endian base-16 value of a string of nibbles.
pub open spec fn digits_value(s: Seq<u8>) -> nat
    decreases s.len(),
{
    if s.len() == 0 {
        0
    } else {
        (16 * digits_value(s.drop_last()) + s.last()) as nat
    }
}

pub open spec fn all_nibbles(s: Seq<u8>) -> bool {
    forall|i: int| 0 <= i < s.len() ==> #[trigger] s[i] < 16
}

/// A hex string with at most one optional `0x` prefix removed.
pub open spec fn strip_hex_prefix(s: Seq<char>) -> Seq<char> {
    if s.len() >= 2 && s[0] == '0' && s[1] == 'x' {
        s.skip(2)
    } else {
        s
    }
}

/// The strings the codec accepts: an optional `0x` prefix, then at most 64
/// hex digits whose value lies in the field.
pub open spec fn hex_decodes_to_felt(s: Seq<char>) -> bool {
    let t = strip_hex_prefix(s);
    t.len() <= 64 && all_hex_digits(t) && hex_value(t) < p_modulus()
}

/// What decoding a string yields, if anything.
pub open spec fn felt_from_hex_spec(s: Seq<char>) -> Option<Felt> {
    if hex_decodes_to_felt(s) {
        Some(felt_of_nat(hex_value(strip_hex_prefix(s))))
    } else {
        None
    }
}

/// The canonical serialization of a felt: `0x`, then exactly 64 lower-case
/// hex digits, zero-padded, with a value inside the field.
pub open spec fn is_canonical_felt_hex(s: Seq<char>) -> bool {
    s.len() == 66 && s[0] == '0' && s[1] == 'x' && all_lower_hex_digits(s.skip(2)) && hex_value(
        s.skip(2),
    ) < p_modulus()
}

/// `d`, zero-padded on the left to 64 nibbles.
pub open spec fn padded_digits(d: Seq<u8>) -> Seq<u8> {
    Seq::new(64, |m: int| if m < 64 - d.len() { 0u8 } else { d[m - (64 - d.len())] })
}

pub proof fn lemma_pow16_values()
    ensures
        pow16(15) == 0x1000000000000000,
        pow16(16) == 0x10000000000000000int,
        pow16(32) == 0x100000000000000000000000000000000int,
        pow16(48) == 0x1000000000000000000000000000000000000000000000000int,
        pow16(64) == 0x10000000000000000000000000000000000000000000000000000000000000000int,
{
    reveal_with_fuel(pow16, 17);
    lemma_pow16_add(16, 16);
    lemma_pow16_add(32, 16);
    lemma_pow16_add(48, 16);
}

pub proof fn lemma_pow16_add(a: nat, b: nat)
    ensures
        pow16((a + b) as nat) == pow16(a) * pow16(b),
    decreases a,
{
    if a == 0 {
        assert(pow16(b) * 1 == pow16(b));
        assert(1 * pow16(b) == pow16(b));
    } else {
        lemma_pow16_add((a - 1) as nat, b);
        assert(16 * (pow16((a - 1) as nat) * pow16(b)) == (16 * pow16((a - 1) as nat)) * pow16(
            b,
        )) by (nonlinear_arith);
    }
}

pub proof fn lemma_pow16_pos(n: nat)
    ensures
        pow16(n) >= 1,
    decreases n,
{
    if n > 0 {
        lemma_pow16_pos((n - 1) as nat);
    }
}

pub proof fn lemma_pow16_mono(a: nat, b: nat)
    requires
        a <= b,
    ensures
        1 <= pow16(a) <= pow16(b),
    decreases b,
{
    lemma_pow16_pos(a);
    if a < b {
        lemma_pow16_mono(a, (b - 1) as nat);
    }
}

pub proof fn lemma_digits_value_bound(s: Seq<u8>)
    requires
        all_nibbles(s),
    ensures
        digits_value(s) < pow16(s.len()),
    decreases s.len(),
{
    if s.len() > 0 {
        assert(all_nibbles(s.drop_last())) by {
            assert(forall|i: int|
                0 <= i < s.len() - 1 ==> #[trigger] s.drop_last()[i] == s[i]);
        }
        lemma_digits_value_bound(s.drop_last());
    }
}

pub proof fn lemma_digits_value_append(a: Seq<u8>, b: Seq<u8>)
    ensures
        digits_value(a + b) == digits_value(a) * pow16(b.len()) + digits_value(b),
    decreases b.len(),
{
    if b.len() == 0 {
        assert(a + b =~= a);
        assert(pow16(0) == 1);
        assert(digits_value(b) == 0);
        assert(digits_value(a) * 1 == digits_value(a));
    } else {
        lemma_digits_value_append(a, b.drop_last());
        assert((a + b).drop_last() =~= a + b.drop_last());
        assert((a + b).last() == b.last());
        let da = digits_value(a);
        let db = digits_value(b.drop_last());
        let p = pow16((b.len() - 1) as nat);
        assert(digits_value(a + b) == 16 * (da * p + db) + b.last());
        assert(pow16(b.len()) == 16 * p);
        assert(digits_value(b) == 16 * db + b.last());
        assert(16 * (da * p + db) == da * (16 * p) + 16 * db) by (nonlinear_arith);
        assert(da * pow16(b.len()) == da * (16 * p));
        assert(digits_value(a + b) == da * pow16(b.len()) + digits_value(b));
    }
}

pub proof fn lemma_digits_value_of_zeros(s: Seq<u8>)
    requires
        forall|i: int| 0 <= i < s.len() ==> #[trigger] s[i] == 0,
    ensures
        digits_value(s) == 0,
    decreases s.len(),
{
    if s.len() > 0 {
        assert(forall|i: int| 0 <= i < s.len() - 1 ==> #[trigger] s.drop_last()[i] == s[i]);
        lemma_digits_value_of_zeros(s.drop_last());
    }
}

pub proof fn lemma_hex_value_as_digits(t: Seq<char>, d: Seq<u8>)
    requires
        d.len() == t.len(),
        forall|j: int| 0 <= j < t.len() ==> #[trigger] d[j] == hex_digit_value(t[j]),
    ensures
        digits_value(d) == hex_value(t),
    decreases t.len(),
{
    if t.len() > 0 {
        assert(forall|j: int|
            0 <= j < t.len() - 1 ==> #[trigger] d.drop_last()[j] == hex_digit_value(
                t.drop_last()[j],
            )) by {
            assert(forall|j: int| 0 <= j < t.len() - 1 ==> #[trigger] d.drop_last()[j] == d[j]);
            assert(forall|j: int| 0 <= j < t.len() - 1 ==> #[trigger] t.drop_last()[j] == t[j]);
        }
        lemma_hex_value_as_digits(t.drop_last(), d.drop_last());
        assert(d.last() == hex_digit_value(t.last()));
    }
}

/// The limb comparison that decides membership in the field.
pub proof fn lemma_value_below_modulus(f: Felt)
    ensures
        f.wf() <==> (f.d3 < P_LIMB_3 || (f.d3 == P_LIMB_3 && f.d2 == 0 && f.d1 == 0 && f.d0
            < P_LIMB_0)),
{
}

/// A felt is recovered, limb by limb, from its value.
pub proof fn lemma_felt_of_value(f: Felt)
    ensures
        felt_of_nat(f.value()) == f,
{
    let b1: int = 0x10000000000000000int;
    let b2: int = 0x100000000000000000000000000000000int;
    let b3: int = 0x1000000000000000000000000000000000000000000000000int;
    let v = f.value() as int;
    let q1: int = f.d1 + f.d2 * b1 + f.d3 * b2;
    assert(v == q1 * b1 + f.d0);
    lemma_fundamental_div_mod_converse(v, b1, q1, f.d0 as int);
    let q2: int = f.d2 + f.d3 * b1;
    assert(q1 == q2 * b1 + f.d1);
    lemma_fundamental_div_mod_converse(q1, b1, q2, f.d1 as int);
    assert(v == q2 * b2 + (f.d1 * b1 + f.d0));
    lemma_fundamental_div_mod_converse(v, b2, q2, f.d1 * b1 + f.d0);
    assert(q2 == f.d3 as int * b1 + f.d2);
    lemma_fundamental_div_mod_converse(q2, b1, f.d3 as int, f.d2 as int);
    assert(v == f.d3 as int * b3 + (f.d2 * b2 + f.d1 * b1 + f.d0));
    lemma_fundamental_div_mod_converse(v, b3, f.d3 as int, f.d2 * b2 + f.d1 * b1 + f.d0);
    lemma_fundamental_div_mod_converse(f.d3 as int, b1, 0, f.d3 as int);
    assert(felt_of_nat(f.value()).d0 == f.d0);
    assert(felt_of_nat(f.value()).d1 == f.d1);
    assert(felt_of_nat(f.value()).d2 == f.d2);
    assert(felt_of_nat(f.value()).d3 == f.d3);
}

/// Relies on `String::push`: appends exactly the one character.
#[verifier::external_body]
pub(crate) fn push_char(s: &mut String, c: char)
    ensures
        final(s)@ == old(s)@.push(c),
{
    s.push(c);
}

/// One limb read out of the zero-padded nibble string, 16 nibbles starting
/// at `base`.
fn limb_from_digits(digits: &Vec<u8>, pad: usize, base: usize) -> (l: u64)
    requires
        digits@.len() + pad == 64,
        base + 16 <= 64,
        all_nibbles(digits@),
    ensures
        l as nat == digits_value(padded_digits(digits@).subrange(base as int, base as int + 16)),
{
    proof {
        lemma_pow16_values();
    }
    let ghost p = padded_digits(digits@);
    let mut acc: u64 = 0;
    let mut j: usize = 0;
    while j < 16
        invariant
            j <= 16,
            base + 16 <= 64,
            digits@.len() + pad == 64,
            all_nibbles(digits@),
            p == padded_digits(digits@),
            acc as nat == digits_value(p.subrange(base as int, base as int + j as int)),
            (acc as nat) < pow16(j as nat),
            pow16(15) == 0x1000000000000000,
            pow16(16) == 0x10000000000000000int,
        decreases 16 - j,
    {
        let m = base + j;
        let dv: u8 = if m < pad {
            0
        } else {
            digits[m - pad]
        };
        proof {
            assert(p[m as int] == dv);
            let pre = p.subrange(base as int, base as int + j as int);
            let nxt = p.subrange(base as int, base as int + j as int + 1);
            assert(nxt.drop_last() =~= pre);
            assert(nxt.last() == p[m as int]);
            lemma_pow16_mono(j as nat, 15);
            assert(all_nibbles(nxt)) by {
                assert(forall|i: int| 0 <= i < nxt.len() ==> nxt[i] == p[base + i]);
                assert(forall|i: int| 0 <= i < 64 ==> #[trigger] p[i] < 16);
            }
        }
        acc = acc * 16 + dv as u64;
        j += 1;
        proof {
            lemma_digits_value_bound(p.subrange(base as int, base as int + j as int));
            lemma_pow16_mono(j as nat, 16);
        }
    }
    acc
}

/// Decodes a hex string, with or without a `0x` prefix, into a felt.
///
/// Succeeds exactly on strings of at most 64 hex digits (after the prefix)
/// whose value lies in the field; anything else is `InvalidFieldElement`.
pub fn felt_from_hex(s: &str) -> (r: Result<Felt, Error>)
    ensures
        match r {
            Ok(f) => felt_from_hex_spec(s@) == Some(f) && f.wf() && f.value() == hex_value(
                strip_hex_prefix(s@),
            ),
            Err(e) => felt_from_hex_spec(s@) is None && (e matches Error::InvalidFieldElement(m)
                && m@ == s@),
        },
{
    let n = s.unicode_len();
    let start: usize = if n >= 2 && s.get_char(0) == '0' && s.get_char(1) == 'x' {
        2
    } else {
        0
    };
    let ghost t = strip_hex_prefix(s@);
    proof {
        assert(t =~= s@.skip(start as int));
    }
    if n - start > 64 {
        return Err(Error::InvalidFieldElement(String::from_str(s)));
    }
    let mut digits: Vec<u8> = Vec::new();
    let mut i: usize = start;
    while i < n
        invariant
            start <= i <= n,
            n - start <= 64,
            n == s@.len(),
            t == s@.skip(start as int),
            t == strip_hex_prefix(s@),
            digits@.len() == i - start,
            forall|j: int| 0 <= j < digits@.len() ==> is_hex_digit(#[trigger] t[j]),
            forall|j: int| 0 <= j < digits@.len() ==> #[trigger] digits@[j] < 16,
            forall|j: int|
                0 <= j < digits@.len() ==> #[trigger] digits@[j] == hex_digit_value(t[j]),
        decreases n - i,
    {
        let c = s.get_char(i);
        let u: u32 = c as u32;
        let d: u8 = if 48 <= u && u <= 57 {
            (u - 48) as u8
        } else if 97 <= u && u <= 102 {
            (u - 87) as u8
        } else if 65 <= u && u <= 70 {
            (u - 55) as u8
        } else {
            proof {
                assert(t[i - start] == s@[i as int]);
                assert(!is_hex_digit(t[i - start]));
            }
            return Err(Error::InvalidFieldElement(String::from_str(s)));
        };
        digits.push(d);
        i += 1;
    }
    proof {
        assert(all_hex_digits(t));
        lemma_hex_value_as_digits(t, digits@);
    }
    let pad: usize = 64 - (n - start);
    let l3 = limb_from_digits(&digits, pad, 0);
    let l2 = limb_from_digits(&digits, pad, 16);
    let l1 = limb_from_digits(&digits, pad, 32);
    let l0 = limb_from_digits(&digits, pad, 48);
    let f = Felt { d0: l0, d1: l1, d2: l2, d3: l3 };
    proof {
        let p = padded_digits(digits@);
        lemma_pow16_values();
        assert(p =~= p.subrange(0, 16) + p.subrange(16, 32) + p.subrange(32, 48) + p.subrange(
            48,
            64,
        ));
        lemma_digits_value_append(
            p.subrange(0, 16) + p.subrange(16, 32) + p.subrange(32, 48),
            p.subrange(48, 64),
        );
        lemma_digits_value_append(p.subrange(0, 16) + p.subrange(16, 32), p.subrange(32, 48));
        lemma_digits_value_append(p.subrange(0, 16), p.subrange(16, 32));
        let zs = Seq::new((64 - digits@.len()) as nat, |m: int| 0u8);
        assert(p =~= zs + digits@);
        lemma_digits_value_of_zeros(zs);
        lemma_digits_value_append(zs, digits@);
        assert(digits_value(p) == ((digits_value(p.subrange(0, 16)) * pow16(16) + digits_value(
            p.subrange(16, 32),
        )) * pow16(16) + digits_value(p.subrange(32, 48))) * pow16(16) + digits_value(
            p.subrange(48, 64),
        ));
        assert(f.value() == digits_value(p)) by (nonlinear_arith)
            requires
                f.d0 == digits_value(p.subrange(48, 64)),
                f.d1 == digits_value(p.subrange(32, 48)),
                f.d2 == digits_value(p.subrange(16, 32)),
                f.d3 == digits_value(p.subrange(0, 16)),
                digits_value(p) == ((digits_value(p.subrange(0, 16)) * pow16(16) + digits_value(
                    p.subrange(16, 32),
                )) * pow16(16) + digits_value(p.subrange(32, 48))) * pow16(16) + digits_value(
                    p.subrange(48, 64),
                ),
                pow16(16) == 0x10000000000000000int,
                f.value() == (f.d0 + f.d1 * 0x10000000000000000int + f.d2
                    * 0x100000000000000000000000000000000int + f.d3
                    * 0x1000000000000000000000000000000000000000000000000int) as nat,
        ;
        assert(f.value() == hex_value(t));
        lemma_value_below_modulus(f);
    }
    if l3 < P_LIMB_3 || (l3 == P_LIMB_3 && l2 == 0 && l1 == 0 && l0 < P_LIMB_0) {
        proof {
            lemma_felt_of_value(f);
        }
        Ok(f)
    } else {
        Err(Error::InvalidFieldElement(String::from_str(s)))
    }
}

} // verus!

verus! {

/// The lower-case hex digit character for a nibble.
pub open spec fn hex_digit_char(v: nat) -> char {
    if v < 10 {
        ((v + 48) as u8) as char
    } else {
        ((v + 87) as u8) as char
    }
}

/// `v` written as `n` big-endian lower-case hex digits, truncated to the
/// low `4 * n` bits.
pub open spec fn hex_digits(v: nat, n: nat) -> Seq<char>
    decreases n,
{
    if n == 0 {
        Seq::<char>::empty()
    } else {
        hex_digits(v / 16, (n - 1) as nat).push(hex_digit_char(v % 16))
    }
}

impl Felt {
    /// The canonical serialization: `0x`, then each limb as 16 hex digits,
    /// most significant limb first.
    pub open spec fn to_hex_spec(self) -> Seq<char> {
        seq!['0', 'x'] + hex_digits(self.d3 as nat, 16) + hex_digits(self.d2 as nat, 16)
            + hex_digits(self.d1 as nat, 16) + hex_digits(self.d0 as nat, 16)
    }
}

pub proof fn lemma_hex_digit_char_value(v: nat)
    requires
        v < 16,
    ensures
        is_lower_hex_digit(hex_digit_char(v)),
        hex_digit_value(hex_digit_char(v)) == v,
{
}

/// The digits of `v` decode back to `v`, and are well-formed.
pub proof fn lemma_hex_digits_props(v: nat, n: nat)
    requires
        v < pow16(n),
    ensures
        hex_digits(v, n).len() == n,
        all_lower_hex_digits(hex_digits(v, n)),
        all_hex_digits(hex_digits(v, n)),
        hex_value(hex_digits(v, n)) == v,
    decreases n,
{
    if n == 0 {
    } else {
        let s = hex_digits(v, n);
        let pre = hex_digits(v / 16, (n - 1) as nat);
        lemma_multiply_divide_lt(v as int, 16, pow16((n - 1) as nat) as int);
        lemma_hex_digits_props(v / 16, (n - 1) as nat);
        lemma_hex_digit_char_value(v % 16);
        assert(s.drop_last() =~= pre);
        assert(s.last() == hex_digit_char(v % 16));
        lemma_fundamental_div_mod(v as int, 16);
        assert(hex_value(s) == 16 * (v / 16) + (v % 16));
        assert(forall|i: int|
            0 <= i < n - 1 ==> #[trigger] s[i] == pre[i]);
        assert(forall|i: int|
            0 <= i < n ==> is_lower_hex_digit(#[trigger] s[i]) && is_hex_digit(s[i])) by {
            assert(forall|i: int|
                0 <= i < n - 1 ==> is_lower_hex_digit(#[trigger] pre[i]) && is_hex_digit(pre[i]));
            assert(is_lower_hex_digit(s[n - 1]) && is_hex_digit(s[n - 1]));
        }
    }
}

pub proof fn lemma_hex_value_append(a: Seq<char>, b: Seq<char>)
    ensures
        hex_value(a + b) == hex_value(a) * pow16(b.len()) + hex_value(b),
    decreases b.len(),
{
    if b.len() == 0 {
        assert(a + b =~= a);
        assert(pow16(0) == 1);
        assert(hex_value(b) == 0);
        assert(hex_value(a) * 1 == hex_value(a));
    } else {
        lemma_hex_value_append(a, b.drop_last());
        assert((a + b).drop_last() =~= a + b.drop_last());
        assert((a + b).last() == b.last());
        let ha = hex_value(a);
        let hb = hex_value(b.drop_last());
        let p = pow16((b.len() - 1) as nat);
        assert(hex_value(a + b) == 16 * (ha * p + hb) + hex_digit_value(b.last()));
        assert(pow16(b.len()) == 16 * p);
        assert(hex_value(b) == 16 * hb + hex_digit_value(b.last()));
        assert(16 * (ha * p + hb) == ha * (16 * p) + 16 * hb) by (nonlinear_arith);
        assert(ha * pow16(b.len()) == ha * (16 * p));
        assert(hex_value(a + b) == ha * pow16(b.len()) + hex_value(b));
    }
}

/// The shape and the value of a canonical serialization.
pub proof fn lemma_to_hex_spec_props(x: Felt)
    ensures
        x.to_hex_spec().len() == 66,
        x.to_hex_spec()[0] == '0',
        x.to_hex_spec()[1] == 'x',
        all_lower_hex_digits(x.to_hex_spec().skip(2)),
        hex_value(x.to_hex_spec().skip(2)) == x.value(),
        strip_hex_prefix(x.to_hex_spec()) == x.to_hex_spec().skip(2),
        x.wf() ==> is_canonical_felt_hex(x.to_hex_spec()),
{
    lemma_pow16_values();
    let h3 = hex_digits(x.d3 as nat, 16);
    let h2 = hex_digits(x.d2 as nat, 16);
    let h1 = hex_digits(x.d1 as nat, 16);
    let h0 = hex_digits(x.d0 as nat, 16);
    lemma_hex_digits_props(x.d3 as nat, 16);
    lemma_hex_digits_props(x.d2 as nat, 16);
    lemma_hex_digits_props(x.d1 as nat, 16);
    lemma_hex_digits_props(x.d0 as nat, 16);
    let body = x.to_hex_spec().skip(2);
    assert(body =~= h3 + h2 + h1 + h0);
    assert(body =~= ((h3 + h2) + h1) + h0);
    lemma_hex_value_append((h3 + h2) + h1, h0);
    lemma_hex_value_append(h3 + h2, h1);
    lemma_hex_value_append(h3, h2);
    assert(hex_value(body) == ((hex_value(h3) * pow16(16) + hex_value(h2)) * pow16(16)
        + hex_value(h1)) * pow16(16) + hex_value(h0));
    assert(hex_value(body) == x.value()) by (nonlinear_arith)
        requires
            hex_value(body) == ((x.d3 * pow16(16) + x.d2) * pow16(16) + x.d1) * pow16(16) + x.d0,
            pow16(16) == 0x10000000000000000int,
            x.value() == (x.d0 + x.d1 * 0x10000000000000000int + x.d2
                * 0x100000000000000000000000000000000int + x.d3
                * 0x1000000000000000000000000000000000000000000000000int) as nat,
    ;
    assert(all_lower_hex_digits(body)) by {
        assert(forall|i: int| 0 <= i < 16 ==> #[trigger] body[i] == h3[i]);
        assert(forall|i: int| 16 <= i < 32 ==> #[trigger] body[i] == h2[i - 16]);
        assert(forall|i: int| 32 <= i < 48 ==> #[trigger] body[i] == h1[i - 32]);
        assert(forall|i: int| 48 <= i < 64 ==> #[trigger] body[i] == h0[i - 48]);
    }
    assert(x.to_hex_spec()[0] == '0');
    assert(x.to_hex_spec()[1] == 'x');
}

/// Law: the canonical serialization of a well-formed felt is 66 characters
/// long, and decoding it returns exactly the felt serialized.
pub proof fn lemma_codec_round_trip(x: Felt)
    requires
        x.wf(),
    ensures
        x.to_hex_spec().len() == 66,
        felt_from_hex_spec(x.to_hex_spec()) == Some(x),
{
    lemma_to_hex_spec_props(x);
    assert(forall|i: int|
        0 <= i < 64 ==> is_lower_hex_digit(#[trigger] x.to_hex_spec().skip(2)[i])
            ==> is_hex_digit(x.to_hex_spec().skip(2)[i]));
    assert(all_hex_digits(x.to_hex_spec().skip(2)));
    assert(hex_decodes_to_felt(x.to_hex_spec()));
    lemma_felt_of_value(x);
}

/// A nibble of a limb: the `j`-th base-16 digit, counting from the least
/// significant.
pub open spec fn limb_nibble(l: u64, j: nat) -> nat {
    (l as nat / pow16(j)) % 16
}

pub proof fn lemma_hex_digits_index(v: nat, n: nat, k: int)
    requires
        0 <= k < n,
    ensures
        hex_digits(v, n)[k] == hex_digit_char((v / pow16((n - 1 - k) as nat)) % 16),
    decreases n,
{
    let s = hex_digits(v, n);
    let pre = hex_digits(v / 16, (n - 1) as nat);
    lemma_hex_digits_props_len(v / 16, (n - 1) as nat);
    if k == n - 1 {
        assert(s[k] == hex_digit_char(v % 16));
        assert(pow16(0) == 1);
        assert(v / 1 == v);
    } else {
        lemma_hex_digits_props_len(v / 16, (n - 1) as nat);
        assert(s[k] == pre[k]);
        lemma_hex_digits_index(v / 16, (n - 1) as nat, k);
        let e = (n - 2 - k) as nat;
        lemma_pow16_pos(e);
        lemma_div_denominator(v as int, 16, pow16(e) as int);
        assert(16 * pow16(e) == pow16((e + 1) as nat));
        assert((v / 16) / pow16(e) == v / pow16((n - 1 - k) as nat));
    }
}

/// The length of a digit string, with no bound on the value.
pub proof fn lemma_hex_digits_props_len(v: nat, n: nat)
    ensures
        hex_digits(v, n).len() == n,
    decreases n,
{
    if n > 0 {
        lemma_hex_digits_props_len(v / 16, (n - 1) as nat);
    }
}

/// A hex digit character for a nibble.
fn digit_char(d: u8) -> (c: char)
    requires
        d < 16,
    ensures
        c == hex_digit_char(d as nat),
{
    if d < 10 {
        (d + 48) as char
    } else {
        (d + 87) as char
    }
}

/// Appends the 16 hex digits of one limb, most significant first.
fn push_limb_hex(out: &mut String, l: u64)
    ensures
        final(out)@ == old(out)@ + hex_digits(l as nat, 16),
{
    let ghost hd = hex_digits(l as nat, 16);
    proof {
        lemma_pow16_values();
        lemma_hex_digits_props(l as nat, 16);
        assert(pow16(0) == 1);
        assert(l as nat / 1 == l as nat);
    }
    let mut tmp: Vec<u8> = Vec::new();
    let mut v: u64 = l;
    let mut i: usize = 0;
    while i < 16
        invariant
            i <= 16,
            tmp@.len() == i,
            v as nat == l as nat / pow16(i as nat),
            forall|j: int| 0 <= j < i ==> #[trigger] tmp@[j] == limb_nibble(l, j as nat),
        decreases 16 - i,
    {
        proof {
            lemma_pow16_pos(i as nat);
            lemma_div_denominator(l as int, pow16(i as nat) as int, 16);
            assert(pow16(i as nat) * 16 == 16 * pow16(i as nat));
            assert(pow16((i + 1) as nat) == 16 * pow16(i as nat));
        }
        tmp.push((v % 16) as u8);
        v = v / 16;
        i += 1;
    }
    let mut k: usize = 0;
    while k < 16
        invariant
            k <= 16,
            tmp@.len() == 16,
            hd == hex_digits(l as nat, 16),
            hd.len() == 16,
            forall|j: int| 0 <= j < 16 ==> #[trigger] tmp@[j] == limb_nibble(l, j as nat),
            out@ == old(out)@ + hd.take(k as int),
        decreases 16 - k,
    {
        let d: u8 = tmp[15 - k];
        proof {
            assert(d == limb_nibble(l, (15 - k) as nat));
            lemma_pow16_pos((15 - k) as nat);
            assert(d < 16);
            lemma_hex_digits_index(l as nat, 16, k as int);
            assert(hd[k as int] == hex_digit_char(d as nat));
            assert(hd.take(k as int).push(hd[k as int]) =~= hd.take(k as int + 1));
        }
        let c = digit_char(d);
        push_char(out, c);
        k += 1;
    }
    proof {
        assert(hd.take(16) =~= hd);
    }
}

impl Felt {
    /// Encodes the felt canonically: `0x` and exactly 64 zero-padded,
    /// lower-case hex digits — 66 characters in all.
    pub fn to_hex(&self) -> (r: String)
        ensures
            r@ == self.to_hex_spec(),
            r@.len() == 66,
            hex_value(strip_hex_prefix(r@)) == self.value(),
            self.wf() ==> is_canonical_felt_hex(r@),
    {
        proof {
            lemma_to_hex_spec_props(*self);
        }
        let mut out = String::new();
        push_char(&mut out, '0');
        push_char(&mut out, 'x');
        push_limb_hex(&mut out, self.d3);
        push_limb_hex(&mut out, self.d2);
        push_limb_hex(&mut out, self.d1);
        push_limb_hex(&mut out, self.d0);
        proof {
            assert(out@ =~= self.to_hex_spec());
        }
        out
    }
}

} // verus!

verus! {

/// A canonical serialization always decodes, to a well-formed felt.
pub proof fn lemma_canonical_decodes(s: Seq<char>)
    requires
        is_canonical_felt_hex(s),
    ensures
        hex_decodes_to_felt(s),
        felt_from_hex_spec(s) is Some,
{
    assert(strip_hex_prefix(s) == s.skip(2));
    let t = s.skip(2);
    assert(forall|i: int| 0 <= i < t.len() ==> is_lower_hex_digit(#[trigger] t[i]) ==> is_hex_digit(t[i]));
    assert(all_hex_digits(t));
}

} // verus!
