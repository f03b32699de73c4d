use vstd::prelude::*;
use vstd::string::{StrSliceExecFns, StringExecFns};
use crate::endpoint::str_eq;
use crate::errors::Error;
use crate::felt::{felt_from_hex, felt_from_hex_spec, Felt};

verus! {

/// A tagged reference to a block: one of the two symbolic tags, a block
/// number, or a block hash.
#[derive(Clone, Copy, Debug, PartialEq, Eq, Structural)]
pub enum BlockReference {
    Latest,
    Pending,
    Number(u64),
    Hash(Felt),
}

pub open spec fn is_dec_digit(c: char) -> bool {
    48 <= c as u32 && c as u32 <= 57
}

pub open spec fn dec_digit_value(c: char) -> nat {
    if is_dec_digit(c) {
        (c as u32 - 48) as nat
    } else {
        0
    }
}

pub open spec fn all_dec_digits(s: Seq<char>) -> bool {
    forall|i: int| 0 <= i < s.len() ==> is_dec_digit(#[trigger] s[i])
}

/// A non-empty string made of decimal digits only.
pub open spec fn is_decimal_string(s: Seq<char>) -> bool {
    s.len() > 0 && all_dec_digits(s)
}

/// The big-endian base-10 value of a digit string.
pub open spec fn dec_value(s: Seq<char>) -> nat
    decreases s.len(),
{
    if s.len() == 0 {
        0
    } else {
        (10 * dec_value(s.drop_last()) + dec_digit_value(s.last())) as nat
    }
}

/// A prefix never exceeds the whole string's value.
pub proof fn lemma_dec_value_prefix_le(s: Seq<char>, i: int)
    requires
        0 <= i <= s.len(),
    ensures
        dec_value(s.take(i)) <= dec_value(s),
    decreases s.len() - i,
{
    if i < s.len() {
        assert(s.take(i + 1).drop_last() =~= s.take(i));
        assert(s.take(i + 1).last() == s[i]);
        assert(dec_value(s.take(i)) <= dec_value(s.take(i + 1)));
        lemma_dec_value_prefix_le(s, i + 1);
        assert(s.take(s.len() as int) =~= s);
    } else {
        assert(s.take(i) =~= s);
    }
}

/// Whether the whole string is one or more decimal digits.
fn is_decimal(s: &str) -> (r: bool)
    ensures
        r == is_decimal_string(s@),
{
    let n = s.unicode_len();
    if n == 0 {
        return false;
    }
    let mut i: usize = 0;
    while i < n
        invariant
            i <= n,
            n == s@.len(),
            forall|j: int| 0 <= j < i ==> is_dec_digit(#[trigger] s@[j]),
        decreases n - i,
    {
        let c = s.get_char(i);
        let u: u32 = c as u32;
        if !(48 <= u && u <= 57) {
            return false;
        }
        i += 1;
    }
    true
}

/// Parses a string of decimal digits into a 64-bit number, or reports
/// that the value does not fit.
fn parse_u64_dec(s: &str) -> (r: Option<u64>)
    requires
        is_decimal_string(s@),
    ensures
        match r {
            Some(v) => v as nat == dec_value(s@),
            None => dec_value(s@) > u64::MAX,
        },
{
    let n = s.unicode_len();
    let mut acc: u64 = 0;
    let mut i: usize = 0;
    while i < n
        invariant
            i <= n,
            n == s@.len(),
            is_decimal_string(s@),
            acc as nat == dec_value(s@.take(i as int)),
        decreases n - i,
    {
        let c = s.get_char(i);
        let u: u32 = c as u32;
        let d: u64 = (u - 48) as u64;
        proof {
            assert(is_dec_digit(s@[i as int]));
            assert(d as nat == dec_digit_value(s@[i as int]));
            assert(s@.take(i as int + 1).drop_last() =~= s@.take(i as int));
            assert(s@.take(i as int + 1).last() == s@[i as int]);
        }
        let m = match acc.checked_mul(10) {
            Some(m) => m,
            None => {
                proof {
                    lemma_dec_value_prefix_le(s@, i as int + 1);
                }
                return None;
            },
        };
        let a = match m.checked_add(d) {
            Some(a) => a,
            None => {
                proof {
                    lemma_dec_value_prefix_le(s@, i as int + 1);
                }
                return None;
            },
        };
        acc = a;
        i += 1;
    }
    proof {
        assert(s@.take(n as int) =~= s@);
    }
    Some(acc)
}

/// `br` is what the parsing grammar maps `s` to.
pub open spec fn block_parse_ok(s: Seq<char>, br: BlockReference) -> bool {
    match br {
        BlockReference::Latest => s == "latest"@,
        BlockReference::Pending => s == "pending"@,
        BlockReference::Number(num) => s != "latest"@ && s != "pending"@ && is_decimal_string(s)
            && num as nat == dec_value(s),
        BlockReference::Hash(f) => s != "latest"@ && s != "pending"@ && !is_decimal_string(s)
            && felt_from_hex_spec(s) == Some(f),
    }
}

/// `e` is the error the parsing grammar assigns to `s`.
pub open spec fn block_parse_err(s: Seq<char>, e: Error) -> bool {
    s != "latest"@ && s != "pending"@ && ((is_decimal_string(s) && dec_value(s) > u64::MAX && (
    e matches Error::InvalidBlockNumber(m) && m@ == s)) || (!is_decimal_string(s)
        && felt_from_hex_spec(s) is None && (e matches Error::InvalidBlockReference(m) && m@
        == s)))
}

/// Parses a block reference, in this precedence order: the exact tag
/// `latest`; the exact tag `pending`; a string of decimal digits as a
/// block number (`InvalidBlockNumber` if it exceeds 64 bits); otherwise a
/// felt hex decode as a block hash (`InvalidBlockReference` if that
/// fails). The codec's `0x` prefix is optional, so a bare string of hex
/// digits that is no tag and no decimal number is a hash, not an error.
pub fn parse_block_id(id: &str) -> (r: Result<BlockReference, Error>)
    ensures
        match r {
            Ok(br) => block_parse_ok(id@, br),
            Err(e) => block_parse_err(id@, e),
        },
{
    if str_eq(id, "latest") {
        return Ok(BlockReference::Latest);
    }
    if str_eq(id, "pending") {
        return Ok(BlockReference::Pending);
    }
    if is_decimal(id) {
        match parse_u64_dec(id) {
            Some(v) => Ok(BlockReference::Number(v)),
            None => Err(Error::InvalidBlockNumber(String::from_str(id))),
        }
    } else {
        match felt_from_hex(id) {
            Ok(f) => Ok(BlockReference::Hash(f)),
            Err(_) => Err(Error::InvalidBlockReference(String::from_str(id))),
        }
    }
}

} // verus!
