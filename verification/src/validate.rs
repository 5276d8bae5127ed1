//! The validation gate: the checks a configuration must pass before the
//! sampler runs. The length must be a decimal number in [1, 512]; extended
//! symbols may only be requested together with the base symbol set.

use vstd::prelude::*;

use crate::errors::PasswordError;
use crate::universe::{alphanum_vec, is_digit_char};

verus! {

/// One validated generation request: the length of the password and the
/// flags that select its character universe.
#[derive(Clone, Copy, Debug, PartialEq, Eq, Structural)]
pub struct Args {
    /// Password length, between 1 and 512 characters.
    pub length: u16,
    /// Exclude symbols from the password (alphanumeric only).
    pub exclude_symbols: bool,
    /// Include the extended symbol set.
    pub extended_symbols: bool,
    /// Allow the space character in the password.
    pub allow_space: bool,
}

/// The numeric value of one decimal digit character.
pub open spec fn digit_val(c: char) -> nat {
    (c as u32 - '0' as u32) as nat
}

pub open spec fn all_digits(s: Seq<char>) -> bool {
    forall|i: int| 0 <= i < s.len() ==> is_digit_char(#[trigger] s[i])
}

/// The value of a sequence of decimal digit characters, most significant
/// first.
pub open spec fn decimal_value(s: Seq<char>) -> nat
    decreases s.len(),
{
    if s.len() == 0 {
        0
    } else {
        decimal_value(s.drop_last()) * 10 + digit_val(s.last())
    }
}

/// The digit portion of a length argument: everything after an optional
/// leading plus sign.
pub open spec fn digits_part(s: Seq<char>) -> Seq<char> {
    if s.len() > 0 && s[0] == '+' {
        s.skip(1)
    } else {
        s
    }
}

/// Whether `s` is a decimal numeral (with an optional leading plus sign)
/// whose value fits in sixteen bits — exactly the strings the length
/// argument parses from.
pub open spec fn parses_as_u16(s: Seq<char>) -> bool {
    &&& digits_part(s).len() > 0
    &&& all_digits(digits_part(s))
    &&& decimal_value(digits_part(s)) <= u16::MAX
}

/// Whether `s` names a valid password length: a numeral whose value lies in
/// [1, 512].
pub open spec fn valid_length_input(s: Seq<char>) -> bool {
    &&& parses_as_u16(s)
    &&& 1 <= decimal_value(digits_part(s)) <= 512
}

/// A digit sequence's value only grows as more digits are appended.
proof fn lemma_decimal_value_prefix(s: Seq<char>, i: int)
    requires
        0 <= i <= s.len(),
    ensures
        decimal_value(s.take(i)) <= decimal_value(s),
    decreases s.len() - i,
{
    if i < s.len() {
        assert(s.take(i + 1).drop_last() =~= s.take(i));
        assert(decimal_value(s.take(i + 1)) == decimal_value(s.take(i)) * 10 + digit_val(
            s.take(i + 1).last(),
        ));
        lemma_decimal_value_prefix(s, i + 1);
    } else {
        assert(s.take(i) =~= s);
    }
}

/// Validates a length argument: accepts a decimal numeral between 1 and 512,
/// and rejects anything else with a descriptive message that echoes the
/// input.
pub fn validate_length(s: &str) -> (r: Result<u16, String>)
    ensures
        r is Ok <==> valid_length_input(s@),
        r matches Ok(v) ==> v as nat == decimal_value(digits_part(s@)),
        r matches Err(m) ==> m@ == (if parses_as_u16(s@) {
            "Password length must be between 1 and 512 characters. Got: "@ + s@
        } else {
            "The length must be a positive number between 1 and 512. Got: "@ + s@
        }),
{
    let n = s.unicode_len();
    let start: usize = if n > 0 && s.get_char(0) == '+' {
        1
    } else {
        0
    };
    let ghost d = digits_part(s@);
    proof {
        assert(d =~= s@.skip(start as int));
    }
    if n == start {
        return Err(parse_error(s));
    }
    let mut val: u32 = 0;
    let mut i: usize = start;
    while i < n
        invariant
            start <= i <= n,
            n == s@.len(),
            d == digits_part(s@),
            d == s@.skip(start as int),
            d.len() == n - start,
            all_digits(d.take(i - start)),
            val == decimal_value(d.take(i - start)),
            val <= u16::MAX,
        decreases n - i,
    {
        let c = s.get_char(i);
        let cu = c as u32;
        if cu < 48 || cu > 57 {
            assert(d[i - start] == c && !is_digit_char(c));
            return Err(parse_error(s));
        }
        proof {
            assert(d.take(i + 1 - start).drop_last() =~= d.take(i - start));
        }
        val = val * 10 + (cu - 48);
        if val > 65535 {
            proof {
                lemma_decimal_value_prefix(d, i + 1 - start);
            }
            return Err(parse_error(s));
        }
        i += 1;
    }
    proof {
        assert(d.take(i - start) =~= d);
    }
    if val < 1 || val > 512 {
        return Err(range_error(s));
    }
    Ok(val as u16)
}

/// The rejection line for input that is not a numeral at all.
fn parse_error(s: &str) -> (m: String)
    ensures
        m@ == "The length must be a positive number between 1 and 512. Got: "@ + s@,
{
    let mut m = "The length must be a positive number between 1 and 512. Got: ".to_owned();
    m.append(s);
    m
}

/// The rejection line for a numeral outside [1, 512].
fn range_error(s: &str) -> (m: String)
    ensures
        m@ == "Password length must be between 1 and 512 characters. Got: "@ + s@,
{
    let mut m = "Password length must be between 1 and 512 characters. Got: ".to_owned();
    m.append(s);
    m
}

/// Rejects the one invalid flag combination: extended symbols requested while
/// the base symbol set is excluded. The defensive empty-universe check can
/// never fire while the base set is non-empty.
pub fn validate_args(args: &Args) -> (r: Result<(), PasswordError>)
    ensures
        r is Ok <==> !(args.extended_symbols && args.exclude_symbols),
        r matches Err(e) ==> e == PasswordError::InvalidSymbolCombination,
{
    if args.extended_symbols && args.exclude_symbols {
        return Err(PasswordError::InvalidSymbolCombination);
    }
    let has_any_chars = !args.exclude_symbols || args.allow_space;
    if !has_any_chars && alphanum_vec().len() == 0 {
        return Err(PasswordError::EmptyCharacterSet);
    }
    Ok(())
}

} // verus!
