//! The character universe: the ordered pool of distinct characters a password
//! is drawn from. It is assembled fresh for each generation call from four
//! fixed, pairwise disjoint pieces — alphanumerics, symbols, extended
//! symbols, the space character — according to the configuration.

use vstd::prelude::*;

use crate::errors::PasswordError;

verus! {

/// The base set: ASCII digits, then lowercase, then uppercase letters.
pub open spec fn alphanum_chars() -> Seq<char> {
    seq![
        '0', '1', '2', '3', '4', '5', '6', '7', '8', '9', 'a', 'b', 'c', 'd', 'e',
        'f', 'g', 'h', 'i', 'j', 'k', 'l', 'm', 'n', 'o', 'p', 'q', 'r', 's', 't',
        'u', 'v', 'w', 'x', 'y', 'z', 'A', 'B', 'C', 'D', 'E', 'F', 'G', 'H', 'I',
        'J', 'K', 'L', 'M', 'N', 'O', 'P', 'Q', 'R', 'S', 'T', 'U', 'V', 'W', 'X',
        'Y', 'Z',
    ]
}

/// The symbol set, in its fixed literal order.
pub open spec fn symbol_chars() -> Seq<char> {
    seq![
        '!', '@', '#', '$', '%', '^', '&', '*', '(', ')', '-', '_', '=', '+', '[',
        ']', '{', '}', '|', ';', ':', ',', '.', '<', '>', '?',
    ]
}

/// The extended symbol set: valid in many password policies but prone to
/// shell- or encoding-related handling trouble, so opt-in only.
pub open spec fn extended_chars() -> Seq<char> {
    seq!['`', '"', '\'', '/', '\\']
}

pub open spec fn is_digit_char(c: char) -> bool {
    '0' <= c && c <= '9'
}

pub open spec fn is_lower_char(c: char) -> bool {
    'a' <= c && c <= 'z'
}

pub open spec fn is_upper_char(c: char) -> bool {
    'A' <= c && c <= 'Z'
}

pub open spec fn is_alphanum_char(c: char) -> bool {
    is_digit_char(c) || is_lower_char(c) || is_upper_char(c)
}

/// The universe a given configuration samples from: the base set, then —
/// only when symbols are included — the symbol set and optionally the
/// extended set, then optionally the space character.
pub open spec fn universe_spec(
    include_symbols: bool,
    include_extended: bool,
    allow_space: bool,
) -> Seq<char> {
    alphanum_chars() + (if include_symbols {
        symbol_chars()
    } else {
        Seq::empty()
    }) + (if include_symbols && include_extended {
        extended_chars()
    } else {
        Seq::empty()
    }) + (if allow_space {
        seq![' ']
    } else {
        Seq::empty()
    })
}

/// The base set as a fresh vector.
pub fn alphanum_vec() -> (v: Vec<char>)
    ensures
        v@ == alphanum_chars(),
{
    let v: Vec<char> = vec![
        '0', '1', '2', '3', '4', '5', '6', '7', '8', '9', 'a', 'b', 'c', 'd', 'e',
        'f', 'g', 'h', 'i', 'j', 'k', 'l', 'm', 'n', 'o', 'p', 'q', 'r', 's', 't',
        'u', 'v', 'w', 'x', 'y', 'z', 'A', 'B', 'C', 'D', 'E', 'F', 'G', 'H', 'I',
        'J', 'K', 'L', 'M', 'N', 'O', 'P', 'Q', 'R', 'S', 'T', 'U', 'V', 'W', 'X',
        'Y', 'Z',
    ];
    proof {
        assert(v@ =~= alphanum_chars());
    }
    v
}

/// The symbol set as a fresh vector.
pub fn symbol_vec() -> (v: Vec<char>)
    ensures
        v@ == symbol_chars(),
{
    let v: Vec<char> = vec![
        '!', '@', '#', '$', '%', '^', '&', '*', '(', ')', '-', '_', '=', '+', '[',
        ']', '{', '}', '|', ';', ':', ',', '.', '<', '>', '?',
    ];
    proof {
        assert(v@ =~= symbol_chars());
    }
    v
}

/// The extended symbol set as a fresh vector.
pub fn extended_vec() -> (v: Vec<char>)
    ensures
        v@ == extended_chars(),
{
    let v: Vec<char> = vec!['`', '"', '\'', '/', '\\'];
    proof {
        assert(v@ =~= extended_chars());
    }
    v
}

proof fn lemma_alphanum_classified(i: int)
    requires
        0 <= i < alphanum_chars().len(),
    ensures
        is_alphanum_char(alphanum_chars()[i]),
{
}

/// With symbols excluded, the universe offers nothing but alphanumeric
/// characters — and the space character, when spaces are allowed.
pub proof fn lemma_universe_no_symbols(include_extended: bool, allow_space: bool, c: char)
    requires
        universe_spec(false, include_extended, allow_space).contains(c),
    ensures
        is_alphanum_char(c) || (allow_space && c == ' '),
{
    let u = universe_spec(false, include_extended, allow_space);
    let i = choose|i: int| 0 <= i < u.len() && u[i] == c;
    if i < alphanum_chars().len() {
        assert(c == alphanum_chars()[i]);
        lemma_alphanum_classified(i);
    } else {
        assert(allow_space && c == ' ');
    }
}

/// Every character class the configuration enables is offered by the
/// universe: the base set always, the symbol set when symbols are included,
/// the extended set when both symbol flags are on, and the space character
/// when spaces are allowed.
pub proof fn lemma_universe_has_enabled_classes(
    include_symbols: bool,
    include_extended: bool,
    allow_space: bool,
    c: char,
)
    ensures
        alphanum_chars().contains(c) ==> universe_spec(
            include_symbols,
            include_extended,
            allow_space,
        ).contains(c),
        include_symbols && symbol_chars().contains(c) ==> universe_spec(
            include_symbols,
            include_extended,
            allow_space,
        ).contains(c),
        include_symbols && include_extended && extended_chars().contains(c) ==> universe_spec(
            include_symbols,
            include_extended,
            allow_space,
        ).contains(c),
        allow_space && c == ' ' ==> universe_spec(
            include_symbols,
            include_extended,
            allow_space,
        ).contains(c),
{
    let u = universe_spec(include_symbols, include_extended, allow_space);
    if alphanum_chars().contains(c) {
        let i = choose|i: int|
            0 <= i < alphanum_chars().len() && alphanum_chars()[i] == c;
        assert(u[i] == c);
    }
    if include_symbols && symbol_chars().contains(c) {
        let i = choose|i: int| 0 <= i < symbol_chars().len() && symbol_chars()[i] == c;
        assert(u[alphanum_chars().len() + i] == c);
    }
    if include_symbols && include_extended && extended_chars().contains(c) {
        let i = choose|i: int|
            0 <= i < extended_chars().len() && extended_chars()[i] == c;
        assert(u[alphanum_chars().len() + symbol_chars().len() + i] == c);
    }
    if allow_space && c == ' ' {
        assert(u[u.len() - 1] == c);
    }
}

/// Assembles the ordered universe of eligible characters for one
/// configuration. The base set is always present, so the defensive
/// empty-universe check never fires under the current composition rules.
pub fn build_universe(
    include_symbols: bool,
    include_extended: bool,
    allow_space: bool,
) -> (r: Result<Vec<char>, PasswordError>)
    ensures
        r matches Ok(u) && u@ == universe_spec(include_symbols, include_extended, allow_space),
{
    let mut u = alphanum_vec();
    if include_symbols {
        let mut s = symbol_vec();
        u.append(&mut s);
        if include_extended {
            let mut e = extended_vec();
            u.append(&mut e);
        }
    }
    if allow_space {
        u.push(' ');
    }
    if u.len() == 0 {
        return Err(PasswordError::EmptyCharacterSet);
    }
    proof {
        assert(u@ =~= universe_spec(include_symbols, include_extended, allow_space));
    }
    Ok(u)
}

} // verus!
