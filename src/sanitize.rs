//! Symbolic identifiers for chains: a fixed table of stable names, and a
//! sanitizer that turns a short name into an upper-camel-case identifier.
use vstd::prelude::*;

use crate::hexfmt::{dec_digits, push_dec};
use crate::text::{alnum, alpha, is_alnum, is_alpha, push_char, upper_case, upper_of};

verus! {

/// A character that separates words: an underscore or anything that is not
/// alphanumeric.
pub open spec fn is_sep(c: char) -> bool {
    c == '_' || !alnum(c)
}

/// What character `i` of `s` contributes: nothing for a separator, its upper case
/// at the start of a word, else itself.
pub open spec fn piece(s: Seq<char>, i: int) -> Seq<char> {
    if is_sep(s[i]) {
        Seq::empty()
    } else if i == 0 || is_sep(s[i - 1]) {
        upper_of(s[i])
    } else {
        seq![s[i]]
    }
}

/// The words of the first `n` characters of `s`, each with its first character in
/// upper case, joined without separators.
pub open spec fn camel(s: Seq<char>, n: nat) -> Seq<char>
    decreases n,
{
    if n == 0 {
        Seq::empty()
    } else {
        camel(s, (n - 1) as nat) + piece(s, n - 1)
    }
}

/// `Chain` followed by the decimal chain id.
pub open spec fn fallback_name(id: u64) -> Seq<char> {
    seq!['C', 'h', 'a', 'i', 'n'] + dec_digits(id as nat)
}

/// The sanitized identifier of a short name, or the fallback name where that would be
/// empty or would not start with a letter.
pub open spec fn sanitized(s: Seq<char>, id: u64) -> Seq<char> {
    let f = camel(s, s.len());
    if f.len() == 0 || !alpha(f[0]) {
        fallback_name(id)
    } else {
        f
    }
}

/// The stable names that a few chain ids keep whatever the registry calls them.
pub open spec fn override_name(id: u64) -> Option<&'static str> {
    if id == 1 {
        Some("Mainnet")
    } else if id == 56 {
        Some("Bnb")
    } else if id == 100 {
        Some("Gnosis")
    } else if id == 11155111 {
        Some("Sepolia")
    } else if id == 8453 {
        Some("Base")
    } else if id == 31337 {
        Some("Hardhat")
    } else {
        None
    }
}

/// The identifier of a chain: its stable name if it has one, else its sanitized
/// short name.
pub open spec fn symbol_name(short_name: Seq<char>, id: u64) -> Seq<char> {
    match override_name(id) {
        Some(n) => n@,
        None => sanitized(short_name, id),
    }
}

/// The stable name of a chain id, if it has one.
pub fn default_name(id: u64) -> (r: Option<&'static str>)
    ensures
        r == override_name(id),
{
    if id == 1 {
        Some("Mainnet")
    } else if id == 56 {
        Some("Bnb")
    } else if id == 100 {
        Some("Gnosis")
    } else if id == 11155111 {
        Some("Sepolia")
    } else if id == 8453 {
        Some("Base")
    } else if id == 31337 {
        Some("Hardhat")
    } else {
        None
    }
}

/// Turns a short name into an identifier: separators are dropped, the first
/// character of each word is put in upper case; an empty result, or one that does not
/// start with a letter, becomes `Chain` and the decimal id.
pub fn sanitize_enum_name(name: &str, chain_id: u64) -> (r: String)
    ensures
        r@ == sanitized(name@, chain_id),
{
    let n = name.unicode_len();
    let mut out = String::new();
    let mut i: usize = 0;
    let mut at_start = true;
    while i < n
        invariant
            n == name@.len(),
            i <= n,
            out@ == camel(name@, i as nat),
            at_start == (i == 0 || is_sep(name@[i - 1])),
        decreases n - i,
    {
        let c = name.get_char(i);
        let word_char = c != '_' && is_alnum(c);
        if !word_char {
            at_start = true;
        } else if at_start {
            let u = upper_case(c);
            out.append(u.as_str());
            at_start = false;
        } else {
            push_char(&mut out, c);
        }
        assert(out@ =~= camel(name@, (i + 1) as nat));
        i = i + 1;
    }
    let len = out.as_str().unicode_len();
    if len == 0 || !is_alpha(out.as_str().get_char(0)) {
        let mut fb = String::new();
        fb.append("Chain");
        push_dec(&mut fb, chain_id);
        proof {
            reveal_strlit("Chain");
        }
        assert(fb@ =~= fallback_name(chain_id));
        fb
    } else {
        out
    }
}

/// The identifier of a chain: its stable name if it has one, else its sanitized
/// short name.
pub fn symbolic_name(short_name: &str, chain_id: u64) -> (r: String)
    ensures
        r@ == symbol_name(short_name@, chain_id),
{
    match default_name(chain_id) {
        Some(s) => crate::text::owned(s),
        None => sanitize_enum_name(short_name, chain_id),
    }
}

} // verus!
