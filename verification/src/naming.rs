//! Labels of the places and transitions of the net.
//!
//! Every label is a function of a function name or of a counter, so that the
//! same program always yields the same labels.

use vstd::prelude::*;
use vstd::string::*;

pub mod basic_block;
pub mod condvar;
pub mod function;
pub mod kinds;
pub mod mutex;
pub mod program;
pub mod thread;

verus! {

/// The characters that may stand in a label unchanged.
pub open spec fn is_identifier_char(c: char) -> bool {
    ('a' <= c && c <= 'z') || ('A' <= c && c <= 'Z') || ('0' <= c && c <= '9') || c == '_'
}

/// The brackets of generic arguments and of closure names, which leave no trace in a label.
pub open spec fn is_dropped_char(c: char) -> bool {
    c == '<' || c == '>' || c == '{' || c == '}'
}

/// The label-safe form of a function path: every `::` becomes one `_`,
/// brackets are dropped, and every other character that cannot stand in an
/// identifier becomes `_`.
pub open spec fn sanitize_spec(s: Seq<char>) -> Seq<char>
    decreases s.len(),
{
    if s.len() == 0 {
        Seq::empty()
    } else if s.len() >= 2 && s[0] == ':' && s[1] == ':' {
        seq!['_'] + sanitize_spec(s.skip(2))
    } else if is_identifier_char(s[0]) {
        seq![s[0]] + sanitize_spec(s.skip(1))
    } else if is_dropped_char(s[0]) {
        sanitize_spec(s.skip(1))
    } else {
        seq!['_'] + sanitize_spec(s.skip(1))
    }
}

/// The character of a decimal digit.
pub open spec fn digit_char_spec(d: nat) -> char {
    if d == 0 {
        '0'
    } else if d == 1 {
        '1'
    } else if d == 2 {
        '2'
    } else if d == 3 {
        '3'
    } else if d == 4 {
        '4'
    } else if d == 5 {
        '5'
    } else if d == 6 {
        '6'
    } else if d == 7 {
        '7'
    } else if d == 8 {
        '8'
    } else {
        '9'
    }
}

/// The decimal representation of a number, without leading zeros.
pub open spec fn decimal_spec(n: nat) -> Seq<char>
    decreases n,
{
    if n < 10 {
        seq![digit_char_spec(n)]
    } else {
        decimal_spec(n / 10).push(digit_char_spec(n % 10))
    }
}

/// A fixed prefix followed by a counter in decimal.
pub open spec fn indexed_label_spec(prefix: Seq<char>, index: nat) -> Seq<char> {
    prefix + decimal_spec(index)
}

/// Every character of a sanitized name can stand in an identifier.
pub proof fn lemma_sanitize_yields_identifier(s: Seq<char>)
    ensures
        forall|i: int|
            0 <= i < sanitize_spec(s).len() ==> is_identifier_char(#[trigger] sanitize_spec(s)[i]),
    decreases s.len(),
{
    let out = sanitize_spec(s);
    if s.len() == 0 {
    } else if s.len() >= 2 && s[0] == ':' && s[1] == ':' {
        lemma_sanitize_yields_identifier(s.skip(2));
        let rest = sanitize_spec(s.skip(2));
        assert forall|i: int| 0 <= i < out.len() implies is_identifier_char(#[trigger] out[i]) by {
            if i > 0 {
                assert(out[i] == rest[i - 1]);
            }
        }
    } else {
        lemma_sanitize_yields_identifier(s.skip(1));
        let rest = sanitize_spec(s.skip(1));
        assert forall|i: int| 0 <= i < out.len() implies is_identifier_char(#[trigger] out[i]) by {
            if is_dropped_char(s[0]) && !is_identifier_char(s[0]) {
                assert(out[i] == rest[i]);
            } else if i > 0 {
                assert(out[i] == rest[i - 1]);
            }
        }
    }
}

/// `String::push`: appends one character to the string.
#[verifier::external_body]
pub(crate) fn push_char(s: &mut String, c: char)
    ensures
        final(s)@ == old(s)@.push(c),
{
    s.push(c)
}

fn is_identifier(c: char) -> (r: bool)
    ensures
        r == is_identifier_char(c),
{
    ('a' <= c && c <= 'z') || ('A' <= c && c <= 'Z') || ('0' <= c && c <= '9') || c == '_'
}

/// Converts a function path into a string that can stand in a label.
pub fn sanitize(function_name: &str) -> (label: String)
    ensures
        label@ == sanitize_spec(function_name@),
        forall|i: int| 0 <= i < label@.len() ==> is_identifier_char(#[trigger] label@[i]),
{
    let n: usize = function_name.unicode_len();
    let mut out = String::new();
    let mut i: usize = 0;
    proof {
        assert(function_name@.skip(0) =~= function_name@);
        assert(out@ + sanitize_spec(function_name@) =~= sanitize_spec(function_name@));
    }
    while i < n
        invariant
            n == function_name@.len(),
            i <= n,
            out@ + sanitize_spec(function_name@.skip(i as int)) == sanitize_spec(function_name@),
        decreases n - i,
    {
        let ghost rest = function_name@.skip(i as int);
        let ghost before = out@;
        let c = function_name.get_char(i);
        assert(rest[0] == c);
        if c == ':' && i + 1 < n && function_name.get_char(i + 1) == ':' {
            assert(rest[1] == ':');
            assert(rest.skip(2) =~= function_name@.skip(i + 2));
            push_char(&mut out, '_');
            assert(out@ + sanitize_spec(rest.skip(2)) =~= before + (seq!['_'] + sanitize_spec(
                rest.skip(2),
            )));
            i = i + 2;
        } else {
            assert(rest.skip(1) =~= function_name@.skip(i + 1));
            if is_identifier(c) {
                push_char(&mut out, c);
                assert(out@ + sanitize_spec(rest.skip(1)) =~= before + (seq![c] + sanitize_spec(
                    rest.skip(1),
                )));
            } else if c == '<' || c == '>' || c == '{' || c == '}' {
            } else {
                push_char(&mut out, '_');
                assert(out@ + sanitize_spec(rest.skip(1)) =~= before + (seq!['_'] + sanitize_spec(
                    rest.skip(1),
                )));
            }
            i = i + 1;
        }
    }
    proof {
        assert(function_name@.skip(n as int) =~= Seq::<char>::empty());
        assert(out@ + Seq::<char>::empty() =~= out@);
        lemma_sanitize_yields_identifier(function_name@);
    }
    out
}

fn digit_char(d: usize) -> (c: char)
    requires
        d < 10,
    ensures
        c == digit_char_spec(d as nat),
{
    if d == 0 {
        '0'
    } else if d == 1 {
        '1'
    } else if d == 2 {
        '2'
    } else if d == 3 {
        '3'
    } else if d == 4 {
        '4'
    } else if d == 5 {
        '5'
    } else if d == 6 {
        '6'
    } else if d == 7 {
        '7'
    } else if d == 8 {
        '8'
    } else {
        '9'
    }
}

/// Writes a counter in decimal.
pub fn decimal(n: usize) -> (digits: String)
    ensures
        digits@ == decimal_spec(n as nat),
    decreases n,
{
    if n < 10 {
        let mut s = String::new();
        push_char(&mut s, digit_char(n));
        assert(s@ =~= seq![digit_char_spec(n as nat)]);
        s
    } else {
        let mut s = decimal(n / 10);
        push_char(&mut s, digit_char(n % 10));
        s
    }
}

/// Appends a counter in decimal to a fixed prefix.
pub fn indexed_label(prefix: &str, index: usize) -> (label: String)
    ensures
        label@ == indexed_label_spec(prefix@, index as nat),
{
    let digits = decimal(index);
    String::from_str(prefix).concat(digits.as_str())
}

} // verus!
