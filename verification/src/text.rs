//! Small pieces of text handling: decimal numbers, the name of a patch
//! file, and the name of a tree as git prints it.

use vstd::prelude::*;
use vstd::string::StringExecFns;
use vstd::utf8::{decode_utf8, valid_utf8};

verus! {

/// The character of a decimal digit.
pub open spec fn digit_char(d: nat) -> char {
    if d == 0 {
        '0'
    } else if d == 1 {
        '1'
    } else if d == 2 {
        '2'
    } else if d == 3 {
        '3'
    } else if d == 4 {
        '4'
    } else if d == 5 {
        '5'
    } else if d == 6 {
        '6'
    } else if d == 7 {
        '7'
    } else if d == 8 {
        '8'
    } else {
        '9'
    }
}

/// A number written in decimal, without sign or leading zeros.
pub open spec fn decimal(n: nat) -> Seq<char>
    decreases n,
{
    if n < 10 {
        seq![digit_char(n)]
    } else {
        decimal(n / 10).push(digit_char(n % 10))
    }
}

/// The name of a patch file: the word `patch`, the time of its making in
/// milliseconds since the epoch, a hyphen, and the id of the process.
pub open spec fn patch_name(now_ms: nat, pid: nat) -> Seq<char> {
    "patch"@ + decimal(now_ms) + "-"@ + decimal(pid)
}

fn digit_str(d: u8) -> (s: &'static str)
    requires
        d < 10,
    ensures
        s@ == seq![digit_char(d as nat)],
{
    proof {
        reveal_strlit("0");
        reveal_strlit("1");
        reveal_strlit("2");
        reveal_strlit("3");
        reveal_strlit("4");
        reveal_strlit("5");
        reveal_strlit("6");
        reveal_strlit("7");
        reveal_strlit("8");
        reveal_strlit("9");
    }
    let s = if d == 0 {
        "0"
    } else if d == 1 {
        "1"
    } else if d == 2 {
        "2"
    } else if d == 3 {
        "3"
    } else if d == 4 {
        "4"
    } else if d == 5 {
        "5"
    } else if d == 6 {
        "6"
    } else if d == 7 {
        "7"
    } else if d == 8 {
        "8"
    } else {
        "9"
    };
    assert(s@ =~= seq![digit_char(d as nat)]);
    s
}

/// Appends `n` in decimal to `out`.
pub fn push_decimal(out: &mut String, n: u128)
    ensures
        final(out)@ == old(out)@ + decimal(n as nat),
    decreases n,
{
    if n >= 10 {
        push_decimal(out, n / 10);
    }
    out.append(digit_str((n % 10) as u8));
    proof {
        if n >= 10 {
            assert(old(out)@ + decimal(n as nat / 10).push(digit_char(n as nat % 10)) =~= (old(out)@
                + decimal(n as nat / 10)) + seq![digit_char(n as nat % 10)]);
        }
    }
}

/// Names the patch file made at `now_ms` by process `pid`.
pub fn patch_file_name(now_ms: u128, pid: u32) -> (name: String)
    ensures
        name@ == patch_name(now_ms as nat, pid as nat),
{
    let mut name = String::from_str("patch");
    push_decimal(&mut name, now_ms);
    name.append("-");
    push_decimal(&mut name, pid as u128);
    name
}

/// Unicode's `White_Space` characters.
pub open spec fn is_white_space(c: char) -> bool {
    let u = c as u32;
    ||| 0x09 <= u <= 0x0d
    ||| u == 0x20
    ||| u == 0x85
    ||| u == 0xa0
    ||| u == 0x1680
    ||| 0x2000 <= u <= 0x200a
    ||| u == 0x2028
    ||| u == 0x2029
    ||| u == 0x202f
    ||| u == 0x205f
    ||| u == 0x3000
}

/// `s` without the white space at its end.
pub open spec fn trimmed_end(s: Seq<char>) -> Seq<char>
    decreases s.len(),
{
    if s.len() > 0 && is_white_space(s.last()) {
        trimmed_end(s.drop_last())
    } else {
        s
    }
}

/// Reads bytes as UTF-8.
///
/// Trusted, of `String::from_utf8`: it succeeds exactly on well-formed
/// UTF-8 and then holds the characters that the bytes encode.
#[verifier::external_body]
pub(crate) fn utf8_string(bytes: Vec<u8>) -> (r: Option<String>)
    ensures
        match r {
            Some(s) => valid_utf8(bytes@) && s@ == decode_utf8(bytes@),
            None => !valid_utf8(bytes@),
        },
{
    String::from_utf8(bytes).ok()
}

/// Cuts the white space off the end of `s`.
///
/// Trusted, of `str::trim_end`: it removes the longest suffix made of
/// characters with Unicode's `White_Space` property.
#[verifier::external_body]
pub(crate) fn trim_end(s: &str) -> (r: &str)
    ensures
        r@ == trimmed_end(s@),
{
    s.trim_end()
}

/// The name of a tree as `write-tree` printed it: the output read as
/// UTF-8, without the white space at its end; none if the output is not
/// UTF-8.
pub open spec fn tree_name_of(output: Seq<u8>) -> Option<Seq<char>> {
    if valid_utf8(output) {
        Some(trimmed_end(decode_utf8(output)))
    } else {
        None
    }
}

/// Reads the name of the tree from the output of `write-tree`.
pub fn tree_name(output: Vec<u8>) -> (r: Option<String>)
    ensures
        match r {
            Some(name) => tree_name_of(output@) == Some(name@),
            None => tree_name_of(output@) is None,
        },
{
    match utf8_string(output) {
        Some(text) => Some(String::from_str(trim_end(text.as_str()))),
        None => None,
    }
}

} // verus!
