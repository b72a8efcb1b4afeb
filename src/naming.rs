use vstd::prelude::*;

verus! {

pub open spec fn is_upper(c: char) -> bool {
    'A' <= c && c <= 'Z'
}

pub open spec fn is_lower(c: char) -> bool {
    'a' <= c && c <= 'z'
}

/// The lower-case form of an ASCII upper-case letter; other characters are kept.
pub open spec fn to_lower(c: char) -> char {
    if is_upper(c) {
        (((c as u8) + 32) as u8) as char
    } else {
        c
    }
}

/// True when position `i` of `s` starts a new dash-separated word: an
/// upper-case letter right after a lower-case one.
pub open spec fn is_word_start(s: Seq<char>, i: int) -> bool {
    0 < i && is_upper(s[i]) && is_lower(s[i - 1])
}

/// What character `i` of `s` becomes in the dash-cased name.
pub open spec fn dash_piece(s: Seq<char>, i: int) -> Seq<char> {
    if is_word_start(s, i) {
        seq!['-', to_lower(s[i])]
    } else if i == 0 {
        seq![to_lower(s[i])]
    } else {
        seq![s[i]]
    }
}

/// The dash-cased form of the first `n` characters of `s`.
pub open spec fn dash_prefix(s: Seq<char>, n: nat) -> Seq<char>
    decreases n,
{
    if n == 0 {
        Seq::empty()
    } else {
        dash_prefix(s, (n - 1) as nat) + dash_piece(s, n - 1)
    }
}

/// Dash-case: a dash goes before every upper-case letter that follows a
/// lower-case one, and that letter and the leading one are lower-cased.
pub open spec fn dash_case(s: Seq<char>) -> Seq<char> {
    dash_prefix(s, s.len())
}

/// The on-disk component name of an identifier.
pub open spec fn derive_name(s: Seq<char>, camel_to_dash: bool) -> Seq<char> {
    if camel_to_dash {
        dash_case(s)
    } else {
        s
    }
}

/// Relies on `String::push`: the character is appended at the end.
#[verifier::external_body]
pub(crate) fn push_char(s: &mut String, c: char)
    ensures
        final(s)@ == old(s)@.push(c),
{
    s.push(c)
}

fn lower_char(c: char) -> (r: char)
    ensures
        r == to_lower(c),
{
    if 'A' <= c && c <= 'Z' {
        ((c as u8) + 32) as char
    } else {
        c
    }
}

/// Converts a PascalCase or camelCase identifier to dash-case.
pub fn camel_to_dash(s: &str) -> (r: String)
    ensures
        r@ == dash_case(s@),
{
    let n = s.unicode_len();
    let mut out = String::new();
    let mut i: usize = 0;
    let mut prev_lower = false;
    while i < n
        invariant
            n == s@.len(),
            i <= n,
            out@ == dash_prefix(s@, i as nat),
            i > 0 ==> prev_lower == is_lower(s@[i - 1]),
            i == 0 ==> !prev_lower,
        decreases n - i,
    {
        let c = s.get_char(i);
        let ghost before = out@;
        if prev_lower && 'A' <= c && c <= 'Z' {
            push_char(&mut out, '-');
            push_char(&mut out, lower_char(c));
        } else if i == 0 {
            push_char(&mut out, lower_char(c));
        } else {
            push_char(&mut out, c);
        }
        assert(out@ =~= before + dash_piece(s@, i as int));
        prev_lower = 'a' <= c && c <= 'z';
        i = i + 1;
    }
    out
}

}
