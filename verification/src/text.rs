//! Small verified string helpers shared by the other modules.

use vstd::prelude::*;

verus! {

/// Compares two string slices character by character.
pub fn str_eq(a: &str, b: &str) -> (res: bool)
    ensures
        res == (a@ == b@),
{
    let a_owned = a.to_owned();
    let b_owned = b.to_owned();
    a_owned == b_owned
}

/// Concatenates two string slices into a fresh `String`.
pub fn join2(a: &str, b: &str) -> (res: String)
    ensures
        res@ == a@ + b@,
{
    let owned = a.to_owned();
    owned.concat(b)
}

/// Concatenates three string slices into a fresh `String`.
pub fn join3(a: &str, b: &str, c: &str) -> (res: String)
    ensures
        res@ == a@ + b@ + c@,
{
    let owned = a.to_owned();
    let ab = owned.concat(b);
    ab.concat(c)
}

/// `s` starts with `p`.
pub open spec fn has_prefix(s: Seq<char>, p: Seq<char>) -> bool {
    p.len() <= s.len() && s.subrange(0, p.len() as int) == p
}

/// When `s` starts with `p`, the rest of `s` after `p`; otherwise nothing.
pub fn strip_prefix(s: &str, p: &str) -> (res: Option<String>)
    ensures
        has_prefix(s@, p@) ==> res is Some && res.unwrap()@ == s@.subrange(p@.len() as int, s@.len() as int),
        !has_prefix(s@, p@) ==> res is None,
{
    let s_len = s.unicode_len();
    let p_len = p.unicode_len();
    if p_len > s_len {
        return None;
    }
    let head = s.substring_char(0, p_len);
    if str_eq(head, p) {
        let tail = s.substring_char(p_len, s_len);
        Some(tail.to_owned())
    } else {
        None
    }
}

/// The first position at or after `i` where `p` occurs in `s`.
pub open spec fn find_from(s: Seq<char>, p: Seq<char>, i: nat) -> Option<nat>
    decreases s.len() + 1 - i,
{
    if i + p.len() > s.len() {
        None
    } else if s.subrange(i as int, (i + p.len()) as int) == p {
        Some(i)
    } else {
        find_from(s, p, i + 1)
    }
}

/// `s` with its first occurrence of `p` removed; `s` itself when `p` does not occur.
pub open spec fn remove_first(s: Seq<char>, p: Seq<char>) -> Seq<char> {
    match find_from(s, p, 0) {
        Some(i) => s.subrange(0, i as int) + s.subrange((i + p.len()) as int, s.len() as int),
        None => s,
    }
}

/// Removes the first occurrence of `p` from `s`, as `str::replacen(p, "", 1)`
/// does; an empty `p` occurs at the start and removing it leaves `s`.
pub fn remove_first_occurrence(s: &str, p: &str) -> (res: String)
    ensures
        res@ == remove_first(s@, p@),
{
    let s_len = s.unicode_len();
    let p_len = p.unicode_len();
    if p_len == 0 {
        proof {
            assert(s@.subrange(0, 0) =~= p@);
            assert(s@.subrange(0, 0) + s@.subrange(0, s@.len() as int) =~= s@);
        }
        return s.to_owned();
    }
    if p_len > s_len {
        return s.to_owned();
    }
    let mut i: usize = 0;
    while i <= s_len - p_len
        invariant
            s_len == s@.len(),
            p_len == p@.len(),
            0 < p_len <= s_len,
            i <= s_len,
            find_from(s@, p@, 0) == find_from(s@, p@, i as nat),
        decreases s_len - i,
    {
        let window = s.substring_char(i, i + p_len);
        if str_eq(window, p) {
            let head = s.substring_char(0, i);
            let tail = s.substring_char(i + p_len, s_len);
            return join2(head, tail);
        }
        assert(find_from(s@, p@, i as nat) == find_from(s@, p@, (i + 1) as nat));
        i = i + 1;
    }
    assert(find_from(s@, p@, i as nat) is None);
    s.to_owned()
}

/// The decimal digit for `d`.
pub open spec fn digit_char(d: nat) -> char {
    if d == 0 { '0' }
    else if d == 1 { '1' }
    else if d == 2 { '2' }
    else if d == 3 { '3' }
    else if d == 4 { '4' }
    else if d == 5 { '5' }
    else if d == 6 { '6' }
    else if d == 7 { '7' }
    else if d == 8 { '8' }
    else { '9' }
}

/// The decimal representation of `n`, without leading zeros.
pub open spec fn decimal(n: nat) -> Seq<char>
    decreases n,
{
    if n < 10 {
        seq![digit_char(n)]
    } else {
        decimal(n / 10).push(digit_char(n % 10))
    }
}

fn digit_str(d: u64) -> (res: &'static str)
    requires
        d < 10,
    ensures
        res@ == seq![digit_char(d as nat)],
{
    proof {
        reveal_strlit("0");
        reveal_strlit("1");
        reveal_strlit("2");
        reveal_strlit("3");
        reveal_strlit("4");
        reveal_strlit("5");
        reveal_strlit("6");
        reveal_strlit("7");
        reveal_strlit("8");
        reveal_strlit("9");
    }
    if d == 0 { "0" }
    else if d == 1 { "1" }
    else if d == 2 { "2" }
    else if d == 3 { "3" }
    else if d == 4 { "4" }
    else if d == 5 { "5" }
    else if d == 6 { "6" }
    else if d == 7 { "7" }
    else if d == 8 { "8" }
    else { "9" }
}

/// Formats `n` in decimal, as `{}` formats an unsigned integer.
pub fn u64_to_decimal(n: u64) -> (res: String)
    ensures
        res@ == decimal(n as nat),
    decreases n,
{
    if n < 10 {
        digit_str(n).to_owned()
    } else {
        let head = u64_to_decimal(n / 10);
        head.concat(digit_str(n % 10))
    }
}

/// Formats `n` in decimal, as `{}` formats an unsigned integer.
pub fn usize_to_decimal(n: usize) -> (res: String)
    ensures
        res@ == decimal(n as nat),
{
    u64_to_decimal(n as u64)
}

} // verus!
