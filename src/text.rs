use vstd::prelude::*;
use vstd::string::*;

verus! {

/// `p` occurs in `s` starting at position `i`.
pub open spec fn occurs_at(s: Seq<char>, p: Seq<char>, i: int) -> bool {
    0 <= i && i + p.len() <= s.len() && s.subrange(i, i + p.len()) == p
}

/// `p` occurs somewhere in `s`.
pub open spec fn has_infix(s: Seq<char>, p: Seq<char>) -> bool {
    exists|i: int| occurs_at(s, p, i)
}

/// A protocol-relative link (`//host/path`) made absolute over https; any
/// other link unchanged.
pub open spec fn normalized(link: Seq<char>) -> Seq<char> {
    if link.len() >= 2 && link[0] == '/' && link[1] == '/' {
        "https:"@ + link
    } else {
        link
    }
}

fn occurs_at_exec(s: &str, p: &str, i: usize, p_len: usize, s_len: usize) -> (r: bool)
    requires
        p_len == p@.len(),
        s_len == s@.len(),
        i + p@.len() <= s@.len(),
    ensures
        r == occurs_at(s@, p@, i as int),
{
    let mut j: usize = 0;
    while j < p_len
        invariant
            p_len == p@.len(),
            s_len == s@.len(),
            i + p@.len() <= s@.len(),
            j <= p_len,
            forall|k: int| 0 <= k < j ==> s@[i + k] == p@[k],
        decreases p_len - j,
    {
        if s.get_char(i + j) != p.get_char(j) {
            assert(s@.subrange(i as int, i + p@.len())[j as int] != p@[j as int]);
            return false;
        }
        j = j + 1;
    }
    assert(s@.subrange(i as int, i + p@.len()) =~= p@);
    true
}

/// Whether `p` occurs in `s`.
pub fn str_contains(s: &str, p: &str) -> (r: bool)
    ensures
        r == has_infix(s@, p@),
{
    let s_len = s.unicode_len();
    let p_len = p.unicode_len();
    if p_len > s_len {
        return false;
    }
    if p_len == 0 {
        assert(s@.subrange(0, 0) =~= p@);
        assert(occurs_at(s@, p@, 0));
        return true;
    }
    let mut i: usize = 0;
    while i <= s_len - p_len
        invariant
            s_len == s@.len(),
            p_len == p@.len(),
            0 < p_len <= s_len,
            i <= s_len - p_len + 1,
            forall|k: int| 0 <= k < i ==> !occurs_at(s@, p@, k),
        decreases s_len - p_len + 1 - i,
    {
        if occurs_at_exec(s, p, i, p_len, s_len) {
            return true;
        }
        i = i + 1;
    }
    assert forall|k: int| !occurs_at(s@, p@, k) by {
        if 0 <= k < i {
        }
    }
    false
}

/// Makes a protocol-relative link absolute over https.
pub fn normalize_link(link: String) -> (r: String)
    ensures
        r@ == normalized(link@),
{
    let len = link.as_str().unicode_len();
    if len >= 2 && link.as_str().get_char(0) == '/' && link.as_str().get_char(1) == '/' {
        let mut r = String::from_str("https:");
        r.append(link.as_str());
        r
    } else {
        link
    }
}

pub open spec fn is_digit(c: char) -> bool {
    '0' <= c && c <= '9'
}

/// How many digits `s` holds from position `i` on, up to its first non-digit.
pub open spec fn digit_run(s: Seq<char>, i: int) -> int
    decreases s.len() - i,
{
    if 0 <= i < s.len() && is_digit(s[i]) {
        1 + digit_run(s, i + 1)
    } else {
        0
    }
}

/// 1 if `s` holds a sign at position `i`, else 0.
pub open spec fn sign_len(s: Seq<char>, i: int) -> int {
    if 0 <= i < s.len() && (s[i] == '+' || s[i] == '-') {
        1
    } else {
        0
    }
}

/// `[+-]? (D+ | D+ '.' D* | D* '.' D+) ([eE] [+-]? D+)?` over decimal digits `D`.
pub open spec fn is_decimal_text(s: Seq<char>) -> bool {
    let a0 = sign_len(s, 0);
    let a = digit_run(s, a0);
    let j = a0 + a;
    let has_dot = j < s.len() && s[j] == '.';
    let b = if has_dot { digit_run(s, j + 1) } else { 0 };
    let k = if has_dot { j + 1 + b } else { j };
    let e0 = k + 1 + sign_len(s, k + 1);
    &&& a + b > 0
    &&& (k == s.len() || ((s[k] == 'e' || s[k] == 'E') && digit_run(s, e0) > 0 && e0
        + digit_run(s, e0) == s.len()))
}

/// `c` is the letter `w` (given in lower case) in either case.
pub open spec fn same_letter(c: char, w: char) -> bool {
    c == w || (c as u32) + 32 == (w as u32)
}

/// `t` spells `w` (given in lower case), ignoring the case of ASCII letters.
pub open spec fn spells(t: Seq<char>, w: Seq<char>) -> bool {
    t.len() == w.len() && forall|i: int| 0 <= i < t.len() ==> same_letter(#[trigger] t[i], w[i])
}

/// The text that `f32`'s `FromStr` accepts: an optional sign, then `inf`,
/// `infinity` or `nan` in any case, or a decimal number.
pub open spec fn float_text(s: Seq<char>) -> bool {
    let t = s.skip(sign_len(s, 0));
    is_decimal_text(s) || spells(t, "inf"@) || spells(t, "infinity"@) || spells(t, "nan"@)
}

/// Whether `s` from position `from` on spells the lower-case word `w`.
fn spells_from(s: &str, s_len: usize, from: usize, w: &str) -> (r: bool)
    requires
        s_len == s@.len(),
        from <= s_len,
    ensures
        r == spells(s@.skip(from as int), w@),
{
    let w_len = w.unicode_len();
    if s_len - from != w_len {
        return false;
    }
    let ghost t = s@.skip(from as int);
    let mut j: usize = 0;
    while j < w_len
        invariant
            s_len == s@.len(),
            w_len == w@.len(),
            from + w_len == s_len,
            t == s@.skip(from as int),
            j <= w_len,
            forall|k: int| 0 <= k < j ==> same_letter(#[trigger] t[k], w@[k]),
        decreases w_len - j,
    {
        let c = s.get_char(from + j);
        let wc = w.get_char(j);
        if !(c == wc || (c as u32) + 32 == (wc as u32)) {
            assert(!same_letter(t[j as int], w@[j as int]));
            return false;
        }
        j = j + 1;
    }
    true
}

fn sign_len_exec(s: &str, s_len: usize, i: usize) -> (r: usize)
    requires
        s_len == s@.len(),
        i <= s_len,
    ensures
        r == sign_len(s@, i as int),
        i + r <= s_len,
{
    if i < s_len {
        let c = s.get_char(i);
        if c == '+' || c == '-' {
            return 1;
        }
    }
    0
}

fn digit_run_exec(s: &str, s_len: usize, i: usize) -> (r: usize)
    requires
        s_len == s@.len(),
        i <= s_len,
    ensures
        r == digit_run(s@, i as int),
        i + r <= s_len,
{
    let mut j: usize = i;
    while j < s_len && is_digit_exec(s.get_char(j))
        invariant
            s_len == s@.len(),
            i <= j <= s_len,
            digit_run(s@, i as int) == (j - i) + digit_run(s@, j as int),
        decreases s_len - j,
    {
        j = j + 1;
    }
    j - i
}

fn is_digit_exec(c: char) -> (r: bool)
    ensures
        r == is_digit(c),
{
    '0' <= c && c <= '9'
}

/// Whether `s` reads as a float: an optional sign, then `inf`, `infinity` or
/// `nan` in any case, or a decimal number with optional fraction and exponent.
pub fn is_float_text(s: &str) -> (r: bool)
    ensures
        r == float_text(s@),
{
    let s_len = s.unicode_len();
    let a0 = sign_len_exec(s, s_len, 0);
    if spells_from(s, s_len, a0, "inf") || spells_from(s, s_len, a0, "infinity") || spells_from(
        s,
        s_len,
        a0,
        "nan",
    ) {
        return true;
    }
    let a = digit_run_exec(s, s_len, a0);
    let j = a0 + a;
    let has_dot = j < s_len && s.get_char(j) == '.';
    let b = if has_dot {
        digit_run_exec(s, s_len, j + 1)
    } else {
        0
    };
    let k = if has_dot {
        j + 1 + b
    } else {
        j
    };
    if a + b == 0 {
        return false;
    }
    if k == s_len {
        return true;
    }
    let e = s.get_char(k);
    if e != 'e' && e != 'E' {
        return false;
    }
    let e0 = k + 1 + sign_len_exec(s, s_len, k + 1);
    let c = digit_run_exec(s, s_len, e0);
    c > 0 && e0 + c == s_len
}

} // verus!
