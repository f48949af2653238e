//! Small text helpers with exact specifications: number formatting and character edits.
use vstd::prelude::*;

verus! {

/// The text of each string.
pub open spec fn texts(v: Seq<String>) -> Seq<Seq<char>> {
    v.map_values(|s: String| s@)
}

/// The character of a single decimal digit.
pub open spec fn digit_char(d: nat) -> char {
    if d == 0 { '0' }
    else if d == 1 { '1' }
    else if d == 2 { '2' }
    else if d == 3 { '3' }
    else if d == 4 { '4' }
    else if d == 5 { '5' }
    else if d == 6 { '6' }
    else if d == 7 { '7' }
    else if d == 8 { '8' }
    else { '9' }
}

/// Decimal notation of `n`, without leading zeros.
pub open spec fn decimal(n: nat) -> Seq<char>
    decreases n,
{
    if n < 10 {
        seq![digit_char(n)]
    } else {
        decimal(n / 10).push(digit_char(n % 10))
    }
}

/// Octal notation of `n`, without leading zeros or prefix.
pub open spec fn octal(n: nat) -> Seq<char>
    decreases n,
{
    if n < 8 {
        seq![digit_char(n)]
    } else {
        octal(n / 8).push(digit_char(n % 8))
    }
}

fn digit_str(d: u32) -> (r: &'static str)
    requires
        d < 10,
    ensures
        r@ == seq![digit_char(d as nat)],
{
    if d == 0 {
        proof { reveal_strlit("0"); }
        "0"
    } else if d == 1 {
        proof { reveal_strlit("1"); }
        "1"
    } else if d == 2 {
        proof { reveal_strlit("2"); }
        "2"
    } else if d == 3 {
        proof { reveal_strlit("3"); }
        "3"
    } else if d == 4 {
        proof { reveal_strlit("4"); }
        "4"
    } else if d == 5 {
        proof { reveal_strlit("5"); }
        "5"
    } else if d == 6 {
        proof { reveal_strlit("6"); }
        "6"
    } else if d == 7 {
        proof { reveal_strlit("7"); }
        "7"
    } else if d == 8 {
        proof { reveal_strlit("8"); }
        "8"
    } else {
        proof { reveal_strlit("9"); }
        "9"
    }
}

/// Formats `n` in decimal, as `format!("{n}")` does.
pub fn decimal_string(n: u32) -> (r: String)
    ensures
        r@ == decimal(n as nat),
    decreases n,
{
    if n < 10 {
        String::from_str(digit_str(n))
    } else {
        let mut s = decimal_string(n / 10);
        s.append(digit_str(n % 10));
        s
    }
}

/// Formats `n` in octal, as `format!("{n:o}")` does.
pub fn octal_string(n: u32) -> (r: String)
    ensures
        r@ == octal(n as nat),
    decreases n,
{
    if n < 8 {
        String::from_str(digit_str(n))
    } else {
        let mut s = octal_string(n / 8);
        s.append(digit_str(n % 8));
        s
    }
}

/// `s` with every newline turned into a comma.
pub open spec fn newlines_to_commas(s: Seq<char>) -> Seq<char> {
    s.map_values(|c: char| if c == '\n' { ',' } else { c })
}

/// The part of `s` before its first `=`, or all of `s` when it holds none.
pub open spec fn before_equals(s: Seq<char>) -> Seq<char>
    decreases s.len(),
{
    if s.len() == 0 {
        s
    } else if s[0] == '=' {
        Seq::empty()
    } else {
        seq![s[0]] + before_equals(s.subrange(1, s.len() as int))
    }
}

/// Whether `s` starts with a dash, the mark of a command-line option.
pub open spec fn starts_with_dash(s: Seq<char>) -> bool {
    s.len() > 0 && s[0] == '-'
}

/// Replaces each newline of `s` with a comma, as `s.replace('\n', ",")` does.
pub fn replace_newlines(s: &str) -> (r: String)
    ensures
        r@ == newlines_to_commas(s@),
{
    let n = s.unicode_len();
    let mut r = String::new();
    let mut i: usize = 0;
    while i < n
        invariant
            i <= n,
            n == s@.len(),
            r@ == newlines_to_commas(s@.subrange(0, i as int)),
        decreases n - i,
    {
        let c = s.get_char(i);
        let ghost before = r@;
        if c == '\n' {
            r.append(",");
            proof { reveal_strlit(","); }
            assert(","@ =~= seq![',']);
        } else {
            r.append(s.substring_char(i, i + 1));
            assert(s@.subrange(i as int, i + 1) =~= seq![c]);
        }
        proof {
            assert(s@.subrange(0, i + 1) =~= s@.subrange(0, i as int).push(c));
            assert(r@ =~= before.push(if c == '\n' { ',' } else { c }));
        }
        i = i + 1;
        assert(r@ =~= newlines_to_commas(s@.subrange(0, i as int)));
    }
    assert(s@.subrange(0, n as int) =~= s@);
    r
}

/// Whether `s` starts with `-`, as `s.starts_with('-')` tells.
pub fn has_leading_dash(s: &str) -> (r: bool)
    ensures
        r == starts_with_dash(s@),
{
    s.unicode_len() > 0 && s.get_char(0) == '-'
}

proof fn lemma_before_equals_prefix(s: Seq<char>, i: int)
    requires
        0 <= i <= s.len(),
        forall|j: int| 0 <= j < i ==> s[j] != '=',
    ensures
        before_equals(s) == s.subrange(0, i) + before_equals(s.subrange(i, s.len() as int)),
    decreases i,
{
    if i > 0 {
        let t = s.subrange(1, s.len() as int);
        lemma_before_equals_prefix(t, i - 1);
        assert(t.subrange(i - 1, t.len() as int) =~= s.subrange(i, s.len() as int));
        assert(seq![s[0]] + t.subrange(0, i - 1) =~= s.subrange(0, i));
    } else {
        assert(s.subrange(0, 0) + s =~= s);
        assert(s.subrange(0, s.len() as int) =~= s);
    }
}

/// The part of `s` before its first `=`, as `s.split('=').next()` gives it.
pub fn name_before_equals(s: &str) -> (r: String)
    ensures
        r@ == before_equals(s@),
{
    let n = s.unicode_len();
    let mut i: usize = 0;
    while i < n && s.get_char(i) != '='
        invariant
            i <= n,
            n == s@.len(),
            forall|j: int| 0 <= j < i ==> s@[j] != '=',
        decreases n - i,
    {
        i = i + 1;
    }
    proof {
        lemma_before_equals_prefix(s@, i as int);
        let rest = s@.subrange(i as int, s@.len() as int);
        if i < n {
            assert(rest[0] == '=');
        } else {
            assert(rest.len() == 0);
        }
        assert(s@.subrange(0, i as int) + Seq::<char>::empty() =~= s@.subrange(0, i as int));
    }
    String::from_str(s.substring_char(0, i))
}

/// Whether `s` holds a NUL character, which no file system path can hold.
pub fn has_nul(s: &str) -> (r: bool)
    ensures
        r == s@.contains('\0'),
{
    let n = s.unicode_len();
    let mut i: usize = 0;
    while i < n
        invariant
            i <= n,
            n == s@.len(),
            forall|j: int| 0 <= j < i ==> s@[j] != '\0',
        decreases n - i,
    {
        if s.get_char(i) == '\0' {
            return true;
        }
        i = i + 1;
    }
    false
}

/// Decimal notation of a signed number: a minus sign before negative ones.
pub open spec fn signed_decimal(n: int) -> Seq<char> {
    if n < 0 {
        seq!['-'] + decimal((-n) as nat)
    } else {
        decimal(n as nat)
    }
}

/// Formats `n` in decimal, as `format!("{n}")` does.
pub fn signed_decimal_string(n: i32) -> (r: String)
    ensures
        r@ == signed_decimal(n as int),
{
    if n < 0 {
        let magnitude: u32 = if n == i32::MIN {
            2147483648u32
        } else {
            (-n) as u32
        };
        let mut r = String::from_str("-");
        proof { reveal_strlit("-"); }
        let digits = decimal_string(magnitude);
        r.append(digits.as_str());
        r
    } else {
        decimal_string(n as u32)
    }
}

} // verus!
