//! Text building blocks: decimal rendering and placeholder substitution.

use vstd::prelude::*;

verus! {

/// The character of a decimal digit.
pub open spec fn digit_char(d: nat) -> char {
    if d == 0 {
        '0'
    } else if d == 1 {
        '1'
    } else if d == 2 {
        '2'
    } else if d == 3 {
        '3'
    } else if d == 4 {
        '4'
    } else if d == 5 {
        '5'
    } else if d == 6 {
        '6'
    } else if d == 7 {
        '7'
    } else if d == 8 {
        '8'
    } else {
        '9'
    }
}

/// The decimal rendering of a natural number, without leading zeros.
pub open spec fn decimal(n: nat) -> Seq<char>
    decreases n,
{
    if n < 10 {
        seq![digit_char(n)]
    } else {
        decimal(n / 10).push(digit_char(n % 10))
    }
}

/// The decimal rendering of an integer, with a leading `-` when it is negative.
pub open spec fn signed_decimal(i: int) -> Seq<char> {
    if i < 0 {
        seq!['-'] + decimal((-i) as nat)
    } else {
        decimal(i as nat)
    }
}

/// `s` with every non-overlapping occurrence of `pat`, scanned from the left,
/// replaced by `rep`. An empty pattern occurs before every character and at
/// the end.
pub open spec fn replaced(s: Seq<char>, pat: Seq<char>, rep: Seq<char>) -> Seq<char>
    decreases s.len(),
{
    if pat.len() == 0 {
        if s.len() == 0 {
            rep
        } else {
            rep + seq![s[0]] + replaced(s.skip(1), pat, rep)
        }
    } else if s.len() == 0 {
        Seq::empty()
    } else if 0 < pat.len() <= s.len() && s.take(pat.len() as int) == pat {
        rep + replaced(s.skip(pat.len() as int), pat, rep)
    } else {
        seq![s[0]] + replaced(s.skip(1), pat, rep)
    }
}

/// `pat` occurs in `s`.
pub open spec fn occurs_in(pat: Seq<char>, s: Seq<char>) -> bool {
    exists|i: int| 0 <= i && i + pat.len() <= s.len() && #[trigger] s.subrange(i, i + pat.len()) == pat
}

/// Text in which the pattern does not occur comes back unchanged.
pub proof fn lemma_replace_absent(s: Seq<char>, pat: Seq<char>, rep: Seq<char>)
    requires
        pat.len() > 0,
        !occurs_in(pat, s),
    ensures
        replaced(s, pat, rep) == s,
    decreases s.len(),
{
    if s.len() > 0 {
        if pat.len() <= s.len() && s.take(pat.len() as int) == pat {
            assert(s.subrange(0int, 0int + pat.len()) =~= s.take(pat.len() as int));
        }
        assert forall|i: int|
            0 <= i && i + pat.len() <= s.skip(1).len() implies #[trigger] s.skip(1).subrange(
            i,
            i + pat.len(),
        ) != pat by {
            assert(s.skip(1).subrange(i, i + pat.len()) =~= s.subrange(i + 1, i + 1 + pat.len()));
        }
        lemma_replace_absent(s.skip(1), pat, rep);
    }
}

/// Replacing a pattern by itself changes nothing.
pub proof fn lemma_replace_by_itself(s: Seq<char>, pat: Seq<char>)
    ensures
        replaced(s, pat, pat) == s,
    decreases s.len(),
{
    if s.len() > 0 {
        if 0 < pat.len() <= s.len() && s.take(pat.len() as int) == pat {
            lemma_replace_by_itself(s.skip(pat.len() as int), pat);
        } else {
            lemma_replace_by_itself(s.skip(1), pat);
        }
    }
}

/// A decimal digit.
pub open spec fn is_digit(c: char) -> bool {
    c == '0' || c == '1' || c == '2' || c == '3' || c == '4' || c == '5' || c == '6' || c == '7'
        || c == '8' || c == '9'
}

/// The value of a decimal digit.
pub open spec fn digit_value(c: char) -> nat {
    if c == '1' {
        1
    } else if c == '2' {
        2
    } else if c == '3' {
        3
    } else if c == '4' {
        4
    } else if c == '5' {
        5
    } else if c == '6' {
        6
    } else if c == '7' {
        7
    } else if c == '8' {
        8
    } else if c == '9' {
        9
    } else {
        0
    }
}

/// The number that a string of decimal digits denotes.
pub open spec fn digits_value(s: Seq<char>) -> nat
    decreases s.len(),
{
    if s.len() == 0 {
        0
    } else {
        digits_value(s.drop_last()) * 10 + digit_value(s.last())
    }
}

/// Every character of `s` is a decimal digit.
pub open spec fn all_digits(s: Seq<char>) -> bool {
    forall|i: int| 0 <= i < s.len() ==> is_digit(#[trigger] s[i])
}

/// `s` holds no `{`.
pub open spec fn no_brace(s: Seq<char>) -> bool {
    forall|i: int| 0 <= i < s.len() ==> #[trigger] s[i] != '{'
}

/// The decimal rendering of `n` is a non-empty string of digits, without a
/// leading zero unless it is `0`, that reads back as `n`.
pub proof fn lemma_decimal_reads_back(n: nat)
    ensures
        decimal(n).len() > 0,
        all_digits(decimal(n)),
        digits_value(decimal(n)) == n,
        n > 0 ==> decimal(n)[0] != '0',
    decreases n,
{
    if n >= 10 {
        lemma_decimal_reads_back(n / 10);
        let d = decimal(n);
        assert(d.drop_last() =~= decimal(n / 10));
        assert(d[0] == decimal(n / 10)[0]);
        assert(d.last() == digit_char(n % 10));
        assert(digit_value(digit_char(n % 10)) == n % 10);
        assert(digits_value(d) == digits_value(d.drop_last()) * 10 + digit_value(d.last()));
        assert(n == (n / 10) * 10 + n % 10);
    } else {
        assert(digit_value(digit_char(n)) == n);
        assert(decimal(n).drop_last() =~= Seq::<char>::empty());
        assert(digits_value(decimal(n)) == digits_value(decimal(n).drop_last()) * 10 + digit_value(
            decimal(n).last(),
        ));
        assert(digits_value(Seq::<char>::empty()) == 0);
    }
}

/// A string of digits holds no `{`.
pub proof fn lemma_digits_no_brace(s: Seq<char>)
    requires
        all_digits(s),
    ensures
        no_brace(s),
{
    assert forall|i: int| 0 <= i < s.len() implies #[trigger] s[i] != '{' by {
        assert(is_digit(s[i]));
    }
}

/// A pattern that starts with `{` does not occur in text without `{`.
pub proof fn lemma_brace_pattern_absent(pat: Seq<char>, s: Seq<char>)
    requires
        pat.len() > 0,
        pat[0] == '{',
        no_brace(s),
    ensures
        !occurs_in(pat, s),
{
    assert forall|i: int| 0 <= i && i + pat.len() <= s.len() implies #[trigger] s.subrange(
        i,
        i + pat.len(),
    ) != pat by {
        assert(s.subrange(i, i + pat.len())[0] == s[i]);
    }
}

/// In `a + pat + b`, where `a` holds no `{`, `pat` starts with `{` and does not
/// occur in `b`, the one occurrence of `pat` is replaced and nothing else
/// changes; the replacement is not scanned again.
pub proof fn lemma_replace_once(a: Seq<char>, pat: Seq<char>, b: Seq<char>, rep: Seq<char>)
    requires
        pat.len() > 0,
        pat[0] == '{',
        no_brace(a),
        !occurs_in(pat, b),
    ensures
        replaced(a + pat + b, pat, rep) == a + rep + b,
    decreases a.len(),
{
    let s = a + pat + b;
    if a.len() == 0 {
        assert(s =~= pat + b);
        assert(s.take(pat.len() as int) =~= pat);
        assert(s.skip(pat.len() as int) =~= b);
        lemma_replace_absent(b, pat, rep);
        assert(a + rep + b =~= rep + b);
    } else {
        assert(s[0] == a[0]);
        assert(s.take(pat.len() as int)[0] == a[0]);
        assert(s.take(pat.len() as int) != pat);
        assert(s.skip(1) =~= a.skip(1) + pat + b);
        lemma_replace_once(a.skip(1), pat, b, rep);
        assert(a + rep + b =~= seq![a[0]] + (a.skip(1) + rep + b));
    }
}

/// The signed rendering reads back as the number: digits alone for a number
/// that is not negative, else `-` followed by the digits of its magnitude.
pub proof fn lemma_signed_decimal_reads_back(i: int)
    ensures
        i >= 0 ==> all_digits(signed_decimal(i)) && digits_value(signed_decimal(i)) == i,
        i < 0 ==> signed_decimal(i)[0] == '-' && all_digits(signed_decimal(i).skip(1))
            && digits_value(signed_decimal(i).skip(1)) == -i,
{
    if i >= 0 {
        lemma_decimal_reads_back(i as nat);
    } else {
        lemma_decimal_reads_back((-i) as nat);
        assert(signed_decimal(i).skip(1) =~= decimal((-i) as nat));
    }
}

fn digit_str(d: u128) -> (s: &'static str)
    requires
        d < 10,
    ensures
        s@ == seq![digit_char(d as nat)],
{
    proof {
        reveal_strlit("0");
        reveal_strlit("1");
        reveal_strlit("2");
        reveal_strlit("3");
        reveal_strlit("4");
        reveal_strlit("5");
        reveal_strlit("6");
        reveal_strlit("7");
        reveal_strlit("8");
        reveal_strlit("9");
    }
    if d == 0 {
        "0"
    } else if d == 1 {
        "1"
    } else if d == 2 {
        "2"
    } else if d == 3 {
        "3"
    } else if d == 4 {
        "4"
    } else if d == 5 {
        "5"
    } else if d == 6 {
        "6"
    } else if d == 7 {
        "7"
    } else if d == 8 {
        "8"
    } else {
        "9"
    }
}

/// Appends the decimal rendering of `n` to `out`.
pub fn push_decimal(out: &mut String, n: u128)
    ensures
        final(out)@ == old(out)@ + decimal(n as nat),
    decreases n,
{
    if n >= 10 {
        push_decimal(out, n / 10);
    }
    out.append(digit_str(n % 10));
    proof {
        assert(old(out)@ + decimal(n as nat) =~= old(out)@ + (if n >= 10 {
            decimal((n / 10) as nat)
        } else {
            Seq::empty()
        }) + seq![digit_char((n % 10) as nat)]);
    }
}

/// Appends the decimal rendering of `i` to `out`, with a leading `-` when `i` is negative.
pub fn push_signed_decimal(out: &mut String, i: i64)
    ensures
        final(out)@ == old(out)@ + signed_decimal(i as int),
{
    if i < 0 {
        proof {
            reveal_strlit("-");
        }
        out.append("-");
        let magnitude: u128 = (0i128 - (i as i128)) as u128;
        push_decimal(out, magnitude);
    } else {
        push_decimal(out, i as u128);
    }
}

/// The decimal rendering of `n`.
pub fn decimal_string(n: u128) -> (s: String)
    ensures
        s@ == decimal(n as nat),
{
    let mut s = String::new();
    push_decimal(&mut s, n);
    s
}

/// The characters of `s`, one by one.
pub fn chars_of(s: &str) -> (v: Vec<char>)
    ensures
        v@ == s@,
{
    let n = s.unicode_len();
    let mut v: Vec<char> = Vec::new();
    let mut i: usize = 0;
    while i < n
        invariant
            n == s@.len(),
            i <= n,
            v@ == s@.take(i as int),
        decreases n - i,
    {
        v.push(s.get_char(i));
        i = i + 1;
    }
    v
}

/// Whether `pat` stands in `s` at index `i`.
fn matches_at(s: &Vec<char>, i: usize, pat: &Vec<char>) -> (b: bool)
    requires
        i <= s@.len(),
    ensures
        b == (pat@.len() <= s@.skip(i as int).len() && s@.skip(i as int).take(pat@.len() as int)
            == pat@),
{
    let slen = s.len();
    if pat.len() > slen - i {
        return false;
    }
    let mut k: usize = 0;
    while k < pat.len()
        invariant
            slen == s@.len(),
            i + pat@.len() <= s@.len(),
            k <= pat@.len(),
            forall|j: int| 0 <= j < k ==> s@[i + j] == pat@[j],
        decreases pat@.len() - k,
    {
        if s[i + k] != pat[k] {
            return false;
        }
        k = k + 1;
    }
    assert(s@.skip(i as int).take(pat@.len() as int) =~= pat@);
    true
}

/// `s` with every non-overlapping occurrence of `pat`, scanned from the left,
/// replaced by `rep`; an empty pattern puts `rep` before every character and
/// at the end.
pub fn replace(s: &str, pat: &str, rep: &str) -> (r: String)
    ensures
        r@ == replaced(s@, pat@, rep@),
{
    let chars = chars_of(s);
    let pat_chars = chars_of(pat);
    let n = chars.len();
    let mut out = String::new();
    let mut i: usize = 0;
    assert(s@.skip(0) =~= s@);
    if pat_chars.len() == 0 {
        while i < n
            invariant
                n == s@.len(),
                pat@.len() == 0,
                i <= n,
                replaced(s@, pat@, rep@) == out@ + replaced(s@.skip(i as int), pat@, rep@),
            decreases n - i,
        {
            let ghost rest = s@.skip(i as int);
            out.append(rep);
            let one = s.substring_char(i, i + 1);
            out.append(one);
            assert(one@ =~= seq![rest[0]]);
            i = i + 1;
            assert(rest.skip(1) =~= s@.skip(i as int));
            assert(out@ + replaced(s@.skip(i as int), pat@, rep@) =~= replaced(s@, pat@, rep@));
        }
        out.append(rep);
        assert(s@.skip(n as int) =~= Seq::<char>::empty());
        assert(out@ =~= replaced(s@, pat@, rep@));
        return out;
    }
    while i < n
        invariant
            n == s@.len(),
            chars@ == s@,
            pat_chars@ == pat@,
            pat@.len() > 0,
            i <= n,
            replaced(s@, pat@, rep@) == out@ + replaced(s@.skip(i as int), pat@, rep@),
        decreases n - i,
    {
        let ghost rest = s@.skip(i as int);
        if matches_at(&chars, i, &pat_chars) {
            out.append(rep);
            i = i + pat_chars.len();
            assert(rest.skip(pat@.len() as int) =~= s@.skip(i as int));
        } else {
            let one = s.substring_char(i, i + 1);
            out.append(one);
            i = i + 1;
            assert(rest.skip(1) =~= s@.skip(i as int));
        }
    }
    out
}

} // verus!
