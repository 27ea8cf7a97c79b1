//! Character classes and verified string scanning used by the URL and page
//! parsers: substring search, case-insensitive comparison against ASCII
//! patterns, and decimal digit runs.

use vstd::prelude::*;

verus! {

/// A regex-style word character: ASCII letter, digit or underscore.
pub open spec fn is_word_char(c: char) -> bool {
    ('a' <= c && c <= 'z') || ('A' <= c && c <= 'Z') || ('0' <= c && c <= '9') || c == '_'
}

/// A bare user handle: one non-empty run of word characters.
pub open spec fn is_bare_handle(s: Seq<char>) -> bool {
    s.len() >= 1 && forall|i: int| 0 <= i < s.len() ==> is_word_char(s[i])
}

/// An ASCII decimal digit.
pub open spec fn is_digit_char(c: char) -> bool {
    '0' <= c && c <= '9'
}

/// A regex-style whitespace character.
pub open spec fn is_space_char(c: char) -> bool {
    c == ' ' || c == '\t' || c == '\n' || c == '\r' || c == '\u{b}' || c == '\u{c}'
}

/// Two characters are equal up to ASCII case.
pub open spec fn char_eq_ci(a: char, b: char) -> bool {
    a == b
    || ('A' <= a && a <= 'Z' && a as int + 32 == b as int)
    || ('A' <= b && b <= 'Z' && b as int + 32 == a as int)
}

/// Executable test for [`is_word_char`].
pub fn word_char(c: char) -> (r: bool)
    ensures
        r == is_word_char(c),
{
    ('a' <= c && c <= 'z') || ('A' <= c && c <= 'Z') || ('0' <= c && c <= '9') || c == '_'
}

/// Executable test for [`is_digit_char`].
pub fn digit_char(c: char) -> (r: bool)
    ensures
        r == is_digit_char(c),
{
    '0' <= c && c <= '9'
}

/// Executable test for [`is_space_char`].
pub fn space_char(c: char) -> (r: bool)
    ensures
        r == is_space_char(c),
{
    c == ' ' || c == '\t' || c == '\n' || c == '\r' || c == '\u{b}' || c == '\u{c}'
}

/// Executable test for [`char_eq_ci`].
pub fn chars_match_ci(a: char, b: char) -> (r: bool)
    ensures
        r == char_eq_ci(a, b),
{
    if a == b {
        true
    } else if 'A' <= a && a <= 'Z' {
        a as u32 + 32 == b as u32
    } else if 'A' <= b && b <= 'Z' {
        b as u32 + 32 == a as u32
    } else {
        false
    }
}

/// Whole-string equality of two string slices.
pub fn str_eq(a: &str, b: &str) -> (r: bool)
    ensures
        r == (a@ == b@),
{
    let alen = a.unicode_len();
    let blen = b.unicode_len();
    if alen != blen {
        assert(a@ != b@);
        return false;
    }
    let mut i: usize = 0;
    while i < alen
        invariant
            alen == a@.len(),
            blen == b@.len(),
            alen == blen,
            i <= alen,
            forall|j: int| 0 <= j < i ==> a@[j] == b@[j],
        decreases alen - i,
    {
        if a.get_char(i) != b.get_char(i) {
            return false;
        }
        i += 1;
    }
    proof {
        assert(a@ =~= b@);
    }
    true
}

/// The needle occurs in the haystack at position `i`.
pub open spec fn occurs_at(hay: Seq<char>, needle: Seq<char>, i: int) -> bool {
    0 <= i && i + needle.len() <= hay.len() && hay.subrange(i, i + needle.len() as int) == needle
}

/// The least position `>= from` at which the needle occurs, if any.
pub open spec fn first_occurrence(hay: Seq<char>, needle: Seq<char>, from: int) -> Option<int>
    decreases hay.len() - from + 1,
{
    if from < 0 || from + needle.len() > hay.len() {
        None
    } else if occurs_at(hay, needle, from) {
        Some(from)
    } else {
        first_occurrence(hay, needle, from + 1)
    }
}

/// The needle occurs at the position `first_occurrence` returns, and nowhere
/// earlier (at or after `from`); a `None` means it occurs nowhere at or after
/// `from`.
pub proof fn lemma_first_occurrence(hay: Seq<char>, needle: Seq<char>, from: int)
    requires
        0 <= from,
    ensures
        first_occurrence(hay, needle, from) matches Some(i) ==> occurs_at(hay, needle, i)
            && from <= i
            && forall|j: int| from <= j < i ==> !occurs_at(hay, needle, j),
        first_occurrence(hay, needle, from) is None ==> forall|j: int|
            from <= j ==> !occurs_at(hay, needle, j),
    decreases hay.len() - from + 1,
{
    if from + needle.len() > hay.len() {
        assert forall|j: int| from <= j implies !occurs_at(hay, needle, j) by {}
    } else if occurs_at(hay, needle, from) {
    } else {
        lemma_first_occurrence(hay, needle, from + 1);
    }
}

/// Does the needle occur in the haystack exactly at position `i`?
pub fn check_occurs_at(hay: &str, needle: &str, i: usize) -> (r: bool)
    requires
        i + needle@.len() <= usize::MAX,
    ensures
        r == occurs_at(hay@, needle@, i as int),
{
    let nlen = needle.unicode_len();
    let hlen = hay.unicode_len();
    if i + nlen > hlen {
        return false;
    }
    let mut k: usize = 0;
    while k < nlen
        invariant
            nlen == needle@.len(),
            hlen == hay@.len(),
            i + nlen <= hlen,
            k <= nlen,
            forall|j: int| 0 <= j < k ==> hay@[i + j] == needle@[j],
        decreases nlen - k,
    {
        if hay.get_char(i + k) != needle.get_char(k) {
            assert(hay@.subrange(i as int, i + nlen as int)[k as int] != needle@[k as int]);
            return false;
        }
        k += 1;
    }
    proof {
        assert(hay@.subrange(i as int, i + nlen as int) =~= needle@);
    }
    true
}

/// Finds the first occurrence of `needle` in `hay` at or after `from`.
pub fn find_from(hay: &str, needle: &str, from: usize) -> (r: Option<usize>)
    ensures
        match r {
            Some(i) => first_occurrence(hay@, needle@, from as int) == Some(i as int),
            None => first_occurrence(hay@, needle@, from as int) is None,
        },
{
    let hlen = hay.unicode_len();
    let nlen = needle.unicode_len();
    if from > hlen || nlen > hlen - from {
        return None;
    }
    if nlen == 0 {
        proof {
            assert(hay@.subrange(from as int, from as int) =~= needle@);
        }
        return Some(from);
    }
    let last = hlen - nlen;
    let mut i: usize = from;
    while i <= last
        invariant
            hlen == hay@.len(),
            nlen == needle@.len(),
            1 <= nlen,
            last == hlen - nlen,
            from <= i,
            i <= last + 1,
            first_occurrence(hay@, needle@, from as int) == first_occurrence(
                hay@,
                needle@,
                i as int,
            ),
        decreases last + 1 - i,
    {
        if check_occurs_at(hay, needle, i) {
            return Some(i);
        }
        i += 1;
    }
    None
}

/// The pattern matches the text at position `i`, up to ASCII case.
pub open spec fn matches_ci_at(s: Seq<char>, pat: Seq<char>, i: int) -> bool {
    0 <= i && i + pat.len() <= s.len() && forall|j: int|
        0 <= j < pat.len() ==> char_eq_ci(s[i + j], pat[j])
}

/// Does the pattern match the text at position `i`, up to ASCII case?
pub fn check_matches_ci(s: &str, pat: &str, i: usize) -> (r: bool)
    requires
        i + pat@.len() <= usize::MAX,
    ensures
        r == matches_ci_at(s@, pat@, i as int),
{
    let plen = pat.unicode_len();
    let slen = s.unicode_len();
    if i + plen > slen {
        return false;
    }
    let mut k: usize = 0;
    while k < plen
        invariant
            plen == pat@.len(),
            slen == s@.len(),
            i + plen <= slen,
            k <= plen,
            forall|j: int| 0 <= j < k ==> char_eq_ci(s@[i + j], pat@[j]),
        decreases plen - k,
    {
        if !chars_match_ci(s.get_char(i + k), pat.get_char(k)) {
            return false;
        }
        k += 1;
    }
    true
}

/// The end of the run of decimal digits that starts at `from`: the first
/// position at or after `from` holding no digit.
pub open spec fn digit_run_end(s: Seq<char>, from: int) -> int
    decreases s.len() - from + 1,
{
    if from < 0 || from >= s.len() || !is_digit_char(s[from]) {
        from
    } else {
        digit_run_end(s, from + 1)
    }
}

/// The end of the run of word characters that starts at `from`.
pub open spec fn word_run_end(s: Seq<char>, from: int) -> int
    decreases s.len() - from + 1,
{
    if from < 0 || from >= s.len() || !is_word_char(s[from]) {
        from
    } else {
        word_run_end(s, from + 1)
    }
}

/// The digit run really is one: all digits up to its end, and the end is the
/// string's end or a non-digit.
pub proof fn lemma_digit_run_end_props(s: Seq<char>, from: int)
    requires
        0 <= from <= s.len(),
    ensures
        from <= digit_run_end(s, from) <= s.len(),
        forall|j: int| from <= j < digit_run_end(s, from) ==> is_digit_char(s[j]),
        digit_run_end(s, from) == s.len() || !is_digit_char(s[digit_run_end(s, from)]),
    decreases s.len() - from + 1,
{
    if from < s.len() && is_digit_char(s[from]) {
        lemma_digit_run_end_props(s, from + 1);
    }
}

/// The word-character run really is one: all word characters up to its end,
/// and the end is the string's end or a non-word character.
pub proof fn lemma_word_run_end_props(s: Seq<char>, from: int)
    requires
        0 <= from <= s.len(),
    ensures
        from <= word_run_end(s, from) <= s.len(),
        forall|j: int| from <= j < word_run_end(s, from) ==> is_word_char(s[j]),
        word_run_end(s, from) == s.len() || !is_word_char(s[word_run_end(s, from)]),
    decreases s.len() - from + 1,
{
    if from < s.len() && is_word_char(s[from]) {
        lemma_word_run_end_props(s, from + 1);
    }
}

/// Scans to the end of the digit run starting at `from`.
pub fn scan_digit_run(s: &str, from: usize) -> (r: usize)
    requires
        from <= s@.len(),
    ensures
        r == digit_run_end(s@, from as int),
        from <= r <= s@.len(),
{
    let slen = s.unicode_len();
    let mut j: usize = from;
    while j < slen && digit_char(s.get_char(j))
        invariant
            slen == s@.len(),
            from <= j <= slen,
            digit_run_end(s@, from as int) == digit_run_end(s@, j as int),
        decreases slen - j,
    {
        j += 1;
    }
    j
}

/// Scans to the end of the word-character run starting at `from`.
pub fn scan_word_run(s: &str, from: usize) -> (r: usize)
    requires
        from <= s@.len(),
    ensures
        r == word_run_end(s@, from as int),
        from <= r <= s@.len(),
{
    let slen = s.unicode_len();
    let mut j: usize = from;
    while j < slen && word_char(s.get_char(j))
        invariant
            slen == s@.len(),
            from <= j <= slen,
            word_run_end(s@, from as int) == word_run_end(s@, j as int),
        decreases slen - j,
    {
        j += 1;
    }
    j
}

/// The decimal digit character for a value `d` between 0 and 9.
pub open spec fn digit_of(d: int) -> char {
    if d == 0 { '0' }
    else if d == 1 { '1' }
    else if d == 2 { '2' }
    else if d == 3 { '3' }
    else if d == 4 { '4' }
    else if d == 5 { '5' }
    else if d == 6 { '6' }
    else if d == 7 { '7' }
    else if d == 8 { '8' }
    else { '9' }
}

/// The numeric value of a decimal digit character (0 for anything else).
pub open spec fn digit_value(c: char) -> nat {
    if is_digit_char(c) { (c as int - '0' as int) as nat } else { 0 }
}

/// The decimal representation of `n`, most significant digit first, with no
/// leading zero except for `n == 0` itself.
pub open spec fn dec_digits(n: nat) -> Seq<char>
    decreases n,
{
    if n < 10 {
        seq![digit_of(n as int)]
    } else {
        dec_digits(n / 10).push(digit_of((n % 10) as int))
    }
}

/// The numeric value of a digit sequence read in base ten.
pub open spec fn dec_value(s: Seq<char>) -> nat
    decreases s.len(),
{
    if s.len() == 0 {
        0
    } else {
        dec_value(s.drop_last()) * 10 + digit_value(s.last())
    }
}

/// Reading the decimal representation back gives the number itself.
pub proof fn lemma_dec_digits_value(n: nat)
    ensures
        dec_value(dec_digits(n)) == n,
    decreases n,
{
    if n < 10 {
        assert(dec_digits(n) =~= seq![digit_of(n as int)]);
        assert(dec_digits(n).drop_last() =~= Seq::<char>::empty());
        assert(digit_value(digit_of(n as int)) == n);
        assert(dec_digits(n).last() == digit_of(n as int));
        assert(dec_value(dec_digits(n).drop_last()) == 0);
        assert(dec_value(dec_digits(n)) == 0 * 10 + digit_value(dec_digits(n).last()));
    } else {
        lemma_dec_digits_value(n / 10);
        vstd::arithmetic::div_mod::lemma_fundamental_div_mod(n as int, 10);
        assert(dec_digits(n).drop_last() =~= dec_digits(n / 10));
        assert(dec_digits(n).last() == digit_of((n % 10) as int));
        assert(digit_value(digit_of((n % 10) as int)) == n % 10);
        assert(dec_value(dec_digits(n)) == dec_value(dec_digits(n / 10)) * 10 + n % 10);
    }
}

/// Distinct numbers have distinct decimal representations.
pub proof fn lemma_dec_digits_injective(a: nat, b: nat)
    requires
        dec_digits(a) == dec_digits(b),
    ensures
        a == b,
{
    lemma_dec_digits_value(a);
    lemma_dec_digits_value(b);
}

/// The string slice holding one decimal digit character.
pub fn digit_str(d: usize) -> (r: &'static str)
    requires
        d < 10,
    ensures
        r@ =~= seq![digit_of(d as int)],
{
    proof {
        reveal_strlit("0");
        reveal_strlit("1");
        reveal_strlit("2");
        reveal_strlit("3");
        reveal_strlit("4");
        reveal_strlit("5");
        reveal_strlit("6");
        reveal_strlit("7");
        reveal_strlit("8");
        reveal_strlit("9");
    }
    if d == 0 { "0" }
    else if d == 1 { "1" }
    else if d == 2 { "2" }
    else if d == 3 { "3" }
    else if d == 4 { "4" }
    else if d == 5 { "5" }
    else if d == 6 { "6" }
    else if d == 7 { "7" }
    else if d == 8 { "8" }
    else { "9" }
}

/// Extending a digit run by one character multiplies its value by ten and
/// adds the new digit.
pub proof fn lemma_dec_value_extend(s: Seq<char>, d: int, j: int)
    requires
        0 <= d <= j < s.len(),
    ensures
        dec_value(s.subrange(d, j + 1)) == dec_value(s.subrange(d, j)) * 10 + digit_value(s[j]),
{
    assert(s.subrange(d, j + 1).drop_last() =~= s.subrange(d, j));
    assert(s.subrange(d, j + 1).last() == s[j]);
}

/// The value of a digit run never shrinks as the run extends.
pub proof fn lemma_dec_value_monotone(s: Seq<char>, d: int, j: int, e: int)
    requires
        0 <= d <= j <= e <= s.len(),
    ensures
        dec_value(s.subrange(d, e)) >= dec_value(s.subrange(d, j)),
    decreases e - j,
{
    if j < e {
        lemma_dec_value_monotone(s, d, j, e - 1);
        lemma_dec_value_extend(s, d, e - 1);
    }
}

/// Renders `n` in decimal.
pub fn usize_to_dec(n: usize) -> (s: String)
    ensures
        s@ == dec_digits(n as nat),
    decreases n,
{
    if n < 10 {
        String::from_str(digit_str(n))
    } else {
        let mut s = usize_to_dec(n / 10);
        s.append(digit_str(n % 10));
        proof {
            assert(dec_digits((n / 10) as nat) + seq![digit_of(n as int % 10)] =~= dec_digits(
                n as nat,
            ));
        }
        s
    }
}

} // verus!
