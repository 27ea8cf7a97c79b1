//! Input extractors: pulling an AppID out of a storefront URL and a user
//! identifier out of a community profile URL, with the resolution policy for
//! raw user inputs.

use vstd::prelude::*;

use crate::text::{
    check_matches_ci, dec_value, digit_run_end, digit_value, is_bare_handle, is_digit_char,
    is_word_char, lemma_dec_value_extend, lemma_dec_value_monotone, lemma_digit_run_end_props,
    lemma_word_run_end_props, matches_ci_at, scan_digit_run, scan_word_run, word_char,
    word_run_end,
};

verus! {

/// Where the digit run of a store URL starts, when the text begins with the
/// case-insensitive prefix `http(s)://store.steampowered.com/app/`.
pub open spec fn store_digits_start(s: Seq<char>) -> Option<int> {
    if matches_ci_at(s, "https://store.steampowered.com/app/"@, 0) {
        Some("https://store.steampowered.com/app/"@.len() as int)
    } else if matches_ci_at(s, "http://store.steampowered.com/app/"@, 0) {
        Some("http://store.steampowered.com/app/"@.len() as int)
    } else {
        None
    }
}

/// The AppID carried by a store URL: present iff the store prefix matches at
/// the start, at least one digit follows it, and the digit run's value fits
/// in `usize`.
pub open spec fn store_url_appid(s: Seq<char>) -> Option<nat> {
    match store_digits_start(s) {
        Some(d) => {
            let e = digit_run_end(s, d);
            if e == d {
                None
            } else if dec_value(s.subrange(d, e)) <= usize::MAX as nat {
                Some(dec_value(s.subrange(d, e)))
            } else {
                None
            }
        },
        None => None,
    }
}

/// Parses the digit run `s[d..e]` as a decimal number, detecting overflow.
fn parse_digit_run(s: &str, d: usize, e: usize) -> (r: Option<usize>)
    requires
        d <= e <= s@.len(),
        forall|j: int| d <= j < e ==> is_digit_char(s@[j]),
    ensures
        match r {
            Some(v) => v as nat == dec_value(s@.subrange(d as int, e as int)),
            None => dec_value(s@.subrange(d as int, e as int)) > usize::MAX as nat,
        },
{
    let mut acc: usize = 0;
    let mut j: usize = d;
    proof {
        assert(s@.subrange(d as int, d as int) =~= Seq::<char>::empty());
    }
    while j < e
        invariant
            d <= j <= e <= s@.len(),
            forall|k: int| d <= k < e ==> is_digit_char(s@[k]),
            acc as nat == dec_value(s@.subrange(d as int, j as int)),
        decreases e - j,
    {
        let c = s.get_char(j);
        assert(is_digit_char(c));
        let dv = (c as u32 - 48) as usize;
        assert(dv == digit_value(c));
        proof {
            lemma_dec_value_extend(s@, d as int, j as int);
        }
        if acc > (usize::MAX - dv) / 10 {
            proof {
                vstd::arithmetic::div_mod::lemma_fundamental_div_mod(
                    (usize::MAX - dv) as int,
                    10,
                );
                assert(acc * 10 + dv > usize::MAX);
                lemma_dec_value_monotone(s@, d as int, j + 1, e as int);
            }
            return None;
        }
        proof {
            vstd::arithmetic::div_mod::lemma_fundamental_div_mod((usize::MAX - dv) as int, 10);
            assert(acc * 10 + dv <= usize::MAX);
        }
        acc = acc * 10 + dv;
        j += 1;
    }
    Some(acc)
}

/// Extracts the AppID from a storefront URL: matches the case-insensitive
/// prefix `http(s)://store.steampowered.com/app/` anchored at the start and
/// parses the digit run after it; absent when the prefix does not match, no
/// digit follows, or the number does not fit.
pub fn extract_appid_from_store_url(url: &str) -> (r: Option<usize>)
    ensures
        match r {
            Some(v) => store_url_appid(url@) == Some(v as nat),
            None => store_url_appid(url@) is None,
        },
{
    let n = url.unicode_len();
    let p1 = "https://store.steampowered.com/app/";
    let p1len = p1.unicode_len();
    let p2 = "http://store.steampowered.com/app/";
    let p2len = p2.unicode_len();
    let d: usize;
    if p1len <= n && check_matches_ci(url, p1, 0) {
        d = p1len;
    } else if p2len <= n && check_matches_ci(url, p2, 0) {
        d = p2len;
    } else {
        return None;
    }
    let e = scan_digit_run(url, d);
    proof {
        lemma_digit_run_end_props(url@, d as int);
    }
    if e == d {
        return None;
    }
    parse_digit_run(url, d, e)
}

/// Where the captured user identifier would start, when the case-insensitive
/// pattern `http(s)://steamcommunity.com/id/` matches at position `i`.
pub open spec fn profile_capture_start(s: Seq<char>, i: int) -> Option<int> {
    if matches_ci_at(s, "https://steamcommunity.com/id/"@, i) {
        Some(i + "https://steamcommunity.com/id/"@.len())
    } else if matches_ci_at(s, "http://steamcommunity.com/id/"@, i) {
        Some(i + "http://steamcommunity.com/id/"@.len())
    } else {
        None
    }
}

/// The profile pattern matches at position `i` with a non-empty identifier.
pub open spec fn profile_match_at(s: Seq<char>, i: int) -> bool {
    match profile_capture_start(s, i) {
        Some(c) => c < s.len() && is_word_char(s[c]),
        None => false,
    }
}

/// The capture start of the leftmost profile-pattern match at or after `i`.
pub open spec fn first_profile_match(s: Seq<char>, i: int) -> Option<int>
    decreases s.len() - i + 1,
{
    if i < 0 || i > s.len() {
        None
    } else if profile_match_at(s, i) {
        profile_capture_start(s, i)
    } else if i == s.len() {
        None
    } else {
        first_profile_match(s, i + 1)
    }
}

/// The user identifier in a community profile URL: the maximal word-character
/// run captured by the leftmost match of the case-insensitive pattern
/// `http(s)://steamcommunity.com/id/<word>` anywhere in the text.
pub open spec fn profile_user_id(s: Seq<char>) -> Option<Seq<char>> {
    match first_profile_match(s, 0) {
        Some(c) => Some(s.subrange(c, word_run_end(s, c))),
        None => None,
    }
}

/// Computes where the captured identifier would start for a profile-pattern
/// match at position `i`, mirroring [`profile_capture_start`].
fn profile_cap_at(url: &str, n: usize, i: usize) -> (r: Option<usize>)
    requires
        i <= n,
        n == url@.len(),
    ensures
        match r {
            Some(c) => profile_capture_start(url@, i as int) == Some(c as int),
            None => profile_capture_start(url@, i as int) is None,
        },
{
    let p1 = "https://steamcommunity.com/id/";
    let p1len = p1.unicode_len();
    let p2 = "http://steamcommunity.com/id/";
    let p2len = p2.unicode_len();
    if p1len <= n - i && check_matches_ci(url, p1, i) {
        Some(i + p1len)
    } else if p2len <= n - i && check_matches_ci(url, p2, i) {
        Some(i + p2len)
    } else {
        None
    }
}

/// Extracts the user identifier from a community profile URL, or reports that
/// the profile pattern matches nowhere in it.
pub fn extract_user_id_from_profile_url(url: &str) -> (r: Option<String>)
    ensures
        match r {
            Some(u) => profile_user_id(url@) == Some(u@),
            None => profile_user_id(url@) is None,
        },
{
    let n = url.unicode_len();
    let mut i: usize = 0;
    while i < n
        invariant
            n == url@.len(),
            i <= n,
            first_profile_match(url@, 0) == first_profile_match(url@, i as int),
        decreases n - i,
    {
        if let Some(cap) = profile_cap_at(url, n, i) {
            if cap < n && word_char(url.get_char(cap)) {
                assert(profile_match_at(url@, i as int));
                assert(first_profile_match(url@, i as int) == Some(cap as int));
                let e = scan_word_run(url, cap);
                let captured = url.substring_char(cap, e);
                assert(captured@ == url@.subrange(cap as int, word_run_end(url@, cap as int)));
                return Some(String::from_str(captured));
            }
        }
        assert(!profile_match_at(url@, i as int));
        i += 1;
    }
    assert(first_profile_match(url@, i as int) is None);
    None
}

/// Resolves a raw `user` input: a bare identifier is used directly, a profile
/// URL gives up its captured identifier, and anything else is skipped.
pub open spec fn resolved_user(s: Seq<char>) -> Option<Seq<char>> {
    if is_bare_handle(s) {
        Some(s)
    } else {
        profile_user_id(s)
    }
}

/// True iff the whole input is one non-empty run of word characters.
pub fn looks_like_bare_user_id(text: &str) -> (r: bool)
    ensures
        r == is_bare_handle(text@),
{
    let n = text.unicode_len();
    if n == 0 {
        return false;
    }
    let e = scan_word_run(text, 0);
    proof {
        lemma_word_run_end_props(text@, 0);
    }
    e == n
}

/// Resolves a raw `user` input to a user identifier per [`resolved_user`].
pub fn resolve_user_input(input: &str) -> (r: Option<String>)
    ensures
        match r {
            Some(u) => resolved_user(input@) == Some(u@),
            None => resolved_user(input@) is None,
        },
{
    if looks_like_bare_user_id(input) {
        Some(String::from_str(input))
    } else {
        extract_user_id_from_profile_url(input)
    }
}

} // verus!
