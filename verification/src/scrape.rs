//! The user game-list scraper: finding the JSON array embedded in a user's
//! games page and parsing it into game records.
//!
//! The page assigns the array to a JavaScript variable; the capture mirrors a
//! greedy pattern: after the leftmost viable occurrence of `var rgGames = `
//! followed by `[`, the capture runs to the last `]` on the same line that is
//! followed by `;`, whitespace and `var`.

use vstd::prelude::*;

use crate::text::{check_occurs_at, is_space_char, occurs_at, space_char};

verus! {

/// One scraped game: AppID, display name, and the friendly URL name when the
/// page gave one (a JSON string; any other JSON value means absent).
pub struct SteamApp {
    /// The AppID of the game.
    pub appid: usize,
    /// The name of the game.
    pub name: String,
    /// A friendly URL name of the game; some feeds use this instead of the
    /// AppID for their RSS feed.
    pub friendly_url: Option<String>,
}

impl View for SteamApp {
    type V = (usize, Seq<char>, Option<Seq<char>>);

    open spec fn view(&self) -> Self::V {
        (
            self.appid,
            self.name@,
            match self.friendly_url {
                Some(f) => Some(f@),
                None => None,
            },
        )
    }
}

/// The tail that must follow the captured array: `];`, then at least one
/// whitespace character running to position `k`, then `var`.
pub open spec fn games_tail_with(s: Seq<char>, e: int, k: int) -> bool {
    &&& e + 3 <= k
    &&& k + 3 <= s.len()
    &&& (forall|m: int| e + 2 <= m < k ==> is_space_char(s[m]))
    &&& s[k] == 'v'
    &&& s[k + 1] == 'a'
    &&& s[k + 2] == 'r'
}

/// Position `e` closes the array: `]` and `;` stand there, followed by
/// whitespace and `var`.
pub open spec fn games_tail_at(s: Seq<char>, e: int) -> bool {
    &&& 0 <= e
    &&& e + 1 < s.len()
    &&& s[e] == ']'
    &&& s[e + 1] == ';'
    &&& exists|k: int| games_tail_with(s, e, k)
}

/// Position `e` is a viable capture end for an array whose `[` stands at `b`:
/// the closing tail holds at `e`, at least one character lies between the
/// brackets, and no newline interrupts the line before `e`.
pub open spec fn games_end_at(s: Seq<char>, b: int, e: int) -> bool {
    &&& b + 2 <= e
    &&& games_tail_at(s, e)
    &&& (forall|m: int| b + 1 <= m < e ==> s[m] != '\n')
}

/// The greatest viable capture end at or below `hi` (the greedy choice).
pub open spec fn games_last_end(s: Seq<char>, b: int, hi: int) -> Option<int>
    decreases hi - b + 1,
{
    if hi < b + 2 {
        None
    } else if games_end_at(s, b, hi) {
        Some(hi)
    } else {
        games_last_end(s, b, hi - 1)
    }
}

/// A viable end below every higher rejected candidate is the greedy end.
proof fn lemma_games_last_end_from(s: Seq<char>, b: int, hi: int, e: int)
    requires
        b + 2 <= e <= hi,
        games_end_at(s, b, e),
        forall|x: int| e < x <= hi ==> !games_end_at(s, b, x),
    ensures
        games_last_end(s, b, hi) == Some(e),
    decreases hi - e,
{
    if hi > e {
        lemma_games_last_end_from(s, b, hi - 1, e);
    }
}

/// With every candidate rejected there is no greedy end.
proof fn lemma_games_last_end_none(s: Seq<char>, b: int, hi: int)
    requires
        forall|x: int| b + 2 <= x <= hi ==> !games_end_at(s, b, x),
    ensures
        games_last_end(s, b, hi) is None,
    decreases hi - b + 1,
{
    if hi >= b + 2 {
        lemma_games_last_end_none(s, b, hi - 1);
    }
}

/// Checks whether the closing tail stands at position `e`.
fn games_tail_check(s: &str, n: usize, e: usize) -> (r: bool)
    requires
        n == s@.len(),
        e < n,
    ensures
        r == games_tail_at(s@, e as int),
{
    if n - e < 2 {
        return false;
    }
    if s.get_char(e) != ']' || s.get_char(e + 1) != ';' {
        return false;
    }
    let w = e + 2;
    let mut k: usize = w;
    while k < n && space_char(s.get_char(k))
        invariant
            n == s@.len(),
            w <= k <= n,
            forall|m: int| w <= m < k ==> is_space_char(s@[m]),
        decreases n - k,
    {
        k += 1;
    }
    if k == w {
        assert forall|kk: int| !games_tail_with(s@, e as int, kk) by {
            if e + 3 <= kk && kk + 3 <= n {
                assert(!is_space_char(s@[w as int]));
            }
        }
        return false;
    }
    if n - k >= 3 && s.get_char(k) == 'v' && s.get_char(k + 1) == 'a' && s.get_char(k + 2) == 'r' {
        assert(games_tail_with(s@, e as int, k as int));
        return true;
    }
    assert forall|kk: int| !games_tail_with(s@, e as int, kk) by {
        if e + 3 <= kk && kk + 3 <= n {
            if kk < k {
                assert(is_space_char(s@[kk]));
            } else if kk > k {
                assert(k < n);
                assert(!is_space_char(s@[k as int]));
                assert(e + 2 <= k < kk);
            }
        }
    }
    false
}

/// Scans the line after the opening bracket at `b` for the greedy capture end.
fn games_end_scan(s: &str, n: usize, b: usize) -> (r: Option<usize>)
    requires
        n == s@.len(),
        b < n,
    ensures
        match r {
            Some(e) => {
                &&& games_last_end(s@, b as int, n - 1) == Some(e as int)
                &&& b + 2 <= e
                &&& e + 1 < n
            },
            None => games_last_end(s@, b as int, n - 1) is None,
        },
{
    let mut j = b + 1;
    let mut best: Option<usize> = None;
    while j < n && s.get_char(j) != '\n'
        invariant
            n == s@.len(),
            b + 1 <= j <= n,
            forall|m: int| b + 1 <= m < j ==> s@[m] != '\n',
            match best {
                Some(e) => {
                    &&& b + 2 <= e < j
                    &&& e + 1 < n
                    &&& games_end_at(s@, b as int, e as int)
                    &&& forall|x: int| e < x < j ==> !games_end_at(s@, b as int, x)
                },
                None => forall|x: int| b + 2 <= x < j ==> !games_end_at(s@, b as int, x),
            },
        decreases n - j,
    {
        if j >= b + 2 && games_tail_check(s, n, j) {
            best = Some(j);
        }
        j += 1;
    }
    proof {
        assert forall|x: int| j <= x <= n - 1 implies !games_end_at(s@, b as int, x) by {
            if x == j {
                if j < n {
                    assert(s@[j as int] == '\n');
                }
            } else {
                if (j as int) < n {
                    assert(s@[j as int] == '\n');
                    assert(b + 1 <= j < x);
                } else {
                    assert(x > n - 1);
                }
            }
        }
        match best {
            Some(e) => {
                lemma_games_last_end_from(s@, b as int, n - 1, e as int);
            },
            None => {
                lemma_games_last_end_none(s@, b as int, n - 1);
            },
        }
    }
    best
}

/// The page's games array is viably assigned at position `p`: the marker
/// `var rgGames = ` occurs there, `[` follows it, and the line it opens holds
/// a closing tail.
pub open spec fn games_match_at(s: Seq<char>, p: int) -> bool {
    let b = p + "var rgGames = "@.len();
    &&& occurs_at(s, "var rgGames = "@, p)
    &&& b < s.len()
    &&& s[b] == '['
    &&& games_last_end(s, b, s.len() - 1) is Some
}

/// The leftmost viable assignment at or after `i`.
pub open spec fn first_games_match(s: Seq<char>, i: int) -> Option<int>
    decreases s.len() - i + 1,
{
    if i < 0 || i > s.len() {
        None
    } else if games_match_at(s, i) {
        Some(i)
    } else if i == s.len() {
        None
    } else {
        first_games_match(s, i + 1)
    }
}

/// The captured JSON array text (brackets included), when the page embeds one.
pub open spec fn games_json_capture(s: Seq<char>) -> Option<Seq<char>> {
    match first_games_match(s, 0) {
        Some(p) => {
            let b = p + "var rgGames = "@.len();
            Some(s.subrange(b, games_last_end(s, b, s.len() - 1).unwrap() + 1))
        },
        None => None,
    }
}

/// Extracts the embedded games array text from a games page body, or reports
/// that the page embeds none (an unexpected layout or a private profile).
pub fn extract_games_json(body: &str) -> (r: Option<String>)
    ensures
        match r {
            Some(j) => games_json_capture(body@) == Some(j@),
            None => games_json_capture(body@) is None,
        },
{
    let n = body.unicode_len();
    let mlen = "var rgGames = ".unicode_len();
    let mut i: usize = 0;
    while i < n
        invariant
            n == body@.len(),
            mlen == "var rgGames = "@.len(),
            i <= n,
            first_games_match(body@, 0) == first_games_match(body@, i as int),
        decreases n - i,
    {
        if mlen <= n - i && check_occurs_at(body, "var rgGames = ", i) {
            let b = i + mlen;
            if b < n && body.get_char(b) == '[' {
                if let Some(e) = games_end_scan(body, n, b) {
                    assert(games_match_at(body@, i as int));
                    assert(first_games_match(body@, i as int) == Some(i as int));
                    let captured = body.substring_char(b, e + 1);
                    return Some(String::from_str(captured));
                }
            }
        }
        assert(!games_match_at(body@, i as int));
        i += 1;
    }
    assert(first_games_match(body@, i as int) is None);
    None
}

/// What the captured array text parses to: the `(appid, name, friendly URL
/// name)` of each record, in order, or nothing when the text is not a JSON
/// array of objects each carrying a fitting `appid`, a string `name` and a
/// `friendlyURL` field. The friendly name is kept only when `friendlyURL` is
/// a JSON string. The result is a function of the text alone.
pub uninterp spec fn parsed_games(s: Seq<char>) -> Option<Seq<(usize, Seq<char>, Option<Seq<char>>)>>;

/// Relies on serde_json::from_str and serde_json::Value::{get, as_u64,
/// as_str}: parses the captured text as a JSON array of objects and reads
/// each object's `appid`, `name` and `friendlyURL` fields, as a derived
/// deserializer for such records would.
#[verifier::external_body]
fn parse_games_json(s: &str) -> (r: Option<Vec<SteamApp>>)
    ensures
        match r {
            Some(v) => parsed_games(s@) == Some(v@.map_values(|g: SteamApp| g@)),
            None => parsed_games(s@) is None,
        },
{
    let values: Vec<serde_json::Value> = serde_json::from_str(s).ok()?;
    let mut games = Vec::with_capacity(values.len());
    for v in values {
        let appid = usize::try_from(v.get("appid")?.as_u64()?).ok()?;
        let name = v.get("name")?.as_str()?.to_string();
        let friendly_url = match v.get("friendlyURL")? {
            serde_json::Value::String(f) => Some(f.clone()),
            _ => None,
        };
        games.push(SteamApp { appid, name, friendly_url });
    }
    Some(games)
}

/// The games a page body yields: the parse of its captured array.
pub open spec fn scraped_games(body: Seq<char>) -> Option<Seq<(usize, Seq<char>, Option<Seq<char>>)>> {
    match games_json_capture(body) {
        Some(j) => parsed_games(j),
        None => None,
    }
}

/// How scraping one user's games page ended.
pub enum ScrapeOutcome {
    /// The page embedded a games array and it parsed: one record per game.
    Games(Vec<SteamApp>),
    /// The page embeds no games array (unexpected layout, or the profile's
    /// game details are private): recoverable, the user contributes nothing.
    NoGamesArray,
    /// The page embedded an array that does not parse as game records: fatal.
    BadGamesJson,
}

/// Scrapes the game records out of a fetched games-page body.
pub fn scrape_games_from_body(body: &str) -> (r: ScrapeOutcome)
    ensures
        match r {
            ScrapeOutcome::Games(v) => scraped_games(body@) == Some(
                v@.map_values(|g: SteamApp| g@),
            ),
            ScrapeOutcome::NoGamesArray => games_json_capture(body@) is None,
            ScrapeOutcome::BadGamesJson => games_json_capture(body@) is Some && scraped_games(
                body@,
            ) is None,
        },
{
    match extract_games_json(body) {
        Some(json) => match parse_games_json(json.as_str()) {
            Some(games) => ScrapeOutcome::Games(games),
            None => ScrapeOutcome::BadGamesJson,
        },
        None => ScrapeOutcome::NoGamesArray,
    }
}

} // verus!
