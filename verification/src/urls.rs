//! Canonical Steam URLs: the RSS feed URL for a game and the games-list URL
//! for a community user.

use vstd::prelude::*;

use crate::text::{dec_digits, lemma_dec_digits_injective};

verus! {

/// The feed URL for a numeric AppID:
/// `https://steamcommunity.com/games/{id}/rss/`.
pub open spec fn appid_feed_url(id: nat) -> Seq<char> {
    "https://steamcommunity.com/games/"@ + dec_digits(id) + "/rss/"@
}

/// The feed URL for a friendly game name:
/// `https://steamcommunity.com/games/{name}/rss/`.
pub open spec fn name_feed_url(name: Seq<char>) -> Seq<char> {
    "https://steamcommunity.com/games/"@ + name + "/rss/"@
}

/// The games-list URL for a community user:
/// `https://steamcommunity.com/id/{user}/games/?tab=all`.
pub open spec fn games_list_url(user: Seq<char>) -> Seq<char> {
    "https://steamcommunity.com/id/"@ + user + "/games/?tab=all"@
}

/// Creates a Steam RSS URL from a given AppID.
pub fn appid_to_rss_url(appid: usize) -> (r: String)
    ensures
        r@ == appid_feed_url(appid as nat),
{
    let mut s = String::from_str("https://steamcommunity.com/games/");
    let digits = crate::text::usize_to_dec(appid);
    s.append(digits.as_str());
    s.append("/rss/");
    proof {
        assert(s@ =~= appid_feed_url(appid as nat));
    }
    s
}

/// Creates a Steam RSS URL from a game's friendly URL name.
pub fn name_to_rss_url(name: &str) -> (r: String)
    ensures
        r@ == name_feed_url(name@),
{
    let mut s = String::from_str("https://steamcommunity.com/games/");
    s.append(name);
    s.append("/rss/");
    proof {
        assert(s@ =~= name_feed_url(name@));
    }
    s
}

/// Creates a user's Steam Games URL from a given User ID.
pub fn userid_to_games_url(userid: &str) -> (r: String)
    ensures
        r@ == games_list_url(userid@),
{
    let mut s = String::from_str("https://steamcommunity.com/id/");
    s.append(userid);
    s.append("/games/?tab=all");
    proof {
        assert(s@ =~= games_list_url(userid@));
    }
    s
}

/// Distinct AppIDs map to distinct feed URLs: the AppID-to-URL direction is
/// injective, and every such URL ends in `/games/{id}/rss/`.
pub proof fn lemma_appid_feed_url_injective(a: nat, b: nat)
    requires
        appid_feed_url(a) == appid_feed_url(b),
    ensures
        a == b,
{
    let p = "https://steamcommunity.com/games/"@;
    let s = "/rss/"@;
    let da = dec_digits(a);
    let db = dec_digits(b);
    assert((p + da + s).len() == (p + db + s).len());
    assert(da.len() == db.len());
    assert forall|i: int| 0 <= i < da.len() implies da[i] == db[i] by {
        assert((p + da + s)[p.len() + i] == da[i]);
        assert((p + db + s)[p.len() + i] == db[i]);
    }
    assert(da =~= db);
    lemma_dec_digits_injective(a, b);
}

} // verus!
