//! Feed candidates and their construction from the three input classes:
//! direct AppIDs, storefront URLs, and scraped user game lists.

use vstd::prelude::*;

use crate::extract::{extract_appid_from_store_url, store_url_appid};
use crate::scrape::SteamApp;
use crate::text::dec_digits;
use crate::urls::{appid_feed_url, appid_to_rss_url, name_feed_url, name_to_rss_url};

verus! {

/// Where a feed candidate came from; traceability only, never a dispatch key.
#[derive(Clone, Copy, PartialEq, Eq, Structural, Debug)]
pub enum Origin {
    /// Built from an AppID given directly.
    DirectAppId,
    /// Built from a storefront URL.
    StoreUrl,
    /// Built from a record scraped off a user's games page.
    UserScrape,
}

/// The abstract value of a feed candidate:
/// `(url, friendly_url, text, origin)`.
pub type FeedView = (Seq<char>, Option<Seq<char>>, Option<Seq<char>>, Origin);

/// A feed candidate flowing through the pipeline.
pub struct Feed {
    /// A potential alternate friendly URL, tried when the primary URL fails
    /// verification.
    pub friendly_url: Option<String>,
    /// The text to use for the feed in the OPML output; overwritten with the
    /// feed's own title once verified.
    pub text: Option<String>,
    /// The URL of the feed.
    pub url: String,
    /// Provenance of the candidate.
    pub origin: Origin,
}

impl View for Feed {
    type V = FeedView;

    open spec fn view(&self) -> FeedView {
        (
            self.url@,
            match self.friendly_url {
                Some(f) => Some(f@),
                None => None,
            },
            match self.text {
                Some(t) => Some(t@),
                None => None,
            },
            self.origin,
        )
    }
}

/// The placeholder label of a candidate built from an AppID:
/// `Steam AppID {id}`.
pub open spec fn appid_label(id: nat) -> Seq<char> {
    "Steam AppID "@ + dec_digits(id)
}

/// The candidate an AppID gives rise to: the feed URL, no fallback, the
/// placeholder label.
pub open spec fn appid_candidate(id: usize, origin: Origin) -> FeedView {
    (appid_feed_url(id as nat), None::<Seq<char>>, Some(appid_label(id as nat)), origin)
}

/// The candidate a scraped game gives rise to: the feed URL of its AppID, the
/// friendly-name feed URL as fallback when one exists, the game's name.
pub open spec fn game_candidate(g: (usize, Seq<char>, Option<Seq<char>>)) -> FeedView {
    (
        appid_feed_url(g.0 as nat),
        match g.2 {
            Some(f) => Some(name_feed_url(f)),
            None => None,
        },
        Some(g.1),
        Origin::UserScrape,
    )
}

/// The candidates a list of AppID inputs gives rise to, in input order.
pub open spec fn appid_candidates(appids: Seq<usize>) -> Seq<FeedView> {
    Seq::new(appids.len(), |i: int| appid_candidate(appids[i], Origin::DirectAppId))
}

/// The candidates a list of storefront URL inputs gives rise to, in input
/// order: one per URL that carries an AppID, none for the rest.
pub open spec fn store_candidates(urls: Seq<Seq<char>>, i: int) -> Seq<FeedView>
    decreases i,
{
    if i <= 0 {
        Seq::empty()
    } else {
        let rest = store_candidates(urls, i - 1);
        match store_url_appid(urls[i - 1]) {
            Some(id) => rest.push(appid_candidate(id as usize, Origin::StoreUrl)),
            None => rest,
        }
    }
}

/// Builds the placeholder label `Steam AppID {id}`.
pub fn appid_display_text(appid: usize) -> (r: String)
    ensures
        r@ == appid_label(appid as nat),
{
    let mut s = String::from_str("Steam AppID ");
    let digits = crate::text::usize_to_dec(appid);
    s.append(digits.as_str());
    s
}

/// Builds the candidate for one directly given AppID.
pub fn candidate_from_appid(appid: usize, origin: Origin) -> (r: Feed)
    ensures
        r@ == appid_candidate(appid, origin),
{
    Feed {
        friendly_url: None,
        text: Some(appid_display_text(appid)),
        url: appid_to_rss_url(appid),
        origin,
    }
}

/// Builds one candidate per AppID input, in input order.
pub fn candidates_from_appids(appids: &Vec<usize>) -> (r: Vec<Feed>)
    ensures
        r@.len() == appids@.len(),
        forall|i: int|
            0 <= i < appids@.len() ==> r@[i]@ == appid_candidate(
                appids@[i],
                Origin::DirectAppId,
            ),
        r@.map_values(|f: Feed| f@) == appid_candidates(appids@),
{
    let mut out: Vec<Feed> = Vec::new();
    let mut i: usize = 0;
    while i < appids.len()
        invariant
            i <= appids@.len(),
            out@.len() == i,
            forall|j: int|
                0 <= j < i ==> out@[j]@ == appid_candidate(appids@[j], Origin::DirectAppId),
        decreases appids@.len() - i,
    {
        out.push(candidate_from_appid(appids[i], Origin::DirectAppId));
        i += 1;
    }
    proof {
        assert(out@.map_values(|f: Feed| f@) =~= appid_candidates(appids@));
    }
    out
}

/// Builds the candidates for the storefront URL inputs, in input order,
/// silently skipping every URL that carries no AppID.
pub fn candidates_from_store_urls(urls: &Vec<String>) -> (r: Vec<Feed>)
    ensures
        r@.map_values(|f: Feed| f@) == store_candidates(
            urls@.map_values(|u: String| u@),
            urls@.len() as int,
        ),
{
    let ghost uviews = urls@.map_values(|u: String| u@);
    let mut out: Vec<Feed> = Vec::new();
    let mut i: usize = 0;
    while i < urls.len()
        invariant
            i <= urls@.len(),
            uviews == urls@.map_values(|u: String| u@),
            out@.map_values(|f: Feed| f@) == store_candidates(uviews, i as int),
        decreases urls@.len() - i,
    {
        let ghost before = out@.map_values(|f: Feed| f@);
        match extract_appid_from_store_url(urls[i].as_str()) {
            Some(appid) => {
                out.push(candidate_from_appid(appid, Origin::StoreUrl));
                proof {
                    assert(out@.map_values(|f: Feed| f@) =~= before.push(
                        appid_candidate(appid, Origin::StoreUrl),
                    ));
                }
            },
            None => {},
        }
        i += 1;
    }
    out
}

/// Builds one candidate per scraped game record, in page order.
pub fn candidates_from_games(games: &Vec<SteamApp>) -> (r: Vec<Feed>)
    ensures
        r@.len() == games@.len(),
        forall|i: int| 0 <= i < games@.len() ==> r@[i]@ == game_candidate(games@[i]@),
{
    let mut out: Vec<Feed> = Vec::new();
    let mut i: usize = 0;
    while i < games.len()
        invariant
            i <= games@.len(),
            out@.len() == i,
            forall|j: int| 0 <= j < i ==> out@[j]@ == game_candidate(games@[j]@),
        decreases games@.len() - i,
    {
        let g = &games[i];
        let friendly_url = match &g.friendly_url {
            Some(f) => Some(name_to_rss_url(f.as_str())),
            None => None,
        };
        out.push(
            Feed {
                friendly_url,
                text: Some(g.name.clone()),
                url: appid_to_rss_url(g.appid),
                origin: Origin::UserScrape,
            },
        );
        i += 1;
    }
    out
}

} // verus!
