//! The whole pipeline over canned responses: collection, verification and
//! the laws that hold of a run — determinism, the successful empty result on
//! empty input, and the preservation of duplicate inputs.

use vstd::prelude::*;

use crate::extract::{resolve_user_input, resolved_user};
use crate::feed::{
    appid_candidates, candidates_from_appids, candidates_from_games, candidates_from_store_urls,
    game_candidate, store_candidates, Feed, FeedView,
};
use crate::output::{rendered_lines, Args};
use crate::scrape::{games_json_capture, parsed_games, scrape_games_from_body, ScrapeOutcome,
    SteamApp};
use crate::urls::{games_list_url, userid_to_games_url};
use crate::verify::{
    spec_verify_one, spec_verify_prefix, table_lookup, verify_all, ResponseTable, TableView,
};

verus! {

/// The candidates one `user` input gives rise to: none when the input is
/// unresolvable or the fetched page embeds no games array (both silently
/// skipped), one per scraped game otherwise; fatal (`None`) when the page's
/// response is missing or its array does not parse.
pub open spec fn user_candidates(u: Seq<char>, t: TableView) -> Option<Seq<FeedView>> {
    match resolved_user(u) {
        None => Some(Seq::empty()),
        Some(id) => match table_lookup(t, games_list_url(id), 0) {
            None => None,
            Some(rep) => match games_json_capture(rep.1) {
                None => Some(Seq::empty()),
                Some(j) => match parsed_games(j) {
                    None => None,
                    Some(gs) => Some(Seq::new(gs.len(), |i: int| game_candidate(gs[i]))),
                },
            },
        },
    }
}

/// The candidates of the first `i` user inputs, concatenated in input order.
pub open spec fn users_candidates(users: Seq<Seq<char>>, t: TableView, i: int) -> Option<
    Seq<FeedView>,
>
    decreases i,
{
    if i <= 0 {
        Some(Seq::empty())
    } else {
        match users_candidates(users, t, i - 1) {
            None => None,
            Some(acc) => match user_candidates(users[i - 1], t) {
                None => None,
                Some(cs) => Some(acc + cs),
            },
        }
    }
}

/// Every candidate of one run, in processing order: AppID inputs, then store
/// URL inputs, then user inputs.
pub open spec fn collected_candidates(
    appids: Seq<usize>,
    urls: Seq<Seq<char>>,
    users: Seq<Seq<char>>,
    t: TableView,
) -> Option<Seq<FeedView>> {
    match users_candidates(users, t, users.len() as int) {
        None => None,
        Some(uc) => Some(
            appid_candidates(appids) + store_candidates(urls, urls.len() as int) + uc,
        ),
    }
}

/// The feeds one whole run emits, given the responses `t`: the collected
/// candidates, passed through verification when it is requested.
pub open spec fn pipeline_feeds(
    appids: Seq<usize>,
    urls: Seq<Seq<char>>,
    users: Seq<Seq<char>>,
    t: TableView,
    verify: bool,
) -> Option<Seq<FeedView>> {
    match collected_candidates(appids, urls, users, t) {
        None => None,
        Some(cs) => if verify {
            spec_verify_prefix(cs, t, cs.len() as int)
        } else {
            Some(cs)
        },
    }
}

/// Once one user input fails fatally, the whole user pass does.
proof fn lemma_users_candidates_none(users: Seq<Seq<char>>, t: TableView, i: int, j: int)
    requires
        0 <= i <= j,
        users_candidates(users, t, i) is None,
    ensures
        users_candidates(users, t, j) is None,
    decreases j - i,
{
    if j > i {
        lemma_users_candidates_none(users, t, i, j - 1);
    }
}

/// Collects every candidate of one run from the canned responses, in
/// processing order: AppID inputs, then store URLs, then each user's scraped
/// games; `None` when a games page's response is missing or its array does
/// not parse.
pub fn collect_candidates(
    appids: &Vec<usize>,
    urls: &Vec<String>,
    users: &Vec<String>,
    table: &ResponseTable,
) -> (r: Option<Vec<Feed>>)
    ensures
        match r {
            Some(cs) => collected_candidates(
                appids@,
                urls@.map_values(|u: String| u@),
                users@.map_values(|u: String| u@),
                table@,
            ) == Some(cs@.map_values(|f: Feed| f@)),
            None => collected_candidates(
                appids@,
                urls@.map_values(|u: String| u@),
                users@.map_values(|u: String| u@),
                table@,
            ) is None,
        },
{
    let ghost usviews = users@.map_values(|u: String| u@);
    let mut out = candidates_from_appids(appids);
    let mut from_urls = candidates_from_store_urls(urls);
    out.append(&mut from_urls);
    let ghost base = appid_candidates(appids@) + store_candidates(
        urls@.map_values(|u: String| u@),
        urls@.len() as int,
    );
    proof {
        assert(out@.map_values(|f: Feed| f@) =~= base);
    }
    let mut i: usize = 0;
    while i < users.len()
        invariant
            i <= users@.len(),
            usviews == users@.map_values(|u: String| u@),
            users_candidates(usviews, table@, i as int) matches Some(acc) && out@.map_values(
                |f: Feed| f@,
            ) == base + acc,
        decreases users@.len() - i,
    {
        let ghost acc = users_candidates(usviews, table@, i as int).unwrap();
        match resolve_user_input(users[i].as_str()) {
            None => {
                proof {
                    assert(base + acc + Seq::<FeedView>::empty() =~= base + acc);
                    assert(acc + Seq::<FeedView>::empty() =~= acc);
                }
            },
            Some(user_id) => {
                let games_url = userid_to_games_url(user_id.as_str());
                match table.lookup(games_url.as_str()) {
                    None => {
                        proof {
                            lemma_users_candidates_none(
                                usviews,
                                table@,
                                i + 1,
                                usviews.len() as int,
                            );
                        }
                        return None;
                    },
                    Some(reply) => {
                        match scrape_games_from_body(reply.body.as_str()) {
                            ScrapeOutcome::Games(games) => {
                                let ghost gs = games@.map_values(|g: SteamApp| g@);
                                let mut cs = candidates_from_games(&games);
                                proof {
                                    assert(cs@.map_values(|f: Feed| f@) =~= Seq::new(
                                        gs.len(),
                                        |k: int| game_candidate(gs[k]),
                                    ));
                                }
                                let ghost cviews = cs@.map_values(|f: Feed| f@);
                                out.append(&mut cs);
                                proof {
                                    assert(out@.map_values(|f: Feed| f@) =~= base + acc + cviews);
                                    assert(base + acc + cviews =~= base + (acc + cviews));
                                }
                            },
                            ScrapeOutcome::NoGamesArray => {
                                proof {
                                    assert(acc + Seq::<FeedView>::empty() =~= acc);
                                }
                            },
                            ScrapeOutcome::BadGamesJson => {
                                proof {
                                    lemma_users_candidates_none(
                                        usviews,
                                        table@,
                                        i + 1,
                                        usviews.len() as int,
                                    );
                                }
                                return None;
                            },
                        }
                    },
                }
            },
        }
        i += 1;
    }
    Some(out)
}

/// Runs the whole pipeline against canned responses: collect the candidates,
/// verify them when verification is requested, and hand back the surviving
/// feeds; `None` mirrors a fatal run.
pub fn run_pipeline(args: &Args, table: &ResponseTable) -> (r: Option<Vec<Feed>>)
    ensures
        match r {
            Some(out) => pipeline_feeds(
                args.appid@,
                args.url@.map_values(|u: String| u@),
                args.user@.map_values(|u: String| u@),
                table@,
                args.verify,
            ) == Some(out@.map_values(|f: Feed| f@)),
            None => pipeline_feeds(
                args.appid@,
                args.url@.map_values(|u: String| u@),
                args.user@.map_values(|u: String| u@),
                table@,
                args.verify,
            ) is None,
        },
{
    match collect_candidates(&args.appid, &args.url, &args.user, table) {
        Some(cs) => if args.verify {
            verify_all(&cs, table)
        } else {
            Some(cs)
        },
        None => None,
    }
}

/// Two runs with identical inputs and identical responses yield identical
/// feeds, and hence byte-identical rendered output: every stage of the
/// pipeline, the scraper's parse included, is a function of the inputs and
/// the responses alone.
pub proof fn lemma_pipeline_deterministic(
    appids1: Seq<usize>,
    urls1: Seq<Seq<char>>,
    users1: Seq<Seq<char>>,
    t1: TableView,
    verify1: bool,
    appids2: Seq<usize>,
    urls2: Seq<Seq<char>>,
    users2: Seq<Seq<char>>,
    t2: TableView,
    verify2: bool,
)
    requires
        appids1 == appids2,
        urls1 == urls2,
        users1 == users2,
        t1 == t2,
        verify1 == verify2,
    ensures
        pipeline_feeds(appids1, urls1, users1, t1, verify1) == pipeline_feeds(
            appids2,
            urls2,
            users2,
            t2,
            verify2,
        ),
        (pipeline_feeds(appids1, urls1, users1, t1, verify1) matches Some(f1) ==> (
        pipeline_feeds(appids2, urls2, users2, t2, verify2) matches Some(f2) && rendered_lines(
            f1,
        ) == rendered_lines(f2))),
{
}

/// Empty input yields the successful empty result, whether or not
/// verification is requested: no candidates, no fetches, no error.
pub proof fn lemma_empty_inputs_empty_result(t: TableView, verify: bool)
    ensures
        pipeline_feeds(Seq::empty(), Seq::empty(), Seq::empty(), t, verify) == Some(
            Seq::<FeedView>::empty(),
        ),
{
    let cs = collected_candidates(Seq::empty(), Seq::empty(), Seq::empty(), t);
    assert(appid_candidates(Seq::empty()) =~= Seq::<FeedView>::empty());
    assert(cs == Some(
        appid_candidates(Seq::empty()) + store_candidates(Seq::empty(), 0) + Seq::<
            FeedView,
        >::empty(),
    ));
    assert(cs.unwrap() =~= Seq::<FeedView>::empty());
}

/// Duplicate AppID inputs yield duplicate candidates, and verification treats
/// them alike: the two candidates are equal, and their fates against the same
/// responses are equal, so two confirmations emit duplicate output entries.
pub proof fn lemma_duplicate_appids(appids: Seq<usize>, i: int, j: int, t: TableView)
    requires
        0 <= i < appids.len(),
        0 <= j < appids.len(),
        appids[i] == appids[j],
    ensures
        appid_candidates(appids)[i] == appid_candidates(appids)[j],
        spec_verify_one(appid_candidates(appids)[i], t) == spec_verify_one(
            appid_candidates(appids)[j],
            t,
        ),
{
}

} // verus!
