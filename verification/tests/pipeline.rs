//! End-to-end and per-component tests of the feed discovery pipeline.

use steam_rss::extract::{
    extract_appid_from_store_url, extract_user_id_from_profile_url, looks_like_bare_user_id,
    resolve_user_input,
};
use steam_rss::feed::{
    candidate_from_appid, candidates_from_appids, candidates_from_games, candidates_from_store_urls,
    Feed, Origin,
};
use steam_rss::output::{feeds_to_outlines, render_output, render_urls, Args, RenderedOutput};
use steam_rss::pipeline::run_pipeline;
use steam_rss::scrape::{scrape_games_from_body, ScrapeOutcome, SteamApp};
use steam_rss::urls::{appid_to_rss_url, name_to_rss_url, userid_to_games_url};
use steam_rss::verify::{
    extract_title, verify_all, verify_primary, HttpReply, ResponseEntry, ResponseTable, VerifyStep,
};

fn reply(content_type: &str, body: &str) -> HttpReply {
    HttpReply {
        content_type: content_type.to_string(),
        body: body.to_string(),
    }
}

fn table(entries: Vec<(&str, HttpReply)>) -> ResponseTable {
    ResponseTable {
        entries: entries
            .into_iter()
            .map(|(url, reply)| ResponseEntry {
                url: url.to_string(),
                reply,
            })
            .collect(),
    }
}

#[test]
fn appid_url_shape() {
    assert_eq!(appid_to_rss_url(400), "https://steamcommunity.com/games/400/rss/");
    assert_eq!(appid_to_rss_url(0), "https://steamcommunity.com/games/0/rss/");
    assert_eq!(
        appid_to_rss_url(1234567),
        "https://steamcommunity.com/games/1234567/rss/"
    );
}

#[test]
fn appid_urls_distinct_for_distinct_ids() {
    assert_ne!(appid_to_rss_url(400), appid_to_rss_url(440));
    assert_ne!(appid_to_rss_url(1), appid_to_rss_url(10));
}

#[test]
fn name_url_shape() {
    assert_eq!(
        name_to_rss_url("Portal"),
        "https://steamcommunity.com/games/Portal/rss/"
    );
}

#[test]
fn games_url_shape() {
    assert_eq!(
        userid_to_games_url("alice"),
        "https://steamcommunity.com/id/alice/games/?tab=all"
    );
}

#[test]
fn store_url_appid_extraction() {
    assert_eq!(
        extract_appid_from_store_url("https://store.steampowered.com/app/400"),
        Some(400)
    );
    assert_eq!(
        extract_appid_from_store_url("HTTP://STORE.STEAMPOWERED.COM/APP/400/extra-path"),
        Some(400)
    );
    assert_eq!(extract_appid_from_store_url("https://example.com/app/400"), None);
}

#[test]
fn store_url_without_digits_or_prefix() {
    assert_eq!(extract_appid_from_store_url("https://store.steampowered.com/app/"), None);
    assert_eq!(extract_appid_from_store_url(""), None);
    assert_eq!(
        extract_appid_from_store_url("store.steampowered.com/app/400"),
        None
    );
}

#[test]
fn store_url_overflowing_appid() {
    assert_eq!(
        extract_appid_from_store_url(
            "https://store.steampowered.com/app/99999999999999999999999999"
        ),
        None
    );
}

#[test]
fn bare_user_ids() {
    assert!(looks_like_bare_user_id("alice_123"));
    assert!(looks_like_bare_user_id("ABC"));
    assert!(!looks_like_bare_user_id(""));
    assert!(!looks_like_bare_user_id("alice!"));
    assert!(!looks_like_bare_user_id("https://steamcommunity.com/id/alice"));
}

#[test]
fn profile_url_extraction() {
    assert_eq!(
        extract_user_id_from_profile_url("https://steamcommunity.com/id/gabe123/games"),
        Some("gabe123".to_string())
    );
    assert_eq!(
        extract_user_id_from_profile_url("see HTTPS://STEAMCOMMUNITY.COM/ID/Gabe here"),
        Some("Gabe".to_string())
    );
    assert_eq!(extract_user_id_from_profile_url("https://example.com/id/gabe"), None);
}

#[test]
fn user_input_resolution() {
    assert_eq!(resolve_user_input("alice"), Some("alice".to_string()));
    assert_eq!(
        resolve_user_input("http://steamcommunity.com/id/bob"),
        Some("bob".to_string())
    );
    assert_eq!(resolve_user_input("not a user!"), None);
}

#[test]
fn scraper_reads_one_record() {
    let body = "<html>var rgGames = [{\"appid\":400,\"name\":\"Portal\",\"friendlyURL\":\"Portal\"}];   var rgCards = [];";
    match scrape_games_from_body(body) {
        ScrapeOutcome::Games(games) => {
            assert_eq!(games.len(), 1);
            assert_eq!(games[0].appid, 400);
            assert_eq!(games[0].name, "Portal");
            assert_eq!(games[0].friendly_url, Some("Portal".to_string()));
        }
        _ => panic!("expected one scraped game"),
    }
}

#[test]
fn scraper_drops_non_string_friendly_url() {
    let body = "var rgGames = [{\"appid\":400,\"name\":\"Portal\",\"friendlyURL\":false}];   var rgCards = [];";
    match scrape_games_from_body(body) {
        ScrapeOutcome::Games(games) => {
            assert_eq!(games.len(), 1);
            assert_eq!(games[0].appid, 400);
            assert_eq!(games[0].friendly_url, None);
        }
        _ => panic!("expected one scraped game"),
    }
}

#[test]
fn scraper_reports_missing_array() {
    match scrape_games_from_body("<html>no games here</html>") {
        ScrapeOutcome::NoGamesArray => {}
        _ => panic!("expected the missing-array outcome"),
    }
}

#[test]
fn scraper_reports_unparsable_array() {
    match scrape_games_from_body("var rgGames = [this is not json];   var x") {
        ScrapeOutcome::BadGamesJson => {}
        _ => panic!("expected the bad-JSON outcome"),
    }
}

#[test]
fn scraper_takes_greedy_capture() {
    let body = "var rgGames = [{\"appid\":1,\"name\":\"a]\",\"friendlyURL\":false}];   var rgCards = [];";
    match scrape_games_from_body(body) {
        ScrapeOutcome::Games(games) => {
            assert_eq!(games.len(), 1);
            assert_eq!(games[0].name, "a]");
        }
        _ => panic!("expected the greedy capture to span the inner bracket"),
    }
}

#[test]
fn title_extraction() {
    assert_eq!(
        extract_title("<?xml version=\"1.0\"?><title>My Feed</title>rest"),
        Some("My Feed".to_string())
    );
    assert_eq!(extract_title("<title>x"), None);
    assert_eq!(extract_title("no markers"), None);
}

#[test]
fn candidates_from_appid_inputs() {
    let feeds = candidates_from_appids(&vec![400, 440]);
    assert_eq!(feeds.len(), 2);
    assert_eq!(feeds[0].url, "https://steamcommunity.com/games/400/rss/");
    assert_eq!(feeds[0].text, Some("Steam AppID 400".to_string()));
    assert_eq!(feeds[0].friendly_url, None);
    assert!(matches!(feeds[0].origin, Origin::DirectAppId));
    assert_eq!(feeds[1].url, "https://steamcommunity.com/games/440/rss/");
}

#[test]
fn candidates_from_store_url_inputs_skip_bad_ones() {
    let urls = vec![
        "https://store.steampowered.com/app/400".to_string(),
        "https://example.com/app/999".to_string(),
    ];
    let feeds = candidates_from_store_urls(&urls);
    assert_eq!(feeds.len(), 1);
    assert_eq!(feeds[0].url, "https://steamcommunity.com/games/400/rss/");
    assert!(matches!(feeds[0].origin, Origin::StoreUrl));
}

#[test]
fn candidates_from_scraped_games() {
    let games = vec![SteamApp {
        appid: 400,
        name: "Portal".to_string(),
        friendly_url: Some("Portal".to_string()),
    }];
    let feeds = candidates_from_games(&games);
    assert_eq!(feeds.len(), 1);
    assert_eq!(feeds[0].url, "https://steamcommunity.com/games/400/rss/");
    assert_eq!(
        feeds[0].friendly_url,
        Some("https://steamcommunity.com/games/Portal/rss/".to_string())
    );
    assert_eq!(feeds[0].text, Some("Portal".to_string()));
    assert!(matches!(feeds[0].origin, Origin::UserScrape));
}

#[test]
fn verification_confirms_xml_primary() {
    let candidate = candidate_from_appid(400, Origin::DirectAppId);
    let url = candidate.url.clone();
    let t = table(vec![(
        url.as_str(),
        reply("text/xml", "<?xml version=\"1.0\"?><title>My Feed</title>..."),
    )]);
    let out = verify_all(&vec![candidate], &t).expect("all responses are canned");
    assert_eq!(out.len(), 1);
    assert_eq!(out[0].url, url);
    assert_eq!(out[0].text, Some("My Feed".to_string()));
}

#[test]
fn verification_swaps_to_fallback() {
    let candidate = Feed {
        friendly_url: Some("https://steamcommunity.com/games/Portal/rss/".to_string()),
        text: Some("Portal".to_string()),
        url: "https://steamcommunity.com/games/400/rss/".to_string(),
        origin: Origin::UserScrape,
    };
    let t = table(vec![
        (
            "https://steamcommunity.com/games/400/rss/",
            reply("text/html", "<html>not a feed</html>"),
        ),
        (
            "https://steamcommunity.com/games/Portal/rss/",
            reply("text/xml", "<?xml?><title>Portal RSS</title>"),
        ),
    ]);
    let out = verify_all(&vec![candidate], &t).expect("all responses are canned");
    assert_eq!(out.len(), 1);
    assert_eq!(out[0].url, "https://steamcommunity.com/games/Portal/rss/");
    assert_eq!(out[0].text, Some("Portal RSS".to_string()));
}

#[test]
fn verification_drops_non_xml() {
    let candidate = Feed {
        friendly_url: Some("https://steamcommunity.com/games/Portal/rss/".to_string()),
        text: None,
        url: "https://steamcommunity.com/games/400/rss/".to_string(),
        origin: Origin::UserScrape,
    };
    let t = table(vec![
        (
            "https://steamcommunity.com/games/400/rss/",
            reply("text/html", "<html></html>"),
        ),
        (
            "https://steamcommunity.com/games/Portal/rss/",
            reply("text/html", "<html></html>"),
        ),
    ]);
    let out = verify_all(&vec![candidate], &t).expect("all responses are canned");
    assert!(out.is_empty());
}

#[test]
fn verification_drops_xml_without_title() {
    let candidate = candidate_from_appid(400, Origin::DirectAppId);
    let url = candidate.url.clone();
    let t = table(vec![(url.as_str(), reply("text/xml", "<?xml?>no title markers"))]);
    let out = verify_all(&vec![candidate], &t).expect("all responses are canned");
    assert!(out.is_empty());
}

#[test]
fn verification_fails_on_missing_response() {
    let candidate = candidate_from_appid(400, Origin::DirectAppId);
    assert!(verify_all(&vec![candidate], &table(vec![])).is_none());
}

#[test]
fn primary_step_requests_fallback() {
    let candidate = Feed {
        friendly_url: Some("https://steamcommunity.com/games/Portal/rss/".to_string()),
        text: None,
        url: "https://steamcommunity.com/games/400/rss/".to_string(),
        origin: Origin::UserScrape,
    };
    match verify_primary(&candidate, &reply("text/html", "")) {
        VerifyStep::TryFallback(url) => {
            assert_eq!(url, "https://steamcommunity.com/games/Portal/rss/");
        }
        _ => panic!("expected the fallback to be tried"),
    }
}

#[test]
fn empty_input_is_a_successful_empty_result() {
    let feeds = candidates_from_appids(&vec![]);
    assert!(feeds.is_empty());
    assert!(matches!(render_output(&feeds, false), RenderedOutput::NoFeeds));
    assert!(matches!(render_output(&feeds, true), RenderedOutput::NoFeeds));
}

#[test]
fn duplicate_appids_stay_duplicated() {
    let feeds = candidates_from_appids(&vec![400, 400]);
    assert_eq!(feeds.len(), 2);
    assert_eq!(feeds[0].url, feeds[1].url);
    let t = table(vec![(
        "https://steamcommunity.com/games/400/rss/",
        reply("text/xml", "<title>Portal</title>"),
    )]);
    let out = verify_all(&feeds, &t).expect("all responses are canned");
    assert_eq!(out.len(), 2);
    assert_eq!(render_urls(&out), "https://steamcommunity.com/games/400/rss/\nhttps://steamcommunity.com/games/400/rss/\n");
}

#[test]
fn rendering_urls_and_outlines() {
    let feeds = vec![
        Feed {
            friendly_url: None,
            text: Some("A".to_string()),
            url: "https://steamcommunity.com/games/1/rss/".to_string(),
            origin: Origin::DirectAppId,
        },
        Feed {
            friendly_url: None,
            text: None,
            url: "https://steamcommunity.com/games/2/rss/".to_string(),
            origin: Origin::DirectAppId,
        },
    ];
    assert_eq!(
        render_urls(&feeds),
        "https://steamcommunity.com/games/1/rss/\nhttps://steamcommunity.com/games/2/rss/\n"
    );
    let outlines = feeds_to_outlines(&feeds);
    assert_eq!(outlines[0].0, "A");
    assert_eq!(outlines[0].1, "https://steamcommunity.com/games/1/rss/");
    assert_eq!(outlines[1].0, "https://steamcommunity.com/games/2/rss/");
    assert_eq!(outlines[1].1, "https://steamcommunity.com/games/2/rss/");
}

/// One whole run, twice, against the same canned responses: the rendered
/// output must be byte-identical.
#[test]
fn pipeline_is_deterministic() {
    let run = || -> String {
        let args = Args {
            appid: vec![400],
            opml: false,
            timeout: 0,
            verify: true,
            url: vec!["https://store.steampowered.com/app/440".to_string()],
            user: vec!["alice".to_string()],
        };
        let games_page = "var rgGames = [{\"appid\":620,\"name\":\"Portal 2\",\"friendlyURL\":\"Portal2\"}];   var rgCards = [];";
        let t = table(vec![
            (
                "https://steamcommunity.com/id/alice/games/?tab=all",
                reply("text/html", games_page),
            ),
            (
                "https://steamcommunity.com/games/400/rss/",
                reply("text/xml", "<title>Portal</title>"),
            ),
            (
                "https://steamcommunity.com/games/440/rss/",
                reply("text/html", "nope"),
            ),
            (
                "https://steamcommunity.com/games/620/rss/",
                reply("text/html", "nope"),
            ),
            (
                "https://steamcommunity.com/games/Portal2/rss/",
                reply("text/xml", "<title>Portal 2</title>"),
            ),
        ]);
        let out = run_pipeline(&args, &t).expect("all responses are canned");
        render_urls(&out)
    };
    let first = run();
    let second = run();
    assert_eq!(first, second);
    assert_eq!(
        first,
        "https://steamcommunity.com/games/400/rss/\nhttps://steamcommunity.com/games/Portal2/rss/\n"
    );
}

/// A user whose profile page embeds no games array contributes nothing, and
/// the run still succeeds.
#[test]
fn pipeline_skips_private_profiles() {
    let args = Args {
        appid: vec![],
        opml: false,
        timeout: 0,
        verify: false,
        url: vec![],
        user: vec!["bob".to_string(), "not a user!".to_string()],
    };
    let t = table(vec![(
        "https://steamcommunity.com/id/bob/games/?tab=all",
        reply("text/html", "<html>private profile</html>"),
    )]);
    let out = run_pipeline(&args, &t).expect("recoverable conditions do not abort");
    assert!(out.is_empty());
}

/// A games page whose embedded array does not parse aborts the run.
#[test]
fn pipeline_fails_on_bad_games_json() {
    let args = Args {
        appid: vec![],
        opml: false,
        timeout: 0,
        verify: false,
        url: vec![],
        user: vec!["bob".to_string()],
    };
    let t = table(vec![(
        "https://steamcommunity.com/id/bob/games/?tab=all",
        reply("text/html", "var rgGames = [broken];   var x"),
    )]);
    assert!(run_pipeline(&args, &t).is_none());
}

/// The outline entries feed straight into the OPML encoder.
#[test]
fn opml_document_from_outlines() {
    let feeds = vec![Feed {
        friendly_url: None,
        text: Some("Portal RSS".to_string()),
        url: "https://steamcommunity.com/games/400/rss/".to_string(),
        origin: Origin::DirectAppId,
    }];
    match render_output(&feeds, true) {
        RenderedOutput::OpmlOutlines(outlines) => {
            let mut document = opml::OPML {
                head: None,
                ..Default::default()
            };
            for (title, url) in &outlines {
                document.add_feed(title, url);
            }
            let xml = document.to_string().expect("the document serializes");
            assert!(xml.contains("Portal RSS"));
            assert!(xml.contains("https://steamcommunity.com/games/400/rss/"));
        }
        _ => panic!("expected OPML outlines"),
    }
}
