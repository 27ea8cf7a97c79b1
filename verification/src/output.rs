//! The output emitter: newline-delimited URLs, OPML outline entries, or the
//! successful empty result.

use vstd::prelude::*;

use crate::feed::{Feed, FeedView};

verus! {

/// The inputs and switches of one run.
pub struct Args {
    /// Game AppIDs, each yielding one candidate.
    pub appid: Vec<usize>,
    /// Output the feeds as OPML.
    pub opml: bool,
    /// The time in milliseconds to sleep between HTTP requests.
    pub timeout: u64,
    /// Verify potential feeds by fetching them and checking for XML.
    pub verify: bool,
    /// Storefront URLs, each yielding at most one candidate.
    pub url: Vec<String>,
    /// Community user identifiers or profile URLs.
    pub user: Vec<String>,
}

/// The newline-delimited URL rendering of the surviving feeds, in order.
pub open spec fn rendered_lines(feeds: Seq<FeedView>) -> Seq<char>
    decreases feeds.len(),
{
    if feeds.len() == 0 {
        Seq::empty()
    } else {
        rendered_lines(feeds.drop_last()) + feeds.last().0 + "\n"@
    }
}

/// The OPML outline entry of one feed: its display text when present, else
/// its URL, paired with the URL.
pub open spec fn outline_of(v: FeedView) -> (Seq<char>, Seq<char>) {
    (
        match v.2 {
            Some(t) => t,
            None => v.0,
        },
        v.0,
    )
}

/// What one run emits.
pub enum RenderedOutput {
    /// No feed survived: a successful, empty completion announced with a
    /// `no feeds found` diagnostic, never an error.
    NoFeeds,
    /// The plain rendering: one URL per line.
    UrlLines(String),
    /// The entries to hand to the OPML encoder, in order.
    OpmlOutlines(Vec<(String, String)>),
}

/// Renders the surviving feeds as one URL per line.
pub fn render_urls(feeds: &Vec<Feed>) -> (r: String)
    ensures
        r@ == rendered_lines(feeds@.map_values(|f: Feed| f@)),
{
    let ghost views = feeds@.map_values(|f: Feed| f@);
    let mut s = String::new();
    let mut i: usize = 0;
    while i < feeds.len()
        invariant
            i <= feeds@.len(),
            views == feeds@.map_values(|f: Feed| f@),
            s@ == rendered_lines(views.subrange(0, i as int)),
        decreases feeds@.len() - i,
    {
        s.append(feeds[i].url.as_str());
        s.append("\n");
        proof {
            assert(views.subrange(0, i + 1).drop_last() =~= views.subrange(0, i as int));
        }
        i += 1;
    }
    proof {
        assert(views.subrange(0, views.len() as int) =~= views);
    }
    s
}

/// Builds the OPML outline entries of the surviving feeds, in order.
pub fn feeds_to_outlines(feeds: &Vec<Feed>) -> (r: Vec<(String, String)>)
    ensures
        r@.len() == feeds@.len(),
        forall|i: int|
            0 <= i < feeds@.len() ==> (r@[i].0@, r@[i].1@) == outline_of(feeds@[i]@),
{
    let mut out: Vec<(String, String)> = Vec::new();
    let mut i: usize = 0;
    while i < feeds.len()
        invariant
            i <= feeds@.len(),
            out@.len() == i,
            forall|j: int| 0 <= j < i ==> (out@[j].0@, out@[j].1@) == outline_of(feeds@[j]@),
        decreases feeds@.len() - i,
    {
        let f = &feeds[i];
        let title = match &f.text {
            Some(t) => t.clone(),
            None => f.url.clone(),
        };
        out.push((title, f.url.clone()));
        i += 1;
    }
    out
}

/// Renders the final candidate list: the empty list announces `no feeds
/// found` and succeeds; otherwise one URL per line, or OPML outline entries
/// when OPML output is requested.
pub fn render_output(feeds: &Vec<Feed>, opml: bool) -> (r: RenderedOutput)
    ensures
        (r matches RenderedOutput::NoFeeds) <==> feeds@.len() == 0,
        feeds@.len() > 0 && !opml ==> (r matches RenderedOutput::UrlLines(s) && s@
            == rendered_lines(feeds@.map_values(|f: Feed| f@))),
        feeds@.len() > 0 && opml ==> (r matches RenderedOutput::OpmlOutlines(v) && v@.len()
            == feeds@.len() && (forall|i: int|
            0 <= i < feeds@.len() ==> (v@[i].0@, v@[i].1@) == outline_of(feeds@[i]@))),
{
    if feeds.len() == 0 {
        RenderedOutput::NoFeeds
    } else if opml {
        RenderedOutput::OpmlOutlines(feeds_to_outlines(feeds))
    } else {
        RenderedOutput::UrlLines(render_urls(feeds))
    }
}

} // verus!
