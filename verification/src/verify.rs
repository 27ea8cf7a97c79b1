//! The verifier: classifying HTTP replies, extracting feed titles, and the
//! per-candidate state machine with its two-tier fallback.

use vstd::prelude::*;

use crate::feed::{Feed, FeedView};
use crate::text::{find_from, first_occurrence, lemma_first_occurrence, str_eq};

verus! {

/// What the HTTP collaborator hands back for one fetched URL.
pub struct HttpReply {
    /// The declared content type of the response.
    pub content_type: String,
    /// The response body.
    pub body: String,
}

impl View for HttpReply {
    type V = (Seq<char>, Seq<char>);

    open spec fn view(&self) -> (Seq<char>, Seq<char>) {
        (self.content_type@, self.body@)
    }
}

/// A reply confirms a feed iff its declared content type is exactly
/// `text/xml`.
pub open spec fn is_xml(content_type: Seq<char>) -> bool {
    content_type == "text/xml"@
}

/// Classifies a reply per [`is_xml`].
pub fn reply_is_xml(reply: &HttpReply) -> (r: bool)
    ensures
        r == is_xml(reply.content_type@),
{
    str_eq(reply.content_type.as_str(), "text/xml")
}

/// The feed title a confirmed body carries: the text strictly between the end
/// of the first `<title>` and the start of the first `</title>` after it;
/// absent (a malformed body) when either marker is missing.
pub open spec fn extracted_title(body: Seq<char>) -> Option<Seq<char>> {
    match first_occurrence(body, "<title>"@, 0) {
        Some(t1) => match first_occurrence(body, "</title>"@, t1 + "<title>"@.len()) {
            Some(t2) => Some(body.subrange(t1 + "<title>"@.len(), t2)),
            None => None,
        },
        None => None,
    }
}

/// Extracts the feed title out of a confirmed body, or reports the body
/// malformed.
pub fn extract_title(body: &str) -> (r: Option<String>)
    ensures
        match r {
            Some(t) => extracted_title(body@) == Some(t@),
            None => extracted_title(body@) is None,
        },
{
    let n = body.unicode_len();
    let mlen = "<title>".unicode_len();
    assert(n == body@.len());
    match find_from(body, "<title>", 0) {
        Some(t1) => {
            proof {
                lemma_first_occurrence(body@, "<title>"@, 0);
            }
            let start = t1 + mlen;
            match find_from(body, "</title>", start) {
                Some(t2) => {
                    proof {
                        lemma_first_occurrence(body@, "</title>"@, start as int);
                    }
                    Some(String::from_str(body.substring_char(start, t2)))
                },
                None => None,
            }
        },
        None => None,
    }
}

/// One move of the per-candidate verification state machine.
pub enum VerifyStep {
    /// The candidate is confirmed, its display text now the feed's own title.
    Confirmed(Feed),
    /// The primary URL did not confirm but a fallback exists: fetch this URL
    /// and decide with [`verify_fallback`].
    TryFallback(String),
    /// The candidate failed verification and leaves the pipeline.
    Dropped,
    /// The reply was XML but its body carries no title markers: the candidate
    /// fails with a malformed-body diagnostic instead of crashing.
    MalformedBody,
}

/// Clones an optional URL or label.
fn clone_opt_string(o: &Option<String>) -> (r: Option<String>)
    ensures
        (match r {
            Some(s) => match o {
                Some(x) => s@ == x@,
                None => false,
            },
            None => o is None,
        }),
{
    match o {
        Some(s) => Some(s.clone()),
        None => None,
    }
}

/// Decides a candidate's fate from the reply for its primary URL: confirmed
/// with the feed's title when the reply is XML and carries one; malformed
/// when it is XML without one; otherwise the fallback is to be tried when one
/// exists, and the candidate is dropped when none does.
pub fn verify_primary(candidate: &Feed, reply: &HttpReply) -> (r: VerifyStep)
    ensures
        is_xml(reply.content_type@) ==> (extracted_title(reply.body@) matches Some(t) ==> (
        r matches VerifyStep::Confirmed(g) && g@ == (
            candidate@.0,
            candidate@.1,
            Some(t),
            candidate@.3,
        ))),
        is_xml(reply.content_type@) && extracted_title(reply.body@) is None ==> r matches
            VerifyStep::MalformedBody,
        !is_xml(reply.content_type@) ==> (candidate@.1 matches Some(fb) ==> (
        r matches VerifyStep::TryFallback(u) && u@ == fb)),
        !is_xml(reply.content_type@) && candidate@.1 is None ==> r matches VerifyStep::Dropped,
{
    if reply_is_xml(reply) {
        match extract_title(reply.body.as_str()) {
            Some(title) => VerifyStep::Confirmed(
                Feed {
                    friendly_url: clone_opt_string(&candidate.friendly_url),
                    text: Some(title),
                    url: candidate.url.clone(),
                    origin: candidate.origin,
                },
            ),
            None => VerifyStep::MalformedBody,
        }
    } else {
        match &candidate.friendly_url {
            Some(f) => VerifyStep::TryFallback(f.clone()),
            None => VerifyStep::Dropped,
        }
    }
}

/// Decides a candidate's fate from the reply for its fallback URL: confirmed
/// with the URL swapped to the fallback when the reply is XML and titled;
/// malformed when XML without a title; dropped otherwise.
pub fn verify_fallback(candidate: &Feed, reply: &HttpReply) -> (r: VerifyStep)
    requires
        candidate@.1 is Some,
    ensures
        is_xml(reply.content_type@) ==> (extracted_title(reply.body@) matches Some(t) ==> (
        r matches VerifyStep::Confirmed(g) && g@ == (
            candidate@.1.unwrap(),
            candidate@.1,
            Some(t),
            candidate@.3,
        ))),
        is_xml(reply.content_type@) && extracted_title(reply.body@) is None ==> r matches
            VerifyStep::MalformedBody,
        !is_xml(reply.content_type@) ==> r matches VerifyStep::Dropped,
{
    if reply_is_xml(reply) {
        match extract_title(reply.body.as_str()) {
            Some(title) => match &candidate.friendly_url {
                Some(f) => VerifyStep::Confirmed(
                    Feed {
                        friendly_url: Some(f.clone()),
                        text: Some(title),
                        url: f.clone(),
                        origin: candidate.origin,
                    },
                ),
                None => {
                    proof {
                        assert(false);
                    }
                    VerifyStep::Dropped
                },
            },
            None => VerifyStep::MalformedBody,
        }
    } else {
        VerifyStep::Dropped
    }
}

/// The abstract value of a response table: `(url, (content type, body))` per
/// entry, looked up first match wins.
pub type TableView = Seq<(Seq<char>, (Seq<char>, Seq<char>))>;

/// One canned response, keyed by its URL.
pub struct ResponseEntry {
    /// The URL this reply answers.
    pub url: String,
    /// The canned reply.
    pub reply: HttpReply,
}

impl View for ResponseEntry {
    type V = (Seq<char>, (Seq<char>, Seq<char>));

    open spec fn view(&self) -> (Seq<char>, (Seq<char>, Seq<char>)) {
        (self.url@, self.reply@)
    }
}

/// A table of canned HTTP responses standing in for the live collaborator.
pub struct ResponseTable {
    /// The entries, in lookup order.
    pub entries: Vec<ResponseEntry>,
}

impl View for ResponseTable {
    type V = TableView;

    open spec fn view(&self) -> TableView {
        self.entries@.map_values(|e: ResponseEntry| e@)
    }
}

/// The first reply the table holds for `url`, scanning from position `i`.
pub open spec fn table_lookup(t: TableView, url: Seq<char>, i: int) -> Option<(Seq<char>, Seq<char>)>
    decreases t.len() - i + 1,
{
    if i < 0 || i >= t.len() {
        None
    } else if t[i].0 == url {
        Some(t[i].1)
    } else {
        table_lookup(t, url, i + 1)
    }
}

impl ResponseTable {
    /// Finds the first reply stored for `url`, or reports that the table
    /// holds none.
    pub fn lookup(&self, url: &str) -> (r: Option<&HttpReply>)
        ensures
            match r {
                Some(reply) => table_lookup(self@, url@, 0) == Some(reply@),
                None => table_lookup(self@, url@, 0) is None,
            },
    {
        let mut i: usize = 0;
        while i < self.entries.len()
            invariant
                i <= self.entries@.len(),
                table_lookup(self@, url@, 0) == table_lookup(self@, url@, i as int),
            decreases self.entries@.len() - i,
        {
            if str_eq(self.entries[i].url.as_str(), url) {
                return Some(&self.entries[i].reply);
            }
            i += 1;
        }
        None
    }
}

/// The fate of one candidate against a response table: `None` when a needed
/// response is missing (a transport failure, fatal), `Some(None)` when the
/// candidate is dropped, `Some(Some(g))` when it is confirmed as `g`.
pub open spec fn spec_verify_one(v: FeedView, t: TableView) -> Option<Option<FeedView>> {
    match table_lookup(t, v.0, 0) {
        None => None,
        Some(rep) => if is_xml(rep.0) {
            match extracted_title(rep.1) {
                Some(tt) => Some(Some((v.0, v.1, Some(tt), v.3))),
                None => Some(None),
            }
        } else {
            match v.1 {
                Some(fb) => match table_lookup(t, fb, 0) {
                    None => None,
                    Some(rep2) => if is_xml(rep2.0) {
                        match extracted_title(rep2.1) {
                            Some(tt) => Some(Some((fb, v.1, Some(tt), v.3))),
                            None => Some(None),
                        }
                    } else {
                        Some(None)
                    },
                },
                None => Some(None),
            }
        },
    }
}

/// The surviving feeds among the first `i` candidates, in order; `None` as
/// soon as any needed response is missing.
pub open spec fn spec_verify_prefix(cs: Seq<FeedView>, t: TableView, i: int) -> Option<
    Seq<FeedView>,
>
    decreases i,
{
    if i <= 0 {
        Some(Seq::empty())
    } else {
        match spec_verify_prefix(cs, t, i - 1) {
            None => None,
            Some(acc) => match spec_verify_one(cs[i - 1], t) {
                None => None,
                Some(Some(g)) => Some(acc.push(g)),
                Some(None) => Some(acc),
            },
        }
    }
}

/// Once a prefix fails fatally, every longer prefix does.
proof fn lemma_verify_prefix_none(cs: Seq<FeedView>, t: TableView, i: int, j: int)
    requires
        0 <= i <= j,
        spec_verify_prefix(cs, t, i) is None,
    ensures
        spec_verify_prefix(cs, t, j) is None,
    decreases j - i,
{
    if j > i {
        lemma_verify_prefix_none(cs, t, i, j - 1);
    }
}

/// Runs the whole verification pass against a response table: each candidate
/// is confirmed (possibly swapped to its fallback URL and always retitled) or
/// dropped, and a missing response is fatal.
pub fn verify_all(candidates: &Vec<Feed>, table: &ResponseTable) -> (r: Option<Vec<Feed>>)
    ensures
        match r {
            Some(out) => spec_verify_prefix(
                candidates@.map_values(|f: Feed| f@),
                table@,
                candidates@.len() as int,
            ) == Some(out@.map_values(|f: Feed| f@)),
            None => spec_verify_prefix(
                candidates@.map_values(|f: Feed| f@),
                table@,
                candidates@.len() as int,
            ) is None,
        },
{
    let ghost cviews = candidates@.map_values(|f: Feed| f@);
    let mut out: Vec<Feed> = Vec::new();
    let mut i: usize = 0;
    while i < candidates.len()
        invariant
            i <= candidates@.len(),
            cviews == candidates@.map_values(|f: Feed| f@),
            spec_verify_prefix(cviews, table@, i as int) == Some(out@.map_values(|f: Feed| f@)),
        decreases candidates@.len() - i,
    {
        let ghost before = out@.map_values(|f: Feed| f@);
        let c = &candidates[i];
        let step = match table.lookup(c.url.as_str()) {
            Some(reply) => verify_primary(c, reply),
            None => {
                proof {
                    lemma_verify_prefix_none(cviews, table@, i + 1, cviews.len() as int);
                }
                return None;
            },
        };
        match step {
            VerifyStep::Confirmed(g) => {
                out.push(g);
                proof {
                    assert(out@.map_values(|f: Feed| f@) =~= before.push(g@));
                }
            },
            VerifyStep::TryFallback(fb) => {
                match table.lookup(fb.as_str()) {
                    Some(reply2) => {
                        match verify_fallback(c, reply2) {
                            VerifyStep::Confirmed(g) => {
                                out.push(g);
                                proof {
                                    assert(out@.map_values(|f: Feed| f@) =~= before.push(g@));
                                }
                            },
                            _ => {},
                        }
                    },
                    None => {
                        proof {
                            lemma_verify_prefix_none(cviews, table@, i + 1, cviews.len() as int);
                        }
                        return None;
                    },
                }
            },
            _ => {},
        }
        i += 1;
    }
    Some(out)
}

} // verus!
