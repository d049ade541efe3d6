//! Fetching pages of releases.
//!
//! The network round trip itself happens outside this module: a request is
//! first planned from a cursor, the caller performs it, and the outcome is
//! handed back to be turned into a page of records and the next cursor.
use vstd::prelude::*;
use vstd::string::StringExecFns;
use crate::client::{header_char, header_text, header_value_accepted, Herokuru};
use crate::error::{ErrorKind, HerokuruError};
use crate::model::{versions, Release};
use crate::page::Page;

verus! {

/// The path of the release collection of an application, relative to the
/// base URL.
pub open spec fn resource_path(app: Seq<char>) -> Seq<char> {
    "apps/"@ + app + "/releases"@
}

/// A byte that may stand in a header read as text: a tab, or visible ASCII.
pub open spec fn visible_byte(x: u8) -> bool {
    (32 <= x && x < 127) || x == 9
}

/// Header bytes that read as text.
pub open spec fn visible_ascii(b: Seq<u8>) -> bool {
    forall|i: int| 0 <= i < b.len() ==> #[trigger] visible_byte(b[i])
}

/// ASCII bytes read as characters, one for one.
pub open spec fn ascii_text(b: Seq<u8>) -> Seq<char> {
    b.map_values(|x: u8| x as char)
}

/// A 2xx status.
pub open spec fn success_status(status: u16) -> bool {
    200 <= status && status < 300
}

/// Relies on `std::str::from_utf8`: ASCII bytes are valid UTF-8, and each
/// decodes to the character of the same code.
#[verifier::external_body]
fn utf8_text(b: &[u8]) -> (r: Option<String>)
    ensures
        (forall|i: int| 0 <= i < b@.len() ==> b@[i] < 128) ==> (r is Some && r->Some_0@
            == ascii_text(b@)),
{
    std::str::from_utf8(b).ok().map(String::from)
}

/// One GET request to perform: a path relative to the client's base URL,
/// and the value of its `Range` header.
#[derive(Debug, Clone, PartialEq, Eq)]
pub struct HttpGet {
    pub path: String,
    pub range: String,
}

/// What came of performing an `HttpGet`.
#[derive(Debug, Clone, PartialEq, Eq)]
pub enum FetchOutcome {
    /// No answer was received.
    TransportFailed,
    /// An answer: its status, the raw `next-range` header if there was one,
    /// and its body decoded as release records, `None` where the body was no
    /// JSON array of releases.
    Received { status: u16, next_range: Option<Vec<u8>>, body: Option<Vec<Release>> },
}

/// One page of releases and the cursor of the page after it; no cursor
/// means the collection ends here.
#[derive(Debug, Clone, PartialEq, Eq)]
pub struct ReleasesResponse {
    pub releases: Vec<Release>,
    pub next: Option<Page>,
}

/// The release listing of one application.
#[derive(Debug, Clone)]
pub struct ReleasesRequest<'a> {
    pub heroku: &'a Herokuru,
    pub app_name: String,
}

impl Herokuru {
    /// The release listing of the application `app_name`.
    pub fn releases(&self, app_name: String) -> (r: ReleasesRequest<'_>)
        ensures
            *r.heroku == *self,
            r.app_name == app_name,
    {
        ReleasesRequest { heroku: self, app_name }
    }
}

/// Whether `r` is what completing `outcome` gives.
pub open spec fn completed(outcome: FetchOutcome, r: Result<ReleasesResponse, HerokuruError>) -> bool {
    match outcome {
        FetchOutcome::TransportFailed => r == Err::<ReleasesResponse, HerokuruError>(
            HerokuruError::Transport,
        ),
        FetchOutcome::Received { status, next_range, body } => if !success_status(status) {
            r == Err::<ReleasesResponse, HerokuruError>(HerokuruError::HttpStatus(status))
        } else if next_range is Some && !visible_ascii(next_range->Some_0@) {
            r == Err::<ReleasesResponse, HerokuruError>(HerokuruError::BadNextRange)
        } else if body is None {
            r == Err::<ReleasesResponse, HerokuruError>(HerokuruError::MalformedBody)
        } else {
            &&& r is Ok
            &&& r->Ok_0.releases@ == body->Some_0@
            &&& match next_range {
                None => r->Ok_0.next is None,
                Some(b) => {
                    &&& r->Ok_0.next is Some
                    &&& r->Ok_0.next->Some_0 is Issued
                    &&& r->Ok_0.next->Some_0.range_view() == ascii_text(b@)
                },
            }
        },
    }
}

fn all_visible(b: &Vec<u8>) -> (r: bool)
    ensures
        r == visible_ascii(b@),
{
    let mut i: usize = 0;
    while i < b.len()
        invariant
            0 <= i <= b.len(),
            forall|j: int| 0 <= j < i ==> #[trigger] visible_byte(b@[j]),
        decreases b.len() - i,
    {
        let x = b[i];
        if !((32 <= x && x < 127) || x == 9) {
            assert(!visible_byte(b@[i as int]));
            return false;
        }
        i += 1;
    }
    true
}

impl<'a> ReleasesRequest<'a> {
    /// Whether `r` is what planning the fetch of `page` gives: nothing to
    /// fetch without a cursor, else a GET of the collection that sends the
    /// cursor's range specification as it is.
    pub open spec fn planned(&self, page: Option<Page>, r: Result<Option<HttpGet>, HerokuruError>) -> bool {
        match page {
            None => r == Ok::<Option<HttpGet>, HerokuruError>(None),
            Some(p) => if header_text(p.range_view()) {
                &&& r is Ok
                &&& r->Ok_0 is Some
                &&& r->Ok_0->Some_0.path@ == resource_path(self.app_name@)
                &&& r->Ok_0->Some_0.range@ == p.range_view()
            } else {
                r == Err::<Option<HttpGet>, HerokuruError>(HerokuruError::InvalidRange)
            },
        }
    }

    /// The path of this application's release collection.
    pub fn path(&self) -> (r: String)
        ensures
            r@ == resource_path(self.app_name@),
    {
        proof {
            reveal_strlit("apps/");
            reveal_strlit("/releases");
        }
        let mut s = String::from_str("apps/");
        s.append(self.app_name.as_str());
        s.append("/releases");
        s
    }

    /// The request that fetches the page at `page`. Without a cursor the
    /// listing is over and nothing is to be fetched: `Ok(None)`. A cursor
    /// whose range specification is no valid header value gives
    /// `InvalidRange`.
    pub fn list(&self, page: Option<Page>) -> (r: Result<Option<HttpGet>, HerokuruError>)
        ensures
            self.planned(page, r),
    {
        match page {
            None => Ok(None),
            Some(p) => {
                let range = p.range_format();
                if !header_value_accepted(range.as_str()) {
                    return Err(HerokuruError::InvalidRange);
                }
                Ok(Some(HttpGet { path: self.path(), range }))
            },
        }
    }

    /// The request for the newest page of releases.
    pub fn first_list(&self) -> (r: Result<Option<HttpGet>, HerokuruError>)
        ensures
            r is Ok,
            r->Ok_0 is Some,
            r->Ok_0->Some_0.path@ == resource_path(self.app_name@),
            r->Ok_0->Some_0.range@ == "version ; order=desc,max=1000"@,
    {
        proof {
            let t = "version ; order=desc,max=1000"@;
            reveal_strlit("version ; order=desc,max=1000");
            assert forall|i: int| 0 <= i < t.len() implies #[trigger] header_char(t[i]) by {}
        }
        self.list(Some(Page::first_releases()))
    }

    /// Turns the outcome of a performed request into a page of releases.
    /// In this order: no answer gives `Transport`; a status other than 2xx
    /// gives `HttpStatus`; a `next-range` header that is not visible ASCII
    /// gives `BadNextRange`; a body that did not decode gives
    /// `MalformedBody`. Otherwise the page holds the decoded records in
    /// order, and the header, if any, verbatim as the next cursor.
    pub fn complete(outcome: FetchOutcome) -> (r: Result<ReleasesResponse, HerokuruError>)
        ensures
            completed(outcome, r),
    {
        match outcome {
            FetchOutcome::TransportFailed => Err(HerokuruError::Transport),
            FetchOutcome::Received { status, next_range, body } => {
                if !(200 <= status && status < 300) {
                    return Err(HerokuruError::HttpStatus(status));
                }
                let next = match next_range {
                    None => None,
                    Some(b) => {
                        if !all_visible(&b) {
                            return Err(HerokuruError::BadNextRange);
                        }
                        assert forall|i: int| 0 <= i < b@.len() implies b@[i] < 128 by {
                            assert(visible_byte(b@[i]));
                        }
                        match utf8_text(b.as_slice()) {
                            Some(text) => Some(Page::from_next_range(text)),
                            None => None,
                        }
                    },
                };
                match body {
                    None => Err(HerokuruError::MalformedBody),
                    Some(releases) => Ok(ReleasesResponse { releases, next }),
                }
            },
        }
    }
}

/// The state of a walk through every page of a release listing: the cursor
/// of the page still to fetch, if any, and how many pages were fetched.
#[derive(Debug, Clone, PartialEq, Eq)]
pub struct ReleaseWalk {
    pub next: Option<Page>,
    pub fetches: u64,
}

/// Whether taking in `response` moves the walk from `w` to `w2` and hands
/// out `rows`.
pub open spec fn advanced(
    w: ReleaseWalk,
    response: ReleasesResponse,
    w2: ReleaseWalk,
    rows: Seq<Release>,
) -> bool {
    &&& w2.next == response.next
    &&& w2.fetches == w.fetches + 1
    &&& rows == response.releases@
}

impl ReleaseWalk {
    /// A walk that starts at the newest page.
    pub fn start() -> (r: ReleaseWalk)
        ensures
            r.fetches == 0,
            r.next is Some,
            r.next->Some_0.range_view() == "version ; order=desc,max=1000"@,
    {
        ReleaseWalk { next: Some(Page::first_releases()), fetches: 0 }
    }

    /// Whether no page is left to fetch.
    pub fn is_done(&self) -> (r: bool)
        ensures
            r == self.next is None,
    {
        self.next.is_none()
    }

    /// The request for the page still to fetch; `Ok(None)` once the walk is
    /// done.
    pub fn next_request(&self, request: &ReleasesRequest) -> (r: Result<
        Option<HttpGet>,
        HerokuruError,
    >)
        ensures
            request.planned(self.next, r),
    {
        let page = match &self.next {
            None => None,
            Some(p) => Some(p.duplicate()),
        };
        request.list(page)
    }

    /// Takes in a fetched page: its cursor becomes the next one, and its
    /// records are handed out in order.
    pub fn advance(&mut self, response: ReleasesResponse) -> (rows: Vec<Release>)
        requires
            old(self).fetches < u64::MAX,
        ensures
            advanced(*old(self), response, *final(self), rows@),
    {
        self.next = response.next;
        self.fetches = self.fetches + 1;
        response.releases
    }
}

/// A continuation token that the server hands out is kept verbatim as the
/// next cursor, and the request for the next page sends it unchanged as its
/// `Range` header.
pub proof fn lemma_cursor_forwarded_verbatim(
    request: ReleasesRequest,
    status: u16,
    token: Vec<u8>,
    body: Vec<Release>,
    r: Result<ReleasesResponse, HerokuruError>,
    plan: Result<Option<HttpGet>, HerokuruError>,
)
    requires
        success_status(status),
        visible_ascii(token@),
        completed(
            FetchOutcome::Received { status, next_range: Some(token), body: Some(body) },
            r,
        ),
    ensures
        r is Ok,
        r->Ok_0.next is Some,
        r->Ok_0.next->Some_0.range_view() == ascii_text(token@),
        request.planned(r->Ok_0.next, plan) ==> {
            &&& plan is Ok
            &&& plan->Ok_0 is Some
            &&& plan->Ok_0->Some_0.range@ == ascii_text(token@)
        },
{
    let text = ascii_text(token@);
    assert forall|i: int| 0 <= i < text.len() implies #[trigger] header_char(text[i]) by {
        assert(visible_byte(token@[i]));
    }
}

/// A page that comes without a continuation header is the last: the walk
/// that takes it in is done, one fetch later.
pub proof fn lemma_last_page_ends_walk(
    status: u16,
    body: Vec<Release>,
    r: Result<ReleasesResponse, HerokuruError>,
    w: ReleaseWalk,
    w2: ReleaseWalk,
    rows: Seq<Release>,
)
    requires
        success_status(status),
        completed(FetchOutcome::Received { status, next_range: None, body: Some(body) }, r),
    ensures
        r is Ok,
        r->Ok_0.next is None,
        r->Ok_0.releases@ == body@,
        advanced(w, r->Ok_0, w2, rows) ==> w2.next is None && w2.fetches == w.fetches + 1
            && rows == body@,
{
}

/// A walk over two pages, the first with a continuation header and the second
/// without one, is done after exactly two fetches, and hands out the records
/// of the first page and then those of the second, in order.
pub proof fn lemma_two_page_walk(
    status1: u16,
    token: Vec<u8>,
    body1: Vec<Release>,
    status2: u16,
    body2: Vec<Release>,
    r1: Result<ReleasesResponse, HerokuruError>,
    r2: Result<ReleasesResponse, HerokuruError>,
    w0: ReleaseWalk,
    w1: ReleaseWalk,
    w2: ReleaseWalk,
    rows1: Seq<Release>,
    rows2: Seq<Release>,
)
    requires
        success_status(status1),
        visible_ascii(token@),
        success_status(status2),
        completed(
            FetchOutcome::Received { status: status1, next_range: Some(token), body: Some(body1) },
            r1,
        ),
        completed(
            FetchOutcome::Received { status: status2, next_range: None, body: Some(body2) },
            r2,
        ),
        advanced(w0, r1->Ok_0, w1, rows1),
        advanced(w1, r2->Ok_0, w2, rows2),
    ensures
        r1 is Ok,
        r2 is Ok,
        w1.next is Some,
        w2.next is None,
        w2.fetches == w0.fetches + 2,
        rows1 + rows2 == body1@ + body2@,
        versions(rows1 + rows2) == versions(body1@) + versions(body2@),
{
    assert(versions(rows1 + rows2) =~= versions(body1@) + versions(body2@));
}

/// A body that does not decode as release records is a protocol error,
/// never an empty page.
pub proof fn lemma_malformed_body_is_protocol_error(
    outcome: FetchOutcome,
    r: Result<ReleasesResponse, HerokuruError>,
)
    requires
        outcome matches FetchOutcome::Received { body: None, .. },
        completed(outcome, r),
    ensures
        r is Err,
        r->Err_0.spec_kind() == ErrorKind::Protocol,
{
}

} // verus!
