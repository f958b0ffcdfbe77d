//! Daily verse widget: which BibleGateway versions to try, the request
//! address, how a reply is judged, and how the verse is cleaned up for
//! display.

use vstd::prelude::*;
use vstd::string::*;
use crate::config::DailyVerseConfig;
use crate::text::{concat3, owned};
use crate::widget::{Widget, DAILY_VERSE_WIDGET_ID};

verus! {

/// Base address of the BibleGateway verse-of-the-day service.
pub const BIBLEGATEWAY_VOTD_URL: &'static str = "https://www.biblegateway.com/votd/get/";

/// Seconds to wait before trying again when every version failed.
pub const RETRY_SECS: u64 = 3600;

/// What `htmlize::unescape` makes of a string: every valid HTML entity
/// expanded.
pub uninterp spec fn html_unescaped(s: Seq<char>) -> Seq<char>;

/// Expands the HTML entities of `s` with `htmlize::unescape` (general text
/// context).  The result is named by `html_unescaped`; the crate's source
/// returns its input untouched when it holds no `&`, which is stated too.
#[verifier::external_body]
fn decode_html(s: &str) -> (r: String)
    ensures
        r@ == html_unescaped(s@),
        !s@.contains('&') ==> r@ == s@,
{
    htmlize::unescape(s).into_owned()
}

/// The verse of the day as the service returns it.
#[derive(Debug, Clone)]
pub struct VotdData {
    pub text: String,
    pub display_ref: String,
    pub version: String,
}

/// An error reported by the service.
#[derive(Debug, Clone)]
pub struct VotdError {
    pub code: String,
    pub message: String,
}

/// The service's reply body: a verse or an error.
#[derive(Debug, Clone)]
pub enum VotdResponse {
    Success { votd: VotdData },
    Error { error: VotdError },
}

/// Why fetching a verse failed.
#[derive(Debug, Clone)]
pub enum FetchFailure {
    /// The HTTP status was not a success.
    Status,
    /// The body was not a reply of the expected shape.
    Json,
    /// The service answered with an error.
    Api { code: String, message: String },
}

/// Judge a reply: a non-success status fails first; then the parsed body
/// (`None` when it did not parse) gives the verse or the service's error.
pub fn votd_from_reply(status_ok: bool, parsed: Option<VotdResponse>) -> (r: Result<
    VotdData,
    FetchFailure,
>)
    ensures
        !status_ok ==> r == Err::<VotdData, FetchFailure>(FetchFailure::Status),
        status_ok ==> r == match parsed {
            None => Err::<VotdData, FetchFailure>(FetchFailure::Json),
            Some(VotdResponse::Success { votd }) => Ok(votd),
            Some(VotdResponse::Error { error }) => Err(
                FetchFailure::Api { code: error.code, message: error.message },
            ),
        },
{
    if !status_ok {
        return Err(FetchFailure::Status);
    }
    match parsed {
        None => Err(FetchFailure::Json),
        Some(VotdResponse::Success { votd }) => Ok(votd),
        Some(VotdResponse::Error { error }) => Err(
            FetchFailure::Api { code: error.code, message: error.message },
        ),
    }
}

impl VotdData {
    /// The verse with HTML entities decoded in each field, as displayed.
    pub fn decoded(&self) -> (d: VotdData)
        ensures
            d.text@ == html_unescaped(self.text@),
            d.display_ref@ == html_unescaped(self.display_ref@),
            d.version@ == html_unescaped(self.version@),
            !self.text@.contains('&') ==> d.text@ == self.text@,
            !self.display_ref@.contains('&') ==> d.display_ref@ == self.display_ref@,
            !self.version@.contains('&') ==> d.version@ == self.version@,
    {
        VotdData {
            text: decode_html(self.text.as_str()),
            display_ref: decode_html(self.display_ref.as_str()),
            version: decode_html(self.version.as_str()),
        }
    }
}

/// What to do next while looking for the verse of the day.
#[derive(Debug)]
pub enum SearchStep {
    /// Fetch the verse in this version and report the outcome.
    Fetch(String),
    /// A version returned this verse; stop.
    Found(VotdData),
    /// Every version failed.
    Exhausted,
}

/// Tries the versions in order until one returns a verse.
pub struct VerseSearch {
    versions: Vec<String>,
    tried: usize,
}

impl VerseSearch {
    /// Never more versions handed out than there are.
    #[verifier::type_invariant]
    spec fn inv(self) -> bool {
        self.tried <= self.versions@.len()
    }

    /// The versions to try, in order.
    pub closed spec fn versions(self) -> Seq<Seq<char>> {
        self.versions.deep_view()
    }

    /// How many versions have been handed out for fetching.
    pub closed spec fn tried(self) -> int {
        self.tried as int
    }

    /// A search over `versions`, none tried yet.
    pub fn new(versions: Vec<String>) -> (s: VerseSearch)
        ensures
            s.versions() == versions.deep_view(),
            s.tried() == 0,
    {
        VerseSearch { versions, tried: 0 }
    }

    /// Given the outcome of the last fetch (`None` at the start or when the
    /// last fetch failed), decide the next step: stop with a verse, fetch
    /// the next version, or give up when all were tried.
    pub fn step(&mut self, last: Option<VotdData>) -> (r: SearchStep)
        ensures
            final(self).versions() == old(self).versions(),
            final(self).tried() <= final(self).versions().len(),
            match last {
                Some(v) => r == SearchStep::Found(v) && final(self).tried() == old(self).tried(),
                None => if old(self).tried() < old(self).versions().len() {
                    &&& r matches SearchStep::Fetch(name) && name@ == old(self).versions()[old(
                        self,
                    ).tried()]
                    &&& final(self).tried() == old(self).tried() + 1
                } else {
                    r is Exhausted && final(self).tried() == old(self).tried()
                },
            },
    {
        proof {
            use_type_invariant(&*self);
        }
        match last {
            Some(v) => SearchStep::Found(v),
            None => {
                if self.tried < self.versions.len() {
                    let name = self.versions[self.tried].clone();
                    proof {
                        assert(self.versions.deep_view()[self.tried as int] == self.versions@[self.tried as int]@);
                    }
                    self.tried = self.tried + 1;
                    SearchStep::Fetch(name)
                } else {
                    SearchStep::Exhausted
                }
            },
        }
    }
}

/// The versions tried when none are configured.
pub open spec fn default_versions() -> Seq<Seq<char>> {
    seq!["NGU-DE"@, "SCH2000"@]
}

/// The versions to try, in order: the configured list when it is present
/// and not empty, the defaults otherwise.
pub fn effective_versions(versions: Option<Vec<String>>) -> (r: Vec<String>)
    ensures
        match versions {
            Some(v) => if v@.len() > 0 {
                r@ == v@
            } else {
                r.deep_view() == default_versions()
            },
            None => r.deep_view() == default_versions(),
        },
{
    match versions {
        Some(v) => {
            if v.len() > 0 {
                return v;
            }
        },
        None => {},
    }
    let r: Vec<String> = vec![owned("NGU-DE"), owned("SCH2000")];
    assert(r.deep_view() =~= default_versions());
    r
}

/// Address of the verse-of-the-day request for `version`.
pub fn votd_url(version: &str) -> (url: String)
    ensures
        url@ == "https://www.biblegateway.com/votd/get/"@ + "?format=json&version="@ + version@,
{
    concat3(BIBLEGATEWAY_VOTD_URL, "?format=json&version=", version)
}

/// The first 128 characters of a reply body, quoted in error messages.
pub fn body_preview(body: &str) -> (p: String)
    ensures
        p@ == body@.take(if body@.len() < 128 { body@.len() as int } else { 128 }),
{
    let n = body.unicode_len();
    let k: usize = if n < 128 {
        n
    } else {
        128
    };
    let p = body.substring_char(0, k);
    owned(p)
}

/// Seconds to sleep until the next fetch, given the signed number of
/// seconds until local midnight: that value read as unsigned, but at least
/// 60.
pub fn midnight_sleep_secs(delta_secs: i64) -> (s: u64)
    ensures
        s == if (delta_secs as u64) < 60 { 60 } else { delta_secs as u64 },
{
    let d = delta_secs as u64;
    if d < 60 {
        60
    } else {
        d
    }
}

/// Fetches the BibleGateway verse of the day once a day.
pub struct DailyVerseWidget {
    config: Option<DailyVerseConfig>,
}

impl DailyVerseWidget {
    /// The configuration not yet handed to the background fetcher.
    pub closed spec fn pending_config(self) -> Option<DailyVerseConfig> {
        self.config
    }

    /// A widget holding its configuration until it is started.
    pub fn new(config: DailyVerseConfig) -> (w: DailyVerseWidget)
        ensures
            w.pending_config() == Some(config),
    {
        DailyVerseWidget { config: Some(config) }
    }

    /// Hand the configuration over to the background fetcher; a second call
    /// gets `None`.
    pub fn take_config(&mut self) -> (c: Option<DailyVerseConfig>)
        ensures
            c == old(self).pending_config(),
            final(self).pending_config() is None,
    {
        self.config.take()
    }
}

impl Widget for DailyVerseWidget {
    fn id(&self) -> (r: i32)
        ensures
            r == DAILY_VERSE_WIDGET_ID,
    {
        DAILY_VERSE_WIDGET_ID
    }
}

} // verus!
