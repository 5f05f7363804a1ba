//! Where documents and external scripts come from.
//!
//! Reading files and talking to servers is the host's part. What to read, what
//! a reply means and when a redirect may be followed is decided here.

use vstd::prelude::*;

use crate::browser::error::{joined, BrowserError, ErrorCode, ErrorView};
use crate::browser::events::{NetworkView, RuntimeNetworkEvent};
use crate::browser::ids::RequestId;
use crate::text::{decimal, same_text};
use crate::weburl::{join_url, parse_url, utf8_lossy, utf8_text, UrlParts, UrlView};

verus! {

/// A step of a network exchange.
pub enum NetworkEvent {
    RequestStart { url: String, method: String },
    Redirect { from: String, to: String, status: u16 },
    Response { url: String, status: u16 },
}

/// A [`NetworkEvent`] as a value.
pub enum ExchangeView {
    RequestStart { url: Seq<char>, method: Seq<char> },
    Redirect { from: Seq<char>, to: Seq<char>, status: u16 },
    Response { url: Seq<char>, status: u16 },
}

impl View for NetworkEvent {
    type V = ExchangeView;

    open spec fn view(&self) -> ExchangeView {
        match self {
            NetworkEvent::RequestStart { url, method } => ExchangeView::RequestStart {
                url: url@,
                method: method@,
            },
            NetworkEvent::Redirect { from, to, status } => ExchangeView::Redirect {
                from: from@,
                to: to@,
                status: *status,
            },
            NetworkEvent::Response { url, status } => ExchangeView::Response {
                url: url@,
                status: *status,
            },
        }
    }
}

impl ExchangeView {
    /// Network events as values.
    pub open spec fn all(s: Seq<NetworkEvent>) -> Seq<ExchangeView> {
        Seq::new(s.len(), |i: int| s[i]@)
    }
}

/// A document as it arrived.
pub struct LoadedSource {
    pub final_url: String,
    pub html: String,
    pub headers: Vec<(String, String)>,
}

/// A [`LoadedSource`] as a value.
#[verifier::ext_equal]
pub struct LoadedView {
    pub final_url: Seq<char>,
    pub html: Seq<char>,
    pub headers: Seq<(Seq<char>, Seq<char>)>,
}

impl LoadedView {
    /// Header fields as values.
    pub open spec fn fields(s: Seq<(String, String)>) -> Seq<(Seq<char>, Seq<char>)> {
        Seq::new(s.len(), |i: int| (s[i].0@, s[i].1@))
    }

    /// A document without header fields.
    pub open spec fn bare(final_url: Seq<char>, html: Seq<char>) -> LoadedView {
        LoadedView { final_url, html, headers: Seq::empty() }
    }
}

impl View for LoadedSource {
    type V = LoadedView;

    open spec fn view(&self) -> LoadedView {
        LoadedView {
            final_url: self.final_url@,
            html: self.html@,
            headers: LoadedView::fields(self.headers@),
        }
    }
}

impl LoadedSource {
    /// A document without header fields.
    pub fn bare(final_url: String, html: String) -> (r: LoadedSource)
        ensures
            r@ == LoadedView::bare(final_url@, html@),
    {
        let r = LoadedSource { final_url, html, headers: Vec::new() };
        assert(r@ =~= LoadedView::bare(final_url@, html@));
        r
    }
}

/// How a document is to be had.
pub enum SourcePlan {
    /// It is at hand.
    Ready(LoadedSource),
    /// It is written in the URL itself, as `written` has it.
    Data { written: String, final_url: String },
    /// It is in a local file.
    File { final_url: String },
    /// A server has it.
    Http { url: String },
}

/// A [`SourcePlan`] as a value.
pub enum PlanView {
    Ready(LoadedView),
    Data { written: Seq<char>, final_url: Seq<char> },
    File { final_url: Seq<char> },
    Http { url: Seq<char> },
}

impl View for SourcePlan {
    type V = PlanView;

    open spec fn view(&self) -> PlanView {
        match self {
            SourcePlan::Ready(source) => PlanView::Ready(source@),
            SourcePlan::Data { written, final_url } => PlanView::Data {
                written: written@,
                final_url: final_url@,
            },
            SourcePlan::File { final_url } => PlanView::File { final_url: final_url@ },
            SourcePlan::Http { url } => PlanView::Http { url: url@ },
        }
    }
}

/// How the document at the URL `written` is to be had, by what it parses to.
pub open spec fn source_plan(
    written: Seq<char>,
    parsed: Result<UrlView, Seq<char>>,
) -> Result<PlanView, ErrorView> {
    match parsed {
        Err(e) => Err(
            ErrorView::new(ErrorCode::InvalidArgument, "invalid navigation URL: "@ + e),
        ),
        Ok(url) => if url.scheme == "about"@ && url.path == "blank"@ {
            Ok(PlanView::Ready(LoadedView::bare(url.text, "<!doctype html><title></title>"@)))
        } else if url.scheme == "about"@ && url.path == "vixen"@ {
            Ok(
                PlanView::Ready(
                    LoadedView::bare(
                        url.text,
                        "<!doctype html><title>Vixen</title><h1>Vixen</h1>"@,
                    ),
                ),
            )
        } else if url.scheme == "data"@ {
            Ok(PlanView::Data { written, final_url: url.text })
        } else if url.scheme == "file"@ {
            Ok(PlanView::File { final_url: url.text })
        } else if url.scheme == "http"@ || url.scheme == "https"@ {
            Ok(PlanView::Http { url: url.text })
        } else {
            Err(
                ErrorView::new(
                    ErrorCode::InvalidArgument,
                    "unsupported navigation URL scheme: "@ + url.scheme,
                ),
            )
        },
    }
}

/// Decides how the document at the URL `written` is to be had, by what it parses
/// to.
pub fn plan_parsed_source(written: String, parsed: Result<UrlParts, String>) -> (r: Result<
    SourcePlan,
    BrowserError,
>)
    ensures
        match source_plan(written@, UrlView::outcome(parsed)) {
            Ok(plan) => r is Ok && r->Ok_0@ == plan,
            Err(e) => r is Err && r->Err_0@ == e,
        },
{
    let url = match parsed {
        Ok(url) => url,
        Err(e) => return Err(
            BrowserError::with_message(
                ErrorCode::InvalidArgument,
                joined("invalid navigation URL: ", e.as_str()),
            ),
        ),
    };
    let about = same_text(url.scheme.as_str(), "about");
    if about && same_text(url.path.as_str(), "blank") {
        Ok(
            SourcePlan::Ready(
                LoadedSource::bare(url.text, "<!doctype html><title></title>".to_owned()),
            ),
        )
    } else if about && same_text(url.path.as_str(), "vixen") {
        Ok(
            SourcePlan::Ready(
                LoadedSource::bare(
                    url.text,
                    "<!doctype html><title>Vixen</title><h1>Vixen</h1>".to_owned(),
                ),
            ),
        )
    } else if same_text(url.scheme.as_str(), "data") {
        Ok(SourcePlan::Data { written, final_url: url.text })
    } else if same_text(url.scheme.as_str(), "file") {
        Ok(SourcePlan::File { final_url: url.text })
    } else if same_text(url.scheme.as_str(), "http") || same_text(url.scheme.as_str(), "https") {
        Ok(SourcePlan::Http { url: url.text })
    } else {
        Err(
            BrowserError::with_message(
                ErrorCode::InvalidArgument,
                joined("unsupported navigation URL scheme: ", url.scheme.as_str()),
            ),
        )
    }
}

/// Decides how the document at `url` is to be had. A document that comes with
/// the navigation is taken as it is.
pub fn load_source(url: String, injected_html: Option<String>) -> (r: Result<
    SourcePlan,
    BrowserError,
>)
    ensures
        match injected_html {
            Some(html) => r is Ok && r->Ok_0@ == PlanView::Ready(LoadedView::bare(url@, html@)),
            None => match source_plan(url@, crate::weburl::parsed_url(url@)) {
                Ok(plan) => r is Ok && r->Ok_0@ == plan,
                Err(e) => r is Err && r->Err_0@ == e,
            },
        },
{
    match injected_html {
        Some(html) => Ok(SourcePlan::Ready(LoadedSource::bare(url, html))),
        None => {
            let parsed = parse_url(url.as_str());
            plan_parsed_source(url, parsed)
        },
    }
}

/// The document that a data URL holds: its bytes as text, and its media type
/// as a header field.
pub fn data_source(final_url: String, data: Result<(Vec<u8>, String), String>) -> (r: Result<
    LoadedSource,
    BrowserError,
>)
    ensures
        match data {
            Ok((bytes, essence)) => r is Ok && r->Ok_0@ == (LoadedView {
                final_url: final_url@,
                html: crate::weburl::lossy_text(bytes@),
                headers: seq![("content-type"@, essence@)],
            }),
            Err(e) => r is Err && r->Err_0@ == ErrorView::new(ErrorCode::NavigationLoad, e@),
        },
{
    match data {
        Ok((bytes, essence)) => {
            let mut headers: Vec<(String, String)> = Vec::new();
            let name = "content-type".to_owned();
            headers.push((name, essence));
            let r = LoadedSource { final_url, html: utf8_lossy(bytes.as_slice()), headers };
            assert(r@.headers =~= seq![("content-type"@, essence@)]);
            Ok(r)
        },
        Err(e) => Err(BrowserError::with_message(ErrorCode::NavigationLoad, e)),
    }
}

/// Why a file was not read.
pub enum BoundedFileReadError {
    Inspect(String),
    TooLarge,
    Open(String),
    Read(String),
}

/// Whether a file of `length` bytes may be read, and how much room it needs.
pub fn admit_file_length(length: u64, max_body_bytes: u64) -> (r: Result<
    usize,
    BoundedFileReadError,
>)
    ensures
        length > max_body_bytes ==> r == Err::<usize, BoundedFileReadError>(
            BoundedFileReadError::TooLarge,
        ),
        length <= max_body_bytes ==> r == Ok::<usize, BoundedFileReadError>(
            if length <= usize::MAX {
                length as usize
            } else {
                0
            },
        ),
{
    if length > max_body_bytes {
        return Err(BoundedFileReadError::TooLarge);
    }
    if length <= usize::MAX as u64 {
        Ok(length as usize)
    } else {
        Ok(0)
    }
}

/// How many bytes to ask of a file: one more than it may have, so that a file
/// that grew shows.
pub fn file_read_limit(max_body_bytes: u64) -> (r: u64)
    ensures
        r == if max_body_bytes == u64::MAX {
            max_body_bytes as int
        } else {
            max_body_bytes + 1
        },
{
    max_body_bytes.saturating_add(1)
}

/// Refuses what was read of a file if it is more than allowed.
pub fn admit_file_bytes(bytes: Vec<u8>, max_body_bytes: u64) -> (r: Result<
    Vec<u8>,
    BoundedFileReadError,
>)
    ensures
        r == if bytes@.len() > max_body_bytes {
            Err::<Vec<u8>, BoundedFileReadError>(BoundedFileReadError::TooLarge)
        } else {
            Ok::<Vec<u8>, BoundedFileReadError>(bytes)
        },
{
    if bytes.len() as u64 > max_body_bytes {
        return Err(BoundedFileReadError::TooLarge);
    }
    Ok(bytes)
}

/// Three texts in a row.
fn joined3(a: &str, b: &str, c: &str) -> (r: String)
    ensures
        r@ == a@ + b@ + c@,
{
    let mut r = joined(a, b);
    r.append(c);
    r
}

/// Four texts in a row.
fn joined4(a: &str, b: &str, c: &str, d: &str) -> (r: String)
    ensures
        r@ == a@ + b@ + c@ + d@,
{
    let mut r = joined3(a, b, c);
    r.append(d);
    r
}

/// What is said of a document file that was not read.
pub open spec fn file_read_message(
    failure: BoundedFileReadError,
    path: Seq<char>,
    max_body_bytes: u64,
) -> Seq<char> {
    match failure {
        BoundedFileReadError::TooLarge => "navigation file body exceeds "@
            + crate::text::decimal_text(max_body_bytes as nat) + " bytes at "@ + path,
        BoundedFileReadError::Inspect(e) => "failed to read "@ + path + ": "@ + e@,
        BoundedFileReadError::Open(e) => "failed to read "@ + path + ": "@ + e@,
        BoundedFileReadError::Read(e) => "failed to read "@ + path + ": "@ + e@,
    }
}

/// The document that a file holds. It has to be valid UTF-8.
pub fn file_source(
    final_url: String,
    path: &str,
    read: Result<Vec<u8>, BoundedFileReadError>,
    max_body_bytes: u64,
) -> (r: Result<LoadedSource, BrowserError>)
    ensures
        match read {
            Err(failure) => r is Err && r->Err_0@ == ErrorView::new(
                ErrorCode::NavigationLoad,
                file_read_message(failure, path@, max_body_bytes),
            ),
            Ok(bytes) => if vstd::utf8::valid_utf8(bytes@) {
                &&& r is Ok
                &&& vstd::utf8::encode_utf8(r->Ok_0@.html) == bytes@
                &&& r->Ok_0@ == LoadedView::bare(final_url@, r->Ok_0@.html)
            } else {
                &&& r is Err
                &&& r->Err_0@ == ErrorView::new(
                    ErrorCode::NavigationLoad,
                    "failed to read "@ + path@ + ": stream did not contain valid UTF-8"@,
                )
            },
        },
{
    match read {
        Err(failure) => {
            let message = match failure {
                BoundedFileReadError::TooLarge => joined4(
                    "navigation file body exceeds ",
                    decimal(max_body_bytes).as_str(),
                    " bytes at ",
                    path,
                ),
                BoundedFileReadError::Inspect(e) => joined4(
                    "failed to read ",
                    path,
                    ": ",
                    e.as_str(),
                ),
                BoundedFileReadError::Open(e) => joined4("failed to read ", path, ": ", e.as_str()),
                BoundedFileReadError::Read(e) => joined4("failed to read ", path, ": ", e.as_str()),
            };
            Err(BrowserError::with_message(ErrorCode::NavigationLoad, message))
        },
        Ok(bytes) => match utf8_text(bytes) {
            Some(html) => Ok(LoadedSource::bare(final_url, html)),
            None => Err(
                BrowserError::with_message(
                    ErrorCode::NavigationLoad,
                    joined3("failed to read ", path, ": stream did not contain valid UTF-8"),
                ),
            ),
        },
    }
}

/// The error for a file URL that names no local file.
pub fn file_path_missing() -> (r: BrowserError)
    ensures
        r@ == ErrorView::new(ErrorCode::InvalidArgument, "file URL has no local path"@),
{
    BrowserError::invalid("file URL has no local path")
}

/// The document that a server sent.
pub fn http_source(response: Result<LoadedSource, String>) -> (r: Result<
    LoadedSource,
    BrowserError,
>)
    ensures
        match response {
            Ok(source) => r == Ok::<LoadedSource, BrowserError>(source),
            Err(e) => r is Err && r->Err_0@ == ErrorView::new(
                ErrorCode::NavigationLoad,
                "navigation fetch failed: "@ + e@,
            ),
        },
{
    match response {
        Ok(source) => Ok(source),
        Err(e) => Err(
            BrowserError::with_message(
                ErrorCode::NavigationLoad,
                joined("navigation fetch failed: ", e.as_str()),
            ),
        ),
    }
}

/// A status that asks for another request.
pub open spec fn followable(status: u16) -> bool {
    status == 301 || status == 302 || status == 303 || status == 307 || status == 308
}

/// Whether a reply with `status` asks for another request.
pub fn is_followable_redirect(status: u16) -> (r: bool)
    ensures
        r == followable(status),
{
    status == 301 || status == 302 || status == 303 || status == 307 || status == 308
}

/// Why an external script did not load.
pub struct ExternalScriptLoadFailure {
    pub error: BrowserError,
    pub url: String,
    pub events: Vec<NetworkEvent>,
    pub blocked_reason: String,
}

/// An [`ExternalScriptLoadFailure`] as a value.
#[verifier::ext_equal]
pub struct FailureView {
    pub error: ErrorView,
    pub url: Seq<char>,
    pub events: Seq<ExchangeView>,
    pub blocked_reason: Seq<char>,
}

impl View for ExternalScriptLoadFailure {
    type V = FailureView;

    open spec fn view(&self) -> FailureView {
        FailureView {
            error: self.error@,
            url: self.url@,
            events: ExchangeView::all(self.events@),
            blocked_reason: self.blocked_reason@,
        }
    }
}

impl FailureView {
    /// A load that failed with `message`.
    pub open spec fn load(
        message: Seq<char>,
        url: Seq<char>,
        events: Seq<ExchangeView>,
    ) -> FailureView {
        FailureView {
            error: ErrorView::new(ErrorCode::NavigationLoad, message),
            url,
            events,
            blocked_reason: "load"@,
        }
    }

    /// A load that a policy stopped.
    pub open spec fn blocked(
        reason: Seq<char>,
        url: Seq<char>,
        events: Seq<ExchangeView>,
    ) -> FailureView {
        FailureView {
            error: ErrorView::new(
                ErrorCode::NavigationLoad,
                "external script blocked by "@ + reason + ": "@ + url,
            ),
            url,
            events,
            blocked_reason: reason,
        }
    }
}

/// A load that failed with `message`.
fn load_failure(message: String, url: String, events: Vec<NetworkEvent>) -> (r:
    ExternalScriptLoadFailure)
    ensures
        r@ == FailureView::load(message@, url@, ExchangeView::all(events@)),
{
    ExternalScriptLoadFailure {
        error: BrowserError::with_message(ErrorCode::NavigationLoad, message),
        url,
        events,
        blocked_reason: "load".to_owned(),
    }
}

/// A load that a policy stopped.
fn blocked_failure(reason: String, url: String, events: Vec<NetworkEvent>) -> (r:
    ExternalScriptLoadFailure)
    ensures
        r@ == FailureView::blocked(reason@, url@, ExchangeView::all(events@)),
{
    ExternalScriptLoadFailure {
        error: BrowserError::with_message(
            ErrorCode::NavigationLoad,
            joined4("external script blocked by ", reason.as_str(), ": ", url.as_str()),
        ),
        url,
        events,
        blocked_reason: reason,
    }
}

/// The reply of a server with an external script.
pub struct ScriptResponse {
    pub status: u16,
    pub final_url: String,
    pub body: String,
    pub events: Vec<NetworkEvent>,
    pub redirects: u32,
}

/// An external script that loaded.
pub enum LoadedExternalScript {
    File { final_url: String, source: String },
    Http { response: ScriptResponse, requested_urls: Vec<String> },
}

/// One reply on the way to an external script.
pub struct HopResponse {
    pub status: u16,
    pub final_url: String,
    pub body: String,
    pub events: Vec<NetworkEvent>,
    /// The `location` header field, if there is one.
    pub location: Option<String>,
}

/// The load of an external script from a server, between two requests.
pub struct ScriptFetch {
    pub current: String,
    pub redirects: u32,
    pub max_redirects: usize,
    pub visited: Vec<String>,
    pub events: Vec<NetworkEvent>,
    pub requested_urls: Vec<String>,
}

/// A [`ScriptFetch`] as a value.
#[verifier::ext_equal]
pub struct FetchView {
    pub current: Seq<char>,
    pub redirects: int,
    pub max_redirects: int,
    pub visited: Seq<Seq<char>>,
    pub events: Seq<ExchangeView>,
    pub requested_urls: Seq<Seq<char>>,
}

impl FetchView {
    /// Texts as values.
    pub open spec fn texts(s: Seq<String>) -> Seq<Seq<char>> {
        Seq::new(s.len(), |i: int| s[i]@)
    }

    /// The load before its first request.
    pub open spec fn started(url: Seq<char>, max_redirects: usize) -> FetchView {
        FetchView {
            current: url,
            redirects: 0,
            max_redirects: max_redirects as int,
            visited: Seq::empty(),
            events: Seq::empty(),
            requested_urls: Seq::empty(),
        }
    }

    /// The load with the URL it is about to request marked as visited.
    pub open spec fn entered(self) -> FetchView {
        FetchView {
            visited: if self.visited.contains(self.current) {
                self.visited
            } else {
                self.visited.push(self.current)
            },
            ..self
        }
    }

    /// The load with its present URL noted as requested.
    pub open spec fn requested(self) -> FetchView {
        FetchView { requested_urls: self.requested_urls.push(self.current), ..self }
    }

    /// The events once the reply with `status` turned out to be a redirect: it
    /// takes the place of the plain response of the present URL.
    pub open spec fn redirect_events(self, next: Seq<char>, status: u16) -> Seq<ExchangeView> {
        let plain = ExchangeView::Response { url: self.current, status };
        let before = if self.events.len() > 0 && self.events.last() == plain {
            self.events.drop_last()
        } else {
            self.events
        };
        before.push(ExchangeView::Redirect { from: self.current, to: next, status })
    }

    /// What a redirect to `next` comes to, by what the host's policies say of it.
    pub open spec fn followed(
        self,
        next: Seq<char>,
        status: u16,
        policy: Result<(), Seq<char>>,
        blocked_reason: Option<Seq<char>>,
    ) -> Result<FetchView, FailureView> {
        match policy {
            Err(e) => Err(
                FailureView::load(
                    "external script fetch failed: URL rejected by policy: "@ + e,
                    next,
                    self.events,
                ),
            ),
            Ok(()) => {
                let events = self.redirect_events(next, status);
                match blocked_reason {
                    Some(reason) => Err(FailureView::blocked(reason, next, events)),
                    None => Ok(
                        FetchView { current: next, redirects: self.redirects + 1, events, ..self },
                    ),
                }
            },
        }
    }

    /// Where a redirect to a joined URL leads, or why it does not: the URL may
    /// be missing or visited before.
    pub open spec fn joined_target(self, joined: Option<Seq<char>>) -> Result<
        Seq<char>,
        FailureView,
    > {
        match joined {
            None => Err(
                FailureView::load(
                    "external script fetch failed: invalid redirect target from "@ + self.current,
                    self.current,
                    self.events,
                ),
            ),
            Some(next) => if self.visited.contains(next) {
                Err(
                    FailureView::load(
                        "external script fetch failed: redirect loop detected at "@ + next,
                        next,
                        self.events,
                    ),
                )
            } else {
                Ok(next)
            },
        }
    }

    /// Where a reply that asks for another request leads, or why it does not.
    pub open spec fn redirect_target(self, location: Option<Seq<char>>) -> Result<
        Seq<char>,
        FailureView,
    > {
        if self.redirects >= self.max_redirects {
            Err(
                FailureView::load(
                    "external script fetch failed: too many redirects (>"@
                        + crate::text::decimal_text(self.max_redirects as nat) + ") fetching "@
                        + self.current,
                    self.current,
                    self.events,
                ),
            )
        } else {
            self.joined_target(
                match location {
                    None => None,
                    Some(location) => crate::weburl::joined_url(self.current, location),
                },
            )
        }
    }

    /// The load of `first` has made a request and waits for its reply: it has
    /// requested the URL it was asked for and one more for each redirect, in
    /// order and none twice; those are the ones it visited, and the redirects
    /// are within the limit.
    pub open spec fn waits(self, first: Seq<char>) -> bool {
        &&& 0 <= self.redirects <= self.max_redirects
        &&& self.requested_urls == self.visited
        &&& self.requested_urls.len() == self.redirects + 1
        &&& self.requested_urls.no_duplicates()
        &&& self.requested_urls.first() == first
        &&& self.requested_urls.last() == self.current
    }
}

impl View for ScriptFetch {
    type V = FetchView;

    open spec fn view(&self) -> FetchView {
        FetchView {
            current: self.current@,
            redirects: self.redirects as int,
            max_redirects: self.max_redirects as int,
            visited: FetchView::texts(self.visited@),
            events: ExchangeView::all(self.events@),
            requested_urls: FetchView::texts(self.requested_urls@),
        }
    }
}

/// How an external script is to be had.
pub enum ScriptPlan {
    /// It is in a local file.
    File,
    /// A server has it.
    Http(ScriptFetch),
}

/// Whether `r` says how the external script at `url` is to be had: by the
/// scheme of the URL.
pub open spec fn is_script_plan(
    r: Result<ScriptPlan, ExternalScriptLoadFailure>,
    url: Seq<char>,
    scheme: Seq<char>,
    max_redirects: usize,
) -> bool {
    if scheme == "file"@ {
        r matches Ok(ScriptPlan::File)
    } else if scheme == "http"@ || scheme == "https"@ {
        r matches Ok(ScriptPlan::Http(fetch)) && fetch@ == FetchView::started(url, max_redirects)
    } else {
        r matches Err(failure) && failure@ == (FailureView {
            error: ErrorView::new(
                ErrorCode::InvalidArgument,
                "unsupported external script URL scheme: "@ + scheme,
            ),
            url,
            events: Seq::empty(),
            blocked_reason: "load"@,
        })
    }
}

/// Decides how the external script at `url` is to be had; `None` where `url`
/// is no URL.
pub fn plan_external_script(url: &str, max_redirects: usize) -> (r: Option<
    Result<ScriptPlan, ExternalScriptLoadFailure>,
>)
    ensures
        match crate::weburl::parsed_url(url@) {
            Err(_) => r is None,
            Ok(parts) => r matches Some(plan) && is_script_plan(
                plan,
                parts.text,
                parts.scheme,
                max_redirects,
            ),
        },
{
    match parse_url(url) {
        Ok(parts) => Some(load_external_script(parts.text, parts.scheme.as_str(), max_redirects)),
        Err(_) => None,
    }
}

/// Decides by the scheme of its URL how an external script is to be had.
pub fn load_external_script(url: String, scheme: &str, max_redirects: usize) -> (r: Result<
    ScriptPlan,
    ExternalScriptLoadFailure,
>)
    ensures
        is_script_plan(r, url@, scheme@, max_redirects),
{
    if same_text(scheme, "file") {
        Ok(ScriptPlan::File)
    } else if same_text(scheme, "http") || same_text(scheme, "https") {
        let fetch = ScriptFetch {
            current: url,
            redirects: 0,
            max_redirects,
            visited: Vec::new(),
            events: Vec::new(),
            requested_urls: Vec::new(),
        };
        assert(fetch@ =~= FetchView::started(url@, max_redirects));
        Ok(ScriptPlan::Http(fetch))
    } else {
        let failure = ExternalScriptLoadFailure {
            error: BrowserError::with_message(
                ErrorCode::InvalidArgument,
                joined("unsupported external script URL scheme: ", scheme),
            ),
            url,
            events: Vec::new(),
            blocked_reason: "load".to_owned(),
        };
        assert(failure@.events =~= Seq::<ExchangeView>::empty());
        Err(failure)
    }
}

/// The error for a script file that was not read.
pub open spec fn script_read_error(
    failure: BoundedFileReadError,
    path: Seq<char>,
    max_body_bytes: u64,
) -> Seq<char> {
    match failure {
        BoundedFileReadError::Inspect(e) => "failed to inspect external script "@ + path + ": "@
            + e@,
        BoundedFileReadError::TooLarge => "external script body exceeds "@
            + crate::text::decimal_text(max_body_bytes as nat) + " bytes at "@ + path,
        BoundedFileReadError::Open(e) => "failed to open external script "@ + path + ": "@ + e@,
        BoundedFileReadError::Read(e) => "failed to read external script "@ + path + ": "@ + e@,
    }
}

/// The external script that a file holds. Its URL may name no local file, and
/// then `path` is `None`.
pub fn script_file(
    url: String,
    path: Option<&str>,
    read: Result<Vec<u8>, BoundedFileReadError>,
    max_body_bytes: u64,
) -> (r: Result<LoadedExternalScript, ExternalScriptLoadFailure>)
    ensures
        match path {
            None => r matches Err(failure) && failure@ == (FailureView {
                error: ErrorView::new(
                    ErrorCode::InvalidArgument,
                    "external script file URL has no local path"@,
                ),
                url: url@,
                events: Seq::empty(),
                blocked_reason: "load"@,
            }),
            Some(path) => match read {
                Err(e) => r matches Err(failure) && failure@ == FailureView::load(
                    script_read_error(e, path@, max_body_bytes),
                    url@,
                    Seq::empty(),
                ),
                Ok(bytes) => r matches Ok(LoadedExternalScript::File { final_url, source })
                    && final_url == url && source@ == crate::weburl::lossy_text(bytes@),
            },
        },
{
    let path = match path {
        None => {
            let failure = ExternalScriptLoadFailure {
                error: BrowserError::invalid("external script file URL has no local path"),
                url,
                events: Vec::new(),
                blocked_reason: "load".to_owned(),
            };
            assert(failure@.events =~= Seq::<ExchangeView>::empty());
            return Err(failure);
        },
        Some(path) => path,
    };
    match read {
        Err(e) => {
            let message = match e {
                BoundedFileReadError::Inspect(e) => joined4(
                    "failed to inspect external script ",
                    path,
                    ": ",
                    e.as_str(),
                ),
                BoundedFileReadError::TooLarge => joined4(
                    "external script body exceeds ",
                    decimal(max_body_bytes).as_str(),
                    " bytes at ",
                    path,
                ),
                BoundedFileReadError::Open(e) => joined4(
                    "failed to open external script ",
                    path,
                    ": ",
                    e.as_str(),
                ),
                BoundedFileReadError::Read(e) => joined4(
                    "failed to read external script ",
                    path,
                    ": ",
                    e.as_str(),
                ),
            };
            let failure = load_failure(message, url, Vec::new());
            assert(failure@.events =~= Seq::<ExchangeView>::empty());
            Err(failure)
        },
        Ok(bytes) => Ok(
            LoadedExternalScript::File { final_url: url, source: utf8_lossy(bytes.as_slice()) },
        ),
    }
}

/// What a reply on the way to an external script comes to.
pub enum HopStep {
    /// The script is here.
    Loaded(LoadedExternalScript),
    /// Another request is due, if the host's policies allow it.
    Redirect { fetch: ScriptFetch, next: String, status: u16 },
}

/// Whether `texts` holds `text`.
fn holds(texts: &Vec<String>, text: &str) -> (r: bool)
    ensures
        r == FetchView::texts(texts@).contains(text@),
{
    let mut i: usize = 0;
    while i < texts.len()
        invariant
            i <= texts@.len(),
            forall|k: int| 0 <= k < i ==> (#[trigger] texts@[k])@ != text@,
        decreases texts@.len() - i,
    {
        if same_text(texts[i].as_str(), text) {
            assert(FetchView::texts(texts@)[i as int] == text@);
            return true;
        }
        i += 1;
    }
    assert forall|k: int| 0 <= k < texts@.len() implies FetchView::texts(texts@)[k] != text@ by {
        assert(texts@[k]@ != text@);
    }
    false
}

impl ScriptFetch {
    /// Enters a request: a policy of the host may stop it, and otherwise its
    /// URL is marked as visited.
    pub fn enter(self, blocked_reason: Option<String>) -> (r: Result<
        ScriptFetch,
        ExternalScriptLoadFailure,
    >)
        ensures
            match blocked_reason {
                Some(reason) => r is Err && r->Err_0@ == FailureView::blocked(
                    reason@,
                    self@.current,
                    self@.events,
                ),
                None => r is Ok && r->Ok_0@ == self@.entered(),
            },
    {
        match blocked_reason {
            Some(reason) => Err(blocked_failure(reason, self.current, self.events)),
            None => {
                let mut fetch = self;
                let ghost before = fetch@;
                if !holds(&fetch.visited, fetch.current.as_str()) {
                    fetch.visited.push(fetch.current.clone());
                }
                assert(fetch@ =~= before.entered());
                Ok(fetch)
            },
        }
    }

    /// Notes that the profile's cookies were merged for the request, or fails
    /// with the reason why they were not.
    pub fn cookies_merged(self, merged: Result<(), BrowserError>) -> (r: Result<
        ScriptFetch,
        ExternalScriptLoadFailure,
    >)
        ensures
            match merged {
                Err(error) => r is Err && r->Err_0@ == (FailureView {
                    error: error@,
                    url: self@.current,
                    events: self@.events,
                    blocked_reason: "load"@,
                }),
                Ok(()) => r is Ok && r->Ok_0@ == self@.requested(),
            },
    {
        match merged {
            Err(error) => Err(
                ExternalScriptLoadFailure {
                    error,
                    url: self.current,
                    events: self.events,
                    blocked_reason: "load".to_owned(),
                },
            ),
            Ok(()) => {
                let mut fetch = self;
                let ghost before = fetch@;
                fetch.requested_urls.push(fetch.current.clone());
                assert(fetch@ =~= before.requested());
                Ok(fetch)
            },
        }
    }

    /// Takes a request that got no reply. What was seen of the exchange is kept.
    pub fn failed(self, error: &str, hop_events: Vec<NetworkEvent>) -> (r:
        ExternalScriptLoadFailure)
        ensures
            r@ == FailureView::load(
                "external script fetch failed: "@ + error@,
                self@.current,
                self@.events + ExchangeView::all(hop_events@),
            ),
    {
        let ghost before = self@;
        let ghost added = ExchangeView::all(hop_events@);
        let mut hop_events = hop_events;
        let mut events = self.events;
        events.append(&mut hop_events);
        assert(ExchangeView::all(events@) =~= before.events + added);
        load_failure(joined("external script fetch failed: ", error), self.current, events)
    }

    /// Takes a reply. A reply that asks for no other request brings the script;
    /// one that does leads on, unless the limit is reached, there is nowhere to
    /// go, or the way leads back.
    pub fn received(self, response: HopResponse) -> (r: Result<HopStep, ExternalScriptLoadFailure>)
        ensures
            ({
                let seen = FetchView {
                    events: self@.events + ExchangeView::all(response.events@),
                    ..self@
                };
                if !followable(response.status) {
                    r matches Ok(HopStep::Loaded(LoadedExternalScript::Http {
                        response: script,
                        requested_urls,
                    })) && script.status == response.status && script.final_url
                        == response.final_url && script.body == response.body
                        && ExchangeView::all(script.events@) == seen.events && script.redirects
                        == self.redirects && FetchView::texts(requested_urls@)
                        == self@.requested_urls
                } else {
                    match seen.redirect_target(UrlView::optional(response.location)) {
                        Err(failure) => r is Err && r->Err_0@ == failure,
                        Ok(target) => r matches Ok(HopStep::Redirect { fetch, next, status })
                            && fetch@ == seen && next@ == target && status == response.status,
                    }
                }
            }),
    {
        let ghost before = self@;
        let ghost added = ExchangeView::all(response.events@);
        let mut fetch = self;
        let mut arrived = response.events;
        fetch.events.append(&mut arrived);
        let ghost seen = FetchView { events: before.events + added, ..before };
        assert(ExchangeView::all(fetch.events@) =~= seen.events);
        assert(fetch@ =~= seen);
        if !is_followable_redirect(response.status) {
            return Ok(
                HopStep::Loaded(
                    LoadedExternalScript::Http {
                        response: ScriptResponse {
                            status: response.status,
                            final_url: response.final_url,
                            body: response.body,
                            events: fetch.events,
                            redirects: fetch.redirects,
                        },
                        requested_urls: fetch.requested_urls,
                    },
                ),
            );
        }
        if fetch.redirects as u64 >= fetch.max_redirects as u64 {
            let message = joined4(
                "external script fetch failed: too many redirects (>",
                decimal(fetch.max_redirects as u64).as_str(),
                ") fetching ",
                fetch.current.as_str(),
            );
            return Err(load_failure(message, fetch.current, fetch.events));
        }
        let next = match response.location {
            None => None,
            Some(location) => join_url(fetch.current.as_str(), location.as_str()),
        };
        fetch.redirected(next, response.status)
    }

    /// Takes the URL that a redirect leads to. There may be none, and it may
    /// have been visited before.
    pub fn redirected(self, next: Option<String>, status: u16) -> (r: Result<
        HopStep,
        ExternalScriptLoadFailure,
    >)
        ensures
            match self@.joined_target(UrlView::optional(next)) {
                Err(failure) => r is Err && r->Err_0@ == failure,
                Ok(target) => r matches Ok(HopStep::Redirect { fetch, next, status: code })
                    && fetch == self && next@ == target && code == status,
            },
    {
        match next {
            None => {
                let message = joined(
                    "external script fetch failed: invalid redirect target from ",
                    self.current.as_str(),
                );
                Err(load_failure(message, self.current, self.events))
            },
            Some(next) => {
                if holds(&self.visited, next.as_str()) {
                    let message = joined(
                        "external script fetch failed: redirect loop detected at ",
                        next.as_str(),
                    );
                    return Err(load_failure(message, next, self.events));
                }
                Ok(HopStep::Redirect { fetch: self, next, status })
            },
        }
    }

    /// Follows a redirect, unless a policy of the host stands against it.
    pub fn follow(
        self,
        next: String,
        status: u16,
        policy: Result<(), String>,
        blocked_reason: Option<String>,
    ) -> (r: Result<ScriptFetch, ExternalScriptLoadFailure>)
        requires
            self.redirects < u32::MAX,
        ensures
            match self@.followed(
                next@,
                status,
                match policy {
                    Ok(()) => Ok(()),
                    Err(e) => Err(e@),
                },
                UrlView::optional(blocked_reason),
            ) {
                Err(failure) => r is Err && r->Err_0@ == failure,
                Ok(after) => r is Ok && r->Ok_0@ == after,
            },
    {
        let ghost before = self@;
        match policy {
            Err(e) => {
                let message = joined(
                    "external script fetch failed: URL rejected by policy: ",
                    e.as_str(),
                );
                return Err(load_failure(message, next, self.events));
            },
            Ok(()) => {},
        }
        let mut fetch = self;
        let count: usize = fetch.events.len();
        let plain = count > 0 && is_response(
            &fetch.events[count - 1],
            fetch.current.as_str(),
            status,
        );
        if plain {
            let _ = fetch.events.pop();
        }
        fetch.events.push(
            NetworkEvent::Redirect { from: fetch.current.clone(), to: next.clone(), status },
        );
        assert(ExchangeView::all(fetch.events@) =~= before.redirect_events(next@, status));
        match blocked_reason {
            Some(reason) => Err(blocked_failure(reason, next, fetch.events)),
            None => {
                fetch.redirects = fetch.redirects + 1;
                fetch.current = next;
                Ok(fetch)
            },
        }
    }
}

/// Whether an event is the plain response of `url` with `status`.
fn is_response(event: &NetworkEvent, url: &str, status: u16) -> (r: bool)
    ensures
        r == (event@ == (ExchangeView::Response { url: url@, status })),
{
    match event {
        NetworkEvent::Response { url: seen, status: code } => *code == status && same_text(
            seen.as_str(),
            url,
        ),
        _ => false,
    }
}

/// A redirect that is followed leads to a URL that was not requested before,
/// and after the request for it the load waits again, whatever the host says:
/// no more redirects are followed than allowed and no URL is requested twice.
pub proof fn fetch_stays_within_limits(
    f: FetchView,
    first: Seq<char>,
    events: Seq<ExchangeView>,
    location: Option<Seq<char>>,
    status: u16,
    policy: Result<(), Seq<char>>,
    blocked_reason: Option<Seq<char>>,
)
    requires
        f.waits(first),
    ensures
        ({
            let seen = FetchView { events: f.events + events, ..f };
            seen.redirect_target(location) matches Ok(next) ==> {
                &&& !f.requested_urls.contains(next)
                &&& seen.followed(next, status, policy, blocked_reason) matches Ok(after) ==> {
                    let again = after.entered().requested();
                    &&& again.waits(first)
                    &&& again.requested_urls == f.requested_urls.push(next)
                }
            }
        }),
{
    let seen = FetchView { events: f.events + events, ..f };
    if let Ok(next) = seen.redirect_target(location) {
        if let Ok(after) = seen.followed(next, status, policy, blocked_reason) {
            let again = after.entered().requested();
            assert(after.visited == f.visited);
            assert(again.visited =~= f.visited.push(next));
            assert(again.requested_urls =~= f.requested_urls.push(next));
            assert forall|i: int, j: int|
                0 <= i < j < again.requested_urls.len() implies again.requested_urls[i]
                != again.requested_urls[j] by {
                if j == f.visited.len() {
                    assert(f.visited.contains(f.visited[i]));
                }
            }
        }
    }
}

/// The first request of a load is for the URL that was asked for, and the load
/// then waits for its reply.
pub proof fn fetch_starts_within_limits(url: Seq<char>, max_redirects: usize)
    ensures
        ({
            let f = FetchView::started(url, max_redirects).entered().requested();
            &&& f.waits(url)
            &&& f.requested_urls == seq![url]
        }),
{
    let s = FetchView::started(url, max_redirects);
    assert(!s.visited.contains(url));
    assert(s.entered().visited =~= seq![url]);
    assert(s.entered().requested().requested_urls =~= seq![url]);
}

/// What the frontend hears of one step of a script's exchange.
pub open spec fn heard(request_id: Seq<char>, event: ExchangeView) -> NetworkView {
    match event {
        ExchangeView::RequestStart { url, method } => NetworkView::Request {
            request_id,
            url,
            method,
        },
        ExchangeView::Redirect { from, to, status } => NetworkView::Redirect {
            request_id,
            from,
            to,
            status,
        },
        ExchangeView::Response { url, status } => NetworkView::Response { request_id, url, status },
    }
}

/// What the frontend hears of a script's exchange.
pub open spec fn all_heard(request_id: Seq<char>, events: Seq<ExchangeView>) -> Seq<NetworkView> {
    Seq::new(events.len(), |i: int| heard(request_id, events[i]))
}

/// What the frontend hears of the load of an external script.
pub open spec fn script_network(
    request_id: Seq<char>,
    request_url: Seq<char>,
    result: Result<LoadedExternalScript, ExternalScriptLoadFailure>,
) -> Seq<NetworkView> {
    let asked = NetworkView::Request { request_id, url: request_url, method: "GET"@ };
    match result {
        Ok(LoadedExternalScript::File { final_url, .. }) => seq![
            asked,
            NetworkView::Response { request_id, url: final_url@, status: 200 },
        ],
        Ok(LoadedExternalScript::Http { response, .. }) => all_heard(
            request_id,
            ExchangeView::all(response.events@),
        ),
        Err(failure) => {
            let seen = all_heard(request_id, failure@.events);
            let told = if seen.len() == 0 {
                seq![asked]
            } else {
                seen
            };
            told.push(
                NetworkView::Failure {
                    request_id,
                    url: failure@.url,
                    error_text: failure@.error.message,
                    blocked_reason: Some(failure@.blocked_reason),
                },
            )
        },
    }
}

/// What the frontend hears of a sequence of steps.
fn hear_all(request_id: &str, events: &Vec<NetworkEvent>) -> (r: Vec<RuntimeNetworkEvent>)
    ensures
        NetworkView::all(r@) == all_heard(request_id@, ExchangeView::all(events@)),
{
    let mut r: Vec<RuntimeNetworkEvent> = Vec::new();
    let ghost target = all_heard(request_id@, ExchangeView::all(events@));
    let mut i: usize = 0;
    while i < events.len()
        invariant
            i <= events@.len(),
            target == all_heard(request_id@, ExchangeView::all(events@)),
            NetworkView::all(r@) =~= target.take(i as int),
        decreases events@.len() - i,
    {
        let ghost done = NetworkView::all(r@);
        let next = match &events[i] {
            NetworkEvent::RequestStart { url, method } => RuntimeNetworkEvent::Request {
                request_id: request_id.to_owned(),
                url: url.clone(),
                method: method.clone(),
            },
            NetworkEvent::Redirect { from, to, status } => RuntimeNetworkEvent::Redirect {
                request_id: request_id.to_owned(),
                from: from.clone(),
                to: to.clone(),
                status: *status,
            },
            NetworkEvent::Response { url, status } => RuntimeNetworkEvent::Response {
                request_id: request_id.to_owned(),
                url: url.clone(),
                status: *status,
            },
        };
        assert(next@ == target[i as int]);
        r.push(next);
        i += 1;
        assert(NetworkView::all(r@) =~= done.push(next@));
        assert(target.take(i as int) =~= target.take(i - 1).push(target[i - 1]));
    }
    assert(target.take(target.len() as int) =~= target);
    r
}

/// The request for an external script.
pub fn script_request(request_id: &str, url: &str) -> (r: RuntimeNetworkEvent)
    ensures
        r@ == (NetworkView::Request { request_id: request_id@, url: url@, method: "GET"@ }),
{
    RuntimeNetworkEvent::Request {
        request_id: request_id.to_owned(),
        url: url.to_owned(),
        method: "GET".to_owned(),
    }
}

/// What the frontend hears of the load of an external script: the exchange,
/// and the failure, if it failed.
pub fn external_script_network_events(
    request_id: RequestId,
    request_url: &str,
    result: &Result<LoadedExternalScript, ExternalScriptLoadFailure>,
) -> (r: Vec<RuntimeNetworkEvent>)
    ensures
        NetworkView::all(r@) == script_network(
            crate::text::decimal_text(request_id.raw as nat),
            request_url@,
            *result,
        ),
{
    let id = decimal(request_id.raw);
    match result {
        Ok(LoadedExternalScript::File { final_url, .. }) => {
            let mut r: Vec<RuntimeNetworkEvent> = Vec::new();
            r.push(script_request(id.as_str(), request_url));
            r.push(
                RuntimeNetworkEvent::Response {
                    request_id: id.clone(),
                    url: final_url.clone(),
                    status: 200,
                },
            );
            assert(NetworkView::all(r@) =~= script_network(id@, request_url@, *result));
            r
        },
        Ok(LoadedExternalScript::Http { response, .. }) => hear_all(id.as_str(), &response.events),
        Err(failure) => {
            let mut r = hear_all(id.as_str(), &failure.events);
            let ghost seen = all_heard(id@, failure@.events);
            if r.len() == 0 {
                r.push(script_request(id.as_str(), request_url));
            }
            r.push(
                RuntimeNetworkEvent::Failure {
                    request_id: id.clone(),
                    url: failure.url.clone(),
                    error_text: failure.error.message.clone(),
                    blocked_reason: Some(failure.blocked_reason.clone()),
                },
            );
            assert(NetworkView::all(r@) =~= script_network(id@, request_url@, *result));
            r
        },
    }
}

} // verus!
