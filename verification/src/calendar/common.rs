//! What the feed providers share: the pre-flight check of a feed address,
//! the check of a feed response, and the resolution of feed date-times to
//! UTC instants.
use vstd::prelude::*;
use chrono::TimeZone;
use crate::models::event::opt_text;
use crate::text::{
    has_prefix, has_substring, has_suffix, is_blank, lowercase, matches_at,
    occurs_at, skip_spaces, str_contains, str_ends_with, str_eq, str_is_blank, str_starts_with,
    to_chars, trimmed_start, unicode_lowercase,
};
use crate::utils::circuit_breaker::{
    circuit_open_message, failed_at_reading, BreakerModel, CircuitBreaker,
};
use crate::utils::retry::{
    is_transient_text, retry_with_exponential_backoff, RetryConfig, RetryError,
};

verus! {

/// The parts of an address that the pre-flight check reads.
#[derive(Debug, Clone)]
pub struct UrlParts {
    /// The scheme, lower-cased, without the `:`.
    pub scheme: String,
    /// The host, if the address has one.
    pub host: Option<String>,
    /// The path.
    pub path: String,
}

/// The parts of an address as a plain value.
pub struct UrlPartsView {
    pub scheme: Seq<char>,
    pub host: Option<Seq<char>>,
    pub path: Seq<char>,
}

impl View for UrlParts {
    type V = UrlPartsView;

    open spec fn view(&self) -> UrlPartsView {
        UrlPartsView { scheme: self.scheme@, host: opt_text(self.host), path: self.path@ }
    }
}

/// What the URL parser makes of a text: its parts, or `None` where the text
/// is no absolute URL. The parser's rules (the WHATWG URL standard) are not
/// spelled out here.
pub uninterp spec fn parsed_url(text: Seq<char>) -> Option<UrlPartsView>;

/// `url::ParseError`, the URL parser's reason for refusing a text. It is
/// only carried from the parser to its description.
#[verifier::external_type_specification]
#[verifier::external_body]
pub struct ExUrlParseError(url::ParseError);

/// `url::Url::parse`, followed by `scheme`, `host_str` and `path` on the
/// parsed address. The outcome is a function of the text alone: the parts
/// that those three methods give, or the parser's error.
#[verifier::external_body]
pub(crate) fn split_url(text: &str) -> (r: Result<UrlParts, url::ParseError>)
    ensures
        match r {
            Ok(parts) => parsed_url(text@) == Some(parts@),
            Err(_) => parsed_url(text@) is None,
        },
{
    let url = url::Url::parse(text)?;
    Ok(UrlParts {
        scheme: url.scheme().to_string(),
        host: url.host_str().map(|h| h.to_string()),
        path: url.path().to_string(),
    })
}

/// The parser's description of why a text is no URL (`Display` of
/// `url::ParseError`).
#[verifier::external_body]
pub(crate) fn describe_parse_error(error: &url::ParseError) -> String {
    error.to_string()
}

/// Why a feed address is refused.
#[derive(Debug, Clone, Copy, PartialEq, Eq, Structural)]
pub enum UrlFault {
    /// The address is empty or blank.
    Empty,
    /// The address is no absolute URL.
    InvalidFormat,
    /// The scheme is not `https`.
    NotHttps,
    /// The address has no host.
    MissingHost,
    /// The host is empty.
    EmptyHost,
    /// The host is this machine or lies in a private network.
    LocalNetwork,
}

/// A refused feed address, with what the message needs.
#[derive(Debug, Clone)]
pub enum UrlError {
    Empty,
    /// Holds the parser's description.
    InvalidFormat(String),
    /// Holds the scheme that was found.
    NotHttps(String),
    /// Holds the address.
    MissingHost(String),
    EmptyHost,
    LocalNetwork,
}

/// Non-fatal remarks on an accepted feed address.
#[derive(Debug, Clone, Copy, PartialEq, Eq, Structural)]
pub struct UrlNotes {
    /// The path is empty or `/`.
    pub missing_path: bool,
    /// The path neither ends in `.ics` nor holds `/calendar`.
    pub unfamiliar_path: bool,
}

/// Whether `host` names this machine or an address in `127.*`,
/// `192.168.*`, `10.*` or `172.16.*`.
pub open spec fn is_local_host(host: Seq<char>) -> bool {
    ||| host == "localhost"@
    ||| has_prefix(host, "127."@)
    ||| has_prefix(host, "192.168."@)
    ||| has_prefix(host, "10."@)
    ||| has_prefix(host, "172.16."@)
}

/// The remarks that a path earns.
pub open spec fn path_notes(path: Seq<char>) -> UrlNotes {
    UrlNotes {
        missing_path: path.len() == 0 || path == "/"@,
        unfamiliar_path: !has_suffix(unicode_lowercase(path), ".ics"@) && !has_substring(
            path,
            "/calendar"@,
        ),
    }
}

/// The verdict on the parts of an address: the first rule that refuses it,
/// or the remarks on its path.
pub open spec fn parts_verdict(parts: UrlPartsView) -> Result<UrlNotes, UrlFault> {
    if parts.scheme != "https"@ {
        Err(UrlFault::NotHttps)
    } else if parts.host is None {
        Err(UrlFault::MissingHost)
    } else if parts.host->0.len() == 0 {
        Err(UrlFault::EmptyHost)
    } else if is_local_host(parts.host->0) {
        Err(UrlFault::LocalNetwork)
    } else {
        Ok(path_notes(parts.path))
    }
}

/// The verdict on an address, given what the URL parser makes of it.
pub open spec fn url_verdict(url: Seq<char>, parsed: Option<UrlPartsView>) -> Result<
    UrlNotes,
    UrlFault,
> {
    if is_blank(url) {
        Err(UrlFault::Empty)
    } else {
        match parsed {
            None => Err(UrlFault::InvalidFormat),
            Some(parts) => parts_verdict(parts),
        }
    }
}

impl UrlError {
    /// The rule that refused the address.
    pub open spec fn fault(&self) -> UrlFault {
        match self {
            UrlError::Empty => UrlFault::Empty,
            UrlError::InvalidFormat(_) => UrlFault::InvalidFormat,
            UrlError::NotHttps(_) => UrlFault::NotHttps,
            UrlError::MissingHost(_) => UrlFault::MissingHost,
            UrlError::EmptyHost => UrlFault::EmptyHost,
            UrlError::LocalNetwork => UrlFault::LocalNetwork,
        }
    }

    /// The message shown to the user.
    pub open spec fn message_text(&self) -> Seq<char> {
        match self {
            UrlError::Empty => "ICS URL cannot be empty. Please provide a valid calendar ICS URL."@,
            UrlError::InvalidFormat(detail) => "Invalid ICS URL format: "@ + detail@
                + ". Please ensure the URL is properly formatted (e.g., https://calendar.example.com/path/calendar.ics)"@,
            UrlError::NotHttps(scheme) =>
                "ICS URL must use HTTPS protocol for security. HTTP is not allowed. Your URL starts with '"@
                + scheme@ + "://'. Please use an HTTPS URL instead."@,
            UrlError::MissingHost(url) =>
                "ICS URL must have a valid domain name. The provided URL '"@ + url@
                + "' does not contain a valid host."@,
            UrlError::EmptyHost => "ICS URL domain cannot be empty."@,
            UrlError::LocalNetwork =>
                "ICS URL cannot point to localhost or local network addresses. Please use a publicly accessible calendar URL."@,
        }
    }

    /// The rule that refused the address.
    pub fn kind(&self) -> (fault: UrlFault)
        ensures
            fault == self.fault(),
    {
        match self {
            UrlError::Empty => UrlFault::Empty,
            UrlError::InvalidFormat(_) => UrlFault::InvalidFormat,
            UrlError::NotHttps(_) => UrlFault::NotHttps,
            UrlError::MissingHost(_) => UrlFault::MissingHost,
            UrlError::EmptyHost => UrlFault::EmptyHost,
            UrlError::LocalNetwork => UrlFault::LocalNetwork,
        }
    }

    /// The message shown to the user.
    pub fn message(&self) -> (text: String)
        ensures
            text@ == self.message_text(),
    {
        match self {
            UrlError::Empty => String::from_str(
                "ICS URL cannot be empty. Please provide a valid calendar ICS URL.",
            ),
            UrlError::InvalidFormat(detail) => {
                let mut text = String::from_str("Invalid ICS URL format: ");
                text.append(detail.as_str());
                text.append(
                    ". Please ensure the URL is properly formatted (e.g., https://calendar.example.com/path/calendar.ics)",
                );
                text
            },
            UrlError::NotHttps(scheme) => {
                let mut text = String::from_str(
                    "ICS URL must use HTTPS protocol for security. HTTP is not allowed. Your URL starts with '",
                );
                text.append(scheme.as_str());
                text.append("://'. Please use an HTTPS URL instead.");
                text
            },
            UrlError::MissingHost(url) => {
                let mut text = String::from_str(
                    "ICS URL must have a valid domain name. The provided URL '",
                );
                text.append(url.as_str());
                text.append("' does not contain a valid host.");
                text
            },
            UrlError::EmptyHost => String::from_str("ICS URL domain cannot be empty."),
            UrlError::LocalNetwork => String::from_str(
                "ICS URL cannot point to localhost or local network addresses. Please use a publicly accessible calendar URL.",
            ),
        }
    }
}

/// Whether `host` names this machine or a private network.
pub fn host_is_local(host: &str) -> (b: bool)
    ensures
        b == is_local_host(host@),
{
    str_eq(host, "localhost") || str_starts_with(host, "127.") || str_starts_with(host, "192.168.")
        || str_starts_with(host, "10.") || str_starts_with(host, "172.16.")
}

/// The remarks that a path earns.
pub fn note_path(path: &str) -> (notes: UrlNotes)
    ensures
        notes == path_notes(path@),
{
    let missing_path = path.is_empty() || str_eq(path, "/");
    let lowered = lowercase(path);
    let unfamiliar_path = !str_ends_with(lowered.as_str(), ".ics") && !str_contains(
        path,
        "/calendar",
    );
    proof {
        if path@.len() == 0 {
            assert(path@ =~= Seq::<char>::empty());
        }
    }
    UrlNotes { missing_path, unfamiliar_path }
}

/// Judges the parts of a parsed address. `url` is the address they were
/// parsed from; it is only quoted in the error.
pub fn check_url_parts(url: &str, parts: &UrlParts) -> (r: Result<UrlNotes, UrlError>)
    ensures
        match r {
            Ok(notes) => parts_verdict(parts@) == Ok::<UrlNotes, UrlFault>(notes),
            Err(e) => parts_verdict(parts@) == Err::<UrlNotes, UrlFault>(e.fault()),
        },
        r matches Err(UrlError::NotHttps(scheme)) ==> scheme@ == parts.scheme@,
        r matches Err(UrlError::MissingHost(quoted)) ==> quoted@ == url@,
{
    if !str_eq(parts.scheme.as_str(), "https") {
        return Err(UrlError::NotHttps(parts.scheme.clone()));
    }
    match &parts.host {
        None => Err(UrlError::MissingHost(String::from_str(url))),
        Some(host) => {
            if host.as_str().is_empty() {
                Err(UrlError::EmptyHost)
            } else if host_is_local(host.as_str()) {
                Err(UrlError::LocalNetwork)
            } else {
                Ok(note_path(parts.path.as_str()))
            }
        },
    }
}

/// Validates a feed address before anything is fetched. No I/O is done.
///
/// Refused are, in this order: an empty or blank address; a text that is
/// no absolute URL; a scheme other than `https`; an address without a host
/// or with an empty one; `localhost` and the private ranges `127.*`,
/// `192.168.*`, `10.*` and `172.16.*`. An accepted address comes with
/// remarks on its path.
pub fn validate_ics_url_format(ics_url: &str) -> (r: Result<UrlNotes, UrlError>)
    ensures
        match r {
            Ok(notes) => url_verdict(ics_url@, parsed_url(ics_url@)) == Ok::<UrlNotes, UrlFault>(
                notes,
            ),
            Err(e) => url_verdict(ics_url@, parsed_url(ics_url@)) == Err::<UrlNotes, UrlFault>(
                e.fault(),
            ),
        },
        r matches Err(UrlError::NotHttps(scheme)) ==> scheme@ == parsed_url(ics_url@)->0.scheme,
        r matches Err(UrlError::MissingHost(quoted)) ==> quoted@ == ics_url@,
{
    if str_is_blank(ics_url) {
        return Err(UrlError::Empty);
    }
    match split_url(ics_url) {
        Err(e) => Err(UrlError::InvalidFormat(describe_parse_error(&e))),
        Ok(parts) => check_url_parts(ics_url, &parts),
    }
}

/// What one HTTP request for a feed brought.
#[derive(Debug, Clone)]
pub enum HttpAttempt {
    /// The client could not be set up; holds the reason.
    ClientFailed(String),
    /// No response came; holds the reason.
    RequestFailed(String),
    /// A response outside the 2xx range; holds the status as the client
    /// prints it (code and reason) and the body, or a stand-in for a body
    /// that could not be read.
    Status { status: String, body: String },
    /// A 2xx response whose body could not be read; holds the reason.
    BodyFailed(String),
    /// A 2xx response with its body.
    Body(String),
}

/// Whether a body begins, after leading white space, with the marker of an
/// HTML document.
pub open spec fn is_html_body(content: Seq<char>) -> bool {
    ||| has_prefix(trimmed_start(content), "<!DOCTYPE"@)
    ||| has_prefix(trimmed_start(content), "<html"@)
}

/// The message for a body that is an HTML document.
pub open spec fn html_body_message() -> Seq<char> {
    "Invalid ICS URL: The server returned HTML instead of a calendar file. Please ensure you are using the 'Secret address in iCal format' from your calendar settings, not the web browser URL."@
}

/// The feed text that an attempt yields, or the text of its failure.
pub open spec fn attempt_verdict(attempt: HttpAttempt) -> Result<Seq<char>, Seq<char>> {
    match attempt {
        HttpAttempt::ClientFailed(reason) => Err("Failed to build client: "@ + reason@),
        HttpAttempt::RequestFailed(reason) => Err("Request failed: "@ + reason@),
        HttpAttempt::Status { status, body } => Err("HTTP "@ + status@ + ": "@ + body@),
        HttpAttempt::BodyFailed(reason) => Err("Failed to read response body: "@ + reason@),
        HttpAttempt::Body(content) => if is_html_body(content@) {
            Err(html_body_message())
        } else {
            Ok(content@)
        },
    }
}

/// The characters of a result of two texts.
pub open spec fn result_text(r: Result<String, String>) -> Result<Seq<char>, Seq<char>> {
    match r {
        Ok(text) => Ok(text@),
        Err(text) => Err(text@),
    }
}

/// Whether a body begins, after leading white space, with the marker of an
/// HTML document.
pub fn body_is_html(content: &str) -> (b: bool)
    ensures
        b == is_html_body(content@),
{
    let chars = to_chars(content);
    let from = skip_spaces(&chars, 0);
    let doctype = to_chars("<!DOCTYPE");
    let html = to_chars("<html");
    let b = matches_at(&chars, &doctype, from) || matches_at(&chars, &html, from);
    proof {
        let rest = trimmed_start(content@);
        assert(rest =~= chars@.skip(from as int));
        assert forall|needle: Seq<char>|
            occurs_at(chars@, needle, from as int) == #[trigger] has_prefix(rest, needle) by {
            if from + needle.len() <= chars@.len() {
                assert(chars@.subrange(from as int, from + needle.len()) =~= rest.subrange(
                    0,
                    needle.len() as int,
                ));
            }
        }
    }
    b
}

/// Whether a body holds the marker of a calendar document. A feed without
/// it is suspect, but it is not refused.
pub fn has_calendar_marker(content: &str) -> (b: bool)
    ensures
        b == has_substring(content@, "BEGIN:VCALENDAR"@),
{
    str_contains(content, "BEGIN:VCALENDAR")
}

/// Judges one attempt: the feed text, or the text of the failure.
///
/// A response outside the 2xx range fails with its status and body. A body
/// that is an HTML document fails with a message of its own, which holds no
/// transient marker: such a body points to a wrong address, not to a
/// network fault.
pub fn attempt_result(attempt: HttpAttempt) -> (r: Result<String, String>)
    ensures
        result_text(r) == attempt_verdict(attempt),
{
    match attempt {
        HttpAttempt::ClientFailed(reason) => {
            let mut text = String::from_str("Failed to build client: ");
            text.append(reason.as_str());
            Err(text)
        },
        HttpAttempt::RequestFailed(reason) => {
            let mut text = String::from_str("Request failed: ");
            text.append(reason.as_str());
            Err(text)
        },
        HttpAttempt::Status { status, body } => {
            let mut text = String::from_str("HTTP ");
            text.append(status.as_str());
            text.append(": ");
            text.append(body.as_str());
            Err(text)
        },
        HttpAttempt::BodyFailed(reason) => {
            let mut text = String::from_str("Failed to read response body: ");
            text.append(reason.as_str());
            Err(text)
        },
        HttpAttempt::Body(content) => {
            if body_is_html(content.as_str()) {
                Err(
                    String::from_str(
                        "Invalid ICS URL: The server returned HTML instead of a calendar file. Please ensure you are using the 'Secret address in iCal format' from your calendar settings, not the web browser URL.",
                    ),
                )
            } else {
                Ok(content)
            }
        },
    }
}

/// The tuning of the retries of a feed request: three attempts, one second
/// at first, doubling, twenty seconds at most.
pub open spec fn feed_retry_config() -> RetryConfig {
    RetryConfig { max_attempts: 3, base_delay_ms: 1000, max_delay_ms: 20_000, backoff_permille: 2000 }
}

/// The tuning of the retries of a feed request.
pub fn feed_retries() -> (config: RetryConfig)
    ensures
        config == feed_retry_config(),
{
    RetryConfig { max_attempts: 3, base_delay_ms: 1000, max_delay_ms: 20_000, backoff_permille: 2000 }
}

/// Why no feed text was fetched.
#[derive(Debug, Clone)]
pub enum FetchError {
    /// The address was refused before anything was sent.
    InvalidUrl(UrlError),
    /// The service's circuit is open; nothing was sent.
    CircuitOpen,
    /// The request failed for good, or once too often.
    Failed(RetryError),
}

impl FetchError {
    /// The text of the failure.
    pub open spec fn message_text(&self) -> Seq<char> {
        match self {
            FetchError::InvalidUrl(e) => e.message_text(),
            FetchError::CircuitOpen => "Circuit breaker is open"@,
            FetchError::Failed(e) => e.message_text(),
        }
    }

    /// The text of the failure.
    pub fn message(&self) -> (text: String)
        ensures
            text@ == self.message_text(),
    {
        match self {
            FetchError::InvalidUrl(e) => e.message(),
            FetchError::CircuitOpen => circuit_open_message(),
            FetchError::Failed(e) => e.message(),
        }
    }
}

/// Opens a fetch: validates the address and asks the service's breaker.
///
/// A refused address fails, and so does an open circuit; both leave the
/// breaker as it was. Otherwise the call is admitted, and the breaker is as
/// the call found it on arrival.
pub fn begin_fetch(ics_url: &str, breaker: &mut CircuitBreaker, now_ms: u64) -> (r: Result<
    UrlNotes,
    FetchError,
>)
    ensures
        match url_verdict(ics_url@, parsed_url(ics_url@)) {
            Err(fault) => {
                &&& r matches Err(FetchError::InvalidUrl(e))
                &&& e.fault() == fault
                &&& final(breaker)@ == old(breaker)@
            },
            Ok(notes) => if old(breaker)@.admits(now_ms) {
                r == Ok::<UrlNotes, FetchError>(notes) && final(breaker)@ == old(
                    breaker,
                )@.on_arrival(now_ms)
            } else {
                r matches Err(FetchError::CircuitOpen) && final(breaker)@ == old(breaker)@
            },
        },
{
    let notes = match validate_ics_url_format(ics_url) {
        Err(e) => {
            return Err(FetchError::InvalidUrl(e));
        },
        Ok(notes) => notes,
    };
    if !breaker.try_acquire(now_ms) {
        return Err(FetchError::CircuitOpen);
    }
    Ok(notes)
}

/// What a fetch returns when its requests came back with `outcome`.
pub open spec fn fetch_result(outcome: Result<String, RetryError>) -> Result<String, FetchError> {
    match outcome {
        Ok(content) => Ok(content),
        Err(e) => Err(FetchError::Failed(e)),
    }
}

/// Closes an admitted fetch: tells the breaker how the requests came back
/// at `now_ms`, and passes the outcome on.
pub fn end_fetch(breaker: &mut CircuitBreaker, outcome: Result<String, RetryError>, now_ms: u64) -> (r: Result<
    String,
    FetchError,
>)
    ensures
        r == fetch_result(outcome),
        final(breaker)@ == old(breaker)@.after_outcome(outcome is Ok, now_ms),
{
    match outcome {
        Ok(content) => {
            breaker.on_success();
            Ok(content)
        },
        Err(e) => {
            breaker.on_failure(now_ms);
            Err(FetchError::Failed(e))
        },
    }
}

/// Whether `text` is the body of a response that `get` can bring from
/// `address`, and no HTML document.
pub open spec fn is_fetched_by<G: Fn(&str) -> HttpAttempt>(get: &G, address: Seq<char>, text: Seq<char>) -> bool {
    exists|url: &str, attempt: HttpAttempt|
        url@ == address && #[trigger] get.ensures((url,), attempt) && attempt_verdict(attempt) == Ok::<
            Seq<char>,
            Seq<char>,
        >(text)
}

/// Whether `error` is the text of a failed request that `get` can bring from
/// `address`.
pub open spec fn is_failed_by<G: Fn(&str) -> HttpAttempt>(get: &G, address: Seq<char>, error: Seq<char>) -> bool {
    exists|url: &str, attempt: HttpAttempt|
        url@ == address && #[trigger] get.ensures((url,), attempt) && attempt_verdict(attempt) == Err::<
            Seq<char>,
            Seq<char>,
        >(error)
}

/// Whether the requests of a fetch can have ended in `failure`: for good,
/// with the text of a failed request that is not transient; or by
/// exhaustion, after every attempt, with the text of a failed request that
/// is transient.
pub open spec fn is_fetch_failure<G: Fn(&str) -> HttpAttempt>(get: &G, address: Seq<char>, failure: RetryError) -> bool {
    match failure {
        RetryError::Permanent(error) => !is_transient_text(error@) && is_failed_by(
            get,
            address,
            error@,
        ),
        RetryError::Exhausted { attempts, last_error } => {
            &&& attempts == feed_retry_config().max_attempts
            &&& is_transient_text(last_error@)
            &&& is_failed_by(get, address, last_error@)
        },
    }
}

/// What a fetch from `address` gives, and how it leaves the breaker.
///
/// A refused address fails with its fault, and an accepted address at an
/// open circuit fails as rejected; both leave the breaker as it was.
/// Otherwise the call is admitted: a feed text is the body of a response
/// that `get` brought, and the breaker has seen a success; a failure is one
/// that the requests can have ended in, and the breaker has seen a failure
/// at a reading of `clock`.
pub open spec fn fetch_outcome<G: Fn(&str) -> HttpAttempt, K: Fn() -> u64>(
    get: &G,
    clock: &K,
    address: Seq<char>,
    before: BreakerModel,
    now_ms: u64,
    r: Result<String, FetchError>,
    after: BreakerModel,
) -> bool {
    match url_verdict(address, parsed_url(address)) {
        Err(fault) => {
            &&& r matches Err(FetchError::InvalidUrl(e))
            &&& e.fault() == fault
            &&& after == before
        },
        Ok(_) => if !before.admits(now_ms) {
            r matches Err(FetchError::CircuitOpen) && after == before
        } else {
            match r {
                Ok(content) => is_fetched_by(get, address, content@) && after == before.on_arrival(
                    now_ms,
                ).after_success(),
                Err(FetchError::Failed(failure)) => is_fetch_failure(get, address, failure)
                    && failed_at_reading(clock, before.on_arrival(now_ms), after),
                Err(_) => false,
            }
        },
    }
}

/// Whether the address of a feed is accepted.
pub open spec fn is_accepted_address(address: Seq<char>) -> bool {
    url_verdict(address, parsed_url(address)) is Ok
}

/// Whether every response that `get` can bring from `address` is a
/// success with a body that is no HTML document.
pub open spec fn always_answers<G: Fn(&str) -> HttpAttempt>(get: &G, address: Seq<char>) -> bool {
    forall|url: &str, attempt: HttpAttempt|
        url@ == address && #[trigger] get.ensures((url,), attempt) ==> attempt_verdict(attempt) is Ok
}

/// Whether every response that `get` can bring from `address` is a
/// success with the body `feed`.
pub open spec fn serves_only<G: Fn(&str) -> HttpAttempt>(get: &G, address: Seq<char>, feed: Seq<char>) -> bool {
    forall|url: &str, attempt: HttpAttempt|
        url@ == address && #[trigger] get.ensures((url,), attempt) ==> attempt_verdict(attempt)
            == Ok::<Seq<char>, Seq<char>>(feed)
}

/// Success is owed where nothing stands against it: a fetch from an
/// accepted address, at a breaker that admits the call, from a source of
/// which every response is a success with a body that is no HTML document,
/// succeeds, and the breaker has seen a success.
pub proof fn lemma_answered_fetch_succeeds<G: Fn(&str) -> HttpAttempt, K: Fn() -> u64>(
    get: &G,
    clock: &K,
    address: Seq<char>,
    before: BreakerModel,
    now_ms: u64,
    r: Result<String, FetchError>,
    after: BreakerModel,
)
    requires
        fetch_outcome(get, clock, address, before, now_ms, r, after),
        is_accepted_address(address),
        before.admits(now_ms),
        always_answers(get, address),
    ensures
        r matches Ok(content) && is_fetched_by(get, address, content@),
        after == before.on_arrival(now_ms).after_success(),
        forall|later: u64| #[trigger] after.admits(later),
{
}

/// Fetches the text of a feed: the address is validated, the service's
/// breaker is asked, and the request is made with retries; the breaker
/// learns whether the whole run succeeded.
///
/// `get` makes one HTTP request to the address it is given; `sleep` pauses
/// for the milliseconds it is given; `now_ms` is the reading of the
/// monotonic clock at the call, and `clock` is read again when the requests
/// have failed.
pub fn fetch_ics_data<G: Fn(&str) -> HttpAttempt, S: Fn(u64), K: Fn() -> u64>(
    ics_url: &str,
    breaker: &mut CircuitBreaker,
    now_ms: u64,
    get: &G,
    sleep: &S,
    clock: &K,
) -> (r: Result<String, FetchError>)
    requires
        get.requires((ics_url,)),
        forall|ms: u64| sleep.requires((ms,)),
        clock.requires(()),
    ensures
        fetch_outcome(get, clock, ics_url@, old(breaker)@, now_ms, r, final(breaker)@),
{
    match begin_fetch(ics_url, breaker, now_ms) {
        Err(e) => {
            return Err(e);
        },
        Ok(_) => {},
    }
    let config = feed_retries();
    let request = || -> (outcome: Result<String, String>)
        requires
            get.requires((ics_url,)),
        ensures
            exists|attempt: HttpAttempt|
                get.ensures((ics_url,), attempt) && result_text(outcome) == attempt_verdict(
                    attempt,
                ),
        {
            let attempt = get(ics_url);
            attempt_result(attempt)
        };
    let pause = |ms: u64|
        requires
            sleep.requires((ms,)),
        {
            sleep(ms)
        };
    let outcome = retry_with_exponential_backoff(&config, request, pause);
    let ghost seen = outcome;
    proof {
        match seen {
            Ok(content) => {
                let attempt = choose|attempt: HttpAttempt|
                    get.ensures((ics_url,), attempt) && result_text(Ok::<String, String>(content))
                        == attempt_verdict(attempt);
                assert(get.ensures((ics_url,), attempt) && attempt_verdict(attempt) == Ok::<
                    Seq<char>,
                    Seq<char>,
                >(content@));
            },
            Err(RetryError::Permanent(error)) => {
                let attempt = choose|attempt: HttpAttempt|
                    get.ensures((ics_url,), attempt) && result_text(Err::<String, String>(error))
                        == attempt_verdict(attempt);
                assert(get.ensures((ics_url,), attempt) && attempt_verdict(attempt) == Err::<
                    Seq<char>,
                    Seq<char>,
                >(error@));
            },
            Err(RetryError::Exhausted { attempts, last_error }) => {
                let attempt = choose|attempt: HttpAttempt|
                    get.ensures((ics_url,), attempt) && result_text(
                        Err::<String, String>(last_error),
                    ) == attempt_verdict(attempt);
                assert(get.ensures((ics_url,), attempt) && attempt_verdict(attempt) == Err::<
                    Seq<char>,
                    Seq<char>,
                >(last_error@));
            },
        }
    }
    let finished = if outcome.is_ok() {
        now_ms
    } else {
        let failed_at = clock();
        assert(clock.ensures((), failed_at));
        failed_at
    };
    end_fetch(breaker, outcome, finished)
}

/// A date or date-time as a feed gives it. Wall-clock values are counted
/// in seconds from 1970-01-01T00:00:00 on the clock they were read from.
#[derive(Debug, Clone)]
pub enum IcalDateTime {
    /// An instant tagged as UTC.
    Utc(i64),
    /// A wall-clock time with no zone ("floating").
    Floating(i64),
    /// A wall-clock time in the zone named `tzid`.
    WithTimezone { date_time: i64, tzid: String },
    /// A calendar date, given as the wall-clock time of its midnight.
    Date(i64),
}

/// Where a wall-clock time falls in a named zone.
#[derive(Debug, Clone, Copy, PartialEq, Eq, Structural)]
pub enum ZonedTime {
    /// The zone's name is not in the time-zone database.
    UnknownZone,
    /// The wall-clock time occurs twice in the zone, or never.
    NoSingleInstant,
    /// The one instant at which the zone's clocks show that time.
    At(i64),
}

/// Where the time-zone database puts the wall-clock time `local` in the
/// zone named `tzid`. The database is not spelled out here.
pub uninterp spec fn zone_time(tzid: Seq<char>, local: int) -> ZonedTime;

/// `chrono_tz::Tz::from_str` on `tzid`, then `TimeZone::from_local_datetime`
/// and `single` on the wall-clock time `local`. The outcome is a function
/// of the zone's name and the wall-clock time alone: the database is
/// compiled into the program.
#[verifier::external_body]
pub(crate) fn place_in_zone(tzid: &str, local: i64) -> (r: ZonedTime)
    ensures
        r == zone_time(tzid@, local as int),
{
    match (tzid.parse::<chrono_tz::Tz>(), chrono::DateTime::from_timestamp(local, 0)) {
        (Err(_), _) => ZonedTime::UnknownZone,
        (Ok(_), None) => ZonedTime::NoSingleInstant,
        (Ok(zone), Some(wall)) => match zone.from_local_datetime(&wall.naive_utc()).single() {
            Some(t) => ZonedTime::At(t.timestamp()),
            None => ZonedTime::NoSingleInstant,
        },
    }
}

/// `chrono::Local`'s `from_local_datetime` and `single` on the wall-clock
/// time `local`: the instant at which this machine's clocks show that time,
/// if there is exactly one. The result depends on the machine's time zone,
/// so nothing is claimed of it.
#[verifier::external_body]
pub(crate) fn place_in_local_zone(local: i64) -> Option<i64> {
    let wall = chrono::DateTime::from_timestamp(local, 0)?.naive_utc();
    chrono::Local.from_local_datetime(&wall).single().map(|t| t.timestamp())
}

/// A feed date-time as a plain value.
pub enum IcalDateTimeView {
    Utc(i64),
    Floating(i64),
    WithTimezone { date_time: i64, tzid: Seq<char> },
    Date(i64),
}

impl View for IcalDateTime {
    type V = IcalDateTimeView;

    open spec fn view(&self) -> IcalDateTimeView {
        match self {
            IcalDateTime::Utc(t) => IcalDateTimeView::Utc(*t),
            IcalDateTime::Floating(local) => IcalDateTimeView::Floating(*local),
            IcalDateTime::WithTimezone { date_time, tzid } => IcalDateTimeView::WithTimezone {
                date_time: *date_time,
                tzid: tzid@,
            },
            IcalDateTime::Date(midnight) => IcalDateTimeView::Date(*midnight),
        }
    }
}

/// The view of an optional feed date-time.
pub open spec fn opt_date_time(value: Option<IcalDateTime>) -> Option<IcalDateTimeView> {
    match value {
        Some(dt) => Some(dt@),
        None => None,
    }
}

impl IcalDateTimeView {
    /// Where the time-zone database puts this value, for a value with a
    /// zone name; `UnknownZone` for every other.
    pub open spec fn zoned(self) -> ZonedTime {
        match self {
            IcalDateTimeView::WithTimezone { date_time, tzid } => zone_time(tzid, date_time as int),
            _ => ZonedTime::UnknownZone,
        }
    }
}

/// The UTC instant of a feed date-time, given where the time-zone database
/// puts it (`zoned`) and where this machine's zone puts its wall-clock time
/// (`local`).
///
/// A UTC-tagged instant is itself. A time in a known zone is placed by the
/// database. A floating time, a date (its midnight) and a time in an unknown
/// zone are placed by this machine's zone. Where the wall-clock time occurs
/// twice or never, there is no instant.
pub open spec fn resolved_instant(dt: IcalDateTimeView, zoned: ZonedTime, local: Option<i64>) -> Option<
    i64,
> {
    match dt {
        IcalDateTimeView::Utc(t) => Some(t),
        IcalDateTimeView::Floating(_) => local,
        IcalDateTimeView::WithTimezone { .. } => match zoned {
            ZonedTime::At(t) => Some(t),
            ZonedTime::NoSingleInstant => None,
            ZonedTime::UnknownZone => local,
        },
        IcalDateTimeView::Date(_) => local,
    }
}

/// The UTC instant of a feed date-time with its own placement by the
/// time-zone database, given the placement by this machine's zone.
pub open spec fn instant_of(dt: IcalDateTimeView, local: Option<i64>) -> Option<i64> {
    resolved_instant(dt, dt.zoned(), local)
}

/// The UTC instant of a feed date-time, from the two placements.
pub fn resolve_instant(dt: &IcalDateTime, zoned: ZonedTime, local: Option<i64>) -> (r: Option<i64>)
    ensures
        r == resolved_instant(dt@, zoned, local),
{
    match dt {
        IcalDateTime::Utc(t) => Some(*t),
        IcalDateTime::Floating(_) => local,
        IcalDateTime::WithTimezone { .. } => match zoned {
            ZonedTime::At(t) => Some(t),
            ZonedTime::NoSingleInstant => None,
            ZonedTime::UnknownZone => local,
        },
        IcalDateTime::Date(_) => local,
    }
}

/// Resolves a feed date-time to a UTC instant.
///
/// The result is `instant_of` the value and whatever this machine's zone
/// made of its wall-clock time. So a UTC-tagged instant resolves to itself,
/// and a time in a known zone resolves as the time-zone database says.
pub fn parse_ical_datetime(dt: &IcalDateTime) -> (r: Option<i64>)
    ensures
        exists|local: Option<i64>| r == instant_of(dt@, local),
        dt@ matches IcalDateTimeView::Utc(t) ==> r == Some(t),
        dt@.zoned() matches ZonedTime::At(t) ==> r == Some(t),
        dt@.zoned() is NoSingleInstant ==> r is None,
{
    match dt {
        IcalDateTime::Utc(_) => {
            let r = resolve_instant(dt, ZonedTime::UnknownZone, None);
            assert(r == instant_of(dt@, None));
            r
        },
        IcalDateTime::Floating(local) => {
            let placed = place_in_local_zone(*local);
            let r = resolve_instant(dt, ZonedTime::UnknownZone, placed);
            assert(r == instant_of(dt@, placed));
            r
        },
        IcalDateTime::WithTimezone { date_time, tzid } => {
            let zoned = place_in_zone(tzid.as_str(), *date_time);
            match zoned {
                ZonedTime::UnknownZone => {
                    let placed = place_in_local_zone(*date_time);
                    let r = resolve_instant(dt, zoned, placed);
                    assert(r == instant_of(dt@, placed));
                    r
                },
                _ => {
                    let r = resolve_instant(dt, zoned, None);
                    assert(r == instant_of(dt@, None));
                    r
                },
            }
        },
        IcalDateTime::Date(midnight) => {
            let placed = place_in_local_zone(*midnight);
            let r = resolve_instant(dt, ZonedTime::UnknownZone, placed);
            assert(r == instant_of(dt@, placed));
            r
        },
    }
}

/// Resolves an optional feed date-time; a missing one has no instant.
pub fn parse_optional_datetime(dt: &Option<IcalDateTime>) -> (r: Option<i64>)
    ensures
        match opt_date_time(*dt) {
            Some(value) => exists|local: Option<i64>| r == instant_of(value, local),
            None => r is None,
        },
{
    match dt {
        Some(value) => parse_ical_datetime(value),
        None => None,
    }
}

} // verus!
