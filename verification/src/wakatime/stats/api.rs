//! Fetching a snapshot of the statistics: the request, and what to do with
//! each answer.
//!
//! The service computes a snapshot in the background, and says in each
//! answer whether the snapshot is up to date. One that is not is asked for
//! again, after a wait that grows with each attempt; when the attempts are
//! used up, the last snapshot is taken as it is, with a warning.
//!
//! Sending and waiting are the caller's part:
//! [`WakaTimeClient::get_stats`] names the first step and
//! [`WakaTimeClient::step`] the one that follows each outcome.

use vstd::prelude::*;
use vstd::string::StringExecFns;

use crate::error::{
    describe_failure, describe_out_of_turn, failure, out_of_turn, Error, ErrorKind, ErrorView,
};
use crate::text::{decimal, decimal_text, text_of};
use crate::wakatime::client::WakaTimeClient;
use crate::wakatime::stats::types::{invalid_range_message, is_valid_range, validate_range};

verus! {

/// How often a snapshot that is not up to date is asked for again.
pub const MAX_RETRIES: u32 = 3;

/// The wait before the first retry, in seconds; the wait before the n-th
/// retry is n times as long.
pub const RETRY_DELAY_SECONDS: u64 = 2;

/// What `Url::parse_with_params` makes of the address `input` and the one
/// query parameter `name` with the value `value`: the address it arrives
/// at, as text, or the description of its parse error.
pub uninterp spec fn url_with_param(input: Seq<char>, name: Seq<char>, value: Seq<char>) -> Result<
    Seq<char>,
    Seq<char>,
>;

/// Calls `reqwest::Url::parse_with_params` on `input` and the one pair
/// `(name, value)`.
///
/// Nothing is claimed of the address that comes back but that it is the one
/// that function computes from these three strings; a parse error comes
/// back as the text that it displays.
#[verifier::external_body]
fn parse_with_param(input: &str, name: &str, value: &str) -> (r: Result<String, String>)
    ensures
        match r {
            Ok(url) => url_with_param(input@, name@, value@) == Ok::<Seq<char>, Seq<char>>(url@),
            Err(cause) => url_with_param(input@, name@, value@) == Err::<Seq<char>, Seq<char>>(
                cause@,
            ),
        },
{
    match reqwest::Url::parse_with_params(input, &[(name, value)]) {
        Ok(url) => Ok(String::from(url)),
        Err(e) => Err(e.to_string()),
    }
}

/// The address of the statistics for `range`, before the key is added.
pub open spec fn stats_endpoint(range: Seq<char>) -> Seq<char> {
    "https://wakatime.com/api/v1/users/current/stats/"@ + range
}

/// The step whose outcome is awaited.
#[derive(Clone, Copy, Debug, PartialEq, Eq, Structural)]
pub enum FetchStage {
    /// The request has been handed out.
    Requesting,
    /// The service has refused; the text of its answer is being read.
    ReadingRefusal,
    /// The service has answered; the answer is being parsed.
    Parsing,
    /// The snapshot was not up to date; the wait before the next request
    /// is running.
    Waiting,
    /// Finished or failed: no further outcome is awaited.
    Closed,
}

/// How far a fetch has come.
#[derive(Clone, Debug, PartialEq, Eq)]
pub struct StatsFetch {
    pub stage: FetchStage,
    /// The range that is asked for.
    pub range: String,
    /// The address that each request goes to.
    pub url: String,
    /// How many snapshots have been turned down so far.
    pub attempt: u32,
    /// The status of the last answer.
    pub status: u16,
}

/// A fetch, with its strings as sequences of characters.
pub struct StatsFetchView {
    pub stage: FetchStage,
    pub range: Seq<char>,
    pub url: Seq<char>,
    pub attempt: u32,
    pub status: u16,
}

impl StatsFetchView {
    /// No more snapshots have been turned down than the retries allow.
    pub open spec fn wf(self) -> bool {
        self.attempt <= MAX_RETRIES
    }
}

impl View for StatsFetch {
    type V = StatsFetchView;

    open spec fn view(&self) -> StatsFetchView {
        StatsFetchView {
            stage: self.stage,
            range: self.range@,
            url: self.url@,
            attempt: self.attempt,
            status: self.status,
        }
    }
}

/// The outcome of a step of a fetch. `T` is the snapshot that the caller
/// parses an answer into.
#[derive(Debug, PartialEq, Eq)]
pub enum FetchEvent<T> {
    /// The request could not be sent, or no answer came.
    SendFailed(String),
    /// The service answered with this status.
    Responded { status: u16 },
    /// The text of an answer; empty where it could not be read.
    Body(String),
    /// The answer holds this snapshot, and says whether it is up to date.
    Parsed { snapshot: T, is_up_to_date: bool },
    /// The answer holds no snapshot.
    ParseFailed(String),
    /// The wait is over.
    Waited,
}

/// An outcome, with its strings as sequences of characters.
pub enum FetchEventView<T> {
    SendFailed(Seq<char>),
    Responded { status: u16 },
    Body(Seq<char>),
    Parsed { snapshot: T, is_up_to_date: bool },
    ParseFailed(Seq<char>),
    Waited,
}

impl<T> View for FetchEvent<T> {
    type V = FetchEventView<T>;

    open spec fn view(&self) -> FetchEventView<T> {
        match self {
            FetchEvent::SendFailed(cause) => FetchEventView::SendFailed(cause@),
            FetchEvent::Responded { status } => FetchEventView::Responded { status: *status },
            FetchEvent::Body(text) => FetchEventView::Body(text@),
            FetchEvent::Parsed { snapshot, is_up_to_date } => FetchEventView::Parsed {
                snapshot: *snapshot,
                is_up_to_date: *is_up_to_date,
            },
            FetchEvent::ParseFailed(cause) => FetchEventView::ParseFailed(cause@),
            FetchEvent::Waited => FetchEventView::Waited,
        }
    }
}

/// The step that the caller is asked to carry out next.
#[derive(Debug, PartialEq, Eq)]
pub enum FetchAction<T> {
    /// Send a GET request to `url`.
    Send { url: String },
    /// Read the answer as text, taking the empty text where that fails.
    ReadBody,
    /// Parse the answer into a snapshot.
    ParseBody,
    /// Wait for `seconds` seconds.
    Wait { seconds: u64 },
    /// The fetch is over, with this snapshot. A `warning` says that the
    /// snapshot is not up to date, which is no error.
    Finish { snapshot: T, warning: Option<String> },
    /// Give up with this error.
    Fail(Error),
}

/// A step, with its strings as sequences of characters.
pub enum FetchActionView<T> {
    Send { url: Seq<char> },
    ReadBody,
    ParseBody,
    Wait { seconds: u64 },
    Finish { snapshot: T, warning: Option<Seq<char>> },
    Fail(ErrorView),
}

impl<T> View for FetchAction<T> {
    type V = FetchActionView<T>;

    open spec fn view(&self) -> FetchActionView<T> {
        match self {
            FetchAction::Send { url } => FetchActionView::Send { url: url@ },
            FetchAction::ReadBody => FetchActionView::ReadBody,
            FetchAction::ParseBody => FetchActionView::ParseBody,
            FetchAction::Wait { seconds } => FetchActionView::Wait { seconds: *seconds },
            FetchAction::Finish { snapshot, warning } => FetchActionView::Finish {
                snapshot: *snapshot,
                warning: text_of(*warning),
            },
            FetchAction::Fail(e) => FetchActionView::Fail(e@),
        }
    }
}

/// A status that stands for success: any from 200 to 299.
pub open spec fn is_success(status: u16) -> bool {
    200 <= status <= 299
}

/// The wait after the snapshot of attempt `attempt` was turned down.
pub open spec fn retry_delay(attempt: u32) -> int {
    RETRY_DELAY_SECONDS * (attempt + 1)
}

/// The warning that goes with a snapshot that is still not up to date
/// when the retries are used up.
pub open spec fn stale_warning(range: Seq<char>) -> Seq<char> {
    "Warning: Stats data for range '"@ + range + "' is not up to date after "@ + decimal(
        MAX_RETRIES as nat,
    ) + " retries. Using stale data."@
}

/// The error for an answer with the status `status` and the text `body`.
pub open spec fn refusal(status: u16, body: Seq<char>) -> ErrorView {
    ErrorView {
        kind: ErrorKind::Network,
        message: "WakaTime API returned error "@ + decimal(status as nat) + ": "@ + body,
    }
}

/// The fetch `s`, closed.
pub open spec fn fetch_closed(s: StatsFetchView) -> StatsFetchView {
    StatsFetchView { stage: FetchStage::Closed, ..s }
}

/// A fetch for `range` that has not sent anything.
pub open spec fn fetch_unsent(range: Seq<char>) -> StatsFetchView {
    StatsFetchView { stage: FetchStage::Closed, range, url: Seq::empty(), attempt: 0, status: 0 }
}

/// The first step of a fetch for the valid range `range`, given what became
/// of its address: the request to that address, or the failure to build
/// one.
pub open spec fn fetch_begin<T>(range: Seq<char>, address: Result<Seq<char>, Seq<char>>) -> (
    StatsFetchView,
    FetchActionView<T>,
) {
    match address {
        Ok(url) => (
            StatsFetchView { stage: FetchStage::Requesting, url, ..fetch_unsent(range) },
            FetchActionView::Send { url },
        ),
        Err(cause) => (
            fetch_unsent(range),
            FetchActionView::Fail(
                failure(ErrorKind::Network, "Failed to construct WakaTime API URL"@, cause),
            ),
        ),
    }
}

/// The first step of a fetch with the key `api_key` for `range`.
///
/// A malformed range fails before anything is sent. The request goes to
/// the address that `url_with_param` names for the endpoint of the range
/// and the key.
pub open spec fn fetch_first<T>(api_key: Seq<char>, range: Seq<char>) -> (
    StatsFetchView,
    FetchActionView<T>,
) {
    if !is_valid_range(range) {
        (
            fetch_unsent(range),
            FetchActionView::Fail(
                ErrorView { kind: ErrorKind::Validation, message: invalid_range_message(range) },
            ),
        )
    } else {
        fetch_begin(range, url_with_param(stats_endpoint(range), "api_key"@, api_key))
    }
}

/// The view of the outcome of building an address.
pub open spec fn address_of(address: Result<String, String>) -> Result<Seq<char>, Seq<char>> {
    match address {
        Ok(url) => Ok(url@),
        Err(cause) => Err(cause@),
    }
}

/// The fetch after the outcome `e` of the step that `s` awaits, and the
/// step to carry out next.
pub open spec fn fetch_next<T>(s: StatsFetchView, e: FetchEventView<T>) -> (
    StatsFetchView,
    FetchActionView<T>,
) {
    let unexpected = (fetch_closed(s), FetchActionView::Fail(out_of_turn(ErrorKind::Network)));
    match s.stage {
        FetchStage::Requesting => match e {
            FetchEventView::Responded { status } => if is_success(status) {
                (StatsFetchView { stage: FetchStage::Parsing, status, ..s }, FetchActionView::ParseBody)
            } else {
                (
                    StatsFetchView { stage: FetchStage::ReadingRefusal, status, ..s },
                    FetchActionView::ReadBody,
                )
            },
            FetchEventView::SendFailed(cause) => (
                fetch_closed(s),
                FetchActionView::Fail(
                    failure(ErrorKind::Network, "Failed to request WakaTime API"@, cause),
                ),
            ),
            _ => unexpected,
        },
        FetchStage::ReadingRefusal => match e {
            FetchEventView::Body(text) => (
                fetch_closed(s),
                FetchActionView::Fail(refusal(s.status, text)),
            ),
            _ => unexpected,
        },
        FetchStage::Parsing => match e {
            FetchEventView::Parsed { snapshot, is_up_to_date } => if is_up_to_date {
                (fetch_closed(s), FetchActionView::Finish { snapshot, warning: None })
            } else if s.attempt < MAX_RETRIES {
                (
                    StatsFetchView { stage: FetchStage::Waiting, ..s },
                    FetchActionView::Wait { seconds: retry_delay(s.attempt) as u64 },
                )
            } else {
                (
                    fetch_closed(s),
                    FetchActionView::Finish { snapshot, warning: Some(stale_warning(s.range)) },
                )
            },
            FetchEventView::ParseFailed(cause) => (
                fetch_closed(s),
                FetchActionView::Fail(
                    failure(ErrorKind::Network, "Failed to parse WakaTime API response"@, cause),
                ),
            ),
            _ => unexpected,
        },
        FetchStage::Waiting => match e {
            FetchEventView::Waited => if s.attempt < MAX_RETRIES {
                (
                    StatsFetchView {
                        stage: FetchStage::Requesting,
                        attempt: (s.attempt + 1) as u32,
                        ..s
                    },
                    FetchActionView::Send { url: s.url },
                )
            } else {
                unexpected
            },
            _ => unexpected,
        },
        FetchStage::Closed => unexpected,
    }
}

impl WakaTimeClient {
    /// Begins the fetch of the statistics for `range`, and names its first
    /// step.
    pub fn get_stats<T>(&self, range: &str) -> (r: (StatsFetch, FetchAction<T>))
        ensures
            (r.0@, r.1@) == fetch_first::<T>(self.api_key@, range@),
            r.0@.wf(),
    {
        match validate_range(range) {
            Err(e) => {
                return (Self::unsent(range), FetchAction::Fail(e));
            },
            Ok(()) => {},
        }
        let mut endpoint = String::from_str("https://wakatime.com/api/v1/users/current/stats/");
        endpoint.append(range);
        let address = parse_with_param(endpoint.as_str(), "api_key", self.api_key.as_str());
        Self::begin(range, address)
    }

    fn unsent(range: &str) -> (fetch: StatsFetch)
        ensures
            fetch@ == fetch_unsent(range@),
    {
        StatsFetch {
            stage: FetchStage::Closed,
            range: String::from_str(range),
            url: String::new(),
            attempt: 0,
            status: 0,
        }
    }

    /// Names the first step of a fetch for the valid range `range`, given
    /// the address of the request, or why none could be built.
    pub fn begin<T>(range: &str, address: Result<String, String>) -> (r: (
        StatsFetch,
        FetchAction<T>,
    ))
        ensures
            (r.0@, r.1@) == fetch_begin::<T>(range@, address_of(address)),
            r.0@.wf(),
    {
        let unsent = Self::unsent(range);
        match address {
            Ok(url) => {
                let action = FetchAction::Send { url: url.clone() };
                (StatsFetch { stage: FetchStage::Requesting, url, ..unsent }, action)
            },
            Err(cause) => {
                let error = describe_failure(
                    ErrorKind::Network,
                    "Failed to construct WakaTime API URL",
                    cause.as_str(),
                );
                (unsent, FetchAction::Fail(error))
            },
        }
    }

    fn fail<T>(fetch: StatsFetch, error: Error) -> (r: (StatsFetch, FetchAction<T>))
        ensures
            r.0@ == fetch_closed(fetch@),
            r.1@ == FetchActionView::<T>::Fail(error@),
    {
        (StatsFetch { stage: FetchStage::Closed, ..fetch }, FetchAction::Fail(error))
    }

    fn finish<T>(fetch: StatsFetch, snapshot: T, warning: Option<String>) -> (r: (
        StatsFetch,
        FetchAction<T>,
    ))
        ensures
            r.0@ == fetch_closed(fetch@),
            r.1@ == (FetchActionView::Finish { snapshot, warning: text_of(warning) }),
    {
        (StatsFetch { stage: FetchStage::Closed, ..fetch }, FetchAction::Finish { snapshot, warning })
    }

    fn stale_warning(range: &str) -> (warning: String)
        ensures
            warning@ == stale_warning(range@),
    {
        let mut warning = String::from_str("Warning: Stats data for range '");
        warning.append(range);
        warning.append("' is not up to date after ");
        warning.append(decimal_text(MAX_RETRIES as u64).as_str());
        warning.append(" retries. Using stale data.");
        warning
    }

    fn refusal(status: u16, body: &str) -> (e: Error)
        ensures
            e@ == refusal(status, body@),
    {
        let mut message = String::from_str("WakaTime API returned error ");
        message.append(decimal_text(status as u64).as_str());
        message.append(": ");
        message.append(body);
        Error::new(ErrorKind::Network, message)
    }

    /// Takes the outcome `event` of the step that `fetch` awaits, and names
    /// the step to carry out next.
    pub fn step<T>(fetch: StatsFetch, event: FetchEvent<T>) -> (r: (StatsFetch, FetchAction<T>))
        ensures
            (r.0@, r.1@) == fetch_next(fetch@, event@),
            fetch@.wf() ==> r.0@.wf(),
    {
        match fetch.stage {
            FetchStage::Requesting => match event {
                FetchEvent::Responded { status } => if 200 <= status && status <= 299 {
                    (StatsFetch { stage: FetchStage::Parsing, status, ..fetch }, FetchAction::ParseBody)
                } else {
                    (
                        StatsFetch { stage: FetchStage::ReadingRefusal, status, ..fetch },
                        FetchAction::ReadBody,
                    )
                },
                FetchEvent::SendFailed(cause) => {
                    let error = describe_failure(
                        ErrorKind::Network,
                        "Failed to request WakaTime API",
                        cause.as_str(),
                    );
                    Self::fail(fetch, error)
                },
                _ => Self::fail(fetch, describe_out_of_turn(ErrorKind::Network)),
            },
            FetchStage::ReadingRefusal => match event {
                FetchEvent::Body(text) => {
                    let error = Self::refusal(fetch.status, text.as_str());
                    Self::fail(fetch, error)
                },
                _ => Self::fail(fetch, describe_out_of_turn(ErrorKind::Network)),
            },
            FetchStage::Parsing => match event {
                FetchEvent::Parsed { snapshot, is_up_to_date } => if is_up_to_date {
                    Self::finish(fetch, snapshot, None)
                } else if fetch.attempt < MAX_RETRIES {
                    let seconds: u64 = RETRY_DELAY_SECONDS * (fetch.attempt as u64 + 1);
                    (
                        StatsFetch { stage: FetchStage::Waiting, ..fetch },
                        FetchAction::Wait { seconds },
                    )
                } else {
                    let warning = Self::stale_warning(fetch.range.as_str());
                    Self::finish(fetch, snapshot, Some(warning))
                },
                FetchEvent::ParseFailed(cause) => {
                    let error = describe_failure(
                        ErrorKind::Network,
                        "Failed to parse WakaTime API response",
                        cause.as_str(),
                    );
                    Self::fail(fetch, error)
                },
                _ => Self::fail(fetch, describe_out_of_turn(ErrorKind::Network)),
            },
            FetchStage::Waiting => match event {
                FetchEvent::Waited => if fetch.attempt < MAX_RETRIES {
                    let action = FetchAction::Send { url: fetch.url.clone() };
                    (
                        StatsFetch {
                            stage: FetchStage::Requesting,
                            attempt: fetch.attempt + 1,
                            ..fetch
                        },
                        action,
                    )
                } else {
                    Self::fail(fetch, describe_out_of_turn(ErrorKind::Network))
                },
                _ => Self::fail(fetch, describe_out_of_turn(ErrorKind::Network)),
            },
            FetchStage::Closed => Self::fail(fetch, describe_out_of_turn(ErrorKind::Network)),
        }
    }
}

/// A fetch never counts more turned-down snapshots than the retries
/// allow, and a fetch that has said to finish or to fail is closed.
pub proof fn lemma_fetch_stays_within_its_retries<T>(s: StatsFetchView, e: FetchEventView<T>)
    requires
        s.wf(),
    ensures
        fetch_next(s, e).0.wf(),
        (fetch_next(s, e).1 is Finish || fetch_next(s, e).1 is Fail) ==> fetch_next(s, e).0.stage
            == FetchStage::Closed,
{
}

/// One round that ends with a snapshot that is not up to date: the service
/// answers with the status `status`, the answer is parsed into `snapshot`,
/// and, if the fetch goes on, the wait is reported as over. The result is
/// the fetch after the round and the last step that was named in it.
pub open spec fn stale_round<T>(s: StatsFetchView, status: u16, snapshot: T) -> (
    StatsFetchView,
    FetchActionView<T>,
) {
    let answered = fetch_next::<T>(s, FetchEventView::Responded { status });
    let parsed = fetch_next::<T>(
        answered.0,
        FetchEventView::Parsed { snapshot, is_up_to_date: false },
    );
    if parsed.1 is Wait {
        fetch_next::<T>(parsed.0, FetchEventView::Waited)
    } else {
        parsed
    }
}

/// A snapshot that is not up to date is asked for again at most three
/// times, after waits of 2, 4 and 6 seconds; the fourth such snapshot is
/// the result of the fetch, with a warning and without an error.
pub proof fn lemma_stale_snapshot_is_taken_after_three_retries<T>(
    s: StatsFetchView,
    statuses: Seq<u16>,
    snapshots: Seq<T>,
)
    requires
        s.stage == FetchStage::Requesting,
        s.attempt == 0,
        statuses.len() == 4,
        snapshots.len() == 4,
        forall|i: int| 0 <= i < 4 ==> is_success(#[trigger] statuses[i]),
    ensures
        ({
            let r1 = stale_round(s, statuses[0], snapshots[0]);
            let r2 = stale_round(r1.0, statuses[1], snapshots[1]);
            let r3 = stale_round(r2.0, statuses[2], snapshots[2]);
            let r4 = stale_round(r3.0, statuses[3], snapshots[3]);
            &&& r1.1 == FetchActionView::<T>::Send { url: s.url }
            &&& r2.1 == FetchActionView::<T>::Send { url: s.url }
            &&& r3.1 == FetchActionView::<T>::Send { url: s.url }
            &&& r4.1 == (FetchActionView::Finish {
                snapshot: snapshots[3],
                warning: Some(stale_warning(s.range)),
            })
            &&& r4.0.stage == FetchStage::Closed
        }),
{
    let r1 = stale_round(s, statuses[0], snapshots[0]);
    let r2 = stale_round(r1.0, statuses[1], snapshots[1]);
    let r3 = stale_round(r2.0, statuses[2], snapshots[2]);
    assert(r1.0.attempt == 1 && r1.0.stage == FetchStage::Requesting);
    assert(r2.0.attempt == 2 && r2.0.stage == FetchStage::Requesting);
    assert(r3.0.attempt == 3 && r3.0.stage == FetchStage::Requesting);
}

/// The wait after a snapshot that is not up to date grows with the
/// attempts: 2 seconds after the first, 4 after the second, 6 after the
/// third.
pub proof fn lemma_retry_waits_grow<T>(s: StatsFetchView, snapshot: T)
    requires
        s.stage == FetchStage::Parsing,
        s.attempt < MAX_RETRIES,
    ensures
        fetch_next(s, FetchEventView::Parsed { snapshot, is_up_to_date: false }).1 == (
        FetchActionView::<T>::Wait { seconds: (2 * (s.attempt + 1)) as u64 }),
{
}

/// A snapshot that is up to date ends the fetch at once, whatever the
/// attempt, and without a warning.
pub proof fn lemma_fresh_snapshot_is_taken<T>(s: StatsFetchView, snapshot: T)
    requires
        s.stage == FetchStage::Parsing,
    ensures
        fetch_next(s, FetchEventView::Parsed { snapshot, is_up_to_date: true }).1 == (
        FetchActionView::Finish { snapshot, warning: None }),
{
}

} // verus!
