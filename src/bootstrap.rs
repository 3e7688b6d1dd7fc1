use crate::config::DbConfig;
use crate::errors::AppError;
use crate::text::{append_text, decimal, decimal_text, prefixed};
use sqlx::postgres::PgConnectOptions;
use vstd::prelude::*;

verus! {

/// Retries after the first attempt; attempts are numbered `0..=MAX_RETRIES`.
pub const MAX_RETRIES: u32 = 3;

/// Delay before the first retry; each later retry waits twice as long.
pub const BASE_DELAY_MS: u64 = 100;

/// The value the validation query must return.
pub const EXPECTED_SCALAR: i32 = 1;

#[verifier::external_type_specification]
#[verifier::external_body]
pub struct ExPgConnectOptions(PgConnectOptions);

#[verifier::external_type_specification]
#[verifier::external_body]
pub struct ExSqlxError(sqlx::Error);

/// Names whether sqlx's connection-string parser accepts a string. The
/// `PG*` environment variables only supply defaults, so the verdict depends
/// on the text alone.
pub uninterp spec fn pg_url_accepted(url: Seq<char>) -> bool;

/// Relies on `PgConnectOptions::from_str`: it succeeds exactly on the strings
/// that the URL parser and sqlx's reading of the URL accept.
#[verifier::external_body]
fn parse_pg_options(url: &str) -> (r: Result<PgConnectOptions, sqlx::Error>)
    ensures
        r is Ok <==> pg_url_accepted(url@),
{
    <PgConnectOptions as std::str::FromStr>::from_str(url)
}

/// Relies on `sqlx::Error`'s `Display`: the error's description.
#[verifier::external_body]
fn sqlx_error_text(e: &sqlx::Error) -> (r: String) {
    e.to_string()
}

/// Cause reported when the connection string cannot be parsed.
pub open spec fn parse_failure_text() -> Seq<char> {
    "parsing DATABASE_URL into PgConnectOptions"@
}

/// Cause reported when every attempt failed and none recorded a cause.
pub open spec fn exhausted_text() -> Seq<char> {
    "exhausted pool connect retries"@
}

/// Cause reported when the validation query returns another value.
pub open spec fn unexpected_value_text(v: i32) -> Seq<char> {
    "validation query returned unexpected value: "@ + decimal(v as int)
}

/// Cause reported for a refused connection string: the fixed context, then
/// the parser's own description of what it refused.
pub open spec fn parse_cause(detail: Seq<char>) -> Seq<char> {
    parse_failure_text() + ": "@ + detail
}

/// A cause that reports a refused connection string.
pub open spec fn is_parse_cause(m: Seq<char>) -> bool {
    exists|d: Seq<char>| m == #[trigger] parse_cause(d)
}

/// The cause of a parse failure, from the parser's rendered error.
pub fn parse_failure_cause(detail: &str) -> (r: String)
    ensures
        r@ == parse_cause(detail@),
{
    let mut cause = prefixed("parsing DATABASE_URL into PgConnectOptions", ": ");
    append_text(&mut cause, detail);
    cause
}

/// Structured connect options from the configured connection string. A
/// string that does not parse is a terminal internal error: it cannot heal
/// by retrying.
pub fn connect_options(cfg: &DbConfig) -> (r: Result<PgConnectOptions, AppError>)
    ensures
        r is Ok <==> pg_url_accepted(cfg.database_url@),
        r is Err ==> (r matches Err(AppError::Internal(m)) && is_parse_cause(m@)),
{
    options_or_error(parse_pg_options(cfg.database_url.as_str()))
}

/// The parser's verdict as the library reports it: the options as they came,
/// or the terminal parse error, whose cause keeps the parser's description.
pub fn options_or_error(parsed: Result<PgConnectOptions, sqlx::Error>) -> (r: Result<
    PgConnectOptions,
    AppError,
>)
    ensures
        parsed is Ok <==> r is Ok,
        parsed is Ok ==> r == Ok::<PgConnectOptions, AppError>(parsed->Ok_0),
        parsed is Err ==> (r matches Err(AppError::Internal(m)) && is_parse_cause(m@)),
{
    match parsed {
        Ok(opts) => Ok(opts),
        Err(e) => {
            let detail = sqlx_error_text(&e);
            let cause = parse_failure_cause(detail.as_str());
            assert(cause@ == parse_cause(detail@));
            Err(AppError::Internal(cause))
        },
    }
}

pub open spec fn pow2(n: nat) -> nat
    decreases n,
{
    if n == 0 {
        1
    } else {
        2 * pow2((n - 1) as nat)
    }
}

/// Delay before attempt `attempt`: none before the first, then
/// `BASE_DELAY_MS * 2^(attempt - 1)`.
pub open spec fn backoff_ms(attempt: nat) -> nat {
    if attempt == 0 {
        0
    } else {
        (BASE_DELAY_MS * pow2((attempt - 1) as nat)) as nat
    }
}

/// Each further attempt waits at least as long as the one before.
pub proof fn lemma_pow2_grows(a: nat, b: nat)
    requires
        a <= b,
    ensures
        pow2(a) <= pow2(b),
        pow2(a) >= 1,
    decreases b,
{
    if a < b {
        lemma_pow2_grows(a, (b - 1) as nat);
    } else if a > 0 {
        lemma_pow2_grows((a - 1) as nat, (a - 1) as nat);
    }
}

/// The delay to sleep before attempt `attempt`, saturating at `u64::MAX`
/// milliseconds.
pub fn backoff_delay(attempt: u32) -> (d: u64)
    ensures
        backoff_ms(attempt as nat) < u64::MAX ==> d == backoff_ms(attempt as nat),
        backoff_ms(attempt as nat) >= u64::MAX ==> d == u64::MAX,
{
    if attempt == 0 {
        return 0;
    }
    let mut d: u64 = BASE_DELAY_MS;
    let mut i: u32 = 1;
    while i < attempt
        invariant
            1 <= i <= attempt,
            BASE_DELAY_MS * pow2((i - 1) as nat) < u64::MAX ==> d == BASE_DELAY_MS * pow2(
                (i - 1) as nat,
            ),
            BASE_DELAY_MS * pow2((i - 1) as nat) >= u64::MAX ==> d == u64::MAX,
        decreases attempt - i,
    {
        d = match d.checked_mul(2) {
            Some(next) => next,
            None => u64::MAX,
        };
        i = i + 1;
    }
    d
}

/// Where the acquisition protocol stands.
#[derive(PartialEq, Eq, Structural, Clone, Copy, Debug)]
pub enum Phase {
    /// Waiting for the pool of the current attempt to be built.
    Connecting,
    /// Waiting for the validation query on the freshly built pool.
    Validating,
    /// Waiting out the delay before the current attempt.
    Backoff,
    /// The pool is validated and ready: terminal.
    Ready,
    /// Every attempt failed: terminal.
    Failed,
}

/// What the driver reports back after performing an action.
#[derive(Debug)]
pub enum Event {
    /// The pool was built.
    Connected,
    /// Building the pool failed, with the rendered cause.
    ConnectFailed(String),
    /// The validation query returned this value.
    Scalar(i32),
    /// The validation query failed, with the rendered cause.
    QueryFailed(String),
    /// The backoff delay has elapsed.
    Slept,
}

/// What the driver must do next.
#[derive(Debug)]
pub enum Action {
    /// Build a pool, for the attempt with this number.
    Connect(u32),
    /// Run the validation query on the pool built by the attempt with this
    /// number.
    Validate(u32),
    /// Sleep this many milliseconds.
    Sleep(u64),
    /// Hand out the validated pool.
    Ready,
    /// Stop with this terminal error.
    GiveUp(AppError),
}

pub ghost enum EventView {
    Connected,
    ConnectFailed(Seq<char>),
    Scalar(i32),
    QueryFailed(Seq<char>),
    Slept,
}

impl View for Event {
    type V = EventView;

    open spec fn view(&self) -> EventView {
        match self {
            Event::Connected => EventView::Connected,
            Event::ConnectFailed(c) => EventView::ConnectFailed(c@),
            Event::Scalar(v) => EventView::Scalar(*v),
            Event::QueryFailed(c) => EventView::QueryFailed(c@),
            Event::Slept => EventView::Slept,
        }
    }
}

/// State of one acquisition run.
pub struct Bootstrap {
    attempt: u32,
    phase: Phase,
    last_cause: Option<String>,
}

pub ghost struct BootstrapView {
    pub attempt: nat,
    pub phase: Phase,
    pub last_cause: Option<Seq<char>>,
}

impl View for Bootstrap {
    type V = BootstrapView;

    closed spec fn view(&self) -> BootstrapView {
        BootstrapView {
            attempt: self.attempt as nat,
            phase: self.phase,
            last_cause: match self.last_cause {
                Some(c) => Some(c@),
                None => None,
            },
        }
    }
}

pub open spec fn initial_view() -> BootstrapView {
    BootstrapView { attempt: 0, phase: Phase::Connecting, last_cause: None }
}

/// A run that ends before any attempt, because the connection string was
/// refused with this cause.
pub open spec fn refused_view(cause: Seq<char>) -> BootstrapView {
    BootstrapView { attempt: 0, phase: Phase::Failed, last_cause: Some(cause) }
}

/// The state reached from `s` by the events in order.
pub open spec fn run(s: BootstrapView, events: Seq<EventView>) -> BootstrapView
    decreases events.len(),
{
    if events.len() == 0 {
        s
    } else {
        run(next_view(s, events[0]), events.drop_first())
    }
}

/// Records a failed attempt: back off before the next one if any is left,
/// else fail for good.
pub open spec fn after_failure(s: BootstrapView, cause: Seq<char>) -> BootstrapView {
    if s.attempt < MAX_RETRIES {
        BootstrapView { attempt: s.attempt + 1, phase: Phase::Backoff, last_cause: Some(cause) }
    } else {
        BootstrapView { attempt: s.attempt, phase: Phase::Failed, last_cause: Some(cause) }
    }
}

/// The state after an event. An event that the phase does not wait for
/// leaves the state as it is.
pub open spec fn next_view(s: BootstrapView, e: EventView) -> BootstrapView {
    match (s.phase, e) {
        (Phase::Connecting, EventView::Connected) => BootstrapView { phase: Phase::Validating, ..s },
        (Phase::Connecting, EventView::ConnectFailed(c)) => after_failure(s, c),
        (Phase::Validating, EventView::Scalar(v)) => if v == EXPECTED_SCALAR {
            BootstrapView { phase: Phase::Ready, ..s }
        } else {
            after_failure(s, unexpected_value_text(v))
        },
        (Phase::Validating, EventView::QueryFailed(c)) => after_failure(s, c),
        (Phase::Backoff, EventView::Slept) => BootstrapView { phase: Phase::Connecting, ..s },
        _ => s,
    }
}

/// The cause of the terminal error of a failed run.
pub open spec fn final_cause(s: BootstrapView) -> Seq<char> {
    match s.last_cause {
        Some(c) => c,
        None => exhausted_text(),
    }
}

/// The action that a state asks of the driver.
pub open spec fn action_fits(a: Action, s: BootstrapView) -> bool {
    match s.phase {
        Phase::Connecting => a == Action::Connect(s.attempt as u32),
        Phase::Validating => a == Action::Validate(s.attempt as u32),
        Phase::Backoff => a == Action::Sleep(backoff_ms(s.attempt) as u64),
        Phase::Ready => a is Ready,
        Phase::Failed => a matches Action::GiveUp(AppError::Internal(c)) && c@ == final_cause(s),
    }
}

impl Bootstrap {
    pub closed spec fn wf(&self) -> bool {
        &&& self.attempt <= MAX_RETRIES
        &&& (self.phase == Phase::Backoff ==> self.attempt >= 1)
        &&& (self.attempt >= 1 ==> self.last_cause is Some)
    }

    /// A fresh run, about to make attempt `0`.
    pub fn start() -> (r: Bootstrap)
        ensures
            r@ == initial_view(),
            r.wf(),
    {
        Bootstrap { attempt: 0, phase: Phase::Connecting, last_cause: None }
    }

    /// Parses the configured connection string and starts a run. A string
    /// that the parser refuses gives a run that has already failed with the
    /// parse error, before any attempt or sleep; otherwise the run is fresh and
    /// the options are handed out for its attempts.
    pub fn begin(cfg: &DbConfig) -> (r: (Bootstrap, Option<PgConnectOptions>))
        ensures
            r.0.wf(),
            r.1 is Some <==> pg_url_accepted(cfg.database_url@),
            r.1 is Some ==> r.0@ == initial_view(),
            r.1 is None ==> r.0@.last_cause is Some && r.0@ == refused_view(r.0@.last_cause->0)
                && is_parse_cause(r.0@.last_cause->0),
    {
        match connect_options(cfg) {
            Ok(opts) => (Bootstrap::start(), Some(opts)),
            Err(AppError::Internal(cause)) => (
                Bootstrap { attempt: 0, phase: Phase::Failed, last_cause: Some(cause) },
                None,
            ),
            // `connect_options` only fails with an internal error; this arm
            // keeps the match total.
            Err(other) => (
                Bootstrap { attempt: 0, phase: Phase::Failed, last_cause: Some(other.message()) },
                None,
            ),
        }
    }

    /// The attempt in progress, numbered from `0`.
    pub fn attempt(&self) -> (r: u32)
        ensures
            r as nat == self@.attempt,
    {
        self.attempt
    }

    pub fn phase(&self) -> (r: Phase)
        ensures
            r == self@.phase,
    {
        self.phase
    }

    /// What the driver has to do in the current state.
    pub fn action(&self) -> (a: Action)
        requires
            self.wf(),
        ensures
            action_fits(a, self@),
    {
        proof {
            reveal_with_fuel(pow2, 3);
            assert(backoff_ms(self.attempt as nat) <= 400);
        }
        match self.phase {
            Phase::Connecting => Action::Connect(self.attempt),
            Phase::Validating => Action::Validate(self.attempt),
            Phase::Backoff => Action::Sleep(backoff_delay(self.attempt)),
            Phase::Ready => Action::Ready,
            Phase::Failed => {
                let cause = match &self.last_cause {
                    Some(c) => c.clone(),
                    None => "exhausted pool connect retries".to_owned(),
                };
                Action::GiveUp(AppError::Internal(cause))
            },
        }
    }

    fn record_failure(&mut self, cause: String)
        requires
            old(self).wf(),
            old(self).phase == Phase::Connecting || old(self).phase == Phase::Validating,
        ensures
            final(self).wf(),
            final(self)@ == after_failure(old(self)@, cause@),
    {
        if self.attempt < MAX_RETRIES {
            self.attempt = self.attempt + 1;
            self.phase = Phase::Backoff;
        } else {
            self.phase = Phase::Failed;
        }
        self.last_cause = Some(cause);
    }

    /// Takes the driver's report, moves to the next state and returns what
    /// the driver has to do there.
    pub fn handle(&mut self, event: Event) -> (a: Action)
        requires
            old(self).wf(),
        ensures
            final(self).wf(),
            final(self)@ == next_view(old(self)@, event@),
            action_fits(a, final(self)@),
    {
        match (self.phase, event) {
            (Phase::Connecting, Event::Connected) => {
                self.phase = Phase::Validating;
            },
            (Phase::Connecting, Event::ConnectFailed(c)) => {
                self.record_failure(c);
            },
            (Phase::Validating, Event::Scalar(v)) => {
                if v == EXPECTED_SCALAR {
                    self.phase = Phase::Ready;
                } else {
                    let shown = decimal_text(v);
                    let cause = prefixed(
                        "validation query returned unexpected value: ",
                        shown.as_str(),
                    );
                    self.record_failure(cause);
                }
            },
            (Phase::Validating, Event::QueryFailed(c)) => {
                self.record_failure(c);
            },
            (Phase::Backoff, Event::Slept) => {
                self.phase = Phase::Connecting;
            },
            _ => {},
        }
        self.action()
    }
}

/// A run that is ready or has failed stays so, whatever is reported.
pub proof fn lemma_terminal_phases_absorb(s: BootstrapView, e: EventView)
    requires
        s.phase == Phase::Ready || s.phase == Phase::Failed,
    ensures
        next_view(s, e) == s,
{
}

/// A failed or wrong validation counts exactly as a failed connect: the run
/// moves on as it would had building the pool failed with that cause.
pub proof fn lemma_validation_failure_counts_as_connect_failure(
    s: BootstrapView,
    cause: Seq<char>,
    v: i32,
)
    requires
        s.phase == Phase::Validating,
        v != EXPECTED_SCALAR,
    ensures
        next_view(s, EventView::QueryFailed(cause)) == next_view(
            BootstrapView { phase: Phase::Connecting, ..s },
            EventView::ConnectFailed(cause),
        ),
        next_view(s, EventView::Scalar(v)) == next_view(
            BootstrapView { phase: Phase::Connecting, ..s },
            EventView::ConnectFailed(unexpected_value_text(v)),
        ),
{
}

/// A failure on the last attempt ends the run with that failure's cause;
/// one on an earlier attempt schedules the next attempt after its backoff.
pub proof fn lemma_failure_moves_on(s: BootstrapView, cause: Seq<char>)
    requires
        s.phase == Phase::Connecting,
        s.attempt <= MAX_RETRIES,
    ensures
        s.attempt == MAX_RETRIES ==> next_view(s, EventView::ConnectFailed(cause)).phase
            == Phase::Failed && final_cause(next_view(s, EventView::ConnectFailed(cause)))
            == cause,
        s.attempt < MAX_RETRIES ==> next_view(s, EventView::ConnectFailed(cause)) == (
        BootstrapView { attempt: s.attempt + 1, phase: Phase::Backoff, last_cause: Some(cause) }),
{
}

/// Attempts are counted up one at a time, never past `MAX_RETRIES`, and a new
/// attempt is only entered through a backoff whose delay is
/// `BASE_DELAY_MS * 2^(attempt - 1)`: a run makes at most `MAX_RETRIES + 1`
/// attempts and sleeps before each but the first.
pub proof fn lemma_attempts_bounded(s: BootstrapView, e: EventView)
    requires
        s.attempt <= MAX_RETRIES,
    ensures
        s.attempt <= next_view(s, e).attempt <= s.attempt + 1,
        next_view(s, e).attempt <= MAX_RETRIES,
        next_view(s, e).attempt == s.attempt + 1 ==> next_view(s, e).phase == Phase::Backoff,
        next_view(s, e).phase == Phase::Connecting && s.phase != Phase::Connecting ==> s.phase
            == Phase::Backoff && next_view(s, e).attempt == s.attempt,
{
}

/// A refused connection string never leads to a pool connect or a sleep:
/// whatever is reported afterwards, the run stays failed with the parse
/// error, and the only action it asks for is to give up.
pub proof fn lemma_refused_url_never_attempts(cause: Seq<char>, events: Seq<EventView>)
    ensures
        run(refused_view(cause), events) == refused_view(cause),
        forall|a: Action| #[trigger]
            action_fits(a, run(refused_view(cause), events)) ==> a is GiveUp,
    decreases events.len(),
{
    if events.len() > 0 {
        lemma_refused_url_never_attempts(cause, events.drop_first());
    }
}

} // verus!
