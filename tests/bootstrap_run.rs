use backend_core::bootstrap::{
    backoff_delay, connect_options, options_or_error, parse_failure_cause, Action, Bootstrap,
    Event, Phase, MAX_RETRIES,
};
use backend_core::config::DbConfig;
use backend_core::errors::AppError;

/// Outcome of one attempt, as a scripted datastore gives it.
enum Attempt {
    ConnectFails(&'static str),
    Returns(i32),
    QueryFails(&'static str),
}

struct Trace {
    connects: u32,
    validations: u32,
    sleeps: Vec<u64>,
    result: Result<(), AppError>,
}

/// Runs the protocol against a script of attempt outcomes, recording what the
/// driver was asked to do.
fn drive(script: &[Attempt]) -> Trace {
    let mut machine = Bootstrap::start();
    let mut action = machine.action();
    let mut trace = Trace { connects: 0, validations: 0, sleeps: Vec::new(), result: Ok(()) };
    loop {
        let event = match action {
            Action::Connect(n) => {
                assert_eq!(n, trace.connects);
                trace.connects += 1;
                match &script[n as usize] {
                    Attempt::ConnectFails(c) => Event::ConnectFailed(c.to_string()),
                    _ => Event::Connected,
                }
            }
            Action::Validate(n) => {
                trace.validations += 1;
                match &script[n as usize] {
                    Attempt::Returns(v) => Event::Scalar(*v),
                    Attempt::QueryFails(c) => Event::QueryFailed(c.to_string()),
                    Attempt::ConnectFails(_) => panic!("validation after a failed connect"),
                }
            }
            Action::Sleep(ms) => {
                trace.sleeps.push(ms);
                Event::Slept
            }
            Action::Ready => {
                trace.result = Ok(());
                return trace;
            }
            Action::GiveUp(e) => {
                trace.result = Err(e);
                return trace;
            }
        };
        action = machine.handle(event);
    }
}

fn internal_cause(r: &Result<(), AppError>) -> String {
    match r {
        Err(AppError::Internal(c)) => c.clone(),
        _ => panic!("expected an internal error"),
    }
}

#[test]
fn malformed_url_fails_without_attempts() {
    let cfg = DbConfig::with_url("not a url at all".to_string());
    match connect_options(&cfg) {
        Err(AppError::Internal(c)) => {
            assert!(c.starts_with("parsing DATABASE_URL into PgConnectOptions: "));
            assert!(c.len() > "parsing DATABASE_URL into PgConnectOptions: ".len());
        }
        _ => panic!("a malformed connection string must be refused"),
    }
}

#[test]
fn refused_url_run_gives_up_before_any_attempt() {
    let cfg = DbConfig::with_url("not a url at all".to_string());
    let (mut machine, opts) = Bootstrap::begin(&cfg);
    assert!(opts.is_none());
    assert_eq!(machine.phase(), Phase::Failed);
    assert_eq!(machine.attempt(), 0);
    let mut connects = 0;
    let mut sleeps = 0;
    let mut action = machine.action();
    for event in [Event::Connected, Event::Slept, Event::ConnectFailed("x".to_string())] {
        match &action {
            Action::Connect(_) => connects += 1,
            Action::Sleep(_) => sleeps += 1,
            Action::GiveUp(AppError::Internal(c)) => {
                assert!(c.starts_with("parsing DATABASE_URL into PgConnectOptions: "))
            }
            _ => panic!("a refused string must only give up"),
        }
        action = machine.handle(event);
    }
    assert_eq!(connects, 0);
    assert_eq!(sleeps, 0);
}

#[test]
fn accepted_url_run_starts_with_first_attempt() {
    let cfg = DbConfig::with_url("postgres://user:pw@localhost:5432/app".to_string());
    let (machine, opts) = Bootstrap::begin(&cfg);
    assert!(opts.is_some());
    assert!(matches!(machine.action(), Action::Connect(0)));
    assert_eq!(machine.phase(), Phase::Connecting);
}

#[test]
fn parse_cause_keeps_parser_detail() {
    assert_eq!(
        parse_failure_cause("relative URL without a base"),
        "parsing DATABASE_URL into PgConnectOptions: relative URL without a base"
    );
}

#[test]
fn well_formed_url_parses() {
    let cfg = DbConfig::with_url("postgres://user:pw@localhost:5432/app".to_string());
    assert!(connect_options(&cfg).is_ok());
}

#[test]
fn success_on_last_attempt_after_three_backoffs() {
    let trace = drive(&[
        Attempt::ConnectFails("refused 0"),
        Attempt::ConnectFails("refused 1"),
        Attempt::ConnectFails("refused 2"),
        Attempt::Returns(1),
    ]);
    assert!(trace.result.is_ok());
    assert_eq!(trace.connects, 4);
    assert_eq!(trace.validations, 1);
    assert_eq!(trace.sleeps, vec![100, 200, 400]);
    assert_eq!(trace.sleeps.iter().sum::<u64>(), 700);
}

#[test]
fn persistent_connect_failure_exhausts_attempts() {
    let trace = drive(&[
        Attempt::ConnectFails("refused 0"),
        Attempt::ConnectFails("refused 1"),
        Attempt::ConnectFails("refused 2"),
        Attempt::ConnectFails("refused 3"),
    ]);
    assert_eq!(internal_cause(&trace.result), "refused 3");
    assert_eq!(trace.connects, 4);
    assert_eq!(trace.sleeps.len(), 3);
    assert_eq!(trace.validations, 0);
}

#[test]
fn unexpected_scalar_exhausts_attempts() {
    let trace = drive(&[
        Attempt::Returns(2),
        Attempt::Returns(2),
        Attempt::Returns(0),
        Attempt::Returns(-17),
    ]);
    assert_eq!(
        internal_cause(&trace.result),
        "validation query returned unexpected value: -17"
    );
    assert_eq!(trace.connects, 4);
    assert_eq!(trace.validations, 4);
    assert_eq!(trace.sleeps, vec![100, 200, 400]);
}

#[test]
fn failed_validation_query_is_retried() {
    let trace = drive(&[Attempt::QueryFails("syntax error"), Attempt::Returns(1)]);
    assert!(trace.result.is_ok());
    assert_eq!(trace.connects, 2);
    assert_eq!(trace.sleeps, vec![100]);
}

#[test]
fn first_attempt_success_needs_no_sleep() {
    let trace = drive(&[Attempt::Returns(1)]);
    assert!(trace.result.is_ok());
    assert_eq!(trace.connects, 1);
    assert!(trace.sleeps.is_empty());
}

#[test]
fn backoff_doubles_from_base() {
    assert_eq!(backoff_delay(0), 0);
    assert_eq!(backoff_delay(1), 100);
    assert_eq!(backoff_delay(2), 200);
    assert_eq!(backoff_delay(MAX_RETRIES), 400);
    assert_eq!(backoff_delay(4), 800);
    assert_eq!(backoff_delay(58), 100 << 57);
    assert_eq!(backoff_delay(59), u64::MAX);
    assert_eq!(backoff_delay(200), u64::MAX);
}

#[test]
fn out_of_order_events_are_ignored() {
    let mut machine = Bootstrap::start();
    let a = machine.handle(Event::Slept);
    assert!(matches!(a, Action::Connect(0)));
    let a = machine.handle(Event::Connected);
    assert!(matches!(a, Action::Validate(0)));
    let a = machine.handle(Event::Connected);
    assert!(matches!(a, Action::Validate(0)));
    let a = machine.handle(Event::Scalar(1));
    assert!(matches!(a, Action::Ready));
    assert_eq!(machine.phase(), Phase::Ready);
    let a = machine.handle(Event::ConnectFailed("late".to_string()));
    assert!(matches!(a, Action::Ready));
    assert_eq!(machine.attempt(), 0);
}

#[test]
fn parser_error_becomes_terminal_internal_error() {
    let refused = options_or_error(Err(sqlx::Error::Protocol("bad".to_string())));
    match refused {
        Err(AppError::Internal(c)) => {
            assert!(c.starts_with("parsing DATABASE_URL into PgConnectOptions: "));
            assert!(c.ends_with("bad"));
        }
        _ => panic!("a parser error must be reported"),
    }
    let opts = sqlx::postgres::PgConnectOptions::new_without_pgpass().database("app");
    let kept = options_or_error(Ok(opts)).ok().unwrap();
    assert_eq!(kept.get_database(), Some("app"));
}
