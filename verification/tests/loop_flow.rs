use nightly_watch::check::update;
use nightly_watch::check::Updated;
use nightly_watch::errors::CheckError;
use nightly_watch::errors::NotifyError;
use nightly_watch::errors::ProbeError;
use nightly_watch::notify::notify_message;
use nightly_watch::probe::get_rustc_version;
use nightly_watch::watch::Action;
use nightly_watch::watch::Event;
use nightly_watch::watch::Phase;
use nightly_watch::watch::WatchLoop;

fn is_check(a: &Option<Action>) -> bool {
    matches!(a, Some(Action::Check))
}

fn is_probe(a: &Option<Action>) -> bool {
    matches!(a, Some(Action::Probe))
}

fn is_sleep(a: &Option<Action>) -> bool {
    matches!(a, Some(Action::Sleep))
}

fn notify_payload(a: Option<Action>) -> Option<String> {
    match a {
        Some(Action::Notify(m)) => Some(m),
        _ => None,
    }
}

#[test]
fn successful_change_notifies_exactly_once() {
    let mut w = WatchLoop::new(Some("2024-04-30".to_string()));
    let mut notifications: usize = 0;

    let d = w.step(Event::Tick);
    assert!(is_check(&d.action));
    assert!(d.log.is_none());

    let outcome = update("info: component 'nightly' is up to date");
    assert_eq!(outcome, Updated::Yes);
    let d = w.step(Event::Checked(Ok(outcome)));
    assert!(is_probe(&d.action));

    let v = get_rustc_version("rustc 1.80.0-nightly (abcdef123 2024-05-01)").unwrap();
    let d = w.step(Event::Probed(Ok(v)));
    let msg = notify_payload(d.action).expect("a notification must be requested");
    notifications += 1;
    assert_eq!(msg, notify_message("2024-05-01"));
    assert!(d.log.is_none());

    let d = w.step(Event::Notified(Ok(())));
    assert!(is_sleep(&d.action));
    assert_eq!(d.log.as_deref(), Some("New update posted"));
    assert_eq!(w.last_version.as_deref(), Some("2024-05-01"));

    let d = w.step(Event::Woke);
    assert!(d.action.is_none());
    assert_eq!(w.phase, Phase::Idle);
    assert_eq!(notifications, 1);
}

#[test]
fn unchanged_tick_sleeps_and_logs_last_version() {
    let mut w = WatchLoop::new(Some("2024-04-30".to_string()));

    let d = w.step(Event::Tick);
    assert!(is_check(&d.action));

    let outcome = update("info: component 'nightly' is unchanged");
    assert_eq!(outcome, Updated::No);
    let d = w.step(Event::Checked(Ok(outcome)));
    assert!(is_sleep(&d.action));
    assert_eq!(d.log.as_deref(), Some("No update for 2024-04-30"));
    assert_eq!(w.phase, Phase::Sleeping);
    assert_eq!(w.last_version.as_deref(), Some("2024-04-30"));
}

#[test]
fn failed_probe_never_notifies() {
    let mut w = WatchLoop::new(Some("2024-04-30".to_string()));

    let d = w.step(Event::Tick);
    assert!(is_check(&d.action));
    let d = w.step(Event::Checked(Ok(Updated::Yes)));
    assert!(is_probe(&d.action));

    let probed = get_rustc_version("rustc 1.80.0-stable");
    let err = probed.expect_err("no qualifying field in this output");
    let d = w.step(Event::Probed(Err(err)));
    assert!(is_sleep(&d.action));
    assert_eq!(d.log, Some(ProbeError::NoMatch.message()));
    assert_eq!(w.phase, Phase::Sleeping);
    assert_eq!(w.last_version.as_deref(), Some("2024-04-30"));
}

#[test]
fn rejected_credentials_do_not_stop_the_loop() {
    let mut w = WatchLoop::new(None);

    let d = w.step(Event::Tick);
    assert!(is_check(&d.action));
    let d = w.step(Event::Checked(Ok(Updated::Yes)));
    assert!(is_probe(&d.action));
    let d = w.step(Event::Probed(Ok("2024-05-01".to_string())));
    assert!(notify_payload(d.action).is_some());

    let d = w.step(Event::Notified(Err(NotifyError::Auth)));
    assert!(is_sleep(&d.action));
    assert_eq!(d.log, Some(NotifyError::Auth.message()));
    // The change was missed: nothing was recorded.
    assert_eq!(w.last_version, None);

    // The next tick still runs after the pause.
    let d = w.step(Event::Woke);
    assert!(d.action.is_none());
    assert_eq!(w.phase, Phase::Idle);
    let d = w.step(Event::Tick);
    assert!(is_check(&d.action));
}

#[test]
fn failed_check_abandons_the_tick() {
    let mut w = WatchLoop::new(Some("2024-04-30".to_string()));

    let d = w.step(Event::Tick);
    assert!(is_check(&d.action));
    let d = w.step(Event::Checked(Err(CheckError::Subprocess)));
    assert!(is_sleep(&d.action));
    assert_eq!(d.log, Some(CheckError::Subprocess.message()));
    assert_eq!(w.last_version.as_deref(), Some("2024-04-30"));

    let d = w.step(Event::Woke);
    assert!(d.action.is_none());
    assert_eq!(w.phase, Phase::Idle);
}

#[test]
fn quiet_tick_without_initial_reading() {
    let mut w = WatchLoop::new(None);

    let _ = w.step(Event::Tick);
    let d = w.step(Event::Checked(Ok(Updated::No)));
    assert!(is_sleep(&d.action));
    assert_eq!(d.log.as_deref(), Some("No update; no version has been observed yet"));
}
