use watchfile::detector::{classify_notification, is_significant, Notification};
use watchfile::render::mark_cmrk;
use watchfile::supervisor::{Action, Input, Phase, Termination, WatchSupervisor, MAX_NOTIFY_FAILURES};

fn changed() -> Input {
    Input::Notified(Notification::Changed)
}

fn content(text: &str) -> Input {
    Input::Content(Some(text.to_string()))
}

/// Feeds one full change cycle: notification, metadata, and (when asked) content.
fn cycle(sup: &mut WatchSupervisor, modified: Option<u128>, text: &str) -> Vec<Action> {
    let mut acts = vec![sup.step(changed())];
    acts.push(sup.step(Input::Metadata(modified)));
    if acts[1] == Action::ReadContent {
        acts.push(sup.step(content(text)));
    }
    acts
}

fn sends(acts: &[Action]) -> Vec<String> {
    acts.iter()
        .filter_map(|a| match a {
            Action::Send { payload } => Some(payload.clone()),
            _ => None,
        })
        .collect()
}

#[test]
fn render_heading() {
    assert_eq!(mark_cmrk("# Hi"), "<h1>Hi</h1>\n");
}

#[test]
fn render_empty_is_empty() {
    assert_eq!(mark_cmrk(""), "");
}

#[test]
fn render_extensions() {
    assert!(mark_cmrk("~~gone~~").contains("<del>gone</del>"));
    assert!(mark_cmrk("| a | b |\n|---|---|\n| 1 | 2 |\n").contains("<table>"));
    assert!(mark_cmrk("- [x] done\n").contains("checkbox"));
}

#[test]
fn render_same_source_same_markup() {
    let t = "Some *text* with `code`\n\n> quote";
    let copy = String::from(t);
    assert_eq!(mark_cmrk(&copy), mark_cmrk(t));
}

#[test]
fn render_malformed_degrades() {
    let out = mark_cmrk("**unclosed [link](");
    assert!(out.starts_with("<p>"));
}

#[test]
fn classify_event_and_error() {
    let ev: Result<notify::Event, notify::Error> = Ok(notify::Event::new(notify::EventKind::Any));
    assert_eq!(classify_notification(&ev), Notification::Changed);
    let err: Result<notify::Event, notify::Error> = Err(notify::Error::generic("broken"));
    assert_eq!(classify_notification(&err), Notification::Failed);
}

#[test]
fn significance_rules() {
    assert!(!is_significant(None, Some(5)));
    assert!(!is_significant(None, None));
    assert!(is_significant(Some(0), None));
    assert!(is_significant(Some(6), Some(5)));
    assert!(!is_significant(Some(5), Some(5)));
    assert!(!is_significant(Some(4), Some(5)));
}

#[test]
fn new_supervisor_waits() {
    let sup = WatchSupervisor::new(Some(10));
    assert_eq!(sup.watermark, Some(10));
    assert_eq!(sup.failures, 0);
    assert_eq!(sup.phase, Phase::Waiting);
    assert!(!sup.is_terminated());
}

#[test]
fn absent_then_created_sends_one_heading() {
    let mut sup = WatchSupervisor::new(None);
    let mut all = cycle(&mut sup, None, "");
    assert_eq!(all, vec![Action::ReadMetadata, Action::AwaitNotification]);
    all.extend(cycle(&mut sup, Some(100), "# Hi"));
    assert_eq!(sup.phase, Phase::Sending { stamp: 100 });
    all.push(sup.step(Input::Delivered));
    all.extend(cycle(&mut sup, Some(100), "# Hi"));
    assert_eq!(sends(&all), vec!["<h1>Hi</h1>\n".to_string()]);
    assert_eq!(sup.watermark, Some(100));
}

#[test]
fn identical_rewrite_is_pushed_once() {
    let mut sup = WatchSupervisor::new(Some(50));
    let mut all = cycle(&mut sup, Some(60), "a");
    all.push(sup.step(Input::Delivered));
    assert_eq!(sends(&all), vec!["<p>a</p>\n".to_string()]);
    let again = cycle(&mut sup, Some(60), "a");
    assert_eq!(sends(&again), Vec::<String>::new());
}

#[test]
fn delete_then_recreate_resumes() {
    let mut sup = WatchSupervisor::new(Some(1));
    let mut all = cycle(&mut sup, None, "");
    all.extend(cycle(&mut sup, None, ""));
    assert_eq!(sup.phase, Phase::Waiting);
    all.extend(cycle(&mut sup, Some(2), "back"));
    all.push(sup.step(Input::Delivered));
    assert_eq!(sends(&all), vec!["<p>back</p>\n".to_string()]);
    assert!(!sup.is_terminated());
}

#[test]
fn unchanged_timestamp_sends_nothing() {
    let mut sup = WatchSupervisor::new(Some(7));
    let mut all = Vec::new();
    for _ in 0..5 {
        all.extend(cycle(&mut sup, Some(7), "x"));
        all.extend(cycle(&mut sup, Some(3), "x"));
    }
    assert!(sends(&all).is_empty());
    assert_eq!(sup.watermark, Some(7));
}

#[test]
fn rapid_edits_coalesce() {
    let mut sup = WatchSupervisor::new(Some(0));
    // three writes happened at 1, 2, 3 while the loop was busy; it reads the latest
    let mut all = cycle(&mut sup, Some(3), "third");
    all.push(sup.step(Input::Delivered));
    // the queued notifications for the older writes find nothing new
    all.extend(cycle(&mut sup, Some(3), "third"));
    all.extend(cycle(&mut sup, Some(3), "third"));
    assert_eq!(sends(&all), vec!["<p>third</p>\n".to_string()]);
}

#[test]
fn empty_content_is_not_sent() {
    let mut sup = WatchSupervisor::new(Some(0));
    let acts = cycle(&mut sup, Some(4), "");
    assert_eq!(acts.last(), Some(&Action::AwaitNotification));
    assert_eq!(sup.watermark, Some(0));
    let acts = cycle(&mut sup, Some(4), "full");
    assert_eq!(sends(&acts), vec!["<p>full</p>\n".to_string()]);
}

#[test]
fn failed_read_retries_later() {
    let mut sup = WatchSupervisor::new(Some(0));
    sup.step(changed());
    assert_eq!(sup.step(Input::Metadata(Some(9))), Action::ReadContent);
    assert_eq!(sup.step(Input::Content(None)), Action::AwaitNotification);
    assert_eq!(sup.watermark, Some(0));
    let acts = cycle(&mut sup, Some(9), "ok");
    assert_eq!(sends(&acts), vec!["<p>ok</p>\n".to_string()]);
}

#[test]
fn peer_closed_terminates() {
    let mut sup = WatchSupervisor::new(None);
    let acts = cycle(&mut sup, Some(1), "hello");
    assert_eq!(sends(&acts).len(), 1);
    let stop = Action::Stop { reason: Termination::PeerClosed };
    assert_eq!(sup.step(Input::PeerClosed), stop);
    assert!(sup.is_terminated());
    assert_eq!(sup.step(changed()), stop);
    assert_eq!(sup.step(Input::Metadata(Some(2))), stop);
}

#[test]
fn stream_end_terminates() {
    let mut sup = WatchSupervisor::new(None);
    assert_eq!(
        sup.step(Input::NotificationsEnded),
        Action::Stop { reason: Termination::NotificationsEnded }
    );
    assert!(sup.is_terminated());
}

#[test]
fn repeated_errors_terminate() {
    let mut sup = WatchSupervisor::new(None);
    let failed = Input::Notified(Notification::Failed);
    for _ in 1..MAX_NOTIFY_FAILURES {
        assert_eq!(sup.step(failed.clone()), Action::AwaitNotification);
    }
    assert_eq!(
        sup.step(failed),
        Action::Stop { reason: Termination::NotificationSourceFailed }
    );
}

#[test]
fn good_event_resets_error_count() {
    let mut sup = WatchSupervisor::new(None);
    let failed = Input::Notified(Notification::Failed);
    for _ in 1..MAX_NOTIFY_FAILURES {
        sup.step(failed.clone());
    }
    cycle(&mut sup, None, "");
    assert_eq!(sup.failures, 0);
    assert_eq!(sup.step(failed), Action::AwaitNotification);
}

#[test]
fn accepts_matches_phase() {
    let mut sup = WatchSupervisor::new(None);
    assert!(sup.accepts(&changed()));
    assert!(!sup.accepts(&Input::Delivered));
    sup.step(changed());
    assert!(sup.accepts(&Input::Metadata(None)));
    assert!(!sup.accepts(&content("x")));
    sup.step(Input::Metadata(Some(1)));
    assert!(sup.accepts(&content("x")));
    sup.step(content("x"));
    assert!(sup.accepts(&Input::PeerClosed));
    assert!(!sup.accepts(&changed()));
}
