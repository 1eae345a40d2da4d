//! Change detection: which filesystem notifications are worth acting on.
use vstd::prelude::*;

verus! {

/// The notification type of the `notify` crate, carried through opaquely.
#[verifier::external_type_specification]
#[verifier::external_body]
pub struct ExNotifyEvent(notify::Event);

/// The error type of the `notify` crate, carried through opaquely.
#[verifier::external_type_specification]
#[verifier::external_body]
pub struct ExNotifyError(notify::Error);

/// What a raw notification tells the watch loop.
#[derive(Clone, Copy, Debug, PartialEq, Eq)]
pub enum Notification {
    /// Something happened to the watched path; its metadata is worth a look.
    Changed,
    /// The notification source reported an error.
    Failed,
}

/// A raw notification from the filesystem watcher, reduced to whether it
/// carried an event or an error. Which paths it names is not consulted:
/// only the watched file's timestamp decides what happens next.
pub fn classify_notification(res: &Result<notify::Event, notify::Error>) -> (r: Notification)
    ensures
        r == (if res is Ok { Notification::Changed } else { Notification::Failed }),
{
    match res {
        Ok(_) => Notification::Changed,
        Err(_) => Notification::Failed,
    }
}

/// `modified` is strictly later than the watermark; no watermark (the file
/// was absent when watching began) is earlier than every timestamp.
pub open spec fn newer_than(modified: u128, watermark: Option<u128>) -> bool {
    match watermark {
        Some(w) => w < modified,
        None => true,
    }
}

/// A look at the watched file is significant when the file exists and its
/// modification time has strictly advanced past the watermark.
pub open spec fn significant(modified: Option<u128>, watermark: Option<u128>) -> bool {
    match modified {
        Some(m) => newer_than(m, watermark),
        None => false,
    }
}

/// Decides whether the file's current modification time (`None`: the file
/// is absent) calls for reading it.
pub fn is_significant(modified: Option<u128>, watermark: Option<u128>) -> (r: bool)
    ensures
        r == significant(modified, watermark),
{
    match modified {
        Some(m) => match watermark {
            Some(w) => w < m,
            None => true,
        },
        None => false,
    }
}

} // verus!
