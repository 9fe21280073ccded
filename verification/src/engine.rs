//! Time-entry transitions: starting, stopping and continuing.
//!
//! Each transition exists twice: once at a given instant, with an exact
//! contract, and once reading the clock itself.

use vstd::prelude::*;
use crate::error::EngineError;
use crate::models::{TimeEntry, TimeEntryView};
use crate::time::{utc_now, whole_seconds_between, Instant, Timestamp};

verus! {

/// The name under which this client signs the entries it creates.
pub const CLIENT_NAME: &'static str = "github.com/heytherewill/toggl-cli";

/// The entry to create when `template` is started at `now`: a running entry
/// without identifier that keeps the template's project, task, billable flag
/// and description.
pub open spec fn started(template: TimeEntryView, now: Instant) -> TimeEntryView {
    TimeEntryView {
        id: None,
        start: now,
        stop: None,
        duration: -now.secs,
        created_with: Some(CLIENT_NAME@),
        ..template
    }
}

/// The template of an entry of which only the description is known: no
/// project, no task, not billable. Nothing leads from the name of a project
/// to its reference, so the project stays absent.
pub open spec fn described(description: Seq<char>, now: Instant) -> TimeEntryView {
    TimeEntryView {
        id: None,
        project_id: None,
        task_id: None,
        billable: false,
        start: now,
        stop: None,
        duration: -now.secs,
        description,
        created_with: None,
    }
}

/// The outcome of stopping `entry` at `now`: the entry with its stop instant
/// and elapsed whole seconds, unless it was stopped before or `now` lies a
/// second or more before its start.
pub open spec fn stopped(entry: TimeEntryView, now: Instant) -> Result<TimeEntryView, EngineError> {
    let elapsed = whole_seconds_between(entry.start, now);
    if entry.stop is Some || elapsed < 0 {
        Err(EngineError::InvalidState)
    } else {
        Ok(TimeEntryView { stop: Some(now), duration: elapsed, ..entry })
    }
}

/// The outcome of continuing the most recent of `candidates` at `now`.
pub open spec fn continued(candidates: Seq<TimeEntryView>, now: Instant) -> Result<
    TimeEntryView,
    EngineError,
> {
    if candidates.len() == 0 {
        Err(EngineError::NoEntries)
    } else {
        Ok(started(candidates[0], now))
    }
}

/// The mathematical value of a transition's outcome.
pub open spec fn outcome_view(outcome: Result<TimeEntry, EngineError>) -> Result<
    TimeEntryView,
    EngineError,
> {
    match outcome {
        Ok(entry) => Ok(entry@),
        Err(error) => Err(error),
    }
}

/// Starts `template` at `now`.
pub fn start_at(template: TimeEntry, now: Timestamp) -> (candidate: TimeEntry)
    ensures
        candidate@ == started(template@, now@),
{
    let secs = now.seconds();
    TimeEntry {
        id: None,
        project_id: template.project_id,
        task_id: template.task_id,
        billable: template.billable,
        start: now,
        stop: None,
        duration: -secs,
        description: template.description,
        created_with: Some(String::from_str(CLIENT_NAME)),
    }
}

/// Starts a new entry with `description` at `now`.
pub fn start_described_at(description: String, now: Timestamp) -> (candidate: TimeEntry)
    ensures
        candidate@ == started(described(description@, now@), now@),
{
    let secs = now.seconds();
    let template = TimeEntry {
        id: None,
        project_id: None,
        task_id: None,
        billable: false,
        start: now,
        stop: None,
        duration: -secs,
        description,
        created_with: None,
    };
    start_at(template, now)
}

/// Starts `template` at the current instant.
pub fn start(template: TimeEntry) -> (candidate: TimeEntry)
    ensures
        candidate@.start.valid(),
        candidate@ == started(template@, candidate@.start),
{
    start_at(template, utc_now())
}

/// Stops `entry` at `now`.
pub fn stop_at(entry: TimeEntry, now: Timestamp) -> (outcome: Result<TimeEntry, EngineError>)
    ensures
        outcome_view(outcome) == stopped(entry@, now@),
{
    if entry.stop.is_some() {
        return Err(EngineError::InvalidState);
    }
    let elapsed = entry.start.seconds_until(&now);
    if elapsed < 0 {
        return Err(EngineError::InvalidState);
    }
    Ok(
        TimeEntry {
            id: entry.id,
            project_id: entry.project_id,
            task_id: entry.task_id,
            billable: entry.billable,
            start: entry.start,
            stop: Some(now),
            duration: elapsed,
            description: entry.description,
            created_with: entry.created_with,
        },
    )
}

/// Stops `entry` at the current instant.
pub fn stop(entry: TimeEntry) -> (outcome: Result<TimeEntry, EngineError>)
    ensures
        exists|now: Instant| now.valid() && outcome_view(outcome) == #[trigger] stopped(entry@, now),
{
    let now = utc_now();
    let outcome = stop_at(entry, now);
    assert(outcome_view(outcome) == stopped(entry@, now@));
    outcome
}

/// Continues the most recent of `candidates`, which come most recent first,
/// at `now`.
pub fn continue_most_recent_at(candidates: &Vec<TimeEntry>, now: Timestamp) -> (outcome: Result<
    TimeEntry,
    EngineError,
>)
    ensures
        outcome_view(outcome) == continued(candidates.deep_view(), now@),
{
    if candidates.len() == 0 {
        Err(EngineError::NoEntries)
    } else {
        Ok(start_at(candidates[0].clone(), now))
    }
}

/// Continues the most recent of `candidates` at the current instant.
pub fn continue_most_recent(candidates: &Vec<TimeEntry>) -> (outcome: Result<
    TimeEntry,
    EngineError,
>)
    ensures
        exists|now: Instant|
            now.valid() && outcome_view(outcome) == #[trigger] continued(
                candidates.deep_view(),
                now,
            ),
{
    let now = utc_now();
    let outcome = continue_most_recent_at(candidates, now);
    assert(outcome_view(outcome) == continued(candidates.deep_view(), now@));
    outcome
}

/// A template started at any valid instant is a running entry that does not
/// exist remotely yet, carries the negated epoch seconds of its start as
/// duration, is signed with [`CLIENT_NAME`] and keeps what the template says
/// of project, task, billing and description.
pub proof fn law_start_yields_running_candidate(template: TimeEntryView, now: Instant)
    requires
        now.valid(),
    ensures
        started(template, now).is_running(),
        started(template, now).id is None,
        started(template, now).start == now,
        started(template, now).duration == -now.secs,
        started(template, now).created_with == Some(CLIENT_NAME@),
        started(template, now).consistent(),
        started(template, now).project_id == template.project_id,
        started(template, now).task_id == template.task_id,
        started(template, now).billable == template.billable,
        started(template, now).description == template.description,
{
}

/// Stopping a running entry at an instant that is not a second or more
/// before its start succeeds: the entry stops at that instant, its duration
/// is the whole seconds elapsed since its start, which are not negative, and
/// nothing else about it changes.
pub proof fn law_stop_running_entry(entry: TimeEntryView, now: Instant)
    requires
        entry.is_running(),
        entry.start.valid(),
        now.valid(),
        now.total_nanos() - entry.start.total_nanos() > -1_000_000_000,
    ensures
        stopped(entry, now) == Ok::<TimeEntryView, EngineError>(
            TimeEntryView {
                stop: Some(now),
                duration: whole_seconds_between(entry.start, now),
                ..entry
            },
        ),
        stopped(entry, now).unwrap().duration >= 0,
        stopped(entry, now).unwrap().consistent(),
        !stopped(entry, now).unwrap().is_running(),
{
}

/// A stop fails exactly on an entry that was stopped before and on an
/// instant a second or more before the entry's start, and a stop that
/// succeeds never yields a running entry or a negative duration.
pub proof fn law_stop_outcomes(entry: TimeEntryView, now: Instant)
    requires
        entry.start.valid(),
        now.valid(),
    ensures
        stopped(entry, now) is Err <==> (!entry.is_running() || now.total_nanos()
            - entry.start.total_nanos() <= -1_000_000_000),
        stopped(entry, now) matches Err(error) ==> error == EngineError::InvalidState,
        stopped(entry, now) matches Ok(after) ==> after.consistent() && !after.is_running()
            && after.id == entry.id,
{
}

/// Continuing fails for want of entries exactly when there are none, and
/// otherwise is the start of the first, most recent, candidate.
pub proof fn law_continue_is_start_of_first(candidates: Seq<TimeEntryView>, now: Instant)
    requires
        now.valid(),
    ensures
        candidates.len() == 0 ==> continued(candidates, now) == Err::<TimeEntryView, EngineError>(
            EngineError::NoEntries,
        ),
        candidates.len() > 0 ==> continued(candidates, now) == Ok::<TimeEntryView, EngineError>(
            started(candidates[0], now),
        ),
{
}

} // verus!
