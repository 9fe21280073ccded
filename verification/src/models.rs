//! The records exchanged with the remote service, each with the
//! mathematical value that contracts speak of.

use vstd::prelude::*;
use crate::picker::PickableItem;
use crate::text::{decimal, decimal_text};
use crate::time::{Instant, Timestamp};

verus! {

/// The mathematical value of a [`TimeEntry`].
pub struct TimeEntryView {
    pub id: Option<i64>,
    pub project_id: Option<i64>,
    pub task_id: Option<i64>,
    pub billable: bool,
    pub start: Instant,
    pub stop: Option<Instant>,
    pub duration: int,
    pub description: Seq<char>,
    pub created_with: Option<Seq<char>>,
}

impl TimeEntryView {
    /// An entry is running exactly when it has no stop instant.
    pub open spec fn is_running(self) -> bool {
        self.stop is None
    }

    /// The duration convention of the remote service: a running entry holds
    /// the negated epoch seconds of its start, a stopped entry the whole
    /// seconds from start to stop, which are never negative.
    pub open spec fn consistent(self) -> bool {
        match self.stop {
            None => self.duration == -self.start.secs,
            Some(stop) => {
                &&& self.duration == crate::time::whole_seconds_between(self.start, stop)
                &&& self.duration >= 0
            },
        }
    }
}

/// One tracked work session.
#[derive(Debug, PartialEq, Eq)]
pub struct TimeEntry {
    /// Assigned by the remote service; absent until the entry is created.
    pub id: Option<i64>,
    pub project_id: Option<i64>,
    pub task_id: Option<i64>,
    pub billable: bool,
    pub start: Timestamp,
    /// Absent while the entry is running.
    pub stop: Option<Timestamp>,
    /// Seconds; see [`TimeEntryView::consistent`].
    pub duration: i64,
    pub description: String,
    /// The client that created the entry.
    pub created_with: Option<String>,
}

impl View for TimeEntry {
    type V = TimeEntryView;

    open spec fn view(&self) -> TimeEntryView {
        TimeEntryView {
            id: self.id,
            project_id: self.project_id,
            task_id: self.task_id,
            billable: self.billable,
            start: self.start@,
            stop: match self.stop {
                Some(t) => Some(t@),
                None => None,
            },
            duration: self.duration as int,
            description: self.description@,
            created_with: self.created_with.deep_view(),
        }
    }
}

impl DeepView for TimeEntry {
    type V = TimeEntryView;

    open spec fn deep_view(&self) -> TimeEntryView {
        self@
    }
}

impl Clone for TimeEntry {
    fn clone(&self) -> (copy: Self)
        ensures
            copy@ == self@,
    {
        let created_with = match &self.created_with {
            Some(name) => Some(name.clone()),
            None => None,
        };
        TimeEntry {
            id: self.id,
            project_id: self.project_id,
            task_id: self.task_id,
            billable: self.billable,
            start: self.start,
            stop: self.stop,
            duration: self.duration,
            description: self.description.clone(),
            created_with,
        }
    }
}

impl TimeEntry {
    /// Whether the entry is still running.
    pub fn is_running(&self) -> (running: bool)
        ensures
            running == self@.is_running(),
    {
        self.stop.is_none()
    }
}

/// The line that stands for an entry in a selector: its identifier, or a
/// dash while it has none, then a space and its description.
pub open spec fn entry_line(entry: TimeEntryView) -> Seq<char> {
    let identifier = match entry.id {
        Some(id) => decimal(id as int),
        None => seq!['-'],
    };
    identifier + seq![' '] + entry.description
}

impl PickableItem for TimeEntry {
    fn formatted(&self) -> (text: String)
        ensures
            text@ == entry_line(self@),
    {
        proof {
            reveal_strlit("-");
            reveal_strlit(" ");
        }
        let mut text = match self.id {
            Some(id) => decimal_text(id),
            None => String::from_str("-"),
        };
        assert(self.id is None ==> text@ =~= seq!['-']);
        text.append(" ");
        text.append(self.description.as_str());
        assert(text@ =~= entry_line(self@));
        text
    }
}

/// The mathematical value of a [`User`].
pub struct UserView {
    pub api_token: Seq<char>,
    pub email: Seq<char>,
    pub fullname: Option<Seq<char>>,
    pub timezone: Seq<char>,
    pub default_workspace_id: i64,
}

/// The authenticated account.
#[derive(Debug, PartialEq, Eq)]
pub struct User {
    pub api_token: String,
    pub email: String,
    pub fullname: Option<String>,
    pub timezone: String,
    pub default_workspace_id: i64,
}

impl View for User {
    type V = UserView;

    open spec fn view(&self) -> UserView {
        UserView {
            api_token: self.api_token@,
            email: self.email@,
            fullname: self.fullname.deep_view(),
            timezone: self.timezone@,
            default_workspace_id: self.default_workspace_id,
        }
    }
}

impl Clone for User {
    fn clone(&self) -> (copy: Self)
        ensures
            copy@ == self@,
    {
        let fullname = match &self.fullname {
            Some(name) => Some(name.clone()),
            None => None,
        };
        User {
            api_token: self.api_token.clone(),
            email: self.email.clone(),
            fullname,
            timezone: self.timezone.clone(),
            default_workspace_id: self.default_workspace_id,
        }
    }
}

} // verus!
