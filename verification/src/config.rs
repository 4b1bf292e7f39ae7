//! The settings of the agent: how often the queue is processed, how a merge
//! commit is worded, and which actions are announced.

use vstd::prelude::*;
use vstd::string::StringExecFns;

verus! {

/// Where the settings of the user with this home directory are kept.
pub open spec fn path_under(home: Seq<char>) -> Seq<char> {
    home + "/.config/rusty-merge/config.yml"@
}

/// Where the settings of the user with this home directory are kept.
pub fn config_path(home: &str) -> (path: String)
    ensures
        path@ == path_under(home@),
{
    let mut path = home.to_owned();
    path.append("/.config/rusty-merge/config.yml");
    path
}

/// A copy of an optional text.
pub fn clone_text(text: &Option<String>) -> (out: Option<String>)
    ensures
        out == *text,
{
    match text {
        Some(t) => Some(t.clone()),
        None => None,
    }
}

#[derive(Debug)]
pub struct Configuration {
    pub queue: Queue,
    pub merger: Merger,
    pub notifier: Notifier,
}

/// How many pull requests the queue is meant for, and how often it is processed.
#[derive(Debug, Clone, Copy)]
pub struct Queue {
    pub limit: u32,
    pub interval_in_minutes: u32,
}

/// Title and message of a merge commit, where they replace the remote's own.
#[derive(Debug, PartialEq)]
pub struct Merger {
    pub title: Option<String>,
    pub message: Option<String>,
}

/// Where pull requests come from.
pub struct Source {
    pub kind: String,
}

/// The announcement of each action that has one.
#[derive(Debug, PartialEq)]
pub struct Notifier {
    pub pop: Option<Notification>,
    pub merge: Option<Notification>,
    pub update: Option<Notification>,
}

/// How one action is announced.
#[derive(Debug, PartialEq)]
pub struct Notification {
    pub enabled: bool,
    pub title: String,
    pub message: Option<String>,
    pub icon: Option<String>,
}

impl Clone for Notification {
    fn clone(&self) -> (out: Self)
        ensures
            out == *self,
    {
        Notification {
            enabled: self.enabled,
            title: self.title.clone(),
            message: clone_text(&self.message),
            icon: clone_text(&self.icon),
        }
    }
}

/// A copy of an optional announcement.
pub fn clone_notification(notification: &Option<Notification>) -> (out: Option<Notification>)
    ensures
        out == *notification,
{
    match notification {
        Some(n) => Some(n.clone()),
        None => None,
    }
}

impl Clone for Merger {
    fn clone(&self) -> (out: Self)
        ensures
            out == *self,
    {
        Merger { title: clone_text(&self.title), message: clone_text(&self.message) }
    }
}

impl Clone for Notifier {
    fn clone(&self) -> (out: Self)
        ensures
            out == *self,
    {
        Notifier {
            pop: clone_notification(&self.pop),
            merge: clone_notification(&self.merge),
            update: clone_notification(&self.update),
        }
    }
}

impl Clone for Configuration {
    fn clone(&self) -> (out: Self)
        ensures
            out == *self,
    {
        Configuration {
            queue: Queue {
                limit: self.queue.limit,
                interval_in_minutes: self.queue.interval_in_minutes,
            },
            merger: self.merger.clone(),
            notifier: self.notifier.clone(),
        }
    }
}

impl Default for Queue {
    /// Ten pull requests, processed every five minutes.
    fn default() -> (out: Self)
        ensures
            out.limit == 10,
            out.interval_in_minutes == 5,
    {
        Queue { limit: 10, interval_in_minutes: 5 }
    }
}

impl Default for Merger {
    /// The remote's own title and message.
    fn default() -> (out: Self)
        ensures
            out.title is None,
            out.message is None,
    {
        Merger { title: None, message: None }
    }
}

impl Notifier {
    /// Only merges are announced, under an empty title, with the standard
    /// message and no icon.
    pub open spec fn is_initial(&self) -> bool {
        &&& self.pop is None
        &&& self.update is None
        &&& self.merge matches Some(n) && n.enabled && n.title@.len() == 0 && n.message is None
            && n.icon is None
    }
}

impl Default for Notifier {
    fn default() -> (out: Self)
        ensures
            out.is_initial(),
    {
        Notifier {
            pop: None,
            merge: Some(
                Notification { enabled: true, title: String::new(), message: None, icon: None },
            ),
            update: None,
        }
    }
}

impl Default for Configuration {
    fn default() -> (out: Self)
        ensures
            out.queue.limit == 10,
            out.queue.interval_in_minutes == 5,
            out.merger.title is None,
            out.merger.message is None,
            out.notifier.is_initial(),
    {
        Configuration {
            queue: Queue::default(),
            merger: Merger::default(),
            notifier: Notifier::default(),
        }
    }
}

} // verus!
