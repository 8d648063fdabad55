use vstd::prelude::*;

verus! {

/// The program's arguments: one subcommand.
#[derive(Debug, Clone)]
pub struct SDRMM {
    pub command: Commands,
}

/// The subcommands.
#[derive(Debug, Clone)]
pub enum Commands {
    /// Clears the session request tracker, clears the queue, and closes it.
    New,
    /// Adds a map to the queue after it passed the admission rules.
    Request {
        /// The map's key on BeatSaver.
        id: String,
        /// The user who requested the map.
        user: String,
        /// The service the user chatted from.
        service: Option<String>,
        /// Whether a moderator added the map.
        modadd: Option<bool>,
    },
    /// Adds a work-in-progress map.
    Wip { wip: String, user: String },
    /// Shows or changes the status of the queue.
    Queue { command: String },
    /// The queue's length, and where the user's requests are in it.
    GetQueue { user: String },
    /// Clears the queue.
    Clear,
    /// Moves a user's most recent request to the top of the queue.
    Top { user: String },
    /// Gives a request back to a user, where there is a session limit.
    Refund { user: String },
    /// Names the map that is playing.
    Link,
    /// Takes back a user's request: the named one, or the latest.
    Oops { user: String, id: Option<String> },
    /// Removes a map from the queue.
    Remove { id: String },
    /// Bans a map from being requested.
    Ban { id: String },
    /// Lifts a ban.
    Unban { id: String },
    /// The game's and the request manager's versions.
    Version,
}

} // verus!
