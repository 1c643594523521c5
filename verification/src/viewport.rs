//! The main viewport: idle, connecting, errored, or showing a session's
//! transcript with an input line.  Drawing is the caller's; this module
//! holds the state and its transitions.

use vstd::prelude::*;
use crate::dashboard;
use crate::error::Error;
use crate::session::Session;
use vstd::string::StringExecFns;

verus! {

/// What the viewport shows.
#[derive(Debug, PartialEq)]
pub enum Viewport {
    /// Nothing selected; the text shown.
    Default(String),
    /// A connection is being opened or closed.
    Loading {
        /// The database name shown.
        name: String,
        /// The dashboard message that started the wait.
        message: dashboard::Message,
    },
    /// Something failed.
    Errored {
        /// What failed.
        error: Error,
    },
    /// A live session.
    Ready {
        /// The input line.
        input: String,
        /// The session shown.
        session: Session,
    },
}

/// What the viewport asks its caller to do.
#[derive(Debug, PartialEq)]
pub enum ViewportTask {
    /// Nothing.
    Idle,
    /// Run the request/response cycle on this input and session.
    Exec {
        /// The text typed.
        input: String,
        /// The session to run against.
        session: Session,
    },
}

/// What the viewport reacts to.
#[derive(Debug, PartialEq)]
pub enum Message {
    /// The input line changed.
    InputChanged(String),
    /// The input line was submitted.
    Query,
    /// The request/response cycle came back.
    QueryComplete(Result<Session, Error>),
}

/// How [`Viewport::update`] turns the state `pre` and one message into
/// the state `post` and the task `t`.
pub open spec fn spec_update(pre: Viewport, message: Message, post: Viewport, t: ViewportTask) -> bool {
    match message {
        Message::InputChanged(input) => t == ViewportTask::Idle && match pre {
            Viewport::Ready { input: _, session } => post matches Viewport::Ready {
                input: ni,
                session: ns,
            } && ni == input && ns == session,
            _ => post == pre,
        },
        Message::Query => match pre {
            Viewport::Ready { input, session } => {
                &&& post == pre
                &&& t matches ViewportTask::Exec { input: ti, session: ts }
                &&& ti == input
                &&& ts.connection_id == session.connection_id
                &&& ts.has_db_client == session.has_db_client
                &&& ts.messages@ == session.messages@
            },
            _ => post == pre && t == ViewportTask::Idle,
        },
        Message::QueryComplete(outcome) => t == ViewportTask::Idle && match outcome {
            Ok(session) => post matches Viewport::Ready { input: ni, session: ns } && ni@
                == Seq::<char>::empty() && ns == session,
            Err(error) => post matches Viewport::Errored { error: e } && e == error,
        },
    }
}

impl Viewport {
    /// The idle viewport.
    pub fn default() -> (r: Self)
        ensures
            r matches Viewport::Default(s) && s@ == "Select a connection"@,
    {
        Viewport::Default(String::from_str("Select a connection"))
    }

    /// A viewport showing a fresh session, with an empty input line.
    pub fn new(session: Session) -> (r: Self)
        ensures
            r matches Viewport::Ready { input, session: s } && input@ == Seq::<char>::empty()
                && s == session,
    {
        Viewport::Ready { input: String::new(), session }
    }

    /// Reacts to one message.
    ///
    /// Typing edits the input line of a live session and is ignored
    /// otherwise; submitting asks the caller to run the cycle on a copy
    /// of the session; the cycle's outcome replaces the viewport with the
    /// new session or with the error.
    pub fn update(&mut self, message: Message) -> (t: ViewportTask)
        ensures
            spec_update(*old(self), message, *final(self), t),
    {
        match message {
            Message::InputChanged(input) => {
                match self {
                    Viewport::Ready { input: i, .. } => {
                        *i = input;
                    },
                    _ => {},
                }
                ViewportTask::Idle
            },
            Message::Query => {
                match self {
                    Viewport::Ready { input, session } => ViewportTask::Exec {
                        input: input.clone(),
                        session: session.clone(),
                    },
                    _ => ViewportTask::Idle,
                }
            },
            Message::QueryComplete(outcome) => {
                match outcome {
                    Ok(session) => {
                        *self = Viewport::new(session);
                    },
                    Err(error) => {
                        *self = Viewport::Errored { error };
                    },
                }
                ViewportTask::Idle
            },
        }
    }
}

} // verus!
