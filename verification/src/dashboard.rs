//! The dashboard: the sidebar, the viewport, the per-connection state
//! and the configuration, with the transitions between them.  Drawing
//! and the outside work (opening a session, running the cycle) are the
//! caller's; [`DashboardTask`] says what to do.

use vstd::prelude::*;
use std::collections::BTreeMap;
use crate::config::{spec_first_index, Config};
use crate::error::Error;
use crate::session::Session;
use crate::sidebar::Sidebar;
use crate::viewport::{spec_update, Viewport, ViewportTask};
use crate::viewport;

verus! {

/// The dashboard's state.
#[derive(Debug)]
pub struct Dashboard {
    /// The sidebar.
    pub sidebar: Sidebar,
    /// The viewport.
    pub viewport: Viewport,
    /// Which connection ids are connected.
    pub connections_state: BTreeMap<u8, bool>,
    /// The configuration shown.
    pub config: Config,
}

/// What the dashboard reacts to.
#[derive(Debug, PartialEq)]
pub enum Message {
    /// Open a session against this connection id.
    Connect(u8),
    /// Close this connection id's session.
    Disconnect(u8),
    /// Opening a session came back.
    Connected(Result<Session, Error>),
    /// A viewport message.
    Viewport(viewport::Message),
}

/// What the dashboard asks its caller to do.
#[derive(Debug, PartialEq)]
pub enum DashboardTask {
    /// Nothing.
    Idle,
    /// Open a session against this connection id and report back with
    /// [`Message::Connected`].
    StartSession {
        /// The connection id.
        id: u8,
    },
    /// Run the request/response cycle and report back with
    /// [`viewport::Message::QueryComplete`].
    Exec {
        /// The text typed.
        input: String,
        /// The session to run against.
        session: Session,
    },
}

/// How [`Dashboard::update`] turns the state `pre` and one message into
/// the state `post` and the task `t`.
pub open spec fn spec_dashboard_update(
    pre: Dashboard,
    message: Message,
    post: Dashboard,
    t: DashboardTask,
) -> bool {
    &&& post.sidebar == pre.sidebar
    &&& post.config == pre.config
    &&& match message {
        Message::Connect(id) => {
            &&& post.connections_state@ == Map::<u8, bool>::new(
                |k: u8| pre.config.spec_has_id(k),
                |k: u8| false,
            )
            &&& post.viewport matches Viewport::Loading { name, message: m } && name@
                == pre.config.spec_connections()[spec_first_index(
                pre.config.spec_connections(),
                id,
            )].database@ && m == Message::Connect(id)
            &&& t == (DashboardTask::StartSession { id })
        },
        Message::Disconnect(id) => {
            &&& post.connections_state@ == pre.connections_state@.insert(id, false)
            &&& post.viewport matches Viewport::Default(s) && s@ == "Select a connection"@
            &&& t == DashboardTask::Idle
        },
        Message::Connected(outcome) => match outcome {
            Ok(session) => {
                &&& post.connections_state@ == pre.connections_state@.insert(
                    session.connection_id,
                    true,
                )
                &&& post.viewport matches Viewport::Ready { input, session: s } && input@
                    == Seq::<char>::empty() && s == session
                &&& t == DashboardTask::Idle
            },
            Err(error) => {
                &&& post.connections_state@ == pre.connections_state@
                &&& post.viewport matches Viewport::Errored { error: e } && e == error
                &&& t == DashboardTask::Idle
            },
        },
        Message::Viewport(m) => {
            &&& post.connections_state@ == pre.connections_state@
            &&& match t {
                DashboardTask::Idle => spec_update(
                    pre.viewport,
                    m,
                    post.viewport,
                    ViewportTask::Idle,
                ),
                DashboardTask::Exec { input, session } => spec_update(
                    pre.viewport,
                    m,
                    post.viewport,
                    (ViewportTask::Exec { input, session }),
                ),
                _ => false,
            }
        },
    }
}

impl Dashboard {
    /// A fresh dashboard over `config`: visible sidebar, idle viewport,
    /// every connection marked disconnected.
    pub fn new(config: Config) -> (r: Self)
        ensures
            !r.sidebar.spec_hidden(),
            r.viewport matches Viewport::Default(s) && s@ == "Select a connection"@,
            r.connections_state@ == Map::<u8, bool>::new(|k: u8| config.spec_has_id(k), |k: u8| false),
            r.config == config,
    {
        let connections_state = config.default_state();
        Dashboard {
            sidebar: Sidebar::new(),
            viewport: Viewport::default(),
            connections_state,
            config,
        }
    }

    /// The window subtitle.
    pub fn title(&self) -> (r: &str)
        ensures
            match self.viewport {
                Viewport::Loading { .. } => r@ == "Loading"@,
                _ => r@ == "Dashboard"@,
            },
    {
        match &self.viewport {
            Viewport::Loading { .. } => "Loading",
            _ => "Dashboard",
        }
    }

    /// Reacts to one message.
    ///
    /// Connecting resets every connection mark, shows the wait and asks
    /// the caller to open the session; disconnecting clears the mark and
    /// the viewport; a session coming back marks its connection and shows
    /// it, or shows the error; everything else goes to the viewport.
    pub fn update(&mut self, message: Message) -> (t: DashboardTask)
        requires
            message matches Message::Connect(id) ==> old(self).config.spec_has_id(id),
        ensures
            spec_dashboard_update(*old(self), message, *final(self), t),
    {
        broadcast use vstd::laws_cmp::group_laws_cmp;
        broadcast use vstd::std_specs::btree::group_btree_axioms;

        match message {
            Message::Connect(id) => {
                self.connections_state = self.config.default_state();
                let connection = self.config.get_connection(id);
                let name = connection.database.clone();
                self.viewport = Viewport::Loading { name, message };
                DashboardTask::StartSession { id }
            },
            Message::Disconnect(id) => {
                self.connections_state.insert(id, false);
                self.viewport = Viewport::default();
                DashboardTask::Idle
            },
            Message::Connected(outcome) => {
                match outcome {
                    Ok(session) => {
                        self.connections_state.insert(session.connection_id, true);
                        self.viewport = Viewport::new(session);
                    },
                    Err(error) => {
                        self.viewport = Viewport::Errored { error };
                    },
                }
                DashboardTask::Idle
            },
            Message::Viewport(m) => {
                match self.viewport.update(m) {
                    ViewportTask::Idle => DashboardTask::Idle,
                    ViewportTask::Exec { input, session } => DashboardTask::Exec {
                        input,
                        session,
                    },
                }
            },
        }
    }
}

} // verus!
