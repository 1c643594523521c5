//! The application shell: loading the configuration, showing the
//! dashboard, or showing an error, with the transitions between them.
//! Reading the configuration file and drawing the window are the
//! caller's; [`ShellTask`] says what to do.

use vstd::prelude::*;
use crate::config::Config;
use crate::dashboard::{spec_dashboard_update, Dashboard, DashboardTask};
use crate::dashboard;
use crate::error::Error;
use crate::viewport::Viewport;
use vstd::string::StringExecFns;

verus! {

/// The application's state.
#[derive(Debug)]
pub enum PgParrot {
    /// The configuration is being read.
    Loading,
    /// The dashboard is up.
    Ready {
        /// The dashboard.
        dashboard: Dashboard,
    },
    /// Reading the configuration failed.
    Errored {
        /// What failed.
        error: Error,
    },
}

/// What the shell reacts to.
#[derive(Debug)]
pub enum Message {
    /// Reading the configuration came back.
    BuildConfig(Result<Config, Error>),
    /// Read the configuration again.
    Retry,
    /// A dashboard message.
    Dashboard(dashboard::Message),
    /// Close the application.
    Exit,
}

/// What the shell asks its caller to do.
#[derive(Debug)]
pub enum ShellTask {
    /// Nothing.
    Idle,
    /// Read the configuration file and report back with
    /// [`Message::BuildConfig`].
    LoadConfig,
    /// Close the window.
    CloseWindow,
    /// A task handed up from the dashboard.
    Dashboard(DashboardTask),
}

impl PgParrot {
    /// The subtitle shown in the window title.
    pub open spec fn spec_subtitle(self) -> Seq<char> {
        match self {
            PgParrot::Ready { dashboard } => match dashboard.viewport {
                Viewport::Loading { .. } => "Loading"@,
                _ => "Dashboard"@,
            },
            PgParrot::Errored { .. } => "Whoops!"@,
            PgParrot::Loading => "Loading"@,
        }
    }

    /// Starts the application: nothing shown yet, the configuration
    /// being read.
    pub fn new() -> (r: (PgParrot, ShellTask))
        ensures
            r.0 is Loading,
            r.1 is LoadConfig,
    {
        (PgParrot::Loading, ShellTask::LoadConfig)
    }

    /// The window title.
    pub fn title(&self) -> (r: String)
        ensures
            r@ == self.spec_subtitle() + " - PgParrot"@,
    {
        let subtitle: &str = match self {
            PgParrot::Ready { dashboard } => dashboard.title(),
            PgParrot::Errored { .. } => "Whoops!",
            _ => "Loading",
        };
        let mut r = subtitle.to_owned();
        r.append(" - PgParrot");
        r
    }

    /// Reacts to one message.
    ///
    /// A configuration coming back brings the dashboard up, or shows the
    /// error; a retry reads the file again; a dashboard message goes to
    /// the dashboard when it is up and is dropped otherwise.
    pub fn update(&mut self, message: Message) -> (t: ShellTask)
        requires
            match (*old(self), message) {
                (PgParrot::Ready { dashboard }, Message::Dashboard(
                    dashboard::Message::Connect(id),
                )) => dashboard.config.spec_has_id(id),
                _ => true,
            },
        ensures
            match message {
                Message::Exit => t is CloseWindow && *final(self) == *old(self),
                Message::Retry => t is LoadConfig && *final(self) == *old(self),
                Message::BuildConfig(outcome) => t is Idle && match outcome {
                    Ok(config) => (*final(self)) matches PgParrot::Ready { dashboard } && {
                        &&& dashboard.config == config
                        &&& !dashboard.sidebar.spec_hidden()
                        &&& dashboard.viewport matches Viewport::Default(s) && s@
                            == "Select a connection"@
                        &&& dashboard.connections_state@ == Map::<u8, bool>::new(
                            |k: u8| config.spec_has_id(k),
                            |k: u8| false,
                        )
                    },
                    Err(error) => (*final(self)) matches PgParrot::Errored { error: e } && e
                        == error,
                },
                Message::Dashboard(m) => match *old(self) {
                    PgParrot::Ready { dashboard: d0 } => {
                        &&& (*final(self)) matches PgParrot::Ready { dashboard: d1 }
                        &&& t matches ShellTask::Dashboard(dt)
                        &&& spec_dashboard_update(
                            d0,
                            m,
                            final(self)->Ready_dashboard,
                            dt,
                        )
                    },
                    _ => t is Idle && *final(self) == *old(self),
                },
            },
    {
        match message {
            Message::Exit => ShellTask::CloseWindow,
            Message::Retry => ShellTask::LoadConfig,
            Message::BuildConfig(outcome) => {
                match outcome {
                    Ok(config) => {
                        *self = PgParrot::Ready { dashboard: Dashboard::new(config) };
                    },
                    Err(error) => {
                        *self = PgParrot::Errored { error };
                    },
                }
                ShellTask::Idle
            },
            Message::Dashboard(m) => {
                match self {
                    PgParrot::Ready { dashboard } => {
                        let dt = dashboard.update(m);
                        ShellTask::Dashboard(dt)
                    },
                    _ => ShellTask::Idle,
                }
            },
        }
    }
}

} // verus!
