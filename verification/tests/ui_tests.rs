use pgparrot::config::Config;
use pgparrot::dashboard::{Dashboard, DashboardTask};
use pgparrot::dashboard;
use pgparrot::error::Error;
use pgparrot::openai::{ChatMessage, Role};
use pgparrot::session::Session;
use pgparrot::shell::{Message, PgParrot, ShellTask};
use pgparrot::sidebar::Sidebar;
use pgparrot::value::Value;
use pgparrot::viewport::{Viewport, ViewportTask};
use pgparrot::viewport;

fn entry(key: &str, v: Value) -> (String, Value) {
    (String::from(key), v)
}

fn s(text: &str) -> Value {
    Value::Str(String::from(text))
}

fn sample_config() -> Config {
    let v = Value::Table(vec![
        entry(
            "connections",
            Value::Array(vec![
                Value::Table(vec![entry("url", s("postgres://u@h/orders"))]),
                Value::Table(vec![entry("url", s("postgres://u@h/billing"))]),
            ]),
        ),
        entry("openai", Value::Table(vec![entry("token", s("t"))])),
    ]);
    Config::from_value(&v, 1).unwrap()
}

fn sample_session(id: u8) -> Session {
    Session {
        connection_id: id,
        has_db_client: true,
        messages: vec![ChatMessage { role: Role::System, content: Some(String::from("sys")) }],
    }
}

#[test]
fn connection_labels_mark_active_entries() {
    assert_eq!(pgparrot::sidebar::connection_label("orders", false), "orders");
    assert_eq!(
        pgparrot::sidebar::connection_label("orders", true),
        "orders (connected)"
    );
}

#[test]
fn sidebar_toggles() {
    let mut sidebar = Sidebar::new();
    let fresh = sidebar;
    sidebar.toggle();
    assert_ne!(sidebar, fresh);
    sidebar.toggle();
    assert_eq!(sidebar, fresh);
}

#[test]
fn viewport_starts_idle_and_shows_a_session() {
    assert_eq!(
        Viewport::default(),
        Viewport::Default(String::from("Select a connection"))
    );
    let vp = Viewport::new(sample_session(1));
    match vp {
        Viewport::Ready { input, session } => {
            assert_eq!(input, "");
            assert_eq!(session.connection_id, 1);
        },
        other => panic!("expected a live viewport, got {:?}", other),
    }
}

#[test]
fn viewport_edits_the_input_line() {
    let mut vp = Viewport::new(sample_session(1));
    let t = vp.update(viewport::Message::InputChanged(String::from("sel")));
    assert_eq!(t, ViewportTask::Idle);
    match &vp {
        Viewport::Ready { input, .. } => assert_eq!(input, "sel"),
        other => panic!("expected a live viewport, got {:?}", other),
    }
    // typing with no session shown changes nothing
    let mut idle = Viewport::default();
    idle.update(viewport::Message::InputChanged(String::from("sel")));
    assert_eq!(idle, Viewport::default());
}

#[test]
fn viewport_submits_a_copy_of_the_session() {
    let mut vp = Viewport::new(sample_session(1));
    vp.update(viewport::Message::InputChanged(String::from("count users")));
    let t = vp.update(viewport::Message::Query);
    match t {
        ViewportTask::Exec { input, session } => {
            assert_eq!(input, "count users");
            assert_eq!(session, sample_session(1));
        },
        other => panic!("expected an exec task, got {:?}", other),
    }
    // submitting with no session shown does nothing
    let mut idle = Viewport::default();
    assert_eq!(idle.update(viewport::Message::Query), ViewportTask::Idle);
}

#[test]
fn viewport_takes_the_cycle_outcome() {
    let mut vp = Viewport::default();
    vp.update(viewport::Message::QueryComplete(Ok(sample_session(3))));
    match &vp {
        Viewport::Ready { input, session } => {
            assert_eq!(input, "");
            assert_eq!(session.connection_id, 3);
        },
        other => panic!("expected a live viewport, got {:?}", other),
    }
    vp.update(viewport::Message::QueryComplete(Err(Error::QueryError)));
    assert_eq!(vp, Viewport::Errored { error: Error::QueryError });
}

#[test]
fn dashboard_connect_shows_the_wait_and_asks_for_a_session() {
    let mut dashboard = Dashboard::new(sample_config());
    let t = dashboard.update(dashboard::Message::Connect(2));
    assert_eq!(t, DashboardTask::StartSession { id: 2 });
    match &dashboard.viewport {
        Viewport::Loading { name, message } => {
            assert_eq!(name, "billing");
            assert_eq!(*message, dashboard::Message::Connect(2));
        },
        other => panic!("expected the wait, got {:?}", other),
    }
    assert_eq!(dashboard.title(), "Loading");
}

#[test]
fn dashboard_connected_marks_the_connection() {
    let mut dashboard = Dashboard::new(sample_config());
    dashboard.update(dashboard::Message::Connect(1));
    let t = dashboard.update(dashboard::Message::Connected(Ok(sample_session(1))));
    assert_eq!(t, DashboardTask::Idle);
    assert_eq!(dashboard.connections_state.get(&1), Some(&true));
    assert_eq!(dashboard.connections_state.get(&2), Some(&false));
    assert_eq!(dashboard.title(), "Dashboard");
    match &dashboard.viewport {
        Viewport::Ready { session, .. } => assert_eq!(session.connection_id, 1),
        other => panic!("expected a live viewport, got {:?}", other),
    }
}

#[test]
fn dashboard_disconnect_clears_the_viewport() {
    let mut dashboard = Dashboard::new(sample_config());
    dashboard.update(dashboard::Message::Connect(1));
    dashboard.update(dashboard::Message::Connected(Ok(sample_session(1))));
    let t = dashboard.update(dashboard::Message::Disconnect(1));
    assert_eq!(t, DashboardTask::Idle);
    assert_eq!(dashboard.connections_state.get(&1), Some(&false));
    assert_eq!(dashboard.viewport, Viewport::default());
}

#[test]
fn dashboard_connection_failure_shows_the_error() {
    let mut dashboard = Dashboard::new(sample_config());
    dashboard.update(dashboard::Message::Connect(1));
    dashboard.update(dashboard::Message::Connected(Err(Error::ConnectionError)));
    assert_eq!(
        dashboard.viewport,
        Viewport::Errored { error: Error::ConnectionError }
    );
}

#[test]
fn dashboard_hands_viewport_tasks_up() {
    let mut dashboard = Dashboard::new(sample_config());
    dashboard.update(dashboard::Message::Connected(Ok(sample_session(1))));
    dashboard.update(dashboard::Message::Viewport(viewport::Message::InputChanged(
        String::from("q"),
    )));
    let t = dashboard.update(dashboard::Message::Viewport(viewport::Message::Query));
    match t {
        DashboardTask::Exec { input, session } => {
            assert_eq!(input, "q");
            assert_eq!(session.connection_id, 1);
        },
        other => panic!("expected an exec task, got {:?}", other),
    }
}

#[test]
fn shell_goes_from_loading_to_ready() {
    let (mut shell, task) = PgParrot::new();
    assert!(matches!(task, ShellTask::LoadConfig));
    assert_eq!(shell.title(), "Loading - PgParrot");
    let t = shell.update(Message::BuildConfig(Ok(sample_config())));
    assert!(matches!(t, ShellTask::Idle));
    assert_eq!(shell.title(), "Dashboard - PgParrot");
}

#[test]
fn shell_shows_config_errors_and_retries() {
    let (mut shell, _) = PgParrot::new();
    shell.update(Message::BuildConfig(Err(Error::NotFound)));
    assert_eq!(shell.title(), "Whoops! - PgParrot");
    let t = shell.update(Message::Retry);
    assert!(matches!(t, ShellTask::LoadConfig));
    let t = shell.update(Message::Exit);
    assert!(matches!(t, ShellTask::CloseWindow));
}

#[test]
fn shell_routes_dashboard_messages() {
    let (mut shell, _) = PgParrot::new();
    // dropped while no dashboard is up
    let t = shell.update(Message::Dashboard(dashboard::Message::Disconnect(1)));
    assert!(matches!(t, ShellTask::Idle));
    shell.update(Message::BuildConfig(Ok(sample_config())));
    let t = shell.update(Message::Dashboard(dashboard::Message::Connect(1)));
    match t {
        ShellTask::Dashboard(DashboardTask::StartSession { id }) => assert_eq!(id, 1),
        other => panic!("expected the session task, got {:?}", other),
    }
    assert_eq!(shell.title(), "Loading - PgParrot");
}
