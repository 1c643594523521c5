//! The session and its request/response cycle.
//!
//! A session is one live database handle and one chat transcript.  The
//! caller performs the outside work — opening the connection, sending a
//! model request, running a query — and the [`Exec`] machine decides
//! every step in between.  The machine also accounts for the database
//! handle: it sits in a shared slot, is taken out for the duration of a
//! query, is put back once the query's summary is in, and is left out
//! when an attempt fails.  A failed query starts a nested attempt whose
//! transcript begins again from the session's transcript, with the
//! database error as the user message; whatever a nested attempt
//! produces is discarded when it succeeds, and ends the whole cycle when
//! it fails.

use vstd::prelude::*;
use crate::config::{spec_first_index, Config};
use crate::error::Error;
use crate::openai::{chat_message, chat_request, clone_messages, json_string_field,
    spec_appended, spec_chat_request, spec_content_text, spec_json_string_field, ChatMessage,
    ModelRequest, Role};
use crate::text::str_eq;
use vstd::string::StringExecFns;

verus! {

/// The fixed instructions handed to the model at the start of a session.
pub const SYSTEM_PROMPT: &'static str = r#"
        You are a database analyst. You can run SQL queries and get results using function run_sql_query.
        You get requests from user and you need to run queries and get results.

        Here is database schema:

        CREATE TABLE public.users (
            id bytea NOT NULL,
            elo float8 NOT NULL DEFAULT 0,
            "eloBox" int4 NOT NULL DEFAULT 5,
            "extraQuestions" _varchar NULL,
            "lastActive" timestamp(0) NULL,
            "location" public.geometry NULL,
            prime timestamp(0) NULL,
            "pushToken" varchar(255) NULL,
            "phoneNumber" varchar(255) NULL,
            settings jsonb NULL,
            "signUpInProgress" bool NOT NULL DEFAULT true,
            location_time timestamp(0) NULL,
            "badgeCount" int4 NOT NULL DEFAULT 0,
            stats jsonb NULL,
            inserted_at timestamp(0) NOT NULL,
            updated_at timestamp(0) NOT NULL,
            point public.geometry(point, 4326) NULL,
            boost bool NOT NULL DEFAULT false,
            CONSTRAINT users_pkey PRIMARY KEY (id)
        );
        CREATE INDEX user_point_index ON public.users USING gist (point);

        CREATE TABLE public.user_settings (
            id bigserial NOT NULL,
            birth timestamp(0) NULL,
            birthplace varchar(255) NULL,
            "crossPath" bool NOT NULL DEFAULT true,
            description text NULL,
            "filter" jsonb NULL,
            "genderDescription" varchar(255) NULL,
            hidden bool NOT NULL DEFAULT false,
            "isFemale" bool NOT NULL DEFAULT false,
            "isMale" bool NOT NULL DEFAULT false,
            locale varchar(255) NULL,
            media _varchar NULL,
            "updatedMediaAt" timestamp(0) NULL,
            "name" varchar(255) NULL,
            notifications jsonb NULL,
            residence varchar(255) NULL,
            school varchar(255) NULL,
            "work" varchar(255) NULL,
            email varchar(255) NULL,
            user_id bytea NULL,
            CONSTRAINT user_settings_pkey PRIMARY KEY (id),
            CONSTRAINT user_settings_user_id_fkey FOREIGN KEY (user_id) REFERENCES public.users(id) ON DELETE CASCADE
        );
        CREATE UNIQUE INDEX user_settings_user_id_index ON public.user_settings USING btree (user_id);
        "#;

/// A live session with one database.
#[derive(Debug, PartialEq)]
pub struct Session {
    /// The id of the connection descriptor this session came from.
    pub connection_id: u8,
    /// Whether the shared slot still holds the database handle.
    pub has_db_client: bool,
    /// The chat transcript so far.
    pub messages: Vec<ChatMessage>,
}

impl Clone for Session {
    /// Copies the session.
    fn clone(&self) -> (r: Self)
        ensures
            r.connection_id == self.connection_id,
            r.has_db_client == self.has_db_client,
            r.messages@ == self.messages@,
    {
        Session {
            connection_id: self.connection_id,
            has_db_client: self.has_db_client,
            messages: clone_messages(&self.messages),
        }
    }
}

/// Whether the caller must wrap the connection in TLS.
#[derive(Debug, Clone, Copy, PartialEq, Eq, Structural)]
pub enum TlsMode {
    /// The descriptor asks for `sslmode = "require"`.
    Required,
    /// Anything else: connect without TLS.
    Disabled,
}

/// The TLS choice that an `sslmode` entry asks for.
pub open spec fn spec_tls_mode(sslmode: Option<String>) -> TlsMode {
    match sslmode {
        Some(m) => if m@ == "require"@ {
            TlsMode::Required
        } else {
            TlsMode::Disabled
        },
        None => TlsMode::Disabled,
    }
}

/// Everything the caller needs to open a session against the descriptor
/// with id `id`: the connection string, the TLS choice, the model-API
/// credential, and the session as it stands once the connection is open.
#[derive(Debug, PartialEq)]
pub struct SessionPlan {
    /// The `postgres://` connection string.
    pub url: String,
    /// Whether to wrap the connection in TLS.
    pub tls: TlsMode,
    /// The model-API credential.
    pub api_key: String,
    /// The session, with the handle in its slot and the fixed
    /// instructions as its only message.
    pub session: Session,
}

/// Lays out a new session against the descriptor with id `id`.
pub fn init_session(id: u8, config: &Config) -> (r: SessionPlan)
    requires
        config.spec_has_id(id),
    ensures
        ({
            let c = config.spec_connections()[spec_first_index(config.spec_connections(), id)];
            &&& r.url@ == c.spec_url()
            &&& r.tls == spec_tls_mode(c.sslmode)
            &&& r.api_key@ == config.openai.token@
            &&& r.session.connection_id == c.id
            &&& r.session.has_db_client == true
            &&& r.session.messages@.len() == 1
            &&& r.session.messages@[0].is_from(Role::System, SYSTEM_PROMPT@)
        }),
{
    let connection = config.get_connection(id);
    let url = connection.url();
    let tls = match &connection.sslmode {
        Some(m) => if str_eq(m.as_str(), "require") {
            TlsMode::Required
        } else {
            TlsMode::Disabled
        },
        None => TlsMode::Disabled,
    };
    let api_key = config.openai.token.clone();
    let mut messages: Vec<ChatMessage> = Vec::new();
    messages.push(chat_message(Role::System, String::from_str(SYSTEM_PROMPT)));
    SessionPlan {
        url,
        tls,
        api_key,
        session: Session { connection_id: connection.id, has_db_client: true, messages },
    }
}

/// Where one attempt of the cycle stands.
#[derive(Debug, Clone, Copy, PartialEq, Eq, Structural)]
pub enum Phase {
    /// The attempt's first model request is out.
    AwaitModel,
    /// The attempt holds the handle and its query is running.
    AwaitQuery,
    /// The query's result is in the transcript and the summary request
    /// is out.
    AwaitSummary,
    /// The attempt's query failed and a nested attempt is running.
    AwaitRetry,
}

/// One attempt: a working transcript and whether it holds the handle.
#[derive(Debug, PartialEq)]
pub struct Frame {
    /// The attempt's working transcript.
    pub messages: Vec<ChatMessage>,
    /// Whether this attempt holds the database handle.
    pub holds_client: bool,
    /// Where the attempt stands.
    pub phase: Phase,
}

/// The model's function call, when its reply carries one.
#[derive(Debug, Clone, PartialEq)]
pub struct FunctionCall {
    /// The function the model asks for.
    pub name: String,
    /// The JSON argument text.
    pub arguments: String,
}

/// What the outside work came back with.
#[derive(Debug, PartialEq)]
pub enum ExecEvent {
    /// The model replied.
    ModelReplied { content: Option<String>, function_call: Option<FunctionCall> },
    /// The model request failed.
    ModelFailed,
    /// The query ran; `value` is the first column of the first row.
    QueryOk { value: String },
    /// The query failed with this database error text.
    QueryFailed { message: String },
}

/// What the caller must do next.
#[derive(Debug, PartialEq)]
pub enum ExecAction {
    /// Send this request to the model API.
    CallModel { request: ModelRequest },
    /// Run this SQL against the held database handle.
    RunQuery { query: String },
    /// The cycle is over.
    Finish { result: Result<Session, Error> },
}

/// Whether any attempt in `fs` holds the database handle.
pub open spec fn spec_any_holds(fs: Seq<Frame>) -> bool {
    exists|i: int| 0 <= i < fs.len() && (#[trigger] fs[i]).holds_client
}

proof fn lemma_any_holds_skip(fs: Seq<Frame>, k: int)
    requires
        0 <= k < fs.len(),
    ensures
        spec_any_holds(fs.skip(k)) == (fs[k].holds_client || spec_any_holds(fs.skip(k + 1))),
{
    assert(fs.skip(k)[0] == fs[k]);
    if fs[k].holds_client {
        assert(spec_any_holds(fs.skip(k)));
    }
    if spec_any_holds(fs.skip(k + 1)) {
        let i = choose|i: int| 0 <= i < fs.skip(k + 1).len() && (#[trigger] fs.skip(k + 1)[i]).holds_client;
        assert(fs.skip(k)[i + 1] == fs.skip(k + 1)[i]);
        assert(spec_any_holds(fs.skip(k)));
    }
    if spec_any_holds(fs.skip(k)) && !fs[k].holds_client {
        let i = choose|i: int| 0 <= i < fs.skip(k).len() && (#[trigger] fs.skip(k)[i]).holds_client;
        assert(i >= 1);
        assert(fs.skip(k + 1)[i - 1] == fs.skip(k)[i]);
        assert(spec_any_holds(fs.skip(k + 1)));
    }
}

proof fn lemma_any_holds_drop_last(fs: Seq<Frame>)
    requires
        fs.len() > 0,
    ensures
        spec_any_holds(fs) == (fs.last().holds_client || spec_any_holds(fs.drop_last())),
{
    if fs.last().holds_client {
        assert(spec_any_holds(fs));
    }
    if spec_any_holds(fs.drop_last()) {
        let i = choose|i: int|
            0 <= i < fs.drop_last().len() && (#[trigger] fs.drop_last()[i]).holds_client;
        assert(fs[i].holds_client);
        assert(spec_any_holds(fs));
    }
    if spec_any_holds(fs) && !fs.last().holds_client {
        let i = choose|i: int| 0 <= i < fs.len() && (#[trigger] fs[i]).holds_client;
        assert(i < fs.len() - 1);
        assert(fs.drop_last()[i].holds_client);
        assert(spec_any_holds(fs.drop_last()));
    }
}

/// The request/response cycle of one `exec` call, with its stack of
/// attempts.
#[derive(Debug, PartialEq)]
pub struct Exec {
    /// The session the cycle runs in; `has_db_client` mirrors the slot.
    pub session: Session,
    /// The active attempts, outermost first.  Empty once the cycle is
    /// over.
    pub frames: Vec<Frame>,
}

impl Exec {
    /// How many attempts are active.
    pub open spec fn depth(self) -> int {
        self.frames@.len() as int
    }

    /// Whether the cycle is still running.
    pub open spec fn active(self) -> bool {
        self.depth() > 0
    }

    /// The innermost attempt.
    pub open spec fn top(self) -> Frame {
        self.frames@.last()
    }

    /// Whether the cycle waits on a model reply.
    pub open spec fn expects_model(self) -> bool {
        self.active() && (self.top().phase == Phase::AwaitModel || self.top().phase
            == Phase::AwaitSummary)
    }

    /// Whether the cycle waits on a query result.
    pub open spec fn expects_query(self) -> bool {
        self.active() && self.top().phase == Phase::AwaitQuery
    }

    /// The machine's invariant.  Every attempt but the innermost waits on
    /// a retry; an attempt that runs or summarises a query holds the
    /// handle, one that waits for its first model reply does not; and the
    /// handle has at most one holder, none while it sits in its slot.
    pub open spec fn wf(self) -> bool {
        &&& forall|i: int|
            0 <= i < self.depth() - 1 ==> (#[trigger] self.frames@[i]).phase == Phase::AwaitRetry
        &&& forall|i: int|
            0 <= i < self.depth() ==> (((#[trigger] self.frames@[i]).phase == Phase::AwaitQuery
                || self.frames@[i].phase == Phase::AwaitSummary) ==> self.frames@[i].holds_client)
        &&& forall|i: int|
            0 <= i < self.depth() ==> ((#[trigger] self.frames@[i]).phase == Phase::AwaitModel
                ==> !self.frames@[i].holds_client)
        &&& forall|i: int, j: int|
            0 <= i < j < self.depth() ==> !((#[trigger] self.frames@[i]).holds_client
                && (#[trigger] self.frames@[j]).holds_client)
        &&& self.session.has_db_client ==> forall|i: int|
            0 <= i < self.depth() ==> !(#[trigger] self.frames@[i]).holds_client
    }

    /// Starts the cycle: the user's text joins the transcript and the
    /// first model request goes out, with the query function offered.
    pub fn start(input: String, session: Session) -> (r: (Exec, ExecAction))
        ensures
            r.0.wf(),
            r.0.depth() == 1,
            r.0.session == session,
            spec_appended(r.0.top().messages@, session.messages@, Role::User, input@),
            r.0.top().phase == Phase::AwaitModel,
            !r.0.top().holds_client,
            r.1 matches ExecAction::CallModel { request } && spec_chat_request(
                request,
                r.0.top().messages@,
                true,
            ),
    {
        let mut msgs = clone_messages(&session.messages);
        msgs.push(chat_message(Role::User, input));
        proof {
            assert(msgs@.drop_last() =~= session.messages@);
        }
        let req_msgs = clone_messages(&msgs);
        let mut frames: Vec<Frame> = Vec::new();
        frames.push(Frame { messages: msgs, holds_client: false, phase: Phase::AwaitModel });
        let exec = Exec { session, frames };
        let action = ExecAction::CallModel { request: chat_request(req_msgs, true) };
        (exec, action)
    }

    /// Ends the cycle after the innermost attempt produced the transcript
    /// `ms`: every waiting attempt is unwound, any held handle goes back
    /// into its slot, and the outermost transcript is the session's.
    fn unwind(&mut self, ms: Vec<ChatMessage>) -> (r: ExecAction)
        ensures
            final(self).depth() == 0,
            final(self).session.connection_id == old(self).session.connection_id,
            r matches ExecAction::Finish { result } && result matches Ok(s) && {
                &&& s.connection_id == old(self).session.connection_id
                &&& s.has_db_client == (old(self).session.has_db_client || spec_any_holds(
                    old(self).frames@,
                ))
                &&& if old(self).depth() == 0 {
                    s.messages@ == ms@
                } else {
                    s.messages@ == old(self).frames@[0].messages@
                }
            },
    {
        let ghost fs0 = old(self).frames@;
        let mut result = ms;
        let mut slot = self.session.has_db_client;
        proof {
            assert(fs0.skip(fs0.len() as int) =~= Seq::<Frame>::empty());
        }
        while self.frames.len() > 0
            invariant
                self.session == old(self).session,
                self.frames@.len() <= fs0.len(),
                self.frames@ == fs0.take(self.frames@.len() as int),
                slot == (old(self).session.has_db_client || spec_any_holds(
                    fs0.skip(self.frames@.len() as int),
                )),
                if self.frames@.len() == fs0.len() {
                    result == ms
                } else {
                    result == fs0[self.frames@.len() as int].messages
                },
            decreases self.frames.len(),
        {
            let ghost k = self.frames@.len() as int - 1;
            let f = self.frames.pop().unwrap();
            proof {
                assert(fs0.take(k + 1).last() == fs0[k]);
                assert(fs0.take(k + 1).drop_last() =~= fs0.take(k));
                lemma_any_holds_skip(fs0, k);
            }
            if f.holds_client {
                slot = true;
            }
            result = f.messages;
        }
        proof {
            assert(fs0.skip(0) =~= fs0);
        }
        self.session.has_db_client = slot;
        let s = Session {
            connection_id: self.session.connection_id,
            has_db_client: slot,
            messages: result,
        };
        ExecAction::Finish { result: Ok(s) }
    }

    /// Feeds the outcome of the caller's last action into the cycle and
    /// says what to do next.
    ///
    /// A reply without a function call closes the innermost attempt.  A
    /// reply with one asks for the query to be run — unless the argument
    /// text yields no query, or the handle is not in its slot, each of
    /// which ends the cycle with an error, as does a failed model
    /// request.  A query result goes into the transcript and the summary
    /// request goes out; a query failure parks the attempt and starts a
    /// nested one whose user message is the database error.
    pub fn step(&mut self, event: ExecEvent) -> (r: ExecAction)
        requires
            old(self).wf(),
            match event {
                ExecEvent::ModelReplied { .. } | ExecEvent::ModelFailed => old(
                    self,
                ).expects_model(),
                ExecEvent::QueryOk { .. } | ExecEvent::QueryFailed { .. } => old(
                    self,
                ).expects_query(),
            },
        ensures
            final(self).wf(),
            match event {
                ExecEvent::ModelFailed => {
                    &&& final(self).depth() == 0
                    &&& final(self).session == old(self).session
                    &&& r matches ExecAction::Finish { result } && result == Err::<
                        Session,
                        Error,
                    >(Error::QueryError)
                },
                ExecEvent::ModelReplied { content, function_call } => {
                    if old(self).top().phase == Phase::AwaitSummary {
                        &&& final(self).depth() == 0
                        &&& r matches ExecAction::Finish { result } && result matches Ok(s) && {
                            &&& s.connection_id == old(self).session.connection_id
                            &&& s.has_db_client == (old(self).session.has_db_client
                                || spec_any_holds(old(self).frames@))
                            &&& if old(self).depth() == 1 {
                                spec_appended(
                                    s.messages@,
                                    old(self).top().messages@,
                                    Role::Assistant,
                                    spec_content_text(content),
                                )
                            } else {
                                s.messages@ == old(self).frames@[0].messages@
                            }
                        }
                    } else {
                        match function_call {
                            Some(fc) => match spec_json_string_field(fc.arguments@, "query"@) {
                                Some(q) => {
                                    if old(self).session.has_db_client {
                                        &&& final(self).depth() == old(self).depth()
                                        &&& final(self).frames@.drop_last() == old(
                                            self,
                                        ).frames@.drop_last()
                                        &&& final(self).top().messages == old(self).top().messages
                                        &&& final(self).top().holds_client
                                        &&& final(self).top().phase == Phase::AwaitQuery
                                        &&& !final(self).session.has_db_client
                                        &&& final(self).session.connection_id == old(
                                            self,
                                        ).session.connection_id
                                        &&& final(self).session.messages == old(
                                            self,
                                        ).session.messages
                                        &&& r matches ExecAction::RunQuery { query } && query@ == q
                                    } else {
                                        &&& final(self).depth() == 0
                                        &&& final(self).session == old(self).session
                                        &&& r matches ExecAction::Finish { result } && result
                                            == Err::<Session, Error>(Error::ConnectionError)
                                    }
                                },
                                None => {
                                    &&& final(self).depth() == 0
                                    &&& final(self).session == old(self).session
                                    &&& r matches ExecAction::Finish { result } && result == Err::<
                                        Session,
                                        Error,
                                    >(Error::ParseError)
                                },
                            },
                            None => {
                                &&& final(self).depth() == 0
                                &&& r matches ExecAction::Finish { result } && result matches Ok(s)
                                    && {
                                    &&& s.connection_id == old(self).session.connection_id
                                    &&& s.has_db_client == (old(self).session.has_db_client
                                        || spec_any_holds(old(self).frames@))
                                    &&& if old(self).depth() == 1 {
                                        spec_appended(
                                            s.messages@,
                                            old(self).top().messages@,
                                            Role::Assistant,
                                            spec_content_text(content),
                                        )
                                    } else {
                                        s.messages@ == old(self).frames@[0].messages@
                                    }
                                }
                            },
                        }
                    }
                },
                ExecEvent::QueryOk { value } => {
                    &&& final(self).depth() == old(self).depth()
                    &&& final(self).frames@.drop_last() == old(self).frames@.drop_last()
                    &&& spec_appended(
                        final(self).top().messages@,
                        old(self).top().messages@,
                        Role::Assistant,
                        value@,
                    )
                    &&& final(self).top().phase == Phase::AwaitSummary
                    &&& final(self).top().holds_client == old(self).top().holds_client
                    &&& final(self).session == old(self).session
                    &&& r matches ExecAction::CallModel { request } && spec_chat_request(
                        request,
                        final(self).top().messages@,
                        false,
                    )
                },
                ExecEvent::QueryFailed { message } => {
                    &&& final(self).depth() == old(self).depth() + 1
                    &&& final(self).frames@.take(old(self).depth() - 1) == old(
                        self,
                    ).frames@.drop_last()
                    &&& final(self).frames@[old(self).depth() - 1].messages == old(
                        self,
                    ).top().messages
                    &&& final(self).frames@[old(self).depth() - 1].holds_client == old(
                        self,
                    ).top().holds_client
                    &&& final(self).frames@[old(self).depth() - 1].phase == Phase::AwaitRetry
                    &&& spec_appended(
                        final(self).top().messages@,
                        old(self).session.messages@,
                        Role::User,
                        "Error: "@ + message@,
                    )
                    &&& final(self).top().phase == Phase::AwaitModel
                    &&& !final(self).top().holds_client
                    &&& final(self).session == old(self).session
                    &&& r matches ExecAction::CallModel { request } && spec_chat_request(
                        request,
                        final(self).top().messages@,
                        true,
                    )
                },
            },
    {
        match event {
            ExecEvent::ModelFailed => {
                self.frames = Vec::new();
                ExecAction::Finish { result: Err(Error::QueryError) }
            },
            ExecEvent::ModelReplied { content, function_call } => {
                let mut top = self.frames.pop().unwrap();
                match top.phase {
                    Phase::AwaitSummary => {
                        let text = match content {
                            Some(c) => c,
                            None => String::new(),
                        };
                        top.messages.push(chat_message(Role::Assistant, text));
                        proof {
                            assert(top.messages@.drop_last() =~= old(self).top().messages@);
                        }
                        if top.holds_client {
                            self.session.has_db_client = true;
                        }
                        proof {
                            assert(self.frames@ =~= old(self).frames@.drop_last());
                            lemma_any_holds_drop_last(old(self).frames@);
                        }
                        self.unwind(top.messages)
                    },
                    _ => {
                        match function_call {
                            Some(fc) => {
                                match json_string_field(fc.arguments.as_str(), "query") {
                                    Some(query) => {
                                        if self.session.has_db_client {
                                            self.session.has_db_client = false;
                                            self.frames.push(Frame {
                                                messages: top.messages,
                                                holds_client: true,
                                                phase: Phase::AwaitQuery,
                                            });
                                            proof {
                                                assert(self.frames@.drop_last()
                                                    =~= old(self).frames@.drop_last());
                                            }
                                            ExecAction::RunQuery { query }
                                        } else {
                                            self.frames = Vec::new();
                                            ExecAction::Finish {
                                                result: Err(Error::ConnectionError),
                                            }
                                        }
                                    },
                                    None => {
                                        self.frames = Vec::new();
                                        ExecAction::Finish { result: Err(Error::ParseError) }
                                    },
                                }
                            },
                            None => {
                                let text = match content {
                                    Some(c) => c,
                                    None => String::new(),
                                };
                                top.messages.push(chat_message(Role::Assistant, text));
                                proof {
                                    assert(top.messages@.drop_last()
                                        =~= old(self).top().messages@);
                                    assert(self.frames@ =~= old(self).frames@.drop_last());
                                    lemma_any_holds_drop_last(old(self).frames@);
                                }
                                self.unwind(top.messages)
                            },
                        }
                    },
                }
            },
            ExecEvent::QueryOk { value } => {
                let mut top = self.frames.pop().unwrap();
                top.messages.push(chat_message(Role::Assistant, value));
                proof {
                    assert(top.messages@.drop_last() =~= old(self).top().messages@);
                }
                let req_msgs = clone_messages(&top.messages);
                let holds = top.holds_client;
                self.frames.push(Frame {
                    messages: top.messages,
                    holds_client: holds,
                    phase: Phase::AwaitSummary,
                });
                proof {
                    assert(self.frames@.drop_last() =~= old(self).frames@.drop_last());
                }
                ExecAction::CallModel { request: chat_request(req_msgs, false) }
            },
            ExecEvent::QueryFailed { message } => {
                let mut top = self.frames.pop().unwrap();
                top.phase = Phase::AwaitRetry;
                self.frames.push(top);
                let mut err_text = String::from_str("Error: ");
                err_text.append(message.as_str());
                let mut nm = clone_messages(&self.session.messages);
                nm.push(chat_message(Role::User, err_text));
                proof {
                    assert(nm@.drop_last() =~= old(self).session.messages@);
                }
                let req_msgs = clone_messages(&nm);
                self.frames.push(Frame {
                    messages: nm,
                    holds_client: false,
                    phase: Phase::AwaitModel,
                });
                proof {
                    assert(self.frames@.take(old(self).depth() - 1)
                        =~= old(self).frames@.drop_last());
                }
                ExecAction::CallModel { request: chat_request(req_msgs, true) }
            },
        }
    }
}

} // verus!
