//! Out-of-process crash supervision.
//!
//! An application that wants its crashes caught starts a second copy of
//! itself, the supervisor, and tells it by one startup argument on which
//! channel to listen. The application connects, keeps the supervisor awake
//! with heartbeats, and asks it for a dump when it faults; the supervisor
//! hands the dump to the application's callback and exits.
//!
//! This crate holds the decisions of both processes: which role a process
//! plays, what the channel is called, how long and how often to try to
//! connect, what to do with a dump or a message. It touches no process, no
//! socket and no file: it says what is to be done, and the program around it
//! does it.

use vstd::prelude::*;
use vstd::string::StringExecFns;
use std::path::PathBuf;
use crate::role::{
    has_marked, is_marked, lemma_supervisor_reads_channel, marked_argument, select, Role, RoleView,
    SEPARATOR,
};
use crate::server::{Handler, Supervisor, SupervisorView};
use crate::session::{
    is_hex_digit, is_version_4, lemma_hex_shape, lemma_simple_text_injective, simple_text,
    SessionId,
};

pub mod client;
pub mod role;
pub mod server;
pub mod session;

verus! {

/// Milliseconds of silence after which the supervisor gives a client up,
/// unless set otherwise.
pub const DEFAULT_SERVER_STALE_TIMEOUT: u64 = 5000;

/// Milliseconds that the application waits for its supervisor to listen,
/// unless set otherwise.
pub const DEFAULT_CLIENT_CONNECT_TIMEOUT: u64 = 3000;

/// The start of the argument that marks a process as the supervisor, unless
/// set otherwise.
pub const DEFAULT_SERVER_ARG: &'static str = "--crash-reporter-server";

/// The directory under the system's temporary directory in which dumps are
/// written, unless set otherwise.
pub const DEFAULT_CRASHES_DIR_NAME: &'static str = "Crashes";

/// The settings of crash supervision, built up before [`MinidumperChild::spawn`].
/// `Minidump` is the callback that receives a dump's bytes and the path of
/// its backing file, `Message` the one that receives a message's tag and
/// payload. The crate never calls a callback: when a call is due it hands
/// the callback back together with the arguments, so any type will do.
pub struct MinidumperChild<Minidump, Message> {
    crashes_dir: Option<PathBuf>,
    server_stale_timeout: u64,
    client_connect_timeout: u64,
    server_arg: String,
    on_minidump: Option<Minidump>,
    on_message: Option<Message>,
}

/// The mathematical value of a [`MinidumperChild`].
pub struct Settings<Minidump, Message> {
    /// Where dumps are written; `None` stands for the directory
    /// [`DEFAULT_CRASHES_DIR_NAME`] under the system's temporary directory.
    pub crashes_dir: Option<PathBuf>,
    pub server_stale_timeout: u64,
    pub client_connect_timeout: u64,
    pub server_arg: Seq<char>,
    pub on_minidump: Option<Minidump>,
    pub on_message: Option<Message>,
}

impl<Minidump, Message> Settings<Minidump, Message> {
    /// The settings before any was changed.
    pub open spec fn initial() -> Self {
        Settings {
            crashes_dir: None,
            server_stale_timeout: DEFAULT_SERVER_STALE_TIMEOUT,
            client_connect_timeout: DEFAULT_CLIENT_CONNECT_TIMEOUT,
            server_arg: DEFAULT_SERVER_ARG@,
            on_minidump: None,
            on_message: None,
        }
    }

    /// Whether a callback is registered, as spawning requires.
    pub open spec fn has_callback(self) -> bool {
        self.on_minidump is Some || self.on_message is Some
    }
}

impl<Minidump, Message> View for MinidumperChild<Minidump, Message> {
    type V = Settings<Minidump, Message>;

    closed spec fn view(&self) -> Settings<Minidump, Message> {
        Settings {
            crashes_dir: self.crashes_dir,
            server_stale_timeout: self.server_stale_timeout,
            client_connect_timeout: self.client_connect_timeout,
            server_arg: self.server_arg@,
            on_minidump: self.on_minidump,
            on_message: self.on_message,
        }
    }
}

/// How the monitored process brings its supervisor up.
pub struct Launch {
    /// The channel on which the supervisor will listen.
    pub socket_name: String,
    /// The one argument with which this executable is started again.
    pub server_argument: String,
    /// Milliseconds to keep trying to connect.
    pub connect_timeout: u64,
    /// Milliseconds between two heartbeats.
    pub server_poll: u64,
}

/// The mathematical value of a [`Launch`].
pub struct LaunchView {
    pub socket_name: Seq<char>,
    pub server_argument: Seq<char>,
    pub connect_timeout: u64,
    pub server_poll: u64,
}

impl View for Launch {
    type V = LaunchView;

    open spec fn view(&self) -> LaunchView {
        LaunchView {
            socket_name: self.socket_name@,
            server_argument: self.server_argument@,
            connect_timeout: self.connect_timeout,
            server_poll: self.server_poll,
        }
    }
}

/// What a process does to take part in crash supervision.
pub enum SpawnPlan<Minidump, Message> {
    /// It is the supervisor: it listens and serves until the loop ends, and
    /// then exits with [`server::EXIT_CODE`] without going back to the
    /// application's code.
    Supervise(Supervisor<Minidump, Message>),
    /// It is the application: it starts its supervisor and connects to it
    /// as [`client::start`] says.
    Monitor(Launch),
}

/// The mathematical value of a [`SpawnPlan`].
pub enum SpawnPlanView<Minidump, Message> {
    Supervise(SupervisorView<Minidump, Message>),
    Monitor(LaunchView),
}

impl<Minidump, Message> View for SpawnPlan<Minidump, Message> {
    type V = SpawnPlanView<Minidump, Message>;

    open spec fn view(&self) -> SpawnPlanView<Minidump, Message> {
        match self {
            SpawnPlan::Supervise(supervisor) => SpawnPlanView::Supervise(supervisor@),
            SpawnPlan::Monitor(launch) => SpawnPlanView::Monitor(launch@),
        }
    }
}

/// The name of the channel of the session `id`.
pub open spec fn socket_name(id: SessionId) -> Seq<char> {
    "temp-socket-"@ + simple_text(id)
}

/// What the supervisor runs under `settings` on the channel `name`.
pub open spec fn supervision<Minidump, Message>(
    settings: Settings<Minidump, Message>,
    name: Seq<char>,
) -> SupervisorView<Minidump, Message> {
    SupervisorView {
        socket_name: name,
        handler: Handler {
            crashes_dir: settings.crashes_dir,
            on_minidump: settings.on_minidump,
            on_message: settings.on_message,
        },
        stale_timeout: Some(settings.server_stale_timeout),
    }
}

/// How the application of the session `id` brings its supervisor up under
/// `settings`: the supervisor is told the channel's name after the marker
/// and the separator, and is pinged twice in each stale timeout.
pub open spec fn launch<Minidump, Message>(
    settings: Settings<Minidump, Message>,
    id: SessionId,
) -> LaunchView {
    LaunchView {
        socket_name: socket_name(id),
        server_argument: marked_argument(settings.server_arg, socket_name(id)),
        connect_timeout: settings.client_connect_timeout,
        server_poll: (settings.server_stale_timeout / 2) as u64,
    }
}

/// What a process with the role `role` does under `settings`, where `id`
/// is the identifier drawn for a new session.
pub open spec fn plan<Minidump, Message>(
    settings: Settings<Minidump, Message>,
    role: RoleView,
    id: SessionId,
) -> SpawnPlanView<Minidump, Message> {
    match role {
        RoleView::Supervisor(name) => SpawnPlanView::Supervise(supervision(settings, name)),
        RoleView::Monitored => SpawnPlanView::Monitor(launch(settings, id)),
    }
}

impl<Minidump, Message> Default for MinidumperChild<Minidump, Message> {
    fn default() -> (child: Self)
        ensures
            child@ == Settings::<Minidump, Message>::initial(),
    {
        MinidumperChild {
            crashes_dir: None,
            server_stale_timeout: DEFAULT_SERVER_STALE_TIMEOUT,
            client_connect_timeout: DEFAULT_CLIENT_CONNECT_TIMEOUT,
            server_arg: DEFAULT_SERVER_ARG.to_owned(),
            on_minidump: None,
            on_message: None,
        }
    }
}

impl<Minidump, Message> MinidumperChild<Minidump, Message> {
    /// The default settings, with no callback registered.
    #[must_use]
    pub fn new() -> (child: Self)
        ensures
            child@ == Settings::<Minidump, Message>::initial(),
    {
        Self::default()
    }

    /// Whether this process is the supervisor: whether one of its startup
    /// arguments `args` begins with the marker.
    pub fn is_crash_reporter_process(&self, args: &[String]) -> (found: bool)
        ensures
            found == has_marked(args.deep_view(), self@.server_arg),
    {
        role::is_supervisor(args, self.server_arg.as_str())
    }

    /// Registers the callback that receives the dump of a crash.
    #[must_use]
    pub fn on_minidump(self, on_minidump: Minidump) -> (child: Self)
        ensures
            child@ == (Settings { on_minidump: Some(on_minidump), ..self@ }),
    {
        let mut child = self;
        child.on_minidump = Some(on_minidump);
        child
    }

    /// Registers the callback that receives the application's messages.
    #[must_use]
    pub fn on_message(self, on_message: Message) -> (child: Self)
        ensures
            child@ == (Settings { on_message: Some(on_message), ..self@ }),
    {
        let mut child = self;
        child.on_message = Some(on_message);
        child
    }

    /// Sets the directory in which dumps are written.
    #[must_use]
    pub fn with_crashes_dir(self, crashes_dir: PathBuf) -> (child: Self)
        ensures
            child@ == (Settings { crashes_dir: Some(crashes_dir), ..self@ }),
    {
        let mut child = self;
        child.crashes_dir = Some(crashes_dir);
        child
    }

    /// Sets the milliseconds of silence after which the supervisor gives
    /// its client up.
    #[must_use]
    pub fn with_server_stale_timeout(self, server_stale_timeout: u64) -> (child: Self)
        ensures
            child@ == (Settings { server_stale_timeout, ..self@ }),
    {
        let mut child = self;
        child.server_stale_timeout = server_stale_timeout;
        child
    }

    /// Sets the milliseconds that the application waits for its supervisor
    /// to listen.
    #[must_use]
    pub fn with_client_connect_timeout(self, client_connect_timeout: u64) -> (child: Self)
        ensures
            child@ == (Settings { client_connect_timeout, ..self@ }),
    {
        let mut child = self;
        child.client_connect_timeout = client_connect_timeout;
        child
    }

    /// Sets the start of the argument that marks a process as the
    /// supervisor.
    #[must_use]
    pub fn with_server_arg(self, server_arg: String) -> (child: Self)
        ensures
            child@ == (Settings { server_arg: server_arg@, ..self@ }),
    {
        let mut child = self;
        child.server_arg = server_arg;
        child
    }

    /// The directory in which dumps are written, if one was set.
    pub fn crashes_dir(&self) -> (crashes_dir: Option<&PathBuf>)
        ensures
            crashes_dir == (match self@.crashes_dir {
                Some(directory) => Some(&directory),
                None => None,
            }),
    {
        self.crashes_dir.as_ref()
    }

    pub fn server_stale_timeout(&self) -> (timeout: u64)
        ensures
            timeout == self@.server_stale_timeout,
    {
        self.server_stale_timeout
    }

    pub fn client_connect_timeout(&self) -> (timeout: u64)
        ensures
            timeout == self@.client_connect_timeout,
    {
        self.client_connect_timeout
    }

    pub fn server_arg(&self) -> (marker: &str)
        ensures
            marker@ == self@.server_arg,
    {
        self.server_arg.as_str()
    }

    /// Whether a callback is registered, as [`MinidumperChild::spawn`]
    /// requires.
    pub fn has_callback(&self) -> (ready: bool)
        ensures
            ready == self@.has_callback(),
    {
        self.on_minidump.is_some() || self.on_message.is_some()
    }

    /// Decides what this process, started with the arguments `args`, does:
    /// serve as the supervisor on the channel that its marked argument
    /// names, or, as the application, bring a supervisor up on the channel
    /// of a fresh session. Needs a callback to be registered.
    #[must_use]
    pub fn spawn(self, args: &[String]) -> (plan: SpawnPlan<Minidump, Message>)
        requires
            self@.has_callback(),
        ensures
            (match select(args.deep_view(), self@.server_arg) {
                RoleView::Supervisor(name) => plan@ == SpawnPlanView::Supervise(
                    supervision(self@, name),
                ),
                RoleView::Monitored => exists|id: SessionId|
                    is_version_4(id.0) && plan@ == SpawnPlanView::<Minidump, Message>::Monitor(
                        #[trigger] launch(self@, id),
                    ),
            }),
    {
        match role::select_role(args, self.server_arg.as_str()) {
            Role::Supervisor(name) => self.supervise(name),
            Role::Monitored => {
                let id = SessionId::random();
                self.monitor(id)
            },
        }
    }

    /// As [`MinidumperChild::spawn`], for the session `session_id` in place
    /// of a fresh one.
    #[must_use]
    pub fn spawn_in_session(self, args: &[String], session_id: SessionId) -> (plan: SpawnPlan<
        Minidump,
        Message,
    >)
        requires
            self@.has_callback(),
        ensures
            plan@ == crate::plan(self@, select(args.deep_view(), self@.server_arg), session_id),
    {
        match role::select_role(args, self.server_arg.as_str()) {
            Role::Supervisor(name) => self.supervise(name),
            Role::Monitored => self.monitor(session_id),
        }
    }

    fn supervise(self, name: String) -> (plan: SpawnPlan<Minidump, Message>)
        ensures
            plan@ == SpawnPlanView::Supervise(supervision(self@, name@)),
    {
        SpawnPlan::Supervise(
            server::start(
                name.as_str(),
                self.crashes_dir,
                self.server_stale_timeout,
                self.on_minidump,
                self.on_message,
            ),
        )
    }

    fn monitor(self, id: SessionId) -> (plan: SpawnPlan<Minidump, Message>)
        ensures
            plan@ == SpawnPlanView::<Minidump, Message>::Monitor(launch(self@, id)),
    {
        let socket_name = make_socket_name(id);
        let mut server_argument = self.server_arg;
        server_argument.append("=");
        server_argument.append(socket_name.as_str());
        proof {
            reveal_strlit("=");
            assert("="@ == seq![SEPARATOR]);
        }
        SpawnPlan::Monitor(
            Launch {
                socket_name,
                server_argument,
                connect_timeout: self.client_connect_timeout,
                server_poll: client::heartbeat_interval(self.server_stale_timeout),
            },
        )
    }
}

/// Names the channel of the session `session_id`: `temp-socket-` and the
/// identifier's 32 hexadecimal digits. Where the platform has no abstract
/// socket names, the caller puts the name under the temporary directory.
pub fn make_socket_name(session_id: SessionId) -> (name: String)
    ensures
        name@ == socket_name(session_id),
{
    let mut name = String::from_str("temp-socket-");
    name.append(session_id.simple().as_str());
    name
}

/// A channel's name is 44 characters long and holds no separator, so that
/// it can be read back whole from the marked argument.
pub proof fn lemma_socket_name_shape(id: SessionId)
    ensures
        socket_name(id).len() == 44,
        !socket_name(id).contains(SEPARATOR),
        forall|i: int| 12 <= i < 44 ==> is_hex_digit(#[trigger] socket_name(id)[i]),
{
    reveal_strlit("temp-socket-");
    lemma_hex_shape(id.0 as nat, 32);
    let name = socket_name(id);
    assert forall|i: int| 12 <= i < 44 implies is_hex_digit(#[trigger] name[i]) by {
        assert(name[i] == simple_text(id)[i - 12]);
    }
    assert forall|i: int| 0 <= i < name.len() implies name[i] != SEPARATOR by {
        if i >= 12 {
            assert(is_hex_digit(name[i]));
        }
    }
}

/// Two sessions with different identifiers have channels of different
/// names.
pub proof fn lemma_socket_names_differ(a: SessionId, b: SessionId)
    requires
        a != b,
    ensures
        socket_name(a) != socket_name(b),
{
    if socket_name(a) == socket_name(b) {
        reveal_strlit("temp-socket-");
        lemma_hex_shape(a.0 as nat, 32);
        lemma_hex_shape(b.0 as nat, 32);
        assert(socket_name(a).skip(12) == simple_text(a));
        assert(socket_name(b).skip(12) == simple_text(b));
        lemma_simple_text_injective(a, b);
    }
}

/// The supervisor ends up on the application's channel: started with the
/// argument that the application's launch gives it, after a program name
/// that does not itself begin with the marker, a process with the same
/// settings plays the supervisor on the channel of the application's
/// session.
pub proof fn lemma_supervisor_joins_session<Minidump, Message>(
    settings: Settings<Minidump, Message>,
    id: SessionId,
    program: Seq<char>,
)
    requires
        !is_marked(program, settings.server_arg),
    ensures
        select(seq![program, launch(settings, id).server_argument], settings.server_arg)
            == RoleView::Supervisor(launch(settings, id).socket_name),
        forall|other: SessionId|
            plan(
                settings,
                select(seq![program, launch(settings, id).server_argument], settings.server_arg),
                other,
            ) == SpawnPlanView::Supervise(supervision(settings, socket_name(id))),
{
    let args = seq![program, launch(settings, id).server_argument];
    lemma_socket_name_shape(id);
    assert forall|j: int| 0 <= j < 1 implies !is_marked(#[trigger] args[j], settings.server_arg) by {
    }
    lemma_supervisor_reads_channel(args, settings.server_arg, 1, socket_name(id));
}

/// The heartbeat is faster than the supervisor's patience: under any
/// settings with a stale timeout above zero, the application pings at an
/// interval below that timeout.
pub proof fn lemma_heartbeat_outpaces_stale_timeout<Minidump, Message>(
    settings: Settings<Minidump, Message>,
    id: SessionId,
)
    requires
        settings.server_stale_timeout > 0,
    ensures
        launch(settings, id).server_poll < settings.server_stale_timeout,
        supervision(settings, socket_name(id)).stale_timeout == Some(
            settings.server_stale_timeout,
        ),
{
}

} // verus!
