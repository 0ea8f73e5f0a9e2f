//! The node from its first step to its event loop, as a state machine.
//!
//! The node itself does nothing but decide. It hands its host a list of
//! [`Command`]s; the host carries them out in order and answers the last of
//! them with an [`Input`]. A node starts by loading or generating its key
//! pair, settles its TLS parameters, has its swarm assembled, binds its
//! listeners, the TCP listener first, and then serves: it polls the swarm
//! and logs what is worth logging, for as long as the process lives. A
//! failure on the way to serving stops the node with an exit status that is
//! not zero; nothing stops a node that serves.

use crate::events::{
    entry_for, log_entry, startup_entry, startup_entry_for, LogEntry, LogEntryView, SwarmEvent,
    SwarmEventView,
};
use crate::identity::{is_secret_scalar, peer_id_text, Keypair};
use crate::io::{IoAction, IoActionView, IoOutcome, IoOutcomeView};
use crate::keyfile::{
    generate_step, load_or_generate, load_step, step_secret, IdentityErrorView, KeyFileStep,
    KeyFileStepView, KeyFileTask, KeyFileTaskView,
};
use crate::listen::{
    listen_addresses, listeners, BindError, BindErrorView, ListenAddress, ListenerKind,
};
use crate::logging::{init_tracing, settings_for, LevelFilter, LogSettings, LogSettingsView};
use crate::server::{
    create_swarm, swarm_plan, StartupError, StartupErrorView, SwarmPlan, SwarmPlanView,
    FAILURE_EXIT_CODE,
};
use crate::text::optional_text;
use crate::tls::{
    setup_material, setup_warning, tls_config_from_params, TlsErrorView, TlsSetup, TlsSetupView,
    TlsStep, TlsStepView, TlsTask, TlsTaskView,
};
use vstd::prelude::*;

verus! {

/// What the operator asks of a node.
#[derive(Debug, Clone, PartialEq, Eq)]
pub struct Settings {
    /// The path of the key file.
    pub secret_file: String,
    /// The directory of the key file, where its path has one.
    pub secret_file_parent: Option<String>,
    /// Whether a key is generated and written, rather than loaded.
    pub generate_secret: bool,
    /// The port of the TCP listener.
    pub listen_tcp: u16,
    /// The port of the WebSocket listener, where there is to be one.
    pub listen_websocket: Option<u16>,
    /// The path of the TLS private key.
    pub tls_private_key: Option<String>,
    /// The path of the TLS certificate.
    pub tls_certificate: Option<String>,
    /// Whether the liveness probe runs.
    pub ping: bool,
    /// Whether the log is written as JSON.
    pub json: bool,
    /// Whether the log goes without timestamps.
    pub no_timestamp: bool,
}

/// What [`Settings`] are, as mathematical values.
pub struct SettingsView {
    pub secret_file: Seq<char>,
    pub secret_file_parent: Option<Seq<char>>,
    pub generate_secret: bool,
    pub listen_tcp: u16,
    pub listen_websocket: Option<u16>,
    pub tls_private_key: Option<Seq<char>>,
    pub tls_certificate: Option<Seq<char>>,
    pub ping: bool,
    pub json: bool,
    pub no_timestamp: bool,
}

impl View for Settings {
    type V = SettingsView;

    open spec fn view(&self) -> SettingsView {
        SettingsView {
            secret_file: self.secret_file@,
            secret_file_parent: optional_text(self.secret_file_parent),
            generate_secret: self.generate_secret,
            listen_tcp: self.listen_tcp,
            listen_websocket: self.listen_websocket,
            tls_private_key: optional_text(self.tls_private_key),
            tls_certificate: optional_text(self.tls_certificate),
            ping: self.ping,
            json: self.json,
            no_timestamp: self.no_timestamp,
        }
    }
}

/// Where a node stands.
#[derive(Clone, PartialEq, Eq)]
pub enum Node {
    /// Waiting for a file operation on the key file.
    LoadingIdentity { settings: Settings, task: KeyFileTask },
    /// Waiting for a TLS file to be read; the key pair is there.
    LoadingTls { settings: Settings, identity: Keypair, task: TlsTask },
    /// Waiting for the swarm to be assembled.
    Assembling { listeners: Vec<ListenAddress>, local_peer_id: String },
    /// Waiting for the listener at index `next` to be bound; those before it
    /// are bound.
    Binding { listeners: Vec<ListenAddress>, next: usize },
    /// Waiting for the next event of the swarm.
    Serving,
    /// The node did not start.
    Stopped,
}

/// What a [`Node`] is, as mathematical values.
pub enum NodeView {
    LoadingIdentity { settings: SettingsView, task: KeyFileTaskView },
    LoadingTls { settings: SettingsView, identity: Seq<u8>, task: TlsTaskView },
    Assembling { listeners: Seq<ListenAddress>, local_peer_id: Seq<char> },
    Binding { listeners: Seq<ListenAddress>, next: nat },
    Serving,
    Stopped,
}

impl View for Node {
    type V = NodeView;

    open spec fn view(&self) -> NodeView {
        match self {
            Node::LoadingIdentity { settings, task } => NodeView::LoadingIdentity {
                settings: settings@,
                task: task@,
            },
            Node::LoadingTls { settings, identity, task } => NodeView::LoadingTls {
                settings: settings@,
                identity: identity.secret_bytes(),
                task: task@,
            },
            Node::Assembling { listeners, local_peer_id } => NodeView::Assembling {
                listeners: listeners@,
                local_peer_id: local_peer_id@,
            },
            Node::Binding { listeners, next } => NodeView::Binding {
                listeners: listeners@,
                next: *next as nat,
            },
            Node::Serving => NodeView::Serving,
            Node::Stopped => NodeView::Stopped,
        }
    }
}

/// What the host reports to the node.
#[derive(Debug, Clone, PartialEq, Eq)]
pub enum Input {
    /// The outcome of a file operation.
    Io(IoOutcome),
    /// The swarm is assembled.
    Assembled,
    /// The swarm could not be assembled; `detail` is the host's description.
    AssemblyFailed { detail: String },
    /// The listener is bound.
    Bound,
    /// The listener could not be bound; `detail` is the host's description.
    BindFailed { detail: String },
    /// The swarm reported an event.
    Swarm(SwarmEvent),
}

/// What an [`Input`] is, as mathematical values.
pub enum InputView {
    Io(IoOutcomeView),
    Assembled,
    AssemblyFailed { detail: Seq<char> },
    Bound,
    BindFailed { detail: Seq<char> },
    Swarm(SwarmEventView),
}

impl View for Input {
    type V = InputView;

    open spec fn view(&self) -> InputView {
        match self {
            Input::Io(outcome) => InputView::Io(outcome@),
            Input::Assembled => InputView::Assembled,
            Input::AssemblyFailed { detail } => InputView::AssemblyFailed { detail: detail@ },
            Input::Bound => InputView::Bound,
            Input::BindFailed { detail } => InputView::BindFailed { detail: detail@ },
            Input::Swarm(event) => InputView::Swarm(event@),
        }
    }
}

/// What the node asks of its host.
#[derive(Clone, PartialEq, Eq)]
pub enum Command {
    /// Install the log subscriber; answered by nothing.
    InstallLog(LogSettings),
    /// Warn the operator; answered by nothing.
    Warn(String),
    /// Write a log entry; answered by nothing.
    Log(LogEntry),
    /// Perform a file operation; answered by `Input::Io`.
    Perform(IoAction),
    /// Assemble the swarm; answered by `Input::Assembled` or
    /// `Input::AssemblyFailed`.
    Assemble(SwarmPlan),
    /// Bind a listener; answered by `Input::Bound` or `Input::BindFailed`.
    Listen(ListenAddress),
    /// Wait for the next event of the swarm; answered by `Input::Swarm`.
    Poll,
    /// Report the error and leave the process with status `code`.
    Exit { error: StartupError, code: u8 },
}

/// What a [`Command`] is, as mathematical values.
pub enum CommandView {
    InstallLog(LogSettingsView),
    Warn(Seq<char>),
    Log(LogEntryView),
    Perform(IoActionView),
    Assemble(SwarmPlanView),
    Listen(ListenAddress),
    Poll,
    Exit { error: StartupErrorView, code: u8 },
}

impl View for Command {
    type V = CommandView;

    open spec fn view(&self) -> CommandView {
        match self {
            Command::InstallLog(settings) => CommandView::InstallLog(settings@),
            Command::Warn(text) => CommandView::Warn(text@),
            Command::Log(entry) => CommandView::Log(entry@),
            Command::Perform(action) => CommandView::Perform(action@),
            Command::Assemble(plan) => CommandView::Assemble(plan@),
            Command::Listen(address) => CommandView::Listen(*address),
            Command::Poll => CommandView::Poll,
            Command::Exit { error, code } => CommandView::Exit { error: error@, code: *code },
        }
    }
}

/// The views of a sequence of commands, in order.
pub open spec fn command_views(commands: Seq<Command>) -> Seq<CommandView> {
    commands.map_values(|command: Command| command@)
}

/// One stride of a node: where it stands now, and what the host is to do, in
/// this order.
#[derive(Clone, PartialEq, Eq)]
pub struct Stride {
    pub node: Node,
    pub commands: Vec<Command>,
}

/// What a [`Stride`] is, as mathematical values.
pub struct StrideView {
    pub node: NodeView,
    pub commands: Seq<CommandView>,
}

impl View for Stride {
    type V = StrideView;

    open spec fn view(&self) -> StrideView {
        StrideView { node: self.node@, commands: command_views(self.commands@) }
    }
}

/// Whether the settings ask for a WebSocket listener.
pub open spec fn wants_websocket(settings: SettingsView) -> bool {
    settings.listen_websocket is Some
}

/// The stride of a node that gives up with `error`.
pub open spec fn stopped_with(error: StartupErrorView) -> StrideView {
    StrideView { node: NodeView::Stopped, commands: seq![CommandView::Exit { error, code: 1 }] }
}

/// The stride that binds the listener at index `next`, or starts serving
/// where every listener is bound.
pub open spec fn binding(all: Seq<ListenAddress>, next: nat) -> StrideView {
    if next < all.len() {
        StrideView {
            node: NodeView::Binding { listeners: all, next },
            commands: seq![CommandView::Listen(all[next as int])],
        }
    } else {
        StrideView { node: NodeView::Serving, commands: seq![CommandView::Poll] }
    }
}

/// The stride of a node whose key pair and TLS parameters are settled: the
/// operator is warned of TLS parameters without effect, and the swarm is
/// assembled. The listeners to come are fixed here: the WebSocket listener is
/// secure exactly where TLS material was loaded.
pub open spec fn assembling(
    settings: SettingsView,
    identity: Seq<u8>,
    setup: TlsSetupView,
) -> StrideView {
    let material = setup_material(setup);
    let plan = swarm_plan(identity, settings.ping, wants_websocket(settings), material);
    let node = NodeView::Assembling {
        listeners: listeners(settings.listen_tcp, settings.listen_websocket, material is Some),
        local_peer_id: peer_id_text(identity),
    };
    match setup_warning(setup) {
        Some(warning) => StrideView {
            node,
            commands: seq![CommandView::Warn(warning), CommandView::Assemble(plan)],
        },
        None => StrideView { node, commands: seq![CommandView::Assemble(plan)] },
    }
}

/// The stride that follows a step of the TLS loading.
pub open spec fn after_tls_step(
    settings: SettingsView,
    identity: Seq<u8>,
    step: TlsStepView,
) -> StrideView {
    match step {
        TlsStepView::Perform { task, action } => StrideView {
            node: NodeView::LoadingTls { settings, identity, task },
            commands: seq![CommandView::Perform(action)],
        },
        TlsStepView::Finished(setup) => assembling(settings, identity, setup),
        TlsStepView::Failed(error) => stopped_with(StartupErrorView::Tls(error)),
    }
}

/// The stride that follows a step of the key-file task: once the key pair is
/// there, the TLS parameters are next.
pub open spec fn after_key_step(settings: SettingsView, step: KeyFileStepView) -> StrideView {
    match step {
        KeyFileStepView::Perform { task, action } => StrideView {
            node: NodeView::LoadingIdentity { settings, task },
            commands: seq![CommandView::Perform(action)],
        },
        KeyFileStepView::Finished { secret } => after_tls_step(
            settings,
            secret,
            crate::tls::first_step(
                settings.tls_private_key,
                settings.tls_certificate,
                wants_websocket(settings),
            ),
        ),
        KeyFileStepView::Failed(error) => stopped_with(StartupErrorView::Identity(error)),
    }
}

/// The first stride of a node whose key-file task begins with `first`: the
/// log is installed at level `Info` before anything else.
pub open spec fn begun(settings: SettingsView, is_terminal: bool, first: KeyFileStepView) -> StrideView {
    let stride = after_key_step(settings, first);
    match settings_for(LevelFilter::Info, settings.json, settings.no_timestamp, is_terminal) {
        Some(log) => StrideView {
            node: stride.node,
            commands: seq![CommandView::InstallLog(log)] + stride.commands,
        },
        None => stride,
    }
}

/// The stride of `node` on `input`.
///
/// While the node starts, each input answers the command that the node
/// waits on, and leads to the next command or to the exit; an input that
/// answers nothing is passed over. A node that serves logs the swarm's event
/// where it is worth an entry, and polls again. A node that stopped stays
/// stopped.
pub open spec fn reacted(node: NodeView, input: InputView) -> StrideView {
    match node {
        NodeView::LoadingIdentity { settings, task } => match input {
            InputView::Io(outcome) => after_key_step(
                settings,
                crate::keyfile::next_step(task, outcome),
            ),
            _ => StrideView { node, commands: Seq::empty() },
        },
        NodeView::LoadingTls { settings, identity, task } => match input {
            InputView::Io(outcome) => after_tls_step(
                settings,
                identity,
                crate::tls::next_step(task, outcome),
            ),
            _ => StrideView { node, commands: Seq::empty() },
        },
        NodeView::Assembling { listeners, local_peer_id } => match input {
            InputView::Assembled => StrideView {
                node: binding(listeners, 0).node,
                commands: seq![CommandView::Log(startup_entry_for(local_peer_id))] + binding(
                    listeners,
                    0,
                ).commands,
            },
            InputView::AssemblyFailed { detail } => stopped_with(
                StartupErrorView::Transport { detail },
            ),
            _ => StrideView { node, commands: Seq::empty() },
        },
        NodeView::Binding { listeners, next } => match input {
            InputView::Bound => binding(listeners, next + 1),
            InputView::BindFailed { detail } => if next < listeners.len() {
                stopped_with(
                    StartupErrorView::Bind(
                        BindErrorView { listener: listeners[next as int], detail },
                    ),
                )
            } else {
                stopped_with(StartupErrorView::Transport { detail })
            },
            _ => StrideView { node, commands: Seq::empty() },
        },
        NodeView::Serving => match input {
            InputView::Swarm(event) => match entry_for(event) {
                Some(entry) => StrideView {
                    node: NodeView::Serving,
                    commands: seq![CommandView::Log(entry), CommandView::Poll],
                },
                None => StrideView { node: NodeView::Serving, commands: seq![CommandView::Poll] },
            },
            _ => StrideView { node: NodeView::Serving, commands: seq![CommandView::Poll] },
        },
        NodeView::Stopped => StrideView { node: NodeView::Stopped, commands: Seq::empty() },
    }
}

/// The key-file step that a first stride began with: the task that the node
/// holds, and the file operation that it asks for last.
pub open spec fn first_key_step(stride: StrideView) -> KeyFileStepView {
    match (stride.node, stride.commands.last()) {
        (
            NodeView::LoadingIdentity { settings, task },
            CommandView::Perform(action),
        ) => KeyFileStepView::Perform { task, action },
        _ => KeyFileStepView::Failed(IdentityErrorView::InvalidKeyBytes { length: 0 }),
    }
}

fn duplicate_text(text: &Option<String>) -> (copy: Option<String>)
    ensures
        optional_text(copy) == optional_text(*text),
{
    match text {
        Some(t) => Some(t.clone()),
        None => None,
    }
}

fn one(command: Command) -> (commands: Vec<Command>)
    ensures
        command_views(commands@) == seq![command@],
{
    let mut commands: Vec<Command> = Vec::new();
    commands.push(command);
    assert(command_views(commands@) =~= seq![command@]);
    commands
}

fn two(first: Command, second: Command) -> (commands: Vec<Command>)
    ensures
        command_views(commands@) == seq![first@, second@],
{
    let mut commands: Vec<Command> = Vec::new();
    commands.push(first);
    commands.push(second);
    assert(command_views(commands@) =~= seq![first@, second@]);
    commands
}

fn none() -> (commands: Vec<Command>)
    ensures
        command_views(commands@) == Seq::<CommandView>::empty(),
{
    let commands: Vec<Command> = Vec::new();
    assert(command_views(commands@) =~= Seq::<CommandView>::empty());
    commands
}

fn in_front(first: Command, mut rest: Vec<Command>) -> (commands: Vec<Command>)
    ensures
        command_views(commands@) == seq![first@] + command_views(rest@),
{
    let ghost before = rest@;
    rest.insert(0, first);
    assert(command_views(rest@) =~= seq![first@] + command_views(before));
    rest
}

fn stop(error: StartupError) -> (stride: Stride)
    ensures
        stride@ == stopped_with(error@),
{
    Stride { node: Node::Stopped, commands: one(Command::Exit { error, code: FAILURE_EXIT_CODE }) }
}

fn bind(all: Vec<ListenAddress>, next: usize) -> (stride: Stride)
    ensures
        stride@ == binding(all@, next as nat),
{
    if next < all.len() {
        let address = all[next];
        Stride { node: Node::Binding { listeners: all, next }, commands: one(Command::Listen(address)) }
    } else {
        Stride { node: Node::Serving, commands: one(Command::Poll) }
    }
}

fn assemble(settings: Settings, identity: Keypair, setup: TlsSetup) -> (stride: Stride)
    ensures
        stride@ == assembling(settings@, identity.secret_bytes(), setup@),
{
    let warning = setup.warning();
    let material = setup.into_material();
    let secure = material.is_some();
    let websocket = settings.listen_websocket.is_some();
    let all = listen_addresses(settings.listen_tcp, settings.listen_websocket, secure);
    let plan = create_swarm(identity, settings.ping, websocket, material);
    let node = Node::Assembling { listeners: all, local_peer_id: plan.local_peer_id.clone() };
    match warning {
        Some(text) => Stride { node, commands: two(Command::Warn(text), Command::Assemble(plan)) },
        None => Stride { node, commands: one(Command::Assemble(plan)) },
    }
}

fn tls_stride(settings: Settings, identity: Keypair, step: TlsStep) -> (stride: Stride)
    ensures
        stride@ == after_tls_step(settings@, identity.secret_bytes(), step@),
{
    match step {
        TlsStep::Perform { task, action } => Stride {
            node: Node::LoadingTls { settings, identity, task },
            commands: one(Command::Perform(action)),
        },
        TlsStep::Finished(setup) => assemble(settings, identity, setup),
        TlsStep::Failed(error) => stop(StartupError::Tls(error)),
    }
}

fn key_stride(settings: Settings, step: KeyFileStep) -> (stride: Stride)
    ensures
        stride@ == after_key_step(settings@, step@),
{
    match step {
        KeyFileStep::Perform { task, action } => Stride {
            node: Node::LoadingIdentity { settings, task },
            commands: one(Command::Perform(action)),
        },
        KeyFileStep::Finished(identity) => {
            let first = tls_config_from_params(
                duplicate_text(&settings.tls_private_key),
                duplicate_text(&settings.tls_certificate),
                settings.listen_websocket.is_some(),
            );
            tls_stride(settings, identity, first)
        },
        KeyFileStep::Failed(error) => stop(StartupError::Identity(error)),
    }
}

impl Node {
    /// The first stride of a node whose key-file task begins with `first`.
    /// `is_terminal` says whether the log goes to a terminal.
    pub fn begin(settings: Settings, is_terminal: bool, first: KeyFileStep) -> (stride: Stride)
        ensures
            stride@ == begun(settings@, is_terminal, first@),
    {
        let log = init_tracing(LevelFilter::Info, settings.json, settings.no_timestamp, is_terminal);
        let stride = key_stride(settings, first);
        match log {
            Some(log_settings) => Stride {
                node: stride.node,
                commands: in_front(Command::InstallLog(log_settings), stride.commands),
            },
            None => stride,
        }
    }

    /// The first stride of a node: the log is installed, and the key file is
    /// loaded, or generated where the settings say so. A generated key is
    /// fresh; of the stride with it, the contract says what holds whichever
    /// key it is.
    pub fn start(settings: Settings, is_terminal: bool) -> (stride: Stride)
        ensures
            stride@ == begun(settings@, is_terminal, first_key_step(stride@)),
            !settings.generate_secret ==> first_key_step(stride@) == load_step(
                settings@.secret_file,
            ),
            settings.generate_secret ==> is_secret_scalar(step_secret(first_key_step(stride@)))
                && first_key_step(stride@) == generate_step(
                settings@.secret_file,
                settings@.secret_file_parent,
                step_secret(first_key_step(stride@)),
            ),
    {
        let first = load_or_generate(
            settings.secret_file.clone(),
            duplicate_text(&settings.secret_file_parent),
            settings.generate_secret,
        );
        let ghost step = first@;
        let stride = Node::begin(settings, is_terminal, first);
        assert(first_key_step(stride@) == step);
        stride
    }

    /// The stride of the node on `input`.
    pub fn advance(self, input: Input) -> (stride: Stride)
        ensures
            stride@ == reacted(self@, input@),
    {
        match self {
            Node::LoadingIdentity { settings, task } => match input {
                Input::Io(outcome) => key_stride(settings, task.advance(outcome)),
                _ => Stride { node: Node::LoadingIdentity { settings, task }, commands: none() },
            },
            Node::LoadingTls { settings, identity, task } => match input {
                Input::Io(outcome) => tls_stride(settings, identity, task.advance(outcome)),
                _ => Stride {
                    node: Node::LoadingTls { settings, identity, task },
                    commands: none(),
                },
            },
            Node::Assembling { listeners, local_peer_id } => match input {
                Input::Assembled => {
                    let announce = Command::Log(startup_entry(&local_peer_id));
                    let stride = bind(listeners, 0);
                    Stride { node: stride.node, commands: in_front(announce, stride.commands) }
                },
                Input::AssemblyFailed { detail } => stop(StartupError::Transport { detail }),
                _ => Stride { node: Node::Assembling { listeners, local_peer_id }, commands: none() },
            },
            Node::Binding { listeners, next } => match input {
                Input::Bound => {
                    if next < listeners.len() {
                        bind(listeners, next + 1)
                    } else {
                        Stride { node: Node::Serving, commands: one(Command::Poll) }
                    }
                },
                Input::BindFailed { detail } => {
                    if next < listeners.len() {
                        stop(StartupError::Bind(BindError { listener: listeners[next], detail }))
                    } else {
                        stop(StartupError::Transport { detail })
                    }
                },
                _ => Stride { node: Node::Binding { listeners, next }, commands: none() },
            },
            Node::Serving => match input {
                Input::Swarm(event) => match log_entry(&event) {
                    Some(entry) => Stride {
                        node: Node::Serving,
                        commands: two(Command::Log(entry), Command::Poll),
                    },
                    None => Stride { node: Node::Serving, commands: one(Command::Poll) },
                },
                _ => Stride { node: Node::Serving, commands: one(Command::Poll) },
            },
            Node::Stopped => Stride { node: Node::Stopped, commands: none() },
        }
    }
}

/// Whether a command is a report: something for the host to write down,
/// which it answers with nothing.
pub open spec fn is_report(command: CommandView) -> bool {
    command is InstallLog || command is Warn || command is Log
}

/// Whether a list of commands has the shape that a host can carry out:
/// reports first, and at the end the one command that the host answers, or
/// the exit. The empty list, which asks for nothing, has that shape too.
pub open spec fn ends_with_a_question(commands: Seq<CommandView>) -> bool {
    commands.len() == 0 || (!is_report(commands.last()) && forall|i: int|
        0 <= i < commands.len() - 1 ==> is_report(#[trigger] commands[i]))
}

/// Every stride asks the host one thing at a time: its commands are reports,
/// followed by a single command that the host answers or by the exit.
pub proof fn lemma_one_question_at_a_time(node: NodeView, input: InputView)
    ensures
        ends_with_a_question(reacted(node, input).commands),
{
    let commands = reacted(node, input).commands;
    if commands.len() > 0 {
        assert(!is_report(commands.last()));
        assert forall|i: int| 0 <= i < commands.len() - 1 implies is_report(
            #[trigger] commands[i],
        ) by {}
    }
}

/// The first stride has that shape too, whatever the key-file task begins
/// with.
pub proof fn lemma_first_stride_asks_one_question(
    settings: SettingsView,
    is_terminal: bool,
    first: KeyFileStepView,
)
    ensures
        ends_with_a_question(begun(settings, is_terminal, first).commands),
        begun(settings, is_terminal, first).commands.len() > 0,
{
    let inner = after_key_step(settings, first).commands;
    let commands = begun(settings, is_terminal, first).commands;
    assert(inner.len() > 0);
    assert(!is_report(inner.last()));
    assert forall|i: int| 0 <= i < inner.len() - 1 implies is_report(#[trigger] inner[i]) by {}
    assert(commands.last() == inner.last());
    assert forall|i: int| 0 <= i < commands.len() - 1 implies is_report(
        #[trigger] commands[i],
    ) by {
        if commands.len() != inner.len() && i > 0 {
            assert(commands[i] == inner[i - 1]);
        }
    }
}

/// Nothing stops a node that serves: whatever reaches it, it serves on, it
/// asks for the next event of the swarm, and it never asks to exit.
pub proof fn lemma_serving_never_stops(input: InputView)
    ensures
        reacted(NodeView::Serving, input).node == NodeView::Serving,
        reacted(NodeView::Serving, input).commands.len() > 0,
        reacted(NodeView::Serving, input).commands.last() == CommandView::Poll,
        forall|i: int|
            0 <= i < reacted(NodeView::Serving, input).commands.len() ==> !(#[trigger] reacted(
                NodeView::Serving,
                input,
            ).commands[i] is Exit),
{
}

/// What a node that serves logs is decided by the event alone: an event of
/// the swarm that is worth an entry is logged with that entry, before the
/// swarm is polled again; anything else is not logged.
pub proof fn lemma_serving_logs_events(input: InputView)
    ensures
        (input matches InputView::Swarm(event) && entry_for(event) is Some) ==> reacted(
            NodeView::Serving,
            input,
        ).commands == seq![
            CommandView::Log(entry_for(input->Swarm_0)->Some_0),
            CommandView::Poll,
        ],
        !(input matches InputView::Swarm(event) && entry_for(event) is Some) ==> reacted(
            NodeView::Serving,
            input,
        ).commands == seq![CommandView::Poll],
{
}

/// A node stops only while it starts, only by an exit with a status that is
/// not zero, and for good: a stride that ends in `Stopped` from another state
/// holds the exit and nothing else; a stride that holds an exit ends in
/// `Stopped`; and a stopped node asks for nothing any more.
pub proof fn lemma_stopping(node: NodeView, input: InputView)
    ensures
        reacted(NodeView::Stopped, input) == (StrideView {
            node: NodeView::Stopped,
            commands: Seq::empty(),
        }),
        node != NodeView::Stopped && reacted(node, input).node == NodeView::Stopped ==> {
            &&& node != NodeView::Serving
            &&& reacted(node, input).commands.len() == 1
            &&& reacted(node, input).commands[0] matches CommandView::Exit { error, code }
            &&& code != 0
        },
        forall|i: int|
            0 <= i < reacted(node, input).commands.len() && (#[trigger] reacted(
                node,
                input,
            ).commands[i] is Exit) ==> reacted(node, input).node == NodeView::Stopped,
{
}

/// The TCP listener is bound first, and it is always there. Once the swarm
/// of a node with these settings is assembled, the node announces its peer
/// identifier and binds the TCP listener on the TCP port. If that fails, the
/// node stops with a bind error that names the TCP listener. If it succeeds,
/// the WebSocket listener is next where the settings ask for one, and the
/// node serves where they do not.
pub proof fn lemma_tcp_listener_first(
    settings: SettingsView,
    identity: Seq<u8>,
    setup: TlsSetupView,
    detail: Seq<char>,
)
    ensures
        ({
            let waiting = assembling(settings, identity, setup).node;
            let tcp = ListenAddress { kind: ListenerKind::Tcp, port: settings.listen_tcp };
            let bound = reacted(waiting, InputView::Assembled);
            &&& bound.commands == seq![
                CommandView::Log(startup_entry_for(peer_id_text(identity))),
                CommandView::Listen(tcp),
            ]
            &&& reacted(bound.node, InputView::BindFailed { detail }) == stopped_with(
                StartupErrorView::Bind(BindErrorView { listener: tcp, detail }),
            )
            &&& settings.listen_websocket is None ==> reacted(bound.node, InputView::Bound) == (
            StrideView { node: NodeView::Serving, commands: seq![CommandView::Poll] })
            &&& settings.listen_websocket matches Some(port) ==> {
                let second = reacted(bound.node, InputView::Bound);
                &&& second.commands.len() == 1
                &&& second.commands[0] matches CommandView::Listen(address)
                &&& address.port == port
                &&& (address.kind == ListenerKind::SecureWebSocket <==> setup is Loaded)
                &&& (address.kind == ListenerKind::WebSocket <==> !(setup is Loaded))
                &&& reacted(second.node, InputView::Bound) == (StrideView {
                    node: NodeView::Serving,
                    commands: seq![CommandView::Poll],
                })
            }
        }),
{
    let all = listeners(settings.listen_tcp, settings.listen_websocket, setup_material(setup) is Some);
    assert(all[0] == ListenAddress { kind: ListenerKind::Tcp, port: settings.listen_tcp });
    let bound = reacted(assembling(settings, identity, setup).node, InputView::Assembled);
    assert(bound.commands =~= seq![
        CommandView::Log(startup_entry_for(peer_id_text(identity))),
        CommandView::Listen(all[0]),
    ]);
}

/// One TLS path without the other stops the node as soon as it has its key
/// pair, with `IncompleteTlsConfig`, before any TLS file is read.
pub proof fn lemma_incomplete_tls_stops_the_node(settings: SettingsView, secret: Seq<u8>)
    requires
        settings.tls_private_key is Some != settings.tls_certificate is Some,
    ensures
        after_key_step(settings, KeyFileStepView::Finished { secret }) == stopped_with(
            StartupErrorView::Tls(TlsErrorView::IncompleteTlsConfig),
        ),
{
}

/// Both TLS paths without a WebSocket listener do not stop the node: as soon
/// as it has its key pair, it warns the operator and has its swarm assembled
/// without a WebSocket layer and without reading a TLS file; its one
/// listener is the TCP listener.
pub proof fn lemma_unused_tls_starts_the_node(settings: SettingsView, secret: Seq<u8>)
    requires
        settings.tls_private_key is Some,
        settings.tls_certificate is Some,
        settings.listen_websocket is None,
    ensures
        ({
            let stride = after_key_step(settings, KeyFileStepView::Finished { secret });
            &&& stride.commands == seq![
                CommandView::Warn(setup_warning(TlsSetupView::Unused)->Some_0),
                CommandView::Assemble(swarm_plan(secret, settings.ping, false, None)),
            ]
            &&& swarm_plan(secret, settings.ping, false, None).transport.websocket is None
            &&& stride.node == NodeView::Assembling {
                listeners: seq![ListenAddress { kind: ListenerKind::Tcp, port: settings.listen_tcp }],
                local_peer_id: peer_id_text(secret),
            }
        }),
{
}

/// No TLS path at all starts the node without a word: the swarm is assembled
/// at once, and a WebSocket listener, where there is one, is plain.
pub proof fn lemma_no_tls_starts_the_node(settings: SettingsView, secret: Seq<u8>)
    requires
        settings.tls_private_key is None,
        settings.tls_certificate is None,
    ensures
        ({
            let stride = after_key_step(settings, KeyFileStepView::Finished { secret });
            &&& stride.commands == seq![
                CommandView::Assemble(
                    swarm_plan(secret, settings.ping, wants_websocket(settings), None),
                ),
            ]
            &&& stride.node == NodeView::Assembling {
                listeners: listeners(settings.listen_tcp, settings.listen_websocket, false),
                local_peer_id: peer_id_text(secret),
            }
        }),
{
}

} // verus!
