//! The lifecycle controller: it owns exactly one of the four operating
//! modes (launcher, installer, loader, running app), routes every incoming
//! event to the active mode, and replaces the active mode when that mode
//! signals it is done.
//!
//! Every step is a pure function of the controller and the event; the
//! surrounding process performs the returned [`Action`] (run a mode's
//! startup task, read a settings file, run a mode's stop procedure and
//! exit) and feeds the outcome back as the next event.

use vstd::prelude::*;
use vstd::string::StringExecFns;

use crate::config::{config_file_path, config_file_path_spec, AppConfig, Config, ConfigFileRead,
    DaemonConfigRead};
use crate::network::Network;

verus! {

/// A coin of the wallet, reduced to the value the cache tracks.
#[derive(Clone, Copy, Debug, PartialEq, Eq, Structural)]
pub struct Coin {
    /// Value in satoshis.
    pub amount: u64,
}

/// A spend transaction awaiting signatures or broadcast.
#[derive(Clone, Copy, Debug, PartialEq, Eq, Structural)]
pub struct SpendTx {
    /// Total value spent, in satoshis.
    pub amount: u64,
}

/// The point-in-time read of wallet state taken at the end of the loader's
/// synchronization; consumed exactly once to build the running app's cache.
#[derive(Debug, PartialEq, Eq)]
pub struct SyncSnapshot {
    pub network: Network,
    pub block_height: u64,
    /// The wallet's main descriptor.
    pub descriptor: String,
    pub coins: Vec<Coin>,
    pub spend_txs: Vec<SpendTx>,
}

/// The live cache the running app starts from.
#[derive(Debug, PartialEq, Eq)]
pub struct Cache {
    pub network: Network,
    pub blockheight: u64,
    pub coins: Vec<Coin>,
    pub spend_txs: Vec<SpendTx>,
}

/// The wallet, derived from the synchronized descriptor and owned by the
/// running app for its lifetime.
#[derive(Debug, PartialEq, Eq)]
pub struct Wallet {
    pub main_descriptor: String,
}

/// The four mutually exclusive lifecycle modes and the data each one owns.
#[derive(Debug, PartialEq, Eq)]
pub enum State {
    /// Presents the networks found under the data directory.
    Launcher { datadir_path: String },
    /// Drives the wallet-creation wizard.
    Installer { datadir_path: String, network: Network },
    /// Connects to the daemon and synchronizes.  The data directory is
    /// optional because the process can run from a configuration file path
    /// alone.
    Loader { datadir_path: Option<String>, gui_config: AppConfig },
    /// The running application.
    App { cache: Cache, wallet: Wallet, gui_config: AppConfig },
}

/// Which of the four modes a state is.
#[derive(Clone, Copy, Debug, PartialEq, Eq, Structural)]
pub enum ModeKind {
    Launcher,
    Installer,
    Loader,
    App,
}

impl State {
    /// The mode this state is.
    pub open spec fn kind(self) -> ModeKind {
        match self {
            State::Launcher { .. } => ModeKind::Launcher,
            State::Installer { .. } => ModeKind::Installer,
            State::Loader { .. } => ModeKind::Loader,
            State::App { .. } => ModeKind::App,
        }
    }
}

/// A terminal event of the launcher.
#[derive(Debug, PartialEq, Eq)]
pub enum LauncherMessage {
    /// The user asked to create a new wallet.
    Install,
    /// The user asked to run the wallet of this network.
    Run(Network),
}

/// An event of the installer.
#[derive(Debug, PartialEq, Eq)]
pub enum InstallerMessage {
    /// The wizard finished and wrote its configuration file at this path.
    Exit(String),
    /// An internal wizard step, forwarded to the installer's own handler.
    Step(u64),
}

/// An event of the loader.
#[derive(Debug, PartialEq, Eq)]
pub enum LoaderMessage {
    /// The user asked to go back and pick another network.
    SwitchNetwork,
    /// Synchronization finished with this snapshot.
    Synced(SyncSnapshot),
    /// An internal progress event, forwarded to the loader's own handler.
    Progress(u64),
}

/// An event of the running app.
#[derive(Debug, PartialEq, Eq)]
pub enum AppMessage {
    /// An interaction, forwarded to the app's own handler.
    Interaction(u64),
}

/// A window-system event.
#[derive(Debug, PartialEq, Eq)]
pub enum UiEvent {
    /// The window manager asked to close the window; this is a shutdown
    /// request.
    CloseRequested,
    /// Any other window-system event; the controller discards these.
    Other(u64),
}

/// An event arriving at the controller.
#[derive(Debug, PartialEq, Eq)]
pub enum Message {
    /// The external interrupt signal; this is a shutdown request.
    CtrlC,
    Launch(LauncherMessage),
    Install(InstallerMessage),
    Load(LoaderMessage),
    Run(AppMessage),
    Event(UiEvent),
    /// The settings read requested by [`Action::LoadConfig`] finished with
    /// this outcome.
    ConfigLoaded(ConfigFileRead),
    /// The daemon configuration read requested by
    /// [`Action::LoadDaemonConfig`] finished with this outcome.
    DaemonConfigLoaded(DaemonConfigRead),
}

/// What the surrounding process must do after a step.
#[derive(Debug, PartialEq, Eq)]
pub enum Action {
    /// Nothing: the event was discarded.
    Idle,
    /// Hand the event to the active mode's own handler.
    Forward,
    /// A new mode was constructed; run its startup task (the launcher has
    /// none).
    Start(ModeKind),
    /// Read and parse the wallet settings file at this path, then feed the
    /// outcome back as [`Message::ConfigLoaded`].
    LoadConfig(String),
    /// Read and parse the companion daemon configuration file at this path
    /// (its contents stay at the process edge), then feed the outcome back
    /// as [`Message::DaemonConfigLoaded`].
    LoadDaemonConfig(String),
    /// Shutdown: run this mode's stop procedure to completion, then let the
    /// process exit.
    Stop(ModeKind),
    /// A configuration file needed for a mode hand-off or at startup — the
    /// wallet settings or the daemon configuration they name — could not be
    /// read, or the loader was asked to switch network without a known data
    /// directory: report the failure and abort.  Aborting here is a known
    /// sharp edge kept deliberately; a recoverable report to the active
    /// mode may serve better.
    Fatal,
}

/// The mathematical value of an action: paths as character sequences.
pub ghost enum ActionV {
    Idle,
    Forward,
    Start(ModeKind),
    LoadConfig(Seq<char>),
    LoadDaemonConfig(Seq<char>),
    Stop(ModeKind),
    Fatal,
}

impl View for Action {
    type V = ActionV;

    open spec fn view(&self) -> ActionV {
        match self {
            Action::Idle => ActionV::Idle,
            Action::Forward => ActionV::Forward,
            Action::Start(k) => ActionV::Start(*k),
            Action::LoadConfig(p) => ActionV::LoadConfig(p@),
            Action::LoadDaemonConfig(p) => ActionV::LoadDaemonConfig(p@),
            Action::Stop(k) => ActionV::Stop(*k),
            Action::Fatal => ActionV::Fatal,
        }
    }
}

/// A read in flight during a mode hand-off: first the wallet settings
/// file, then the companion daemon configuration file the settings name.
/// The surrounding process performs reads in request order and one at a
/// time, so at most one is outstanding; an outcome arriving when none of
/// its kind is outstanding is stale (its requester was replaced) and is
/// discarded.
#[derive(Debug, PartialEq, Eq)]
pub enum PendingConfig {
    /// The wallet settings file was requested.  The data directory is the
    /// one the new loader will keep, if one is known.
    Gui { datadir_path: Option<String> },
    /// The settings parsed; the daemon configuration file they name was
    /// requested next.
    Daemon { datadir_path: Option<String>, gui_config: AppConfig },
}

/// The lifecycle controller.  It holds exactly one active mode at all
/// times; `stopped` records that the process is past its shutdown or abort
/// point, after which every event is discarded.
#[derive(Debug, PartialEq, Eq)]
pub struct GUI {
    pub state: State,
    pub pending_config: Option<PendingConfig>,
    pub stopped: bool,
}

/// Which mode an event is tagged for, if any; shutdown requests and
/// settings-read outcomes are cross-cutting.
pub open spec fn message_mode(m: Message) -> Option<ModeKind> {
    match m {
        Message::Launch(_) => Some(ModeKind::Launcher),
        Message::Install(_) => Some(ModeKind::Installer),
        Message::Load(_) => Some(ModeKind::Loader),
        Message::Run(_) => Some(ModeKind::App),
        _ => None,
    }
}

/// Whether an event asks the process to shut down: the external interrupt
/// and the window-close request take the same path.
pub open spec fn is_shutdown_request(m: Message) -> bool {
    m == Message::CtrlC || m == Message::Event(UiEvent::CloseRequested)
}

/// The controller's transition function: what one event does to the
/// controller and what the surrounding process must do next.  Shutdown is
/// checked before mode dispatch, so it pre-empts mode-specific handling.
pub open spec fn step_spec(pre: GUI, message: Message) -> (GUI, ActionV) {
    if pre.stopped {
        (pre, ActionV::Idle)
    } else if is_shutdown_request(message) {
        (
            GUI { state: pre.state, pending_config: None, stopped: true },
            ActionV::Stop(pre.state.kind()),
        )
    } else {
        match message {
            Message::CtrlC => (pre, ActionV::Idle),
            Message::Event(_) => (pre, ActionV::Idle),
            Message::Launch(msg) => match pre.state {
                State::Launcher { datadir_path } => match msg {
                    LauncherMessage::Install => (
                        GUI {
                            state: State::Installer { datadir_path, network: Network::Bitcoin },
                            pending_config: None,
                            stopped: false,
                        },
                        ActionV::Start(ModeKind::Installer),
                    ),
                    LauncherMessage::Run(n) => (
                        GUI {
                            state: State::Launcher { datadir_path },
                            pending_config: Some(
                                PendingConfig::Gui { datadir_path: Some(datadir_path) },
                            ),
                            stopped: false,
                        },
                        ActionV::LoadConfig(config_file_path_spec(datadir_path@, n)),
                    ),
                },
                _ => (pre, ActionV::Idle),
            },
            Message::Install(msg) => match pre.state {
                State::Installer { .. } => match msg {
                    InstallerMessage::Exit(path) => (
                        GUI {
                            state: pre.state,
                            pending_config: Some(PendingConfig::Gui { datadir_path: None }),
                            stopped: false,
                        },
                        ActionV::LoadConfig(path@),
                    ),
                    InstallerMessage::Step(_) => (pre, ActionV::Forward),
                },
                _ => (pre, ActionV::Idle),
            },
            Message::Load(msg) => match pre.state {
                State::Loader { datadir_path, gui_config } => match msg {
                    LoaderMessage::SwitchNetwork => match datadir_path {
                        Some(d) => (
                            GUI {
                                state: State::Launcher { datadir_path: d },
                                pending_config: None,
                                stopped: false,
                            },
                            ActionV::Start(ModeKind::Launcher),
                        ),
                        None => (
                            GUI { state: pre.state, pending_config: None, stopped: true },
                            ActionV::Fatal,
                        ),
                    },
                    LoaderMessage::Synced(s) => (
                        GUI {
                            state: State::App {
                                cache: Cache {
                                    network: s.network,
                                    blockheight: s.block_height,
                                    coins: s.coins,
                                    spend_txs: s.spend_txs,
                                },
                                wallet: Wallet { main_descriptor: s.descriptor },
                                gui_config,
                            },
                            pending_config: None,
                            stopped: false,
                        },
                        ActionV::Start(ModeKind::App),
                    ),
                    LoaderMessage::Progress(_) => (pre, ActionV::Forward),
                },
                _ => (pre, ActionV::Idle),
            },
            Message::Run(_) => match pre.state {
                State::App { .. } => (pre, ActionV::Forward),
                _ => (pre, ActionV::Idle),
            },
            Message::ConfigLoaded(read) => match pre.pending_config {
                Some(PendingConfig::Gui { datadir_path }) => match read {
                    ConfigFileRead::Parsed(cfg) => (
                        GUI {
                            state: pre.state,
                            pending_config: Some(
                                PendingConfig::Daemon { datadir_path, gui_config: cfg },
                            ),
                            stopped: false,
                        },
                        ActionV::LoadDaemonConfig(cfg.daemon_config_path@),
                    ),
                    _ => (
                        GUI { state: pre.state, pending_config: None, stopped: true },
                        ActionV::Fatal,
                    ),
                },
                _ => (pre, ActionV::Idle),
            },
            Message::DaemonConfigLoaded(read) => match pre.pending_config {
                Some(PendingConfig::Daemon { datadir_path, gui_config }) => match read {
                    DaemonConfigRead::Loaded => (
                        GUI {
                            state: State::Loader { datadir_path, gui_config },
                            pending_config: None,
                            stopped: false,
                        },
                        ActionV::Start(ModeKind::Loader),
                    ),
                    DaemonConfigRead::Failed => (
                        GUI { state: pre.state, pending_config: None, stopped: true },
                        ActionV::Fatal,
                    ),
                },
                _ => (pre, ActionV::Idle),
            },
        }
    }
}

/// The initial controller for a resolved startup decision, and the startup
/// task the process must run for it.  Starting the loader also needs the
/// companion daemon configuration file the settings name; if its read
/// failed, startup is fatal.
pub open spec fn init_spec(config: Config, daemon_config: DaemonConfigRead) -> (GUI, ActionV) {
    match config {
        Config::Run(datadir_path, cfg) => (
            GUI {
                state: State::Loader { datadir_path, gui_config: cfg },
                pending_config: None,
                stopped: daemon_config is Failed,
            },
            if daemon_config is Loaded {
                ActionV::Start(ModeKind::Loader)
            } else {
                ActionV::Fatal
            },
        ),
        Config::Launcher(datadir_path) => (
            GUI {
                state: State::Launcher { datadir_path },
                pending_config: None,
                stopped: false,
            },
            ActionV::Start(ModeKind::Launcher),
        ),
        Config::Install(datadir_path, network) => (
            GUI {
                state: State::Installer { datadir_path, network },
                pending_config: None,
                stopped: false,
            },
            ActionV::Start(ModeKind::Installer),
        ),
    }
}

/// The title the window carries in each mode.
pub open spec fn title_spec(state: State) -> Seq<char> {
    if state is Installer {
        "Liana Installer"@
    } else {
        "Liana"@
    }
}

fn state_kind(s: &State) -> (k: ModeKind)
    ensures
        k == s.kind(),
{
    match s {
        State::Launcher { .. } => ModeKind::Launcher,
        State::Installer { .. } => ModeKind::Installer,
        State::Loader { .. } => ModeKind::Loader,
        State::App { .. } => ModeKind::App,
    }
}

impl GUI {
    /// A hand-off's bookkeeping stays tied to the mode that requested it:
    /// a settings read is outstanding only while the launcher or the
    /// installer that asked for it is still the active mode.
    pub open spec fn wf(self) -> bool {
        self.pending_config is Some ==> (self.state is Launcher || self.state is Installer)
    }

    /// Builds the controller in the mode the startup decision names.
    /// `daemon_config` is the outcome of reading the companion daemon
    /// configuration file the settings name, consulted only when the
    /// decision is to run: a failed read is fatal at startup.
    pub fn new(config: Config, daemon_config: DaemonConfigRead) -> (r: (GUI, Action))
        ensures
            r.0 == init_spec(config, daemon_config).0,
            r.1@ == init_spec(config, daemon_config).1,
            r.0.wf(),
    {
        match config {
            Config::Run(datadir_path, cfg) => (
                GUI {
                    state: State::Loader { datadir_path, gui_config: cfg },
                    pending_config: None,
                    stopped: (match daemon_config {
                        DaemonConfigRead::Loaded => false,
                        DaemonConfigRead::Failed => true,
                    }),
                },
                match daemon_config {
                    DaemonConfigRead::Loaded => Action::Start(ModeKind::Loader),
                    DaemonConfigRead::Failed => Action::Fatal,
                },
            ),
            Config::Launcher(datadir_path) => (
                GUI {
                    state: State::Launcher { datadir_path },
                    pending_config: None,
                    stopped: false,
                },
                Action::Start(ModeKind::Launcher),
            ),
            Config::Install(datadir_path, network) => (
                GUI {
                    state: State::Installer { datadir_path, network },
                    pending_config: None,
                    stopped: false,
                },
                Action::Start(ModeKind::Installer),
            ),
        }
    }

    /// The window title of the active mode.
    pub fn title(&self) -> (r: String)
        ensures
            r@ == title_spec(self.state),
    {
        match &self.state {
            State::Installer { .. } => String::from_str("Liana Installer"),
            _ => String::from_str("Liana"),
        }
    }

    /// Processes one event: checks for a shutdown request first, then
    /// routes the event to the active mode, performing a mode transition
    /// when the event is the active mode's terminal event and discarding
    /// it when it is tagged for another mode.
    pub fn update(&mut self, message: Message) -> (a: Action)
        ensures
            *final(self) == step_spec(*old(self), message).0,
            a@ == step_spec(*old(self), message).1,
            old(self).wf() ==> final(self).wf(),
    {
        if self.stopped {
            return Action::Idle;
        }
        match message {
            Message::CtrlC | Message::Event(UiEvent::CloseRequested) => {
                self.pending_config = None;
                self.stopped = true;
                Action::Stop(state_kind(&self.state))
            },
            Message::Event(UiEvent::Other(_)) => Action::Idle,
            Message::Launch(msg) => match &self.state {
                State::Launcher { datadir_path } => match msg {
                    LauncherMessage::Install => {
                        let d = datadir_path.clone();
                        self.state = State::Installer {
                            datadir_path: d,
                            network: Network::Bitcoin,
                        };
                        self.pending_config = None;
                        Action::Start(ModeKind::Installer)
                    },
                    LauncherMessage::Run(n) => {
                        let path = config_file_path(datadir_path.as_str(), n);
                        let d = datadir_path.clone();
                        self.pending_config = Some(PendingConfig::Gui { datadir_path: Some(d) });
                        Action::LoadConfig(path)
                    },
                },
                _ => Action::Idle,
            },
            Message::Install(msg) => match &self.state {
                State::Installer { .. } => match msg {
                    InstallerMessage::Exit(path) => {
                        self.pending_config = Some(PendingConfig::Gui { datadir_path: None });
                        Action::LoadConfig(path)
                    },
                    InstallerMessage::Step(_) => Action::Forward,
                },
                _ => Action::Idle,
            },
            Message::Load(msg) => match &self.state {
                State::Loader { datadir_path, gui_config } => match msg {
                    LoaderMessage::SwitchNetwork => match datadir_path {
                        Some(d) => {
                            let d2 = d.clone();
                            self.state = State::Launcher { datadir_path: d2 };
                            self.pending_config = None;
                            Action::Start(ModeKind::Launcher)
                        },
                        None => {
                            self.pending_config = None;
                            self.stopped = true;
                            Action::Fatal
                        },
                    },
                    LoaderMessage::Synced(s) => {
                        let cfg = gui_config.clone();
                        let SyncSnapshot { network, block_height, descriptor, coins, spend_txs } =
                            s;
                        self.state = State::App {
                            cache: Cache {
                                network,
                                blockheight: block_height,
                                coins,
                                spend_txs,
                            },
                            wallet: Wallet { main_descriptor: descriptor },
                            gui_config: cfg,
                        };
                        self.pending_config = None;
                        Action::Start(ModeKind::App)
                    },
                    LoaderMessage::Progress(_) => Action::Forward,
                },
                _ => Action::Idle,
            },
            Message::Run(_) => match &self.state {
                State::App { .. } => Action::Forward,
                _ => Action::Idle,
            },
            Message::ConfigLoaded(read) => match &self.pending_config {
                Some(PendingConfig::Gui { datadir_path }) => {
                    let dd = match datadir_path {
                        Some(s) => Some(s.clone()),
                        None => None,
                    };
                    match read {
                        ConfigFileRead::Parsed(cfg) => {
                            let path = cfg.daemon_config_path.clone();
                            self.pending_config = Some(
                                PendingConfig::Daemon { datadir_path: dd, gui_config: cfg },
                            );
                            Action::LoadDaemonConfig(path)
                        },
                        _ => {
                            self.pending_config = None;
                            self.stopped = true;
                            Action::Fatal
                        },
                    }
                },
                _ => Action::Idle,
            },
            Message::DaemonConfigLoaded(read) => match &self.pending_config {
                Some(PendingConfig::Daemon { datadir_path, gui_config }) => {
                    let dd = match datadir_path {
                        Some(s) => Some(s.clone()),
                        None => None,
                    };
                    let cfg = gui_config.clone();
                    self.pending_config = None;
                    match read {
                        DaemonConfigRead::Loaded => {
                            self.state = State::Loader { datadir_path: dd, gui_config: cfg };
                            Action::Start(ModeKind::Loader)
                        },
                        DaemonConfigRead::Failed => {
                            self.stopped = true;
                            Action::Fatal
                        },
                    }
                },
                _ => Action::Idle,
            },
        }
    }
}

} // verus!
