use liana_gui::config::{AppConfig, Config, ConfigFileRead, DaemonConfigRead};
use liana_gui::lifecycle::{
    Action, AppMessage, Cache, InstallerMessage, LauncherMessage, LoaderMessage, Message,
    ModeKind, State, SyncSnapshot, UiEvent, GUI,
};
use liana_gui::network::Network;

fn sample_config() -> AppConfig {
    AppConfig {
        daemon_config_path: "/home/user/.liana/bitcoin/daemon.toml".to_string(),
        log_level: None,
        debug: None,
    }
}

fn loader_gui(datadir: Option<&str>) -> GUI {
    let (gui, action) = GUI::new(
        Config::Run(datadir.map(|d| d.to_string()), sample_config()),
        DaemonConfigRead::Loaded,
    );
    assert_eq!(Action::Start(ModeKind::Loader), action);
    gui
}

#[test]
fn startup_decision_picks_the_initial_mode() {
    let (gui, action) = GUI::new(Config::Launcher("d".to_string()), DaemonConfigRead::Loaded);
    assert!(matches!(gui.state, State::Launcher { .. }));
    assert_eq!(Action::Start(ModeKind::Launcher), action);

    let (gui, action) = GUI::new(Config::Install("d".to_string(), Network::Signet), DaemonConfigRead::Loaded);
    assert!(matches!(gui.state, State::Installer { .. }));
    assert_eq!(Action::Start(ModeKind::Installer), action);

    let (gui, action) = GUI::new(Config::Run(None, sample_config()), DaemonConfigRead::Loaded);
    assert!(matches!(gui.state, State::Loader { .. }));
    assert_eq!(Action::Start(ModeKind::Loader), action);
}

#[test]
fn synchronized_snapshot_builds_the_app_cache() {
    // A loader that synchronized at height 800000 with no coins and no
    // pending spend transactions hands the app an empty cache at that
    // height.
    let mut gui = loader_gui(Some("/home/user/.liana"));
    let snapshot = SyncSnapshot {
        network: Network::Bitcoin,
        block_height: 800000,
        descriptor: "wsh(multi(2,a,b))".to_string(),
        coins: vec![],
        spend_txs: vec![],
    };
    let action = gui.update(Message::Load(LoaderMessage::Synced(snapshot)));
    assert_eq!(Action::Start(ModeKind::App), action);
    match &gui.state {
        State::App { cache, wallet, gui_config } => {
            assert_eq!(
                &Cache {
                    network: Network::Bitcoin,
                    blockheight: 800000,
                    coins: vec![],
                    spend_txs: vec![],
                },
                cache
            );
            assert_eq!("wsh(multi(2,a,b))", wallet.main_descriptor.as_str());
            assert_eq!(&sample_config(), gui_config);
        }
        other => panic!("expected the app mode, got {:?}", other),
    }
}

#[test]
fn shutdown_stops_the_active_mode_exactly_once() {
    let mut gui = loader_gui(Some("d"));
    let action = gui.update(Message::CtrlC);
    assert_eq!(Action::Stop(ModeKind::Loader), action);
    assert!(gui.stopped);
    // The mode is kept in place for its stop procedure; later events do
    // nothing and stop nothing a second time.
    assert!(matches!(gui.state, State::Loader { .. }));
    assert_eq!(Action::Idle, gui.update(Message::CtrlC));
    assert_eq!(
        Action::Idle,
        gui.update(Message::Load(LoaderMessage::Progress(1)))
    );
}

#[test]
fn window_close_request_takes_the_shutdown_path() {
    let (mut gui, _) = GUI::new(Config::Launcher("d".to_string()), DaemonConfigRead::Loaded);
    let action = gui.update(Message::Event(UiEvent::CloseRequested));
    assert_eq!(Action::Stop(ModeKind::Launcher), action);
    assert!(gui.stopped);
}

#[test]
fn other_ui_events_are_discarded() {
    let (mut gui, _) = GUI::new(Config::Launcher("d".to_string()), DaemonConfigRead::Loaded);
    let action = gui.update(Message::Event(UiEvent::Other(7)));
    assert_eq!(Action::Idle, action);
    assert!(!gui.stopped);
}

#[test]
fn cross_mode_events_are_discarded_without_state_change() {
    // Events tagged for the installer, the loader and the app arrive while
    // the launcher is active: each is discarded and the state is unchanged.
    let (mut gui, _) = GUI::new(Config::Launcher("d".to_string()), DaemonConfigRead::Loaded);
    let before = State::Launcher { datadir_path: "d".to_string() };
    assert_eq!(before, gui.state);
    assert_eq!(
        Action::Idle,
        gui.update(Message::Install(InstallerMessage::Step(3)))
    );
    assert_eq!(
        Action::Idle,
        gui.update(Message::Load(LoaderMessage::SwitchNetwork))
    );
    assert_eq!(
        Action::Idle,
        gui.update(Message::Run(AppMessage::Interaction(9)))
    );
    assert_eq!(before, gui.state);
    assert!(!gui.stopped);
}

#[test]
fn launcher_install_request_builds_the_installer() {
    let (mut gui, _) = GUI::new(Config::Launcher("d".to_string()), DaemonConfigRead::Loaded);
    let action = gui.update(Message::Launch(LauncherMessage::Install));
    assert_eq!(Action::Start(ModeKind::Installer), action);
    assert_eq!(
        State::Installer {
            datadir_path: "d".to_string(),
            network: Network::Bitcoin,
        },
        gui.state
    );
}

#[test]
fn launcher_run_request_reads_that_network_settings() {
    let (mut gui, _) = GUI::new(Config::Launcher("/home/user/.liana".to_string()), DaemonConfigRead::Loaded);
    let action = gui.update(Message::Launch(LauncherMessage::Run(Network::Regtest)));
    assert_eq!(
        Action::LoadConfig("/home/user/.liana/regtest/gui.toml".to_string()),
        action
    );
    // Still the launcher until the settings arrive.
    assert!(matches!(gui.state, State::Launcher { .. }));
    // The parsed settings name the daemon configuration file, which is
    // requested next before the loader is built.
    let action = gui.update(Message::ConfigLoaded(ConfigFileRead::Parsed(
        sample_config(),
    )));
    assert_eq!(
        Action::LoadDaemonConfig(sample_config().daemon_config_path),
        action
    );
    assert!(matches!(gui.state, State::Launcher { .. }));
    let action = gui.update(Message::DaemonConfigLoaded(DaemonConfigRead::Loaded));
    assert_eq!(Action::Start(ModeKind::Loader), action);
    assert_eq!(
        State::Loader {
            datadir_path: Some("/home/user/.liana".to_string()),
            gui_config: sample_config(),
        },
        gui.state
    );
}

#[test]
fn installer_exit_hands_off_to_the_loader() {
    let (mut gui, _) = GUI::new(Config::Install("d".to_string(), Network::Bitcoin), DaemonConfigRead::Loaded);
    let action = gui.update(Message::Install(InstallerMessage::Exit(
        "/tmp/wallet/gui.toml".to_string(),
    )));
    assert_eq!(
        Action::LoadConfig("/tmp/wallet/gui.toml".to_string()),
        action
    );
    let action = gui.update(Message::ConfigLoaded(ConfigFileRead::Parsed(
        sample_config(),
    )));
    assert_eq!(
        Action::LoadDaemonConfig(sample_config().daemon_config_path),
        action
    );
    let action = gui.update(Message::DaemonConfigLoaded(DaemonConfigRead::Loaded));
    assert_eq!(Action::Start(ModeKind::Loader), action);
    assert_eq!(
        State::Loader {
            datadir_path: None,
            gui_config: sample_config(),
        },
        gui.state
    );
}

#[test]
fn failed_settings_read_during_handoff_is_fatal() {
    let (mut gui, _) = GUI::new(Config::Install("d".to_string(), Network::Bitcoin), DaemonConfigRead::Loaded);
    gui.update(Message::Install(InstallerMessage::Exit("p".to_string())));
    let action = gui.update(Message::ConfigLoaded(ConfigFileRead::ReadFailed));
    assert_eq!(Action::Fatal, action);
    assert!(gui.stopped);
}

#[test]
fn daemon_config_failure_at_startup_is_fatal() {
    let (gui, action) = GUI::new(
        Config::Run(Some("d".to_string()), sample_config()),
        DaemonConfigRead::Failed,
    );
    assert_eq!(Action::Fatal, action);
    assert!(gui.stopped);
}

#[test]
fn daemon_config_failure_during_handoff_is_fatal() {
    let (mut gui, _) = GUI::new(Config::Install("d".to_string(), Network::Bitcoin), DaemonConfigRead::Loaded);
    gui.update(Message::Install(InstallerMessage::Exit("p".to_string())));
    gui.update(Message::ConfigLoaded(ConfigFileRead::Parsed(sample_config())));
    let action = gui.update(Message::DaemonConfigLoaded(DaemonConfigRead::Failed));
    assert_eq!(Action::Fatal, action);
    assert!(gui.stopped);
}

#[test]
fn stale_daemon_config_outcome_is_discarded() {
    let (mut gui, _) = GUI::new(Config::Launcher("d".to_string()), DaemonConfigRead::Loaded);
    let action = gui.update(Message::DaemonConfigLoaded(DaemonConfigRead::Loaded));
    assert_eq!(Action::Idle, action);
    assert!(matches!(gui.state, State::Launcher { .. }));
    assert!(!gui.stopped);
}

#[test]
fn stale_settings_read_outcome_is_discarded() {
    // A settings read that no mode is waiting for any more (its requester
    // was replaced) is discarded rather than misapplied.
    let (mut gui, _) = GUI::new(Config::Launcher("d".to_string()), DaemonConfigRead::Loaded);
    let action = gui.update(Message::ConfigLoaded(ConfigFileRead::Parsed(
        sample_config(),
    )));
    assert_eq!(Action::Idle, action);
    assert!(matches!(gui.state, State::Launcher { .. }));
}

#[test]
fn loader_switch_network_returns_to_the_launcher() {
    let mut gui = loader_gui(Some("d"));
    let action = gui.update(Message::Load(LoaderMessage::SwitchNetwork));
    assert_eq!(Action::Start(ModeKind::Launcher), action);
    assert_eq!(
        State::Launcher { datadir_path: "d".to_string() },
        gui.state
    );
}

#[test]
fn loader_switch_network_without_datadir_is_fatal() {
    let mut gui = loader_gui(None);
    let action = gui.update(Message::Load(LoaderMessage::SwitchNetwork));
    assert_eq!(Action::Fatal, action);
    assert!(gui.stopped);
}

#[test]
fn mode_internal_events_are_forwarded() {
    let (mut gui, _) = GUI::new(Config::Install("d".to_string(), Network::Bitcoin), DaemonConfigRead::Loaded);
    assert_eq!(
        Action::Forward,
        gui.update(Message::Install(InstallerMessage::Step(1)))
    );
    let mut gui = loader_gui(Some("d"));
    assert_eq!(
        Action::Forward,
        gui.update(Message::Load(LoaderMessage::Progress(2)))
    );
}

#[test]
fn title_names_the_installer() {
    let (gui, _) = GUI::new(Config::Install("d".to_string(), Network::Bitcoin), DaemonConfigRead::Loaded);
    assert_eq!("Liana Installer", gui.title().as_str());
    let (gui, _) = GUI::new(Config::Launcher("d".to_string()), DaemonConfigRead::Loaded);
    assert_eq!("Liana", gui.title().as_str());
}
