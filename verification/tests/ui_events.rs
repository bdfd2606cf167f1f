use s21_hijack::autosave::AutosaveGate;
use s21_hijack::backup::{BackupKind, BackupStamp, RecoveryCandidate};
use s21_hijack::show_file::{ConnectionSettings, SnapshotSyncDirection};
use s21_hijack::ui_events::{
    drop_engines, on_ui_event, pickup_pending_engines, EngineHandles, PendingEngines, StatusHelp, UiAction,
    UiEvent, UiShellState,
};
use s21_hijack::ui_state::SetupConnectionForm;

fn form() -> SetupConnectionForm {
    SetupConnectionForm {
        local_ip: String::new(),
        console_ip: String::new(),
        console_port: "8024".into(),
        local_port: "8023".into(),
        trigger_port: "53001".into(),
        ipad_ip: String::new(),
        ipad_console_port: String::new(),
        ipad_local_port: String::new(),
        ipad_listen_port: String::new(),
        ipad_reply_port: String::new(),
        monitor_port: "8025".into(),
        qlab_ip: String::new(),
        qlab_port: "53000".into(),
        qlab_patch_app: "1".into(),
        qlab_patch_console: "2".into(),
        send_pace_us: 0,
        monitor_allow_cidrs: Vec::new(),
        trigger_allow_cidrs: Vec::new(),
        web_port: "8080".into(),
        web_allow_cidrs: Vec::new(),
    }
}

fn shell() -> UiShellState {
    UiShellState {
        connected: false,
        ipad_connected: false,
        monitor_server_running: false,
        web_server_running: false,
        setup_status: None,
        snapshots_status: None,
        macros_status: None,
        last_execution_info: None,
        palettes_status: None,
        monitor_status: None,
        capture_confirm: None,
        recovery_dialog: None,
        autosave: AutosaveGate::new(0),
        auto_update_on_recall: false,
        sync_direction: SnapshotSyncDirection::Off,
        send_pace_us: 0,
        setup: form(),
        loaded_modes: Vec::new(),
        console_recall: String::new(),
    }
}

fn setup_text(s: &UiShellState) -> (String, Option<StatusHelp>) {
    let l = s.setup_status.as_ref().expect("status");
    (l.text.clone(), l.help)
}

#[test]
fn connection_events_set_flag_and_status() {
    let mut s = shell();
    assert!(on_ui_event(&mut s, UiEvent::ConnectionEstablished).is_empty());
    assert!(s.connected);
    assert_eq!(setup_text(&s), ("Connected to console".to_string(), None));
    on_ui_event(&mut s, UiEvent::ConnectionFailed("timeout".into()));
    assert!(!s.connected);
    assert_eq!(
        setup_text(&s),
        ("Connection failed: timeout".to_string(), Some(StatusHelp::ConnectionFailed))
    );
}

#[test]
fn disconnect_drops_engines_and_stops_servers() {
    let mut s = shell();
    on_ui_event(&mut s, UiEvent::ConnectionEstablished);
    on_ui_event(&mut s, UiEvent::MonitorServerStarted);
    on_ui_event(&mut s, UiEvent::WebServerStarted);
    on_ui_event(&mut s, UiEvent::IpadConnected);
    assert!(s.monitor_server_running && s.web_server_running && s.ipad_connected);
    let a = on_ui_event(&mut s, UiEvent::Disconnected);
    assert!(matches!(a.as_slice(), [UiAction::DropConnection]));
    assert!(!s.connected && !s.ipad_connected && !s.monitor_server_running && !s.web_server_running);
    assert_eq!(setup_text(&s).0, "Disconnected");
}

#[test]
fn status_texts_name_and_count() {
    let mut s = shell();
    on_ui_event(&mut s, UiEvent::SnapshotCaptured { name: "Verse".into(), param_count: 42 });
    assert_eq!(s.snapshots_status.as_ref().unwrap().text, "Captured 'Verse' (42 params)");
    on_ui_event(&mut s, UiEvent::SnapshotRecalled { name: "Verse".into(), params_sent: 7 });
    assert_eq!(s.snapshots_status.as_ref().unwrap().text, "Recalled 'Verse' (7 params sent)");
    on_ui_event(&mut s, UiEvent::MacroExecuted { name: "M".into(), steps_executed: 3, steps_skipped: 0 });
    assert_eq!(s.last_execution_info.as_deref(), Some("Executed 'M' (3 sent)"));
    on_ui_event(&mut s, UiEvent::MacroExecuted { name: "M".into(), steps_executed: 3, steps_skipped: 2 });
    assert_eq!(s.last_execution_info.as_deref(), Some("Executed 'M' (3 sent, 2 skipped)"));
    on_ui_event(&mut s, UiEvent::MacroRecordingStopped { step_count: 10 });
    assert_eq!(s.macros_status.as_ref().unwrap().text, "Recording stopped: 10 steps captured");
    on_ui_event(&mut s, UiEvent::PaletteLinked { palette_name: "P".into(), snapshot_name: "S".into() });
    assert_eq!(s.palettes_status.as_ref().unwrap().text, "Linked 'P' to 'S'");
    on_ui_event(&mut s, UiEvent::PaletteUpdated { name: "P".into(), affected_count: 4 });
    assert_eq!(s.palettes_status.as_ref().unwrap().text, "Updated 'P' — 4 snapshots affected");
    on_ui_event(&mut s, UiEvent::MonitorClientConnected { name: "Drums".into() });
    assert_eq!(s.monitor_status.as_ref().unwrap().text, "Client 'Drums' connected");
}

#[test]
fn macro_connect_ignored_while_connected() {
    let mut s = shell();
    assert!(matches!(on_ui_event(&mut s, UiEvent::MacroConnect).as_slice(), [UiAction::StartConnection]));
    on_ui_event(&mut s, UiEvent::ConnectionEstablished);
    assert!(on_ui_event(&mut s, UiEvent::MacroConnect).is_empty());
}

#[test]
fn corrupt_then_loaded_marks_recovery() {
    let mut s = shell();
    let cand = RecoveryCandidate {
        path: "/b/x.s21show".into(),
        kind: BackupKind::Autosave,
        stamp: BackupStamp { secs: 0, nanos: 0 },
        size: 10,
        valid: true,
        version: Some(19),
    };
    on_ui_event(&mut s, UiEvent::ShowFileCorrupt { path: "/shows/x.s21show".into(), candidates: vec![cand] });
    assert_eq!(setup_text(&s).1, Some(StatusHelp::ShowCorrupt));
    assert!(!s.recovery_dialog.as_ref().unwrap().recovered);
    let a = on_ui_event(&mut s, UiEvent::ShowFileLoaded {
        path: "/b/x.s21show".into(),
        connection: None,
        console_recall: "{\"scope\":\"all\"}".into(),
    });
    assert!(a.is_empty());
    assert!(s.recovery_dialog.as_ref().unwrap().recovered);
    assert_eq!(setup_text(&s).0, "Loaded: /b/x.s21show");
    assert_eq!(s.console_recall, "{\"scope\":\"all\"}");
}

#[test]
fn loaded_connection_adopts_settings_and_saves_preferences() {
    let mut s = shell();
    let mut conn = ConnectionSettings::default();
    conn.console_ip = "192.168.1.42".into();
    conn.send_pace_us = 250;
    conn.auto_update_on_recall = true;
    conn.console_snapshot_follow_legacy = Some(true);
    conn.carried.push(("ui_mode".into(), "\"Theatre\"".into()));
    let a = on_ui_event(&mut s, UiEvent::ShowFileLoaded {
        path: "/s.s21show".into(),
        connection: Some(conn),
        console_recall: String::new(),
    });
    assert!(matches!(a.as_slice(), [UiAction::SavePreferences { send_pace_us: 250 }]));
    assert_eq!(s.send_pace_us, 250);
    assert_eq!(s.setup.console_ip, "192.168.1.42");
    assert!(s.auto_update_on_recall);
    assert_eq!(s.sync_direction, SnapshotSyncDirection::ConsoleToApp);
    assert_eq!(s.loaded_modes, vec![("ui_mode".to_string(), "\"Theatre\"".to_string())]);
}

#[test]
fn autosave_completion_clears_in_flight() {
    let mut s = shell();
    s.autosave.in_flight = true;
    on_ui_event(&mut s, UiEvent::AutosaveCompleted { fingerprint: 9, wrote: false });
    assert!(!s.autosave.in_flight);
    assert_eq!(s.autosave.last_fingerprint, 9);
    assert!(s.setup_status.is_none());
    on_ui_event(&mut s, UiEvent::AutosaveCompleted { fingerprint: 10, wrote: true });
    assert_eq!(setup_text(&s).0, "Autosaved");
}

#[test]
fn macro_commands_become_actions() {
    let mut s = shell();
    assert!(matches!(on_ui_event(&mut s, UiEvent::MacroFireGo).as_slice(), [UiAction::FireGo]));
    assert!(matches!(
        on_ui_event(&mut s, UiEvent::MacroRecallSnapshot { snapshot_id: 5 }).as_slice(),
        [UiAction::RecallSnapshot(5)]
    ));
    assert!(matches!(
        on_ui_event(&mut s, UiEvent::StreamDeckConnected { device_name: "XL".into(), button_count: 32 }).as_slice(),
        [UiAction::RefreshStreamDeck { button_count: 32 }]
    ));
    on_ui_event(&mut s, UiEvent::StreamDeckError { message: "gone".into() });
    assert_eq!(s.macros_status.as_ref().unwrap().text, "Stream Deck: gone");
}

#[test]
fn pending_engines_are_taken_over_once() {
    let mut held: EngineHandles<&str, u8, u16, char> =
        EngineHandles { sender: None, snapshot_engine: None, macro_engine: None, ipad_sender: Some('i') };
    let mut slot = Some(PendingEngines {
        sender: "osc",
        snapshot_engine: 1u8,
        macro_engine: 2u16,
        ipad_sender: None,
        sent_log: (),
        profile: "S21",
    });
    pickup_pending_engines(&mut slot, &mut held);
    assert!(slot.is_none());
    assert_eq!((held.sender, held.snapshot_engine, held.macro_engine, held.ipad_sender), (Some("osc"), Some(1), Some(2), Some('i')));
    pickup_pending_engines(&mut slot, &mut held);
    assert_eq!(held.sender, Some("osc"));
    drop_engines(&mut slot, &mut held);
    assert!(held.sender.is_none() && held.snapshot_engine.is_none() && held.macro_engine.is_none() && held.ipad_sender.is_none());
}
