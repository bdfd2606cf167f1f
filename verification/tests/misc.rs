use s21_hijack::ui_state::{new_osc_target, osc_target_form_valid};
use s21_hijack::autosave::{AutosaveGate, AutosaveInputs, AUTOSAVE_INTERVAL_MS, QUIET_SETTLE_MS};
use s21_hijack::backup::{BackupKind, BackupStamp, RecoveryCandidate};
use s21_hijack::channel::{ChannelGroup, ChannelId, ConsoleConfig};
use s21_hijack::cidr::{admits, Ipv4Cidr};
use s21_hijack::ids::id_text;
use s21_hijack::inspector::{table_order, ChannelTypeFilter, InspectorRow, InspectorTabState, SortColumn};
use s21_hijack::preferences::{cjk_for, midi_action, MidiAction, MidiSettings};
use s21_hijack::state::{ConsoleState, ParameterAddress, ParameterPath, ParameterValue};
use s21_hijack::text::{parse_i32, parse_u32, parse_u8};
use s21_hijack::ui_state::{RecoveryDialog, RecoveryRequest, RecoveryStep, SetupConnectionForm, Tab};
use s21_hijack::channel::ChannelMode;
use s21_hijack::gangs::section_tooltip;
use s21_hijack::help::{english, HelpState};
use s21_hijack::help_catalog::HelpKey;
use s21_hijack::model::ParameterSection;
use s21_hijack::monitor_picker::{ChannelPickerState, RippleState};
use s21_hijack::show_file::ConnectionSettings;

fn row(c: &str, p: &str, v: &str) -> InspectorRow {
    InspectorRow { channel: c.to_string(), parameter: p.to_string(), value: v.to_string() }
}

fn entries() -> Vec<(ChannelId, InspectorRow)> {
    vec![
        (ChannelId::Input(2), row("Input 2", "Fader", "-10.0")),
        (ChannelId::Aux(1), row("Aux 1", "Mute", "true")),
        (ChannelId::Input(1), row("Input 1", "Name", "Kick")),
        (ChannelId::Input(1), row("Input 1", "Fader", "0.0")),
    ]
}

#[test]
fn inspector_sorts_stably_and_filters() {
    let e = entries();
    let mut tab = InspectorTabState::default();
    assert_eq!(tab.sort_column, SortColumn::Channel);
    assert!(tab.sort_ascending);
    assert_eq!(table_order(&tab, &e), vec![1, 2, 3, 0]);
    tab.click_header(SortColumn::Channel);
    assert!(!tab.sort_ascending);
    assert_eq!(table_order(&tab, &e), vec![0, 2, 3, 1]);
    tab.click_header(SortColumn::Parameter);
    assert!(tab.sort_ascending);
    assert_eq!(table_order(&tab, &e), vec![0, 3, 1, 2]);
    tab.channel_type_filter = Some(ChannelTypeFilter::Input);
    assert_eq!(table_order(&tab, &e), vec![0, 3, 2]);
    tab.filter = "KICK".to_string();
    assert_eq!(table_order(&tab, &e), vec![2]);
    tab.channel_type_filter = None;
    tab.filter = "fad".to_string();
    tab.click_header(SortColumn::Value);
    assert_eq!(table_order(&tab, &e), vec![0, 3]);
}

#[test]
fn inspector_filter_labels() {
    assert_eq!(ChannelTypeFilter::all().len(), 7);
    assert_eq!(ChannelTypeFilter::MatrixInput.label(), "MtxIn");
    assert!(ChannelTypeFilter::Aux.matches(&ChannelId::Aux(3)));
    assert!(!ChannelTypeFilter::Aux.matches(&ChannelId::Input(3)));
}

#[test]
fn cidr_parsing_and_matching() {
    assert_eq!(Ipv4Cidr::parse("10.0.0.0/8"), Some(Ipv4Cidr { addr: 0x0A00_0000, prefix: 8 }));
    assert_eq!(Ipv4Cidr::parse("10.0.0.1/+16"), Some(Ipv4Cidr { addr: 0x0A00_0001, prefix: 16 }));
    assert_eq!(Ipv4Cidr::parse("0.0.0.0/0"), Some(Ipv4Cidr { addr: 0, prefix: 0 }));
    assert_eq!(Ipv4Cidr::parse("256.0.0.1"), None);
    assert_eq!(Ipv4Cidr::parse("1.2.3"), None);
    assert_eq!(Ipv4Cidr::parse("1.2.3.4/"), None);
    assert_eq!(Ipv4Cidr::parse("1.2.3.4/8/8"), None);
    assert_eq!(Ipv4Cidr::parse(" 1.2.3.4"), None);
    let net = Ipv4Cidr::parse("192.168.10.0/24").unwrap();
    assert!(net.contains(0xC0A8_0A2A));
    assert!(!net.contains(0xC0A8_0B01));
    assert!(admits(&[], 0x0102_0304));
    assert!(admits(&[net], 0xC0A8_0A01));
    assert!(!admits(&[net], 0x0A00_0001));
    assert!(Ipv4Cidr::parse("0.0.0.0/0").unwrap().contains(0xFFFF_FFFF));
}

#[test]
fn dotted_quad_rules() {
    let addr = |t: &str| Ipv4Cidr::parse(t).map(|c| c.addr);
    assert_eq!(addr("1.2.3.4"), Some(0x0102_0304));
    assert_eq!(addr("255.255.255.255"), Some(0xFFFF_FFFF));
    assert_eq!(addr("0.0.0.0"), Some(0));
    assert_eq!(addr("01.2.3.4"), None);
    assert_eq!(addr("1.2.3.04"), None);
    assert_eq!(addr("1.2.3.4.5"), None);
    assert_eq!(addr("1..3.4"), None);
    assert_eq!(addr("a.b.c.d"), None);
    assert_eq!(addr("1.2.3.256"), None);
    assert_eq!(addr("+1.2.3.4"), None);
}

#[test]
fn decimal_parsing_matches_std() {
    for text in ["0", "+5", "-5", "", "+", "255", "256", "4294967295", "4294967296", "12a", " 1", "007"] {
        assert_eq!(parse_u8(text), text.parse::<u8>().ok(), "u8 {text:?}");
        assert_eq!(parse_u32(text), text.parse::<u32>().ok(), "u32 {text:?}");
        assert_eq!(parse_i32(text), text.parse::<i32>().ok(), "i32 {text:?}");
    }
    for text in ["-0", "-2147483648", "-2147483649", "2147483647", "2147483648", "-+1", "--1", "-"] {
        assert_eq!(parse_i32(text), text.parse::<i32>().ok(), "i32 {text:?}");
    }
}

#[test]
fn autosave_gate_sequence() {
    let mut g = AutosaveGate::new(0);
    let inputs = |generation: u64, now_ms: u64| AutosaveInputs {
        show_named: true,
        recovery_open: false,
        generation: Some(generation),
        suppressed: false,
        now_ms,
    };
    assert!(!g.poll(&inputs(0, AUTOSAVE_INTERVAL_MS - 1)));
    assert!(g.poll(&inputs(0, AUTOSAVE_INTERVAL_MS)));
    assert!(g.in_flight);
    assert!(!g.poll(&inputs(0, 3 * AUTOSAVE_INTERVAL_MS)));
    assert!(g.should_write(42));
    g.complete(42);
    assert!(!g.should_write(42));
    assert!(!g.poll(&inputs(1, 3 * AUTOSAVE_INTERVAL_MS)));
    assert!(!g.poll(&inputs(1, 3 * AUTOSAVE_INTERVAL_MS + QUIET_SETTLE_MS - 1)));
    assert!(g.poll(&inputs(1, 3 * AUTOSAVE_INTERVAL_MS + QUIET_SETTLE_MS)));
    g.complete(7);
    let mut unnamed = inputs(1, 10 * AUTOSAVE_INTERVAL_MS);
    unnamed.show_named = false;
    assert!(!g.poll(&unnamed));
    let mut busy = inputs(1, 10 * AUTOSAVE_INTERVAL_MS);
    busy.generation = None;
    assert!(!g.poll(&busy));
}

#[test]
fn midi_settings_map_to_actions() {
    let mut m = MidiSettings::default();
    assert!(matches!(midi_action(&m), MidiAction::Disconnect));
    m.enabled = true;
    assert!(matches!(midi_action(&m), MidiAction::Disconnect));
    m.output_port_name = Some("IAC Driver Bus 1".to_string());
    assert!(matches!(midi_action(&m), MidiAction::Connect(ref n) if n == "IAC Driver Bus 1"));
    m.use_virtual_port = true;
    assert!(matches!(midi_action(&m), MidiAction::CreateVirtual(ref n) if n == "S21_HiJack"));
}

#[test]
fn cjk_subset_choice() {
    assert_eq!(cjk_for("JA"), 2);
    assert_eq!(cjk_for("ko"), 3);
    assert_eq!(cjk_for("zh"), 1);
    assert_eq!(cjk_for("en"), 1);
}

#[test]
fn recovery_dialog_flow() {
    let mk = |valid: bool| RecoveryCandidate {
        path: format!("/s/.s21backups/{valid}"),
        kind: BackupKind::Backup,
        stamp: BackupStamp { secs: 0, nanos: 0 },
        size: 1,
        valid,
        version: None,
    };
    let mut d = RecoveryDialog::new("/s/show.s21show".to_string(), vec![mk(false), mk(true)]);
    assert!(matches!(d.respond(&RecoveryRequest::Load(0)), RecoveryStep::Ignore));
    assert!(matches!(d.respond(&RecoveryRequest::Load(5)), RecoveryStep::Ignore));
    assert!(matches!(d.respond(&RecoveryRequest::Load(1)), RecoveryStep::LoadFrom(ref p) if p == "/s/.s21backups/true"));
    assert!(matches!(d.respond(&RecoveryRequest::SaveToOriginal), RecoveryStep::Ignore));
    d.mark_recovered();
    assert!(matches!(d.respond(&RecoveryRequest::SaveToOriginal), RecoveryStep::SaveToAndClose(ref p) if p == "/s/show.s21show"));
    assert!(matches!(d.respond(&RecoveryRequest::Cancel), RecoveryStep::Close));
    assert_ne!(Tab::Setup, Tab::Inspector);
}

#[test]
fn console_state_read_after_write() {
    let mut st = ConsoleState::new(ConsoleConfig::default());
    let a = ParameterAddress { channel: ChannelId::Input(1), parameter: ParameterPath::EqBandGain(2) };
    let b = ParameterAddress { channel: ChannelId::Input(1), parameter: ParameterPath::EqBandGain(3) };
    assert_eq!(st.parameter_count(), 0);
    st.set(a, ParameterValue::Int(1));
    st.set(b, ParameterValue::Int(2));
    st.set(a, ParameterValue::Int(3));
    assert!(matches!(st.get(&a), Some(ParameterValue::Int(3))));
    assert!(matches!(st.get(&b), Some(ParameterValue::Int(2))));
    assert_eq!(st.parameter_count(), 2);
    assert_eq!(st.config().input_channel_count, 48);
    assert_eq!(ChannelGroup::all().len(), 7);
}

#[test]
fn id_text_is_hyphenated_lowercase_hex() {
    let t: String = id_text(0x0123_4567_89AB_CDEF_0011_2233_4455_6677).into_iter().collect();
    assert_eq!(t, "01234567-89ab-cdef-0011-223344556677");
}

fn blank_form() -> SetupConnectionForm {
    SetupConnectionForm {
        local_ip: "10.0.0.2".into(),
        console_ip: "10.0.0.1".into(),
        console_port: "8024".into(),
        local_port: "8023".into(),
        trigger_port: "53001".into(),
        ipad_ip: String::new(),
        ipad_console_port: String::new(),
        ipad_local_port: String::new(),
        ipad_listen_port: String::new(),
        ipad_reply_port: String::new(),
        monitor_port: "8025".into(),
        qlab_ip: String::new(),
        qlab_port: "53000".into(),
        qlab_patch_app: "1".into(),
        qlab_patch_console: "2".into(),
        send_pace_us: 0,
        monitor_allow_cidrs: vec!["1.2.3.4".into()],
        trigger_allow_cidrs: Vec::new(),
        web_port: "8080".into(),
        web_allow_cidrs: Vec::new(),
    }
}

#[test]
fn loaded_connection_fills_setup_form() {
    let mut conn = ConnectionSettings::default();
    conn.console_ip = "192.168.1.42".into();
    conn.console_gp_port = 9000;
    conn.ipad_send_port = 0;
    conn.qlab_patch_app = 0;
    conn.send_pace_us = 250;
    conn.web_port = 0;
    conn.trigger_allow_cidrs = vec!["10.0.0.0/8".into()];
    let mut form = blank_form();
    let pace = form.apply_loaded_connection(&conn, 0);
    assert_eq!(pace, 250);
    assert_eq!(form.send_pace_us, 250);
    assert_eq!(form.local_ip, "10.0.0.2");
    assert_eq!(form.console_ip, "192.168.1.42");
    assert_eq!(form.console_port, "9000");
    assert_eq!(form.ipad_console_port, "");
    assert_eq!(form.qlab_patch_app, "1");
    assert_eq!(form.qlab_patch_console, "2");
    assert_eq!(form.web_port, "");
    assert!(form.monitor_allow_cidrs.is_empty());
    assert_eq!(form.trigger_allow_cidrs, vec!["10.0.0.0/8".to_string()]);
    let pace = form.apply_loaded_connection(&conn, 100);
    assert_eq!(pace, 100);
}

#[test]
fn picker_bulk_selection_and_ripple_cancel() {
    let state = ConsoleState::new(ConsoleConfig::default());
    let mut p = ChannelPickerState::for_new_client(&state);
    p.deselect_all_inputs();
    assert!(p.selected_inputs.is_empty());
    p.select_all_inputs();
    assert_eq!(p.selected_inputs.len(), 48);
    p.press_ripple_button();
    p.click_input_tile(2);
    p.click_input_tile(9);
    p.cancel_ripple();
    assert_eq!(p.ripple, RippleState::Off);
    assert_eq!(p.selected_inputs.len(), 48);
    p.press_ripple_button();
    p.press_ripple_button();
    assert_eq!(p.ripple, RippleState::Off);
}

#[test]
fn config_bus_modes_and_section_tooltips() {
    let mut cfg = ConsoleConfig::default();
    cfg.group_modes = vec![ChannelMode::Stereo, ChannelMode::Mono];
    assert_eq!(cfg.group_mode(1), Some(ChannelMode::Stereo));
    assert_eq!(cfg.group_mode(2), Some(ChannelMode::Mono));
    assert_eq!(cfg.group_mode(3), None);
    assert_eq!(cfg.group_mode(0), None);
    let help_state = HelpState::new();
    assert_eq!(
        section_tooltip(&help_state, ParameterSection::FaderMutePan),
        english(HelpKey::GangFaderMutePan)
    );
}

#[test]
fn osc_target_form_checks_trimmed_fields() {
    assert!(osc_target_form_valid(" QLab ", "10.0.0.9", " 53000 "));
    assert!(!osc_target_form_valid("   ", "10.0.0.9", "53000"));
    assert!(!osc_target_form_valid("QLab", "", "53000"));
    assert!(!osc_target_form_valid("QLab", "h", "65536"));
    assert!(!osc_target_form_valid("QLab", "h", "port"));
    assert_eq!(
        new_osc_target(" QLab ", " 10.0.0.9 ", "+8000"),
        Some(("QLab".to_string(), "10.0.0.9".to_string(), 8000))
    );
    assert_eq!(new_osc_target("QLab", "h", ""), None);
}
