use s21_hijack::channel::{ChannelId, ConsoleConfig};
use s21_hijack::cidr::Ipv4Cidr;
use s21_hijack::model::{
    BindingTarget, ChannelScope, MacroDef, MacroStep, MacroStepKind, MacroStepMode, ScopeTemplate,
    SidecarBinding, Snapshot,
};
use s21_hijack::show_file::{
    parse_cidr_allowlist, ConnectionSettings, ShowFile, SnapshotSyncDirection, APP_VERSION,
    SHOW_FILE_VERSION,
};
use s21_hijack::state::{ParameterAddress, ParameterPath, ParameterValue};

fn f(x: f32) -> ParameterValue {
    ParameterValue::Float(x.to_bits())
}

#[test]
fn strip_total_gain_removes_all_references() {
    let tg = ParameterAddress { channel: ChannelId::Input(1), parameter: ParameterPath::TotalGain };
    let fader = ParameterAddress { channel: ChannelId::Input(1), parameter: ParameterPath::Fader };
    let again = ParameterAddress { channel: ChannelId::Input(1), parameter: ParameterPath::AnalogGain };

    let snap_scope = ScopeTemplate::new(
        1,
        "snap".into(),
        vec![ChannelScope::new(
            ChannelId::Input(1),
            vec![ParameterPath::TotalGain, ParameterPath::AnalogGain],
        )],
    );
    let snapshot = Snapshot::new(2, "S".into(), snap_scope, vec![(tg, f(-10.0)), (fader, f(-5.0))]);
    let tmpl = ScopeTemplate::new(
        3,
        "tmpl".into(),
        vec![ChannelScope::new(ChannelId::Input(1), vec![ParameterPath::TotalGain, ParameterPath::Fader])],
    );
    let mac = MacroDef::new(
        4,
        "M".into(),
        vec![
            MacroStep::parameter(tg, MacroStepMode::Fixed(f(-10.0)), 0),
            MacroStep::parameter(again, MacroStepMode::Fixed(f(20.0)), 0),
            MacroStep { kind: MacroStepKind::GoNextCue, delay_ms: 0 },
        ],
    );

    let mut show = ShowFile::new(ConsoleConfig::default());
    show.snapshots.push(snapshot);
    show.scope_templates.push(tmpl);
    show.macros.push(mac);

    show.strip_total_gain();

    assert!(!show.snapshots[0].values.iter().any(|(a, _)| *a == tg));
    assert!(show.snapshots[0].values.iter().any(|(a, _)| *a == fader));
    let snap_paths = &show.snapshots[0].scope.channel_scopes[0].paths;
    assert!(!snap_paths.contains(&ParameterPath::TotalGain));
    assert!(snap_paths.contains(&ParameterPath::AnalogGain));
    let tmpl_paths = &show.scope_templates[0].channel_scopes[0].paths;
    assert!(!tmpl_paths.contains(&ParameterPath::TotalGain));
    assert!(tmpl_paths.contains(&ParameterPath::Fader));
    assert_eq!(show.macros[0].steps.len(), 2);
    assert!(show.macros[0].steps.iter().any(|s| matches!(&s.kind, MacroStepKind::GoNextCue)));
    assert!(show.macros[0].steps.iter().any(|s| s.parameter_address() == Some(&again)));

    let before = show.macros[0].steps.len();
    show.strip_total_gain();
    assert_eq!(show.macros[0].steps.len(), before);
}

#[test]
fn strip_total_gain_removes_sidecar_bindings() {
    let mk = |n: u8, parameter: ParameterPath| SidecarBinding {
        id: u128::from_be_bytes([n; 16]),
        label: String::new(),
        target: BindingTarget::ConsoleParameter {
            address: ParameterAddress { channel: ChannelId::Input(1), parameter },
        },
        enabled: true,
    };
    let mut show = ShowFile::new(ConsoleConfig::default());
    show.sidecar.bindings = vec![mk(1, ParameterPath::TotalGain), mk(2, ParameterPath::Fader)];
    show.strip_total_gain();
    assert_eq!(show.sidecar.bindings.len(), 1);
    assert_eq!(
        show.sidecar.bindings[0].target.console_address().unwrap().parameter,
        ParameterPath::Fader
    );
}

#[test]
fn strip_total_gain_keeps_macro_bindings_and_order() {
    let mut show = ShowFile::new(ConsoleConfig::default());
    show.sidecar.bindings = vec![
        SidecarBinding { id: 1, label: "a".into(), target: BindingTarget::FireMacro { id: 9 }, enabled: true },
        SidecarBinding {
            id: 2,
            label: "b".into(),
            target: BindingTarget::ConsoleParameter {
                address: ParameterAddress { channel: ChannelId::Aux(2), parameter: ParameterPath::TotalGain },
            },
            enabled: false,
        },
        SidecarBinding { id: 3, label: "c".into(), target: BindingTarget::FireMacro { id: 7 }, enabled: true },
    ];
    show.strip_total_gain();
    let ids: Vec<u128> = show.sidecar.bindings.iter().map(|b| b.id).collect();
    assert_eq!(ids, vec![1, 3]);
}

#[test]
fn legacy_follow_true_maps_to_console_to_app() {
    let mut cs = ConnectionSettings::default();
    cs.console_snapshot_follow_legacy = Some(true);
    assert_eq!(cs.console_snapshot_follow_legacy, Some(true));
    assert_eq!(cs.effective_sync_direction(), SnapshotSyncDirection::ConsoleToApp);
}

#[test]
fn legacy_follow_false_is_off() {
    let mut cs = ConnectionSettings::default();
    cs.console_snapshot_follow_legacy = Some(false);
    assert_eq!(cs.effective_sync_direction(), SnapshotSyncDirection::Off);
}

#[test]
fn stored_direction_used_without_legacy_flag() {
    let mut cs = ConnectionSettings::default();
    cs.snapshot_sync_direction = SnapshotSyncDirection::AppToConsole;
    assert_eq!(cs.effective_sync_direction(), SnapshotSyncDirection::AppToConsole);
}

#[test]
fn connection_defaults() {
    let cs = ConnectionSettings::default();
    assert_eq!(cs.console_gp_port, 8024);
    assert_eq!(cs.local_gp_port, 8023);
    assert_eq!(cs.trigger_port, 53001);
    assert_eq!(cs.qlab_port, 53000);
    assert_eq!(cs.monitor_port, 8025);
    assert_eq!(cs.web_port, 8080);
    assert_eq!((cs.qlab_patch_app, cs.qlab_patch_console), (1, 2));
    assert!(cs.monitor_allow_cidrs.is_empty());
}

#[test]
fn new_show_is_empty_and_stamped() {
    let show = ShowFile::new(ConsoleConfig::default());
    assert_eq!(show.version, SHOW_FILE_VERSION);
    assert_eq!(show.app_version, APP_VERSION);
    assert!(show.snapshots.is_empty() && show.macros.is_empty() && show.scope_templates.is_empty());
    assert!(!show.sidecar.enabled);
    assert!(show.carried.is_empty() && show.connection.carried.is_empty());
    assert_eq!(show.connection.snapshot_sync_direction, SnapshotSyncDirection::Off);
}

#[test]
fn strip_total_gain_keeps_carried_sections() {
    let mut show = ShowFile::new(ConsoleConfig::default());
    show.carried.push(("cue_list".to_string(), "{\"cues\":[]}".to_string()));
    show.connection.carried.push(("ui_mode".to_string(), "\"Full\"".to_string()));
    show.strip_total_gain();
    assert_eq!(show.carried, vec![("cue_list".to_string(), "{\"cues\":[]}".to_string())]);
    assert_eq!(show.connection.carried, vec![("ui_mode".to_string(), "\"Full\"".to_string())]);
}

#[test]
fn allowlist_of_concatenation_is_concatenation() {
    let a = vec!["10.0.0.0/8".to_string(), "bad".to_string()];
    let b = vec!["192.168.1.1".to_string()];
    let mut ab = a.clone();
    ab.extend(b.clone());
    let mut expect = parse_cidr_allowlist(&a);
    expect.extend(parse_cidr_allowlist(&b));
    assert_eq!(parse_cidr_allowlist(&ab), expect);
    assert_eq!(expect.len(), 2);
}

#[test]
fn cidr_allowlist_skips_invalid_entries() {
    let raw = vec![
        "192.168.10.0/24".to_string(),
        "not an ip".to_string(),
        "10.0.0.5".to_string(),
        "10.0.0.0/33".to_string(),
        "01.2.3.4".to_string(),
    ];
    let list = parse_cidr_allowlist(&raw);
    assert_eq!(
        list,
        vec![
            Ipv4Cidr { addr: 0xC0A8_0A00, prefix: 24 },
            Ipv4Cidr { addr: 0x0A00_0005, prefix: 32 },
        ]
    );
}
