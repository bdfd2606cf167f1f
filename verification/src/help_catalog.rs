//! The help-bubble catalog: every tooltip key with its stable translator
//! id and its canonical English text.

use vstd::prelude::*;

verus! {

/// Stable identifier for one help bubble.
#[derive(Clone, Copy, Debug, PartialEq, Eq, Hash, Structural)]
pub enum HelpKey {
    Dismiss,
    PickColor,
    CueUndo,
    CuePrev,
    CueGo,
    CueSkip,
    CueListOpen,
    CueListJump,
    OfflineToggle,
    SnapshotReRecall,
    AdvancedDiagnostics,
    AdvancedPacing,
    AdvancedScale,
    TabSetup,
    TabMacros,
    TabGangs,
    TabPanLink,
    TabSnapshots,
    TabMonitor,
    TabOscLog,
    TabInspector,
    LongPressConfirm,
    MacroLearnReady,
    MacroLearnNeedsConn,
    MacroClearSelection,
    MacroDedupSelected,
    MacroDeleteSelected,
    MacroZeroDelaySelected,
    MacroStepSelectHint,
    MacroKeepOnlyStep,
    MacroDeleteStep,
    MacroResetStepDelay,
    MacroMirrorInbound,
    MacroQlabCueNumber,
    MacroAddSwatch,
    StreamDeckClose,
    StreamDeckEnable,
    StreamDeckDisable,
    StreamDeckOpenPanel,
    PanLinkRevert,
    PanLinkApply,
    SetupConsoleIp,
    SetupConsoleIpWarning,
    SetupConsolePort,
    SetupLocalPort,
    SetupIpadConsolePort,
    SetupIpadLocalPort,
    SetupIpadReplyPort,
    SetupIpadListenPort,
    SetupIpadIp,
    SetupQlabHost,
    SetupQlabPort,
    SetupTriggerPort,
    SetupMonitorPort,
    SetupOpenShow,
    SetupSaveShow,
    SetupSaveShowAs,
    SetupAdvanced,
    SnapshotAutoUpdate,
    SnapshotConsoleFollowReq,
    SnapshotRecallNoScopeReq,
    SnapshotBulkShift,
    ScopeNoLiveParam,
    ScopeConsoleConflict,
    MonitorAddProfile,
    MonitorEditProfile,
    MonitorProfilePin,
    MonitorReorder,
    MonitorReorderDone,
    OscLogFilter,
    OscLogShowIn,
    OscLogShowOut,
    OscLogShowIpadToConsole,
    OscLogShowIpadFromConsole,
    OscLogPause,
    OscLogClear,
    InspectorFilter,
    InspectorTypeAll,
    InspectorTypeFilter,
    InspectorSortHeader,
    GangFaderMutePan,
    GangName,
    GangInputGain,
    GangTrim,
    GangPolarity,
    GangBalanceWidth,
    GangDelay,
    GangDigitube,
    GangEq,
    GangDyn1,
    GangDyn2,
    GangSends,
    GangGroupRouting,
    GangInserts,
    GangCgMembership,
    GangGraphicEq,
    GangMatrixSends,
    ThemeDark,
    ThemeLight,
    PaletteCapture,
    PaletteRecapture,
    PaletteDelete,
    PaletteLinkedOther,
    SnapshotCaptureNow,
    SnapshotRecall,
    SnapshotRecapture,
    SnapshotUndo,
    SnapshotApplyScope,
    SnapshotQlabCreateTrigger,
    SnapshotQlabExportFull,
    CueAdd,
    CueSaveChanges,
    ScopeTemplateLoad,
    ScopeTemplateSave,
    MonitorPickerCancel,
    MonitorPickerSave,
    GangEnableToggle,
    GangPause,
    GangNeedsEnable,
    GangRelative,
    GangAbsolute,
    GangPanOff,
    GangPanOn,
    GangPanReversed,
    GangEdit,
    ScopeModeScope,
    ScopeModePreWait,
    ScopeModeFade,
    ScopeClearAll,
    ScopeClearChanges,
    ScopeClearChangesDisabled,
    UiModeFull,
    UiModeLiveMusic,
    UiModeTheatre,
    ConnModeMode1,
    ConnModeMode2,
    ConnModeMode3,
    ConnModeDisabled,
    SetupNetwork,
    SetupCoverage,
    SetupNewShow,
    PaletteChannelType,
    PaletteChannelNumber,
    PaletteName,
    PaletteInclude,
    PaletteRename,
    MonitorRipple,
    MonitorRippleCancel,
    MonitorRippleConfirm,
    MonitorDeselectAll,
    MonitorSelectAll,
    RecoveryLoad,
    RecoveryLoadInvalid,
    RecoverySaveOriginal,
    RecoveryCancel,
    PanLinkClearSelection,
    RecallScopePrevChannel,
    RecallScopeNextChannel,
    SnapshotEditScope,
    SnapshotClearScope,
    CueNumber,
    CueName,
    CueConsoleRow,
    SnapshotScopeOverride,
    SnapshotScopeOverrideTemplate,
    SnapshotPicker,
    ShiftApply,
    ShiftClose,
    ShiftFromRow,
    ShiftDelta,
    ScopeTemplateCombo,
    GangChannelType,
    GangNewName,
    GangNewMembers,
    GangSave,
    GangCancelEdit,
    MacroNewName,
    MacroCreate,
    MacroRun,
    MacroLearnStopSave,
    MacroLearnDiscard,
    MacroRename,
    MacroTrackDirty,
    MacroAddStepKind,
    MacroAddStepCommit,
    MacroStepMode,
    MacroStepValue,
    MacroStepDelay,
    MacroWizardChannelType,
    MacroWizardChannelNumber,
    MacroWizardSection,
    MacroWizardParameter,
    MacroTargetMacro,
    MacroTargetSnapshot,
    MacroTargetPalette,
    MacroPaletteChannelType,
    MacroPaletteChannelNumber,
    StreamDeckDevice,
    StreamDeckButtonMacro,
    StreamDeckAddStep,
}

/// One catalog entry: the stable JSON key id and the English text.
pub struct HelpMeta {
    /// Stable key used in translation files; never renamed once shipped.
    pub id: &'static str,
    /// Canonical English text.
    pub english: &'static str,
}

/// The translator-facing id of a help bubble.
pub open spec fn spec_help_id(key: HelpKey) -> Seq<char> {
    match key {
        HelpKey::Dismiss => "app.dismiss"@,
        HelpKey::PickColor => "color.pick"@,
        HelpKey::CueUndo => "cue.undo"@,
        HelpKey::CuePrev => "cue.prev"@,
        HelpKey::CueGo => "cue.go"@,
        HelpKey::CueSkip => "cue.skip"@,
        HelpKey::CueListOpen => "cue.list_open"@,
        HelpKey::CueListJump => "cue.list_jump"@,
        HelpKey::OfflineToggle => "app.offline_toggle"@,
        HelpKey::SnapshotReRecall => "snapshot.re_recall"@,
        HelpKey::AdvancedDiagnostics => "advanced.diagnostics"@,
        HelpKey::AdvancedPacing => "advanced.pacing"@,
        HelpKey::AdvancedScale => "advanced.scale"@,
        HelpKey::TabSetup => "tab.setup"@,
        HelpKey::TabMacros => "tab.macros"@,
        HelpKey::TabGangs => "tab.gangs"@,
        HelpKey::TabPanLink => "tab.pan_link"@,
        HelpKey::TabSnapshots => "tab.snapshots"@,
        HelpKey::TabMonitor => "tab.monitor"@,
        HelpKey::TabOscLog => "tab.osc_log"@,
        HelpKey::TabInspector => "tab.inspector"@,
        HelpKey::LongPressConfirm => "widget.long_press_confirm"@,
        HelpKey::MacroLearnReady => "macro.learn_ready"@,
        HelpKey::MacroLearnNeedsConn => "macro.learn_needs_conn"@,
        HelpKey::MacroClearSelection => "macro.clear_selection"@,
        HelpKey::MacroDedupSelected => "macro.dedup_selected"@,
        HelpKey::MacroDeleteSelected => "macro.delete_selected"@,
        HelpKey::MacroZeroDelaySelected => "macro.zero_delay_selected"@,
        HelpKey::MacroStepSelectHint => "macro.step_select_hint"@,
        HelpKey::MacroKeepOnlyStep => "macro.keep_only_step"@,
        HelpKey::MacroDeleteStep => "macro.delete_step"@,
        HelpKey::MacroResetStepDelay => "macro.reset_step_delay"@,
        HelpKey::MacroMirrorInbound => "macro.mirror_inbound"@,
        HelpKey::MacroQlabCueNumber => "macro.qlab_cue_number"@,
        HelpKey::MacroAddSwatch => "macro.add_swatch"@,
        HelpKey::StreamDeckClose => "streamdeck.close"@,
        HelpKey::StreamDeckEnable => "streamdeck.enable"@,
        HelpKey::StreamDeckDisable => "streamdeck.disable"@,
        HelpKey::StreamDeckOpenPanel => "streamdeck.open_panel"@,
        HelpKey::PanLinkRevert => "panlink.revert"@,
        HelpKey::PanLinkApply => "panlink.apply"@,
        HelpKey::SetupConsoleIp => "setup.console_ip"@,
        HelpKey::SetupConsoleIpWarning => "setup.console_ip_warning"@,
        HelpKey::SetupConsolePort => "setup.console_port"@,
        HelpKey::SetupLocalPort => "setup.local_port"@,
        HelpKey::SetupIpadConsolePort => "setup.ipad_console_port"@,
        HelpKey::SetupIpadLocalPort => "setup.ipad_local_port"@,
        HelpKey::SetupIpadReplyPort => "setup.ipad_reply_port"@,
        HelpKey::SetupIpadListenPort => "setup.ipad_listen_port"@,
        HelpKey::SetupIpadIp => "setup.ipad_ip"@,
        HelpKey::SetupQlabHost => "setup.qlab_host"@,
        HelpKey::SetupQlabPort => "setup.qlab_port"@,
        HelpKey::SetupTriggerPort => "setup.trigger_port"@,
        HelpKey::SetupMonitorPort => "setup.monitor_port"@,
        HelpKey::SetupOpenShow => "setup.open_show"@,
        HelpKey::SetupSaveShow => "setup.save_show"@,
        HelpKey::SetupSaveShowAs => "setup.save_show_as"@,
        HelpKey::SetupAdvanced => "setup.advanced"@,
        HelpKey::SnapshotAutoUpdate => "snapshot.auto_update"@,
        HelpKey::SnapshotConsoleFollowReq => "snapshot.console_follow_req"@,
        HelpKey::SnapshotRecallNoScopeReq => "snapshot.recall_no_scope_req"@,
        HelpKey::SnapshotBulkShift => "snapshot.bulk_shift"@,
        HelpKey::ScopeNoLiveParam => "scope.no_live_param"@,
        HelpKey::ScopeConsoleConflict => "scope.console_conflict"@,
        HelpKey::MonitorAddProfile => "monitor.add_profile"@,
        HelpKey::MonitorEditProfile => "monitor.edit_profile"@,
        HelpKey::MonitorProfilePin => "monitor.profile_pin"@,
        HelpKey::MonitorReorder => "monitor.reorder"@,
        HelpKey::MonitorReorderDone => "monitor.reorder_done"@,
        HelpKey::OscLogFilter => "osc_log.filter"@,
        HelpKey::OscLogShowIn => "osc_log.show_in"@,
        HelpKey::OscLogShowOut => "osc_log.show_out"@,
        HelpKey::OscLogShowIpadToConsole => "osc_log.show_ipad_to_console"@,
        HelpKey::OscLogShowIpadFromConsole => "osc_log.show_ipad_from_console"@,
        HelpKey::OscLogPause => "osc_log.pause"@,
        HelpKey::OscLogClear => "osc_log.clear"@,
        HelpKey::InspectorFilter => "inspector.filter"@,
        HelpKey::InspectorTypeAll => "inspector.type_all"@,
        HelpKey::InspectorTypeFilter => "inspector.type_filter"@,
        HelpKey::InspectorSortHeader => "inspector.sort_header"@,
        HelpKey::GangFaderMutePan => "gang.fader_mute_pan"@,
        HelpKey::GangName => "gang.name"@,
        HelpKey::GangInputGain => "gang.input_gain"@,
        HelpKey::GangTrim => "gang.trim"@,
        HelpKey::GangPolarity => "gang.polarity"@,
        HelpKey::GangBalanceWidth => "gang.balance_width"@,
        HelpKey::GangDelay => "gang.delay"@,
        HelpKey::GangDigitube => "gang.digitube"@,
        HelpKey::GangEq => "gang.eq"@,
        HelpKey::GangDyn1 => "gang.dyn1"@,
        HelpKey::GangDyn2 => "gang.dyn2"@,
        HelpKey::GangSends => "gang.sends"@,
        HelpKey::GangGroupRouting => "gang.group_routing"@,
        HelpKey::GangInserts => "gang.inserts"@,
        HelpKey::GangCgMembership => "gang.cg_membership"@,
        HelpKey::GangGraphicEq => "gang.graphic_eq"@,
        HelpKey::GangMatrixSends => "gang.matrix_sends"@,
        HelpKey::ThemeDark => "theme.dark"@,
        HelpKey::ThemeLight => "theme.light"@,
        HelpKey::PaletteCapture => "palette.capture"@,
        HelpKey::PaletteRecapture => "palette.recapture"@,
        HelpKey::PaletteDelete => "palette.delete"@,
        HelpKey::PaletteLinkedOther => "palette.linked_other"@,
        HelpKey::SnapshotCaptureNow => "snapshot.capture_now"@,
        HelpKey::SnapshotRecall => "snapshot.recall"@,
        HelpKey::SnapshotRecapture => "snapshot.recapture"@,
        HelpKey::SnapshotUndo => "snapshot.undo"@,
        HelpKey::SnapshotApplyScope => "snapshot.apply_scope"@,
        HelpKey::SnapshotQlabCreateTrigger => "snapshot.qlab_create_trigger"@,
        HelpKey::SnapshotQlabExportFull => "snapshot.qlab_export_full"@,
        HelpKey::CueAdd => "cue.add"@,
        HelpKey::CueSaveChanges => "cue.save_changes"@,
        HelpKey::ScopeTemplateLoad => "scope.template_load"@,
        HelpKey::ScopeTemplateSave => "scope.template_save"@,
        HelpKey::MonitorPickerCancel => "monitor.picker_cancel"@,
        HelpKey::MonitorPickerSave => "monitor.picker_save"@,
        HelpKey::GangEnableToggle => "gang.enable_toggle"@,
        HelpKey::GangPause => "gang.pause"@,
        HelpKey::GangNeedsEnable => "gang.needs_enable"@,
        HelpKey::GangRelative => "gang.relative"@,
        HelpKey::GangAbsolute => "gang.absolute"@,
        HelpKey::GangPanOff => "gang.pan_off"@,
        HelpKey::GangPanOn => "gang.pan_on"@,
        HelpKey::GangPanReversed => "gang.pan_reversed"@,
        HelpKey::GangEdit => "gang.edit"@,
        HelpKey::ScopeModeScope => "scope.mode_scope"@,
        HelpKey::ScopeModePreWait => "scope.mode_pre_wait"@,
        HelpKey::ScopeModeFade => "scope.mode_fade"@,
        HelpKey::ScopeClearAll => "scope.clear_all"@,
        HelpKey::ScopeClearChanges => "scope.clear_changes"@,
        HelpKey::ScopeClearChangesDisabled => "scope.clear_changes_disabled"@,
        HelpKey::UiModeFull => "ui_mode.full"@,
        HelpKey::UiModeLiveMusic => "ui_mode.live_music"@,
        HelpKey::UiModeTheatre => "ui_mode.theatre"@,
        HelpKey::ConnModeMode1 => "conn_mode.mode1"@,
        HelpKey::ConnModeMode2 => "conn_mode.mode2"@,
        HelpKey::ConnModeMode3 => "conn_mode.mode3"@,
        HelpKey::ConnModeDisabled => "conn_mode.disabled"@,
        HelpKey::SetupNetwork => "setup.network"@,
        HelpKey::SetupCoverage => "setup.coverage"@,
        HelpKey::SetupNewShow => "setup.new_show"@,
        HelpKey::PaletteChannelType => "palette.channel_type"@,
        HelpKey::PaletteChannelNumber => "palette.channel_number"@,
        HelpKey::PaletteName => "palette.name"@,
        HelpKey::PaletteInclude => "palette.include"@,
        HelpKey::PaletteRename => "palette.rename"@,
        HelpKey::MonitorRipple => "monitor.ripple"@,
        HelpKey::MonitorRippleCancel => "monitor.ripple_cancel"@,
        HelpKey::MonitorRippleConfirm => "monitor.ripple_confirm"@,
        HelpKey::MonitorDeselectAll => "monitor.deselect_all"@,
        HelpKey::MonitorSelectAll => "monitor.select_all"@,
        HelpKey::RecoveryLoad => "recovery.load"@,
        HelpKey::RecoveryLoadInvalid => "recovery.load_invalid"@,
        HelpKey::RecoverySaveOriginal => "recovery.save_original"@,
        HelpKey::RecoveryCancel => "recovery.cancel"@,
        HelpKey::PanLinkClearSelection => "panlink.clear_selection"@,
        HelpKey::RecallScopePrevChannel => "recall_scope.prev_channel"@,
        HelpKey::RecallScopeNextChannel => "recall_scope.next_channel"@,
        HelpKey::SnapshotEditScope => "snapshot.edit_scope"@,
        HelpKey::SnapshotClearScope => "snapshot.clear_scope"@,
        HelpKey::CueNumber => "cue.number"@,
        HelpKey::CueName => "cue.name"@,
        HelpKey::CueConsoleRow => "cue.console_row"@,
        HelpKey::SnapshotScopeOverride => "snapshot.scope_override"@,
        HelpKey::SnapshotScopeOverrideTemplate => "snapshot.scope_override_template"@,
        HelpKey::SnapshotPicker => "snapshot.picker"@,
        HelpKey::ShiftApply => "shift.apply"@,
        HelpKey::ShiftClose => "shift.close"@,
        HelpKey::ShiftFromRow => "shift.from_row"@,
        HelpKey::ShiftDelta => "shift.delta"@,
        HelpKey::ScopeTemplateCombo => "scope.template_combo"@,
        HelpKey::GangChannelType => "gang.channel_type"@,
        HelpKey::GangNewName => "gang.new_name"@,
        HelpKey::GangNewMembers => "gang.new_members"@,
        HelpKey::GangSave => "gang.save"@,
        HelpKey::GangCancelEdit => "gang.cancel_edit"@,
        HelpKey::MacroNewName => "macro.new_name"@,
        HelpKey::MacroCreate => "macro.create"@,
        HelpKey::MacroRun => "macro.run"@,
        HelpKey::MacroLearnStopSave => "macro.learn_stop_save"@,
        HelpKey::MacroLearnDiscard => "macro.learn_discard"@,
        HelpKey::MacroRename => "macro.rename"@,
        HelpKey::MacroTrackDirty => "macro.track_dirty"@,
        HelpKey::MacroAddStepKind => "macro.add_step_kind"@,
        HelpKey::MacroAddStepCommit => "macro.add_step_commit"@,
        HelpKey::MacroStepMode => "macro.step_mode"@,
        HelpKey::MacroStepValue => "macro.step_value"@,
        HelpKey::MacroStepDelay => "macro.step_delay"@,
        HelpKey::MacroWizardChannelType => "macro.wizard_channel_type"@,
        HelpKey::MacroWizardChannelNumber => "macro.wizard_channel_number"@,
        HelpKey::MacroWizardSection => "macro.wizard_section"@,
        HelpKey::MacroWizardParameter => "macro.wizard_parameter"@,
        HelpKey::MacroTargetMacro => "macro.target_macro"@,
        HelpKey::MacroTargetSnapshot => "macro.target_snapshot"@,
        HelpKey::MacroTargetPalette => "macro.target_palette"@,
        HelpKey::MacroPaletteChannelType => "macro.palette_channel_type"@,
        HelpKey::MacroPaletteChannelNumber => "macro.palette_channel_number"@,
        HelpKey::StreamDeckDevice => "streamdeck.device"@,
        HelpKey::StreamDeckButtonMacro => "streamdeck.button_macro"@,
        HelpKey::StreamDeckAddStep => "streamdeck.add_step"@,
    }
}

/// The canonical English text of a help bubble.
pub open spec fn spec_help_english(key: HelpKey) -> Seq<char> {
    match key {
        HelpKey::Dismiss => "Dismiss"@,
        HelpKey::PickColor => "Pick a color"@,
        HelpKey::CueUndo => "Undo the last cue / snapshot recall."@,
        HelpKey::CuePrev => "Recall the previous cue."@,
        HelpKey::CueGo => "Recall the next cue."@,
        HelpKey::CueSkip => "Skip — advance to the next cue without recalling it."@,
        HelpKey::CueListOpen => "Open the cue list."@,
        HelpKey::CueListJump => "Jump to this cue and recall it."@,
        HelpKey::OfflineToggle => "Offline mode: drops every inbound and outbound OSC message. \
             Lets you edit show data without affecting the desk. \
             Toggle back to Online to resume — the state mirror will be \
             stale until you click Refresh on the Setup tab."@,
        HelpKey::SnapshotReRecall => "Re-recall this snapshot now to confirm nothing drifted"@,
        HelpKey::AdvancedDiagnostics => "Adds OSC Log and Inspector tabs to the main tab bar."@,
        HelpKey::AdvancedPacing => "Delay inserted between consecutive OSC messages so a long sequence \
             doesn't flood the console. Applies to snapshot recall and macros. \
             0 = no pacing."@,
        HelpKey::AdvancedScale => "Manual UI size multiplier, applied on top of the automatic display \
             scaling. 100% = automatic scaling only."@,
        HelpKey::TabSetup => "Connection, display mode, and show-file load/save."@,
        HelpKey::TabMacros => "Record, edit and fire macros."@,
        HelpKey::TabGangs => "Link channels so a parameter change on one propagates to the others."@,
        HelpKey::TabPanLink => "Link an input channel's pan to its aux send pans."@,
        HelpKey::TabSnapshots => "Capture and recall console state as snapshots and cues."@,
        HelpKey::TabMonitor => "Live channel meters and remote monitoring clients."@,
        HelpKey::TabOscLog => "Live log of OSC traffic to and from the console."@,
        HelpKey::TabInspector => "Inspect the live parameter state mirror."@,
        HelpKey::LongPressConfirm => "Hold {ms} ms to confirm."@,
        HelpKey::MacroLearnReady => "Record every parameter change made on the console into a new macro."@,
        HelpKey::MacroLearnNeedsConn => "Connect to the console first — Learn captures inbound parameter changes."@,
        HelpKey::MacroClearSelection => "Clear the multi-selection"@,
        HelpKey::MacroDedupSelected => "For every selected step, drop other steps with \
             the same (channel, parameter)"@,
        HelpKey::MacroDeleteSelected => "Remove every selected step"@,
        HelpKey::MacroZeroDelaySelected => "Set delay to 0 ms on every selected step"@,
        HelpKey::MacroStepSelectHint => "Click to select; Ctrl/Cmd-click to toggle; \
             Shift-click to range-select."@,
        HelpKey::MacroKeepOnlyStep => "Keep only this step for its (channel, parameter); \
             remove the rest"@,
        HelpKey::MacroDeleteStep => "Delete this step"@,
        HelpKey::MacroResetStepDelay => "Reset this step's delay to 0 ms"@,
        HelpKey::MacroMirrorInbound => "Mirror the most-recent inbound parameter from the console into \
             the form below so you can hit Add Step without retyping."@,
        HelpKey::MacroQlabCueNumber => "QLab cue number — free-form string (numbers, letters, dots). \
             Sent as `/cue/<number>/start`."@,
        HelpKey::MacroAddSwatch => "Add the current color to your saved swatches (per show)"@,
        HelpKey::StreamDeckClose => "Close Stream Deck setup and go back to the \
             macro step editor."@,
        HelpKey::StreamDeckEnable => "Enable the Stream Deck integration. Auto-connects to \
             the previously-selected device if it's plugged in; \
             otherwise open Setup… to pick one."@,
        HelpKey::StreamDeckDisable => "Disable the Stream Deck integration. Disconnects the \
             device but preserves your button maps."@,
        HelpKey::StreamDeckOpenPanel => "Open the Stream Deck panel — device selection, \
             button grid, per-button macro sequences."@,
        HelpKey::PanLinkRevert => "Discard staged changes and resync with the live bindings."@,
        HelpKey::PanLinkApply => "Commit staged links. Aux send pans don't move until \
             the input main pan next changes."@,
        HelpKey::SetupConsoleIp => "S21 console IP address."@,
        HelpKey::SetupConsoleIpWarning => "Console IP isn't on the selected NIC's network \
             (first two octets differ — unreachable even with /16). \
             Click to dismiss."@,
        HelpKey::SetupConsolePort => "Console port — daemon sends GP OSC here."@,
        HelpKey::SetupLocalPort => "Local port the daemon listens on for GP OSC from the console."@,
        HelpKey::SetupIpadConsolePort => "Console iPad-protocol port — daemon sends here."@,
        HelpKey::SetupIpadLocalPort => "Local port the daemon listens on for iPad-protocol traffic."@,
        HelpKey::SetupIpadReplyPort => "Port on the iPad — daemon sends to it here."@,
        HelpKey::SetupIpadListenPort => "Local port the daemon listens on for iPad→daemon traffic."@,
        HelpKey::SetupIpadIp => "iPad device IP (required for iPad Proxy mode) — read it off the DiGiCo iPad app."@,
        HelpKey::SetupQlabHost => "QLab host — usually 127.0.0.1 if QLab runs on this machine."@,
        HelpKey::SetupQlabPort => "QLab's OSC listen port — daemon sends cue-build commands here."@,
        HelpKey::SetupTriggerPort => "Local port the daemon listens on for cue triggers from QLab."@,
        HelpKey::SetupMonitorPort => "Local port for the Flutter monitor app — leave blank to disable."@,
        HelpKey::SetupOpenShow => "Pick a show file and load it. Save As… to save to \
             a new path."@,
        HelpKey::SetupSaveShow => "Save to the path shown above. If empty, prompts for a \
             location."@,
        HelpKey::SetupSaveShowAs => "Pick a new location and save there. Useful when the \
             path field already points at a different file."@,
        HelpKey::SetupAdvanced => "Pacing, diagnostics, and other application preferences."@,
        HelpKey::SnapshotAutoUpdate => "When recalling a snapshot, write any dirty parameters \
             within the previous snapshot's scope back into it. \
             Captures mid-show tweaks automatically."@,
        HelpKey::SnapshotConsoleFollowReq => "Requires Mode 2 or Mode 3 (iPad protocol) — the console \
             snapshot list is only reachable via that protocol."@,
        HelpKey::SnapshotRecallNoScopeReq => "Only available for snapshots captured with 'Apply scope on recall' \
             — ApplyOnSave snapshots already filtered at capture time, so there \
             is nothing outside the saved scope to recall."@,
        HelpKey::SnapshotBulkShift => "Bulk-shift every cue's console snapshot when you've \
             inserted or removed snapshots on the console."@,
        HelpKey::ScopeNoLiveParam => "no live parameter"@,
        HelpKey::ScopeConsoleConflict => "In console session scope, not safed for this channel"@,
        HelpKey::MonitorAddProfile => "Create a monitoring profile — choose which auxes and inputs a \
             musician's monitor app may control."@,
        HelpKey::MonitorEditProfile => "Edit this profile's name and permitted channels."@,
        HelpKey::MonitorProfilePin => "Optional PIN for the web (browser) login. Leave it blank for \
             name-only login; the native monitor app ignores it."@,
        HelpKey::MonitorReorder => "Rearrange this profile's channel order — drag the badges, then \
             click Done."@,
        HelpKey::MonitorReorderDone => "Finish reordering and save the new channel order."@,
        HelpKey::OscLogFilter => "Show only messages whose OSC path contains this text."@,
        HelpKey::OscLogShowIn => "Show inbound GP OSC messages (console → daemon)."@,
        HelpKey::OscLogShowOut => "Show outbound GP OSC messages (daemon → console)."@,
        HelpKey::OscLogShowIpadToConsole => "Show iPad-protocol messages heading to the console (iPad → Console)."@,
        HelpKey::OscLogShowIpadFromConsole => "Show iPad-protocol messages heading to the iPad (Console → iPad)."@,
        HelpKey::OscLogPause => "Pause or resume live capture. While paused the list stays frozen \
             for inspection; traffic still flows."@,
        HelpKey::OscLogClear => "Discard every captured message."@,
        HelpKey::InspectorFilter => "Filter rows whose channel, parameter, or value contains this text."@,
        HelpKey::InspectorTypeAll => "Show parameters for every channel type."@,
        HelpKey::InspectorTypeFilter => "Show only parameters for this channel type."@,
        HelpKey::InspectorSortHeader => "Click to sort by this column; click again to reverse."@,
        HelpKey::GangFaderMutePan => "Channel fader level, mute and solo. Pan has its own OFF/ON/REVERSED \
             control on each gang and is no longer linked by this section."@,
        HelpKey::GangName => "Channel name string."@,
        HelpKey::GangInputGain => "Head-amp gain, total/computed gain, gain tracking, phantom \
             power, main/alt input switch, stereo mode (input channels only)."@,
        HelpKey::GangTrim => "Channel trim level (-40 dB to +40 dB). Available on input, \
             aux, group and matrix channels."@,
        HelpKey::GangPolarity => "Phase / polarity invert. Available on input, aux, group and \
             matrix channels."@,
        HelpKey::GangBalanceWidth => "Stereo balance (-1 to +1) and width — applies to stereo \
             input channels only (GP OSC, input-only per the S21 chart)."@,
        HelpKey::GangDelay => "Channel delay time and enable."@,
        HelpKey::GangDigitube => "Digitube drive, bias and enable."@,
        HelpKey::GangEq => "Parametric EQ — band gains, Q, freq, dynamic-EQ \
             settings, EQ on/off."@,
        HelpKey::GangDyn1 => "Dynamics 1 — compressor / gate parameters and on/off."@,
        HelpKey::GangDyn2 => "Dynamics 2 — second processor parameters and on/off."@,
        HelpKey::GangSends => "Aux send levels and on/off across all aux buses. \
             Only propagates between members of the same channel type."@,
        HelpKey::GangGroupRouting => "Group routing — which group buses the channel feeds. \
             Only propagates between same-type members."@,
        HelpKey::GangInserts => "Insert A / B send / return enable."@,
        HelpKey::GangCgMembership => "Control Group membership — which CGs the channel belongs \
             to. Settable via the iPad protocol only (Mode 2 / Mode 3) \
             using CGs_level / CGs_mute bitmasks; GP OSC has no \
             CG-membership writer. Only propagates between same-type \
             members."@,
        HelpKey::GangGraphicEq => "Graphic EQ band gains. Only meaningful when ganging \
             Graphic EQ channels (GEQ1, GEQ2, …)."@,
        HelpKey::GangMatrixSends => "Matrix-send levels and on/off. Only meaningful when \
             ganging Matrix Input channels (MI1, MI2, …)."@,
        HelpKey::ThemeDark => "Use the dark colour theme."@,
        HelpKey::ThemeLight => "Use the light colour theme."@,
        HelpKey::PaletteCapture => "Capture the selected channel's chosen processing into a new palette."@,
        HelpKey::PaletteRecapture => "Overwrite this palette with the current state of its channel."@,
        HelpKey::PaletteDelete => "Delete this palette and unlink it from any snapshots."@,
        HelpKey::PaletteLinkedOther => "Currently linked to: \"{name}\"."@,
        HelpKey::SnapshotCaptureNow => "Capture the current console state into a new snapshot, filtered by the \
             scope above."@,
        HelpKey::SnapshotRecall => "Recall the selected snapshot to the console."@,
        HelpKey::SnapshotRecapture => "Overwrite the selected snapshot with the current console state."@,
        HelpKey::SnapshotUndo => "Undo the last snapshot recall, restoring the previous values."@,
        HelpKey::SnapshotApplyScope => "When the scope is applied: 'On save' stores only in-scope parameters; \
             'On recall' captures the whole console state and filters it on recall \
             (allowing 'Recall without scope')."@,
        HelpKey::SnapshotQlabCreateTrigger => "Create a single network cue in QLab whose customString fires \
             /snapshot/recall <name>. Sent to {target}."@,
        HelpKey::SnapshotQlabExportFull => "Export one network cue per parameter to QLab (grouped). Sent to {target}."@,
        HelpKey::CueAdd => "Add a new cue to the list from the fields above."@,
        HelpKey::CueSaveChanges => "Save the edits to the selected cue."@,
        HelpKey::ScopeTemplateLoad => "Replace the current selection with the chosen scope template."@,
        HelpKey::ScopeTemplateSave => "Save the current selection as a new scope template named on the left."@,
        HelpKey::MonitorPickerCancel => "Discard changes and close without saving the profile."@,
        HelpKey::MonitorPickerSave => "Save this monitoring profile and close."@,
        HelpKey::GangEnableToggle => "Enable or disable this gang. While off, moving a member doesn't \
             propagate to the others."@,
        HelpKey::GangPause => "Temporarily suspend propagation without unlinking — members keep \
             their grouping; moves stop mirroring until you resume."@,
        HelpKey::GangNeedsEnable => "Enable the gang first to change its mode or pause it."@,
        HelpKey::GangRelative => "Relative mode: moving a member shifts the others by the same delta, \
             preserving their offsets."@,
        HelpKey::GangAbsolute => "Absolute mode: moving a member sets the others to the same value."@,
        HelpKey::GangPanOff => "Pan OFF: channel pan is not linked across this gang — only the \
             selected sections (fader/mute, EQ, etc.) propagate."@,
        HelpKey::GangPanOn => "Pan ON: channel pan is linked and follows the gang's Relative / \
             Absolute mode like any other parameter."@,
        HelpKey::GangPanReversed => "Pan REVERSED: the pair pans away from centre symmetrically — move \
             one channel right and its partner mirrors left. Needs exactly 2 members."@,
        HelpKey::GangEdit => "Load this gang into the editor below to change its members or linked \
             sections."@,
        HelpKey::ScopeModeScope => "Edit which parameters each channel contributes to the scope."@,
        HelpKey::ScopeModePreWait => "Edit each parameter's pre-wait — the delay before it fires on recall."@,
        HelpKey::ScopeModeFade => "Edit each parameter's fade time on recall."@,
        HelpKey::ScopeClearAll => "Clear the entire scope selection."@,
        HelpKey::ScopeClearChanges => "Discard the highlighted live changes — clears the dirty markers only; \
             nothing is sent to the console."@,
        HelpKey::ScopeClearChangesDisabled => "No unsent changes to clear."@,
        HelpKey::UiModeFull => "Full mode: every tab is shown — Snapshots, Macros, Gangs, Pan Link, \
             Monitor, Palettes."@,
        HelpKey::UiModeLiveMusic => "Live Music mode: hides Snapshots and the cue transport — for bands \
             working without a cue list."@,
        HelpKey::UiModeTheatre => "Theatre mode: cue-driven workflow; hides the Monitor tab."@,
        HelpKey::ConnModeMode1 => "Mode 1: GP OSC only — the open protocol, no iPad."@,
        HelpKey::ConnModeMode2 => "Mode 2: direct iPad protocol — the daemon talks to the console as an iPad."@,
        HelpKey::ConnModeMode3 => "Mode 3: iPad proxy — the daemon sits between a real iPad and the console."@,
        HelpKey::ConnModeDisabled => "Disconnect to change the connection mode."@,
        HelpKey::SetupNetwork => "Local network interface the daemon binds to for OSC — pick the NIC on \
             the console's network, or All interfaces."@,
        HelpKey::SetupCoverage => "Show which console parameters the daemon currently mirrors."@,
        HelpKey::SetupNewShow => "Start a new, empty show — clears the current snapshots, macros, gangs \
             and palettes."@,
        HelpKey::PaletteChannelType => "Channel type to capture the palette from."@,
        HelpKey::PaletteChannelNumber => "Channel number to capture the palette from."@,
        HelpKey::PaletteName => "Name for the new palette."@,
        HelpKey::PaletteInclude => "Include this processing block (EQ / dynamics) when capturing the palette."@,
        HelpKey::PaletteRename => "Rename this palette — press Enter to apply, Escape to cancel."@,
        HelpKey::MonitorRipple => "Range-select inputs: click the first, then the last, to select \
             everything between them."@,
        HelpKey::MonitorRippleCancel => "Cancel the range selection."@,
        HelpKey::MonitorRippleConfirm => "Select every input between the two you picked."@,
        HelpKey::MonitorDeselectAll => "Clear the input selection."@,
        HelpKey::MonitorSelectAll => "Select every input."@,
        HelpKey::RecoveryLoad => "Load this backup / autosave copy into the show."@,
        HelpKey::RecoveryLoadInvalid => "This copy is corrupt and can't be loaded."@,
        HelpKey::RecoverySaveOriginal => "Write the recovered show back to the original file path."@,
        HelpKey::RecoveryCancel => "Close without recovering."@,
        HelpKey::PanLinkClearSelection => "Clear the selected input channels."@,
        HelpKey::RecallScopePrevChannel => "Previous channel."@,
        HelpKey::RecallScopeNextChannel => "Next channel."@,
        HelpKey::SnapshotEditScope => "Open the scope editor to choose which parameters this snapshot \
             captures or recalls."@,
        HelpKey::SnapshotClearScope => "Clear the scope selection."@,
        HelpKey::CueNumber => "Cue number — orders the cue list (e.g. 1, 2.5)."@,
        HelpKey::CueName => "Optional name for the cue."@,
        HelpKey::CueConsoleRow => "Console snapshot row to recall on the desk (iPad-protocol modes)."@,
        HelpKey::SnapshotScopeOverride => "Recall this cue with a different scope than the snapshot's own."@,
        HelpKey::SnapshotScopeOverrideTemplate => "Scope template to apply when recalling this cue."@,
        HelpKey::SnapshotPicker => "Choose which app snapshot this cue recalls (type to filter)."@,
        HelpKey::ShiftApply => "Apply the row shift to every matching cue."@,
        HelpKey::ShiftClose => "Close without shifting."@,
        HelpKey::ShiftFromRow => "Shift cues whose console snapshot row is at or above this number."@,
        HelpKey::ShiftDelta => "Amount to add to each matching row — negative shifts down; rows \
             reaching 0 are cleared."@,
        HelpKey::ScopeTemplateCombo => "Pick a saved scope template to load, update, or delete."@,
        HelpKey::GangChannelType => "Channel type for the gang's members."@,
        HelpKey::GangNewName => "Name for the new gang."@,
        HelpKey::GangNewMembers => "Channels to include — range notation like 1-4,7,12 (or I1-4,A1-2,G5 \
             for mixed types)."@,
        HelpKey::GangSave => "Create the gang from the fields above — saves edits when editing an \
             existing gang."@,
        HelpKey::GangCancelEdit => "Cancel editing and clear the form."@,
        HelpKey::MacroNewName => "Name for the new macro."@,
        HelpKey::MacroCreate => "Create a new empty macro with the name on the left."@,
        HelpKey::MacroRun => "Run the selected macro now — fires its steps in order."@,
        HelpKey::MacroLearnStopSave => "Stop recording and save the captured steps as a new macro."@,
        HelpKey::MacroLearnDiscard => "Stop recording and discard the captured steps."@,
        HelpKey::MacroRename => "Rename this macro — edits apply immediately to the list and any Stream Deck labels."@,
        HelpKey::MacroTrackDirty => "Treat this macro's parameters as modified — its writes mark the affected \
             parameters dirty so auto-update can capture them into snapshots."@,
        HelpKey::MacroAddStepKind => "Choose what this step does — write a parameter, drive a cue / connection, \
             run another macro, recall a snapshot or palette, or send a QLab command."@,
        HelpKey::MacroAddStepCommit => "Append a new step to the macro from the fields on this row."@,
        HelpKey::MacroStepMode => "How the value is applied: Toggle flips on/off, Fixed sets an absolute value, \
             Relative adds an offset to the live value."@,
        HelpKey::MacroStepValue => "Value written by this step — an absolute value in Fixed mode, an offset in Relative mode."@,
        HelpKey::MacroStepDelay => "Delay in milliseconds before this step fires during playback."@,
        HelpKey::MacroWizardChannelType => "Channel type this parameter step targets."@,
        HelpKey::MacroWizardChannelNumber => "Channel number this parameter step targets."@,
        HelpKey::MacroWizardSection => "Processing section (fader, EQ, dynamics, sends, …) the parameter lives in."@,
        HelpKey::MacroWizardParameter => "Specific parameter within the chosen section that this step writes."@,
        HelpKey::MacroTargetMacro => "Macro this step runs when fired."@,
        HelpKey::MacroTargetSnapshot => "Snapshot this step recalls when fired."@,
        HelpKey::MacroTargetPalette => "Palette this step recalls when fired."@,
        HelpKey::MacroPaletteChannelType => "Channel type to apply the recalled palette to."@,
        HelpKey::MacroPaletteChannelNumber => "Channel number to apply the recalled palette to."@,
        HelpKey::StreamDeckDevice => "Pick the Stream Deck to control, or a template to edit a button map offline."@,
        HelpKey::StreamDeckButtonMacro => "Macro to add as the next step for the selected button."@,
        HelpKey::StreamDeckAddStep => "Add the chosen macro as a step on the selected button."@,
    }
}

/// The catalog entry for `key`.
pub fn meta(key: HelpKey) -> (m: HelpMeta)
    ensures
        m.id@ == spec_help_id(key),
        m.english@ == spec_help_english(key),
{
    let (id, english): (&'static str, &'static str) = match key {
        HelpKey::Dismiss => ("app.dismiss", "Dismiss"),
        HelpKey::PickColor => ("color.pick", "Pick a color"),
        HelpKey::CueUndo => ("cue.undo", "Undo the last cue / snapshot recall."),
        HelpKey::CuePrev => ("cue.prev", "Recall the previous cue."),
        HelpKey::CueGo => ("cue.go", "Recall the next cue."),
        HelpKey::CueSkip => ("cue.skip", "Skip — advance to the next cue without recalling it."),
        HelpKey::CueListOpen => ("cue.list_open", "Open the cue list."),
        HelpKey::CueListJump => ("cue.list_jump", "Jump to this cue and recall it."),
        HelpKey::OfflineToggle => ("app.offline_toggle", "Offline mode: drops every inbound and outbound OSC message. \
             Lets you edit show data without affecting the desk. \
             Toggle back to Online to resume — the state mirror will be \
             stale until you click Refresh on the Setup tab."),
        HelpKey::SnapshotReRecall => ("snapshot.re_recall", "Re-recall this snapshot now to confirm nothing drifted"),
        HelpKey::AdvancedDiagnostics => ("advanced.diagnostics", "Adds OSC Log and Inspector tabs to the main tab bar."),
        HelpKey::AdvancedPacing => ("advanced.pacing", "Delay inserted between consecutive OSC messages so a long sequence \
             doesn't flood the console. Applies to snapshot recall and macros. \
             0 = no pacing."),
        HelpKey::AdvancedScale => ("advanced.scale", "Manual UI size multiplier, applied on top of the automatic display \
             scaling. 100% = automatic scaling only."),
        HelpKey::TabSetup => ("tab.setup", "Connection, display mode, and show-file load/save."),
        HelpKey::TabMacros => ("tab.macros", "Record, edit and fire macros."),
        HelpKey::TabGangs => ("tab.gangs", "Link channels so a parameter change on one propagates to the others."),
        HelpKey::TabPanLink => ("tab.pan_link", "Link an input channel's pan to its aux send pans."),
        HelpKey::TabSnapshots => ("tab.snapshots", "Capture and recall console state as snapshots and cues."),
        HelpKey::TabMonitor => ("tab.monitor", "Live channel meters and remote monitoring clients."),
        HelpKey::TabOscLog => ("tab.osc_log", "Live log of OSC traffic to and from the console."),
        HelpKey::TabInspector => ("tab.inspector", "Inspect the live parameter state mirror."),
        HelpKey::LongPressConfirm => ("widget.long_press_confirm", "Hold {ms} ms to confirm."),
        HelpKey::MacroLearnReady => ("macro.learn_ready", "Record every parameter change made on the console into a new macro."),
        HelpKey::MacroLearnNeedsConn => ("macro.learn_needs_conn", "Connect to the console first — Learn captures inbound parameter changes."),
        HelpKey::MacroClearSelection => ("macro.clear_selection", "Clear the multi-selection"),
        HelpKey::MacroDedupSelected => ("macro.dedup_selected", "For every selected step, drop other steps with \
             the same (channel, parameter)"),
        HelpKey::MacroDeleteSelected => ("macro.delete_selected", "Remove every selected step"),
        HelpKey::MacroZeroDelaySelected => ("macro.zero_delay_selected", "Set delay to 0 ms on every selected step"),
        HelpKey::MacroStepSelectHint => ("macro.step_select_hint", "Click to select; Ctrl/Cmd-click to toggle; \
             Shift-click to range-select."),
        HelpKey::MacroKeepOnlyStep => ("macro.keep_only_step", "Keep only this step for its (channel, parameter); \
             remove the rest"),
        HelpKey::MacroDeleteStep => ("macro.delete_step", "Delete this step"),
        HelpKey::MacroResetStepDelay => ("macro.reset_step_delay", "Reset this step's delay to 0 ms"),
        HelpKey::MacroMirrorInbound => ("macro.mirror_inbound", "Mirror the most-recent inbound parameter from the console into \
             the form below so you can hit Add Step without retyping."),
        HelpKey::MacroQlabCueNumber => ("macro.qlab_cue_number", "QLab cue number — free-form string (numbers, letters, dots). \
             Sent as `/cue/<number>/start`."),
        HelpKey::MacroAddSwatch => ("macro.add_swatch", "Add the current color to your saved swatches (per show)"),
        HelpKey::StreamDeckClose => ("streamdeck.close", "Close Stream Deck setup and go back to the \
             macro step editor."),
        HelpKey::StreamDeckEnable => ("streamdeck.enable", "Enable the Stream Deck integration. Auto-connects to \
             the previously-selected device if it's plugged in; \
             otherwise open Setup… to pick one."),
        HelpKey::StreamDeckDisable => ("streamdeck.disable", "Disable the Stream Deck integration. Disconnects the \
             device but preserves your button maps."),
        HelpKey::StreamDeckOpenPanel => ("streamdeck.open_panel", "Open the Stream Deck panel — device selection, \
             button grid, per-button macro sequences."),
        HelpKey::PanLinkRevert => ("panlink.revert", "Discard staged changes and resync with the live bindings."),
        HelpKey::PanLinkApply => ("panlink.apply", "Commit staged links. Aux send pans don't move until \
             the input main pan next changes."),
        HelpKey::SetupConsoleIp => ("setup.console_ip", "S21 console IP address."),
        HelpKey::SetupConsoleIpWarning => ("setup.console_ip_warning", "Console IP isn't on the selected NIC's network \
             (first two octets differ — unreachable even with /16). \
             Click to dismiss."),
        HelpKey::SetupConsolePort => ("setup.console_port", "Console port — daemon sends GP OSC here."),
        HelpKey::SetupLocalPort => ("setup.local_port", "Local port the daemon listens on for GP OSC from the console."),
        HelpKey::SetupIpadConsolePort => ("setup.ipad_console_port", "Console iPad-protocol port — daemon sends here."),
        HelpKey::SetupIpadLocalPort => ("setup.ipad_local_port", "Local port the daemon listens on for iPad-protocol traffic."),
        HelpKey::SetupIpadReplyPort => ("setup.ipad_reply_port", "Port on the iPad — daemon sends to it here."),
        HelpKey::SetupIpadListenPort => ("setup.ipad_listen_port", "Local port the daemon listens on for iPad→daemon traffic."),
        HelpKey::SetupIpadIp => ("setup.ipad_ip", "iPad device IP (required for iPad Proxy mode) — read it off the DiGiCo iPad app."),
        HelpKey::SetupQlabHost => ("setup.qlab_host", "QLab host — usually 127.0.0.1 if QLab runs on this machine."),
        HelpKey::SetupQlabPort => ("setup.qlab_port", "QLab's OSC listen port — daemon sends cue-build commands here."),
        HelpKey::SetupTriggerPort => ("setup.trigger_port", "Local port the daemon listens on for cue triggers from QLab."),
        HelpKey::SetupMonitorPort => ("setup.monitor_port", "Local port for the Flutter monitor app — leave blank to disable."),
        HelpKey::SetupOpenShow => ("setup.open_show", "Pick a show file and load it. Save As… to save to \
             a new path."),
        HelpKey::SetupSaveShow => ("setup.save_show", "Save to the path shown above. If empty, prompts for a \
             location."),
        HelpKey::SetupSaveShowAs => ("setup.save_show_as", "Pick a new location and save there. Useful when the \
             path field already points at a different file."),
        HelpKey::SetupAdvanced => ("setup.advanced", "Pacing, diagnostics, and other application preferences."),
        HelpKey::SnapshotAutoUpdate => ("snapshot.auto_update", "When recalling a snapshot, write any dirty parameters \
             within the previous snapshot's scope back into it. \
             Captures mid-show tweaks automatically."),
        HelpKey::SnapshotConsoleFollowReq => ("snapshot.console_follow_req", "Requires Mode 2 or Mode 3 (iPad protocol) — the console \
             snapshot list is only reachable via that protocol."),
        HelpKey::SnapshotRecallNoScopeReq => ("snapshot.recall_no_scope_req", "Only available for snapshots captured with 'Apply scope on recall' \
             — ApplyOnSave snapshots already filtered at capture time, so there \
             is nothing outside the saved scope to recall."),
        HelpKey::SnapshotBulkShift => ("snapshot.bulk_shift", "Bulk-shift every cue's console snapshot when you've \
             inserted or removed snapshots on the console."),
        HelpKey::ScopeNoLiveParam => ("scope.no_live_param", "no live parameter"),
        HelpKey::ScopeConsoleConflict => ("scope.console_conflict", "In console session scope, not safed for this channel"),
        HelpKey::MonitorAddProfile => ("monitor.add_profile", "Create a monitoring profile — choose which auxes and inputs a \
             musician's monitor app may control."),
        HelpKey::MonitorEditProfile => ("monitor.edit_profile", "Edit this profile's name and permitted channels."),
        HelpKey::MonitorProfilePin => ("monitor.profile_pin", "Optional PIN for the web (browser) login. Leave it blank for \
             name-only login; the native monitor app ignores it."),
        HelpKey::MonitorReorder => ("monitor.reorder", "Rearrange this profile's channel order — drag the badges, then \
             click Done."),
        HelpKey::MonitorReorderDone => ("monitor.reorder_done", "Finish reordering and save the new channel order."),
        HelpKey::OscLogFilter => ("osc_log.filter", "Show only messages whose OSC path contains this text."),
        HelpKey::OscLogShowIn => ("osc_log.show_in", "Show inbound GP OSC messages (console → daemon)."),
        HelpKey::OscLogShowOut => ("osc_log.show_out", "Show outbound GP OSC messages (daemon → console)."),
        HelpKey::OscLogShowIpadToConsole => ("osc_log.show_ipad_to_console", "Show iPad-protocol messages heading to the console (iPad → Console)."),
        HelpKey::OscLogShowIpadFromConsole => ("osc_log.show_ipad_from_console", "Show iPad-protocol messages heading to the iPad (Console → iPad)."),
        HelpKey::OscLogPause => ("osc_log.pause", "Pause or resume live capture. While paused the list stays frozen \
             for inspection; traffic still flows."),
        HelpKey::OscLogClear => ("osc_log.clear", "Discard every captured message."),
        HelpKey::InspectorFilter => ("inspector.filter", "Filter rows whose channel, parameter, or value contains this text."),
        HelpKey::InspectorTypeAll => ("inspector.type_all", "Show parameters for every channel type."),
        HelpKey::InspectorTypeFilter => ("inspector.type_filter", "Show only parameters for this channel type."),
        HelpKey::InspectorSortHeader => ("inspector.sort_header", "Click to sort by this column; click again to reverse."),
        HelpKey::GangFaderMutePan => ("gang.fader_mute_pan", "Channel fader level, mute and solo. Pan has its own OFF/ON/REVERSED \
             control on each gang and is no longer linked by this section."),
        HelpKey::GangName => ("gang.name", "Channel name string."),
        HelpKey::GangInputGain => ("gang.input_gain", "Head-amp gain, total/computed gain, gain tracking, phantom \
             power, main/alt input switch, stereo mode (input channels only)."),
        HelpKey::GangTrim => ("gang.trim", "Channel trim level (-40 dB to +40 dB). Available on input, \
             aux, group and matrix channels."),
        HelpKey::GangPolarity => ("gang.polarity", "Phase / polarity invert. Available on input, aux, group and \
             matrix channels."),
        HelpKey::GangBalanceWidth => ("gang.balance_width", "Stereo balance (-1 to +1) and width — applies to stereo \
             input channels only (GP OSC, input-only per the S21 chart)."),
        HelpKey::GangDelay => ("gang.delay", "Channel delay time and enable."),
        HelpKey::GangDigitube => ("gang.digitube", "Digitube drive, bias and enable."),
        HelpKey::GangEq => ("gang.eq", "Parametric EQ — band gains, Q, freq, dynamic-EQ \
             settings, EQ on/off."),
        HelpKey::GangDyn1 => ("gang.dyn1", "Dynamics 1 — compressor / gate parameters and on/off."),
        HelpKey::GangDyn2 => ("gang.dyn2", "Dynamics 2 — second processor parameters and on/off."),
        HelpKey::GangSends => ("gang.sends", "Aux send levels and on/off across all aux buses. \
             Only propagates between members of the same channel type."),
        HelpKey::GangGroupRouting => ("gang.group_routing", "Group routing — which group buses the channel feeds. \
             Only propagates between same-type members."),
        HelpKey::GangInserts => ("gang.inserts", "Insert A / B send / return enable."),
        HelpKey::GangCgMembership => ("gang.cg_membership", "Control Group membership — which CGs the channel belongs \
             to. Settable via the iPad protocol only (Mode 2 / Mode 3) \
             using CGs_level / CGs_mute bitmasks; GP OSC has no \
             CG-membership writer. Only propagates between same-type \
             members."),
        HelpKey::GangGraphicEq => ("gang.graphic_eq", "Graphic EQ band gains. Only meaningful when ganging \
             Graphic EQ channels (GEQ1, GEQ2, …)."),
        HelpKey::GangMatrixSends => ("gang.matrix_sends", "Matrix-send levels and on/off. Only meaningful when \
             ganging Matrix Input channels (MI1, MI2, …)."),
        HelpKey::ThemeDark => ("theme.dark", "Use the dark colour theme."),
        HelpKey::ThemeLight => ("theme.light", "Use the light colour theme."),
        HelpKey::PaletteCapture => ("palette.capture", "Capture the selected channel's chosen processing into a new palette."),
        HelpKey::PaletteRecapture => ("palette.recapture", "Overwrite this palette with the current state of its channel."),
        HelpKey::PaletteDelete => ("palette.delete", "Delete this palette and unlink it from any snapshots."),
        HelpKey::PaletteLinkedOther => ("palette.linked_other", "Currently linked to: \"{name}\"."),
        HelpKey::SnapshotCaptureNow => ("snapshot.capture_now", "Capture the current console state into a new snapshot, filtered by the \
             scope above."),
        HelpKey::SnapshotRecall => ("snapshot.recall", "Recall the selected snapshot to the console."),
        HelpKey::SnapshotRecapture => ("snapshot.recapture", "Overwrite the selected snapshot with the current console state."),
        HelpKey::SnapshotUndo => ("snapshot.undo", "Undo the last snapshot recall, restoring the previous values."),
        HelpKey::SnapshotApplyScope => ("snapshot.apply_scope", "When the scope is applied: 'On save' stores only in-scope parameters; \
             'On recall' captures the whole console state and filters it on recall \
             (allowing 'Recall without scope')."),
        HelpKey::SnapshotQlabCreateTrigger => ("snapshot.qlab_create_trigger", "Create a single network cue in QLab whose customString fires \
             /snapshot/recall <name>. Sent to {target}."),
        HelpKey::SnapshotQlabExportFull => ("snapshot.qlab_export_full", "Export one network cue per parameter to QLab (grouped). Sent to {target}."),
        HelpKey::CueAdd => ("cue.add", "Add a new cue to the list from the fields above."),
        HelpKey::CueSaveChanges => ("cue.save_changes", "Save the edits to the selected cue."),
        HelpKey::ScopeTemplateLoad => ("scope.template_load", "Replace the current selection with the chosen scope template."),
        HelpKey::ScopeTemplateSave => ("scope.template_save", "Save the current selection as a new scope template named on the left."),
        HelpKey::MonitorPickerCancel => ("monitor.picker_cancel", "Discard changes and close without saving the profile."),
        HelpKey::MonitorPickerSave => ("monitor.picker_save", "Save this monitoring profile and close."),
        HelpKey::GangEnableToggle => ("gang.enable_toggle", "Enable or disable this gang. While off, moving a member doesn't \
             propagate to the others."),
        HelpKey::GangPause => ("gang.pause", "Temporarily suspend propagation without unlinking — members keep \
             their grouping; moves stop mirroring until you resume."),
        HelpKey::GangNeedsEnable => ("gang.needs_enable", "Enable the gang first to change its mode or pause it."),
        HelpKey::GangRelative => ("gang.relative", "Relative mode: moving a member shifts the others by the same delta, \
             preserving their offsets."),
        HelpKey::GangAbsolute => ("gang.absolute", "Absolute mode: moving a member sets the others to the same value."),
        HelpKey::GangPanOff => ("gang.pan_off", "Pan OFF: channel pan is not linked across this gang — only the \
             selected sections (fader/mute, EQ, etc.) propagate."),
        HelpKey::GangPanOn => ("gang.pan_on", "Pan ON: channel pan is linked and follows the gang's Relative / \
             Absolute mode like any other parameter."),
        HelpKey::GangPanReversed => ("gang.pan_reversed", "Pan REVERSED: the pair pans away from centre symmetrically — move \
             one channel right and its partner mirrors left. Needs exactly 2 members."),
        HelpKey::GangEdit => ("gang.edit", "Load this gang into the editor below to change its members or linked \
             sections."),
        HelpKey::ScopeModeScope => ("scope.mode_scope", "Edit which parameters each channel contributes to the scope."),
        HelpKey::ScopeModePreWait => ("scope.mode_pre_wait", "Edit each parameter's pre-wait — the delay before it fires on recall."),
        HelpKey::ScopeModeFade => ("scope.mode_fade", "Edit each parameter's fade time on recall."),
        HelpKey::ScopeClearAll => ("scope.clear_all", "Clear the entire scope selection."),
        HelpKey::ScopeClearChanges => ("scope.clear_changes", "Discard the highlighted live changes — clears the dirty markers only; \
             nothing is sent to the console."),
        HelpKey::ScopeClearChangesDisabled => ("scope.clear_changes_disabled", "No unsent changes to clear."),
        HelpKey::UiModeFull => ("ui_mode.full", "Full mode: every tab is shown — Snapshots, Macros, Gangs, Pan Link, \
             Monitor, Palettes."),
        HelpKey::UiModeLiveMusic => ("ui_mode.live_music", "Live Music mode: hides Snapshots and the cue transport — for bands \
             working without a cue list."),
        HelpKey::UiModeTheatre => ("ui_mode.theatre", "Theatre mode: cue-driven workflow; hides the Monitor tab."),
        HelpKey::ConnModeMode1 => ("conn_mode.mode1", "Mode 1: GP OSC only — the open protocol, no iPad."),
        HelpKey::ConnModeMode2 => ("conn_mode.mode2", "Mode 2: direct iPad protocol — the daemon talks to the console as an iPad."),
        HelpKey::ConnModeMode3 => ("conn_mode.mode3", "Mode 3: iPad proxy — the daemon sits between a real iPad and the console."),
        HelpKey::ConnModeDisabled => ("conn_mode.disabled", "Disconnect to change the connection mode."),
        HelpKey::SetupNetwork => ("setup.network", "Local network interface the daemon binds to for OSC — pick the NIC on \
             the console's network, or All interfaces."),
        HelpKey::SetupCoverage => ("setup.coverage", "Show which console parameters the daemon currently mirrors."),
        HelpKey::SetupNewShow => ("setup.new_show", "Start a new, empty show — clears the current snapshots, macros, gangs \
             and palettes."),
        HelpKey::PaletteChannelType => ("palette.channel_type", "Channel type to capture the palette from."),
        HelpKey::PaletteChannelNumber => ("palette.channel_number", "Channel number to capture the palette from."),
        HelpKey::PaletteName => ("palette.name", "Name for the new palette."),
        HelpKey::PaletteInclude => ("palette.include", "Include this processing block (EQ / dynamics) when capturing the palette."),
        HelpKey::PaletteRename => ("palette.rename", "Rename this palette — press Enter to apply, Escape to cancel."),
        HelpKey::MonitorRipple => ("monitor.ripple", "Range-select inputs: click the first, then the last, to select \
             everything between them."),
        HelpKey::MonitorRippleCancel => ("monitor.ripple_cancel", "Cancel the range selection."),
        HelpKey::MonitorRippleConfirm => ("monitor.ripple_confirm", "Select every input between the two you picked."),
        HelpKey::MonitorDeselectAll => ("monitor.deselect_all", "Clear the input selection."),
        HelpKey::MonitorSelectAll => ("monitor.select_all", "Select every input."),
        HelpKey::RecoveryLoad => ("recovery.load", "Load this backup / autosave copy into the show."),
        HelpKey::RecoveryLoadInvalid => ("recovery.load_invalid", "This copy is corrupt and can't be loaded."),
        HelpKey::RecoverySaveOriginal => ("recovery.save_original", "Write the recovered show back to the original file path."),
        HelpKey::RecoveryCancel => ("recovery.cancel", "Close without recovering."),
        HelpKey::PanLinkClearSelection => ("panlink.clear_selection", "Clear the selected input channels."),
        HelpKey::RecallScopePrevChannel => ("recall_scope.prev_channel", "Previous channel."),
        HelpKey::RecallScopeNextChannel => ("recall_scope.next_channel", "Next channel."),
        HelpKey::SnapshotEditScope => ("snapshot.edit_scope", "Open the scope editor to choose which parameters this snapshot \
             captures or recalls."),
        HelpKey::SnapshotClearScope => ("snapshot.clear_scope", "Clear the scope selection."),
        HelpKey::CueNumber => ("cue.number", "Cue number — orders the cue list (e.g. 1, 2.5)."),
        HelpKey::CueName => ("cue.name", "Optional name for the cue."),
        HelpKey::CueConsoleRow => ("cue.console_row", "Console snapshot row to recall on the desk (iPad-protocol modes)."),
        HelpKey::SnapshotScopeOverride => ("snapshot.scope_override", "Recall this cue with a different scope than the snapshot's own."),
        HelpKey::SnapshotScopeOverrideTemplate => ("snapshot.scope_override_template", "Scope template to apply when recalling this cue."),
        HelpKey::SnapshotPicker => ("snapshot.picker", "Choose which app snapshot this cue recalls (type to filter)."),
        HelpKey::ShiftApply => ("shift.apply", "Apply the row shift to every matching cue."),
        HelpKey::ShiftClose => ("shift.close", "Close without shifting."),
        HelpKey::ShiftFromRow => ("shift.from_row", "Shift cues whose console snapshot row is at or above this number."),
        HelpKey::ShiftDelta => ("shift.delta", "Amount to add to each matching row — negative shifts down; rows \
             reaching 0 are cleared."),
        HelpKey::ScopeTemplateCombo => ("scope.template_combo", "Pick a saved scope template to load, update, or delete."),
        HelpKey::GangChannelType => ("gang.channel_type", "Channel type for the gang's members."),
        HelpKey::GangNewName => ("gang.new_name", "Name for the new gang."),
        HelpKey::GangNewMembers => ("gang.new_members", "Channels to include — range notation like 1-4,7,12 (or I1-4,A1-2,G5 \
             for mixed types)."),
        HelpKey::GangSave => ("gang.save", "Create the gang from the fields above — saves edits when editing an \
             existing gang."),
        HelpKey::GangCancelEdit => ("gang.cancel_edit", "Cancel editing and clear the form."),
        HelpKey::MacroNewName => ("macro.new_name", "Name for the new macro."),
        HelpKey::MacroCreate => ("macro.create", "Create a new empty macro with the name on the left."),
        HelpKey::MacroRun => ("macro.run", "Run the selected macro now — fires its steps in order."),
        HelpKey::MacroLearnStopSave => ("macro.learn_stop_save", "Stop recording and save the captured steps as a new macro."),
        HelpKey::MacroLearnDiscard => ("macro.learn_discard", "Stop recording and discard the captured steps."),
        HelpKey::MacroRename => ("macro.rename", "Rename this macro — edits apply immediately to the list and any Stream Deck labels."),
        HelpKey::MacroTrackDirty => ("macro.track_dirty", "Treat this macro's parameters as modified — its writes mark the affected \
             parameters dirty so auto-update can capture them into snapshots."),
        HelpKey::MacroAddStepKind => ("macro.add_step_kind", "Choose what this step does — write a parameter, drive a cue / connection, \
             run another macro, recall a snapshot or palette, or send a QLab command."),
        HelpKey::MacroAddStepCommit => ("macro.add_step_commit", "Append a new step to the macro from the fields on this row."),
        HelpKey::MacroStepMode => ("macro.step_mode", "How the value is applied: Toggle flips on/off, Fixed sets an absolute value, \
             Relative adds an offset to the live value."),
        HelpKey::MacroStepValue => ("macro.step_value", "Value written by this step — an absolute value in Fixed mode, an offset in Relative mode."),
        HelpKey::MacroStepDelay => ("macro.step_delay", "Delay in milliseconds before this step fires during playback."),
        HelpKey::MacroWizardChannelType => ("macro.wizard_channel_type", "Channel type this parameter step targets."),
        HelpKey::MacroWizardChannelNumber => ("macro.wizard_channel_number", "Channel number this parameter step targets."),
        HelpKey::MacroWizardSection => ("macro.wizard_section", "Processing section (fader, EQ, dynamics, sends, …) the parameter lives in."),
        HelpKey::MacroWizardParameter => ("macro.wizard_parameter", "Specific parameter within the chosen section that this step writes."),
        HelpKey::MacroTargetMacro => ("macro.target_macro", "Macro this step runs when fired."),
        HelpKey::MacroTargetSnapshot => ("macro.target_snapshot", "Snapshot this step recalls when fired."),
        HelpKey::MacroTargetPalette => ("macro.target_palette", "Palette this step recalls when fired."),
        HelpKey::MacroPaletteChannelType => ("macro.palette_channel_type", "Channel type to apply the recalled palette to."),
        HelpKey::MacroPaletteChannelNumber => ("macro.palette_channel_number", "Channel number to apply the recalled palette to."),
        HelpKey::StreamDeckDevice => ("streamdeck.device", "Pick the Stream Deck to control, or a template to edit a button map offline."),
        HelpKey::StreamDeckButtonMacro => ("streamdeck.button_macro", "Macro to add as the next step for the selected button."),
        HelpKey::StreamDeckAddStep => ("streamdeck.add_step", "Add the chosen macro as a step on the selected button."),
    };
    HelpMeta { id, english }
}

/// Every help key, in declaration order.
pub open spec fn spec_all_keys() -> Seq<HelpKey> {
    seq![
        HelpKey::Dismiss,
        HelpKey::PickColor,
        HelpKey::CueUndo,
        HelpKey::CuePrev,
        HelpKey::CueGo,
        HelpKey::CueSkip,
        HelpKey::CueListOpen,
        HelpKey::CueListJump,
        HelpKey::OfflineToggle,
        HelpKey::SnapshotReRecall,
        HelpKey::AdvancedDiagnostics,
        HelpKey::AdvancedPacing,
        HelpKey::AdvancedScale,
        HelpKey::TabSetup,
        HelpKey::TabMacros,
        HelpKey::TabGangs,
        HelpKey::TabPanLink,
        HelpKey::TabSnapshots,
        HelpKey::TabMonitor,
        HelpKey::TabOscLog,
        HelpKey::TabInspector,
        HelpKey::LongPressConfirm,
        HelpKey::MacroLearnReady,
        HelpKey::MacroLearnNeedsConn,
        HelpKey::MacroClearSelection,
        HelpKey::MacroDedupSelected,
        HelpKey::MacroDeleteSelected,
        HelpKey::MacroZeroDelaySelected,
        HelpKey::MacroStepSelectHint,
        HelpKey::MacroKeepOnlyStep,
        HelpKey::MacroDeleteStep,
        HelpKey::MacroResetStepDelay,
        HelpKey::MacroMirrorInbound,
        HelpKey::MacroQlabCueNumber,
        HelpKey::MacroAddSwatch,
        HelpKey::StreamDeckClose,
        HelpKey::StreamDeckEnable,
        HelpKey::StreamDeckDisable,
        HelpKey::StreamDeckOpenPanel,
        HelpKey::PanLinkRevert,
        HelpKey::PanLinkApply,
        HelpKey::SetupConsoleIp,
        HelpKey::SetupConsoleIpWarning,
        HelpKey::SetupConsolePort,
        HelpKey::SetupLocalPort,
        HelpKey::SetupIpadConsolePort,
        HelpKey::SetupIpadLocalPort,
        HelpKey::SetupIpadReplyPort,
        HelpKey::SetupIpadListenPort,
        HelpKey::SetupIpadIp,
        HelpKey::SetupQlabHost,
        HelpKey::SetupQlabPort,
        HelpKey::SetupTriggerPort,
        HelpKey::SetupMonitorPort,
        HelpKey::SetupOpenShow,
        HelpKey::SetupSaveShow,
        HelpKey::SetupSaveShowAs,
        HelpKey::SetupAdvanced,
        HelpKey::SnapshotAutoUpdate,
        HelpKey::SnapshotConsoleFollowReq,
        HelpKey::SnapshotRecallNoScopeReq,
        HelpKey::SnapshotBulkShift,
        HelpKey::ScopeNoLiveParam,
        HelpKey::ScopeConsoleConflict,
        HelpKey::MonitorAddProfile,
        HelpKey::MonitorEditProfile,
        HelpKey::MonitorProfilePin,
        HelpKey::MonitorReorder,
        HelpKey::MonitorReorderDone,
        HelpKey::OscLogFilter,
        HelpKey::OscLogShowIn,
        HelpKey::OscLogShowOut,
        HelpKey::OscLogShowIpadToConsole,
        HelpKey::OscLogShowIpadFromConsole,
        HelpKey::OscLogPause,
        HelpKey::OscLogClear,
        HelpKey::InspectorFilter,
        HelpKey::InspectorTypeAll,
        HelpKey::InspectorTypeFilter,
        HelpKey::InspectorSortHeader,
        HelpKey::GangFaderMutePan,
        HelpKey::GangName,
        HelpKey::GangInputGain,
        HelpKey::GangTrim,
        HelpKey::GangPolarity,
        HelpKey::GangBalanceWidth,
        HelpKey::GangDelay,
        HelpKey::GangDigitube,
        HelpKey::GangEq,
        HelpKey::GangDyn1,
        HelpKey::GangDyn2,
        HelpKey::GangSends,
        HelpKey::GangGroupRouting,
        HelpKey::GangInserts,
        HelpKey::GangCgMembership,
        HelpKey::GangGraphicEq,
        HelpKey::GangMatrixSends,
        HelpKey::ThemeDark,
        HelpKey::ThemeLight,
        HelpKey::PaletteCapture,
        HelpKey::PaletteRecapture,
        HelpKey::PaletteDelete,
        HelpKey::PaletteLinkedOther,
        HelpKey::SnapshotCaptureNow,
        HelpKey::SnapshotRecall,
        HelpKey::SnapshotRecapture,
        HelpKey::SnapshotUndo,
        HelpKey::SnapshotApplyScope,
        HelpKey::SnapshotQlabCreateTrigger,
        HelpKey::SnapshotQlabExportFull,
        HelpKey::CueAdd,
        HelpKey::CueSaveChanges,
        HelpKey::ScopeTemplateLoad,
        HelpKey::ScopeTemplateSave,
        HelpKey::MonitorPickerCancel,
        HelpKey::MonitorPickerSave,
        HelpKey::GangEnableToggle,
        HelpKey::GangPause,
        HelpKey::GangNeedsEnable,
        HelpKey::GangRelative,
        HelpKey::GangAbsolute,
        HelpKey::GangPanOff,
        HelpKey::GangPanOn,
        HelpKey::GangPanReversed,
        HelpKey::GangEdit,
        HelpKey::ScopeModeScope,
        HelpKey::ScopeModePreWait,
        HelpKey::ScopeModeFade,
        HelpKey::ScopeClearAll,
        HelpKey::ScopeClearChanges,
        HelpKey::ScopeClearChangesDisabled,
        HelpKey::UiModeFull,
        HelpKey::UiModeLiveMusic,
        HelpKey::UiModeTheatre,
        HelpKey::ConnModeMode1,
        HelpKey::ConnModeMode2,
        HelpKey::ConnModeMode3,
        HelpKey::ConnModeDisabled,
        HelpKey::SetupNetwork,
        HelpKey::SetupCoverage,
        HelpKey::SetupNewShow,
        HelpKey::PaletteChannelType,
        HelpKey::PaletteChannelNumber,
        HelpKey::PaletteName,
        HelpKey::PaletteInclude,
        HelpKey::PaletteRename,
        HelpKey::MonitorRipple,
        HelpKey::MonitorRippleCancel,
        HelpKey::MonitorRippleConfirm,
        HelpKey::MonitorDeselectAll,
        HelpKey::MonitorSelectAll,
        HelpKey::RecoveryLoad,
        HelpKey::RecoveryLoadInvalid,
        HelpKey::RecoverySaveOriginal,
        HelpKey::RecoveryCancel,
        HelpKey::PanLinkClearSelection,
        HelpKey::RecallScopePrevChannel,
        HelpKey::RecallScopeNextChannel,
        HelpKey::SnapshotEditScope,
        HelpKey::SnapshotClearScope,
        HelpKey::CueNumber,
        HelpKey::CueName,
        HelpKey::CueConsoleRow,
        HelpKey::SnapshotScopeOverride,
        HelpKey::SnapshotScopeOverrideTemplate,
        HelpKey::SnapshotPicker,
        HelpKey::ShiftApply,
        HelpKey::ShiftClose,
        HelpKey::ShiftFromRow,
        HelpKey::ShiftDelta,
        HelpKey::ScopeTemplateCombo,
        HelpKey::GangChannelType,
        HelpKey::GangNewName,
        HelpKey::GangNewMembers,
        HelpKey::GangSave,
        HelpKey::GangCancelEdit,
        HelpKey::MacroNewName,
        HelpKey::MacroCreate,
        HelpKey::MacroRun,
        HelpKey::MacroLearnStopSave,
        HelpKey::MacroLearnDiscard,
        HelpKey::MacroRename,
        HelpKey::MacroTrackDirty,
        HelpKey::MacroAddStepKind,
        HelpKey::MacroAddStepCommit,
        HelpKey::MacroStepMode,
        HelpKey::MacroStepValue,
        HelpKey::MacroStepDelay,
        HelpKey::MacroWizardChannelType,
        HelpKey::MacroWizardChannelNumber,
        HelpKey::MacroWizardSection,
        HelpKey::MacroWizardParameter,
        HelpKey::MacroTargetMacro,
        HelpKey::MacroTargetSnapshot,
        HelpKey::MacroTargetPalette,
        HelpKey::MacroPaletteChannelType,
        HelpKey::MacroPaletteChannelNumber,
        HelpKey::StreamDeckDevice,
        HelpKey::StreamDeckButtonMacro,
        HelpKey::StreamDeckAddStep,
    ]
}

/// Every help key, in declaration order.
pub fn all_keys() -> (v: Vec<HelpKey>)
    ensures
        v@ == spec_all_keys(),
{
    let v = vec![
        HelpKey::Dismiss,
        HelpKey::PickColor,
        HelpKey::CueUndo,
        HelpKey::CuePrev,
        HelpKey::CueGo,
        HelpKey::CueSkip,
        HelpKey::CueListOpen,
        HelpKey::CueListJump,
        HelpKey::OfflineToggle,
        HelpKey::SnapshotReRecall,
        HelpKey::AdvancedDiagnostics,
        HelpKey::AdvancedPacing,
        HelpKey::AdvancedScale,
        HelpKey::TabSetup,
        HelpKey::TabMacros,
        HelpKey::TabGangs,
        HelpKey::TabPanLink,
        HelpKey::TabSnapshots,
        HelpKey::TabMonitor,
        HelpKey::TabOscLog,
        HelpKey::TabInspector,
        HelpKey::LongPressConfirm,
        HelpKey::MacroLearnReady,
        HelpKey::MacroLearnNeedsConn,
        HelpKey::MacroClearSelection,
        HelpKey::MacroDedupSelected,
        HelpKey::MacroDeleteSelected,
        HelpKey::MacroZeroDelaySelected,
        HelpKey::MacroStepSelectHint,
        HelpKey::MacroKeepOnlyStep,
        HelpKey::MacroDeleteStep,
        HelpKey::MacroResetStepDelay,
        HelpKey::MacroMirrorInbound,
        HelpKey::MacroQlabCueNumber,
        HelpKey::MacroAddSwatch,
        HelpKey::StreamDeckClose,
        HelpKey::StreamDeckEnable,
        HelpKey::StreamDeckDisable,
        HelpKey::StreamDeckOpenPanel,
        HelpKey::PanLinkRevert,
        HelpKey::PanLinkApply,
        HelpKey::SetupConsoleIp,
        HelpKey::SetupConsoleIpWarning,
        HelpKey::SetupConsolePort,
        HelpKey::SetupLocalPort,
        HelpKey::SetupIpadConsolePort,
        HelpKey::SetupIpadLocalPort,
        HelpKey::SetupIpadReplyPort,
        HelpKey::SetupIpadListenPort,
        HelpKey::SetupIpadIp,
        HelpKey::SetupQlabHost,
        HelpKey::SetupQlabPort,
        HelpKey::SetupTriggerPort,
        HelpKey::SetupMonitorPort,
        HelpKey::SetupOpenShow,
        HelpKey::SetupSaveShow,
        HelpKey::SetupSaveShowAs,
        HelpKey::SetupAdvanced,
        HelpKey::SnapshotAutoUpdate,
        HelpKey::SnapshotConsoleFollowReq,
        HelpKey::SnapshotRecallNoScopeReq,
        HelpKey::SnapshotBulkShift,
        HelpKey::ScopeNoLiveParam,
        HelpKey::ScopeConsoleConflict,
        HelpKey::MonitorAddProfile,
        HelpKey::MonitorEditProfile,
        HelpKey::MonitorProfilePin,
        HelpKey::MonitorReorder,
        HelpKey::MonitorReorderDone,
        HelpKey::OscLogFilter,
        HelpKey::OscLogShowIn,
        HelpKey::OscLogShowOut,
        HelpKey::OscLogShowIpadToConsole,
        HelpKey::OscLogShowIpadFromConsole,
        HelpKey::OscLogPause,
        HelpKey::OscLogClear,
        HelpKey::InspectorFilter,
        HelpKey::InspectorTypeAll,
        HelpKey::InspectorTypeFilter,
        HelpKey::InspectorSortHeader,
        HelpKey::GangFaderMutePan,
        HelpKey::GangName,
        HelpKey::GangInputGain,
        HelpKey::GangTrim,
        HelpKey::GangPolarity,
        HelpKey::GangBalanceWidth,
        HelpKey::GangDelay,
        HelpKey::GangDigitube,
        HelpKey::GangEq,
        HelpKey::GangDyn1,
        HelpKey::GangDyn2,
        HelpKey::GangSends,
        HelpKey::GangGroupRouting,
        HelpKey::GangInserts,
        HelpKey::GangCgMembership,
        HelpKey::GangGraphicEq,
        HelpKey::GangMatrixSends,
        HelpKey::ThemeDark,
        HelpKey::ThemeLight,
        HelpKey::PaletteCapture,
        HelpKey::PaletteRecapture,
        HelpKey::PaletteDelete,
        HelpKey::PaletteLinkedOther,
        HelpKey::SnapshotCaptureNow,
        HelpKey::SnapshotRecall,
        HelpKey::SnapshotRecapture,
        HelpKey::SnapshotUndo,
        HelpKey::SnapshotApplyScope,
        HelpKey::SnapshotQlabCreateTrigger,
        HelpKey::SnapshotQlabExportFull,
        HelpKey::CueAdd,
        HelpKey::CueSaveChanges,
        HelpKey::ScopeTemplateLoad,
        HelpKey::ScopeTemplateSave,
        HelpKey::MonitorPickerCancel,
        HelpKey::MonitorPickerSave,
        HelpKey::GangEnableToggle,
        HelpKey::GangPause,
        HelpKey::GangNeedsEnable,
        HelpKey::GangRelative,
        HelpKey::GangAbsolute,
        HelpKey::GangPanOff,
        HelpKey::GangPanOn,
        HelpKey::GangPanReversed,
        HelpKey::GangEdit,
        HelpKey::ScopeModeScope,
        HelpKey::ScopeModePreWait,
        HelpKey::ScopeModeFade,
        HelpKey::ScopeClearAll,
        HelpKey::ScopeClearChanges,
        HelpKey::ScopeClearChangesDisabled,
        HelpKey::UiModeFull,
        HelpKey::UiModeLiveMusic,
        HelpKey::UiModeTheatre,
        HelpKey::ConnModeMode1,
        HelpKey::ConnModeMode2,
        HelpKey::ConnModeMode3,
        HelpKey::ConnModeDisabled,
        HelpKey::SetupNetwork,
        HelpKey::SetupCoverage,
        HelpKey::SetupNewShow,
        HelpKey::PaletteChannelType,
        HelpKey::PaletteChannelNumber,
        HelpKey::PaletteName,
        HelpKey::PaletteInclude,
        HelpKey::PaletteRename,
        HelpKey::MonitorRipple,
        HelpKey::MonitorRippleCancel,
        HelpKey::MonitorRippleConfirm,
        HelpKey::MonitorDeselectAll,
        HelpKey::MonitorSelectAll,
        HelpKey::RecoveryLoad,
        HelpKey::RecoveryLoadInvalid,
        HelpKey::RecoverySaveOriginal,
        HelpKey::RecoveryCancel,
        HelpKey::PanLinkClearSelection,
        HelpKey::RecallScopePrevChannel,
        HelpKey::RecallScopeNextChannel,
        HelpKey::SnapshotEditScope,
        HelpKey::SnapshotClearScope,
        HelpKey::CueNumber,
        HelpKey::CueName,
        HelpKey::CueConsoleRow,
        HelpKey::SnapshotScopeOverride,
        HelpKey::SnapshotScopeOverrideTemplate,
        HelpKey::SnapshotPicker,
        HelpKey::ShiftApply,
        HelpKey::ShiftClose,
        HelpKey::ShiftFromRow,
        HelpKey::ShiftDelta,
        HelpKey::ScopeTemplateCombo,
        HelpKey::GangChannelType,
        HelpKey::GangNewName,
        HelpKey::GangNewMembers,
        HelpKey::GangSave,
        HelpKey::GangCancelEdit,
        HelpKey::MacroNewName,
        HelpKey::MacroCreate,
        HelpKey::MacroRun,
        HelpKey::MacroLearnStopSave,
        HelpKey::MacroLearnDiscard,
        HelpKey::MacroRename,
        HelpKey::MacroTrackDirty,
        HelpKey::MacroAddStepKind,
        HelpKey::MacroAddStepCommit,
        HelpKey::MacroStepMode,
        HelpKey::MacroStepValue,
        HelpKey::MacroStepDelay,
        HelpKey::MacroWizardChannelType,
        HelpKey::MacroWizardChannelNumber,
        HelpKey::MacroWizardSection,
        HelpKey::MacroWizardParameter,
        HelpKey::MacroTargetMacro,
        HelpKey::MacroTargetSnapshot,
        HelpKey::MacroTargetPalette,
        HelpKey::MacroPaletteChannelType,
        HelpKey::MacroPaletteChannelNumber,
        HelpKey::StreamDeckDevice,
        HelpKey::StreamDeckButtonMacro,
        HelpKey::StreamDeckAddStep,
    ];
    assert(v@ =~= spec_all_keys());
    v
}

} // verus!
