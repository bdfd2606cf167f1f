//! The help catalog in id order, and its laws: every translator id is
//! non-empty, is not the reserved `_name` key and belongs to one key only;
//! every English text is non-empty.

use vstd::prelude::*;
use crate::help_catalog::{HelpKey, spec_help_english, spec_help_id};

verus! {

/// `a` sorts before `b`, first differing at position `i` (or `a` is a proper
/// prefix of `b` of length `i`), comparing characters by code point.
pub open spec fn lex_lt_at(a: Seq<char>, b: Seq<char>, i: int) -> bool {
    &&& 0 <= i <= a.len()
    &&& i <= b.len()
    &&& forall|k: int| 0 <= k < i ==> a[k] == b[k]
    &&& ((i == a.len() && i < b.len()) || (i < a.len() && i < b.len() && (a[i] as int) < (b[i] as int)))
}

/// `a` sorts strictly before `b` in code-point order.
pub open spec fn lex_lt(a: Seq<char>, b: Seq<char>) -> bool {
    exists|i: int| lex_lt_at(a, b, i)
}

proof fn lemma_lex_lt_ne(a: Seq<char>, b: Seq<char>)
    requires
        lex_lt(a, b),
    ensures
        a != b,
{
    let i = choose|i: int| lex_lt_at(a, b, i);
    if a == b {
        assert(i < a.len() ==> a[i] == b[i]);
    }
}

proof fn lemma_lex_lt_trans(a: Seq<char>, b: Seq<char>, c: Seq<char>)
    requires
        lex_lt(a, b),
        lex_lt(b, c),
    ensures
        lex_lt(a, c),
{
    let i = choose|i: int| lex_lt_at(a, b, i);
    let j = choose|j: int| lex_lt_at(b, c, j);
    if i < j {
        assert(lex_lt_at(a, c, i)) by {
            assert forall|k: int| 0 <= k < i implies a[k] == c[k] by {
                assert(a[k] == b[k]);
                assert(b[k] == c[k]);
            }
            if i < a.len() {
                assert(b[i] == c[i]);
            }
        }
    } else if j < i {
        assert(lex_lt_at(a, c, j)) by {
            assert forall|k: int| 0 <= k < j implies a[k] == c[k] by {
                assert(a[k] == b[k]);
                assert(b[k] == c[k]);
            }
            assert(a[j] == b[j]);
        }
    } else {
        assert(lex_lt_at(a, c, i)) by {
            assert forall|k: int| 0 <= k < i implies a[k] == c[k] by {
                assert(a[k] == b[k]);
                assert(b[k] == c[k]);
            }
        }
    }
}

/// Position of a key when the catalog is sorted by id.
pub open spec fn id_rank(key: HelpKey) -> u8 {
    match key {
        HelpKey::AdvancedDiagnostics => 0,
        HelpKey::AdvancedPacing => 1,
        HelpKey::AdvancedScale => 2,
        HelpKey::Dismiss => 3,
        HelpKey::OfflineToggle => 4,
        HelpKey::PickColor => 5,
        HelpKey::ConnModeDisabled => 6,
        HelpKey::ConnModeMode1 => 7,
        HelpKey::ConnModeMode2 => 8,
        HelpKey::ConnModeMode3 => 9,
        HelpKey::CueAdd => 10,
        HelpKey::CueConsoleRow => 11,
        HelpKey::CueGo => 12,
        HelpKey::CueListJump => 13,
        HelpKey::CueListOpen => 14,
        HelpKey::CueName => 15,
        HelpKey::CueNumber => 16,
        HelpKey::CuePrev => 17,
        HelpKey::CueSaveChanges => 18,
        HelpKey::CueSkip => 19,
        HelpKey::CueUndo => 20,
        HelpKey::GangAbsolute => 21,
        HelpKey::GangBalanceWidth => 22,
        HelpKey::GangCancelEdit => 23,
        HelpKey::GangCgMembership => 24,
        HelpKey::GangChannelType => 25,
        HelpKey::GangDelay => 26,
        HelpKey::GangDigitube => 27,
        HelpKey::GangDyn1 => 28,
        HelpKey::GangDyn2 => 29,
        HelpKey::GangEdit => 30,
        HelpKey::GangEnableToggle => 31,
        HelpKey::GangEq => 32,
        HelpKey::GangFaderMutePan => 33,
        HelpKey::GangGraphicEq => 34,
        HelpKey::GangGroupRouting => 35,
        HelpKey::GangInputGain => 36,
        HelpKey::GangInserts => 37,
        HelpKey::GangMatrixSends => 38,
        HelpKey::GangName => 39,
        HelpKey::GangNeedsEnable => 40,
        HelpKey::GangNewMembers => 41,
        HelpKey::GangNewName => 42,
        HelpKey::GangPanOff => 43,
        HelpKey::GangPanOn => 44,
        HelpKey::GangPanReversed => 45,
        HelpKey::GangPause => 46,
        HelpKey::GangPolarity => 47,
        HelpKey::GangRelative => 48,
        HelpKey::GangSave => 49,
        HelpKey::GangSends => 50,
        HelpKey::GangTrim => 51,
        HelpKey::InspectorFilter => 52,
        HelpKey::InspectorSortHeader => 53,
        HelpKey::InspectorTypeAll => 54,
        HelpKey::InspectorTypeFilter => 55,
        HelpKey::MacroAddStepCommit => 56,
        HelpKey::MacroAddStepKind => 57,
        HelpKey::MacroAddSwatch => 58,
        HelpKey::MacroClearSelection => 59,
        HelpKey::MacroCreate => 60,
        HelpKey::MacroDedupSelected => 61,
        HelpKey::MacroDeleteSelected => 62,
        HelpKey::MacroDeleteStep => 63,
        HelpKey::MacroKeepOnlyStep => 64,
        HelpKey::MacroLearnDiscard => 65,
        HelpKey::MacroLearnNeedsConn => 66,
        HelpKey::MacroLearnReady => 67,
        HelpKey::MacroLearnStopSave => 68,
        HelpKey::MacroMirrorInbound => 69,
        HelpKey::MacroNewName => 70,
        HelpKey::MacroPaletteChannelNumber => 71,
        HelpKey::MacroPaletteChannelType => 72,
        HelpKey::MacroQlabCueNumber => 73,
        HelpKey::MacroRename => 74,
        HelpKey::MacroResetStepDelay => 75,
        HelpKey::MacroRun => 76,
        HelpKey::MacroStepDelay => 77,
        HelpKey::MacroStepMode => 78,
        HelpKey::MacroStepSelectHint => 79,
        HelpKey::MacroStepValue => 80,
        HelpKey::MacroTargetMacro => 81,
        HelpKey::MacroTargetPalette => 82,
        HelpKey::MacroTargetSnapshot => 83,
        HelpKey::MacroTrackDirty => 84,
        HelpKey::MacroWizardChannelNumber => 85,
        HelpKey::MacroWizardChannelType => 86,
        HelpKey::MacroWizardParameter => 87,
        HelpKey::MacroWizardSection => 88,
        HelpKey::MacroZeroDelaySelected => 89,
        HelpKey::MonitorAddProfile => 90,
        HelpKey::MonitorDeselectAll => 91,
        HelpKey::MonitorEditProfile => 92,
        HelpKey::MonitorPickerCancel => 93,
        HelpKey::MonitorPickerSave => 94,
        HelpKey::MonitorProfilePin => 95,
        HelpKey::MonitorReorder => 96,
        HelpKey::MonitorReorderDone => 97,
        HelpKey::MonitorRipple => 98,
        HelpKey::MonitorRippleCancel => 99,
        HelpKey::MonitorRippleConfirm => 100,
        HelpKey::MonitorSelectAll => 101,
        HelpKey::OscLogClear => 102,
        HelpKey::OscLogFilter => 103,
        HelpKey::OscLogPause => 104,
        HelpKey::OscLogShowIn => 105,
        HelpKey::OscLogShowIpadFromConsole => 106,
        HelpKey::OscLogShowIpadToConsole => 107,
        HelpKey::OscLogShowOut => 108,
        HelpKey::PaletteCapture => 109,
        HelpKey::PaletteChannelNumber => 110,
        HelpKey::PaletteChannelType => 111,
        HelpKey::PaletteDelete => 112,
        HelpKey::PaletteInclude => 113,
        HelpKey::PaletteLinkedOther => 114,
        HelpKey::PaletteName => 115,
        HelpKey::PaletteRecapture => 116,
        HelpKey::PaletteRename => 117,
        HelpKey::PanLinkApply => 118,
        HelpKey::PanLinkClearSelection => 119,
        HelpKey::PanLinkRevert => 120,
        HelpKey::RecallScopeNextChannel => 121,
        HelpKey::RecallScopePrevChannel => 122,
        HelpKey::RecoveryCancel => 123,
        HelpKey::RecoveryLoad => 124,
        HelpKey::RecoveryLoadInvalid => 125,
        HelpKey::RecoverySaveOriginal => 126,
        HelpKey::ScopeClearAll => 127,
        HelpKey::ScopeClearChanges => 128,
        HelpKey::ScopeClearChangesDisabled => 129,
        HelpKey::ScopeConsoleConflict => 130,
        HelpKey::ScopeModeFade => 131,
        HelpKey::ScopeModePreWait => 132,
        HelpKey::ScopeModeScope => 133,
        HelpKey::ScopeNoLiveParam => 134,
        HelpKey::ScopeTemplateCombo => 135,
        HelpKey::ScopeTemplateLoad => 136,
        HelpKey::ScopeTemplateSave => 137,
        HelpKey::SetupAdvanced => 138,
        HelpKey::SetupConsoleIp => 139,
        HelpKey::SetupConsoleIpWarning => 140,
        HelpKey::SetupConsolePort => 141,
        HelpKey::SetupCoverage => 142,
        HelpKey::SetupIpadConsolePort => 143,
        HelpKey::SetupIpadIp => 144,
        HelpKey::SetupIpadListenPort => 145,
        HelpKey::SetupIpadLocalPort => 146,
        HelpKey::SetupIpadReplyPort => 147,
        HelpKey::SetupLocalPort => 148,
        HelpKey::SetupMonitorPort => 149,
        HelpKey::SetupNetwork => 150,
        HelpKey::SetupNewShow => 151,
        HelpKey::SetupOpenShow => 152,
        HelpKey::SetupQlabHost => 153,
        HelpKey::SetupQlabPort => 154,
        HelpKey::SetupSaveShow => 155,
        HelpKey::SetupSaveShowAs => 156,
        HelpKey::SetupTriggerPort => 157,
        HelpKey::ShiftApply => 158,
        HelpKey::ShiftClose => 159,
        HelpKey::ShiftDelta => 160,
        HelpKey::ShiftFromRow => 161,
        HelpKey::SnapshotApplyScope => 162,
        HelpKey::SnapshotAutoUpdate => 163,
        HelpKey::SnapshotBulkShift => 164,
        HelpKey::SnapshotCaptureNow => 165,
        HelpKey::SnapshotClearScope => 166,
        HelpKey::SnapshotConsoleFollowReq => 167,
        HelpKey::SnapshotEditScope => 168,
        HelpKey::SnapshotPicker => 169,
        HelpKey::SnapshotQlabCreateTrigger => 170,
        HelpKey::SnapshotQlabExportFull => 171,
        HelpKey::SnapshotReRecall => 172,
        HelpKey::SnapshotRecall => 173,
        HelpKey::SnapshotRecallNoScopeReq => 174,
        HelpKey::SnapshotRecapture => 175,
        HelpKey::SnapshotScopeOverride => 176,
        HelpKey::SnapshotScopeOverrideTemplate => 177,
        HelpKey::SnapshotUndo => 178,
        HelpKey::StreamDeckAddStep => 179,
        HelpKey::StreamDeckButtonMacro => 180,
        HelpKey::StreamDeckClose => 181,
        HelpKey::StreamDeckDevice => 182,
        HelpKey::StreamDeckDisable => 183,
        HelpKey::StreamDeckEnable => 184,
        HelpKey::StreamDeckOpenPanel => 185,
        HelpKey::TabGangs => 186,
        HelpKey::TabInspector => 187,
        HelpKey::TabMacros => 188,
        HelpKey::TabMonitor => 189,
        HelpKey::TabOscLog => 190,
        HelpKey::TabPanLink => 191,
        HelpKey::TabSetup => 192,
        HelpKey::TabSnapshots => 193,
        HelpKey::ThemeDark => 194,
        HelpKey::ThemeLight => 195,
        HelpKey::UiModeFull => 196,
        HelpKey::UiModeLiveMusic => 197,
        HelpKey::UiModeTheatre => 198,
        HelpKey::LongPressConfirm => 199,
    }
}

/// The key at a position of the catalog sorted by id.
pub open spec fn key_at_rank(r: u8) -> HelpKey {
    match r {
        0 => HelpKey::AdvancedDiagnostics,
        1 => HelpKey::AdvancedPacing,
        2 => HelpKey::AdvancedScale,
        3 => HelpKey::Dismiss,
        4 => HelpKey::OfflineToggle,
        5 => HelpKey::PickColor,
        6 => HelpKey::ConnModeDisabled,
        7 => HelpKey::ConnModeMode1,
        8 => HelpKey::ConnModeMode2,
        9 => HelpKey::ConnModeMode3,
        10 => HelpKey::CueAdd,
        11 => HelpKey::CueConsoleRow,
        12 => HelpKey::CueGo,
        13 => HelpKey::CueListJump,
        14 => HelpKey::CueListOpen,
        15 => HelpKey::CueName,
        16 => HelpKey::CueNumber,
        17 => HelpKey::CuePrev,
        18 => HelpKey::CueSaveChanges,
        19 => HelpKey::CueSkip,
        20 => HelpKey::CueUndo,
        21 => HelpKey::GangAbsolute,
        22 => HelpKey::GangBalanceWidth,
        23 => HelpKey::GangCancelEdit,
        24 => HelpKey::GangCgMembership,
        25 => HelpKey::GangChannelType,
        26 => HelpKey::GangDelay,
        27 => HelpKey::GangDigitube,
        28 => HelpKey::GangDyn1,
        29 => HelpKey::GangDyn2,
        30 => HelpKey::GangEdit,
        31 => HelpKey::GangEnableToggle,
        32 => HelpKey::GangEq,
        33 => HelpKey::GangFaderMutePan,
        34 => HelpKey::GangGraphicEq,
        35 => HelpKey::GangGroupRouting,
        36 => HelpKey::GangInputGain,
        37 => HelpKey::GangInserts,
        38 => HelpKey::GangMatrixSends,
        39 => HelpKey::GangName,
        40 => HelpKey::GangNeedsEnable,
        41 => HelpKey::GangNewMembers,
        42 => HelpKey::GangNewName,
        43 => HelpKey::GangPanOff,
        44 => HelpKey::GangPanOn,
        45 => HelpKey::GangPanReversed,
        46 => HelpKey::GangPause,
        47 => HelpKey::GangPolarity,
        48 => HelpKey::GangRelative,
        49 => HelpKey::GangSave,
        50 => HelpKey::GangSends,
        51 => HelpKey::GangTrim,
        52 => HelpKey::InspectorFilter,
        53 => HelpKey::InspectorSortHeader,
        54 => HelpKey::InspectorTypeAll,
        55 => HelpKey::InspectorTypeFilter,
        56 => HelpKey::MacroAddStepCommit,
        57 => HelpKey::MacroAddStepKind,
        58 => HelpKey::MacroAddSwatch,
        59 => HelpKey::MacroClearSelection,
        60 => HelpKey::MacroCreate,
        61 => HelpKey::MacroDedupSelected,
        62 => HelpKey::MacroDeleteSelected,
        63 => HelpKey::MacroDeleteStep,
        64 => HelpKey::MacroKeepOnlyStep,
        65 => HelpKey::MacroLearnDiscard,
        66 => HelpKey::MacroLearnNeedsConn,
        67 => HelpKey::MacroLearnReady,
        68 => HelpKey::MacroLearnStopSave,
        69 => HelpKey::MacroMirrorInbound,
        70 => HelpKey::MacroNewName,
        71 => HelpKey::MacroPaletteChannelNumber,
        72 => HelpKey::MacroPaletteChannelType,
        73 => HelpKey::MacroQlabCueNumber,
        74 => HelpKey::MacroRename,
        75 => HelpKey::MacroResetStepDelay,
        76 => HelpKey::MacroRun,
        77 => HelpKey::MacroStepDelay,
        78 => HelpKey::MacroStepMode,
        79 => HelpKey::MacroStepSelectHint,
        80 => HelpKey::MacroStepValue,
        81 => HelpKey::MacroTargetMacro,
        82 => HelpKey::MacroTargetPalette,
        83 => HelpKey::MacroTargetSnapshot,
        84 => HelpKey::MacroTrackDirty,
        85 => HelpKey::MacroWizardChannelNumber,
        86 => HelpKey::MacroWizardChannelType,
        87 => HelpKey::MacroWizardParameter,
        88 => HelpKey::MacroWizardSection,
        89 => HelpKey::MacroZeroDelaySelected,
        90 => HelpKey::MonitorAddProfile,
        91 => HelpKey::MonitorDeselectAll,
        92 => HelpKey::MonitorEditProfile,
        93 => HelpKey::MonitorPickerCancel,
        94 => HelpKey::MonitorPickerSave,
        95 => HelpKey::MonitorProfilePin,
        96 => HelpKey::MonitorReorder,
        97 => HelpKey::MonitorReorderDone,
        98 => HelpKey::MonitorRipple,
        99 => HelpKey::MonitorRippleCancel,
        100 => HelpKey::MonitorRippleConfirm,
        101 => HelpKey::MonitorSelectAll,
        102 => HelpKey::OscLogClear,
        103 => HelpKey::OscLogFilter,
        104 => HelpKey::OscLogPause,
        105 => HelpKey::OscLogShowIn,
        106 => HelpKey::OscLogShowIpadFromConsole,
        107 => HelpKey::OscLogShowIpadToConsole,
        108 => HelpKey::OscLogShowOut,
        109 => HelpKey::PaletteCapture,
        110 => HelpKey::PaletteChannelNumber,
        111 => HelpKey::PaletteChannelType,
        112 => HelpKey::PaletteDelete,
        113 => HelpKey::PaletteInclude,
        114 => HelpKey::PaletteLinkedOther,
        115 => HelpKey::PaletteName,
        116 => HelpKey::PaletteRecapture,
        117 => HelpKey::PaletteRename,
        118 => HelpKey::PanLinkApply,
        119 => HelpKey::PanLinkClearSelection,
        120 => HelpKey::PanLinkRevert,
        121 => HelpKey::RecallScopeNextChannel,
        122 => HelpKey::RecallScopePrevChannel,
        123 => HelpKey::RecoveryCancel,
        124 => HelpKey::RecoveryLoad,
        125 => HelpKey::RecoveryLoadInvalid,
        126 => HelpKey::RecoverySaveOriginal,
        127 => HelpKey::ScopeClearAll,
        128 => HelpKey::ScopeClearChanges,
        129 => HelpKey::ScopeClearChangesDisabled,
        130 => HelpKey::ScopeConsoleConflict,
        131 => HelpKey::ScopeModeFade,
        132 => HelpKey::ScopeModePreWait,
        133 => HelpKey::ScopeModeScope,
        134 => HelpKey::ScopeNoLiveParam,
        135 => HelpKey::ScopeTemplateCombo,
        136 => HelpKey::ScopeTemplateLoad,
        137 => HelpKey::ScopeTemplateSave,
        138 => HelpKey::SetupAdvanced,
        139 => HelpKey::SetupConsoleIp,
        140 => HelpKey::SetupConsoleIpWarning,
        141 => HelpKey::SetupConsolePort,
        142 => HelpKey::SetupCoverage,
        143 => HelpKey::SetupIpadConsolePort,
        144 => HelpKey::SetupIpadIp,
        145 => HelpKey::SetupIpadListenPort,
        146 => HelpKey::SetupIpadLocalPort,
        147 => HelpKey::SetupIpadReplyPort,
        148 => HelpKey::SetupLocalPort,
        149 => HelpKey::SetupMonitorPort,
        150 => HelpKey::SetupNetwork,
        151 => HelpKey::SetupNewShow,
        152 => HelpKey::SetupOpenShow,
        153 => HelpKey::SetupQlabHost,
        154 => HelpKey::SetupQlabPort,
        155 => HelpKey::SetupSaveShow,
        156 => HelpKey::SetupSaveShowAs,
        157 => HelpKey::SetupTriggerPort,
        158 => HelpKey::ShiftApply,
        159 => HelpKey::ShiftClose,
        160 => HelpKey::ShiftDelta,
        161 => HelpKey::ShiftFromRow,
        162 => HelpKey::SnapshotApplyScope,
        163 => HelpKey::SnapshotAutoUpdate,
        164 => HelpKey::SnapshotBulkShift,
        165 => HelpKey::SnapshotCaptureNow,
        166 => HelpKey::SnapshotClearScope,
        167 => HelpKey::SnapshotConsoleFollowReq,
        168 => HelpKey::SnapshotEditScope,
        169 => HelpKey::SnapshotPicker,
        170 => HelpKey::SnapshotQlabCreateTrigger,
        171 => HelpKey::SnapshotQlabExportFull,
        172 => HelpKey::SnapshotReRecall,
        173 => HelpKey::SnapshotRecall,
        174 => HelpKey::SnapshotRecallNoScopeReq,
        175 => HelpKey::SnapshotRecapture,
        176 => HelpKey::SnapshotScopeOverride,
        177 => HelpKey::SnapshotScopeOverrideTemplate,
        178 => HelpKey::SnapshotUndo,
        179 => HelpKey::StreamDeckAddStep,
        180 => HelpKey::StreamDeckButtonMacro,
        181 => HelpKey::StreamDeckClose,
        182 => HelpKey::StreamDeckDevice,
        183 => HelpKey::StreamDeckDisable,
        184 => HelpKey::StreamDeckEnable,
        185 => HelpKey::StreamDeckOpenPanel,
        186 => HelpKey::TabGangs,
        187 => HelpKey::TabInspector,
        188 => HelpKey::TabMacros,
        189 => HelpKey::TabMonitor,
        190 => HelpKey::TabOscLog,
        191 => HelpKey::TabPanLink,
        192 => HelpKey::TabSetup,
        193 => HelpKey::TabSnapshots,
        194 => HelpKey::ThemeDark,
        195 => HelpKey::ThemeLight,
        196 => HelpKey::UiModeFull,
        197 => HelpKey::UiModeLiveMusic,
        198 => HelpKey::UiModeTheatre,
        _ => HelpKey::LongPressConfirm,
    }
}

/// The key at a position of the catalog sorted by id.
pub fn key_by_id_rank(r: u8) -> (key: HelpKey)
    requires
        r < 200,
    ensures
        key == key_at_rank(r),
{
    match r {
        0 => HelpKey::AdvancedDiagnostics,
        1 => HelpKey::AdvancedPacing,
        2 => HelpKey::AdvancedScale,
        3 => HelpKey::Dismiss,
        4 => HelpKey::OfflineToggle,
        5 => HelpKey::PickColor,
        6 => HelpKey::ConnModeDisabled,
        7 => HelpKey::ConnModeMode1,
        8 => HelpKey::ConnModeMode2,
        9 => HelpKey::ConnModeMode3,
        10 => HelpKey::CueAdd,
        11 => HelpKey::CueConsoleRow,
        12 => HelpKey::CueGo,
        13 => HelpKey::CueListJump,
        14 => HelpKey::CueListOpen,
        15 => HelpKey::CueName,
        16 => HelpKey::CueNumber,
        17 => HelpKey::CuePrev,
        18 => HelpKey::CueSaveChanges,
        19 => HelpKey::CueSkip,
        20 => HelpKey::CueUndo,
        21 => HelpKey::GangAbsolute,
        22 => HelpKey::GangBalanceWidth,
        23 => HelpKey::GangCancelEdit,
        24 => HelpKey::GangCgMembership,
        25 => HelpKey::GangChannelType,
        26 => HelpKey::GangDelay,
        27 => HelpKey::GangDigitube,
        28 => HelpKey::GangDyn1,
        29 => HelpKey::GangDyn2,
        30 => HelpKey::GangEdit,
        31 => HelpKey::GangEnableToggle,
        32 => HelpKey::GangEq,
        33 => HelpKey::GangFaderMutePan,
        34 => HelpKey::GangGraphicEq,
        35 => HelpKey::GangGroupRouting,
        36 => HelpKey::GangInputGain,
        37 => HelpKey::GangInserts,
        38 => HelpKey::GangMatrixSends,
        39 => HelpKey::GangName,
        40 => HelpKey::GangNeedsEnable,
        41 => HelpKey::GangNewMembers,
        42 => HelpKey::GangNewName,
        43 => HelpKey::GangPanOff,
        44 => HelpKey::GangPanOn,
        45 => HelpKey::GangPanReversed,
        46 => HelpKey::GangPause,
        47 => HelpKey::GangPolarity,
        48 => HelpKey::GangRelative,
        49 => HelpKey::GangSave,
        50 => HelpKey::GangSends,
        51 => HelpKey::GangTrim,
        52 => HelpKey::InspectorFilter,
        53 => HelpKey::InspectorSortHeader,
        54 => HelpKey::InspectorTypeAll,
        55 => HelpKey::InspectorTypeFilter,
        56 => HelpKey::MacroAddStepCommit,
        57 => HelpKey::MacroAddStepKind,
        58 => HelpKey::MacroAddSwatch,
        59 => HelpKey::MacroClearSelection,
        60 => HelpKey::MacroCreate,
        61 => HelpKey::MacroDedupSelected,
        62 => HelpKey::MacroDeleteSelected,
        63 => HelpKey::MacroDeleteStep,
        64 => HelpKey::MacroKeepOnlyStep,
        65 => HelpKey::MacroLearnDiscard,
        66 => HelpKey::MacroLearnNeedsConn,
        67 => HelpKey::MacroLearnReady,
        68 => HelpKey::MacroLearnStopSave,
        69 => HelpKey::MacroMirrorInbound,
        70 => HelpKey::MacroNewName,
        71 => HelpKey::MacroPaletteChannelNumber,
        72 => HelpKey::MacroPaletteChannelType,
        73 => HelpKey::MacroQlabCueNumber,
        74 => HelpKey::MacroRename,
        75 => HelpKey::MacroResetStepDelay,
        76 => HelpKey::MacroRun,
        77 => HelpKey::MacroStepDelay,
        78 => HelpKey::MacroStepMode,
        79 => HelpKey::MacroStepSelectHint,
        80 => HelpKey::MacroStepValue,
        81 => HelpKey::MacroTargetMacro,
        82 => HelpKey::MacroTargetPalette,
        83 => HelpKey::MacroTargetSnapshot,
        84 => HelpKey::MacroTrackDirty,
        85 => HelpKey::MacroWizardChannelNumber,
        86 => HelpKey::MacroWizardChannelType,
        87 => HelpKey::MacroWizardParameter,
        88 => HelpKey::MacroWizardSection,
        89 => HelpKey::MacroZeroDelaySelected,
        90 => HelpKey::MonitorAddProfile,
        91 => HelpKey::MonitorDeselectAll,
        92 => HelpKey::MonitorEditProfile,
        93 => HelpKey::MonitorPickerCancel,
        94 => HelpKey::MonitorPickerSave,
        95 => HelpKey::MonitorProfilePin,
        96 => HelpKey::MonitorReorder,
        97 => HelpKey::MonitorReorderDone,
        98 => HelpKey::MonitorRipple,
        99 => HelpKey::MonitorRippleCancel,
        100 => HelpKey::MonitorRippleConfirm,
        101 => HelpKey::MonitorSelectAll,
        102 => HelpKey::OscLogClear,
        103 => HelpKey::OscLogFilter,
        104 => HelpKey::OscLogPause,
        105 => HelpKey::OscLogShowIn,
        106 => HelpKey::OscLogShowIpadFromConsole,
        107 => HelpKey::OscLogShowIpadToConsole,
        108 => HelpKey::OscLogShowOut,
        109 => HelpKey::PaletteCapture,
        110 => HelpKey::PaletteChannelNumber,
        111 => HelpKey::PaletteChannelType,
        112 => HelpKey::PaletteDelete,
        113 => HelpKey::PaletteInclude,
        114 => HelpKey::PaletteLinkedOther,
        115 => HelpKey::PaletteName,
        116 => HelpKey::PaletteRecapture,
        117 => HelpKey::PaletteRename,
        118 => HelpKey::PanLinkApply,
        119 => HelpKey::PanLinkClearSelection,
        120 => HelpKey::PanLinkRevert,
        121 => HelpKey::RecallScopeNextChannel,
        122 => HelpKey::RecallScopePrevChannel,
        123 => HelpKey::RecoveryCancel,
        124 => HelpKey::RecoveryLoad,
        125 => HelpKey::RecoveryLoadInvalid,
        126 => HelpKey::RecoverySaveOriginal,
        127 => HelpKey::ScopeClearAll,
        128 => HelpKey::ScopeClearChanges,
        129 => HelpKey::ScopeClearChangesDisabled,
        130 => HelpKey::ScopeConsoleConflict,
        131 => HelpKey::ScopeModeFade,
        132 => HelpKey::ScopeModePreWait,
        133 => HelpKey::ScopeModeScope,
        134 => HelpKey::ScopeNoLiveParam,
        135 => HelpKey::ScopeTemplateCombo,
        136 => HelpKey::ScopeTemplateLoad,
        137 => HelpKey::ScopeTemplateSave,
        138 => HelpKey::SetupAdvanced,
        139 => HelpKey::SetupConsoleIp,
        140 => HelpKey::SetupConsoleIpWarning,
        141 => HelpKey::SetupConsolePort,
        142 => HelpKey::SetupCoverage,
        143 => HelpKey::SetupIpadConsolePort,
        144 => HelpKey::SetupIpadIp,
        145 => HelpKey::SetupIpadListenPort,
        146 => HelpKey::SetupIpadLocalPort,
        147 => HelpKey::SetupIpadReplyPort,
        148 => HelpKey::SetupLocalPort,
        149 => HelpKey::SetupMonitorPort,
        150 => HelpKey::SetupNetwork,
        151 => HelpKey::SetupNewShow,
        152 => HelpKey::SetupOpenShow,
        153 => HelpKey::SetupQlabHost,
        154 => HelpKey::SetupQlabPort,
        155 => HelpKey::SetupSaveShow,
        156 => HelpKey::SetupSaveShowAs,
        157 => HelpKey::SetupTriggerPort,
        158 => HelpKey::ShiftApply,
        159 => HelpKey::ShiftClose,
        160 => HelpKey::ShiftDelta,
        161 => HelpKey::ShiftFromRow,
        162 => HelpKey::SnapshotApplyScope,
        163 => HelpKey::SnapshotAutoUpdate,
        164 => HelpKey::SnapshotBulkShift,
        165 => HelpKey::SnapshotCaptureNow,
        166 => HelpKey::SnapshotClearScope,
        167 => HelpKey::SnapshotConsoleFollowReq,
        168 => HelpKey::SnapshotEditScope,
        169 => HelpKey::SnapshotPicker,
        170 => HelpKey::SnapshotQlabCreateTrigger,
        171 => HelpKey::SnapshotQlabExportFull,
        172 => HelpKey::SnapshotReRecall,
        173 => HelpKey::SnapshotRecall,
        174 => HelpKey::SnapshotRecallNoScopeReq,
        175 => HelpKey::SnapshotRecapture,
        176 => HelpKey::SnapshotScopeOverride,
        177 => HelpKey::SnapshotScopeOverrideTemplate,
        178 => HelpKey::SnapshotUndo,
        179 => HelpKey::StreamDeckAddStep,
        180 => HelpKey::StreamDeckButtonMacro,
        181 => HelpKey::StreamDeckClose,
        182 => HelpKey::StreamDeckDevice,
        183 => HelpKey::StreamDeckDisable,
        184 => HelpKey::StreamDeckEnable,
        185 => HelpKey::StreamDeckOpenPanel,
        186 => HelpKey::TabGangs,
        187 => HelpKey::TabInspector,
        188 => HelpKey::TabMacros,
        189 => HelpKey::TabMonitor,
        190 => HelpKey::TabOscLog,
        191 => HelpKey::TabPanLink,
        192 => HelpKey::TabSetup,
        193 => HelpKey::TabSnapshots,
        194 => HelpKey::ThemeDark,
        195 => HelpKey::ThemeLight,
        196 => HelpKey::UiModeFull,
        197 => HelpKey::UiModeLiveMusic,
        198 => HelpKey::UiModeTheatre,
        _ => HelpKey::LongPressConfirm,
    }
}

pub proof fn lemma_rank_inverse(key: HelpKey)
    ensures
        id_rank(key) < 200,
        key_at_rank(id_rank(key)) == key,
{
}

proof fn lemma_sorted_ids_0(r: u8)
    requires
        0 <= r <= 19,
    ensures
        lex_lt(spec_help_id(key_at_rank(r)), spec_help_id(key_at_rank((r + 1) as u8))),
{
    match r {
        0 => {
            reveal_strlit("advanced.diagnostics");
            reveal_strlit("advanced.pacing");
            assert(lex_lt_at(spec_help_id(HelpKey::AdvancedDiagnostics), spec_help_id(HelpKey::AdvancedPacing), 9));
        },
        1 => {
            reveal_strlit("advanced.pacing");
            reveal_strlit("advanced.scale");
            assert(lex_lt_at(spec_help_id(HelpKey::AdvancedPacing), spec_help_id(HelpKey::AdvancedScale), 9));
        },
        2 => {
            reveal_strlit("advanced.scale");
            reveal_strlit("app.dismiss");
            assert(lex_lt_at(spec_help_id(HelpKey::AdvancedScale), spec_help_id(HelpKey::Dismiss), 1));
        },
        3 => {
            reveal_strlit("app.dismiss");
            reveal_strlit("app.offline_toggle");
            assert(lex_lt_at(spec_help_id(HelpKey::Dismiss), spec_help_id(HelpKey::OfflineToggle), 4));
        },
        4 => {
            reveal_strlit("app.offline_toggle");
            reveal_strlit("color.pick");
            assert(lex_lt_at(spec_help_id(HelpKey::OfflineToggle), spec_help_id(HelpKey::PickColor), 0));
        },
        5 => {
            reveal_strlit("color.pick");
            reveal_strlit("conn_mode.disabled");
            assert(lex_lt_at(spec_help_id(HelpKey::PickColor), spec_help_id(HelpKey::ConnModeDisabled), 2));
        },
        6 => {
            reveal_strlit("conn_mode.disabled");
            reveal_strlit("conn_mode.mode1");
            assert(lex_lt_at(spec_help_id(HelpKey::ConnModeDisabled), spec_help_id(HelpKey::ConnModeMode1), 10));
        },
        7 => {
            reveal_strlit("conn_mode.mode1");
            reveal_strlit("conn_mode.mode2");
            assert(lex_lt_at(spec_help_id(HelpKey::ConnModeMode1), spec_help_id(HelpKey::ConnModeMode2), 14));
        },
        8 => {
            reveal_strlit("conn_mode.mode2");
            reveal_strlit("conn_mode.mode3");
            assert(lex_lt_at(spec_help_id(HelpKey::ConnModeMode2), spec_help_id(HelpKey::ConnModeMode3), 14));
        },
        9 => {
            reveal_strlit("conn_mode.mode3");
            reveal_strlit("cue.add");
            assert(lex_lt_at(spec_help_id(HelpKey::ConnModeMode3), spec_help_id(HelpKey::CueAdd), 1));
        },
        10 => {
            reveal_strlit("cue.add");
            reveal_strlit("cue.console_row");
            assert(lex_lt_at(spec_help_id(HelpKey::CueAdd), spec_help_id(HelpKey::CueConsoleRow), 4));
        },
        11 => {
            reveal_strlit("cue.console_row");
            reveal_strlit("cue.go");
            assert(lex_lt_at(spec_help_id(HelpKey::CueConsoleRow), spec_help_id(HelpKey::CueGo), 4));
        },
        12 => {
            reveal_strlit("cue.go");
            reveal_strlit("cue.list_jump");
            assert(lex_lt_at(spec_help_id(HelpKey::CueGo), spec_help_id(HelpKey::CueListJump), 4));
        },
        13 => {
            reveal_strlit("cue.list_jump");
            reveal_strlit("cue.list_open");
            assert(lex_lt_at(spec_help_id(HelpKey::CueListJump), spec_help_id(HelpKey::CueListOpen), 9));
        },
        14 => {
            reveal_strlit("cue.list_open");
            reveal_strlit("cue.name");
            assert(lex_lt_at(spec_help_id(HelpKey::CueListOpen), spec_help_id(HelpKey::CueName), 4));
        },
        15 => {
            reveal_strlit("cue.name");
            reveal_strlit("cue.number");
            assert(lex_lt_at(spec_help_id(HelpKey::CueName), spec_help_id(HelpKey::CueNumber), 5));
        },
        16 => {
            reveal_strlit("cue.number");
            reveal_strlit("cue.prev");
            assert(lex_lt_at(spec_help_id(HelpKey::CueNumber), spec_help_id(HelpKey::CuePrev), 4));
        },
        17 => {
            reveal_strlit("cue.prev");
            reveal_strlit("cue.save_changes");
            assert(lex_lt_at(spec_help_id(HelpKey::CuePrev), spec_help_id(HelpKey::CueSaveChanges), 4));
        },
        18 => {
            reveal_strlit("cue.save_changes");
            reveal_strlit("cue.skip");
            assert(lex_lt_at(spec_help_id(HelpKey::CueSaveChanges), spec_help_id(HelpKey::CueSkip), 5));
        },
        19 => {
            reveal_strlit("cue.skip");
            reveal_strlit("cue.undo");
            assert(lex_lt_at(spec_help_id(HelpKey::CueSkip), spec_help_id(HelpKey::CueUndo), 4));
        },
        _ => {},
    }
}

proof fn lemma_sorted_ids_1(r: u8)
    requires
        20 <= r <= 39,
    ensures
        lex_lt(spec_help_id(key_at_rank(r)), spec_help_id(key_at_rank((r + 1) as u8))),
{
    match r {
        20 => {
            reveal_strlit("cue.undo");
            reveal_strlit("gang.absolute");
            assert(lex_lt_at(spec_help_id(HelpKey::CueUndo), spec_help_id(HelpKey::GangAbsolute), 0));
        },
        21 => {
            reveal_strlit("gang.absolute");
            reveal_strlit("gang.balance_width");
            assert(lex_lt_at(spec_help_id(HelpKey::GangAbsolute), spec_help_id(HelpKey::GangBalanceWidth), 5));
        },
        22 => {
            reveal_strlit("gang.balance_width");
            reveal_strlit("gang.cancel_edit");
            assert(lex_lt_at(spec_help_id(HelpKey::GangBalanceWidth), spec_help_id(HelpKey::GangCancelEdit), 5));
        },
        23 => {
            reveal_strlit("gang.cancel_edit");
            reveal_strlit("gang.cg_membership");
            assert(lex_lt_at(spec_help_id(HelpKey::GangCancelEdit), spec_help_id(HelpKey::GangCgMembership), 6));
        },
        24 => {
            reveal_strlit("gang.cg_membership");
            reveal_strlit("gang.channel_type");
            assert(lex_lt_at(spec_help_id(HelpKey::GangCgMembership), spec_help_id(HelpKey::GangChannelType), 6));
        },
        25 => {
            reveal_strlit("gang.channel_type");
            reveal_strlit("gang.delay");
            assert(lex_lt_at(spec_help_id(HelpKey::GangChannelType), spec_help_id(HelpKey::GangDelay), 5));
        },
        26 => {
            reveal_strlit("gang.delay");
            reveal_strlit("gang.digitube");
            assert(lex_lt_at(spec_help_id(HelpKey::GangDelay), spec_help_id(HelpKey::GangDigitube), 6));
        },
        27 => {
            reveal_strlit("gang.digitube");
            reveal_strlit("gang.dyn1");
            assert(lex_lt_at(spec_help_id(HelpKey::GangDigitube), spec_help_id(HelpKey::GangDyn1), 6));
        },
        28 => {
            reveal_strlit("gang.dyn1");
            reveal_strlit("gang.dyn2");
            assert(lex_lt_at(spec_help_id(HelpKey::GangDyn1), spec_help_id(HelpKey::GangDyn2), 8));
        },
        29 => {
            reveal_strlit("gang.dyn2");
            reveal_strlit("gang.edit");
            assert(lex_lt_at(spec_help_id(HelpKey::GangDyn2), spec_help_id(HelpKey::GangEdit), 5));
        },
        30 => {
            reveal_strlit("gang.edit");
            reveal_strlit("gang.enable_toggle");
            assert(lex_lt_at(spec_help_id(HelpKey::GangEdit), spec_help_id(HelpKey::GangEnableToggle), 6));
        },
        31 => {
            reveal_strlit("gang.enable_toggle");
            reveal_strlit("gang.eq");
            assert(lex_lt_at(spec_help_id(HelpKey::GangEnableToggle), spec_help_id(HelpKey::GangEq), 6));
        },
        32 => {
            reveal_strlit("gang.eq");
            reveal_strlit("gang.fader_mute_pan");
            assert(lex_lt_at(spec_help_id(HelpKey::GangEq), spec_help_id(HelpKey::GangFaderMutePan), 5));
        },
        33 => {
            reveal_strlit("gang.fader_mute_pan");
            reveal_strlit("gang.graphic_eq");
            assert(lex_lt_at(spec_help_id(HelpKey::GangFaderMutePan), spec_help_id(HelpKey::GangGraphicEq), 5));
        },
        34 => {
            reveal_strlit("gang.graphic_eq");
            reveal_strlit("gang.group_routing");
            assert(lex_lt_at(spec_help_id(HelpKey::GangGraphicEq), spec_help_id(HelpKey::GangGroupRouting), 7));
        },
        35 => {
            reveal_strlit("gang.group_routing");
            reveal_strlit("gang.input_gain");
            assert(lex_lt_at(spec_help_id(HelpKey::GangGroupRouting), spec_help_id(HelpKey::GangInputGain), 5));
        },
        36 => {
            reveal_strlit("gang.input_gain");
            reveal_strlit("gang.inserts");
            assert(lex_lt_at(spec_help_id(HelpKey::GangInputGain), spec_help_id(HelpKey::GangInserts), 7));
        },
        37 => {
            reveal_strlit("gang.inserts");
            reveal_strlit("gang.matrix_sends");
            assert(lex_lt_at(spec_help_id(HelpKey::GangInserts), spec_help_id(HelpKey::GangMatrixSends), 5));
        },
        38 => {
            reveal_strlit("gang.matrix_sends");
            reveal_strlit("gang.name");
            assert(lex_lt_at(spec_help_id(HelpKey::GangMatrixSends), spec_help_id(HelpKey::GangName), 5));
        },
        39 => {
            reveal_strlit("gang.name");
            reveal_strlit("gang.needs_enable");
            assert(lex_lt_at(spec_help_id(HelpKey::GangName), spec_help_id(HelpKey::GangNeedsEnable), 6));
        },
        _ => {},
    }
}

proof fn lemma_sorted_ids_2(r: u8)
    requires
        40 <= r <= 59,
    ensures
        lex_lt(spec_help_id(key_at_rank(r)), spec_help_id(key_at_rank((r + 1) as u8))),
{
    match r {
        40 => {
            reveal_strlit("gang.needs_enable");
            reveal_strlit("gang.new_members");
            assert(lex_lt_at(spec_help_id(HelpKey::GangNeedsEnable), spec_help_id(HelpKey::GangNewMembers), 7));
        },
        41 => {
            reveal_strlit("gang.new_members");
            reveal_strlit("gang.new_name");
            assert(lex_lt_at(spec_help_id(HelpKey::GangNewMembers), spec_help_id(HelpKey::GangNewName), 9));
        },
        42 => {
            reveal_strlit("gang.new_name");
            reveal_strlit("gang.pan_off");
            assert(lex_lt_at(spec_help_id(HelpKey::GangNewName), spec_help_id(HelpKey::GangPanOff), 5));
        },
        43 => {
            reveal_strlit("gang.pan_off");
            reveal_strlit("gang.pan_on");
            assert(lex_lt_at(spec_help_id(HelpKey::GangPanOff), spec_help_id(HelpKey::GangPanOn), 10));
        },
        44 => {
            reveal_strlit("gang.pan_on");
            reveal_strlit("gang.pan_reversed");
            assert(lex_lt_at(spec_help_id(HelpKey::GangPanOn), spec_help_id(HelpKey::GangPanReversed), 9));
        },
        45 => {
            reveal_strlit("gang.pan_reversed");
            reveal_strlit("gang.pause");
            assert(lex_lt_at(spec_help_id(HelpKey::GangPanReversed), spec_help_id(HelpKey::GangPause), 7));
        },
        46 => {
            reveal_strlit("gang.pause");
            reveal_strlit("gang.polarity");
            assert(lex_lt_at(spec_help_id(HelpKey::GangPause), spec_help_id(HelpKey::GangPolarity), 6));
        },
        47 => {
            reveal_strlit("gang.polarity");
            reveal_strlit("gang.relative");
            assert(lex_lt_at(spec_help_id(HelpKey::GangPolarity), spec_help_id(HelpKey::GangRelative), 5));
        },
        48 => {
            reveal_strlit("gang.relative");
            reveal_strlit("gang.save");
            assert(lex_lt_at(spec_help_id(HelpKey::GangRelative), spec_help_id(HelpKey::GangSave), 5));
        },
        49 => {
            reveal_strlit("gang.save");
            reveal_strlit("gang.sends");
            assert(lex_lt_at(spec_help_id(HelpKey::GangSave), spec_help_id(HelpKey::GangSends), 6));
        },
        50 => {
            reveal_strlit("gang.sends");
            reveal_strlit("gang.trim");
            assert(lex_lt_at(spec_help_id(HelpKey::GangSends), spec_help_id(HelpKey::GangTrim), 5));
        },
        51 => {
            reveal_strlit("gang.trim");
            reveal_strlit("inspector.filter");
            assert(lex_lt_at(spec_help_id(HelpKey::GangTrim), spec_help_id(HelpKey::InspectorFilter), 0));
        },
        52 => {
            reveal_strlit("inspector.filter");
            reveal_strlit("inspector.sort_header");
            assert(lex_lt_at(spec_help_id(HelpKey::InspectorFilter), spec_help_id(HelpKey::InspectorSortHeader), 10));
        },
        53 => {
            reveal_strlit("inspector.sort_header");
            reveal_strlit("inspector.type_all");
            assert(lex_lt_at(spec_help_id(HelpKey::InspectorSortHeader), spec_help_id(HelpKey::InspectorTypeAll), 10));
        },
        54 => {
            reveal_strlit("inspector.type_all");
            reveal_strlit("inspector.type_filter");
            assert(lex_lt_at(spec_help_id(HelpKey::InspectorTypeAll), spec_help_id(HelpKey::InspectorTypeFilter), 15));
        },
        55 => {
            reveal_strlit("inspector.type_filter");
            reveal_strlit("macro.add_step_commit");
            assert(lex_lt_at(spec_help_id(HelpKey::InspectorTypeFilter), spec_help_id(HelpKey::MacroAddStepCommit), 0));
        },
        56 => {
            reveal_strlit("macro.add_step_commit");
            reveal_strlit("macro.add_step_kind");
            assert(lex_lt_at(spec_help_id(HelpKey::MacroAddStepCommit), spec_help_id(HelpKey::MacroAddStepKind), 15));
        },
        57 => {
            reveal_strlit("macro.add_step_kind");
            reveal_strlit("macro.add_swatch");
            assert(lex_lt_at(spec_help_id(HelpKey::MacroAddStepKind), spec_help_id(HelpKey::MacroAddSwatch), 11));
        },
        58 => {
            reveal_strlit("macro.add_swatch");
            reveal_strlit("macro.clear_selection");
            assert(lex_lt_at(spec_help_id(HelpKey::MacroAddSwatch), spec_help_id(HelpKey::MacroClearSelection), 6));
        },
        59 => {
            reveal_strlit("macro.clear_selection");
            reveal_strlit("macro.create");
            assert(lex_lt_at(spec_help_id(HelpKey::MacroClearSelection), spec_help_id(HelpKey::MacroCreate), 7));
        },
        _ => {},
    }
}

proof fn lemma_sorted_ids_3(r: u8)
    requires
        60 <= r <= 79,
    ensures
        lex_lt(spec_help_id(key_at_rank(r)), spec_help_id(key_at_rank((r + 1) as u8))),
{
    match r {
        60 => {
            reveal_strlit("macro.create");
            reveal_strlit("macro.dedup_selected");
            assert(lex_lt_at(spec_help_id(HelpKey::MacroCreate), spec_help_id(HelpKey::MacroDedupSelected), 6));
        },
        61 => {
            reveal_strlit("macro.dedup_selected");
            reveal_strlit("macro.delete_selected");
            assert(lex_lt_at(spec_help_id(HelpKey::MacroDedupSelected), spec_help_id(HelpKey::MacroDeleteSelected), 8));
        },
        62 => {
            reveal_strlit("macro.delete_selected");
            reveal_strlit("macro.delete_step");
            assert(lex_lt_at(spec_help_id(HelpKey::MacroDeleteSelected), spec_help_id(HelpKey::MacroDeleteStep), 14));
        },
        63 => {
            reveal_strlit("macro.delete_step");
            reveal_strlit("macro.keep_only_step");
            assert(lex_lt_at(spec_help_id(HelpKey::MacroDeleteStep), spec_help_id(HelpKey::MacroKeepOnlyStep), 6));
        },
        64 => {
            reveal_strlit("macro.keep_only_step");
            reveal_strlit("macro.learn_discard");
            assert(lex_lt_at(spec_help_id(HelpKey::MacroKeepOnlyStep), spec_help_id(HelpKey::MacroLearnDiscard), 6));
        },
        65 => {
            reveal_strlit("macro.learn_discard");
            reveal_strlit("macro.learn_needs_conn");
            assert(lex_lt_at(spec_help_id(HelpKey::MacroLearnDiscard), spec_help_id(HelpKey::MacroLearnNeedsConn), 12));
        },
        66 => {
            reveal_strlit("macro.learn_needs_conn");
            reveal_strlit("macro.learn_ready");
            assert(lex_lt_at(spec_help_id(HelpKey::MacroLearnNeedsConn), spec_help_id(HelpKey::MacroLearnReady), 12));
        },
        67 => {
            reveal_strlit("macro.learn_ready");
            reveal_strlit("macro.learn_stop_save");
            assert(lex_lt_at(spec_help_id(HelpKey::MacroLearnReady), spec_help_id(HelpKey::MacroLearnStopSave), 12));
        },
        68 => {
            reveal_strlit("macro.learn_stop_save");
            reveal_strlit("macro.mirror_inbound");
            assert(lex_lt_at(spec_help_id(HelpKey::MacroLearnStopSave), spec_help_id(HelpKey::MacroMirrorInbound), 6));
        },
        69 => {
            reveal_strlit("macro.mirror_inbound");
            reveal_strlit("macro.new_name");
            assert(lex_lt_at(spec_help_id(HelpKey::MacroMirrorInbound), spec_help_id(HelpKey::MacroNewName), 6));
        },
        70 => {
            reveal_strlit("macro.new_name");
            reveal_strlit("macro.palette_channel_number");
            assert(lex_lt_at(spec_help_id(HelpKey::MacroNewName), spec_help_id(HelpKey::MacroPaletteChannelNumber), 6));
        },
        71 => {
            reveal_strlit("macro.palette_channel_number");
            reveal_strlit("macro.palette_channel_type");
            assert(lex_lt_at(spec_help_id(HelpKey::MacroPaletteChannelNumber), spec_help_id(HelpKey::MacroPaletteChannelType), 22));
        },
        72 => {
            reveal_strlit("macro.palette_channel_type");
            reveal_strlit("macro.qlab_cue_number");
            assert(lex_lt_at(spec_help_id(HelpKey::MacroPaletteChannelType), spec_help_id(HelpKey::MacroQlabCueNumber), 6));
        },
        73 => {
            reveal_strlit("macro.qlab_cue_number");
            reveal_strlit("macro.rename");
            assert(lex_lt_at(spec_help_id(HelpKey::MacroQlabCueNumber), spec_help_id(HelpKey::MacroRename), 6));
        },
        74 => {
            reveal_strlit("macro.rename");
            reveal_strlit("macro.reset_step_delay");
            assert(lex_lt_at(spec_help_id(HelpKey::MacroRename), spec_help_id(HelpKey::MacroResetStepDelay), 8));
        },
        75 => {
            reveal_strlit("macro.reset_step_delay");
            reveal_strlit("macro.run");
            assert(lex_lt_at(spec_help_id(HelpKey::MacroResetStepDelay), spec_help_id(HelpKey::MacroRun), 7));
        },
        76 => {
            reveal_strlit("macro.run");
            reveal_strlit("macro.step_delay");
            assert(lex_lt_at(spec_help_id(HelpKey::MacroRun), spec_help_id(HelpKey::MacroStepDelay), 6));
        },
        77 => {
            reveal_strlit("macro.step_delay");
            reveal_strlit("macro.step_mode");
            assert(lex_lt_at(spec_help_id(HelpKey::MacroStepDelay), spec_help_id(HelpKey::MacroStepMode), 11));
        },
        78 => {
            reveal_strlit("macro.step_mode");
            reveal_strlit("macro.step_select_hint");
            assert(lex_lt_at(spec_help_id(HelpKey::MacroStepMode), spec_help_id(HelpKey::MacroStepSelectHint), 11));
        },
        79 => {
            reveal_strlit("macro.step_select_hint");
            reveal_strlit("macro.step_value");
            assert(lex_lt_at(spec_help_id(HelpKey::MacroStepSelectHint), spec_help_id(HelpKey::MacroStepValue), 11));
        },
        _ => {},
    }
}

proof fn lemma_sorted_ids_4(r: u8)
    requires
        80 <= r <= 99,
    ensures
        lex_lt(spec_help_id(key_at_rank(r)), spec_help_id(key_at_rank((r + 1) as u8))),
{
    match r {
        80 => {
            reveal_strlit("macro.step_value");
            reveal_strlit("macro.target_macro");
            assert(lex_lt_at(spec_help_id(HelpKey::MacroStepValue), spec_help_id(HelpKey::MacroTargetMacro), 6));
        },
        81 => {
            reveal_strlit("macro.target_macro");
            reveal_strlit("macro.target_palette");
            assert(lex_lt_at(spec_help_id(HelpKey::MacroTargetMacro), spec_help_id(HelpKey::MacroTargetPalette), 13));
        },
        82 => {
            reveal_strlit("macro.target_palette");
            reveal_strlit("macro.target_snapshot");
            assert(lex_lt_at(spec_help_id(HelpKey::MacroTargetPalette), spec_help_id(HelpKey::MacroTargetSnapshot), 13));
        },
        83 => {
            reveal_strlit("macro.target_snapshot");
            reveal_strlit("macro.track_dirty");
            assert(lex_lt_at(spec_help_id(HelpKey::MacroTargetSnapshot), spec_help_id(HelpKey::MacroTrackDirty), 7));
        },
        84 => {
            reveal_strlit("macro.track_dirty");
            reveal_strlit("macro.wizard_channel_number");
            assert(lex_lt_at(spec_help_id(HelpKey::MacroTrackDirty), spec_help_id(HelpKey::MacroWizardChannelNumber), 6));
        },
        85 => {
            reveal_strlit("macro.wizard_channel_number");
            reveal_strlit("macro.wizard_channel_type");
            assert(lex_lt_at(spec_help_id(HelpKey::MacroWizardChannelNumber), spec_help_id(HelpKey::MacroWizardChannelType), 21));
        },
        86 => {
            reveal_strlit("macro.wizard_channel_type");
            reveal_strlit("macro.wizard_parameter");
            assert(lex_lt_at(spec_help_id(HelpKey::MacroWizardChannelType), spec_help_id(HelpKey::MacroWizardParameter), 13));
        },
        87 => {
            reveal_strlit("macro.wizard_parameter");
            reveal_strlit("macro.wizard_section");
            assert(lex_lt_at(spec_help_id(HelpKey::MacroWizardParameter), spec_help_id(HelpKey::MacroWizardSection), 13));
        },
        88 => {
            reveal_strlit("macro.wizard_section");
            reveal_strlit("macro.zero_delay_selected");
            assert(lex_lt_at(spec_help_id(HelpKey::MacroWizardSection), spec_help_id(HelpKey::MacroZeroDelaySelected), 6));
        },
        89 => {
            reveal_strlit("macro.zero_delay_selected");
            reveal_strlit("monitor.add_profile");
            assert(lex_lt_at(spec_help_id(HelpKey::MacroZeroDelaySelected), spec_help_id(HelpKey::MonitorAddProfile), 1));
        },
        90 => {
            reveal_strlit("monitor.add_profile");
            reveal_strlit("monitor.deselect_all");
            assert(lex_lt_at(spec_help_id(HelpKey::MonitorAddProfile), spec_help_id(HelpKey::MonitorDeselectAll), 8));
        },
        91 => {
            reveal_strlit("monitor.deselect_all");
            reveal_strlit("monitor.edit_profile");
            assert(lex_lt_at(spec_help_id(HelpKey::MonitorDeselectAll), spec_help_id(HelpKey::MonitorEditProfile), 8));
        },
        92 => {
            reveal_strlit("monitor.edit_profile");
            reveal_strlit("monitor.picker_cancel");
            assert(lex_lt_at(spec_help_id(HelpKey::MonitorEditProfile), spec_help_id(HelpKey::MonitorPickerCancel), 8));
        },
        93 => {
            reveal_strlit("monitor.picker_cancel");
            reveal_strlit("monitor.picker_save");
            assert(lex_lt_at(spec_help_id(HelpKey::MonitorPickerCancel), spec_help_id(HelpKey::MonitorPickerSave), 15));
        },
        94 => {
            reveal_strlit("monitor.picker_save");
            reveal_strlit("monitor.profile_pin");
            assert(lex_lt_at(spec_help_id(HelpKey::MonitorPickerSave), spec_help_id(HelpKey::MonitorProfilePin), 9));
        },
        95 => {
            reveal_strlit("monitor.profile_pin");
            reveal_strlit("monitor.reorder");
            assert(lex_lt_at(spec_help_id(HelpKey::MonitorProfilePin), spec_help_id(HelpKey::MonitorReorder), 8));
        },
        96 => {
            reveal_strlit("monitor.reorder");
            reveal_strlit("monitor.reorder_done");
            assert(lex_lt_at(spec_help_id(HelpKey::MonitorReorder), spec_help_id(HelpKey::MonitorReorderDone), 15));
        },
        97 => {
            reveal_strlit("monitor.reorder_done");
            reveal_strlit("monitor.ripple");
            assert(lex_lt_at(spec_help_id(HelpKey::MonitorReorderDone), spec_help_id(HelpKey::MonitorRipple), 9));
        },
        98 => {
            reveal_strlit("monitor.ripple");
            reveal_strlit("monitor.ripple_cancel");
            assert(lex_lt_at(spec_help_id(HelpKey::MonitorRipple), spec_help_id(HelpKey::MonitorRippleCancel), 14));
        },
        99 => {
            reveal_strlit("monitor.ripple_cancel");
            reveal_strlit("monitor.ripple_confirm");
            assert(lex_lt_at(spec_help_id(HelpKey::MonitorRippleCancel), spec_help_id(HelpKey::MonitorRippleConfirm), 16));
        },
        _ => {},
    }
}

proof fn lemma_sorted_ids_5(r: u8)
    requires
        100 <= r <= 119,
    ensures
        lex_lt(spec_help_id(key_at_rank(r)), spec_help_id(key_at_rank((r + 1) as u8))),
{
    match r {
        100 => {
            reveal_strlit("monitor.ripple_confirm");
            reveal_strlit("monitor.select_all");
            assert(lex_lt_at(spec_help_id(HelpKey::MonitorRippleConfirm), spec_help_id(HelpKey::MonitorSelectAll), 8));
        },
        101 => {
            reveal_strlit("monitor.select_all");
            reveal_strlit("osc_log.clear");
            assert(lex_lt_at(spec_help_id(HelpKey::MonitorSelectAll), spec_help_id(HelpKey::OscLogClear), 0));
        },
        102 => {
            reveal_strlit("osc_log.clear");
            reveal_strlit("osc_log.filter");
            assert(lex_lt_at(spec_help_id(HelpKey::OscLogClear), spec_help_id(HelpKey::OscLogFilter), 8));
        },
        103 => {
            reveal_strlit("osc_log.filter");
            reveal_strlit("osc_log.pause");
            assert(lex_lt_at(spec_help_id(HelpKey::OscLogFilter), spec_help_id(HelpKey::OscLogPause), 8));
        },
        104 => {
            reveal_strlit("osc_log.pause");
            reveal_strlit("osc_log.show_in");
            assert(lex_lt_at(spec_help_id(HelpKey::OscLogPause), spec_help_id(HelpKey::OscLogShowIn), 8));
        },
        105 => {
            reveal_strlit("osc_log.show_in");
            reveal_strlit("osc_log.show_ipad_from_console");
            assert(lex_lt_at(spec_help_id(HelpKey::OscLogShowIn), spec_help_id(HelpKey::OscLogShowIpadFromConsole), 14));
        },
        106 => {
            reveal_strlit("osc_log.show_ipad_from_console");
            reveal_strlit("osc_log.show_ipad_to_console");
            assert(lex_lt_at(spec_help_id(HelpKey::OscLogShowIpadFromConsole), spec_help_id(HelpKey::OscLogShowIpadToConsole), 18));
        },
        107 => {
            reveal_strlit("osc_log.show_ipad_to_console");
            reveal_strlit("osc_log.show_out");
            assert(lex_lt_at(spec_help_id(HelpKey::OscLogShowIpadToConsole), spec_help_id(HelpKey::OscLogShowOut), 13));
        },
        108 => {
            reveal_strlit("osc_log.show_out");
            reveal_strlit("palette.capture");
            assert(lex_lt_at(spec_help_id(HelpKey::OscLogShowOut), spec_help_id(HelpKey::PaletteCapture), 0));
        },
        109 => {
            reveal_strlit("palette.capture");
            reveal_strlit("palette.channel_number");
            assert(lex_lt_at(spec_help_id(HelpKey::PaletteCapture), spec_help_id(HelpKey::PaletteChannelNumber), 9));
        },
        110 => {
            reveal_strlit("palette.channel_number");
            reveal_strlit("palette.channel_type");
            assert(lex_lt_at(spec_help_id(HelpKey::PaletteChannelNumber), spec_help_id(HelpKey::PaletteChannelType), 16));
        },
        111 => {
            reveal_strlit("palette.channel_type");
            reveal_strlit("palette.delete");
            assert(lex_lt_at(spec_help_id(HelpKey::PaletteChannelType), spec_help_id(HelpKey::PaletteDelete), 8));
        },
        112 => {
            reveal_strlit("palette.delete");
            reveal_strlit("palette.include");
            assert(lex_lt_at(spec_help_id(HelpKey::PaletteDelete), spec_help_id(HelpKey::PaletteInclude), 8));
        },
        113 => {
            reveal_strlit("palette.include");
            reveal_strlit("palette.linked_other");
            assert(lex_lt_at(spec_help_id(HelpKey::PaletteInclude), spec_help_id(HelpKey::PaletteLinkedOther), 8));
        },
        114 => {
            reveal_strlit("palette.linked_other");
            reveal_strlit("palette.name");
            assert(lex_lt_at(spec_help_id(HelpKey::PaletteLinkedOther), spec_help_id(HelpKey::PaletteName), 8));
        },
        115 => {
            reveal_strlit("palette.name");
            reveal_strlit("palette.recapture");
            assert(lex_lt_at(spec_help_id(HelpKey::PaletteName), spec_help_id(HelpKey::PaletteRecapture), 8));
        },
        116 => {
            reveal_strlit("palette.recapture");
            reveal_strlit("palette.rename");
            assert(lex_lt_at(spec_help_id(HelpKey::PaletteRecapture), spec_help_id(HelpKey::PaletteRename), 10));
        },
        117 => {
            reveal_strlit("palette.rename");
            reveal_strlit("panlink.apply");
            assert(lex_lt_at(spec_help_id(HelpKey::PaletteRename), spec_help_id(HelpKey::PanLinkApply), 2));
        },
        118 => {
            reveal_strlit("panlink.apply");
            reveal_strlit("panlink.clear_selection");
            assert(lex_lt_at(spec_help_id(HelpKey::PanLinkApply), spec_help_id(HelpKey::PanLinkClearSelection), 8));
        },
        119 => {
            reveal_strlit("panlink.clear_selection");
            reveal_strlit("panlink.revert");
            assert(lex_lt_at(spec_help_id(HelpKey::PanLinkClearSelection), spec_help_id(HelpKey::PanLinkRevert), 8));
        },
        _ => {},
    }
}

proof fn lemma_sorted_ids_6(r: u8)
    requires
        120 <= r <= 139,
    ensures
        lex_lt(spec_help_id(key_at_rank(r)), spec_help_id(key_at_rank((r + 1) as u8))),
{
    match r {
        120 => {
            reveal_strlit("panlink.revert");
            reveal_strlit("recall_scope.next_channel");
            assert(lex_lt_at(spec_help_id(HelpKey::PanLinkRevert), spec_help_id(HelpKey::RecallScopeNextChannel), 0));
        },
        121 => {
            reveal_strlit("recall_scope.next_channel");
            reveal_strlit("recall_scope.prev_channel");
            assert(lex_lt_at(spec_help_id(HelpKey::RecallScopeNextChannel), spec_help_id(HelpKey::RecallScopePrevChannel), 13));
        },
        122 => {
            reveal_strlit("recall_scope.prev_channel");
            reveal_strlit("recovery.cancel");
            assert(lex_lt_at(spec_help_id(HelpKey::RecallScopePrevChannel), spec_help_id(HelpKey::RecoveryCancel), 3));
        },
        123 => {
            reveal_strlit("recovery.cancel");
            reveal_strlit("recovery.load");
            assert(lex_lt_at(spec_help_id(HelpKey::RecoveryCancel), spec_help_id(HelpKey::RecoveryLoad), 9));
        },
        124 => {
            reveal_strlit("recovery.load");
            reveal_strlit("recovery.load_invalid");
            assert(lex_lt_at(spec_help_id(HelpKey::RecoveryLoad), spec_help_id(HelpKey::RecoveryLoadInvalid), 13));
        },
        125 => {
            reveal_strlit("recovery.load_invalid");
            reveal_strlit("recovery.save_original");
            assert(lex_lt_at(spec_help_id(HelpKey::RecoveryLoadInvalid), spec_help_id(HelpKey::RecoverySaveOriginal), 9));
        },
        126 => {
            reveal_strlit("recovery.save_original");
            reveal_strlit("scope.clear_all");
            assert(lex_lt_at(spec_help_id(HelpKey::RecoverySaveOriginal), spec_help_id(HelpKey::ScopeClearAll), 0));
        },
        127 => {
            reveal_strlit("scope.clear_all");
            reveal_strlit("scope.clear_changes");
            assert(lex_lt_at(spec_help_id(HelpKey::ScopeClearAll), spec_help_id(HelpKey::ScopeClearChanges), 12));
        },
        128 => {
            reveal_strlit("scope.clear_changes");
            reveal_strlit("scope.clear_changes_disabled");
            assert(lex_lt_at(spec_help_id(HelpKey::ScopeClearChanges), spec_help_id(HelpKey::ScopeClearChangesDisabled), 19));
        },
        129 => {
            reveal_strlit("scope.clear_changes_disabled");
            reveal_strlit("scope.console_conflict");
            assert(lex_lt_at(spec_help_id(HelpKey::ScopeClearChangesDisabled), spec_help_id(HelpKey::ScopeConsoleConflict), 7));
        },
        130 => {
            reveal_strlit("scope.console_conflict");
            reveal_strlit("scope.mode_fade");
            assert(lex_lt_at(spec_help_id(HelpKey::ScopeConsoleConflict), spec_help_id(HelpKey::ScopeModeFade), 6));
        },
        131 => {
            reveal_strlit("scope.mode_fade");
            reveal_strlit("scope.mode_pre_wait");
            assert(lex_lt_at(spec_help_id(HelpKey::ScopeModeFade), spec_help_id(HelpKey::ScopeModePreWait), 11));
        },
        132 => {
            reveal_strlit("scope.mode_pre_wait");
            reveal_strlit("scope.mode_scope");
            assert(lex_lt_at(spec_help_id(HelpKey::ScopeModePreWait), spec_help_id(HelpKey::ScopeModeScope), 11));
        },
        133 => {
            reveal_strlit("scope.mode_scope");
            reveal_strlit("scope.no_live_param");
            assert(lex_lt_at(spec_help_id(HelpKey::ScopeModeScope), spec_help_id(HelpKey::ScopeNoLiveParam), 6));
        },
        134 => {
            reveal_strlit("scope.no_live_param");
            reveal_strlit("scope.template_combo");
            assert(lex_lt_at(spec_help_id(HelpKey::ScopeNoLiveParam), spec_help_id(HelpKey::ScopeTemplateCombo), 6));
        },
        135 => {
            reveal_strlit("scope.template_combo");
            reveal_strlit("scope.template_load");
            assert(lex_lt_at(spec_help_id(HelpKey::ScopeTemplateCombo), spec_help_id(HelpKey::ScopeTemplateLoad), 15));
        },
        136 => {
            reveal_strlit("scope.template_load");
            reveal_strlit("scope.template_save");
            assert(lex_lt_at(spec_help_id(HelpKey::ScopeTemplateLoad), spec_help_id(HelpKey::ScopeTemplateSave), 15));
        },
        137 => {
            reveal_strlit("scope.template_save");
            reveal_strlit("setup.advanced");
            assert(lex_lt_at(spec_help_id(HelpKey::ScopeTemplateSave), spec_help_id(HelpKey::SetupAdvanced), 1));
        },
        138 => {
            reveal_strlit("setup.advanced");
            reveal_strlit("setup.console_ip");
            assert(lex_lt_at(spec_help_id(HelpKey::SetupAdvanced), spec_help_id(HelpKey::SetupConsoleIp), 6));
        },
        139 => {
            reveal_strlit("setup.console_ip");
            reveal_strlit("setup.console_ip_warning");
            assert(lex_lt_at(spec_help_id(HelpKey::SetupConsoleIp), spec_help_id(HelpKey::SetupConsoleIpWarning), 16));
        },
        _ => {},
    }
}

proof fn lemma_sorted_ids_7(r: u8)
    requires
        140 <= r <= 159,
    ensures
        lex_lt(spec_help_id(key_at_rank(r)), spec_help_id(key_at_rank((r + 1) as u8))),
{
    match r {
        140 => {
            reveal_strlit("setup.console_ip_warning");
            reveal_strlit("setup.console_port");
            assert(lex_lt_at(spec_help_id(HelpKey::SetupConsoleIpWarning), spec_help_id(HelpKey::SetupConsolePort), 14));
        },
        141 => {
            reveal_strlit("setup.console_port");
            reveal_strlit("setup.coverage");
            assert(lex_lt_at(spec_help_id(HelpKey::SetupConsolePort), spec_help_id(HelpKey::SetupCoverage), 8));
        },
        142 => {
            reveal_strlit("setup.coverage");
            reveal_strlit("setup.ipad_console_port");
            assert(lex_lt_at(spec_help_id(HelpKey::SetupCoverage), spec_help_id(HelpKey::SetupIpadConsolePort), 6));
        },
        143 => {
            reveal_strlit("setup.ipad_console_port");
            reveal_strlit("setup.ipad_ip");
            assert(lex_lt_at(spec_help_id(HelpKey::SetupIpadConsolePort), spec_help_id(HelpKey::SetupIpadIp), 11));
        },
        144 => {
            reveal_strlit("setup.ipad_ip");
            reveal_strlit("setup.ipad_listen_port");
            assert(lex_lt_at(spec_help_id(HelpKey::SetupIpadIp), spec_help_id(HelpKey::SetupIpadListenPort), 11));
        },
        145 => {
            reveal_strlit("setup.ipad_listen_port");
            reveal_strlit("setup.ipad_local_port");
            assert(lex_lt_at(spec_help_id(HelpKey::SetupIpadListenPort), spec_help_id(HelpKey::SetupIpadLocalPort), 12));
        },
        146 => {
            reveal_strlit("setup.ipad_local_port");
            reveal_strlit("setup.ipad_reply_port");
            assert(lex_lt_at(spec_help_id(HelpKey::SetupIpadLocalPort), spec_help_id(HelpKey::SetupIpadReplyPort), 11));
        },
        147 => {
            reveal_strlit("setup.ipad_reply_port");
            reveal_strlit("setup.local_port");
            assert(lex_lt_at(spec_help_id(HelpKey::SetupIpadReplyPort), spec_help_id(HelpKey::SetupLocalPort), 6));
        },
        148 => {
            reveal_strlit("setup.local_port");
            reveal_strlit("setup.monitor_port");
            assert(lex_lt_at(spec_help_id(HelpKey::SetupLocalPort), spec_help_id(HelpKey::SetupMonitorPort), 6));
        },
        149 => {
            reveal_strlit("setup.monitor_port");
            reveal_strlit("setup.network");
            assert(lex_lt_at(spec_help_id(HelpKey::SetupMonitorPort), spec_help_id(HelpKey::SetupNetwork), 6));
        },
        150 => {
            reveal_strlit("setup.network");
            reveal_strlit("setup.new_show");
            assert(lex_lt_at(spec_help_id(HelpKey::SetupNetwork), spec_help_id(HelpKey::SetupNewShow), 8));
        },
        151 => {
            reveal_strlit("setup.new_show");
            reveal_strlit("setup.open_show");
            assert(lex_lt_at(spec_help_id(HelpKey::SetupNewShow), spec_help_id(HelpKey::SetupOpenShow), 6));
        },
        152 => {
            reveal_strlit("setup.open_show");
            reveal_strlit("setup.qlab_host");
            assert(lex_lt_at(spec_help_id(HelpKey::SetupOpenShow), spec_help_id(HelpKey::SetupQlabHost), 6));
        },
        153 => {
            reveal_strlit("setup.qlab_host");
            reveal_strlit("setup.qlab_port");
            assert(lex_lt_at(spec_help_id(HelpKey::SetupQlabHost), spec_help_id(HelpKey::SetupQlabPort), 11));
        },
        154 => {
            reveal_strlit("setup.qlab_port");
            reveal_strlit("setup.save_show");
            assert(lex_lt_at(spec_help_id(HelpKey::SetupQlabPort), spec_help_id(HelpKey::SetupSaveShow), 6));
        },
        155 => {
            reveal_strlit("setup.save_show");
            reveal_strlit("setup.save_show_as");
            assert(lex_lt_at(spec_help_id(HelpKey::SetupSaveShow), spec_help_id(HelpKey::SetupSaveShowAs), 15));
        },
        156 => {
            reveal_strlit("setup.save_show_as");
            reveal_strlit("setup.trigger_port");
            assert(lex_lt_at(spec_help_id(HelpKey::SetupSaveShowAs), spec_help_id(HelpKey::SetupTriggerPort), 6));
        },
        157 => {
            reveal_strlit("setup.trigger_port");
            reveal_strlit("shift.apply");
            assert(lex_lt_at(spec_help_id(HelpKey::SetupTriggerPort), spec_help_id(HelpKey::ShiftApply), 1));
        },
        158 => {
            reveal_strlit("shift.apply");
            reveal_strlit("shift.close");
            assert(lex_lt_at(spec_help_id(HelpKey::ShiftApply), spec_help_id(HelpKey::ShiftClose), 6));
        },
        159 => {
            reveal_strlit("shift.close");
            reveal_strlit("shift.delta");
            assert(lex_lt_at(spec_help_id(HelpKey::ShiftClose), spec_help_id(HelpKey::ShiftDelta), 6));
        },
        _ => {},
    }
}

proof fn lemma_sorted_ids_8(r: u8)
    requires
        160 <= r <= 179,
    ensures
        lex_lt(spec_help_id(key_at_rank(r)), spec_help_id(key_at_rank((r + 1) as u8))),
{
    match r {
        160 => {
            reveal_strlit("shift.delta");
            reveal_strlit("shift.from_row");
            assert(lex_lt_at(spec_help_id(HelpKey::ShiftDelta), spec_help_id(HelpKey::ShiftFromRow), 6));
        },
        161 => {
            reveal_strlit("shift.from_row");
            reveal_strlit("snapshot.apply_scope");
            assert(lex_lt_at(spec_help_id(HelpKey::ShiftFromRow), spec_help_id(HelpKey::SnapshotApplyScope), 1));
        },
        162 => {
            reveal_strlit("snapshot.apply_scope");
            reveal_strlit("snapshot.auto_update");
            assert(lex_lt_at(spec_help_id(HelpKey::SnapshotApplyScope), spec_help_id(HelpKey::SnapshotAutoUpdate), 10));
        },
        163 => {
            reveal_strlit("snapshot.auto_update");
            reveal_strlit("snapshot.bulk_shift");
            assert(lex_lt_at(spec_help_id(HelpKey::SnapshotAutoUpdate), spec_help_id(HelpKey::SnapshotBulkShift), 9));
        },
        164 => {
            reveal_strlit("snapshot.bulk_shift");
            reveal_strlit("snapshot.capture_now");
            assert(lex_lt_at(spec_help_id(HelpKey::SnapshotBulkShift), spec_help_id(HelpKey::SnapshotCaptureNow), 9));
        },
        165 => {
            reveal_strlit("snapshot.capture_now");
            reveal_strlit("snapshot.clear_scope");
            assert(lex_lt_at(spec_help_id(HelpKey::SnapshotCaptureNow), spec_help_id(HelpKey::SnapshotClearScope), 10));
        },
        166 => {
            reveal_strlit("snapshot.clear_scope");
            reveal_strlit("snapshot.console_follow_req");
            assert(lex_lt_at(spec_help_id(HelpKey::SnapshotClearScope), spec_help_id(HelpKey::SnapshotConsoleFollowReq), 10));
        },
        167 => {
            reveal_strlit("snapshot.console_follow_req");
            reveal_strlit("snapshot.edit_scope");
            assert(lex_lt_at(spec_help_id(HelpKey::SnapshotConsoleFollowReq), spec_help_id(HelpKey::SnapshotEditScope), 9));
        },
        168 => {
            reveal_strlit("snapshot.edit_scope");
            reveal_strlit("snapshot.picker");
            assert(lex_lt_at(spec_help_id(HelpKey::SnapshotEditScope), spec_help_id(HelpKey::SnapshotPicker), 9));
        },
        169 => {
            reveal_strlit("snapshot.picker");
            reveal_strlit("snapshot.qlab_create_trigger");
            assert(lex_lt_at(spec_help_id(HelpKey::SnapshotPicker), spec_help_id(HelpKey::SnapshotQlabCreateTrigger), 9));
        },
        170 => {
            reveal_strlit("snapshot.qlab_create_trigger");
            reveal_strlit("snapshot.qlab_export_full");
            assert(lex_lt_at(spec_help_id(HelpKey::SnapshotQlabCreateTrigger), spec_help_id(HelpKey::SnapshotQlabExportFull), 14));
        },
        171 => {
            reveal_strlit("snapshot.qlab_export_full");
            reveal_strlit("snapshot.re_recall");
            assert(lex_lt_at(spec_help_id(HelpKey::SnapshotQlabExportFull), spec_help_id(HelpKey::SnapshotReRecall), 9));
        },
        172 => {
            reveal_strlit("snapshot.re_recall");
            reveal_strlit("snapshot.recall");
            assert(lex_lt_at(spec_help_id(HelpKey::SnapshotReRecall), spec_help_id(HelpKey::SnapshotRecall), 11));
        },
        173 => {
            reveal_strlit("snapshot.recall");
            reveal_strlit("snapshot.recall_no_scope_req");
            assert(lex_lt_at(spec_help_id(HelpKey::SnapshotRecall), spec_help_id(HelpKey::SnapshotRecallNoScopeReq), 15));
        },
        174 => {
            reveal_strlit("snapshot.recall_no_scope_req");
            reveal_strlit("snapshot.recapture");
            assert(lex_lt_at(spec_help_id(HelpKey::SnapshotRecallNoScopeReq), spec_help_id(HelpKey::SnapshotRecapture), 13));
        },
        175 => {
            reveal_strlit("snapshot.recapture");
            reveal_strlit("snapshot.scope_override");
            assert(lex_lt_at(spec_help_id(HelpKey::SnapshotRecapture), spec_help_id(HelpKey::SnapshotScopeOverride), 9));
        },
        176 => {
            reveal_strlit("snapshot.scope_override");
            reveal_strlit("snapshot.scope_override_template");
            assert(lex_lt_at(spec_help_id(HelpKey::SnapshotScopeOverride), spec_help_id(HelpKey::SnapshotScopeOverrideTemplate), 23));
        },
        177 => {
            reveal_strlit("snapshot.scope_override_template");
            reveal_strlit("snapshot.undo");
            assert(lex_lt_at(spec_help_id(HelpKey::SnapshotScopeOverrideTemplate), spec_help_id(HelpKey::SnapshotUndo), 9));
        },
        178 => {
            reveal_strlit("snapshot.undo");
            reveal_strlit("streamdeck.add_step");
            assert(lex_lt_at(spec_help_id(HelpKey::SnapshotUndo), spec_help_id(HelpKey::StreamDeckAddStep), 1));
        },
        179 => {
            reveal_strlit("streamdeck.add_step");
            reveal_strlit("streamdeck.button_macro");
            assert(lex_lt_at(spec_help_id(HelpKey::StreamDeckAddStep), spec_help_id(HelpKey::StreamDeckButtonMacro), 11));
        },
        _ => {},
    }
}

proof fn lemma_sorted_ids_9(r: u8)
    requires
        180 <= r <= 198,
    ensures
        lex_lt(spec_help_id(key_at_rank(r)), spec_help_id(key_at_rank((r + 1) as u8))),
{
    match r {
        180 => {
            reveal_strlit("streamdeck.button_macro");
            reveal_strlit("streamdeck.close");
            assert(lex_lt_at(spec_help_id(HelpKey::StreamDeckButtonMacro), spec_help_id(HelpKey::StreamDeckClose), 11));
        },
        181 => {
            reveal_strlit("streamdeck.close");
            reveal_strlit("streamdeck.device");
            assert(lex_lt_at(spec_help_id(HelpKey::StreamDeckClose), spec_help_id(HelpKey::StreamDeckDevice), 11));
        },
        182 => {
            reveal_strlit("streamdeck.device");
            reveal_strlit("streamdeck.disable");
            assert(lex_lt_at(spec_help_id(HelpKey::StreamDeckDevice), spec_help_id(HelpKey::StreamDeckDisable), 12));
        },
        183 => {
            reveal_strlit("streamdeck.disable");
            reveal_strlit("streamdeck.enable");
            assert(lex_lt_at(spec_help_id(HelpKey::StreamDeckDisable), spec_help_id(HelpKey::StreamDeckEnable), 11));
        },
        184 => {
            reveal_strlit("streamdeck.enable");
            reveal_strlit("streamdeck.open_panel");
            assert(lex_lt_at(spec_help_id(HelpKey::StreamDeckEnable), spec_help_id(HelpKey::StreamDeckOpenPanel), 11));
        },
        185 => {
            reveal_strlit("streamdeck.open_panel");
            reveal_strlit("tab.gangs");
            assert(lex_lt_at(spec_help_id(HelpKey::StreamDeckOpenPanel), spec_help_id(HelpKey::TabGangs), 0));
        },
        186 => {
            reveal_strlit("tab.gangs");
            reveal_strlit("tab.inspector");
            assert(lex_lt_at(spec_help_id(HelpKey::TabGangs), spec_help_id(HelpKey::TabInspector), 4));
        },
        187 => {
            reveal_strlit("tab.inspector");
            reveal_strlit("tab.macros");
            assert(lex_lt_at(spec_help_id(HelpKey::TabInspector), spec_help_id(HelpKey::TabMacros), 4));
        },
        188 => {
            reveal_strlit("tab.macros");
            reveal_strlit("tab.monitor");
            assert(lex_lt_at(spec_help_id(HelpKey::TabMacros), spec_help_id(HelpKey::TabMonitor), 5));
        },
        189 => {
            reveal_strlit("tab.monitor");
            reveal_strlit("tab.osc_log");
            assert(lex_lt_at(spec_help_id(HelpKey::TabMonitor), spec_help_id(HelpKey::TabOscLog), 4));
        },
        190 => {
            reveal_strlit("tab.osc_log");
            reveal_strlit("tab.pan_link");
            assert(lex_lt_at(spec_help_id(HelpKey::TabOscLog), spec_help_id(HelpKey::TabPanLink), 4));
        },
        191 => {
            reveal_strlit("tab.pan_link");
            reveal_strlit("tab.setup");
            assert(lex_lt_at(spec_help_id(HelpKey::TabPanLink), spec_help_id(HelpKey::TabSetup), 4));
        },
        192 => {
            reveal_strlit("tab.setup");
            reveal_strlit("tab.snapshots");
            assert(lex_lt_at(spec_help_id(HelpKey::TabSetup), spec_help_id(HelpKey::TabSnapshots), 5));
        },
        193 => {
            reveal_strlit("tab.snapshots");
            reveal_strlit("theme.dark");
            assert(lex_lt_at(spec_help_id(HelpKey::TabSnapshots), spec_help_id(HelpKey::ThemeDark), 1));
        },
        194 => {
            reveal_strlit("theme.dark");
            reveal_strlit("theme.light");
            assert(lex_lt_at(spec_help_id(HelpKey::ThemeDark), spec_help_id(HelpKey::ThemeLight), 6));
        },
        195 => {
            reveal_strlit("theme.light");
            reveal_strlit("ui_mode.full");
            assert(lex_lt_at(spec_help_id(HelpKey::ThemeLight), spec_help_id(HelpKey::UiModeFull), 0));
        },
        196 => {
            reveal_strlit("ui_mode.full");
            reveal_strlit("ui_mode.live_music");
            assert(lex_lt_at(spec_help_id(HelpKey::UiModeFull), spec_help_id(HelpKey::UiModeLiveMusic), 8));
        },
        197 => {
            reveal_strlit("ui_mode.live_music");
            reveal_strlit("ui_mode.theatre");
            assert(lex_lt_at(spec_help_id(HelpKey::UiModeLiveMusic), spec_help_id(HelpKey::UiModeTheatre), 8));
        },
        198 => {
            reveal_strlit("ui_mode.theatre");
            reveal_strlit("widget.long_press_confirm");
            assert(lex_lt_at(spec_help_id(HelpKey::UiModeTheatre), spec_help_id(HelpKey::LongPressConfirm), 0));
        },
        _ => {},
    }
}

proof fn lemma_sorted_ids_adjacent(r: u8)
    requires
        r + 1 < 200,
    ensures
        lex_lt(spec_help_id(key_at_rank(r)), spec_help_id(key_at_rank((r + 1) as u8))),
{
    if r <= 19 {
        lemma_sorted_ids_0(r);
    } else if r <= 39 {
        lemma_sorted_ids_1(r);
    } else if r <= 59 {
        lemma_sorted_ids_2(r);
    } else if r <= 79 {
        lemma_sorted_ids_3(r);
    } else if r <= 99 {
        lemma_sorted_ids_4(r);
    } else if r <= 119 {
        lemma_sorted_ids_5(r);
    } else if r <= 139 {
        lemma_sorted_ids_6(r);
    } else if r <= 159 {
        lemma_sorted_ids_7(r);
    } else if r <= 179 {
        lemma_sorted_ids_8(r);
    } else {
        lemma_sorted_ids_9(r);
    }
}

proof fn lemma_sorted_ids(r1: u8, r2: u8)
    requires
        r1 < r2 < 200,
    ensures
        lex_lt(spec_help_id(key_at_rank(r1)), spec_help_id(key_at_rank(r2))),
    decreases r2 - r1,
{
    lemma_sorted_ids_adjacent((r2 - 1) as u8);
    if r1 + 1 < r2 {
        lemma_sorted_ids(r1, (r2 - 1) as u8);
        lemma_lex_lt_trans(
            spec_help_id(key_at_rank(r1)),
            spec_help_id(key_at_rank((r2 - 1) as u8)),
            spec_help_id(key_at_rank(r2)),
        );
    }
}

/// Translator ids are unique: two different keys never share an id.
pub proof fn law_help_ids_distinct(k1: HelpKey, k2: HelpKey)
    requires
        k1 != k2,
    ensures
        spec_help_id(k1) != spec_help_id(k2),
{
    lemma_rank_inverse(k1);
    lemma_rank_inverse(k2);
    let (r1, r2) = (id_rank(k1), id_rank(k2));
    if r1 < r2 {
        lemma_sorted_ids(r1, r2);
        lemma_lex_lt_ne(spec_help_id(k1), spec_help_id(k2));
    } else {
        lemma_sorted_ids(r2, r1);
        lemma_lex_lt_ne(spec_help_id(k2), spec_help_id(k1));
    }
}

proof fn lemma_entries_nonempty_0(key: HelpKey)
    requires
        entry_group_0(key),
    ensures
        spec_help_id(key).len() > 0,
        'a' <= spec_help_id(key)[0] && spec_help_id(key)[0] <= 'z',
        spec_help_english(key).len() > 0,
{
    match key {
        HelpKey::Dismiss => {
            reveal_strlit("app.dismiss");
            reveal_strlit("Dismiss");
        },
        HelpKey::PickColor => {
            reveal_strlit("color.pick");
            reveal_strlit("Pick a color");
        },
        HelpKey::CueUndo => {
            reveal_strlit("cue.undo");
            reveal_strlit("Undo the last cue / snapshot recall.");
        },
        HelpKey::CuePrev => {
            reveal_strlit("cue.prev");
            reveal_strlit("Recall the previous cue.");
        },
        HelpKey::CueGo => {
            reveal_strlit("cue.go");
            reveal_strlit("Recall the next cue.");
        },
        HelpKey::CueSkip => {
            reveal_strlit("cue.skip");
            reveal_strlit("Skip — advance to the next cue without recalling it.");
        },
        HelpKey::CueListOpen => {
            reveal_strlit("cue.list_open");
            reveal_strlit("Open the cue list.");
        },
        HelpKey::CueListJump => {
            reveal_strlit("cue.list_jump");
            reveal_strlit("Jump to this cue and recall it.");
        },
        HelpKey::OfflineToggle => {
            reveal_strlit("app.offline_toggle");
            reveal_strlit("Offline mode: drops every inbound and outbound OSC message. \
             Lets you edit show data without affecting the desk. \
             Toggle back to Online to resume — the state mirror will be \
             stale until you click Refresh on the Setup tab.");
        },
        HelpKey::SnapshotReRecall => {
            reveal_strlit("snapshot.re_recall");
            reveal_strlit("Re-recall this snapshot now to confirm nothing drifted");
        },
        HelpKey::AdvancedDiagnostics => {
            reveal_strlit("advanced.diagnostics");
            reveal_strlit("Adds OSC Log and Inspector tabs to the main tab bar.");
        },
        HelpKey::AdvancedPacing => {
            reveal_strlit("advanced.pacing");
            reveal_strlit("Delay inserted between consecutive OSC messages so a long sequence \
             doesn't flood the console. Applies to snapshot recall and macros. \
             0 = no pacing.");
        },
        HelpKey::AdvancedScale => {
            reveal_strlit("advanced.scale");
            reveal_strlit("Manual UI size multiplier, applied on top of the automatic display \
             scaling. 100% = automatic scaling only.");
        },
        HelpKey::TabSetup => {
            reveal_strlit("tab.setup");
            reveal_strlit("Connection, display mode, and show-file load/save.");
        },
        HelpKey::TabMacros => {
            reveal_strlit("tab.macros");
            reveal_strlit("Record, edit and fire macros.");
        },
        HelpKey::TabGangs => {
            reveal_strlit("tab.gangs");
            reveal_strlit("Link channels so a parameter change on one propagates to the others.");
        },
        HelpKey::TabPanLink => {
            reveal_strlit("tab.pan_link");
            reveal_strlit("Link an input channel's pan to its aux send pans.");
        },
        HelpKey::TabSnapshots => {
            reveal_strlit("tab.snapshots");
            reveal_strlit("Capture and recall console state as snapshots and cues.");
        },
        HelpKey::TabMonitor => {
            reveal_strlit("tab.monitor");
            reveal_strlit("Live channel meters and remote monitoring clients.");
        },
        HelpKey::TabOscLog => {
            reveal_strlit("tab.osc_log");
            reveal_strlit("Live log of OSC traffic to and from the console.");
        },
        _ => {},
    }
}

spec fn entry_group_0(key: HelpKey) -> bool {
    match key {
        HelpKey::Dismiss => true,
        HelpKey::PickColor => true,
        HelpKey::CueUndo => true,
        HelpKey::CuePrev => true,
        HelpKey::CueGo => true,
        HelpKey::CueSkip => true,
        HelpKey::CueListOpen => true,
        HelpKey::CueListJump => true,
        HelpKey::OfflineToggle => true,
        HelpKey::SnapshotReRecall => true,
        HelpKey::AdvancedDiagnostics => true,
        HelpKey::AdvancedPacing => true,
        HelpKey::AdvancedScale => true,
        HelpKey::TabSetup => true,
        HelpKey::TabMacros => true,
        HelpKey::TabGangs => true,
        HelpKey::TabPanLink => true,
        HelpKey::TabSnapshots => true,
        HelpKey::TabMonitor => true,
        HelpKey::TabOscLog => true,
        _ => false,
    }
}

proof fn lemma_entries_nonempty_1(key: HelpKey)
    requires
        entry_group_1(key),
    ensures
        spec_help_id(key).len() > 0,
        'a' <= spec_help_id(key)[0] && spec_help_id(key)[0] <= 'z',
        spec_help_english(key).len() > 0,
{
    match key {
        HelpKey::TabInspector => {
            reveal_strlit("tab.inspector");
            reveal_strlit("Inspect the live parameter state mirror.");
        },
        HelpKey::LongPressConfirm => {
            reveal_strlit("widget.long_press_confirm");
            reveal_strlit("Hold {ms} ms to confirm.");
        },
        HelpKey::MacroLearnReady => {
            reveal_strlit("macro.learn_ready");
            reveal_strlit("Record every parameter change made on the console into a new macro.");
        },
        HelpKey::MacroLearnNeedsConn => {
            reveal_strlit("macro.learn_needs_conn");
            reveal_strlit("Connect to the console first — Learn captures inbound parameter changes.");
        },
        HelpKey::MacroClearSelection => {
            reveal_strlit("macro.clear_selection");
            reveal_strlit("Clear the multi-selection");
        },
        HelpKey::MacroDedupSelected => {
            reveal_strlit("macro.dedup_selected");
            reveal_strlit("For every selected step, drop other steps with \
             the same (channel, parameter)");
        },
        HelpKey::MacroDeleteSelected => {
            reveal_strlit("macro.delete_selected");
            reveal_strlit("Remove every selected step");
        },
        HelpKey::MacroZeroDelaySelected => {
            reveal_strlit("macro.zero_delay_selected");
            reveal_strlit("Set delay to 0 ms on every selected step");
        },
        HelpKey::MacroStepSelectHint => {
            reveal_strlit("macro.step_select_hint");
            reveal_strlit("Click to select; Ctrl/Cmd-click to toggle; \
             Shift-click to range-select.");
        },
        HelpKey::MacroKeepOnlyStep => {
            reveal_strlit("macro.keep_only_step");
            reveal_strlit("Keep only this step for its (channel, parameter); \
             remove the rest");
        },
        HelpKey::MacroDeleteStep => {
            reveal_strlit("macro.delete_step");
            reveal_strlit("Delete this step");
        },
        HelpKey::MacroResetStepDelay => {
            reveal_strlit("macro.reset_step_delay");
            reveal_strlit("Reset this step's delay to 0 ms");
        },
        HelpKey::MacroMirrorInbound => {
            reveal_strlit("macro.mirror_inbound");
            reveal_strlit("Mirror the most-recent inbound parameter from the console into \
             the form below so you can hit Add Step without retyping.");
        },
        HelpKey::MacroQlabCueNumber => {
            reveal_strlit("macro.qlab_cue_number");
            reveal_strlit("QLab cue number — free-form string (numbers, letters, dots). \
             Sent as `/cue/<number>/start`.");
        },
        HelpKey::MacroAddSwatch => {
            reveal_strlit("macro.add_swatch");
            reveal_strlit("Add the current color to your saved swatches (per show)");
        },
        HelpKey::StreamDeckClose => {
            reveal_strlit("streamdeck.close");
            reveal_strlit("Close Stream Deck setup and go back to the \
             macro step editor.");
        },
        HelpKey::StreamDeckEnable => {
            reveal_strlit("streamdeck.enable");
            reveal_strlit("Enable the Stream Deck integration. Auto-connects to \
             the previously-selected device if it's plugged in; \
             otherwise open Setup… to pick one.");
        },
        HelpKey::StreamDeckDisable => {
            reveal_strlit("streamdeck.disable");
            reveal_strlit("Disable the Stream Deck integration. Disconnects the \
             device but preserves your button maps.");
        },
        HelpKey::StreamDeckOpenPanel => {
            reveal_strlit("streamdeck.open_panel");
            reveal_strlit("Open the Stream Deck panel — device selection, \
             button grid, per-button macro sequences.");
        },
        HelpKey::PanLinkRevert => {
            reveal_strlit("panlink.revert");
            reveal_strlit("Discard staged changes and resync with the live bindings.");
        },
        _ => {},
    }
}

spec fn entry_group_1(key: HelpKey) -> bool {
    match key {
        HelpKey::TabInspector => true,
        HelpKey::LongPressConfirm => true,
        HelpKey::MacroLearnReady => true,
        HelpKey::MacroLearnNeedsConn => true,
        HelpKey::MacroClearSelection => true,
        HelpKey::MacroDedupSelected => true,
        HelpKey::MacroDeleteSelected => true,
        HelpKey::MacroZeroDelaySelected => true,
        HelpKey::MacroStepSelectHint => true,
        HelpKey::MacroKeepOnlyStep => true,
        HelpKey::MacroDeleteStep => true,
        HelpKey::MacroResetStepDelay => true,
        HelpKey::MacroMirrorInbound => true,
        HelpKey::MacroQlabCueNumber => true,
        HelpKey::MacroAddSwatch => true,
        HelpKey::StreamDeckClose => true,
        HelpKey::StreamDeckEnable => true,
        HelpKey::StreamDeckDisable => true,
        HelpKey::StreamDeckOpenPanel => true,
        HelpKey::PanLinkRevert => true,
        _ => false,
    }
}

proof fn lemma_entries_nonempty_2(key: HelpKey)
    requires
        entry_group_2(key),
    ensures
        spec_help_id(key).len() > 0,
        'a' <= spec_help_id(key)[0] && spec_help_id(key)[0] <= 'z',
        spec_help_english(key).len() > 0,
{
    match key {
        HelpKey::PanLinkApply => {
            reveal_strlit("panlink.apply");
            reveal_strlit("Commit staged links. Aux send pans don't move until \
             the input main pan next changes.");
        },
        HelpKey::SetupConsoleIp => {
            reveal_strlit("setup.console_ip");
            reveal_strlit("S21 console IP address.");
        },
        HelpKey::SetupConsoleIpWarning => {
            reveal_strlit("setup.console_ip_warning");
            reveal_strlit("Console IP isn't on the selected NIC's network \
             (first two octets differ — unreachable even with /16). \
             Click to dismiss.");
        },
        HelpKey::SetupConsolePort => {
            reveal_strlit("setup.console_port");
            reveal_strlit("Console port — daemon sends GP OSC here.");
        },
        HelpKey::SetupLocalPort => {
            reveal_strlit("setup.local_port");
            reveal_strlit("Local port the daemon listens on for GP OSC from the console.");
        },
        HelpKey::SetupIpadConsolePort => {
            reveal_strlit("setup.ipad_console_port");
            reveal_strlit("Console iPad-protocol port — daemon sends here.");
        },
        HelpKey::SetupIpadLocalPort => {
            reveal_strlit("setup.ipad_local_port");
            reveal_strlit("Local port the daemon listens on for iPad-protocol traffic.");
        },
        HelpKey::SetupIpadReplyPort => {
            reveal_strlit("setup.ipad_reply_port");
            reveal_strlit("Port on the iPad — daemon sends to it here.");
        },
        HelpKey::SetupIpadListenPort => {
            reveal_strlit("setup.ipad_listen_port");
            reveal_strlit("Local port the daemon listens on for iPad→daemon traffic.");
        },
        HelpKey::SetupIpadIp => {
            reveal_strlit("setup.ipad_ip");
            reveal_strlit("iPad device IP (required for iPad Proxy mode) — read it off the DiGiCo iPad app.");
        },
        HelpKey::SetupQlabHost => {
            reveal_strlit("setup.qlab_host");
            reveal_strlit("QLab host — usually 127.0.0.1 if QLab runs on this machine.");
        },
        HelpKey::SetupQlabPort => {
            reveal_strlit("setup.qlab_port");
            reveal_strlit("QLab's OSC listen port — daemon sends cue-build commands here.");
        },
        HelpKey::SetupTriggerPort => {
            reveal_strlit("setup.trigger_port");
            reveal_strlit("Local port the daemon listens on for cue triggers from QLab.");
        },
        HelpKey::SetupMonitorPort => {
            reveal_strlit("setup.monitor_port");
            reveal_strlit("Local port for the Flutter monitor app — leave blank to disable.");
        },
        HelpKey::SetupOpenShow => {
            reveal_strlit("setup.open_show");
            reveal_strlit("Pick a show file and load it. Save As… to save to \
             a new path.");
        },
        HelpKey::SetupSaveShow => {
            reveal_strlit("setup.save_show");
            reveal_strlit("Save to the path shown above. If empty, prompts for a \
             location.");
        },
        HelpKey::SetupSaveShowAs => {
            reveal_strlit("setup.save_show_as");
            reveal_strlit("Pick a new location and save there. Useful when the \
             path field already points at a different file.");
        },
        HelpKey::SetupAdvanced => {
            reveal_strlit("setup.advanced");
            reveal_strlit("Pacing, diagnostics, and other application preferences.");
        },
        HelpKey::SnapshotAutoUpdate => {
            reveal_strlit("snapshot.auto_update");
            reveal_strlit("When recalling a snapshot, write any dirty parameters \
             within the previous snapshot's scope back into it. \
             Captures mid-show tweaks automatically.");
        },
        HelpKey::SnapshotConsoleFollowReq => {
            reveal_strlit("snapshot.console_follow_req");
            reveal_strlit("Requires Mode 2 or Mode 3 (iPad protocol) — the console \
             snapshot list is only reachable via that protocol.");
        },
        _ => {},
    }
}

spec fn entry_group_2(key: HelpKey) -> bool {
    match key {
        HelpKey::PanLinkApply => true,
        HelpKey::SetupConsoleIp => true,
        HelpKey::SetupConsoleIpWarning => true,
        HelpKey::SetupConsolePort => true,
        HelpKey::SetupLocalPort => true,
        HelpKey::SetupIpadConsolePort => true,
        HelpKey::SetupIpadLocalPort => true,
        HelpKey::SetupIpadReplyPort => true,
        HelpKey::SetupIpadListenPort => true,
        HelpKey::SetupIpadIp => true,
        HelpKey::SetupQlabHost => true,
        HelpKey::SetupQlabPort => true,
        HelpKey::SetupTriggerPort => true,
        HelpKey::SetupMonitorPort => true,
        HelpKey::SetupOpenShow => true,
        HelpKey::SetupSaveShow => true,
        HelpKey::SetupSaveShowAs => true,
        HelpKey::SetupAdvanced => true,
        HelpKey::SnapshotAutoUpdate => true,
        HelpKey::SnapshotConsoleFollowReq => true,
        _ => false,
    }
}

proof fn lemma_entries_nonempty_3(key: HelpKey)
    requires
        entry_group_3(key),
    ensures
        spec_help_id(key).len() > 0,
        'a' <= spec_help_id(key)[0] && spec_help_id(key)[0] <= 'z',
        spec_help_english(key).len() > 0,
{
    match key {
        HelpKey::SnapshotRecallNoScopeReq => {
            reveal_strlit("snapshot.recall_no_scope_req");
            reveal_strlit("Only available for snapshots captured with 'Apply scope on recall' \
             — ApplyOnSave snapshots already filtered at capture time, so there \
             is nothing outside the saved scope to recall.");
        },
        HelpKey::SnapshotBulkShift => {
            reveal_strlit("snapshot.bulk_shift");
            reveal_strlit("Bulk-shift every cue's console snapshot when you've \
             inserted or removed snapshots on the console.");
        },
        HelpKey::ScopeNoLiveParam => {
            reveal_strlit("scope.no_live_param");
            reveal_strlit("no live parameter");
        },
        HelpKey::ScopeConsoleConflict => {
            reveal_strlit("scope.console_conflict");
            reveal_strlit("In console session scope, not safed for this channel");
        },
        HelpKey::MonitorAddProfile => {
            reveal_strlit("monitor.add_profile");
            reveal_strlit("Create a monitoring profile — choose which auxes and inputs a \
             musician's monitor app may control.");
        },
        HelpKey::MonitorEditProfile => {
            reveal_strlit("monitor.edit_profile");
            reveal_strlit("Edit this profile's name and permitted channels.");
        },
        HelpKey::MonitorProfilePin => {
            reveal_strlit("monitor.profile_pin");
            reveal_strlit("Optional PIN for the web (browser) login. Leave it blank for \
             name-only login; the native monitor app ignores it.");
        },
        HelpKey::MonitorReorder => {
            reveal_strlit("monitor.reorder");
            reveal_strlit("Rearrange this profile's channel order — drag the badges, then \
             click Done.");
        },
        HelpKey::MonitorReorderDone => {
            reveal_strlit("monitor.reorder_done");
            reveal_strlit("Finish reordering and save the new channel order.");
        },
        HelpKey::OscLogFilter => {
            reveal_strlit("osc_log.filter");
            reveal_strlit("Show only messages whose OSC path contains this text.");
        },
        HelpKey::OscLogShowIn => {
            reveal_strlit("osc_log.show_in");
            reveal_strlit("Show inbound GP OSC messages (console → daemon).");
        },
        HelpKey::OscLogShowOut => {
            reveal_strlit("osc_log.show_out");
            reveal_strlit("Show outbound GP OSC messages (daemon → console).");
        },
        HelpKey::OscLogShowIpadToConsole => {
            reveal_strlit("osc_log.show_ipad_to_console");
            reveal_strlit("Show iPad-protocol messages heading to the console (iPad → Console).");
        },
        HelpKey::OscLogShowIpadFromConsole => {
            reveal_strlit("osc_log.show_ipad_from_console");
            reveal_strlit("Show iPad-protocol messages heading to the iPad (Console → iPad).");
        },
        HelpKey::OscLogPause => {
            reveal_strlit("osc_log.pause");
            reveal_strlit("Pause or resume live capture. While paused the list stays frozen \
             for inspection; traffic still flows.");
        },
        HelpKey::OscLogClear => {
            reveal_strlit("osc_log.clear");
            reveal_strlit("Discard every captured message.");
        },
        HelpKey::InspectorFilter => {
            reveal_strlit("inspector.filter");
            reveal_strlit("Filter rows whose channel, parameter, or value contains this text.");
        },
        HelpKey::InspectorTypeAll => {
            reveal_strlit("inspector.type_all");
            reveal_strlit("Show parameters for every channel type.");
        },
        HelpKey::InspectorTypeFilter => {
            reveal_strlit("inspector.type_filter");
            reveal_strlit("Show only parameters for this channel type.");
        },
        HelpKey::InspectorSortHeader => {
            reveal_strlit("inspector.sort_header");
            reveal_strlit("Click to sort by this column; click again to reverse.");
        },
        _ => {},
    }
}

spec fn entry_group_3(key: HelpKey) -> bool {
    match key {
        HelpKey::SnapshotRecallNoScopeReq => true,
        HelpKey::SnapshotBulkShift => true,
        HelpKey::ScopeNoLiveParam => true,
        HelpKey::ScopeConsoleConflict => true,
        HelpKey::MonitorAddProfile => true,
        HelpKey::MonitorEditProfile => true,
        HelpKey::MonitorProfilePin => true,
        HelpKey::MonitorReorder => true,
        HelpKey::MonitorReorderDone => true,
        HelpKey::OscLogFilter => true,
        HelpKey::OscLogShowIn => true,
        HelpKey::OscLogShowOut => true,
        HelpKey::OscLogShowIpadToConsole => true,
        HelpKey::OscLogShowIpadFromConsole => true,
        HelpKey::OscLogPause => true,
        HelpKey::OscLogClear => true,
        HelpKey::InspectorFilter => true,
        HelpKey::InspectorTypeAll => true,
        HelpKey::InspectorTypeFilter => true,
        HelpKey::InspectorSortHeader => true,
        _ => false,
    }
}

proof fn lemma_entries_nonempty_4(key: HelpKey)
    requires
        entry_group_4(key),
    ensures
        spec_help_id(key).len() > 0,
        'a' <= spec_help_id(key)[0] && spec_help_id(key)[0] <= 'z',
        spec_help_english(key).len() > 0,
{
    match key {
        HelpKey::GangFaderMutePan => {
            reveal_strlit("gang.fader_mute_pan");
            reveal_strlit("Channel fader level, mute and solo. Pan has its own OFF/ON/REVERSED \
             control on each gang and is no longer linked by this section.");
        },
        HelpKey::GangName => {
            reveal_strlit("gang.name");
            reveal_strlit("Channel name string.");
        },
        HelpKey::GangInputGain => {
            reveal_strlit("gang.input_gain");
            reveal_strlit("Head-amp gain, total/computed gain, gain tracking, phantom \
             power, main/alt input switch, stereo mode (input channels only).");
        },
        HelpKey::GangTrim => {
            reveal_strlit("gang.trim");
            reveal_strlit("Channel trim level (-40 dB to +40 dB). Available on input, \
             aux, group and matrix channels.");
        },
        HelpKey::GangPolarity => {
            reveal_strlit("gang.polarity");
            reveal_strlit("Phase / polarity invert. Available on input, aux, group and \
             matrix channels.");
        },
        HelpKey::GangBalanceWidth => {
            reveal_strlit("gang.balance_width");
            reveal_strlit("Stereo balance (-1 to +1) and width — applies to stereo \
             input channels only (GP OSC, input-only per the S21 chart).");
        },
        HelpKey::GangDelay => {
            reveal_strlit("gang.delay");
            reveal_strlit("Channel delay time and enable.");
        },
        HelpKey::GangDigitube => {
            reveal_strlit("gang.digitube");
            reveal_strlit("Digitube drive, bias and enable.");
        },
        HelpKey::GangEq => {
            reveal_strlit("gang.eq");
            reveal_strlit("Parametric EQ — band gains, Q, freq, dynamic-EQ \
             settings, EQ on/off.");
        },
        HelpKey::GangDyn1 => {
            reveal_strlit("gang.dyn1");
            reveal_strlit("Dynamics 1 — compressor / gate parameters and on/off.");
        },
        HelpKey::GangDyn2 => {
            reveal_strlit("gang.dyn2");
            reveal_strlit("Dynamics 2 — second processor parameters and on/off.");
        },
        HelpKey::GangSends => {
            reveal_strlit("gang.sends");
            reveal_strlit("Aux send levels and on/off across all aux buses. \
             Only propagates between members of the same channel type.");
        },
        HelpKey::GangGroupRouting => {
            reveal_strlit("gang.group_routing");
            reveal_strlit("Group routing — which group buses the channel feeds. \
             Only propagates between same-type members.");
        },
        HelpKey::GangInserts => {
            reveal_strlit("gang.inserts");
            reveal_strlit("Insert A / B send / return enable.");
        },
        HelpKey::GangCgMembership => {
            reveal_strlit("gang.cg_membership");
            reveal_strlit("Control Group membership — which CGs the channel belongs \
             to. Settable via the iPad protocol only (Mode 2 / Mode 3) \
             using CGs_level / CGs_mute bitmasks; GP OSC has no \
             CG-membership writer. Only propagates between same-type \
             members.");
        },
        HelpKey::GangGraphicEq => {
            reveal_strlit("gang.graphic_eq");
            reveal_strlit("Graphic EQ band gains. Only meaningful when ganging \
             Graphic EQ channels (GEQ1, GEQ2, …).");
        },
        HelpKey::GangMatrixSends => {
            reveal_strlit("gang.matrix_sends");
            reveal_strlit("Matrix-send levels and on/off. Only meaningful when \
             ganging Matrix Input channels (MI1, MI2, …).");
        },
        HelpKey::ThemeDark => {
            reveal_strlit("theme.dark");
            reveal_strlit("Use the dark colour theme.");
        },
        HelpKey::ThemeLight => {
            reveal_strlit("theme.light");
            reveal_strlit("Use the light colour theme.");
        },
        HelpKey::PaletteCapture => {
            reveal_strlit("palette.capture");
            reveal_strlit("Capture the selected channel's chosen processing into a new palette.");
        },
        _ => {},
    }
}

spec fn entry_group_4(key: HelpKey) -> bool {
    match key {
        HelpKey::GangFaderMutePan => true,
        HelpKey::GangName => true,
        HelpKey::GangInputGain => true,
        HelpKey::GangTrim => true,
        HelpKey::GangPolarity => true,
        HelpKey::GangBalanceWidth => true,
        HelpKey::GangDelay => true,
        HelpKey::GangDigitube => true,
        HelpKey::GangEq => true,
        HelpKey::GangDyn1 => true,
        HelpKey::GangDyn2 => true,
        HelpKey::GangSends => true,
        HelpKey::GangGroupRouting => true,
        HelpKey::GangInserts => true,
        HelpKey::GangCgMembership => true,
        HelpKey::GangGraphicEq => true,
        HelpKey::GangMatrixSends => true,
        HelpKey::ThemeDark => true,
        HelpKey::ThemeLight => true,
        HelpKey::PaletteCapture => true,
        _ => false,
    }
}

proof fn lemma_entries_nonempty_5(key: HelpKey)
    requires
        entry_group_5(key),
    ensures
        spec_help_id(key).len() > 0,
        'a' <= spec_help_id(key)[0] && spec_help_id(key)[0] <= 'z',
        spec_help_english(key).len() > 0,
{
    match key {
        HelpKey::PaletteRecapture => {
            reveal_strlit("palette.recapture");
            reveal_strlit("Overwrite this palette with the current state of its channel.");
        },
        HelpKey::PaletteDelete => {
            reveal_strlit("palette.delete");
            reveal_strlit("Delete this palette and unlink it from any snapshots.");
        },
        HelpKey::PaletteLinkedOther => {
            reveal_strlit("palette.linked_other");
            reveal_strlit("Currently linked to: \"{name}\".");
        },
        HelpKey::SnapshotCaptureNow => {
            reveal_strlit("snapshot.capture_now");
            reveal_strlit("Capture the current console state into a new snapshot, filtered by the \
             scope above.");
        },
        HelpKey::SnapshotRecall => {
            reveal_strlit("snapshot.recall");
            reveal_strlit("Recall the selected snapshot to the console.");
        },
        HelpKey::SnapshotRecapture => {
            reveal_strlit("snapshot.recapture");
            reveal_strlit("Overwrite the selected snapshot with the current console state.");
        },
        HelpKey::SnapshotUndo => {
            reveal_strlit("snapshot.undo");
            reveal_strlit("Undo the last snapshot recall, restoring the previous values.");
        },
        HelpKey::SnapshotApplyScope => {
            reveal_strlit("snapshot.apply_scope");
            reveal_strlit("When the scope is applied: 'On save' stores only in-scope parameters; \
             'On recall' captures the whole console state and filters it on recall \
             (allowing 'Recall without scope').");
        },
        HelpKey::SnapshotQlabCreateTrigger => {
            reveal_strlit("snapshot.qlab_create_trigger");
            reveal_strlit("Create a single network cue in QLab whose customString fires \
             /snapshot/recall <name>. Sent to {target}.");
        },
        HelpKey::SnapshotQlabExportFull => {
            reveal_strlit("snapshot.qlab_export_full");
            reveal_strlit("Export one network cue per parameter to QLab (grouped). Sent to {target}.");
        },
        HelpKey::CueAdd => {
            reveal_strlit("cue.add");
            reveal_strlit("Add a new cue to the list from the fields above.");
        },
        HelpKey::CueSaveChanges => {
            reveal_strlit("cue.save_changes");
            reveal_strlit("Save the edits to the selected cue.");
        },
        HelpKey::ScopeTemplateLoad => {
            reveal_strlit("scope.template_load");
            reveal_strlit("Replace the current selection with the chosen scope template.");
        },
        HelpKey::ScopeTemplateSave => {
            reveal_strlit("scope.template_save");
            reveal_strlit("Save the current selection as a new scope template named on the left.");
        },
        HelpKey::MonitorPickerCancel => {
            reveal_strlit("monitor.picker_cancel");
            reveal_strlit("Discard changes and close without saving the profile.");
        },
        HelpKey::MonitorPickerSave => {
            reveal_strlit("monitor.picker_save");
            reveal_strlit("Save this monitoring profile and close.");
        },
        HelpKey::GangEnableToggle => {
            reveal_strlit("gang.enable_toggle");
            reveal_strlit("Enable or disable this gang. While off, moving a member doesn't \
             propagate to the others.");
        },
        HelpKey::GangPause => {
            reveal_strlit("gang.pause");
            reveal_strlit("Temporarily suspend propagation without unlinking — members keep \
             their grouping; moves stop mirroring until you resume.");
        },
        HelpKey::GangNeedsEnable => {
            reveal_strlit("gang.needs_enable");
            reveal_strlit("Enable the gang first to change its mode or pause it.");
        },
        HelpKey::GangRelative => {
            reveal_strlit("gang.relative");
            reveal_strlit("Relative mode: moving a member shifts the others by the same delta, \
             preserving their offsets.");
        },
        _ => {},
    }
}

spec fn entry_group_5(key: HelpKey) -> bool {
    match key {
        HelpKey::PaletteRecapture => true,
        HelpKey::PaletteDelete => true,
        HelpKey::PaletteLinkedOther => true,
        HelpKey::SnapshotCaptureNow => true,
        HelpKey::SnapshotRecall => true,
        HelpKey::SnapshotRecapture => true,
        HelpKey::SnapshotUndo => true,
        HelpKey::SnapshotApplyScope => true,
        HelpKey::SnapshotQlabCreateTrigger => true,
        HelpKey::SnapshotQlabExportFull => true,
        HelpKey::CueAdd => true,
        HelpKey::CueSaveChanges => true,
        HelpKey::ScopeTemplateLoad => true,
        HelpKey::ScopeTemplateSave => true,
        HelpKey::MonitorPickerCancel => true,
        HelpKey::MonitorPickerSave => true,
        HelpKey::GangEnableToggle => true,
        HelpKey::GangPause => true,
        HelpKey::GangNeedsEnable => true,
        HelpKey::GangRelative => true,
        _ => false,
    }
}

proof fn lemma_entries_nonempty_6(key: HelpKey)
    requires
        entry_group_6(key),
    ensures
        spec_help_id(key).len() > 0,
        'a' <= spec_help_id(key)[0] && spec_help_id(key)[0] <= 'z',
        spec_help_english(key).len() > 0,
{
    match key {
        HelpKey::GangAbsolute => {
            reveal_strlit("gang.absolute");
            reveal_strlit("Absolute mode: moving a member sets the others to the same value.");
        },
        HelpKey::GangPanOff => {
            reveal_strlit("gang.pan_off");
            reveal_strlit("Pan OFF: channel pan is not linked across this gang — only the \
             selected sections (fader/mute, EQ, etc.) propagate.");
        },
        HelpKey::GangPanOn => {
            reveal_strlit("gang.pan_on");
            reveal_strlit("Pan ON: channel pan is linked and follows the gang's Relative / \
             Absolute mode like any other parameter.");
        },
        HelpKey::GangPanReversed => {
            reveal_strlit("gang.pan_reversed");
            reveal_strlit("Pan REVERSED: the pair pans away from centre symmetrically — move \
             one channel right and its partner mirrors left. Needs exactly 2 members.");
        },
        HelpKey::GangEdit => {
            reveal_strlit("gang.edit");
            reveal_strlit("Load this gang into the editor below to change its members or linked \
             sections.");
        },
        HelpKey::ScopeModeScope => {
            reveal_strlit("scope.mode_scope");
            reveal_strlit("Edit which parameters each channel contributes to the scope.");
        },
        HelpKey::ScopeModePreWait => {
            reveal_strlit("scope.mode_pre_wait");
            reveal_strlit("Edit each parameter's pre-wait — the delay before it fires on recall.");
        },
        HelpKey::ScopeModeFade => {
            reveal_strlit("scope.mode_fade");
            reveal_strlit("Edit each parameter's fade time on recall.");
        },
        HelpKey::ScopeClearAll => {
            reveal_strlit("scope.clear_all");
            reveal_strlit("Clear the entire scope selection.");
        },
        HelpKey::ScopeClearChanges => {
            reveal_strlit("scope.clear_changes");
            reveal_strlit("Discard the highlighted live changes — clears the dirty markers only; \
             nothing is sent to the console.");
        },
        HelpKey::ScopeClearChangesDisabled => {
            reveal_strlit("scope.clear_changes_disabled");
            reveal_strlit("No unsent changes to clear.");
        },
        HelpKey::UiModeFull => {
            reveal_strlit("ui_mode.full");
            reveal_strlit("Full mode: every tab is shown — Snapshots, Macros, Gangs, Pan Link, \
             Monitor, Palettes.");
        },
        HelpKey::UiModeLiveMusic => {
            reveal_strlit("ui_mode.live_music");
            reveal_strlit("Live Music mode: hides Snapshots and the cue transport — for bands \
             working without a cue list.");
        },
        HelpKey::UiModeTheatre => {
            reveal_strlit("ui_mode.theatre");
            reveal_strlit("Theatre mode: cue-driven workflow; hides the Monitor tab.");
        },
        HelpKey::ConnModeMode1 => {
            reveal_strlit("conn_mode.mode1");
            reveal_strlit("Mode 1: GP OSC only — the open protocol, no iPad.");
        },
        HelpKey::ConnModeMode2 => {
            reveal_strlit("conn_mode.mode2");
            reveal_strlit("Mode 2: direct iPad protocol — the daemon talks to the console as an iPad.");
        },
        HelpKey::ConnModeMode3 => {
            reveal_strlit("conn_mode.mode3");
            reveal_strlit("Mode 3: iPad proxy — the daemon sits between a real iPad and the console.");
        },
        HelpKey::ConnModeDisabled => {
            reveal_strlit("conn_mode.disabled");
            reveal_strlit("Disconnect to change the connection mode.");
        },
        HelpKey::SetupNetwork => {
            reveal_strlit("setup.network");
            reveal_strlit("Local network interface the daemon binds to for OSC — pick the NIC on \
             the console's network, or All interfaces.");
        },
        HelpKey::SetupCoverage => {
            reveal_strlit("setup.coverage");
            reveal_strlit("Show which console parameters the daemon currently mirrors.");
        },
        _ => {},
    }
}

spec fn entry_group_6(key: HelpKey) -> bool {
    match key {
        HelpKey::GangAbsolute => true,
        HelpKey::GangPanOff => true,
        HelpKey::GangPanOn => true,
        HelpKey::GangPanReversed => true,
        HelpKey::GangEdit => true,
        HelpKey::ScopeModeScope => true,
        HelpKey::ScopeModePreWait => true,
        HelpKey::ScopeModeFade => true,
        HelpKey::ScopeClearAll => true,
        HelpKey::ScopeClearChanges => true,
        HelpKey::ScopeClearChangesDisabled => true,
        HelpKey::UiModeFull => true,
        HelpKey::UiModeLiveMusic => true,
        HelpKey::UiModeTheatre => true,
        HelpKey::ConnModeMode1 => true,
        HelpKey::ConnModeMode2 => true,
        HelpKey::ConnModeMode3 => true,
        HelpKey::ConnModeDisabled => true,
        HelpKey::SetupNetwork => true,
        HelpKey::SetupCoverage => true,
        _ => false,
    }
}

proof fn lemma_entries_nonempty_7(key: HelpKey)
    requires
        entry_group_7(key),
    ensures
        spec_help_id(key).len() > 0,
        'a' <= spec_help_id(key)[0] && spec_help_id(key)[0] <= 'z',
        spec_help_english(key).len() > 0,
{
    match key {
        HelpKey::SetupNewShow => {
            reveal_strlit("setup.new_show");
            reveal_strlit("Start a new, empty show — clears the current snapshots, macros, gangs \
             and palettes.");
        },
        HelpKey::PaletteChannelType => {
            reveal_strlit("palette.channel_type");
            reveal_strlit("Channel type to capture the palette from.");
        },
        HelpKey::PaletteChannelNumber => {
            reveal_strlit("palette.channel_number");
            reveal_strlit("Channel number to capture the palette from.");
        },
        HelpKey::PaletteName => {
            reveal_strlit("palette.name");
            reveal_strlit("Name for the new palette.");
        },
        HelpKey::PaletteInclude => {
            reveal_strlit("palette.include");
            reveal_strlit("Include this processing block (EQ / dynamics) when capturing the palette.");
        },
        HelpKey::PaletteRename => {
            reveal_strlit("palette.rename");
            reveal_strlit("Rename this palette — press Enter to apply, Escape to cancel.");
        },
        HelpKey::MonitorRipple => {
            reveal_strlit("monitor.ripple");
            reveal_strlit("Range-select inputs: click the first, then the last, to select \
             everything between them.");
        },
        HelpKey::MonitorRippleCancel => {
            reveal_strlit("monitor.ripple_cancel");
            reveal_strlit("Cancel the range selection.");
        },
        HelpKey::MonitorRippleConfirm => {
            reveal_strlit("monitor.ripple_confirm");
            reveal_strlit("Select every input between the two you picked.");
        },
        HelpKey::MonitorDeselectAll => {
            reveal_strlit("monitor.deselect_all");
            reveal_strlit("Clear the input selection.");
        },
        HelpKey::MonitorSelectAll => {
            reveal_strlit("monitor.select_all");
            reveal_strlit("Select every input.");
        },
        HelpKey::RecoveryLoad => {
            reveal_strlit("recovery.load");
            reveal_strlit("Load this backup / autosave copy into the show.");
        },
        HelpKey::RecoveryLoadInvalid => {
            reveal_strlit("recovery.load_invalid");
            reveal_strlit("This copy is corrupt and can't be loaded.");
        },
        HelpKey::RecoverySaveOriginal => {
            reveal_strlit("recovery.save_original");
            reveal_strlit("Write the recovered show back to the original file path.");
        },
        HelpKey::RecoveryCancel => {
            reveal_strlit("recovery.cancel");
            reveal_strlit("Close without recovering.");
        },
        HelpKey::PanLinkClearSelection => {
            reveal_strlit("panlink.clear_selection");
            reveal_strlit("Clear the selected input channels.");
        },
        HelpKey::RecallScopePrevChannel => {
            reveal_strlit("recall_scope.prev_channel");
            reveal_strlit("Previous channel.");
        },
        HelpKey::RecallScopeNextChannel => {
            reveal_strlit("recall_scope.next_channel");
            reveal_strlit("Next channel.");
        },
        HelpKey::SnapshotEditScope => {
            reveal_strlit("snapshot.edit_scope");
            reveal_strlit("Open the scope editor to choose which parameters this snapshot \
             captures or recalls.");
        },
        HelpKey::SnapshotClearScope => {
            reveal_strlit("snapshot.clear_scope");
            reveal_strlit("Clear the scope selection.");
        },
        _ => {},
    }
}

spec fn entry_group_7(key: HelpKey) -> bool {
    match key {
        HelpKey::SetupNewShow => true,
        HelpKey::PaletteChannelType => true,
        HelpKey::PaletteChannelNumber => true,
        HelpKey::PaletteName => true,
        HelpKey::PaletteInclude => true,
        HelpKey::PaletteRename => true,
        HelpKey::MonitorRipple => true,
        HelpKey::MonitorRippleCancel => true,
        HelpKey::MonitorRippleConfirm => true,
        HelpKey::MonitorDeselectAll => true,
        HelpKey::MonitorSelectAll => true,
        HelpKey::RecoveryLoad => true,
        HelpKey::RecoveryLoadInvalid => true,
        HelpKey::RecoverySaveOriginal => true,
        HelpKey::RecoveryCancel => true,
        HelpKey::PanLinkClearSelection => true,
        HelpKey::RecallScopePrevChannel => true,
        HelpKey::RecallScopeNextChannel => true,
        HelpKey::SnapshotEditScope => true,
        HelpKey::SnapshotClearScope => true,
        _ => false,
    }
}

proof fn lemma_entries_nonempty_8(key: HelpKey)
    requires
        entry_group_8(key),
    ensures
        spec_help_id(key).len() > 0,
        'a' <= spec_help_id(key)[0] && spec_help_id(key)[0] <= 'z',
        spec_help_english(key).len() > 0,
{
    match key {
        HelpKey::CueNumber => {
            reveal_strlit("cue.number");
            reveal_strlit("Cue number — orders the cue list (e.g. 1, 2.5).");
        },
        HelpKey::CueName => {
            reveal_strlit("cue.name");
            reveal_strlit("Optional name for the cue.");
        },
        HelpKey::CueConsoleRow => {
            reveal_strlit("cue.console_row");
            reveal_strlit("Console snapshot row to recall on the desk (iPad-protocol modes).");
        },
        HelpKey::SnapshotScopeOverride => {
            reveal_strlit("snapshot.scope_override");
            reveal_strlit("Recall this cue with a different scope than the snapshot's own.");
        },
        HelpKey::SnapshotScopeOverrideTemplate => {
            reveal_strlit("snapshot.scope_override_template");
            reveal_strlit("Scope template to apply when recalling this cue.");
        },
        HelpKey::SnapshotPicker => {
            reveal_strlit("snapshot.picker");
            reveal_strlit("Choose which app snapshot this cue recalls (type to filter).");
        },
        HelpKey::ShiftApply => {
            reveal_strlit("shift.apply");
            reveal_strlit("Apply the row shift to every matching cue.");
        },
        HelpKey::ShiftClose => {
            reveal_strlit("shift.close");
            reveal_strlit("Close without shifting.");
        },
        HelpKey::ShiftFromRow => {
            reveal_strlit("shift.from_row");
            reveal_strlit("Shift cues whose console snapshot row is at or above this number.");
        },
        HelpKey::ShiftDelta => {
            reveal_strlit("shift.delta");
            reveal_strlit("Amount to add to each matching row — negative shifts down; rows \
             reaching 0 are cleared.");
        },
        HelpKey::ScopeTemplateCombo => {
            reveal_strlit("scope.template_combo");
            reveal_strlit("Pick a saved scope template to load, update, or delete.");
        },
        HelpKey::GangChannelType => {
            reveal_strlit("gang.channel_type");
            reveal_strlit("Channel type for the gang's members.");
        },
        HelpKey::GangNewName => {
            reveal_strlit("gang.new_name");
            reveal_strlit("Name for the new gang.");
        },
        HelpKey::GangNewMembers => {
            reveal_strlit("gang.new_members");
            reveal_strlit("Channels to include — range notation like 1-4,7,12 (or I1-4,A1-2,G5 \
             for mixed types).");
        },
        HelpKey::GangSave => {
            reveal_strlit("gang.save");
            reveal_strlit("Create the gang from the fields above — saves edits when editing an \
             existing gang.");
        },
        HelpKey::GangCancelEdit => {
            reveal_strlit("gang.cancel_edit");
            reveal_strlit("Cancel editing and clear the form.");
        },
        HelpKey::MacroNewName => {
            reveal_strlit("macro.new_name");
            reveal_strlit("Name for the new macro.");
        },
        HelpKey::MacroCreate => {
            reveal_strlit("macro.create");
            reveal_strlit("Create a new empty macro with the name on the left.");
        },
        HelpKey::MacroRun => {
            reveal_strlit("macro.run");
            reveal_strlit("Run the selected macro now — fires its steps in order.");
        },
        HelpKey::MacroLearnStopSave => {
            reveal_strlit("macro.learn_stop_save");
            reveal_strlit("Stop recording and save the captured steps as a new macro.");
        },
        _ => {},
    }
}

spec fn entry_group_8(key: HelpKey) -> bool {
    match key {
        HelpKey::CueNumber => true,
        HelpKey::CueName => true,
        HelpKey::CueConsoleRow => true,
        HelpKey::SnapshotScopeOverride => true,
        HelpKey::SnapshotScopeOverrideTemplate => true,
        HelpKey::SnapshotPicker => true,
        HelpKey::ShiftApply => true,
        HelpKey::ShiftClose => true,
        HelpKey::ShiftFromRow => true,
        HelpKey::ShiftDelta => true,
        HelpKey::ScopeTemplateCombo => true,
        HelpKey::GangChannelType => true,
        HelpKey::GangNewName => true,
        HelpKey::GangNewMembers => true,
        HelpKey::GangSave => true,
        HelpKey::GangCancelEdit => true,
        HelpKey::MacroNewName => true,
        HelpKey::MacroCreate => true,
        HelpKey::MacroRun => true,
        HelpKey::MacroLearnStopSave => true,
        _ => false,
    }
}

proof fn lemma_entries_nonempty_9(key: HelpKey)
    requires
        entry_group_9(key),
    ensures
        spec_help_id(key).len() > 0,
        'a' <= spec_help_id(key)[0] && spec_help_id(key)[0] <= 'z',
        spec_help_english(key).len() > 0,
{
    match key {
        HelpKey::MacroLearnDiscard => {
            reveal_strlit("macro.learn_discard");
            reveal_strlit("Stop recording and discard the captured steps.");
        },
        HelpKey::MacroRename => {
            reveal_strlit("macro.rename");
            reveal_strlit("Rename this macro — edits apply immediately to the list and any Stream Deck labels.");
        },
        HelpKey::MacroTrackDirty => {
            reveal_strlit("macro.track_dirty");
            reveal_strlit("Treat this macro's parameters as modified — its writes mark the affected \
             parameters dirty so auto-update can capture them into snapshots.");
        },
        HelpKey::MacroAddStepKind => {
            reveal_strlit("macro.add_step_kind");
            reveal_strlit("Choose what this step does — write a parameter, drive a cue / connection, \
             run another macro, recall a snapshot or palette, or send a QLab command.");
        },
        HelpKey::MacroAddStepCommit => {
            reveal_strlit("macro.add_step_commit");
            reveal_strlit("Append a new step to the macro from the fields on this row.");
        },
        HelpKey::MacroStepMode => {
            reveal_strlit("macro.step_mode");
            reveal_strlit("How the value is applied: Toggle flips on/off, Fixed sets an absolute value, \
             Relative adds an offset to the live value.");
        },
        HelpKey::MacroStepValue => {
            reveal_strlit("macro.step_value");
            reveal_strlit("Value written by this step — an absolute value in Fixed mode, an offset in Relative mode.");
        },
        HelpKey::MacroStepDelay => {
            reveal_strlit("macro.step_delay");
            reveal_strlit("Delay in milliseconds before this step fires during playback.");
        },
        HelpKey::MacroWizardChannelType => {
            reveal_strlit("macro.wizard_channel_type");
            reveal_strlit("Channel type this parameter step targets.");
        },
        HelpKey::MacroWizardChannelNumber => {
            reveal_strlit("macro.wizard_channel_number");
            reveal_strlit("Channel number this parameter step targets.");
        },
        HelpKey::MacroWizardSection => {
            reveal_strlit("macro.wizard_section");
            reveal_strlit("Processing section (fader, EQ, dynamics, sends, …) the parameter lives in.");
        },
        HelpKey::MacroWizardParameter => {
            reveal_strlit("macro.wizard_parameter");
            reveal_strlit("Specific parameter within the chosen section that this step writes.");
        },
        HelpKey::MacroTargetMacro => {
            reveal_strlit("macro.target_macro");
            reveal_strlit("Macro this step runs when fired.");
        },
        HelpKey::MacroTargetSnapshot => {
            reveal_strlit("macro.target_snapshot");
            reveal_strlit("Snapshot this step recalls when fired.");
        },
        HelpKey::MacroTargetPalette => {
            reveal_strlit("macro.target_palette");
            reveal_strlit("Palette this step recalls when fired.");
        },
        HelpKey::MacroPaletteChannelType => {
            reveal_strlit("macro.palette_channel_type");
            reveal_strlit("Channel type to apply the recalled palette to.");
        },
        HelpKey::MacroPaletteChannelNumber => {
            reveal_strlit("macro.palette_channel_number");
            reveal_strlit("Channel number to apply the recalled palette to.");
        },
        HelpKey::StreamDeckDevice => {
            reveal_strlit("streamdeck.device");
            reveal_strlit("Pick the Stream Deck to control, or a template to edit a button map offline.");
        },
        HelpKey::StreamDeckButtonMacro => {
            reveal_strlit("streamdeck.button_macro");
            reveal_strlit("Macro to add as the next step for the selected button.");
        },
        HelpKey::StreamDeckAddStep => {
            reveal_strlit("streamdeck.add_step");
            reveal_strlit("Add the chosen macro as a step on the selected button.");
        },
        _ => {},
    }
}

spec fn entry_group_9(key: HelpKey) -> bool {
    match key {
        HelpKey::MacroLearnDiscard => true,
        HelpKey::MacroRename => true,
        HelpKey::MacroTrackDirty => true,
        HelpKey::MacroAddStepKind => true,
        HelpKey::MacroAddStepCommit => true,
        HelpKey::MacroStepMode => true,
        HelpKey::MacroStepValue => true,
        HelpKey::MacroStepDelay => true,
        HelpKey::MacroWizardChannelType => true,
        HelpKey::MacroWizardChannelNumber => true,
        HelpKey::MacroWizardSection => true,
        HelpKey::MacroWizardParameter => true,
        HelpKey::MacroTargetMacro => true,
        HelpKey::MacroTargetSnapshot => true,
        HelpKey::MacroTargetPalette => true,
        HelpKey::MacroPaletteChannelType => true,
        HelpKey::MacroPaletteChannelNumber => true,
        HelpKey::StreamDeckDevice => true,
        HelpKey::StreamDeckButtonMacro => true,
        HelpKey::StreamDeckAddStep => true,
        _ => false,
    }
}

/// Every catalog entry is usable: its id is non-empty, starts with a
/// lower-case ASCII letter and so is not the reserved `_name` key of
/// translation files, and its English text is non-empty.
pub proof fn law_help_entries_nonempty(key: HelpKey)
    ensures
        spec_help_id(key).len() > 0,
        'a' <= spec_help_id(key)[0] && spec_help_id(key)[0] <= 'z',
        spec_help_id(key) != "_name"@,
        spec_help_english(key).len() > 0,
{
    reveal_strlit("_name");
    if entry_group_0(key) {
        lemma_entries_nonempty_0(key);
    }
    if entry_group_1(key) {
        lemma_entries_nonempty_1(key);
    }
    if entry_group_2(key) {
        lemma_entries_nonempty_2(key);
    }
    if entry_group_3(key) {
        lemma_entries_nonempty_3(key);
    }
    if entry_group_4(key) {
        lemma_entries_nonempty_4(key);
    }
    if entry_group_5(key) {
        lemma_entries_nonempty_5(key);
    }
    if entry_group_6(key) {
        lemma_entries_nonempty_6(key);
    }
    if entry_group_7(key) {
        lemma_entries_nonempty_7(key);
    }
    if entry_group_8(key) {
        lemma_entries_nonempty_8(key);
    }
    if entry_group_9(key) {
        lemma_entries_nonempty_9(key);
    }
    assert(spec_help_id(key)[0] != "_name"@[0]);
}

/// The catalog's `(id, English text)` pairs in id order.
pub open spec fn spec_entries_in_id_order() -> Seq<(Seq<char>, Seq<char>)> {
    Seq::new(200, |r: int| (spec_help_id(key_at_rank(r as u8)), spec_help_english(key_at_rank(r as u8))))
}

/// The keys of `m` strictly increase in code-point order.
pub open spec fn keys_increasing(m: Seq<(Seq<char>, Seq<char>)>) -> bool {
    forall|i: int, j: int| 0 <= i < j < m.len() ==> lex_lt(#[trigger] m[i].0, #[trigger] m[j].0)
}

/// Keys that strictly increase are pairwise different.
pub proof fn lemma_increasing_keys_differ(m: Seq<(Seq<char>, Seq<char>)>, i: int, j: int)
    requires
        keys_increasing(m),
        0 <= i < j < m.len(),
    ensures
        m[i].0 != m[j].0,
{
    lemma_lex_lt_ne(m[i].0, m[j].0);
}

/// `_name` (with any text) followed by the catalog in id order has strictly
/// increasing keys: `_` sorts before the lower-case letter every id starts
/// with.
pub proof fn lemma_template_keys_increasing(name_text: Seq<char>)
    ensures
        keys_increasing(seq![("_name"@, name_text)] + spec_entries_in_id_order()),
{
    let m = seq![("_name"@, name_text)] + spec_entries_in_id_order();
    reveal_strlit("_name");
    assert forall|i: int, j: int| 0 <= i < j < m.len() implies lex_lt(#[trigger] m[i].0, #[trigger] m[j].0) by {
        let kj = key_at_rank((j - 1) as u8);
        assert(m[j] == spec_entries_in_id_order()[j - 1]);
        if i == 0 {
            law_help_entries_nonempty(kj);
            assert(lex_lt_at(m[i].0, m[j].0, 0));
        } else {
            assert(m[i] == spec_entries_in_id_order()[i - 1]);
            lemma_sorted_ids((i - 1) as u8, (j - 1) as u8);
        }
    }
}


} // verus!
