//! Macro editing: the Add Step choices, step descriptions, step-list edits
//! and the Stream Deck colour swatches.

use vstd::prelude::*;
use crate::channel::{ChannelId, channel_number, kind_code, kind_index, spec_channel_number};
use crate::gangs::kind_word;
use crate::ids::{id_text, spec_id_text};
use crate::model::{MacroStep, MacroStepKind, MacroStepMode, step_address};
use crate::state::ParameterAddress;
use crate::text::{chars_of, dec_digits, push_chars, push_decimal, push_str, string_from_chars};

verus! {

/// Channel kinds offered by the Add Step form.
#[derive(Clone, Copy, Debug, PartialEq, Eq, Structural)]
pub enum ChannelTypeChoice {
    Input,
    Aux,
    Group,
    Matrix,
    ControlGroup,
}

impl ChannelTypeChoice {
    pub fn label(&self) -> (s: &'static str)
        ensures
            s@ == (match *self {
                ChannelTypeChoice::Input => "Input"@,
                ChannelTypeChoice::Aux => "Aux"@,
                ChannelTypeChoice::Group => "Group"@,
                ChannelTypeChoice::Matrix => "Matrix"@,
                ChannelTypeChoice::ControlGroup => "CG"@,
            }),
    {
        match self {
            ChannelTypeChoice::Input => "Input",
            ChannelTypeChoice::Aux => "Aux",
            ChannelTypeChoice::Group => "Group",
            ChannelTypeChoice::Matrix => "Matrix",
            ChannelTypeChoice::ControlGroup => "CG",
        }
    }

    /// The channel of this kind with number `num`.
    pub fn to_channel_id(&self, num: u16) -> (ch: ChannelId)
        ensures
            ch == (match *self {
                ChannelTypeChoice::Input => ChannelId::Input(num),
                ChannelTypeChoice::Aux => ChannelId::Aux(num),
                ChannelTypeChoice::Group => ChannelId::Group(num),
                ChannelTypeChoice::Matrix => ChannelId::Matrix(num),
                ChannelTypeChoice::ControlGroup => ChannelId::ControlGroup(num),
            }),
    {
        match self {
            ChannelTypeChoice::Input => ChannelId::Input(num),
            ChannelTypeChoice::Aux => ChannelId::Aux(num),
            ChannelTypeChoice::Group => ChannelId::Group(num),
            ChannelTypeChoice::Matrix => ChannelId::Matrix(num),
            ChannelTypeChoice::ControlGroup => ChannelId::ControlGroup(num),
        }
    }

    /// Split a channel into `(kind, number)` for the dropdown pair; Graphic
    /// EQ and Matrix Input channels have no choice and read as `Input`.
    pub fn from_channel_id(channel: &ChannelId) -> (r: (ChannelTypeChoice, u16))
        ensures
            r.1 == spec_channel_number(*channel),
            r.0 == (match *channel {
                ChannelId::Aux(_) => ChannelTypeChoice::Aux,
                ChannelId::Group(_) => ChannelTypeChoice::Group,
                ChannelId::Matrix(_) => ChannelTypeChoice::Matrix,
                ChannelId::ControlGroup(_) => ChannelTypeChoice::ControlGroup,
                _ => ChannelTypeChoice::Input,
            }),
    {
        match channel {
            ChannelId::Input(n) => (ChannelTypeChoice::Input, *n),
            ChannelId::Aux(n) => (ChannelTypeChoice::Aux, *n),
            ChannelId::Group(n) => (ChannelTypeChoice::Group, *n),
            ChannelId::Matrix(n) => (ChannelTypeChoice::Matrix, *n),
            ChannelId::ControlGroup(n) => (ChannelTypeChoice::ControlGroup, *n),
            ChannelId::GraphicEq(n) => (ChannelTypeChoice::Input, *n),
            ChannelId::MatrixInput(n) => (ChannelTypeChoice::Input, *n),
        }
    }
}

/// Top-level step kinds offered by the Add Step form.
#[derive(Clone, Copy, Debug, PartialEq, Eq, Structural)]
pub enum AddStepKindChoice {
    Parameter,
    GoNextCue,
    GoPreviousCue,
    Connect,
    Disconnect,
    FireMacro,
    RecallSnapshot,
    RecallPalette,
    QLabGo,
    QLabGoCue,
    QLabPanic,
    QLabStop,
    QLabPause,
    QLabResume,
}

pub open spec fn spec_add_step_label(k: AddStepKindChoice) -> Seq<char> {
    match k {
        AddStepKindChoice::Parameter => "Parameter"@,
        AddStepKindChoice::GoNextCue => "Go (next cue)"@,
        AddStepKindChoice::GoPreviousCue => "Go Back (previous cue)"@,
        AddStepKindChoice::Connect => "Connect"@,
        AddStepKindChoice::Disconnect => "Disconnect"@,
        AddStepKindChoice::FireMacro => "Run Macro"@,
        AddStepKindChoice::RecallSnapshot => "Recall Snapshot"@,
        AddStepKindChoice::RecallPalette => "Recall Palette"@,
        AddStepKindChoice::QLabGo => "QLab Go"@,
        AddStepKindChoice::QLabGoCue => "QLab Go Cue #"@,
        AddStepKindChoice::QLabPanic => "QLab Panic"@,
        AddStepKindChoice::QLabStop => "QLab Stop"@,
        AddStepKindChoice::QLabPause => "QLab Pause"@,
        AddStepKindChoice::QLabResume => "QLab Resume"@,
    }
}

impl AddStepKindChoice {
    pub fn label(&self) -> (s: &'static str)
        ensures
            s@ == spec_add_step_label(*self),
    {
        match self {
            AddStepKindChoice::Parameter => "Parameter",
            AddStepKindChoice::GoNextCue => "Go (next cue)",
            AddStepKindChoice::GoPreviousCue => "Go Back (previous cue)",
            AddStepKindChoice::Connect => "Connect",
            AddStepKindChoice::Disconnect => "Disconnect",
            AddStepKindChoice::FireMacro => "Run Macro",
            AddStepKindChoice::RecallSnapshot => "Recall Snapshot",
            AddStepKindChoice::RecallPalette => "Recall Palette",
            AddStepKindChoice::QLabGo => "QLab Go",
            AddStepKindChoice::QLabGoCue => "QLab Go Cue #",
            AddStepKindChoice::QLabPanic => "QLab Panic",
            AddStepKindChoice::QLabStop => "QLab Stop",
            AddStepKindChoice::QLabPause => "QLab Pause",
            AddStepKindChoice::QLabResume => "QLab Resume",
        }
    }
}

/// Step mode choices.
#[derive(Clone, Copy, Debug, PartialEq, Eq, Structural)]
pub enum StepModeChoice {
    Toggle,
    Fixed,
    Relative,
}

impl StepModeChoice {
    pub fn label(&self) -> (s: &'static str)
        ensures
            s@ == (match *self {
                StepModeChoice::Toggle => "Toggle"@,
                StepModeChoice::Fixed => "Fixed"@,
                StepModeChoice::Relative => "Relative"@,
            }),
    {
        match self {
            StepModeChoice::Toggle => "Toggle",
            StepModeChoice::Fixed => "Fixed",
            StepModeChoice::Relative => "Relative",
        }
    }

    /// The choice matching a step mode.
    pub fn from_mode(mode: &MacroStepMode) -> (c: StepModeChoice)
        ensures
            c == (match *mode {
                MacroStepMode::Toggle => StepModeChoice::Toggle,
                MacroStepMode::Fixed(_) => StepModeChoice::Fixed,
                MacroStepMode::Relative(_) => StepModeChoice::Relative,
            }),
    {
        match mode {
            MacroStepMode::Toggle => StepModeChoice::Toggle,
            MacroStepMode::Fixed(_) => StepModeChoice::Fixed,
            MacroStepMode::Relative(_) => StepModeChoice::Relative,
        }
    }
}

/// A channel's label: its kind word and number, e.g. `"Input 3"`.
pub open spec fn spec_channel_label(ch: ChannelId) -> Seq<char> {
    kind_word(kind_index(ch)) + seq![' '] + dec_digits(spec_channel_number(ch) as nat)
}

fn push_channel_label(out: &mut Vec<char>, ch: &ChannelId)
    ensures
        final(out)@ == old(out)@ + spec_channel_label(*ch),
{
    let k = kind_code(ch);
    if k == 0 {
        push_str(out, "Input");
    } else if k == 1 {
        push_str(out, "Aux");
    } else if k == 2 {
        push_str(out, "Group");
    } else if k == 3 {
        push_str(out, "Mtx");
    } else if k == 4 {
        push_str(out, "CG");
    } else if k == 5 {
        push_str(out, "GEQ");
    } else {
        push_str(out, "MtxIn");
    }
    out.push(' ');
    push_decimal(out, channel_number(ch) as u64);
    proof {
        assert(old(out)@ + kind_word(kind_index(*ch)) + seq![' '] + dec_digits(spec_channel_number(*ch) as nat)
            =~= old(out)@ + spec_channel_label(*ch));
    }
}

/// Compact label for a macro step kind (app actions show their target).
pub open spec fn spec_describe_step_kind(k: MacroStepKind) -> Seq<char> {
    match k {
        MacroStepKind::Parameter { .. } => "Parameter"@,
        MacroStepKind::GoNextCue => "Go (next cue)"@,
        MacroStepKind::GoPreviousCue => "Go Back (previous cue)"@,
        MacroStepKind::Connect => "Connect to console"@,
        MacroStepKind::Disconnect => "Disconnect from console"@,
        MacroStepKind::FireMacro { id } => "Run Macro "@ + spec_id_text(id),
        MacroStepKind::RecallSnapshot { id } => "Recall Snapshot "@ + spec_id_text(id),
        MacroStepKind::RecallPalette { id, channel } => "Recall Palette "@ + spec_id_text(id) + " on "@
            + spec_channel_label(channel),
        MacroStepKind::QLabGo => "QLab Go"@,
        MacroStepKind::QLabGoCue { cue_number } => "QLab Go Cue #"@ + cue_number@,
        MacroStepKind::QLabPanic => "QLab Panic"@,
        MacroStepKind::QLabStop => "QLab Stop"@,
        MacroStepKind::QLabPause => "QLab Pause"@,
        MacroStepKind::QLabResume => "QLab Resume"@,
    }
}

pub fn describe_step_kind(kind: &MacroStepKind) -> (r: String)
    ensures
        r@ == spec_describe_step_kind(*kind),
{
    let mut out: Vec<char> = Vec::new();
    match kind {
        MacroStepKind::Parameter { .. } => push_str(&mut out, "Parameter"),
        MacroStepKind::GoNextCue => push_str(&mut out, "Go (next cue)"),
        MacroStepKind::GoPreviousCue => push_str(&mut out, "Go Back (previous cue)"),
        MacroStepKind::Connect => push_str(&mut out, "Connect to console"),
        MacroStepKind::Disconnect => push_str(&mut out, "Disconnect from console"),
        MacroStepKind::FireMacro { id } => {
            push_str(&mut out, "Run Macro ");
            push_chars(&mut out, &id_text(*id));
        },
        MacroStepKind::RecallSnapshot { id } => {
            push_str(&mut out, "Recall Snapshot ");
            push_chars(&mut out, &id_text(*id));
        },
        MacroStepKind::RecallPalette { id, channel } => {
            push_str(&mut out, "Recall Palette ");
            push_chars(&mut out, &id_text(*id));
            push_str(&mut out, " on ");
            push_channel_label(&mut out, channel);
        },
        MacroStepKind::QLabGo => push_str(&mut out, "QLab Go"),
        MacroStepKind::QLabGoCue { cue_number } => {
            push_str(&mut out, "QLab Go Cue #");
            push_str(&mut out, cue_number.as_str());
        },
        MacroStepKind::QLabPanic => push_str(&mut out, "QLab Panic"),
        MacroStepKind::QLabStop => push_str(&mut out, "QLab Stop"),
        MacroStepKind::QLabPause => push_str(&mut out, "QLab Pause"),
        MacroStepKind::QLabResume => push_str(&mut out, "QLab Resume"),
    }
    string_from_chars(&out)
}

/// An RGB colour for a Stream Deck step.
#[derive(Clone, Copy, Debug, PartialEq, Eq, Structural)]
pub struct StepColor {
    pub r: u8,
    pub g: u8,
    pub b: u8,
}

impl StepColor {
    pub fn new(r: u8, g: u8, b: u8) -> (c: StepColor)
        ensures
            c == (StepColor { r, g, b }),
    {
        StepColor { r, g, b }
    }
}

/// The eleven standard swatches: black, white, then the rainbow.
pub open spec fn spec_standard_swatches() -> Seq<(StepColor, Seq<char>)> {
    seq![
        (StepColor { r: 0, g: 0, b: 0 }, "Black"@),
        (StepColor { r: 255, g: 255, b: 255 }, "White"@),
        (StepColor { r: 255, g: 0, b: 0 }, "Red"@),
        (StepColor { r: 255, g: 140, b: 0 }, "Orange"@),
        (StepColor { r: 255, g: 230, b: 0 }, "Yellow"@),
        (StepColor { r: 0, g: 200, b: 0 }, "Green"@),
        (StepColor { r: 0, g: 200, b: 200 }, "Cyan"@),
        (StepColor { r: 0, g: 90, b: 255 }, "Blue"@),
        (StepColor { r: 75, g: 0, b: 200 }, "Indigo"@),
        (StepColor { r: 170, g: 0, b: 255 }, "Violet"@),
        (StepColor { r: 255, g: 0, b: 200 }, "Magenta"@),
    ]
}

pub fn standard_swatches() -> (v: Vec<(StepColor, &'static str)>)
    ensures
        v@.map_values(|e: (StepColor, &'static str)| (e.0, e.1@)) == spec_standard_swatches(),
{
    let v = vec![
        (StepColor::new(0, 0, 0), "Black"),
        (StepColor::new(255, 255, 255), "White"),
        (StepColor::new(255, 0, 0), "Red"),
        (StepColor::new(255, 140, 0), "Orange"),
        (StepColor::new(255, 230, 0), "Yellow"),
        (StepColor::new(0, 200, 0), "Green"),
        (StepColor::new(0, 200, 200), "Cyan"),
        (StepColor::new(0, 90, 255), "Blue"),
        (StepColor::new(75, 0, 200), "Indigo"),
        (StepColor::new(170, 0, 255), "Violet"),
        (StepColor::new(255, 0, 200), "Magenta"),
    ];
    assert(v@.map_values(|e: (StepColor, &'static str)| (e.0, e.1@)) =~= spec_standard_swatches());
    v
}

/// "Save swatch": add `current` to the user swatches unless already there.
/// Returns whether the list changed.
pub fn save_user_swatch(user: &mut Vec<StepColor>, current: StepColor) -> (changed: bool)
    ensures
        changed == !old(user)@.contains(current),
        changed ==> final(user)@ == old(user)@.push(current),
        !changed ==> final(user)@ == old(user)@,
{
    let mut k: usize = 0;
    while k < user.len()
        invariant
            k <= user@.len(),
            user@ == old(user)@,
            forall|j: int| 0 <= j < k ==> user@[j] != current,
        decreases user@.len() - k,
    {
        if user[k] == current {
            return false;
        }
        k = k + 1;
    }
    user.push(current);
    true
}

/// Right-click on user swatch `i`: remove it.
pub fn remove_user_swatch(user: &mut Vec<StepColor>, i: usize)
    requires
        i < old(user)@.len(),
    ensures
        final(user)@ == old(user)@.remove(i as int),
{
    user.remove(i);
}


/// A channel's label names its kind with that kind's own word, then its
/// number: `Aux 3` for aux 3, `Input 3` for input 3, and so on for all seven
/// kinds.
pub proof fn law_channel_label_names_its_kind(n: u16)
    ensures
        spec_channel_label(ChannelId::Input(n)) == "Input"@ + seq![' '] + dec_digits(n as nat),
        spec_channel_label(ChannelId::Aux(n)) == "Aux"@ + seq![' '] + dec_digits(n as nat),
        spec_channel_label(ChannelId::Group(n)) == "Group"@ + seq![' '] + dec_digits(n as nat),
        spec_channel_label(ChannelId::Matrix(n)) == "Mtx"@ + seq![' '] + dec_digits(n as nat),
        spec_channel_label(ChannelId::ControlGroup(n)) == "CG"@ + seq![' '] + dec_digits(n as nat),
        spec_channel_label(ChannelId::GraphicEq(n)) == "GEQ"@ + seq![' '] + dec_digits(n as nat),
        spec_channel_label(ChannelId::MatrixInput(n)) == "MtxIn"@ + seq![' '] + dec_digits(n as nat),
{
}

} // verus!
