//! Editing a macro's step list from the step editor: reorder, delete,
//! keep-only, mode and delay edits, the per-row edit buffers, and building a
//! new step from the Add Step form.

use vstd::prelude::*;
use crate::macros::{AddStepKindChoice, ChannelTypeChoice, StepModeChoice};
use crate::model::{MacroDef, MacroStep, MacroStepKind, MacroStepMode, keep_only_spec, step_address};
use crate::seqs::swap_adjacent;
use crate::state::{ParameterAddress, ParameterPath, ParameterValue};
use crate::text::{chars_of, dec_digits, parse_u32, parse_u8, push_decimal, spec_parse_uint, string_from_chars, trim, trim_chars};

verus! {

/// An edit requested from the step editor, applied after the frame's
/// drawing.
pub enum StepAction {
    MoveUp(usize),
    MoveDown(usize),
    Delete(usize),
    /// Set the mode of the parameter step at this index.
    UpdateMode(usize, MacroStepMode),
    /// The delay text typed for the step at this index.
    UpdateDelay(usize, String),
    /// Keep only this step for its (channel, parameter).
    KeepOnly(usize),
}

/// Exchange positions `i` and `i + 1` of `s`.
pub open spec fn swapped<A>(s: Seq<A>, i: int) -> Seq<A> {
    s.update(i, s[i + 1]).update(i + 1, s[i])
}

/// The step list after an action: out-of-range positions change nothing;
/// a mode edit applies to parameter steps only; an unparseable delay keeps
/// the old delay.
pub open spec fn spec_apply_step_action(steps: Seq<MacroStep>, action: StepAction) -> Seq<MacroStep> {
    match action {
        StepAction::MoveUp(i) => if 0 < i < steps.len() { swapped(steps, i - 1) } else { steps },
        StepAction::MoveDown(i) => if i + 1 < steps.len() { swapped(steps, i as int) } else { steps },
        StepAction::Delete(i) => if i < steps.len() { steps.remove(i as int) } else { steps },
        StepAction::UpdateMode(i, m) => if i < steps.len() {
            match steps[i as int].kind {
                MacroStepKind::Parameter { address, .. } => steps.update(
                    i as int,
                    MacroStep { kind: MacroStepKind::Parameter { address, mode: m }, delay_ms: steps[i as int].delay_ms },
                ),
                _ => steps,
            }
        } else {
            steps
        },
        StepAction::UpdateDelay(i, text) => if i < steps.len() {
            steps.update(
                i as int,
                MacroStep {
                    kind: steps[i as int].kind,
                    delay_ms: match spec_parse_uint(text@, u32::MAX as nat) {
                        Some(v) => v as u32,
                        None => steps[i as int].delay_ms,
                    },
                },
            )
        } else {
            steps
        },
        StepAction::KeepOnly(i) => if i < steps.len() {
            match step_address(steps[i as int]) {
                Some(a) => keep_only_spec(steps, i as int, a),
                None => steps,
            }
        } else {
            steps
        },
    }
}

impl MacroDef {
    /// Apply a step-editor action to this macro's steps.
    pub fn apply_step_action(&mut self, action: StepAction)
        ensures
            final(self).id == old(self).id,
            final(self).name == old(self).name,
            final(self).steps@ == spec_apply_step_action(old(self).steps@, action),
    {
        match action {
            StepAction::MoveUp(i) => {
                if i > 0 && i < self.steps.len() {
                    swap_adjacent(&mut self.steps, i - 1);
                }
            },
            StepAction::MoveDown(i) => {
                if i < self.steps.len() && i + 1 < self.steps.len() {
                    swap_adjacent(&mut self.steps, i);
                }
            },
            StepAction::Delete(i) => {
                if i < self.steps.len() {
                    self.steps.remove(i);
                }
            },
            StepAction::UpdateMode(i, m) => {
                if i < self.steps.len() {
                    let is_param = match &self.steps[i].kind {
                        MacroStepKind::Parameter { .. } => true,
                        _ => false,
                    };
                    if is_param {
                        let step = self.steps.remove(i);
                        let delay_ms = step.delay_ms;
                        let new_step = match step.kind {
                            MacroStepKind::Parameter { address, .. } => MacroStep {
                                kind: MacroStepKind::Parameter { address, mode: m },
                                delay_ms,
                            },
                            other => MacroStep { kind: other, delay_ms },
                        };
                        self.steps.insert(i, new_step);
                        proof {
                            assert(self.steps@ =~= spec_apply_step_action(old(self).steps@, action));
                        }
                    }
                }
            },
            StepAction::UpdateDelay(i, text) => {
                if i < self.steps.len() {
                    let parsed = parse_u32(text.as_str());
                    let step = self.steps.remove(i);
                    let delay_ms = match parsed {
                        Some(v) => v,
                        None => step.delay_ms,
                    };
                    self.steps.insert(i, MacroStep { kind: step.kind, delay_ms });
                    proof {
                        assert(self.steps@ =~= spec_apply_step_action(old(self).steps@, action));
                    }
                }
            },
            StepAction::KeepOnly(i) => {
                let _ = self.keep_only_step(i);
            },
        }
    }
}

/// The step editor's per-row text buffers: the mode picked, the value text
/// and the delay text of each step.
pub struct StepEditBuffers {
    pub modes: Vec<StepModeChoice>,
    pub values: Vec<String>,
    pub delays: Vec<String>,
}

/// The mode choice a step's row starts with (`Fixed` for app actions).
pub open spec fn initial_mode(s: MacroStep) -> StepModeChoice {
    match s.kind {
        MacroStepKind::Parameter { mode, .. } => match mode {
            MacroStepMode::Toggle => StepModeChoice::Toggle,
            MacroStepMode::Fixed(_) => StepModeChoice::Fixed,
            MacroStepMode::Relative(_) => StepModeChoice::Relative,
        },
        _ => StepModeChoice::Fixed,
    }
}

pub open spec fn strings_view(v: Seq<String>) -> Seq<Seq<char>> {
    v.map_values(|s: String| s@)
}

impl StepEditBuffers {
    /// Fresh buffers for `steps`: each row's mode, the value texts supplied
    /// (one per step), and each delay in decimal.
    pub fn from_steps(steps: &Vec<MacroStep>, values: Vec<String>) -> (b: StepEditBuffers)
        requires
            values@.len() == steps@.len(),
        ensures
            b.modes@ == steps@.map_values(|s: MacroStep| initial_mode(s)),
            b.values@ == values@,
            strings_view(b.delays@) == steps@.map_values(|s: MacroStep| dec_digits(s.delay_ms as nat)),
    {
        let mut modes: Vec<StepModeChoice> = Vec::new();
        let mut delays: Vec<String> = Vec::new();
        let mut k: usize = 0;
        while k < steps.len()
            invariant
                k <= steps@.len(),
                modes@ =~= steps@.subrange(0, k as int).map_values(|s: MacroStep| initial_mode(s)),
                strings_view(delays@) =~= steps@.subrange(0, k as int).map_values(|s: MacroStep| dec_digits(s.delay_ms as nat)),
            decreases steps@.len() - k,
        {
            let m = match &steps[k].kind {
                MacroStepKind::Parameter { mode, .. } => StepModeChoice::from_mode(mode),
                _ => StepModeChoice::Fixed,
            };
            modes.push(m);
            let mut d: Vec<char> = Vec::new();
            push_decimal(&mut d, steps[k].delay_ms as u64);
            let dstr = string_from_chars(&d);
            let ghost od = delays@;
            delays.push(dstr);
            proof {
                assert(strings_view(delays@) =~= strings_view(od).push(d@));
                assert(steps@.subrange(0, k + 1) =~= steps@.subrange(0, k as int).push(steps@[k as int]));
                assert(d@ =~= dec_digits(steps@[k as int].delay_ms as nat));
            }
            k = k + 1;
        }
        proof {
            assert(steps@.subrange(0, steps@.len() as int) =~= steps@);
        }
        StepEditBuffers { modes, values, delays }
    }

    /// The buffers no longer describe a list of `step_count` steps and must
    /// be rebuilt.
    pub fn stale(&self, step_count: usize) -> (r: bool)
        ensures
            r == (self.modes@.len() != step_count),
    {
        self.modes.len() != step_count
    }

    /// Keep the buffers in line with an action: moves swap the rows (when
    /// in range); delete and keep-only empty them so they are rebuilt; mode
    /// and delay edits leave them as typed.
    pub fn apply_action(&mut self, action: &StepAction)
        requires
            old(self).values@.len() == old(self).modes@.len(),
            old(self).delays@.len() == old(self).modes@.len(),
        ensures
            match *action {
                StepAction::MoveUp(i) => if 0 < i < old(self).modes@.len() {
                    &&& final(self).modes@ == swapped(old(self).modes@, i - 1)
                    &&& final(self).values@ == swapped(old(self).values@, i - 1)
                    &&& final(self).delays@ == swapped(old(self).delays@, i - 1)
                } else {
                    &&& final(self).modes@ == old(self).modes@
                    &&& final(self).values@ == old(self).values@
                    &&& final(self).delays@ == old(self).delays@
                },
                StepAction::MoveDown(i) => if i + 1 < old(self).modes@.len() {
                    &&& final(self).modes@ == swapped(old(self).modes@, i as int)
                    &&& final(self).values@ == swapped(old(self).values@, i as int)
                    &&& final(self).delays@ == swapped(old(self).delays@, i as int)
                } else {
                    &&& final(self).modes@ == old(self).modes@
                    &&& final(self).values@ == old(self).values@
                    &&& final(self).delays@ == old(self).delays@
                },
                StepAction::Delete(_) | StepAction::KeepOnly(_) => {
                    &&& final(self).modes@.len() == 0
                    &&& final(self).values@.len() == 0
                    &&& final(self).delays@.len() == 0
                },
                _ => {
                    &&& final(self).modes@ == old(self).modes@
                    &&& final(self).values@ == old(self).values@
                    &&& final(self).delays@ == old(self).delays@
                },
            },
    {
        match action {
            StepAction::MoveUp(i) => {
                if *i > 0 && *i < self.modes.len() {
                    swap_adjacent(&mut self.modes, *i - 1);
                    swap_adjacent(&mut self.values, *i - 1);
                    swap_adjacent(&mut self.delays, *i - 1);
                }
            },
            StepAction::MoveDown(i) => {
                if *i < self.modes.len() && *i + 1 < self.modes.len() {
                    swap_adjacent(&mut self.modes, *i);
                    swap_adjacent(&mut self.values, *i);
                    swap_adjacent(&mut self.delays, *i);
                }
            },
            StepAction::Delete(_) | StepAction::KeepOnly(_) => {
                self.modes.clear();
                self.values.clear();
                self.delays.clear();
            },
            _ => {},
        }
    }
}

/// What the Add Step form holds.
pub struct AddStepForm {
    pub kind: AddStepKindChoice,
    pub channel_type: ChannelTypeChoice,
    /// Channel number as typed.
    pub channel_number: String,
    pub parameter: Option<ParameterPath>,
    pub mode: StepModeChoice,
    pub qlab_cue_number: String,
    pub target_macro: Option<u128>,
    pub target_snapshot: Option<u128>,
    pub target_palette: Option<u128>,
    pub palette_channel_type: ChannelTypeChoice,
    /// Palette channel number as typed.
    pub palette_channel_number: String,
}

/// A typed channel number: parsed as `u8`, an unparseable entry reads as 1,
/// and 0 is raised to 1.
pub open spec fn typed_channel_number(text: Seq<char>) -> u16 {
    match spec_parse_uint(text, u8::MAX as nat) {
        Some(v) => if v == 0 { 1 } else { v as u16 },
        None => 1,
    }
}

pub open spec fn choice_channel(t: ChannelTypeChoice, n: u16) -> crate::channel::ChannelId {
    match t {
        ChannelTypeChoice::Input => crate::channel::ChannelId::Input(n),
        ChannelTypeChoice::Aux => crate::channel::ChannelId::Aux(n),
        ChannelTypeChoice::Group => crate::channel::ChannelId::Group(n),
        ChannelTypeChoice::Matrix => crate::channel::ChannelId::Matrix(n),
        ChannelTypeChoice::ControlGroup => crate::channel::ChannelId::ControlGroup(n),
    }
}

/// The step the form describes, given the value text read as a fixed value
/// (`fixed`) and as a relative offset (`offset_bits`); `None` when the form
/// is incomplete (no parameter, no target chosen). A QLab "go cue" step
/// carries text and is described by [`built_step_kind`].
pub open spec fn spec_build_step_kind(f: AddStepForm, fixed: ParameterValue, offset_bits: u32) -> Option<MacroStepKind> {
    match f.kind {
        AddStepKindChoice::Parameter => match f.parameter {
            Some(p) => Some(MacroStepKind::Parameter {
                address: ParameterAddress {
                    channel: choice_channel(f.channel_type, typed_channel_number(f.channel_number@)),
                    parameter: p,
                },
                mode: match f.mode {
                    StepModeChoice::Toggle => MacroStepMode::Toggle,
                    StepModeChoice::Fixed => MacroStepMode::Fixed(fixed),
                    StepModeChoice::Relative => MacroStepMode::Relative(offset_bits),
                },
            }),
            None => None,
        },
        AddStepKindChoice::GoNextCue => Some(MacroStepKind::GoNextCue),
        AddStepKindChoice::GoPreviousCue => Some(MacroStepKind::GoPreviousCue),
        AddStepKindChoice::Connect => Some(MacroStepKind::Connect),
        AddStepKindChoice::Disconnect => Some(MacroStepKind::Disconnect),
        AddStepKindChoice::QLabGo => Some(MacroStepKind::QLabGo),
        AddStepKindChoice::QLabGoCue => None,
        AddStepKindChoice::QLabPanic => Some(MacroStepKind::QLabPanic),
        AddStepKindChoice::QLabStop => Some(MacroStepKind::QLabStop),
        AddStepKindChoice::QLabPause => Some(MacroStepKind::QLabPause),
        AddStepKindChoice::QLabResume => Some(MacroStepKind::QLabResume),
        AddStepKindChoice::FireMacro => match f.target_macro {
            Some(id) => Some(MacroStepKind::FireMacro { id }),
            None => None,
        },
        AddStepKindChoice::RecallSnapshot => match f.target_snapshot {
            Some(id) => Some(MacroStepKind::RecallSnapshot { id }),
            None => None,
        },
        AddStepKindChoice::RecallPalette => match f.target_palette {
            Some(id) => Some(MacroStepKind::RecallPalette {
                id,
                channel: choice_channel(f.palette_channel_type, typed_channel_number(f.palette_channel_number@)),
            }),
            None => None,
        },
    }
}

/// `r` is the step the form builds: for a QLab "go cue" step, the trimmed
/// cue number (none when it is blank); otherwise [`spec_build_step_kind`].
pub open spec fn built_step_kind(f: AddStepForm, fixed: ParameterValue, offset_bits: u32, r: Option<MacroStepKind>) -> bool {
    if f.kind == AddStepKindChoice::QLabGoCue {
        if trim(f.qlab_cue_number@).len() == 0 {
            r is None
        } else {
            r matches Some(MacroStepKind::QLabGoCue { cue_number }) && cue_number@ == trim(f.qlab_cue_number@)
        }
    } else {
        r == spec_build_step_kind(f, fixed, offset_bits)
    }
}

fn typed_number(text: &String) -> (n: u16)
    ensures
        n == typed_channel_number(text@),
{
    match parse_u8(text.as_str()) {
        Some(v) => if v == 0 { 1 } else { v as u16 },
        None => 1,
    }
}

/// Build the step the Add Step form describes. `fixed` is the value text
/// read as a parameter value and `offset_bits` the value text read as a
/// relative offset; only the one the chosen mode needs is used.
pub fn build_step_kind(form: &AddStepForm, fixed: ParameterValue, offset_bits: u32) -> (r: Option<MacroStepKind>)
    ensures
        built_step_kind(*form, fixed, offset_bits, r),
{
    match form.kind {
        AddStepKindChoice::Parameter => {
            let p = match form.parameter {
                Some(p) => p,
                None => return None,
            };
            let n = typed_number(&form.channel_number);
            let channel = form.channel_type.to_channel_id(n);
            let mode = match form.mode {
                StepModeChoice::Toggle => MacroStepMode::Toggle,
                StepModeChoice::Fixed => MacroStepMode::Fixed(fixed),
                StepModeChoice::Relative => MacroStepMode::Relative(offset_bits),
            };
            Some(MacroStepKind::Parameter { address: ParameterAddress { channel, parameter: p }, mode })
        },
        AddStepKindChoice::GoNextCue => Some(MacroStepKind::GoNextCue),
        AddStepKindChoice::GoPreviousCue => Some(MacroStepKind::GoPreviousCue),
        AddStepKindChoice::Connect => Some(MacroStepKind::Connect),
        AddStepKindChoice::Disconnect => Some(MacroStepKind::Disconnect),
        AddStepKindChoice::QLabGo => Some(MacroStepKind::QLabGo),
        AddStepKindChoice::QLabGoCue => {
            let t = trim_chars(&chars_of(form.qlab_cue_number.as_str()));
            if t.len() == 0 {
                return None;
            }
            Some(MacroStepKind::QLabGoCue { cue_number: string_from_chars(&t) })
        },
        AddStepKindChoice::QLabPanic => Some(MacroStepKind::QLabPanic),
        AddStepKindChoice::QLabStop => Some(MacroStepKind::QLabStop),
        AddStepKindChoice::QLabPause => Some(MacroStepKind::QLabPause),
        AddStepKindChoice::QLabResume => Some(MacroStepKind::QLabResume),
        AddStepKindChoice::FireMacro => match form.target_macro {
            Some(id) => Some(MacroStepKind::FireMacro { id }),
            None => None,
        },
        AddStepKindChoice::RecallSnapshot => match form.target_snapshot {
            Some(id) => Some(MacroStepKind::RecallSnapshot { id }),
            None => None,
        },
        AddStepKindChoice::RecallPalette => {
            let id = match form.target_palette {
                Some(id) => id,
                None => return None,
            };
            let n = typed_number(&form.palette_channel_number);
            let channel = form.palette_channel_type.to_channel_id(n);
            Some(MacroStepKind::RecallPalette { id, channel })
        },
    }
}


/// Moving a step up and then moving it back down restores the step list.
pub proof fn law_move_up_then_down_restores(steps: Seq<MacroStep>, i: usize)
    requires
        0 < i < steps.len(),
    ensures
        spec_apply_step_action(spec_apply_step_action(steps, StepAction::MoveUp(i)), StepAction::MoveDown((i - 1) as usize)) == steps,
{
    let once = spec_apply_step_action(steps, StepAction::MoveUp(i));
    assert(once == swapped(steps, i - 1));
    assert(swapped(once, i - 1) =~= steps);
}

/// A delay edit changes only that step's delay: parsed text replaces it,
/// anything unparseable keeps the old delay; every step keeps its kind.
pub proof fn law_delay_edit_touches_only_delay(steps: Seq<MacroStep>, i: usize, text: String)
    requires
        i < steps.len(),
    ensures
        spec_apply_step_action(steps, StepAction::UpdateDelay(i, text)).len() == steps.len(),
        forall|k: int| 0 <= k < steps.len() ==> (#[trigger] spec_apply_step_action(steps, StepAction::UpdateDelay(i, text))[k]).kind == steps[k].kind,
        forall|k: int| 0 <= k < steps.len() && k != i ==> (#[trigger] spec_apply_step_action(steps, StepAction::UpdateDelay(i, text))[k]) == steps[k],
{
}


/// What the value text of a step means, after trimming: `true` / `false`
/// (any ASCII case) are booleans; text that parses as an `i32` is an
/// integer; otherwise, when the text parses as a float (`float_bits`, the
/// bit pattern of `f32` parsing of the trimmed text), a float; otherwise the
/// trimmed text itself.
pub open spec fn parsed_parameter_value(text: Seq<char>, float_bits: Option<u32>, v: ParameterValue) -> bool {
    let t = trim(text);
    if crate::text::eq_ignore_ascii_case(t, "true"@) {
        v == ParameterValue::Bool(true)
    } else if crate::text::eq_ignore_ascii_case(t, "false"@) {
        v == ParameterValue::Bool(false)
    } else if crate::text::spec_parse_i32(t) is Some && !t.contains('.') {
        v == ParameterValue::Int(crate::text::spec_parse_i32(t).unwrap() as i32)
    } else if float_bits is Some {
        v == ParameterValue::Float(float_bits.unwrap())
    } else {
        v matches ParameterValue::String(s) && s@ == t
    }
}

fn has_dot(s: &Vec<char>) -> (r: bool)
    ensures
        r == s@.contains('.'),
{
    let mut k: usize = 0;
    while k < s.len()
        invariant
            k <= s@.len(),
            forall|j: int| 0 <= j < k ==> s@[j] != '.',
        decreases s@.len() - k,
    {
        if s[k] == '.' {
            return true;
        }
        k = k + 1;
    }
    false
}

/// Read a step's value text as a parameter value: a boolean, an integer, a
/// float (given as `float_bits`, the caller's `f32` parse of the trimmed
/// text), or else the trimmed text.
pub fn parse_parameter_value(text: &str, float_bits: Option<u32>) -> (v: ParameterValue)
    ensures
        parsed_parameter_value(text@, float_bits, v),
{
    let t = trim_chars(&chars_of(text));
    let ts = string_from_chars(&t);
    if crate::text::chars_eq_ignore_ascii_case(&t, &chars_of("true")) {
        return ParameterValue::Bool(true);
    }
    if crate::text::chars_eq_ignore_ascii_case(&t, &chars_of("false")) {
        return ParameterValue::Bool(false);
    }
    match crate::text::parse_i32(ts.as_str()) {
        Some(i) => {
            if !has_dot(&t) {
                return ParameterValue::Int(i);
            }
        },
        None => {},
    }
    match float_bits {
        Some(b) => ParameterValue::Float(b),
        None => ParameterValue::String(ts),
    }
}


impl AddStepForm {
    /// Point the form at a received parameter address: the channel's kind
    /// and number (Graphic EQ and Matrix Input read as Input) and the
    /// parameter.
    pub fn apply_address(&mut self, addr: &ParameterAddress)
        ensures
            final(self).channel_type == (match addr.channel {
                crate::channel::ChannelId::Aux(_) => ChannelTypeChoice::Aux,
                crate::channel::ChannelId::Group(_) => ChannelTypeChoice::Group,
                crate::channel::ChannelId::Matrix(_) => ChannelTypeChoice::Matrix,
                crate::channel::ChannelId::ControlGroup(_) => ChannelTypeChoice::ControlGroup,
                _ => ChannelTypeChoice::Input,
            }),
            final(self).channel_number@ == dec_digits(crate::channel::spec_channel_number(addr.channel) as nat),
            final(self).parameter == Some(addr.parameter),
            final(self).kind == old(self).kind,
            final(self).mode == old(self).mode,
    {
        let (choice, num) = ChannelTypeChoice::from_channel_id(&addr.channel);
        self.channel_type = choice;
        let mut d: Vec<char> = Vec::new();
        push_decimal(&mut d, num as u64);
        assert(d@ =~= dec_digits(num as nat));
        self.channel_number = string_from_chars(&d);
        self.parameter = Some(addr.parameter);
    }
}

} // verus!
