//! Channel picker for personal-monitoring profiles: which inputs a client
//! sees (in the client's chosen order) and which auxes it may mix, plus the
//! ripple range-select flow.

use vstd::prelude::*;
use crate::channel::{ChannelId, ChannelMode, ConsoleConfig};
use crate::seqs::{append_missing, first_pos, lemma_append_missing, lemma_first_pos, lemma_toggle, no_dups, toggled};
use crate::state::{ConsoleState, ParameterAddress, ParameterPath, ParameterValue};
use crate::text::{chars_of, string_from_chars, trim, trim_chars};

verus! {

/// A personal-monitoring client profile.
pub struct MonitorClient {
    pub id: u128,
    pub name: String,
    /// Optional login PIN (`None` = name-only login).
    pub pin: Option<String>,
    /// Auxes the client may mix, in the client's order.
    pub permitted_auxes: Vec<u16>,
    /// Inputs the client sees, in order. Empty means every input (including
    /// inputs added to the console later).
    pub visible_inputs: Vec<u16>,
}

impl MonitorClient {
    /// A new profile with the id `id` (drawn by the caller) and no PIN.
    pub fn new(id: u128, name: String, permitted_auxes: Vec<u16>, visible_inputs: Vec<u16>) -> (c: MonitorClient)
        ensures
            c.id == id,
            c.name == name,
            c.pin is None,
            c.permitted_auxes@ == permitted_auxes@,
            c.visible_inputs@ == visible_inputs@,
    {
        MonitorClient { id, name, pin: None, permitted_auxes, visible_inputs }
    }
}

/// What kind of ripple-mode marker a tile carries.
#[derive(Debug, Clone, Copy, PartialEq, Eq, Structural)]
pub enum RippleHighlight {
    /// No ripple decoration.
    Unmarked,
    /// One of the two range endpoints.
    Endpoint,
    /// Strictly between the two endpoints while confirming.
    InRange,
}

/// State machine of the ripple range-select flow on the Inputs grid:
/// `Off` → arm → `Pending` → first tile → `GotFirst` → last tile →
/// `Confirming` → confirm (range applied) or cancel → `Off`.
#[derive(Debug, Clone, Copy, PartialEq, Eq, Structural)]
pub enum RippleState {
    /// Normal mode: tile clicks toggle selection.
    Off,
    /// Armed: the next tile click sets the first endpoint.
    Pending,
    /// First endpoint chosen: the next tile click sets the last endpoint.
    GotFirst { first: u16 },
    /// Both endpoints chosen: confirm or cancel.
    Confirming { first: u16, last: u16 },
}

impl Default for RippleState {
    fn default() -> (r: RippleState)
        ensures
            r == RippleState::Off,
    {
        RippleState::Off
    }
}

/// Result of one frame of the picker window.
pub enum PickerOutcome {
    /// Save: the caller commits the selection.
    Save {
        editing: Option<u128>,
        name: String,
        /// `None` when the PIN field is blank (name-only login).
        pin: Option<String>,
        permitted_auxes: Vec<u16>,
        visible_inputs: Vec<u16>,
    },
    /// The operator cancelled.
    Cancel,
}

/// Mutable state of the picker window.
pub struct ChannelPickerState {
    /// `None` when adding a new client, `Some(id)` when editing one.
    pub editing: Option<u128>,
    pub name: String,
    /// Optional per-profile PIN; blank = no PIN.
    pub pin: String,
    pub input_count: u16,
    pub aux_count: u16,
    /// Selected inputs, in click order.
    pub selected_inputs: Vec<u16>,
    /// Selected auxes, in click order.
    pub selected_auxes: Vec<u16>,
    /// Operator-given input names (unnamed inputs absent).
    pub input_names: Vec<(u16, String)>,
    /// Operator-given aux names (unnamed auxes absent).
    pub aux_names: Vec<(u16, String)>,
    /// Stereo aux numbers, ascending.
    pub stereo_auxes: Vec<u16>,
    pub ripple: RippleState,
}

/// `1, 2, ..., n`.
pub open spec fn one_to(n: u16) -> Seq<u16> {
    Seq::new(n as nat, |i: int| (i + 1) as u16)
}

/// The channel numbers a ripple from `first` to `last` walks, in click
/// direction, both endpoints included.
pub open spec fn ripple_walk(first: u16, last: u16) -> Seq<u16> {
    if first <= last {
        Seq::new((last - first + 1) as nat, |i: int| (first + i) as u16)
    } else {
        Seq::new((first - last + 1) as nat, |i: int| (first - i) as u16)
    }
}

/// The non-empty name of channel `ch` in `state`, if any.
pub open spec fn strip_name(state: &ConsoleState, ch: ChannelId) -> Option<Seq<char>> {
    match state.spec_get(ParameterAddress { channel: ch, parameter: ParameterPath::Name }) {
        Some(ParameterValue::String(s)) => if s@.len() > 0 { Some(s@) } else { None },
        _ => None,
    }
}

/// `(n, name)` for `n` in `1..=count` (ascending) whose strip (`input` or
/// aux) has a non-empty name.
pub open spec fn numbered_names(state: &ConsoleState, input: bool, count: int) -> Seq<(u16, Seq<char>)>
    decreases count,
{
    if count <= 0 {
        Seq::empty()
    } else {
        let rest = numbered_names(state, input, count - 1);
        let ch = if input { ChannelId::Input(count as u16) } else { ChannelId::Aux(count as u16) };
        match strip_name(state, ch) {
            Some(n) => rest.push((count as u16, n)),
            None => rest,
        }
    }
}

/// Aux numbers in `1..=count` configured stereo, ascending.
pub open spec fn stereo_aux_numbers(cfg: &ConsoleConfig, count: int) -> Seq<u16>
    decreases count,
{
    if count <= 0 {
        Seq::empty()
    } else {
        let rest = stereo_aux_numbers(cfg, count - 1);
        if cfg.spec_aux_mode(count) == Some(ChannelMode::Stereo) {
            rest.push(count as u16)
        } else {
            rest
        }
    }
}

pub open spec fn numbered_view(v: Seq<(u16, String)>) -> Seq<(u16, Seq<char>)> {
    v.map_values(|e: (u16, String)| (e.0, e.1@))
}

fn collect_names(state: &ConsoleState, input: bool, count: u16) -> (r: Vec<(u16, String)>)
    ensures
        numbered_view(r@) == numbered_names(state, input, count as int),
{
    let mut out: Vec<(u16, String)> = Vec::new();
    let mut n: u16 = 0;
    while n < count
        invariant
            n <= count,
            numbered_view(out@) == numbered_names(state, input, n as int),
        decreases count - n,
    {
        n = n + 1;
        let ch = if input { ChannelId::Input(n) } else { ChannelId::Aux(n) };
        match state.get(&ParameterAddress { channel: ch, parameter: ParameterPath::Name }) {
            Some(ParameterValue::String(s)) => {
                if !s.as_str().is_empty() {
                    let ghost prev = out@;
                    let c = s.clone();
                    out.push((n, c));
                    proof {
                        assert(numbered_view(out@) =~= numbered_view(prev).push((n, s@)));
                    }
                }
            },
            _ => {},
        }
    }
    out
}

/// Input names for inputs `1..=count`.
pub fn collect_input_names(state: &ConsoleState, input_count: u16) -> (r: Vec<(u16, String)>)
    ensures
        numbered_view(r@) == numbered_names(state, true, input_count as int),
{
    collect_names(state, true, input_count)
}

/// Aux names for auxes `1..=count`.
pub fn collect_aux_names(state: &ConsoleState, aux_count: u16) -> (r: Vec<(u16, String)>)
    ensures
        numbered_view(r@) == numbered_names(state, false, aux_count as int),
{
    collect_names(state, false, aux_count)
}

/// Stereo aux numbers among `1..=aux_count`.
pub fn collect_stereo_auxes(cfg: &ConsoleConfig, aux_count: u16) -> (r: Vec<u16>)
    ensures
        r@ == stereo_aux_numbers(cfg, aux_count as int),
{
    let mut out: Vec<u16> = Vec::new();
    let mut n: u16 = 0;
    while n < aux_count
        invariant
            n <= aux_count,
            out@ == stereo_aux_numbers(cfg, n as int),
        decreases aux_count - n,
    {
        n = n + 1;
        match cfg.aux_mode(n) {
            Some(ChannelMode::Stereo) => out.push(n),
            _ => {},
        }
    }
    out
}

fn one_to_vec(n: u16) -> (v: Vec<u16>)
    ensures
        v@ == one_to(n),
{
    let mut v: Vec<u16> = Vec::new();
    let mut i: u16 = 0;
    while i < n
        invariant
            i <= n,
            v@ =~= one_to(i),
        decreases n - i,
    {
        i = i + 1;
        v.push(i);
    }
    v
}

fn copy_u16s(src: &Vec<u16>) -> (v: Vec<u16>)
    ensures
        v@ == src@,
{
    let mut v: Vec<u16> = Vec::new();
    let mut i: usize = 0;
    while i < src.len()
        invariant
            i <= src.len(),
            v@ =~= src@.subrange(0, i as int),
        decreases src.len() - i,
    {
        v.push(src[i]);
        i = i + 1;
    }
    v
}

fn find_u16(sel: &Vec<u16>, x: u16) -> (r: (bool, usize))
    ensures
        r.0 == sel@.contains(x),
        r.0 ==> r.1 < sel@.len() && sel@[r.1 as int] == x && forall|j: int| 0 <= j < r.1 ==> sel@[j] != x,
{
    let mut k: usize = 0;
    while k < sel.len()
        invariant
            k <= sel.len(),
            forall|j: int| 0 <= j < k ==> sel@[j] != x,
        decreases sel.len() - k,
    {
        if sel[k] == x {
            return (true, k);
        }
        k = k + 1;
    }
    (false, 0)
}

/// Toggle `x` in an ordered selection: remove its first occurrence, or
/// append it.
fn toggle_u16(sel: &mut Vec<u16>, x: u16)
    ensures
        final(sel)@ == toggled(old(sel)@, x),
{
    let (found, pos) = find_u16(sel, x);
    proof {
        if found {
            lemma_first_pos(old(sel)@, x);
        }
    }
    if found {
        sel.remove(pos);
    } else {
        sel.push(x);
    }
}

/// Whether `v` is exactly `1, 2, ..., count`.
pub open spec fn is_canonical(v: Seq<u16>, count: u16) -> bool {
    v.len() == count && forall|i: int| 0 <= i < v.len() ==> #[trigger] v[i] == i + 1
}

/// What Save commits for the visible-inputs list: the canonical
/// `1..=count` order collapses to the empty "every input" sentinel; any
/// other selection (partial, or reordered) is kept verbatim.
pub open spec fn saved_inputs(v: Seq<u16>, count: u16) -> Seq<u16> {
    if is_canonical(v, count) { Seq::empty() } else { v }
}

impl ChannelPickerState {
    /// Open the picker for a brand-new profile: every input selected in
    /// ascending order, no aux selected, ripple off.
    pub fn for_new_client(state: &ConsoleState) -> (p: ChannelPickerState)
        ensures
            p.editing is None,
            p.name@.len() == 0,
            p.pin@.len() == 0,
            p.input_count == state.spec_config().input_channel_count,
            p.aux_count == state.spec_config().aux_output_count,
            p.selected_inputs@ == one_to(p.input_count),
            p.selected_auxes@.len() == 0,
            numbered_view(p.input_names@) == numbered_names(state, true, p.input_count as int),
            numbered_view(p.aux_names@) == numbered_names(state, false, p.aux_count as int),
            p.stereo_auxes@ == stereo_aux_numbers(&state.spec_config(), p.aux_count as int),
            p.ripple == RippleState::Off,
    {
        let cfg = state.config();
        let input_count = cfg.input_channel_count;
        let aux_count = cfg.aux_output_count;
        ChannelPickerState {
            editing: None,
            name: String::new(),
            pin: String::new(),
            input_count,
            aux_count,
            selected_inputs: one_to_vec(input_count),
            selected_auxes: Vec::new(),
            input_names: collect_input_names(state, input_count),
            aux_names: collect_aux_names(state, aux_count),
            stereo_auxes: collect_stereo_auxes(cfg, aux_count),
            ripple: RippleState::Off,
        }
    }

    /// Open the picker prefilled from an existing client. An empty
    /// `visible_inputs` (the "every input" sentinel) shows as every input
    /// selected in ascending order; otherwise the saved order is kept.
    pub fn for_edit(client: &MonitorClient, state: &ConsoleState) -> (p: ChannelPickerState)
        ensures
            p.editing == Some(client.id),
            p.name@ == client.name@,
            p.pin@ == (match client.pin {
                Some(s) => s@,
                None => Seq::<char>::empty(),
            }),
            p.input_count == state.spec_config().input_channel_count,
            p.aux_count == state.spec_config().aux_output_count,
            p.selected_inputs@ == (if client.visible_inputs@.len() == 0 {
                one_to(p.input_count)
            } else {
                client.visible_inputs@
            }),
            p.selected_auxes@ == client.permitted_auxes@,
            numbered_view(p.input_names@) == numbered_names(state, true, p.input_count as int),
            numbered_view(p.aux_names@) == numbered_names(state, false, p.aux_count as int),
            p.stereo_auxes@ == stereo_aux_numbers(&state.spec_config(), p.aux_count as int),
            p.ripple == RippleState::Off,
    {
        let cfg = state.config();
        let input_count = cfg.input_channel_count;
        let aux_count = cfg.aux_output_count;
        let selected_inputs = if client.visible_inputs.len() == 0 {
            one_to_vec(input_count)
        } else {
            copy_u16s(&client.visible_inputs)
        };
        let pin = match &client.pin {
            Some(s) => s.clone(),
            None => String::new(),
        };
        ChannelPickerState {
            editing: Some(client.id),
            name: client.name.clone(),
            pin,
            input_count,
            aux_count,
            selected_inputs,
            selected_auxes: copy_u16s(&client.permitted_auxes),
            input_names: collect_input_names(state, input_count),
            aux_names: collect_aux_names(state, aux_count),
            stereo_auxes: collect_stereo_auxes(cfg, aux_count),
            ripple: RippleState::Off,
        }
    }

    /// Apply a confirmed ripple range: walk `first`→`last` (ascending, or
    /// descending when `first > last`) and append each channel not yet
    /// selected; channels already selected keep their position.
    pub fn apply_ripple(&mut self, first: u16, last: u16)
        ensures
            final(self).selected_inputs@ == append_missing(old(self).selected_inputs@, ripple_walk(first, last)),
            final(self).selected_auxes@ == old(self).selected_auxes@,
            final(self).ripple == old(self).ripple,
            final(self).input_count == old(self).input_count,
            final(self).aux_count == old(self).aux_count,
    {
        let ghost walk = ripple_walk(first, last);
        let ghost sel0 = self.selected_inputs@;
        let mut range: Vec<u16> = Vec::new();
        if first <= last {
            let mut c: u32 = first as u32;
            while c <= last as u32
                invariant
                    first <= last,
                    walk == ripple_walk(first, last),
                    first <= c <= last as u32 + 1,
                    range@ =~= walk.subrange(0, c - first),
                decreases last as u32 + 1 - c,
            {
                range.push(c as u16);
                c = c + 1;
            }
        } else {
            let mut c: i32 = first as i32;
            while c >= last as i32
                invariant
                    first > last,
                    walk == ripple_walk(first, last),
                    last as i32 - 1 <= c <= first as i32,
                    range@ =~= walk.subrange(0, first - c),
                decreases c - last as i32 + 1,
            {
                range.push(c as u16);
                c = c - 1;
            }
        }
        proof {
            assert(range@ =~= walk);
            assert(range@.subrange(0, range@.len() as int) =~= range@);
        }
        let mut k: usize = 0;
        while k < range.len()
            invariant
                k <= range.len(),
                range@ == walk,
                append_missing(sel0, walk) == append_missing(self.selected_inputs@, range@.subrange(k as int, range@.len() as int)),
                self.selected_auxes@ == old(self).selected_auxes@,
                self.ripple == old(self).ripple,
                self.input_count == old(self).input_count,
                self.aux_count == old(self).aux_count,
            decreases range.len() - k,
        {
            let x = range[k];
            proof {
                let rest = range@.subrange(k as int, range@.len() as int);
                assert(rest[0] == x);
                assert(rest.drop_first() =~= range@.subrange(k + 1, range@.len() as int));
            }
            let (found, _) = find_u16(&self.selected_inputs, x);
            if !found {
                self.selected_inputs.push(x);
            }
            k = k + 1;
        }
        proof {
            assert(range@.subrange(range@.len() as int, range@.len() as int) =~= Seq::<u16>::empty());
        }
    }

    /// Toggle input `ch`: removing keeps the others' order, adding appends.
    pub fn toggle_input(&mut self, ch: u16)
        ensures
            final(self).selected_inputs@ == toggled(old(self).selected_inputs@, ch),
            final(self).selected_auxes@ == old(self).selected_auxes@,
            final(self).ripple == old(self).ripple,
            final(self).input_count == old(self).input_count,
    {
        toggle_u16(&mut self.selected_inputs, ch);
    }

    /// Toggle aux `ch`: removing keeps the others' order, adding appends.
    pub fn toggle_aux(&mut self, ch: u16)
        ensures
            final(self).selected_auxes@ == toggled(old(self).selected_auxes@, ch),
            final(self).selected_inputs@ == old(self).selected_inputs@,
            final(self).ripple == old(self).ripple,
            final(self).input_count == old(self).input_count,
    {
        toggle_u16(&mut self.selected_auxes, ch);
    }

    /// The Save outcome: trimmed name, the PIN (trimmed; `None` when blank),
    /// the aux order as clicked, and the input list with the canonical
    /// all-inputs order collapsed to the empty sentinel.
    pub fn to_save_outcome(&self) -> (o: PickerOutcome)
        ensures
            match o {
                PickerOutcome::Save { editing, name, pin, permitted_auxes, visible_inputs } => {
                    &&& editing == self.editing
                    &&& name@ == trim(self.name@)
                    &&& match pin {
                        Some(p) => trim(self.pin@).len() > 0 && p@ == trim(self.pin@),
                        None => trim(self.pin@).len() == 0,
                    }
                    &&& permitted_auxes@ == self.selected_auxes@
                    &&& visible_inputs@ == saved_inputs(self.selected_inputs@, self.input_count)
                },
                PickerOutcome::Cancel => false,
            },
    {
        let n = self.selected_inputs.len();
        let mut canonical = n == self.input_count as usize;
        let mut i: usize = 0;
        while i < n
            invariant
                n == self.selected_inputs@.len(),
                i <= n,
                canonical == (n == self.input_count && forall|j: int| 0 <= j < i ==> #[trigger] self.selected_inputs@[j] == j + 1),
            decreases n - i,
        {
            if self.selected_inputs[i] as usize != i + 1 {
                canonical = false;
            }
            i = i + 1;
        }
        let visible_inputs = if canonical { Vec::new() } else { copy_u16s(&self.selected_inputs) };
        let pin_chars = trim_chars(&chars_of(self.pin.as_str()));
        let pin = if pin_chars.len() == 0 { None } else { Some(string_from_chars(&pin_chars)) };
        let name_chars = trim_chars(&chars_of(self.name.as_str()));
        PickerOutcome::Save {
            editing: self.editing,
            name: string_from_chars(&name_chars),
            pin,
            permitted_auxes: copy_u16s(&self.selected_auxes),
            visible_inputs,
        }
    }

    /// Save is offered only with a non-blank name and at least one aux.
    pub fn save_enabled(&self) -> (r: bool)
        ensures
            r == (trim(self.name@).len() > 0 && self.selected_auxes@.len() > 0),
    {
        let name_chars = trim_chars(&chars_of(self.name.as_str()));
        name_chars.len() > 0 && self.selected_auxes.len() > 0
    }

    /// The Ripple button (shown whenever not confirming): while armed
    /// (`Pending` / `GotFirst`) it cancels back to `Off`; otherwise it arms.
    pub fn press_ripple_button(&mut self)
        ensures
            final(self).ripple == (match old(self).ripple {
                RippleState::Pending | RippleState::GotFirst { .. } => RippleState::Off,
                RippleState::Confirming { first, last } => RippleState::Confirming { first, last },
                RippleState::Off => RippleState::Pending,
            }),
            final(self).selected_inputs@ == old(self).selected_inputs@,
    {
        self.ripple = match self.ripple {
            RippleState::Pending | RippleState::GotFirst { .. } => RippleState::Off,
            RippleState::Confirming { first, last } => RippleState::Confirming { first, last },
            RippleState::Off => RippleState::Pending,
        };
    }

    /// A click on input tile `ch`: toggles it when ripple is off; picks the
    /// first / last endpoint while armed; does nothing while confirming.
    pub fn click_input_tile(&mut self, ch: u16)
        ensures
            match old(self).ripple {
                RippleState::Off => final(self).selected_inputs@ == toggled(old(self).selected_inputs@, ch)
                    && final(self).ripple == RippleState::Off,
                RippleState::Pending => final(self).selected_inputs@ == old(self).selected_inputs@
                    && final(self).ripple == (RippleState::GotFirst { first: ch }),
                RippleState::GotFirst { first } => final(self).selected_inputs@ == old(self).selected_inputs@
                    && final(self).ripple == (RippleState::Confirming { first, last: ch }),
                RippleState::Confirming { .. } => final(self).selected_inputs@ == old(self).selected_inputs@
                    && final(self).ripple == old(self).ripple,
            },
            final(self).selected_auxes@ == old(self).selected_auxes@,
    {
        match self.ripple {
            RippleState::Off => self.toggle_input(ch),
            RippleState::Pending => {
                self.ripple = RippleState::GotFirst { first: ch };
            },
            RippleState::GotFirst { first } => {
                self.ripple = RippleState::Confirming { first, last: ch };
            },
            RippleState::Confirming { .. } => {},
        }
    }

    /// Confirm (✓) while confirming: apply the range, then turn ripple off.
    /// In any other state this does nothing.
    pub fn confirm_ripple(&mut self)
        ensures
            match old(self).ripple {
                RippleState::Confirming { first, last } => final(self).selected_inputs@ == append_missing(
                    old(self).selected_inputs@,
                    ripple_walk(first, last),
                ) && final(self).ripple == RippleState::Off,
                _ => final(self).selected_inputs@ == old(self).selected_inputs@ && final(self).ripple == old(self).ripple,
            },
            final(self).selected_auxes@ == old(self).selected_auxes@,
    {
        match self.ripple {
            RippleState::Confirming { first, last } => {
                self.apply_ripple(first, last);
                self.ripple = RippleState::Off;
            },
            _ => {},
        }
    }

    /// Cancel (✕) while confirming: discard the range.
    pub fn cancel_ripple(&mut self)
        ensures
            final(self).ripple == (match old(self).ripple {
                RippleState::Confirming { .. } => RippleState::Off,
                r => r,
            }),
            final(self).selected_inputs@ == old(self).selected_inputs@,
    {
        match self.ripple {
            RippleState::Confirming { .. } => {
                self.ripple = RippleState::Off;
            },
            _ => {},
        }
    }

    /// "Deselect all": clear the input selection.
    pub fn deselect_all_inputs(&mut self)
        ensures
            final(self).selected_inputs@.len() == 0,
            final(self).selected_auxes@ == old(self).selected_auxes@,
    {
        self.selected_inputs.clear();
    }

    /// "Select all": every input, ascending.
    pub fn select_all_inputs(&mut self)
        ensures
            final(self).selected_inputs@ == one_to(old(self).input_count),
            final(self).selected_auxes@ == old(self).selected_auxes@,
            final(self).input_count == old(self).input_count,
    {
        self.selected_inputs = one_to_vec(self.input_count);
    }
}

/// The ripple marker for input tile `ch`: endpoints chosen so far are
/// `Endpoint`; while confirming, channels strictly between the endpoints are
/// `InRange`; everything else `Unmarked`.
pub open spec fn spec_ripple_highlight(ripple: RippleState, ch: u16) -> RippleHighlight {
    match ripple {
        RippleState::Off | RippleState::Pending => RippleHighlight::Unmarked,
        RippleState::GotFirst { first } => if ch == first {
            RippleHighlight::Endpoint
        } else {
            RippleHighlight::Unmarked
        },
        RippleState::Confirming { first, last } => if ch == first || ch == last {
            RippleHighlight::Endpoint
        } else {
            let lo = if first <= last { first } else { last };
            let hi = if first <= last { last } else { first };
            if lo < ch && ch < hi { RippleHighlight::InRange } else { RippleHighlight::Unmarked }
        },
    }
}

pub fn ripple_highlight_for(ripple: RippleState, ch: u16) -> (h: RippleHighlight)
    ensures
        h == spec_ripple_highlight(ripple, ch),
{
    match ripple {
        RippleState::Off | RippleState::Pending => RippleHighlight::Unmarked,
        RippleState::GotFirst { first } => {
            if ch == first {
                RippleHighlight::Endpoint
            } else {
                RippleHighlight::Unmarked
            }
        },
        RippleState::Confirming { first, last } => {
            if ch == first || ch == last {
                RippleHighlight::Endpoint
            } else {
                let (lo, hi) = if first <= last { (first, last) } else { (last, first) };
                if ch > lo && ch < hi {
                    RippleHighlight::InRange
                } else {
                    RippleHighlight::Unmarked
                }
            }
        },
    }
}


/// Opening a profile for editing and saving it unchanged gives back its
/// visible-inputs list: the empty "every input" sentinel expands to every
/// input and collapses back, any other list is kept verbatim. (A stored
/// list that is exactly `1..=count` is the one exception: it comes back as
/// the sentinel, which means the same thing.)
pub proof fn law_edit_then_save_keeps_visible_inputs(visible: Seq<u16>, count: u16)
    requires
        !(visible.len() > 0 && is_canonical(visible, count)),
    ensures
        saved_inputs(if visible.len() == 0 { one_to(count) } else { visible }, count) == visible,
{
    if visible.len() == 0 {
        assert(is_canonical(one_to(count), count));
        assert(saved_inputs(one_to(count), count) =~= visible);
    }
}


/// While a ripple waits for confirmation its tiles are marked the same way
/// whichever end was picked first: the two picked channels as endpoints,
/// every other channel the ripple walks through as in range, and every
/// channel it does not walk through unmarked.
pub proof fn law_ripple_highlight_symmetric(first: u16, last: u16, ch: u16)
    ensures
        spec_ripple_highlight(RippleState::Confirming { first, last }, ch)
            == spec_ripple_highlight(RippleState::Confirming { first: last, last: first }, ch),
        (ch == first || ch == last) ==> spec_ripple_highlight(RippleState::Confirming { first, last }, ch) == RippleHighlight::Endpoint,
        ripple_walk(first, last).contains(ch) && ch != first && ch != last
            ==> spec_ripple_highlight(RippleState::Confirming { first, last }, ch) == RippleHighlight::InRange,
        !ripple_walk(first, last).contains(ch)
            ==> spec_ripple_highlight(RippleState::Confirming { first, last }, ch) == RippleHighlight::Unmarked,
{
    let w = ripple_walk(first, last);
    if w.contains(ch) {
        let i = choose|i: int| 0 <= i < w.len() && w[i] == ch;
        assert(w[i] == ch);
    }
    if first <= ch <= last || last <= ch <= first {
        if first <= last {
            assert(w[ch - first] == ch);
        } else {
            assert(w[first - ch] == ch);
        }
        assert(w.contains(ch));
    }
}

} // verus!
