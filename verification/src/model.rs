//! Persisted show content: scopes, snapshots, macros and fader-sidecar
//! bindings, as far as the library's logic reads them.

use vstd::prelude::*;
use crate::channel::ChannelId;
use crate::state::{ParameterAddress, ParameterPath, ParameterValue};

verus! {

/// A group of related parameters within a channel strip.
#[derive(Clone, Copy, Debug, PartialEq, Eq, Hash, Structural)]
pub enum ParameterSection {
    FaderMutePan,
    Name,
    InputGain,
    Trim,
    Polarity,
    BalanceWidth,
    Delay,
    Digitube,
    Eq,
    Dyn1,
    Dyn2,
    Sends,
    GroupRouting,
    Inserts,
    CgMembership,
    GraphicEq,
    MatrixSends,
}

/// Which parameters of one channel a scope covers.
pub struct ChannelScope {
    pub channel: ChannelId,
    /// Individually selected parameters.
    pub paths: Vec<ParameterPath>,
    /// Whole sections (older show files select by section only).
    pub sections: Vec<ParameterSection>,
}

impl ChannelScope {
    pub fn new(channel: ChannelId, paths: Vec<ParameterPath>) -> (c: ChannelScope)
        ensures
            c.channel == channel,
            c.paths@ == paths@,
            c.sections@.len() == 0,
    {
        ChannelScope { channel, paths, sections: Vec::new() }
    }
}

/// A named recall scope: per-channel parameter selections.
pub struct ScopeTemplate {
    pub id: u128,
    pub name: String,
    pub channel_scopes: Vec<ChannelScope>,
}

impl ScopeTemplate {
    /// A new template with the id `id` (drawn by the caller).
    pub fn new(id: u128, name: String, channel_scopes: Vec<ChannelScope>) -> (t: ScopeTemplate)
        ensures
            t.id == id,
            t.name == name,
            t.channel_scopes@ == channel_scopes@,
    {
        ScopeTemplate { id, name, channel_scopes }
    }

    /// An unnamed template covering nothing, with the id `id`.
    pub fn empty(id: u128) -> (t: ScopeTemplate)
        ensures
            t.id == id,
            t.name@.len() == 0,
            t.channel_scopes@.len() == 0,
    {
        ScopeTemplate { id, name: String::new(), channel_scopes: Vec::new() }
    }
}

/// A stored snapshot: its scope and the captured parameter values.
pub struct Snapshot {
    pub id: u128,
    pub name: String,
    pub scope: ScopeTemplate,
    /// Captured `(address, value)` pairs.
    pub values: Vec<(ParameterAddress, ParameterValue)>,
}

impl Snapshot {
    /// A new snapshot with the id `id` (drawn by the caller).
    pub fn new(id: u128, name: String, scope: ScopeTemplate, values: Vec<(ParameterAddress, ParameterValue)>) -> (s: Snapshot)
        ensures
            s.id == id,
            s.name == name,
            s.scope == scope,
            s.values@ == values@,
    {
        Snapshot { id, name, scope, values }
    }
}

/// How a macro parameter step changes its parameter.
pub enum MacroStepMode {
    /// Flip a boolean parameter.
    Toggle,
    /// Set a fixed value.
    Fixed(ParameterValue),
    /// Add an offset (IEEE-754 single-precision bit pattern).
    Relative(u32),
}

/// What one macro step does.
pub enum MacroStepKind {
    /// Write a console parameter.
    Parameter { address: ParameterAddress, mode: MacroStepMode },
    GoNextCue,
    GoPreviousCue,
    Connect,
    Disconnect,
    FireMacro { id: u128 },
    RecallSnapshot { id: u128 },
    RecallPalette { id: u128, channel: ChannelId },
    QLabGo,
    QLabGoCue { cue_number: String },
    QLabPanic,
    QLabStop,
    QLabPause,
    QLabResume,
}

/// One step of a macro, with the delay before it runs.
pub struct MacroStep {
    pub kind: MacroStepKind,
    pub delay_ms: u32,
}

/// The parameter a step writes, for parameter steps.
pub open spec fn step_address(s: MacroStep) -> Option<ParameterAddress> {
    match s.kind {
        MacroStepKind::Parameter { address, .. } => Some(address),
        _ => None,
    }
}

impl MacroStep {
    /// A parameter-write step.
    pub fn parameter(address: ParameterAddress, mode: MacroStepMode, delay_ms: u32) -> (s: MacroStep)
        ensures
            s.kind == (MacroStepKind::Parameter { address, mode }),
            s.delay_ms == delay_ms,
    {
        MacroStep { kind: MacroStepKind::Parameter { address, mode }, delay_ms }
    }

    /// The address a parameter step writes; `None` for app actions.
    pub fn parameter_address(&self) -> (r: Option<&ParameterAddress>)
        ensures
            match r {
                Some(a) => step_address(*self) == Some(*a),
                None => step_address(*self) is None,
            },
    {
        match &self.kind {
            MacroStepKind::Parameter { address, .. } => Some(address),
            _ => None,
        }
    }
}

/// A named sequence of steps.
pub struct MacroDef {
    pub id: u128,
    pub name: String,
    pub steps: Vec<MacroStep>,
}

impl MacroDef {
    /// A new macro with the id `id` (drawn by the caller).
    pub fn new(id: u128, name: String, steps: Vec<MacroStep>) -> (m: MacroDef)
        ensures
            m.id == id,
            m.name == name,
            m.steps@ == steps@,
    {
        MacroDef { id, name, steps }
    }
}

/// What a fader-sidecar hardware control drives.
pub enum BindingTarget {
    /// A console parameter.
    ConsoleParameter { address: ParameterAddress },
    /// Fire a macro.
    FireMacro { id: u128 },
}

/// The console parameter a binding drives, if any.
pub open spec fn target_address(t: BindingTarget) -> Option<ParameterAddress> {
    match t {
        BindingTarget::ConsoleParameter { address } => Some(address),
        _ => None,
    }
}

impl BindingTarget {
    pub fn console_address(&self) -> (r: Option<&ParameterAddress>)
        ensures
            match r {
                Some(a) => target_address(*self) == Some(*a),
                None => target_address(*self) is None,
            },
    {
        match self {
            BindingTarget::ConsoleParameter { address } => Some(address),
            _ => None,
        }
    }
}

/// One hardware-control binding of the fader sidecar.
pub struct SidecarBinding {
    pub id: u128,
    pub label: String,
    pub target: BindingTarget,
    pub enabled: bool,
}

/// The fader sidecar: hardware control → target binding table.
pub struct SidecarConfig {
    pub enabled: bool,
    pub bindings: Vec<SidecarBinding>,
}

impl SidecarConfig {
    /// Disabled, no bindings.
    pub fn disabled() -> (c: SidecarConfig)
        ensures
            !c.enabled,
            c.bindings@.len() == 0,
    {
        SidecarConfig { enabled: false, bindings: Vec::new() }
    }
}


/// `steps` with every step other than the one at `keep` that writes `addr`
/// removed (order kept).
pub open spec fn keep_only_spec(steps: Seq<MacroStep>, keep: int, addr: ParameterAddress) -> Seq<MacroStep>
    decreases steps.len(),
{
    if steps.len() == 0 {
        Seq::empty()
    } else {
        let r = keep_only_spec(steps.drop_last(), keep, addr);
        if steps.len() - 1 == keep || step_address(steps.last()) != Some(addr) {
            r.push(steps.last())
        } else {
            r
        }
    }
}

proof fn lemma_keep_only_len(steps: Seq<MacroStep>, keep: int, addr: ParameterAddress)
    ensures
        keep_only_spec(steps, keep, addr).len() <= steps.len(),
    decreases steps.len(),
{
    if steps.len() > 0 {
        lemma_keep_only_len(steps.drop_last(), keep, addr);
    }
}

impl MacroDef {
    /// Keep only the step at `i` for its (channel, parameter): every other
    /// step writing the same address is removed. Returns the kept step's new
    /// position and how many steps were removed; `None` (nothing changes)
    /// when `i` is past the end or the step at `i` is not a parameter step.
    pub fn keep_only_step(&mut self, i: usize) -> (r: Option<(usize, usize)>)
        ensures
            final(self).id == old(self).id,
            final(self).name == old(self).name,
            match (if i < old(self).steps@.len() { step_address(old(self).steps@[i as int]) } else { None }) {
                None => r is None && final(self).steps@ == old(self).steps@,
                Some(a) => {
                    let kept = keep_only_spec(old(self).steps@, i as int, a);
                    &&& final(self).steps@ == kept
                    &&& r matches Some(p) && p.1 == old(self).steps@.len() - kept.len()
                        && p.0 == keep_only_spec(old(self).steps@.subrange(0, i as int), i as int, a).len()
                        && p.0 < kept.len() && kept[p.0 as int] == old(self).steps@[i as int]
                },
            },
    {
        if i >= self.steps.len() {
            return None;
        }
        let addr = match self.steps[i].parameter_address() {
            Some(a) => *a,
            None => return None,
        };
        let ghost orig = self.steps@;
        let n0 = self.steps.len();
        let mut k: usize = 0;
        let mut j: usize = 0;
        let mut new_idx: usize = 0;
        proof {
            assert(orig.subrange(0, 0) =~= Seq::<MacroStep>::empty());
            assert(self.steps@.subrange(0, 0) =~= Seq::<MacroStep>::empty());
            assert(self.steps@.subrange(0, self.steps@.len() as int) =~= orig);
            assert(orig.subrange(0, orig.len() as int) =~= orig);
        }
        while k < self.steps.len()
            invariant
                i < orig.len(),
                n0 == orig.len(),
                step_address(orig[i as int]) == Some(addr),
                j <= orig.len(),
                k <= self.steps@.len(),
                self.steps@.len() - k == orig.len() - j,
                self.steps@.subrange(0, k as int) == keep_only_spec(orig.subrange(0, j as int), i as int, addr),
                self.steps@.subrange(k as int, self.steps@.len() as int) == orig.subrange(j as int, orig.len() as int),
                j > i ==> new_idx == keep_only_spec(orig.subrange(0, i as int), i as int, addr).len()
                    && new_idx < k && self.steps@[new_idx as int] == orig[i as int],
                self.id == old(self).id,
                self.name == old(self).name,
            decreases self.steps@.len() - k,
        {
            let ghost cur = self.steps@;
            let ghost pre = orig.subrange(0, j as int);
            let ghost next = orig.subrange(0, j + 1);
            proof {
                assert(cur.subrange(k as int, cur.len() as int)[0] == orig[j as int]);
                assert(next.drop_last() =~= pre);
                assert(next.last() == orig[j as int]);
                assert(cur[k as int] == orig[j as int]);
                let tail = cur.subrange(k as int, cur.len() as int);
                let otail = orig.subrange(j as int, orig.len() as int);
                let a = cur.subrange(k + 1, cur.len() as int);
                let b = orig.subrange(j + 1, orig.len() as int);
                assert forall|m: int| 0 <= m < a.len() implies #[trigger] a[m] == b[m] by {
                    assert(tail[m + 1] == a[m]);
                    assert(otail[m + 1] == b[m]);
                }
                assert(a =~= b);
            }
            let keep_this = j == i;
            let writes_addr = match self.steps[k].parameter_address() {
                Some(a) => *a == addr,
                None => false,
            };
            if keep_this {
                new_idx = k;
            }
            if keep_this || !writes_addr {
                proof {
                    assert(cur.subrange(0, k + 1) =~= cur.subrange(0, k as int).push(cur[k as int]));
                }
                k = k + 1;
            } else {
                self.steps.remove(k);
                proof {
                    assert(self.steps@.subrange(0, k as int) =~= cur.subrange(0, k as int));
                    assert(self.steps@.subrange(k as int, self.steps@.len() as int) =~= cur.subrange(k + 1, cur.len() as int));
                }
            }
            j = j + 1;
        }
        proof {
            assert(self.steps@.subrange(0, self.steps@.len() as int) =~= self.steps@);
            assert(orig.subrange(0, j as int) =~= orig);
            lemma_keep_only_len(orig, i as int, addr);
        }
        Some((new_idx, n0 - self.steps.len()))
    }
}


proof fn lemma_keep_only_writers(steps: Seq<MacroStep>, keep: int, addr: ParameterAddress)
    ensures
        forall|j: int, k: int| 0 <= j < k < keep_only_spec(steps, keep, addr).len()
            && step_address(#[trigger] keep_only_spec(steps, keep, addr)[j]) == Some(addr)
            ==> step_address(#[trigger] keep_only_spec(steps, keep, addr)[k]) != Some(addr),
        !(0 <= keep < steps.len()) ==> forall|j: int| 0 <= j < keep_only_spec(steps, keep, addr).len()
            ==> step_address(#[trigger] keep_only_spec(steps, keep, addr)[j]) != Some(addr),
        0 <= keep < steps.len() ==> exists|j: int| 0 <= j < keep_only_spec(steps, keep, addr).len()
            && #[trigger] keep_only_spec(steps, keep, addr)[j] == steps[keep],
    decreases steps.len(),
{
    if steps.len() > 0 {
        let pre = steps.drop_last();
        lemma_keep_only_writers(pre, keep, addr);
        let r = keep_only_spec(pre, keep, addr);
        let kept = keep_only_spec(steps, keep, addr);
        let last = steps.len() - 1;
        if last == keep || step_address(steps.last()) != Some(addr) {
            assert(kept == r.push(steps.last()));
            assert forall|j: int| 0 <= j < r.len() implies #[trigger] kept[j] == r[j] by {}
            if 0 <= keep < steps.len() {
                if keep == last {
                    assert(kept[r.len() as int] == steps[keep]);
                } else {
                    let j = choose|j: int| 0 <= j < r.len() && #[trigger] r[j] == pre[keep];
                    assert(kept[j] == steps[keep]);
                }
            }
        } else {
            assert(kept == r);
            if 0 <= keep < steps.len() {
                let j = choose|j: int| 0 <= j < r.len() && #[trigger] r[j] == pre[keep];
                assert(kept[j] == steps[keep]);
            }
        }
    }
}

/// After "keep only this step", exactly one step writes the kept step's
/// parameter: the kept step itself.
pub proof fn law_keep_only_leaves_one_writer(steps: Seq<MacroStep>, keep: int, addr: ParameterAddress)
    requires
        0 <= keep < steps.len(),
        step_address(steps[keep]) == Some(addr),
    ensures
        exists|j: int| 0 <= j < keep_only_spec(steps, keep, addr).len()
            && #[trigger] keep_only_spec(steps, keep, addr)[j] == steps[keep],
        forall|j: int, k: int| 0 <= j < keep_only_spec(steps, keep, addr).len()
            && 0 <= k < keep_only_spec(steps, keep, addr).len()
            && step_address(#[trigger] keep_only_spec(steps, keep, addr)[j]) == Some(addr)
            && step_address(#[trigger] keep_only_spec(steps, keep, addr)[k]) == Some(addr) ==> j == k,
{
    lemma_keep_only_writers(steps, keep, addr);
}

} // verus!
