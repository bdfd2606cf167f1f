//! Gang labels and the gang form's checks.

use vstd::prelude::*;
use crate::channel::{ChannelId, channel_number, kind_code, kind_index, spec_channel_number};
use crate::text::{chars_of, dec_digits, push_decimal, push_str, string_from_chars, trim, trim_chars};
use crate::model::ParameterSection;
use crate::help::{HelpState, help, spec_help};
use crate::help_catalog::HelpKey;
use crate::seqs::{toggled, lemma_first_pos};

verus! {

/// The distinct values of `ns` that are `>= v`, ascending.
pub open spec fn present_from(ns: Seq<u16>, v: int) -> Seq<u16>
    decreases 65536 - v,
{
    if v < 0 || v > 65535 {
        Seq::empty()
    } else if ns.contains(v as u16) {
        seq![v as u16] + present_from(ns, v + 1)
    } else {
        present_from(ns, v + 1)
    }
}

/// The distinct values of `ns`, ascending.
pub open spec fn sorted_distinct(ns: Seq<u16>) -> Seq<u16> {
    present_from(ns, 0)
}

/// End (exclusive) of the run of consecutive numbers in `s` starting at `p`.
pub open spec fn run_end(s: Seq<u16>, p: int) -> int
    decreases s.len() - p,
{
    if 0 <= p && p + 1 < s.len() && s[p + 1] == s[p] + 1 {
        run_end(s, p + 1)
    } else {
        p + 1
    }
}

/// One range segment: `"a"` or `"a-b"`.
pub open spec fn segment(a: u16, b: u16) -> Seq<char> {
    if a == b {
        dec_digits(a as nat)
    } else {
        dec_digits(a as nat) + seq!['-'] + dec_digits(b as nat)
    }
}

/// Comma-separated range segments for the runs of `s` from index `p` on.
pub open spec fn render_runs(s: Seq<u16>, p: int) -> Seq<char>
    decreases s.len() - p,
{
    if p < 0 || p >= s.len() {
        Seq::empty()
    } else {
        let q = run_end(s, p);
        if q < s.len() && q > p {
            segment(s[p], s[q - 1]) + seq![','] + render_runs(s, q)
        } else {
            segment(s[p], s[q - 1])
        }
    }
}

/// Range notation for a list of numbers: distinct values, ascending, runs of
/// consecutive numbers collapsed, e.g. `[1,2,3,7,12]` is `"1-3,7,12"`.
pub open spec fn spec_format_ranges(ns: Seq<u16>) -> Seq<char> {
    render_runs(sorted_distinct(ns), 0)
}

proof fn lemma_present_from_same_set(a: Seq<u16>, b: Seq<u16>, v: int)
    requires
        forall|x: u16| a.contains(x) <==> b.contains(x),
    ensures
        present_from(a, v) == present_from(b, v),
    decreases 65536 - v,
{
    if 0 <= v <= 65535 {
        lemma_present_from_same_set(a, b, v + 1);
        assert(a.contains(v as u16) <==> b.contains(v as u16));
    }
}

/// Range text depends only on which numbers occur: two lists with the same
/// members, in any order and with any repeats, give the same text.
pub proof fn law_format_ranges_depends_on_set(a: Seq<u16>, b: Seq<u16>)
    requires
        forall|x: u16| a.contains(x) <==> b.contains(x),
    ensures
        spec_format_ranges(a) == spec_format_ranges(b),
{
    lemma_present_from_same_set(a, b, 0);
}

proof fn lemma_run_end_bounds(s: Seq<u16>, p: int)
    requires
        0 <= p < s.len(),
    ensures
        p < run_end(s, p) <= s.len(),
        forall|k: int| p <= k < run_end(s, p) ==> #[trigger] s[k] == s[p] + (k - p),
    decreases s.len() - p,
{
    if p + 1 < s.len() && s[p + 1] == s[p] + 1 {
        lemma_run_end_bounds(s, p + 1);
    }
}

proof fn lemma_present_skip(ns: Seq<u16>, a: int, b: int)
    requires
        0 <= a <= b <= 65536,
        forall|x: int| a <= x < b ==> !ns.contains(#[trigger] (x as u16)),
    ensures
        present_from(ns, a) == present_from(ns, b),
    decreases b - a,
{
    if a < b {
        assert(!ns.contains(a as u16));
        lemma_present_skip(ns, a + 1, b);
    }
}

proof fn lemma_present_bounds(ns: Seq<u16>, v: int)
    requires
        0 <= v,
    ensures
        forall|k: int| 0 <= k < present_from(ns, v).len() ==> #[trigger] present_from(ns, v)[k] >= v,
        forall|i: int, j: int| 0 <= i < j < present_from(ns, v).len() ==> present_from(ns, v)[i] < present_from(ns, v)[j],
    decreases 65536 - v,
{
    if v <= 65535 {
        lemma_present_bounds(ns, v + 1);
        let rest = present_from(ns, v + 1);
        if ns.contains(v as u16) {
            let whole = seq![v as u16] + rest;
            assert(present_from(ns, v) == whole);
            assert forall|k: int| 0 <= k < whole.len() implies #[trigger] whole[k] >= v by {
                if k > 0 {
                    assert(whole[k] == rest[k - 1]);
                }
            }
            assert forall|i: int, j: int| 0 <= i < j < whole.len() implies whole[i] < whole[j] by {
                assert(whole[j] == rest[j - 1]);
                if i > 0 {
                    assert(whole[i] == rest[i - 1]);
                } else {
                    assert(rest[j - 1] >= v + 1);
                }
            }
        }
    }
}

/// Sorted, deduplicated copy of `ns`.
fn sort_dedup(ns: &[u16]) -> (r: Vec<u16>)
    ensures
        r@ == sorted_distinct(ns@),
{
    let mut out: Vec<u16> = Vec::new();
    if ns.len() == 0 {
        proof {
            lemma_present_skip(ns@, 0, 65536);
        }
        return out;
    }
    let mut lo: u16 = ns[0];
    let mut hi: u16 = ns[0];
    let mut k: usize = 1;
    while k < ns.len()
        invariant
            1 <= k <= ns.len(),
            ns@.contains(lo),
            ns@.contains(hi),
            forall|j: int| 0 <= j < k ==> lo <= #[trigger] ns@[j] <= hi,
        decreases ns.len() - k,
    {
        if ns[k] < lo {
            lo = ns[k];
        }
        if ns[k] > hi {
            hi = ns[k];
        }
        k = k + 1;
    }
    proof {
        assert forall|x: int| 0 <= x < lo implies !ns@.contains(#[trigger] (x as u16)) by {
            if ns@.contains(x as u16) {
                let j = choose|j: int| 0 <= j < ns@.len() && ns@[j] == x as u16;
                assert(lo <= ns@[j]);
            }
        }
        lemma_present_skip(ns@, 0, lo as int);
    }
    let mut v: u32 = lo as u32;
    while v <= hi as u32
        invariant
            lo <= v <= hi as u32 + 1,
            present_from(ns@, 0) == out@ + present_from(ns@, v as int),
        decreases hi as u32 + 1 - v,
    {
        let x: u16 = v as u16;
        let mut found = false;
        let mut j: usize = 0;
        while j < ns.len()
            invariant
                j <= ns.len(),
                found == (exists|i: int| 0 <= i < j && ns@[i] == x),
            decreases ns.len() - j,
        {
            if ns[j] == x {
                found = true;
            }
            j = j + 1;
        }
        proof {
            assert(found == ns@.contains(x));
            assert(x as int == v as int);
            if found {
                assert(present_from(ns@, v as int) == seq![x] + present_from(ns@, v + 1));
                assert(out@.push(x) + present_from(ns@, v + 1) =~= out@ + (seq![x] + present_from(ns@, v + 1)));
            }
        }
        if found {
            out.push(x);
        }
        v = v + 1;
    }
    proof {
        assert forall|x: int| v <= x < 65536 implies !ns@.contains(#[trigger] (x as u16)) by {
            if ns@.contains(x as u16) {
                let j = choose|j: int| 0 <= j < ns@.len() && ns@[j] == x as u16;
                assert(ns@[j] <= hi);
            }
        }
        lemma_present_skip(ns@, v as int, 65536);
        assert(out@ + present_from(ns@, 65536) =~= out@);
    }
    out
}

fn push_segment(out: &mut Vec<char>, a: u16, b: u16)
    ensures
        final(out)@ == old(out)@ + segment(a, b),
{
    push_decimal(out, a as u64);
    if a != b {
        out.push('-');
        push_decimal(out, b as u64);
        proof {
            assert(old(out)@ + dec_digits(a as nat) + seq!['-'] + dec_digits(b as nat) =~= old(out)@ + segment(a, b));
        }
    }
}

/// Append the range rendering of the strictly increasing `s`.
fn push_runs(out: &mut Vec<char>, s: &Vec<u16>)
    requires
        forall|i: int, j: int| 0 <= i < j < s@.len() ==> s@[i] < s@[j],
    ensures
        final(out)@ == old(out)@ + render_runs(s@, 0),
{
    let n = s.len();
    let mut p: usize = 0;
    while p < n
        invariant
            n == s@.len(),
            p <= n,
            p == 0 || p == n || (p > 0 && p < n),
            old(out)@ + render_runs(s@, 0) == out@ + (if 0 < p && p < n { seq![','] } else { Seq::empty() }) + render_runs(s@, p as int),
        decreases n - p,
    {
        if p > 0 {
            out.push(',');
        }
        let mut q: usize = p + 1;
        while q < n && s[q] as u32 == s[q - 1] as u32 + 1
            invariant
                n == s@.len(),
                p < q <= n,
                run_end(s@, p as int) == run_end(s@, q as int - 1),
            decreases n - q,
        {
            q = q + 1;
        }
        proof {
            assert(run_end(s@, q as int - 1) == q as int);
            lemma_run_end_bounds(s@, p as int);
        }
        let ghost before = out@;
        push_segment(out, s[p], s[q - 1]);
        proof {
            let rr = render_runs(s@, p as int);
            if q < n {
                assert(rr == segment(s@[p as int], s@[q - 1]) + seq![','] + render_runs(s@, q as int));
            } else {
                assert(rr == segment(s@[p as int], s@[q - 1]));
                assert(render_runs(s@, q as int) =~= Seq::<char>::empty());
            }
        }
        p = q;
    }
    proof {
        assert(render_runs(s@, n as int) =~= Seq::<char>::empty());
    }
}

/// Compress a list of numbers into range notation, e.g. `[1,2,3,7,12]`
/// becomes `"1-3,7,12"`. Order and duplicates in the input do not matter.
pub fn format_ranges(numbers: &[u16]) -> (r: String)
    ensures
        r@ == spec_format_ranges(numbers@),
{
    let sd = sort_dedup(numbers);
    proof {
        lemma_present_bounds(numbers@, 0);
    }
    let mut out: Vec<char> = Vec::new();
    push_runs(&mut out, &sd);
    string_from_chars(&out)
}


/// Word used for a single-kind member list, e.g. `"Input"` in `"Input 1-3"`.
pub open spec fn kind_word(kind: int) -> Seq<char> {
    if kind == 0 {
        "Input"@
    } else if kind == 1 {
        "Aux"@
    } else if kind == 2 {
        "Group"@
    } else if kind == 3 {
        "Mtx"@
    } else if kind == 4 {
        "CG"@
    } else if kind == 5 {
        "GEQ"@
    } else {
        "MtxIn"@
    }
}

/// Short tag used in a mixed member list, e.g. `"A"` in `"I1,A2"`.
pub open spec fn kind_tag(kind: int) -> Seq<char> {
    if kind == 0 {
        "I"@
    } else if kind == 1 {
        "A"@
    } else if kind == 2 {
        "G"@
    } else if kind == 3 {
        "M"@
    } else if kind == 4 {
        "CG"@
    } else if kind == 5 {
        "GEQ"@
    } else {
        "MI"@
    }
}

/// Whether every member is a strip of the same kind.
pub open spec fn all_same_kind(ms: Seq<ChannelId>) -> bool {
    forall|i: int| 0 <= i < ms.len() ==> kind_index(#[trigger] ms[i]) == kind_index(ms[0])
}

/// Tag-and-number items joined by commas, from index `p` on.
pub open spec fn tagged_list(ms: Seq<ChannelId>, p: int) -> Seq<char>
    decreases ms.len() - p,
{
    if p < 0 || p >= ms.len() {
        Seq::empty()
    } else {
        let item = kind_tag(kind_index(ms[p])) + dec_digits(spec_channel_number(ms[p]) as nat);
        if p + 1 < ms.len() {
            item + seq![','] + tagged_list(ms, p + 1)
        } else {
            item
        }
    }
}

/// Display text for a gang's member list: empty for no members; for members
/// all of one kind, the kind word and the range notation of their numbers
/// (`"Input 1-3"`); otherwise each member as tag + number, comma-separated
/// (`"I1,A2,G5"`).
pub open spec fn spec_format_members(ms: Seq<ChannelId>) -> Seq<char> {
    if ms.len() == 0 {
        Seq::empty()
    } else if all_same_kind(ms) {
        kind_word(kind_index(ms[0])) + seq![' '] + spec_format_ranges(ms.map_values(|m: ChannelId| spec_channel_number(m)))
    } else {
        tagged_list(ms, 0)
    }
}

fn push_kind_word(out: &mut Vec<char>, kind: u8)
    ensures
        final(out)@ == old(out)@ + kind_word(kind as int),
{
    if kind == 0 {
        push_str(out, "Input");
    } else if kind == 1 {
        push_str(out, "Aux");
    } else if kind == 2 {
        push_str(out, "Group");
    } else if kind == 3 {
        push_str(out, "Mtx");
    } else if kind == 4 {
        push_str(out, "CG");
    } else if kind == 5 {
        push_str(out, "GEQ");
    } else {
        push_str(out, "MtxIn");
    }
}

fn push_kind_tag(out: &mut Vec<char>, kind: u8)
    ensures
        final(out)@ == old(out)@ + kind_tag(kind as int),
{
    if kind == 0 {
        push_str(out, "I");
    } else if kind == 1 {
        push_str(out, "A");
    } else if kind == 2 {
        push_str(out, "G");
    } else if kind == 3 {
        push_str(out, "M");
    } else if kind == 4 {
        push_str(out, "CG");
    } else if kind == 5 {
        push_str(out, "GEQ");
    } else {
        push_str(out, "MI");
    }
}

/// Format a list of channel members for display (see [`spec_format_members`]).
pub fn format_members(members: &[ChannelId]) -> (r: String)
    ensures
        r@ == spec_format_members(members@),
{
    let n = members.len();
    let mut out: Vec<char> = Vec::new();
    if n == 0 {
        return string_from_chars(&out);
    }
    let first_kind = kind_code(&members[0]);
    let mut same = true;
    let mut k: usize = 1;
    while k < n
        invariant
            n == members@.len(),
            1 <= k <= n,
            first_kind == kind_index(members@[0]),
            same == (forall|i: int| 0 <= i < k ==> kind_index(#[trigger] members@[i]) == kind_index(members@[0])),
        decreases n - k,
    {
        if kind_code(&members[k]) != first_kind {
            same = false;
        }
        k = k + 1;
    }
    if same {
        let mut numbers: Vec<u16> = Vec::new();
        let mut j: usize = 0;
        while j < n
            invariant
                n == members@.len(),
                j <= n,
                numbers@ =~= members@.subrange(0, j as int).map_values(|m: ChannelId| spec_channel_number(m)),
            decreases n - j,
        {
            numbers.push(channel_number(&members[j]));
            j = j + 1;
        }
        proof {
            assert(members@.subrange(0, n as int) =~= members@);
        }
        push_kind_word(&mut out, first_kind);
        out.push(' ');
        let ranges = format_ranges(numbers.as_slice());
        let mut rc = crate::text::chars_of(ranges.as_str());
        out.append(&mut rc);
        return string_from_chars(&out);
    }
    let mut p: usize = 0;
    while p < n
        invariant
            n == members@.len(),
            p <= n,
            !all_same_kind(members@),
            tagged_list(members@, 0) == out@ + (if 0 < p && p < n { seq![','] } else { Seq::empty() }) + tagged_list(members@, p as int),
        decreases n - p,
    {
        if p > 0 {
            out.push(',');
        }
        push_kind_tag(&mut out, kind_code(&members[p]));
        push_decimal(&mut out, channel_number(&members[p]) as u64);
        p = p + 1;
    }
    proof {
        assert(tagged_list(members@, n as int) =~= Seq::<char>::empty());
    }
    string_from_chars(&out)
}


/// How a gang links its members' pans.
#[derive(Clone, Copy, Debug, PartialEq, Eq, Structural)]
pub enum GangPanMode {
    Off,
    On,
    /// Mirror image; exactly two members only.
    Reversed,
}

/// The help key explaining what a linked section does in a gang.
pub open spec fn spec_section_help_key(s: ParameterSection) -> HelpKey {
    match s {
        ParameterSection::FaderMutePan => HelpKey::GangFaderMutePan,
        ParameterSection::Name => HelpKey::GangName,
        ParameterSection::InputGain => HelpKey::GangInputGain,
        ParameterSection::Trim => HelpKey::GangTrim,
        ParameterSection::Polarity => HelpKey::GangPolarity,
        ParameterSection::BalanceWidth => HelpKey::GangBalanceWidth,
        ParameterSection::Delay => HelpKey::GangDelay,
        ParameterSection::Digitube => HelpKey::GangDigitube,
        ParameterSection::Eq => HelpKey::GangEq,
        ParameterSection::Dyn1 => HelpKey::GangDyn1,
        ParameterSection::Dyn2 => HelpKey::GangDyn2,
        ParameterSection::Sends => HelpKey::GangSends,
        ParameterSection::GroupRouting => HelpKey::GangGroupRouting,
        ParameterSection::Inserts => HelpKey::GangInserts,
        ParameterSection::CgMembership => HelpKey::GangCgMembership,
        ParameterSection::GraphicEq => HelpKey::GangGraphicEq,
        ParameterSection::MatrixSends => HelpKey::GangMatrixSends,
    }
}

pub fn section_help_key(section: ParameterSection) -> (k: HelpKey)
    ensures
        k == spec_section_help_key(section),
{
    match section {
        ParameterSection::FaderMutePan => HelpKey::GangFaderMutePan,
        ParameterSection::Name => HelpKey::GangName,
        ParameterSection::InputGain => HelpKey::GangInputGain,
        ParameterSection::Trim => HelpKey::GangTrim,
        ParameterSection::Polarity => HelpKey::GangPolarity,
        ParameterSection::BalanceWidth => HelpKey::GangBalanceWidth,
        ParameterSection::Delay => HelpKey::GangDelay,
        ParameterSection::Digitube => HelpKey::GangDigitube,
        ParameterSection::Eq => HelpKey::GangEq,
        ParameterSection::Dyn1 => HelpKey::GangDyn1,
        ParameterSection::Dyn2 => HelpKey::GangDyn2,
        ParameterSection::Sends => HelpKey::GangSends,
        ParameterSection::GroupRouting => HelpKey::GangGroupRouting,
        ParameterSection::Inserts => HelpKey::GangInserts,
        ParameterSection::CgMembership => HelpKey::GangCgMembership,
        ParameterSection::GraphicEq => HelpKey::GangGraphicEq,
        ParameterSection::MatrixSends => HelpKey::GangMatrixSends,
    }
}

/// One-line tooltip explaining what a section links when included in a
/// gang, in the active help language.
pub fn section_tooltip(state: &HelpState, section: ParameterSection) -> (r: String)
    ensures
        r@ == spec_help(crate::help::active_view(state), spec_section_help_key(section)),
{
    help(state, section_help_key(section))
}

/// Outcome of pressing Save / Add Gang.
#[derive(Clone, Copy, Debug, PartialEq, Eq, Structural)]
pub enum GangFormCheck {
    /// Blank name: the press does nothing.
    Ignored,
    NoMembers,
    NoSection,
    /// A gang needs at least two members.
    TooFewMembers,
    /// Reversed pan needs exactly two members.
    ReversedNeedsPair,
    /// The gang is saved.
    Accepted,
}

/// The add / edit gang form.
pub struct GangForm {
    pub name: String,
    pub members: Vec<ChannelId>,
    pub sections: Vec<ParameterSection>,
    pub pan_mode: GangPanMode,
    pub editing: Option<u128>,
}

/// The first failing check, in the order the form applies them.
pub open spec fn spec_check(name: Seq<char>, members: nat, sections: nat, pan: GangPanMode) -> GangFormCheck {
    if trim(name).len() == 0 {
        GangFormCheck::Ignored
    } else if members == 0 {
        GangFormCheck::NoMembers
    } else if sections == 0 {
        GangFormCheck::NoSection
    } else if members < 2 {
        GangFormCheck::TooFewMembers
    } else if pan == GangPanMode::Reversed && members != 2 {
        GangFormCheck::ReversedNeedsPair
    } else {
        GangFormCheck::Accepted
    }
}

impl GangForm {
    /// An empty form: no name or members, Fader/Mute linked, pan linked.
    pub fn new() -> (f: GangForm)
        ensures
            f.name@.len() == 0,
            f.members@.len() == 0,
            f.sections@ == seq![ParameterSection::FaderMutePan],
            f.pan_mode == GangPanMode::On,
            f.editing is None,
    {
        let mut sections: Vec<ParameterSection> = Vec::new();
        sections.push(ParameterSection::FaderMutePan);
        GangForm {
            name: String::new(),
            members: Vec::new(),
            sections,
            pan_mode: GangPanMode::On,
            editing: None,
        }
    }

    /// What pressing Save does with the form as it stands.
    pub fn check(&self) -> (c: GangFormCheck)
        ensures
            c == spec_check(self.name@, self.members@.len(), self.sections@.len(), self.pan_mode),
    {
        let name = trim_chars(&chars_of(self.name.as_str()));
        if name.len() == 0 {
            GangFormCheck::Ignored
        } else if self.members.len() == 0 {
            GangFormCheck::NoMembers
        } else if self.sections.len() == 0 {
            GangFormCheck::NoSection
        } else if self.members.len() < 2 {
            GangFormCheck::TooFewMembers
        } else if self.pan_mode == GangPanMode::Reversed && self.members.len() != 2 {
            GangFormCheck::ReversedNeedsPair
        } else {
            GangFormCheck::Accepted
        }
    }

    /// The gang name as saved: the form's name, trimmed.
    pub fn saved_name(&self) -> (r: String)
        ensures
            r@ == trim(self.name@),
    {
        string_from_chars(&trim_chars(&chars_of(self.name.as_str())))
    }

    /// The REVERSED pan option is offered only for an exact pair.
    pub fn reversed_pan_enabled(&self) -> (r: bool)
        ensures
            r == (self.members@.len() == 2),
    {
        self.members.len() == 2
    }

    /// Click on an applicable section toggle: unlink it if linked, else
    /// link it (appended).
    pub fn toggle_section(&mut self, section: ParameterSection)
        ensures
            final(self).sections@ == toggled(old(self).sections@, section),
            final(self).members@ == old(self).members@,
            final(self).pan_mode == old(self).pan_mode,
    {
        let mut k: usize = 0;
        while k < self.sections.len()
            invariant
                k <= self.sections@.len(),
                self.sections@ == old(self).sections@,
                self.members@ == old(self).members@,
                self.pan_mode == old(self).pan_mode,
                forall|j: int| 0 <= j < k ==> self.sections@[j] != section,
            decreases self.sections@.len() - k,
        {
            if self.sections[k] == section {
                proof {
                    lemma_first_pos(self.sections@, section);
                    assert(crate::seqs::first_pos(self.sections@, section) == k as int);
                }
                self.sections.remove(k);
                return;
            }
            k = k + 1;
        }
        self.sections.push(section);
    }

    /// Back to an empty form (after a save, or Cancel while editing).
    pub fn reset(&mut self)
        ensures
            final(self).name@.len() == 0,
            final(self).members@.len() == 0,
            final(self).sections@ == seq![ParameterSection::FaderMutePan],
            final(self).pan_mode == GangPanMode::On,
            final(self).editing is None,
    {
        *self = GangForm::new();
    }
}


/// The kind words and tags: each of the seven strip kinds has its own word
/// (and its own tag for mixed lists), and a member list of one kind is that kind's word, a space and the numbers'
/// range notation (`Aux 1-3` for three auxes).
pub proof fn law_member_list_names_its_kind(ms: Seq<ChannelId>)
    ensures
        kind_word(0) == "Input"@,
        kind_word(1) == "Aux"@,
        kind_word(2) == "Group"@,
        kind_word(3) == "Mtx"@,
        kind_word(4) == "CG"@,
        kind_word(5) == "GEQ"@,
        kind_word(6) == "MtxIn"@,
        forall|k: int, l: int| 0 <= k < l < 7 ==> kind_word(k) != kind_word(l),
        kind_tag(0) == "I"@ && kind_tag(1) == "A"@ && kind_tag(2) == "G"@ && kind_tag(3) == "M"@,
        kind_tag(4) == "CG"@ && kind_tag(5) == "GEQ"@ && kind_tag(6) == "MI"@,
        ms.len() > 0 && all_same_kind(ms) ==> spec_format_members(ms) == (match ms[0] {
            ChannelId::Input(_) => "Input"@,
            ChannelId::Aux(_) => "Aux"@,
            ChannelId::Group(_) => "Group"@,
            ChannelId::Matrix(_) => "Mtx"@,
            ChannelId::ControlGroup(_) => "CG"@,
            ChannelId::GraphicEq(_) => "GEQ"@,
            ChannelId::MatrixInput(_) => "MtxIn"@,
        }) + seq![' '] + spec_format_ranges(ms.map_values(|m: ChannelId| spec_channel_number(m))),
{
    reveal_strlit("Input");
    reveal_strlit("Aux");
    reveal_strlit("Group");
    reveal_strlit("Mtx");
    reveal_strlit("CG");
    reveal_strlit("GEQ");
    reveal_strlit("MtxIn");
    assert forall|k: int, l: int| 0 <= k < l < 7 implies kind_word(k) != kind_word(l) by {
        if kind_word(k).len() == kind_word(l).len() {
            assert(kind_word(k)[0] != kind_word(l)[0] || kind_word(k)[1] != kind_word(l)[1]);
        }
    }
}

} // verus!
