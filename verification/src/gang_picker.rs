//! Channel-tile grid used to build a gang's member list: per-frame grid data,
//! channel-type exclusivity buckets, and click handling.

use vstd::prelude::*;
use crate::channel::{
    ChannelGroup, ChannelId, ChannelMode, ConsoleConfig, channel_number, spec_channel_number,
};
use crate::state::{ConsoleState, ParameterAddress, ParameterPath, ParameterValue};
use crate::seqs::{append_missing, lemma_append_missing, lemma_first_pos, lemma_toggle, no_dups, toggled, first_pos};

verus! {

/// Per-frame snapshot of the available channels, their names and stereo
/// flags, built from live console state.
pub struct ChannelGridData {
    /// Every available channel, grouped by type; empty groups are skipped.
    pub groups: Vec<(ChannelGroup, Vec<ChannelId>)>,
    /// Operator-given channel names (channels with no or an empty name are
    /// absent).
    pub names: Vec<(ChannelId, String)>,
    /// Channels whose tile draws the stereo bar (stereo auxes / groups).
    pub stereo: Vec<ChannelId>,
}

/// The grid groups as plain values.
pub open spec fn groups_view(gs: Seq<(ChannelGroup, Vec<ChannelId>)>) -> Seq<(ChannelGroup, Seq<ChannelId>)> {
    gs.map_values(|e: (ChannelGroup, Vec<ChannelId>)| (e.0, e.1@))
}

/// The names as plain values.
pub open spec fn names_view(ns: Seq<(ChannelId, String)>) -> Seq<(ChannelId, Seq<char>)> {
    ns.map_values(|e: (ChannelId, String)| (e.0, e.1@))
}

/// The non-empty groups of `gs` (in order), each with its channels.
pub open spec fn nonempty_groups(gs: Seq<ChannelGroup>, cfg: &ConsoleConfig) -> Seq<(ChannelGroup, Seq<ChannelId>)>
    decreases gs.len(),
{
    if gs.len() == 0 {
        Seq::empty()
    } else {
        let rest = nonempty_groups(gs.drop_last(), cfg);
        let g = gs.last();
        if g.spec_count(cfg) > 0 {
            rest.push((g, g.spec_channels(cfg)))
        } else {
            rest
        }
    }
}

/// Every channel of the groups, group after group.
pub open spec fn flat_channels(gs: Seq<(ChannelGroup, Seq<ChannelId>)>) -> Seq<ChannelId>
    decreases gs.len(),
{
    if gs.len() == 0 {
        Seq::empty()
    } else {
        flat_channels(gs.drop_last()) + gs.last().1
    }
}

/// The non-empty name a channel carries in `state`, if any.
pub open spec fn channel_name(state: &ConsoleState, ch: ChannelId) -> Option<Seq<char>> {
    match state.spec_get(ParameterAddress { channel: ch, parameter: ParameterPath::Name }) {
        Some(ParameterValue::String(s)) => if s@.len() > 0 { Some(s@) } else { None },
        _ => None,
    }
}

/// `(channel, name)` for every channel of `chans` that has a non-empty name.
pub open spec fn names_for(state: &ConsoleState, chans: Seq<ChannelId>) -> Seq<(ChannelId, Seq<char>)>
    decreases chans.len(),
{
    if chans.len() == 0 {
        Seq::empty()
    } else {
        let rest = names_for(state, chans.drop_last());
        match channel_name(state, chans.last()) {
            Some(n) => rest.push((chans.last(), n)),
            None => rest,
        }
    }
}

/// Whether a channel's tile shows the stereo bar: a stereo aux, or a stereo
/// group (group `n` reads mode index `n - 1`, saturating at 0).
pub open spec fn is_stereo(cfg: &ConsoleConfig, ch: ChannelId) -> bool {
    match ch {
        ChannelId::Aux(n) => cfg.spec_aux_mode(n as int) == Some(ChannelMode::Stereo),
        ChannelId::Group(n) => {
            let i = if n == 0 { 0 } else { n - 1 };
            0 <= i < cfg.group_modes@.len() && cfg.group_modes@[i] == ChannelMode::Stereo
        },
        _ => false,
    }
}

/// The channels of `chans` that show the stereo bar, in order.
pub open spec fn stereo_for(cfg: &ConsoleConfig, chans: Seq<ChannelId>) -> Seq<ChannelId>
    decreases chans.len(),
{
    if chans.len() == 0 {
        Seq::empty()
    } else {
        let rest = stereo_for(cfg, chans.drop_last());
        if is_stereo(cfg, chans.last()) {
            rest.push(chans.last())
        } else {
            rest
        }
    }
}

proof fn lemma_names_for_append(state: &ConsoleState, a: Seq<ChannelId>, b: Seq<ChannelId>)
    ensures
        names_for(state, a + b) == names_for(state, a) + names_for(state, b),
    decreases b.len(),
{
    if b.len() == 0 {
        assert(a + b =~= a);
        assert(names_for(state, a) + names_for(state, b) =~= names_for(state, a));
    } else {
        assert((a + b).drop_last() =~= a + b.drop_last());
        lemma_names_for_append(state, a, b.drop_last());
        assert((a + b).last() == b.last());
        let ra = names_for(state, a);
        let rb = names_for(state, b.drop_last());
        match channel_name(state, b.last()) {
            Some(n) => {
                assert(ra + rb.push((b.last(), n)) =~= (ra + rb).push((b.last(), n)));
            },
            None => {},
        }
    }
}

proof fn lemma_stereo_for_append(cfg: &ConsoleConfig, a: Seq<ChannelId>, b: Seq<ChannelId>)
    ensures
        stereo_for(cfg, a + b) == stereo_for(cfg, a) + stereo_for(cfg, b),
    decreases b.len(),
{
    if b.len() == 0 {
        assert(a + b =~= a);
        assert(stereo_for(cfg, a) + stereo_for(cfg, b) =~= stereo_for(cfg, a));
    } else {
        assert((a + b).drop_last() =~= a + b.drop_last());
        lemma_stereo_for_append(cfg, a, b.drop_last());
        assert((a + b).last() == b.last());
        let ra = stereo_for(cfg, a);
        let rb = stereo_for(cfg, b.drop_last());
        if is_stereo(cfg, b.last()) {
            assert(ra + rb.push(b.last()) =~= (ra + rb).push(b.last()));
        }
    }
}

fn channel_name_of(state: &ConsoleState, ch: ChannelId) -> (r: Option<String>)
    ensures
        match r {
            Some(s) => channel_name(state, ch) == Some(s@),
            None => channel_name(state, ch) is None,
        },
{
    match state.get(&ParameterAddress { channel: ch, parameter: ParameterPath::Name }) {
        Some(ParameterValue::String(s)) => {
            if !s.as_str().is_empty() {
                Some(s.clone())
            } else {
                None
            }
        },
        _ => None,
    }
}

fn stereo_flag(cfg: &ConsoleConfig, ch: &ChannelId) -> (r: bool)
    ensures
        r == is_stereo(cfg, *ch),
{
    match ch {
        ChannelId::Aux(n) => match cfg.aux_mode(*n) {
            Some(ChannelMode::Stereo) => true,
            _ => false,
        },
        ChannelId::Group(n) => {
            let i: usize = if *n == 0 { 0 } else { (*n - 1) as usize };
            i < cfg.group_modes.len() && match cfg.group_modes[i] {
                ChannelMode::Stereo => true,
                ChannelMode::Mono => false,
            }
        },
        _ => false,
    }
}

/// `(channel, name)` for every grid channel with a non-empty name.
fn collect_names(state: &ConsoleState, groups: &Vec<(ChannelGroup, Vec<ChannelId>)>) -> (r: Vec<(ChannelId, String)>)
    ensures
        names_view(r@) == names_for(state, flat_channels(groups_view(groups@))),
{
    let mut out: Vec<(ChannelId, String)> = Vec::new();
    let mut gi: usize = 0;
    while gi < groups.len()
        invariant
            gi <= groups.len(),
            names_view(out@) == names_for(state, flat_channels(groups_view(groups@.subrange(0, gi as int)))),
        decreases groups.len() - gi,
    {
        let chans = &groups[gi].1;
        let ghost base = out@;
        let mut ci: usize = 0;
        while ci < chans.len()
            invariant
                ci <= chans.len(),
                names_view(out@) == names_view(base) + names_for(state, chans@.subrange(0, ci as int)),
            decreases chans.len() - ci,
        {
            let ch = chans[ci];
            let nm = channel_name_of(state, ch);
            proof {
                assert(chans@.subrange(0, ci + 1).drop_last() =~= chans@.subrange(0, ci as int));
                assert(chans@.subrange(0, ci + 1).last() == ch);
            }
            match nm {
                Some(s) => {
                    let ghost prev = out@;
                    let ghost sv = s@;
                    out.push((ch, s));
                    proof {
                        assert(out@ == prev.push((ch, s)));
                        assert(names_view(out@) =~= names_view(prev).push((ch, sv)));
                        assert(names_for(state, chans@.subrange(0, ci + 1)) == names_for(state, chans@.subrange(0, ci as int)).push((ch, sv)));
                        assert(names_view(out@) =~= names_view(base) + names_for(state, chans@.subrange(0, ci + 1)));
                    }
                },
                None => {
                    proof {
                        assert(names_view(out@) =~= names_view(base) + names_for(state, chans@.subrange(0, ci + 1)));
                    }
                },
            }
            ci = ci + 1;
        }
        proof {
            let pre = groups_view(groups@.subrange(0, gi as int));
            let post = groups_view(groups@.subrange(0, gi + 1));
            assert(post.drop_last() =~= pre);
            assert(post.last() == (groups@[gi as int].0, chans@));
            assert(chans@.subrange(0, chans@.len() as int) =~= chans@);
            lemma_names_for_append(state, flat_channels(pre), chans@);
            assert(names_view(base) + names_view(out@).subrange(base.len() as int, out@.len() as int) =~= names_view(out@));
        }
        gi = gi + 1;
    }
    proof {
        assert(groups@.subrange(0, groups@.len() as int) =~= groups@);
    }
    out
}

/// The grid channels that draw the stereo bar.
fn collect_stereo(cfg: &ConsoleConfig, groups: &Vec<(ChannelGroup, Vec<ChannelId>)>) -> (r: Vec<ChannelId>)
    ensures
        r@ == stereo_for(cfg, flat_channels(groups_view(groups@))),
{
    let mut out: Vec<ChannelId> = Vec::new();
    let mut gi: usize = 0;
    while gi < groups.len()
        invariant
            gi <= groups.len(),
            out@ == stereo_for(cfg, flat_channels(groups_view(groups@.subrange(0, gi as int)))),
        decreases groups.len() - gi,
    {
        let chans = &groups[gi].1;
        let ghost base = out@;
        let mut ci: usize = 0;
        while ci < chans.len()
            invariant
                ci <= chans.len(),
                out@ == base + stereo_for(cfg, chans@.subrange(0, ci as int)),
            decreases chans.len() - ci,
        {
            let ch = chans[ci];
            proof {
                assert(chans@.subrange(0, ci + 1).drop_last() =~= chans@.subrange(0, ci as int));
                assert(chans@.subrange(0, ci + 1).last() == ch);
            }
            if stereo_flag(cfg, &ch) {
                out.push(ch);
            }
            proof {
                assert(out@ =~= base + stereo_for(cfg, chans@.subrange(0, ci + 1)));
            }
            ci = ci + 1;
        }
        proof {
            let pre = groups_view(groups@.subrange(0, gi as int));
            let post = groups_view(groups@.subrange(0, gi + 1));
            assert(post.drop_last() =~= pre);
            assert(post.last() == (groups@[gi as int].0, chans@));
            assert(chans@.subrange(0, chans@.len() as int) =~= chans@);
            lemma_stereo_for_append(cfg, flat_channels(pre), chans@);
        }
        gi = gi + 1;
    }
    proof {
        assert(groups@.subrange(0, groups@.len() as int) =~= groups@);
    }
    out
}

impl ChannelGridData {
    /// Build the grid from live console state: every non-empty channel group
    /// in display order, the non-empty channel names, and the stereo flags.
    pub fn from_state(state: &ConsoleState) -> (d: ChannelGridData)
        ensures
            groups_view(d.groups@) == nonempty_groups(ChannelGroup::spec_all(), &state.spec_config()),
            names_view(d.names@) == names_for(state, flat_channels(groups_view(d.groups@))),
            d.stereo@ == stereo_for(&state.spec_config(), flat_channels(groups_view(d.groups@))),
    {
        let cfg = state.config();
        let all = ChannelGroup::all();
        let mut groups: Vec<(ChannelGroup, Vec<ChannelId>)> = Vec::new();
        let mut i: usize = 0;
        while i < all.len()
            invariant
                i <= all.len(),
                all@ == ChannelGroup::spec_all(),
                *cfg == state.spec_config(),
                groups_view(groups@) == nonempty_groups(all@.subrange(0, i as int), cfg),
            decreases all.len() - i,
        {
            let g = all[i];
            let chans = g.channels_from(cfg);
            proof {
                assert(all@.subrange(0, i + 1).drop_last() =~= all@.subrange(0, i as int));
                assert(all@.subrange(0, i + 1).last() == g);
            }
            if chans.len() > 0 {
                groups.push((g, chans));
                proof {
                    assert(groups_view(groups@) =~= nonempty_groups(all@.subrange(0, i as int), cfg).push((g, g.spec_channels(cfg))));
                }
            }
            i = i + 1;
        }
        proof {
            assert(all@.subrange(0, all@.len() as int) =~= all@);
        }
        let names = collect_names(state, &groups);
        let stereo = collect_stereo(cfg, &groups);
        ChannelGridData { groups, names, stereo }
    }
}


/// Mutually-exclusive channel-type buckets. A gang's members must all share
/// one bucket.
#[derive(Clone, Copy, Debug, PartialEq, Eq, Structural)]
pub enum TypeBucket {
    /// Input, Aux, Group, Matrix, ControlGroup — gang freely among themselves.
    Normal,
    /// Matrix Input — only with other Matrix Inputs.
    MatrixIn,
    /// Graphic EQ — only with other Graphic EQs.
    GraphicEq,
}

pub open spec fn spec_bucket_of(ch: ChannelId) -> TypeBucket {
    match ch {
        ChannelId::MatrixInput(_) => TypeBucket::MatrixIn,
        ChannelId::GraphicEq(_) => TypeBucket::GraphicEq,
        _ => TypeBucket::Normal,
    }
}

/// The bucket a channel belongs to.
pub fn bucket_of(ch: &ChannelId) -> (b: TypeBucket)
    ensures
        b == spec_bucket_of(*ch),
{
    match ch {
        ChannelId::MatrixInput(_) => TypeBucket::MatrixIn,
        ChannelId::GraphicEq(_) => TypeBucket::GraphicEq,
        _ => TypeBucket::Normal,
    }
}

/// The bucket the selection is locked to: `None` when the selection is empty
/// or (a legacy gang) spans several buckets, else the one shared bucket.
pub open spec fn spec_active_bucket(sel: Seq<ChannelId>) -> Option<TypeBucket> {
    if sel.len() == 0 {
        None
    } else if forall|i: int| 0 <= i < sel.len() ==> spec_bucket_of(#[trigger] sel[i]) == spec_bucket_of(sel[0]) {
        Some(spec_bucket_of(sel[0]))
    } else {
        None
    }
}

pub fn active_bucket(selection: &[ChannelId]) -> (r: Option<TypeBucket>)
    ensures
        r == spec_active_bucket(selection@),
{
    if selection.len() == 0 {
        return None;
    }
    let first = bucket_of(&selection[0]);
    let mut k: usize = 1;
    while k < selection.len()
        invariant
            1 <= k <= selection.len(),
            first == spec_bucket_of(selection@[0]),
            forall|i: int| 0 <= i < k ==> spec_bucket_of(#[trigger] selection@[i]) == first,
        decreases selection.len() - k,
    {
        if bucket_of(&selection[k]) != first {
            return None;
        }
        k = k + 1;
    }
    Some(first)
}

/// Anchor recorded for group `g` (first entry wins).
pub open spec fn anchor_get(anchors: Seq<(ChannelGroup, u16)>, g: ChannelGroup) -> Option<u16>
    decreases anchors.len(),
{
    if anchors.len() == 0 {
        None
    } else if anchors[0].0 == g {
        Some(anchors[0].1)
    } else {
        anchor_get(anchors.drop_first(), g)
    }
}

proof fn lemma_anchor_skip(a: Seq<(ChannelGroup, u16)>, g: ChannelGroup, k: int)
    requires
        0 <= k <= a.len(),
        forall|j: int| 0 <= j < k ==> (#[trigger] a[j]).0 != g,
    ensures
        anchor_get(a, g) == anchor_get(a.subrange(k, a.len() as int), g),
    decreases k,
{
    if k > 0 {
        assert(a.drop_first() =~= a.subrange(1, a.len() as int));
        lemma_anchor_skip(a.drop_first(), g, k - 1);
        assert(a.drop_first().subrange(k - 1, a.drop_first().len() as int) =~= a.subrange(k, a.len() as int));
    } else {
        assert(a.subrange(0, a.len() as int) =~= a);
    }
}

proof fn lemma_anchor_push(a: Seq<(ChannelGroup, u16)>, e: (ChannelGroup, u16), g: ChannelGroup)
    ensures
        anchor_get(a.push(e), g) == (if anchor_get(a, g) is Some {
            anchor_get(a, g)
        } else if e.0 == g {
            Some(e.1)
        } else {
            None
        }),
    decreases a.len(),
{
    let p = a.push(e);
    if a.len() > 0 {
        assert(p[0] == a[0]);
        assert(p.drop_first() =~= a.drop_first().push(e));
        lemma_anchor_push(a.drop_first(), e, g);
    } else {
        assert(p[0] == e);
        assert(p.drop_first() =~= Seq::<(ChannelGroup, u16)>::empty());
        assert(anchor_get(p.drop_first(), g) is None);
        assert(anchor_get(a, g) is None);
    }
}

proof fn lemma_anchor_update(a: Seq<(ChannelGroup, u16)>, k: int, v: u16, g: ChannelGroup)
    requires
        0 <= k < a.len(),
        forall|j: int| 0 <= j < k ==> (#[trigger] a[j]).0 != a[k].0,
    ensures
        anchor_get(a.update(k, (a[k].0, v)), g) == (if g == a[k].0 {
            Some(v)
        } else {
            anchor_get(a, g)
        }),
    decreases k,
{
    let u = a.update(k, (a[k].0, v));
    if k > 0 {
        assert(u[0] == a[0]);
        assert(a[0].0 != a[k].0);
        let d = a.drop_first();
        assert(d[k - 1] == a[k]);
        assert forall|j: int| 0 <= j < k - 1 implies (#[trigger] d[j]).0 != d[k - 1].0 by {
            assert(d[j] == a[j + 1]);
        }
        assert(u.drop_first() =~= d.update(k - 1, (a[k].0, v)));
        lemma_anchor_update(d, k - 1, v, g);
    } else {
        assert(u[0] == (a[0].0, v));
        assert(u.drop_first() =~= a.drop_first());
    }
}

/// Record `num` as the anchor of `group`, replacing an earlier anchor.
fn set_anchor(anchors: &mut Vec<(ChannelGroup, u16)>, group: ChannelGroup, num: u16)
    ensures
        anchor_get(final(anchors)@, group) == Some(num),
        forall|g: ChannelGroup| g != group ==> #[trigger] anchor_get(final(anchors)@, g) == anchor_get(old(anchors)@, g),
{
    let mut k: usize = 0;
    while k < anchors.len()
        invariant
            k <= anchors.len(),
            anchors@ == old(anchors)@,
            forall|j: int| 0 <= j < k ==> (#[trigger] anchors@[j]).0 != group,
        decreases anchors.len() - k,
    {
        if anchors[k].0 == group {
            proof {
                assert forall|g: ChannelGroup| true implies anchor_get(anchors@.update(k as int, (group, num)), g)
                    == (if g == group { Some(num) } else { anchor_get(anchors@, g) }) by {
                    lemma_anchor_update(anchors@, k as int, num, g);
                }
            }
            anchors.set(k, (group, num));
            return;
        }
        k = k + 1;
    }
    proof {
        assert forall|g: ChannelGroup| true implies anchor_get(anchors@.push((group, num)), g)
            == (if g == group { Some(num) } else { anchor_get(anchors@, g) }) by {
            lemma_anchor_push(anchors@, (group, num), g);
            if g == group {
                lemma_anchor_skip(anchors@, g, k as int);
            }
        }
    }
    anchors.push((group, num));
}

fn get_anchor(anchors: &Vec<(ChannelGroup, u16)>, group: ChannelGroup) -> (r: Option<u16>)
    ensures
        r == anchor_get(anchors@, group),
{
    let mut k: usize = 0;
    while k < anchors.len()
        invariant
            k <= anchors.len(),
            forall|j: int| 0 <= j < k ==> (#[trigger] anchors@[j]).0 != group,
        decreases anchors.len() - k,
    {
        if anchors[k].0 == group {
            proof {
                lemma_anchor_skip(anchors@, group, k as int);
            }
            return Some(anchors[k].1);
        }
        k = k + 1;
    }
    proof {
        lemma_anchor_skip(anchors@, group, k as int);
    }
    None
}

/// The channel list of the first grid group equal to `g` (empty if none).
pub open spec fn group_channels(gs: Seq<(ChannelGroup, Seq<ChannelId>)>, g: ChannelGroup) -> Seq<ChannelId>
    decreases gs.len(),
{
    if gs.len() == 0 {
        Seq::empty()
    } else if gs[0].0 == g {
        gs[0].1
    } else {
        group_channels(gs.drop_first(), g)
    }
}

/// The channels of `chs` whose number lies in `lo..=hi`, in order.
pub open spec fn numbered_between(chs: Seq<ChannelId>, lo: u16, hi: u16) -> Seq<ChannelId>
    decreases chs.len(),
{
    if chs.len() == 0 {
        Seq::empty()
    } else {
        let rest = numbered_between(chs.drop_last(), lo, hi);
        let c = chs.last();
        if lo <= spec_channel_number(c) && spec_channel_number(c) <= hi {
            rest.push(c)
        } else {
            rest
        }
    }
}

/// The selection after a click on `ch` (number `num`) in `group`. A
/// shift-click with an anchor recorded for `group` appends every channel of
/// that group numbered between the anchor and `num` that is not yet
/// selected; any other click toggles `ch`.
pub open spec fn spec_click_selection(
    sel: Seq<ChannelId>,
    anchors: Seq<(ChannelGroup, u16)>,
    gs: Seq<(ChannelGroup, Seq<ChannelId>)>,
    group: ChannelGroup,
    ch: ChannelId,
    num: u16,
    shift: bool,
) -> Seq<ChannelId> {
    match anchor_get(anchors, group) {
        Some(a) if shift => {
            let lo = if a <= num { a } else { num };
            let hi = if a <= num { num } else { a };
            append_missing(sel, numbered_between(group_channels(gs, group), lo, hi))
        },
        _ => toggled(sel, ch),
    }
}

fn contains_channel(sel: &Vec<ChannelId>, ch: &ChannelId) -> (r: bool)
    ensures
        r == sel@.contains(*ch),
{
    let mut k: usize = 0;
    while k < sel.len()
        invariant
            k <= sel.len(),
            forall|j: int| 0 <= j < k ==> sel@[j] != *ch,
        decreases sel.len() - k,
    {
        if sel[k] == *ch {
            return true;
        }
        k = k + 1;
    }
    false
}

fn find_group_channels(data: &ChannelGridData, group: ChannelGroup) -> (r: Vec<ChannelId>)
    ensures
        r@ == group_channels(groups_view(data.groups@), group),
{
    proof {
        let gv = groups_view(data.groups@);
        assert(gv.subrange(0, gv.len() as int) =~= gv);
    }
    let mut k: usize = 0;
    while k < data.groups.len()
        invariant
            k <= data.groups.len(),
            group_channels(groups_view(data.groups@), group) == group_channels(groups_view(data.groups@).subrange(k as int, data.groups@.len() as int), group),
        decreases data.groups.len() - k,
    {
        let ghost gv = groups_view(data.groups@);
        proof {
            let rest = gv.subrange(k as int, gv.len() as int);
            assert(rest.drop_first() =~= gv.subrange(k + 1, gv.len() as int));
            assert(rest[0] == gv[k as int]);
        }
        if data.groups[k].0 == group {
            let chans = &data.groups[k].1;
            let mut out: Vec<ChannelId> = Vec::new();
            let mut i: usize = 0;
            while i < chans.len()
                invariant
                    i <= chans.len(),
                    out@ == chans@.subrange(0, i as int),
                decreases chans.len() - i,
            {
                out.push(chans[i]);
                i = i + 1;
                proof {
                    assert(chans@.subrange(0, i as int) =~= chans@.subrange(0, i - 1).push(chans@[i - 1]));
                }
            }
            proof {
                assert(chans@.subrange(0, chans@.len() as int) =~= chans@);
            }
            return out;
        }
        k = k + 1;
    }
    Vec::new()
}

/// Position of the first `ch` in `sel`, if present.
fn find_pos(sel: &Vec<ChannelId>, ch: &ChannelId) -> (r: (bool, usize))
    ensures
        r.0 == sel@.contains(*ch),
        r.0 ==> r.1 < sel@.len() && sel@[r.1 as int] == *ch && forall|j: int| 0 <= j < r.1 ==> sel@[j] != *ch,
{
    let mut k: usize = 0;
    while k < sel.len()
        invariant
            k <= sel.len(),
            forall|j: int| 0 <= j < k ==> sel@[j] != *ch,
        decreases sel.len() - k,
    {
        if sel[k] == *ch {
            return (true, k);
        }
        k = k + 1;
    }
    (false, 0)
}

/// Apply a click on an enabled tile. A plain click toggles the channel and
/// re-anchors its group; a shift-click with an anchor in `group` fills the
/// range from the anchor to `num` within that group's own channels. The
/// clicked number always becomes `group`'s anchor.
pub fn apply_click(
    selection: &mut Vec<ChannelId>,
    anchor: &mut Vec<(ChannelGroup, u16)>,
    data: &ChannelGridData,
    group: ChannelGroup,
    ch: &ChannelId,
    num: u16,
    shift: bool,
)
    ensures
        final(selection)@ == spec_click_selection(old(selection)@, old(anchor)@, groups_view(data.groups@), group, *ch, num, shift),
        anchor_get(final(anchor)@, group) == Some(num),
        forall|g: ChannelGroup| g != group ==> #[trigger] anchor_get(final(anchor)@, g) == anchor_get(old(anchor)@, g),
        // A plain click (or a shift-click with no anchor yet) flips the
        // membership of the clicked channel and of no other channel.
        no_dups(old(selection)@) && !(shift && anchor_get(old(anchor)@, group) is Some) ==> {
            &&& final(selection)@.contains(*ch) == !old(selection)@.contains(*ch)
            &&& forall|c: ChannelId| c != *ch ==> #[trigger] final(selection)@.contains(c) == old(selection)@.contains(c)
        },
        // A range fill never removes a member.
        shift && anchor_get(old(anchor)@, group) is Some && no_dups(old(selection)@) ==> forall|c: ChannelId|
            #[trigger] old(selection)@.contains(c) ==> final(selection)@.contains(c),
        // No channel is ever listed twice.
        no_dups(old(selection)@) ==> no_dups(final(selection)@),
{
    let ghost sel0 = selection@;
    let a_opt = get_anchor(anchor, group);
    if shift {
        if let Some(a) = a_opt {
            let (lo, hi) = if a <= num { (a, num) } else { (num, a) };
            let chans = find_group_channels(data, group);
            let mut in_range: Vec<ChannelId> = Vec::new();
            let mut i: usize = 0;
            while i < chans.len()
                invariant
                    i <= chans.len(),
                    in_range@ == numbered_between(chans@.subrange(0, i as int), lo, hi),
                decreases chans.len() - i,
            {
                let c = chans[i];
                let n = channel_number(&c);
                proof {
                    assert(chans@.subrange(0, i + 1).drop_last() =~= chans@.subrange(0, i as int));
                    assert(chans@.subrange(0, i + 1).last() == c);
                }
                if lo <= n && n <= hi {
                    in_range.push(c);
                }
                i = i + 1;
            }
            proof {
                assert(chans@.subrange(0, chans@.len() as int) =~= chans@);
            }
            proof {
                assert(in_range@.subrange(0, in_range@.len() as int) =~= in_range@);
            }
            let mut k: usize = 0;
            while k < in_range.len()
                invariant
                    k <= in_range.len(),
                    append_missing(sel0, in_range@) == append_missing(selection@, in_range@.subrange(k as int, in_range@.len() as int)),
                decreases in_range.len() - k,
            {
                let c = in_range[k];
                proof {
                    let rest = in_range@.subrange(k as int, in_range@.len() as int);
                    assert(rest[0] == c);
                    assert(rest.drop_first() =~= in_range@.subrange(k + 1, in_range@.len() as int));
                }
                if !contains_channel(selection, &c) {
                    selection.push(c);
                }
                k = k + 1;
            }
            proof {
                assert(in_range@.subrange(in_range@.len() as int, in_range@.len() as int) =~= Seq::<ChannelId>::empty());
                if no_dups(sel0) {
                    lemma_append_missing(sel0, in_range@);
                }
            }
            set_anchor(anchor, group, num);
            return;
        }
    }
    let (found, pos) = find_pos(selection, ch);
    proof {
        if found {
            lemma_first_pos(sel0, *ch);
            assert(sel0.contains(*ch));
            assert(first_pos(sel0, *ch) == pos as int);
        } else {
            assert(!sel0.contains(*ch));
        }
        if no_dups(sel0) {
            lemma_toggle(sel0, *ch);
        }
    }
    if found {
        selection.remove(pos);
    } else {
        selection.push(*ch);
    }
    set_anchor(anchor, group, num);
}


/// The channel-type buckets: two channels share a bucket exactly when both
/// are Matrix Inputs, both are Graphic EQs, or neither is either. So Input,
/// Aux, Group, Matrix and Control Group gang freely among themselves, and a
/// selection of only such channels is always locked to one bucket.
pub proof fn law_bucket_exclusivity(c: ChannelId, d: ChannelId, sel: Seq<ChannelId>)
    ensures
        (spec_bucket_of(c) == spec_bucket_of(d)) <==> (
            (c is MatrixInput && d is MatrixInput)
            || (c is GraphicEq && d is GraphicEq)
            || (!(c is MatrixInput) && !(c is GraphicEq) && !(d is MatrixInput) && !(d is GraphicEq))
        ),
        sel.len() > 0 && (forall|i: int| 0 <= i < sel.len() ==> !(#[trigger] sel[i] is MatrixInput) && !(sel[i] is GraphicEq))
            ==> spec_active_bucket(sel) is Some,
{
    if sel.len() > 0 && (forall|i: int| 0 <= i < sel.len() ==> !(#[trigger] sel[i] is MatrixInput) && !(sel[i] is GraphicEq)) {
        assert(!(sel[0] is MatrixInput) && !(sel[0] is GraphicEq));
        assert forall|i: int| 0 <= i < sel.len() implies spec_bucket_of(#[trigger] sel[i]) == spec_bucket_of(sel[0]) by {
            assert(!(sel[i] is MatrixInput) && !(sel[i] is GraphicEq));
        }
    }
}

} // verus!
