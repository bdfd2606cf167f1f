//! The parameter inspector: channel-type filter, free-text filter and the
//! sorted order of the rows it shows.

use vstd::prelude::*;
use crate::channel::{ChannelId, kind_index, kind_code};
use crate::text::{chars_of, lemma_lex_asymmetric, lemma_lex_irreflexive, lex_lt, lex_less, to_lower, unicode_lower};

verus! {

/// Restrict the inspector to one kind of strip.
#[derive(Clone, Copy, Debug, PartialEq, Eq, Structural)]
pub enum ChannelTypeFilter {
    Input,
    Aux,
    Group,
    Matrix,
    ControlGroup,
    GraphicEq,
    MatrixInput,
}

/// The strip kind (as `kind_index`) a filter admits.
pub open spec fn filter_kind(f: ChannelTypeFilter) -> int {
    match f {
        ChannelTypeFilter::Input => 0,
        ChannelTypeFilter::Aux => 1,
        ChannelTypeFilter::Group => 2,
        ChannelTypeFilter::Matrix => 3,
        ChannelTypeFilter::ControlGroup => 4,
        ChannelTypeFilter::GraphicEq => 5,
        ChannelTypeFilter::MatrixInput => 6,
    }
}

pub open spec fn spec_filter_label(f: ChannelTypeFilter) -> Seq<char> {
    match f {
        ChannelTypeFilter::Input => "Input"@,
        ChannelTypeFilter::Aux => "Aux"@,
        ChannelTypeFilter::Group => "Group"@,
        ChannelTypeFilter::Matrix => "Matrix"@,
        ChannelTypeFilter::ControlGroup => "CG"@,
        ChannelTypeFilter::GraphicEq => "GEQ"@,
        ChannelTypeFilter::MatrixInput => "MtxIn"@,
    }
}

pub open spec fn spec_all_filters() -> Seq<ChannelTypeFilter> {
    seq![
        ChannelTypeFilter::Input,
        ChannelTypeFilter::Aux,
        ChannelTypeFilter::Group,
        ChannelTypeFilter::Matrix,
        ChannelTypeFilter::ControlGroup,
        ChannelTypeFilter::GraphicEq,
        ChannelTypeFilter::MatrixInput,
    ]
}

impl ChannelTypeFilter {
    /// The toolbar button caption.
    pub fn label(&self) -> (s: &'static str)
        ensures
            s@ == spec_filter_label(*self),
    {
        match self {
            ChannelTypeFilter::Input => "Input",
            ChannelTypeFilter::Aux => "Aux",
            ChannelTypeFilter::Group => "Group",
            ChannelTypeFilter::Matrix => "Matrix",
            ChannelTypeFilter::ControlGroup => "CG",
            ChannelTypeFilter::GraphicEq => "GEQ",
            ChannelTypeFilter::MatrixInput => "MtxIn",
        }
    }

    /// Whether `ch` is a strip of the kind this filter admits.
    pub fn matches(&self, ch: &ChannelId) -> (r: bool)
        ensures
            r == (kind_index(*ch) == filter_kind(*self)),
    {
        let k = kind_code(ch);
        match self {
            ChannelTypeFilter::Input => k == 0,
            ChannelTypeFilter::Aux => k == 1,
            ChannelTypeFilter::Group => k == 2,
            ChannelTypeFilter::Matrix => k == 3,
            ChannelTypeFilter::ControlGroup => k == 4,
            ChannelTypeFilter::GraphicEq => k == 5,
            ChannelTypeFilter::MatrixInput => k == 6,
        }
    }

    /// Every filter, in toolbar order.
    pub fn all() -> (v: Vec<ChannelTypeFilter>)
        ensures
            v@ == spec_all_filters(),
    {
        let v = vec![
            ChannelTypeFilter::Input,
            ChannelTypeFilter::Aux,
            ChannelTypeFilter::Group,
            ChannelTypeFilter::Matrix,
            ChannelTypeFilter::ControlGroup,
            ChannelTypeFilter::GraphicEq,
            ChannelTypeFilter::MatrixInput,
        ];
        assert(v@ =~= spec_all_filters());
        v
    }
}

/// The column the table is sorted by.
#[derive(Clone, Copy, Debug, PartialEq, Eq, Structural)]
pub enum SortColumn {
    Channel,
    Parameter,
    Value,
}

/// What the operator has chosen on the inspector toolbar and header.
pub struct InspectorTabState {
    /// Free-text filter matched against every column.
    pub filter: String,
    /// Only strips of this kind (`None`: all kinds).
    pub channel_type_filter: Option<ChannelTypeFilter>,
    pub sort_column: SortColumn,
    pub sort_ascending: bool,
}

impl Default for InspectorTabState {
    fn default() -> (s: InspectorTabState)
        ensures
            s.filter@ == Seq::<char>::empty(),
            s.channel_type_filter is None,
            s.sort_column == SortColumn::Channel,
            s.sort_ascending,
    {
        InspectorTabState {
            filter: String::new(),
            channel_type_filter: None,
            sort_column: SortColumn::Channel,
            sort_ascending: true,
        }
    }
}

impl InspectorTabState {
    /// A click on a column header: the sorted column flips direction, any
    /// other column becomes the sort column, ascending.
    pub fn click_header(&mut self, column: SortColumn)
        ensures
            final(self).filter@ == old(self).filter@,
            final(self).channel_type_filter == old(self).channel_type_filter,
            final(self).sort_column == column,
            final(self).sort_ascending == (if old(self).sort_column == column {
                !old(self).sort_ascending
            } else {
                true
            }),
    {
        if self.sort_column == column {
            self.sort_ascending = !self.sort_ascending;
        } else {
            self.sort_column = column;
            self.sort_ascending = true;
        }
    }
}

/// One table row as displayed: the channel, parameter and value texts.
pub struct InspectorRow {
    pub channel: String,
    pub parameter: String,
    pub value: String,
}

/// `needle` occurs in `hay` as a contiguous run.
pub open spec fn has_infix(hay: Seq<char>, needle: Seq<char>) -> bool {
    exists|i: int| 0 <= i && i + needle.len() <= hay.len() && #[trigger] hay.subrange(i, i + needle.len()) == needle
}

/// Whether `needle` occurs in `hay`.
pub fn contains_chars(hay: &Vec<char>, needle: &Vec<char>) -> (r: bool)
    ensures
        r == has_infix(hay@, needle@),
{
    if needle.len() == 0 {
        proof {
            assert(hay@.subrange(0int, 0int + needle@.len()) =~= needle@);
        }
        return true;
    }
    if needle.len() > hay.len() {
        return false;
    }
    let hl = hay.len();
    let last = hl - needle.len();
    let mut i: usize = 0;
    while i <= last
        invariant
            0 < needle@.len() <= hay@.len(),
            hl == hay@.len(),
            last == hay@.len() - needle@.len(),
            i <= last + 1,
            forall|j: int| 0 <= j < i ==> #[trigger] hay@.subrange(j, j + needle@.len()) != needle@,
        decreases last + 1 - i,
    {
        let mut k: usize = 0;
        let mut same = true;
        while k < needle.len()
            invariant
                needle@.len() <= hay@.len(),
                i <= last,
                hl == hay@.len(),
                last + needle@.len() == hay@.len(),
                k <= needle@.len(),
                same == (forall|m: int| 0 <= m < k ==> hay@[i + m] == needle@[m]),
            decreases needle@.len() - k,
        {
            if hay[i + k] != needle[k] {
                same = false;
            }
            k = k + 1;
        }
        if same {
            proof {
                assert(hay@.subrange(i as int, i + needle@.len()) =~= needle@);
            }
            return true;
        }
        proof {
            assert(hay@.subrange(i as int, i + needle@.len()) != needle@) by {
                let m = choose|m: int| 0 <= m < needle@.len() && hay@[i + m] != needle@[m];
                assert(hay@.subrange(i as int, i + needle@.len())[m] == hay@[i + m]);
            }
        }
        i = i + 1;
    }
    proof {
        if has_infix(hay@, needle@) {
            let j = choose|j: int| 0 <= j && j + needle@.len() <= hay@.len() && #[trigger] hay@.subrange(j, j + needle@.len()) == needle@;
            assert(j < i);
        }
    }
    false
}

/// The rows' views: (channel, parameter, value).
pub open spec fn row_view(r: InspectorRow) -> (Seq<char>, Seq<char>, Seq<char>) {
    (r.channel@, r.parameter@, r.value@)
}

/// Entry `i` survives both filters: its strip kind (when a kind is chosen)
/// and the lower-cased free text in one of the lower-cased columns.
pub open spec fn row_shown(
    entries: Seq<(ChannelId, (Seq<char>, Seq<char>, Seq<char>))>,
    kind: Option<ChannelTypeFilter>,
    needle: Seq<char>,
    i: int,
) -> bool {
    let (ch, row) = entries[i];
    &&& 0 <= i < entries.len()
    &&& match kind {
        Some(f) => kind_index(ch) == filter_kind(f),
        None => true,
    }
    &&& (needle.len() == 0
        || has_infix(unicode_lower(row.0), needle)
        || has_infix(unicode_lower(row.1), needle)
        || has_infix(unicode_lower(row.2), needle))
}

/// The text of entry `i` in the sort column.
pub open spec fn sort_key(entries: Seq<(ChannelId, (Seq<char>, Seq<char>, Seq<char>))>, col: SortColumn, i: int) -> Seq<char> {
    match col {
        SortColumn::Channel => entries[i].1.0,
        SortColumn::Parameter => entries[i].1.1,
        SortColumn::Value => entries[i].1.2,
    }
}

/// Entry `a` is listed before entry `b`: by the sort column's text in the
/// chosen direction, ties in their original order (a stable sort).
pub open spec fn row_before(
    entries: Seq<(ChannelId, (Seq<char>, Seq<char>, Seq<char>))>,
    col: SortColumn,
    ascending: bool,
    a: int,
    b: int,
) -> bool {
    let ka = sort_key(entries, col, a);
    let kb = sort_key(entries, col, b);
    (if ascending { lex_lt(ka, kb) } else { lex_lt(kb, ka) }) || (ka == kb && a < b)
}

/// `order` lists exactly the shown entries, sorted as the table shows them.
pub open spec fn is_table_order(
    entries: Seq<(ChannelId, (Seq<char>, Seq<char>, Seq<char>))>,
    kind: Option<ChannelTypeFilter>,
    needle: Seq<char>,
    col: SortColumn,
    ascending: bool,
    order: Seq<usize>,
) -> bool {
    &&& forall|x: usize| #[trigger] order.contains(x) <==> row_shown(entries, kind, needle, x as int)
    &&& forall|a: int, b: int| 0 <= a < b < order.len() ==> row_before(entries, col, ascending, order[a] as int, order[b] as int)
}

pub open spec fn entries_view(entries: Seq<(ChannelId, InspectorRow)>) -> Seq<(ChannelId, (Seq<char>, Seq<char>, Seq<char>))> {
    entries.map_values(|e: (ChannelId, InspectorRow)| (e.0, row_view(e.1)))
}

proof fn lemma_row_before_total(
    entries: Seq<(ChannelId, (Seq<char>, Seq<char>, Seq<char>))>,
    col: SortColumn,
    ascending: bool,
    a: int,
    b: int,
)
    requires
        a != b,
    ensures
        row_before(entries, col, ascending, a, b) || row_before(entries, col, ascending, b, a),
        !(row_before(entries, col, ascending, a, b) && row_before(entries, col, ascending, b, a)),
{
    let ka = sort_key(entries, col, a);
    let kb = sort_key(entries, col, b);
    crate::text::lemma_lex_total(ka, kb);
    crate::text::lemma_lex_asymmetric(ka, kb);
    if ka == kb {
        crate::text::lemma_lex_irreflexive(ka);
    }
}

proof fn lemma_row_before_transitive(
    entries: Seq<(ChannelId, (Seq<char>, Seq<char>, Seq<char>))>,
    col: SortColumn,
    ascending: bool,
    a: int,
    b: int,
    c: int,
)
    requires
        row_before(entries, col, ascending, a, b),
        row_before(entries, col, ascending, b, c),
    ensures
        row_before(entries, col, ascending, a, c),
{
    let ka = sort_key(entries, col, a);
    let kb = sort_key(entries, col, b);
    let kc = sort_key(entries, col, c);
    if ascending {
        if lex_lt(ka, kb) && lex_lt(kb, kc) {
            crate::text::lemma_lex_transitive(ka, kb, kc);
        }
    } else {
        if lex_lt(kb, ka) && lex_lt(kc, kb) {
            crate::text::lemma_lex_transitive(kc, kb, ka);
        }
    }
}

fn key_of(keys: &Vec<(Vec<char>, Vec<char>, Vec<char>)>, col: SortColumn, i: usize) -> (k: &Vec<char>)
    requires
        i < keys@.len(),
    ensures
        k@ == (match col {
            SortColumn::Channel => keys@[i as int].0@,
            SortColumn::Parameter => keys@[i as int].1@,
            SortColumn::Value => keys@[i as int].2@,
        }),
{
    match col {
        SortColumn::Channel => &keys[i].0,
        SortColumn::Parameter => &keys[i].1,
        SortColumn::Value => &keys[i].2,
    }
}

fn before_exec(
    keys: &Vec<(Vec<char>, Vec<char>, Vec<char>)>,
    col: SortColumn,
    ascending: bool,
    a: usize,
    b: usize,
    Ghost(ev): Ghost<Seq<(ChannelId, (Seq<char>, Seq<char>, Seq<char>))>>,
) -> (r: bool)
    requires
        a < keys@.len(),
        b < keys@.len(),
        keys@.len() <= ev.len(),
        forall|j: int| 0 <= j < keys@.len() ==> (#[trigger] keys@[j]).0@ == ev[j].1.0 && keys@[j].1@ == ev[j].1.1 && keys@[j].2@ == ev[j].1.2,
    ensures
        r == row_before(ev, col, ascending, a as int, b as int),
{
    let ka = key_of(keys, col, a);
    let kb = key_of(keys, col, b);
    let lt = if ascending { lex_less(ka, kb) } else { lex_less(kb, ka) };
    if lt {
        return true;
    }
    let eq = crate::text::chars_eq(ka, kb);
    eq && a < b
}

/// The order in which the inspector lists `entries` (each a strip and its
/// displayed row): the entries that pass `tab`'s filters, sorted by its sort
/// column in its direction, ties kept in their original order.
pub fn table_order(tab: &InspectorTabState, entries: &Vec<(ChannelId, InspectorRow)>) -> (r: Vec<usize>)
    ensures
        is_table_order(
            entries_view(entries@),
            tab.channel_type_filter,
            unicode_lower(tab.filter@),
            tab.sort_column,
            tab.sort_ascending,
            r@,
        ),
{
    let ghost ev = entries_view(entries@);
    let ghost kind = tab.channel_type_filter;
    let ghost col = tab.sort_column;
    let ghost asc = tab.sort_ascending;
    let needle_s = to_lower(tab.filter.as_str());
    let needle = chars_of(needle_s.as_str());
    let ghost nd = unicode_lower(tab.filter@);
    let mut keys: Vec<(Vec<char>, Vec<char>, Vec<char>)> = Vec::new();
    let mut order: Vec<usize> = Vec::new();
    let mut i: usize = 0;
    while i < entries.len()
        invariant
            i <= entries@.len(),
            ev == entries_view(entries@),
            ev.len() == entries@.len(),
            needle@ == nd,
            kind == tab.channel_type_filter,
            col == tab.sort_column,
            asc == tab.sort_ascending,
            keys@.len() == i,
            forall|j: int| 0 <= j < i ==> (#[trigger] keys@[j]).0@ == ev[j].1.0 && keys@[j].1@ == ev[j].1.1 && keys@[j].2@ == ev[j].1.2,
            forall|x: usize| #[trigger] order@.contains(x) <==> (x < i && row_shown(ev, kind, nd, x as int)),
            forall|a: int, b: int| 0 <= a < b < order@.len() ==> row_before(ev, col, asc, order@[a] as int, order@[b] as int),
        decreases entries@.len() - i,
    {
        let entry = &entries[i];
        let kc = chars_of(entry.1.channel.as_str());
        let kp = chars_of(entry.1.parameter.as_str());
        let kv = chars_of(entry.1.value.as_str());
        proof {
            assert(ev[i as int] == (entry.0, row_view(entry.1)));
        }
        let kind_ok = match &tab.channel_type_filter {
            Some(f) => f.matches(&entry.0),
            None => true,
        };
        let shown = kind_ok && (needle.len() == 0 || {
            let lc = chars_of(to_lower(entry.1.channel.as_str()).as_str());
            contains_chars(&lc, &needle)
        } || {
            let lp = chars_of(to_lower(entry.1.parameter.as_str()).as_str());
            contains_chars(&lp, &needle)
        } || {
            let lv = chars_of(to_lower(entry.1.value.as_str()).as_str());
            contains_chars(&lv, &needle)
        });
        let ghost old_keys = keys@;
        keys.push((kc, kp, kv));
        proof {
            assert(shown == row_shown(ev, kind, nd, i as int));
            assert forall|j: int| 0 <= j < i + 1 implies (#[trigger] keys@[j]).0@ == ev[j].1.0 && keys@[j].1@ == ev[j].1.1 && keys@[j].2@ == ev[j].1.2 by {
                if j < i {
                    assert(keys@[j] == old_keys[j]);
                }
            }
        }
        if shown {
            let mut q: usize = 0;
            while q < order.len()
                invariant
                    q <= order@.len(),
                    i < keys@.len(),
                    keys@.len() == i + 1,
                    keys@.len() <= ev.len(),
                    forall|j: int| 0 <= j < keys@.len() ==> (#[trigger] keys@[j]).0@ == ev[j].1.0 && keys@[j].1@ == ev[j].1.1 && keys@[j].2@ == ev[j].1.2,
                    forall|x: usize| #[trigger] order@.contains(x) <==> (x < i && row_shown(ev, kind, nd, x as int)),
                    forall|k: int| 0 <= k < q ==> row_before(ev, col, asc, order@[k] as int, i as int),
                    col == tab.sort_column,
                    asc == tab.sort_ascending,
                ensures
                    q <= order@.len(),
                    forall|k: int| 0 <= k < q ==> row_before(ev, col, asc, order@[k] as int, i as int),
                    q < order@.len() ==> !row_before(ev, col, asc, order@[q as int] as int, i as int),
                decreases order@.len() - q,
            {
                let o = order[q];
                proof {
                    assert(order@.contains(o));
                }
                if !before_exec(&keys, tab.sort_column, tab.sort_ascending, o, i, Ghost(ev)) {
                    break;
                }
                q = q + 1;
            }
            let ghost old_order = order@;
            proof {
                assert forall|k: int| 0 <= k < old_order.len() implies (#[trigger] old_order[k]) < i && row_shown(ev, kind, nd, old_order[k] as int) by {
                    assert(old_order.contains(old_order[k]));
                }
                if q < old_order.len() {
                    let o = old_order[q as int];
                    assert(o != i);
                    assert(!row_before(ev, col, asc, o as int, i as int));
                    lemma_row_before_total(ev, col, asc, o as int, i as int);
                    assert forall|k: int| q <= k < old_order.len() implies row_before(ev, col, asc, i as int, #[trigger] old_order[k] as int) by {
                        if k > q {
                            lemma_row_before_transitive(ev, col, asc, i as int, o as int, old_order[k] as int);
                        }
                    }
                }
            }
            order.insert(q, i);
            proof {
                assert(order@ =~= old_order.subrange(0, q as int).push(i) + old_order.subrange(q as int, old_order.len() as int));
                assert forall|x: usize| #[trigger] order@.contains(x) <==> (x < i + 1 && row_shown(ev, kind, nd, x as int)) by {
                    if order@.contains(x) {
                        let k = choose|k: int| 0 <= k < order@.len() && order@[k] == x;
                        if k < q {
                            assert(old_order.contains(old_order[k]));
                        } else if k > q {
                            assert(order@[k] == old_order[k - 1]);
                            assert(old_order.contains(old_order[k - 1]));
                        }
                    }
                    if x < i + 1 && row_shown(ev, kind, nd, x as int) {
                        if x == i {
                            assert(order@[q as int] == x);
                        } else {
                            assert(old_order.contains(x));
                            let k = choose|k: int| 0 <= k < old_order.len() && old_order[k] == x;
                            if k < q {
                                assert(order@[k] == x);
                            } else {
                                assert(order@[k + 1] == x);
                            }
                        }
                    }
                }
                assert forall|a: int, b: int| 0 <= a < b < order@.len() implies row_before(ev, col, asc, order@[a] as int, order@[b] as int) by {
                    if b < q {
                    } else if b == q {
                    } else if a < q {
                        assert(order@[b] == old_order[b - 1]);
                        lemma_row_before_transitive(ev, col, asc, old_order[a] as int, i as int, old_order[b - 1] as int);
                    } else if a == q {
                        assert(order@[b] == old_order[b - 1]);
                    } else {
                        assert(order@[a] == old_order[a - 1]);
                        assert(order@[b] == old_order[b - 1]);
                    }
                }
            }
        } else {
            proof {
                assert forall|x: usize| #[trigger] order@.contains(x) <==> (x < i + 1 && row_shown(ev, kind, nd, x as int)) by {
                    if x == i && order@.contains(x) {
                        let k = choose|k: int| 0 <= k < order@.len() && order@[k] == x;
                        assert(order@.contains(order@[k]));
                    }
                }
            }
        }
        i = i + 1;
    }
    order
}


/// The table order is determined by the entries, the filters and the sort:
/// two orders that both satisfy [`is_table_order`] are the same.
pub proof fn law_table_order_unique(
    entries: Seq<(ChannelId, (Seq<char>, Seq<char>, Seq<char>))>,
    kind: Option<ChannelTypeFilter>,
    needle: Seq<char>,
    col: SortColumn,
    ascending: bool,
    o1: Seq<usize>,
    o2: Seq<usize>,
)
    requires
        is_table_order(entries, kind, needle, col, ascending, o1),
        is_table_order(entries, kind, needle, col, ascending, o2),
    ensures
        o1 == o2,
{
    let before = |x: int, y: int| row_before(entries, col, ascending, x, y);
    assert forall|x: int, y: int| !(#[trigger] before(x, y) && #[trigger] before(y, x)) by {
        if x != y {
            lemma_row_before_total(entries, col, ascending, x, y);
        } else {
            crate::text::lemma_lex_irreflexive(sort_key(entries, col, x));
        }
    }
    crate::seqs::lemma_ordered_unique(o1, o2, before);
}


/// The table is sorted by the column the operator chose, compared as text
/// in the chosen direction: of two listed rows, the earlier one's text in
/// that column (channel, parameter or value) never sorts after the later
/// one's when ascending (never before it when descending), and rows with the
/// same text keep their input order.
pub proof fn law_table_sorted_by_chosen_column(
    entries: Seq<(ChannelId, (Seq<char>, Seq<char>, Seq<char>))>,
    kind: Option<ChannelTypeFilter>,
    needle: Seq<char>,
    col: SortColumn,
    ascending: bool,
    order: Seq<usize>,
    a: int,
    b: int,
)
    requires
        is_table_order(entries, kind, needle, col, ascending, order),
        0 <= a < b < order.len(),
    ensures
        ({
            let (x, y) = (order[a] as int, order[b] as int);
            let (tx, ty) = match col {
                SortColumn::Channel => (entries[x].1.0, entries[y].1.0),
                SortColumn::Parameter => (entries[x].1.1, entries[y].1.1),
                SortColumn::Value => (entries[x].1.2, entries[y].1.2),
            };
            &&& ascending ==> !lex_lt(ty, tx)
            &&& !ascending ==> !lex_lt(tx, ty)
            &&& tx == ty ==> x < y
        }),
{
    let x = order[a] as int;
    let y = order[b] as int;
    assert(row_before(entries, col, ascending, x, y));
    let kx = sort_key(entries, col, x);
    let ky = sort_key(entries, col, y);
    lemma_lex_asymmetric(kx, ky);
    lemma_lex_irreflexive(kx);
    lemma_lex_irreflexive(ky);
}


/// A channel-type filter lets through exactly the strips of its own kind,
/// and the table lists no row the filters reject: with the Aux filter only
/// auxes are listed, with the Input filter only inputs, and so on.
pub proof fn law_type_filter_keeps_its_kind(
    entries: Seq<(ChannelId, (Seq<char>, Seq<char>, Seq<char>))>,
    f: ChannelTypeFilter,
    needle: Seq<char>,
    col: SortColumn,
    ascending: bool,
    order: Seq<usize>,
    k: int,
)
    requires
        is_table_order(entries, Some(f), needle, col, ascending, order),
        0 <= k < order.len(),
    ensures
        ({
            let ch = entries[order[k] as int].0;
            match f {
                ChannelTypeFilter::Input => ch is Input,
                ChannelTypeFilter::Aux => ch is Aux,
                ChannelTypeFilter::Group => ch is Group,
                ChannelTypeFilter::Matrix => ch is Matrix,
                ChannelTypeFilter::ControlGroup => ch is ControlGroup,
                ChannelTypeFilter::GraphicEq => ch is GraphicEq,
                ChannelTypeFilter::MatrixInput => ch is MatrixInput,
            }
        }),
{
    assert(order.contains(order[k]));
}

} // verus!
