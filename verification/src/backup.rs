//! Safety copies of show files: autosaves and load-time backups.
//!
//! Both kinds live in a `.s21backups/` folder next to the show file and are
//! keyed by the show's sanitized file stem, so shows sharing a folder keep
//! independent series. File names are
//! `autosave__<stem>__<YYYYMMDD-HHMMSS>.s21show` and
//! `backup__<stem>__<YYYYMMDD-HHMMSS>.s21show` (UTC).

use vstd::prelude::*;
use crate::text::{
    chars_of, ends_with_chars, has_prefix, has_suffix, push_chars, push_str, slice_chars,
    starts_with_chars, string_from_chars,
};

verus! {

/// Seconds between autosaves, at least.
pub const AUTOSAVE_INTERVAL_SECS: u64 = 90;
/// Seconds the console state must be settled before an autosave.
pub const QUIET_SETTLE_SECS: u64 = 5;
/// Autosaves retained per show.
pub const KEEP_AUTOSAVES: usize = 20;
/// Load-time backups retained per show.
pub const KEEP_BACKUPS: usize = 5;
/// Folder, next to the show file, holding the safety copies.
pub const BACKUP_SUBDIR: &'static str = ".s21backups";
/// Timestamp layout embedded in safety-copy names (chrono format syntax).
pub const TS_FMT: &'static str = "%Y%m%d-%H%M%S";

/// The two kinds of safety copy.
#[derive(Clone, Copy, Debug, PartialEq, Eq, Structural)]
pub enum BackupKind {
    Autosave,
    Backup,
}

pub open spec fn spec_prefix(k: BackupKind) -> Seq<char> {
    match k {
        BackupKind::Autosave => "autosave"@,
        BackupKind::Backup => "backup"@,
    }
}

pub open spec fn spec_keep(k: BackupKind) -> usize {
    match k {
        BackupKind::Autosave => KEEP_AUTOSAVES,
        BackupKind::Backup => KEEP_BACKUPS,
    }
}

impl BackupKind {
    /// Leading file-name token that tells the kinds apart.
    pub fn prefix(self) -> (s: &'static str)
        ensures
            s@ == spec_prefix(self),
    {
        match self {
            BackupKind::Autosave => "autosave",
            BackupKind::Backup => "backup",
        }
    }

    /// How many copies of this kind are retained.
    pub fn keep(self) -> (n: usize)
        ensures
            n == spec_keep(self),
    {
        match self {
            BackupKind::Autosave => KEEP_AUTOSAVES,
            BackupKind::Backup => KEEP_BACKUPS,
        }
    }

    /// Human-readable kind name.
    pub fn label(self) -> (s: &'static str)
        ensures
            s@ == (match self {
                BackupKind::Autosave => "Autosave"@,
                BackupKind::Backup => "Backup"@,
            }),
    {
        match self {
            BackupKind::Autosave => "Autosave",
            BackupKind::Backup => "Backup",
        }
    }
}

/// A file-name-safe character: ASCII letter or digit, `.`, `_` or `-`.
pub open spec fn stem_char_ok(c: char) -> bool {
    ('a' <= c && c <= 'z') || ('A' <= c && c <= 'Z') || ('0' <= c && c <= '9') || c == '.' || c == '_' || c == '-'
}

/// The sanitized stem: every character outside `[A-Za-z0-9._-]` becomes
/// `_`; a missing or empty stem becomes `untitled`.
pub open spec fn spec_sanitized_stem(raw: Option<Seq<char>>) -> Seq<char> {
    match raw {
        None => "untitled"@,
        Some(s) => if s.len() == 0 {
            "untitled"@
        } else {
            s.map_values(|c: char| if stem_char_ok(c) { c } else { '_' })
        },
    }
}

/// Sanitize a show file's stem (its file name without the extension) to a
/// file-system- and parse-safe token.
pub fn sanitized_stem(file_stem: Option<&str>) -> (r: String)
    ensures
        r@ == spec_sanitized_stem(match file_stem {
            Some(s) => Some(s@),
            None => None,
        }),
{
    match file_stem {
        None => string_from_chars(&chars_of("untitled")),
        Some(s) => {
            let raw = chars_of(s);
            if raw.len() == 0 {
                return string_from_chars(&chars_of("untitled"));
            }
            let mut out: Vec<char> = Vec::new();
            let mut k: usize = 0;
            while k < raw.len()
                invariant
                    k <= raw.len(),
                    out@ =~= raw@.subrange(0, k as int).map_values(|c: char| if stem_char_ok(c) { c } else { '_' }),
                decreases raw.len() - k,
            {
                let c = raw[k];
                let ok = ('a' <= c && c <= 'z') || ('A' <= c && c <= 'Z') || ('0' <= c && c <= '9') || c == '.' || c == '_' || c == '-';
                out.push(if ok { c } else { '_' });
                k = k + 1;
            }
            proof {
                assert(raw@.subrange(0, raw@.len() as int) =~= raw@);
            }
            string_from_chars(&out)
        },
    }
}

/// File name of a safety copy: `<prefix>__<stem>__<timestamp>.s21show`.
pub open spec fn spec_backup_file_name(kind: BackupKind, stem: Seq<char>, ts: Seq<char>) -> Seq<char> {
    spec_prefix(kind) + "__"@ + stem + "__"@ + ts + ".s21show"@
}

/// Build the file name of a safety copy from its kind, the show's sanitized
/// stem and the formatted UTC timestamp.
pub fn backup_file_name(kind: BackupKind, stem: &str, ts: &str) -> (r: String)
    ensures
        r@ == spec_backup_file_name(kind, stem@, ts@),
{
    let mut out: Vec<char> = Vec::new();
    push_str(&mut out, kind.prefix());
    push_str(&mut out, "__");
    push_str(&mut out, stem);
    push_str(&mut out, "__");
    push_str(&mut out, ts);
    push_str(&mut out, ".s21show");
    string_from_chars(&out)
}

/// A parsed safety-copy timestamp: seconds since the UNIX epoch (UTC) and
/// the sub-second nanoseconds (non-zero only for a leap second).
#[derive(Clone, Copy, Debug, PartialEq, Eq, Structural)]
pub struct BackupStamp {
    pub secs: i64,
    pub nanos: u32,
}

/// `a` is strictly newer than `b`.
pub open spec fn newer(a: BackupStamp, b: BackupStamp) -> bool {
    a.secs > b.secs || (a.secs == b.secs && a.nanos > b.nanos)
}

/// What `chrono::NaiveDateTime::parse_from_str(s, fmt)` yields, as UTC
/// seconds since the epoch and sub-second nanoseconds (`None` on error).
pub uninterp spec fn chrono_parse_utc(s: Seq<char>, fmt: Seq<char>) -> Option<(i64, u32)>;

/// Parse a naive date-time with `chrono::NaiveDateTime::parse_from_str`,
/// read as UTC. The contract names the result; chrono's calendar rules are
/// not restated.
#[verifier::external_body]
fn chrono_parse(s: &str, fmt: &str) -> (r: Option<(i64, u32)>)
    ensures
        r == chrono_parse_utc(s@, fmt@),
{
    match chrono::NaiveDateTime::parse_from_str(s, fmt) {
        Ok(t) => Some((t.and_utc().timestamp(), t.and_utc().timestamp_subsec_nanos())),
        Err(_) => None,
    }
}

/// The stamp a timestamp text stands for under [`TS_FMT`].
pub open spec fn spec_parse_stamp(ts: Seq<char>) -> Option<BackupStamp> {
    match chrono_parse_utc(ts, TS_FMT@) {
        Some(p) => Some(BackupStamp { secs: p.0, nanos: p.1 }),
        None => None,
    }
}

/// Index of the last `"__"` in `s`, if any.
pub open spec fn last_sep(s: Seq<char>) -> Option<int>
    decreases s.len(),
{
    if s.len() < 2 {
        None
    } else if s[s.len() - 2] == '_' && s[s.len() - 1] == '_' {
        Some(s.len() - 2)
    } else {
        last_sep(s.drop_last())
    }
}

/// `(kind, rest)` after stripping the extension and the kind prefix.
pub open spec fn spec_kind_and_rest(name: Seq<char>) -> Option<(BackupKind, Seq<char>)> {
    if !has_suffix(name, ".s21show"@) {
        None
    } else {
        let body = name.subrange(0, name.len() - 8);
        if has_prefix(body, "autosave__"@) {
            Some((BackupKind::Autosave, body.subrange(10, body.len() as int)))
        } else if has_prefix(body, "backup__"@) {
            Some((BackupKind::Backup, body.subrange(8, body.len() as int)))
        } else {
            None
        }
    }
}

/// Parse a safety-copy file name into `(kind, stem, stamp)`: the extension
/// must be `.s21show`, the prefix `autosave__` or `backup__`, the rest is
/// split at its **last** `__` into a non-empty stem and a timestamp that
/// must parse under [`TS_FMT`].
pub open spec fn spec_parse_name(name: Seq<char>) -> Option<(BackupKind, Seq<char>, BackupStamp)> {
    match spec_kind_and_rest(name) {
        None => None,
        Some(kr) => match last_sep(kr.1) {
            None => None,
            Some(i) => {
                let stem = kr.1.subrange(0, i);
                let ts = kr.1.subrange(i + 2, kr.1.len() as int);
                if stem.len() == 0 {
                    None
                } else {
                    match spec_parse_stamp(ts) {
                        Some(st) => Some((kr.0, stem, st)),
                        None => None,
                    }
                }
            },
        },
    }
}

proof fn lemma_last_sep_bounds(s: Seq<char>)
    ensures
        last_sep(s) matches Some(i) ==> 0 <= i && i + 2 <= s.len() && s[i] == '_' && s[i + 1] == '_',
    decreases s.len(),
{
    if s.len() >= 2 && !(s[s.len() - 2] == '_' && s[s.len() - 1] == '_') {
        lemma_last_sep_bounds(s.drop_last());
    }
}

fn find_last_sep(s: &Vec<char>) -> (r: Option<usize>)
    ensures
        match r {
            Some(i) => last_sep(s@) == Some(i as int),
            None => last_sep(s@) is None,
        },
{
    let mut n: usize = s.len();
    proof {
        lemma_prefix_whole(s@);
    }
    while n >= 2
        invariant
            n <= s@.len(),
            last_sep(s@) == last_sep(s@.subrange(0, n as int)),
        decreases n,
    {
        proof {
            let t = s@.subrange(0, n as int);
            assert(t.drop_last() =~= s@.subrange(0, n - 1));
        }
        if s[n - 2] == '_' && s[n - 1] == '_' {
            return Some(n - 2);
        }
        n = n - 1;
    }
    None
}

proof fn lemma_prefix_whole(s: Seq<char>)
    ensures
        s.subrange(0, s.len() as int) == s,
{
    assert(s.subrange(0, s.len() as int) =~= s);
}

/// Parse a safety-copy file name back into `(kind, stem, stamp)`.
pub fn parse_name(file_name: &str) -> (r: Option<(BackupKind, String, BackupStamp)>)
    ensures
        match r {
            Some(t) => spec_parse_name(file_name@) == Some((t.0, t.1@, t.2)),
            None => spec_parse_name(file_name@) is None,
        },
{
    let name = chars_of(file_name);
    proof {
        lemma_prefix_whole(file_name@);
        reveal_strlit(".s21show");
        reveal_strlit("autosave__");
        reveal_strlit("backup__");
    }
    let ext = chars_of(".s21show");
    if !ends_with_chars(&name, &ext) {
        return None;
    }
    let body = slice_chars(&name, 0, name.len() - 8);
    let auto_p = chars_of("autosave__");
    let back_p = chars_of("backup__");
    let (kind, rest) = if starts_with_chars(&body, &auto_p) {
        (BackupKind::Autosave, slice_chars(&body, 10, body.len()))
    } else if starts_with_chars(&body, &back_p) {
        (BackupKind::Backup, slice_chars(&body, 8, body.len()))
    } else {
        return None;
    };
    assert(spec_kind_and_rest(file_name@) == Some((kind, rest@)));
    let i = match find_last_sep(&rest) {
        Some(i) => i,
        None => return None,
    };
    proof {
        lemma_last_sep_bounds(rest@);
    }
    if i == 0 {
        return None;
    }
    let stem = slice_chars(&rest, 0, i);
    let ts = slice_chars(&rest, i + 2, rest.len());
    let ts_s = string_from_chars(&ts);
    match chrono_parse(ts_s.as_str(), TS_FMT) {
        Some((secs, nanos)) => Some((kind, string_from_chars(&stem), BackupStamp { secs, nanos })),
        None => None,
    }
}


proof fn lemma_last_sep_tail(a: Seq<char>, t: Seq<char>)
    requires
        forall|k: int| 0 <= k < t.len() ==> #[trigger] t[k] != '_',
    ensures
        last_sep(a + "__"@ + t) == Some(a.len() as int),
    decreases t.len(),
{
    reveal_strlit("__");
    let s = a + "__"@ + t;
    if t.len() == 0 {
        assert(s =~= a + "__"@);
        assert(s[s.len() - 2] == '_');
        assert(s[s.len() - 1] == '_');
    } else {
        assert(s[s.len() - 1] == t[t.len() - 1]);
        assert(s.drop_last() =~= a + "__"@ + t.drop_last());
        lemma_last_sep_tail(a, t.drop_last());
    }
}

/// A safety-copy file name parses back to the kind, stem and timestamp it
/// was built from, whenever the stem is non-empty and the timestamp text
/// holds no `_` and parses under [`TS_FMT`] (every name this library
/// writes: stems are sanitized and non-empty, timestamps are digits and a
/// dash).
pub proof fn lemma_backup_name_round_trip(kind: BackupKind, stem: Seq<char>, ts: Seq<char>)
    requires
        stem.len() > 0,
        forall|k: int| 0 <= k < ts.len() ==> #[trigger] ts[k] != '_',
        spec_parse_stamp(ts) is Some,
    ensures
        spec_parse_name(spec_backup_file_name(kind, stem, ts)) == Some((kind, stem, spec_parse_stamp(ts).unwrap())),
{
    reveal_strlit(".s21show");
    reveal_strlit("autosave__");
    reveal_strlit("backup__");
    reveal_strlit("autosave");
    reveal_strlit("backup");
    reveal_strlit("__");
    let name = spec_backup_file_name(kind, stem, ts);
    let body = spec_prefix(kind) + "__"@ + stem + "__"@ + ts;
    assert(name =~= body + ".s21show"@);
    assert(name.subrange(name.len() - 8, name.len() as int) =~= ".s21show"@);
    assert(name.subrange(0, name.len() - 8) =~= body);
    let rest = stem + "__"@ + ts;
    match kind {
        BackupKind::Autosave => {
            assert(body =~= "autosave__"@ + rest);
            assert(body.subrange(0, 10) =~= "autosave__"@);
            assert(body.subrange(10, body.len() as int) =~= rest);
        },
        BackupKind::Backup => {
            assert(body =~= "backup__"@ + rest);
            assert(body[0] == 'b');
            assert(body.subrange(0, 8) =~= "backup__"@);
            assert(body.subrange(8, body.len() as int) =~= rest);
        },
    }
    assert(spec_kind_and_rest(name) == Some((kind, rest)));
    lemma_last_sep_tail(stem, ts);
    assert(rest.subrange(0, stem.len() as int) =~= stem);
    assert(rest.subrange(stem.len() as int + 2, rest.len() as int) =~= ts);
}


/// The parse of every directory entry name.
pub open spec fn infos_of(names: Seq<String>) -> Seq<Option<(BackupKind, Seq<char>, BackupStamp)>> {
    names.map_values(|n: String| spec_parse_name(n@))
}

/// Entry `i` is a safety copy of the show `stem` (and of `kind`, when given).
pub open spec fn entry_matches(infos: Seq<Option<(BackupKind, Seq<char>, BackupStamp)>>, i: int, kind: Option<BackupKind>, stem: Seq<char>) -> bool {
    0 <= i < infos.len() && match infos[i] {
        Some(t) => t.1 == stem && match kind {
            Some(k) => t.0 == k,
            None => true,
        },
        None => false,
    }
}

/// The parsed stamp of entry `a` (epoch when it did not parse).
pub open spec fn stamp_at(infos: Seq<Option<(BackupKind, Seq<char>, BackupStamp)>>, a: int) -> BackupStamp {
    match infos[a] {
        Some(t) => t.2,
        None => BackupStamp { secs: 0, nanos: 0 },
    }
}

/// Newest-first order between two parsed entries; equal timestamps keep
/// directory order.
pub open spec fn comes_before(infos: Seq<Option<(BackupKind, Seq<char>, BackupStamp)>>, a: int, b: int) -> bool {
    let sa = stamp_at(infos, a);
    let sb = stamp_at(infos, b);
    newer(sa, sb) || (sa == sb && a < b)
}

/// `order` lists exactly the matching entries, newest first (a stable sort
/// of the directory order by descending timestamp).
pub open spec fn is_newest_first(
    infos: Seq<Option<(BackupKind, Seq<char>, BackupStamp)>>,
    kind: Option<BackupKind>,
    stem: Seq<char>,
    order: Seq<usize>,
) -> bool {
    &&& forall|x: usize| #[trigger] order.contains(x) <==> entry_matches(infos, x as int, kind, stem)
    &&& forall|a: int, b: int| 0 <= a < b < order.len() ==> comes_before(infos, order[a] as int, order[b] as int)
}

fn same_chars(a: &String, b: &str) -> (r: bool)
    ensures
        r == (a@ == b@),
{
    crate::text::chars_eq(&chars_of(a.as_str()), &chars_of(b))
}

fn stamp_before(sa: BackupStamp, ia: usize, sb: BackupStamp, ib: usize) -> (r: bool)
    ensures
        r == (newer(sa, sb) || (sa == sb && ia < ib)),
{
    sa.secs > sb.secs || (sa.secs == sb.secs && sa.nanos > sb.nanos) || (sa.secs == sb.secs && sa.nanos == sb.nanos && ia < ib)
}

fn stamp_of(parsed: &Vec<Option<(BackupKind, String, BackupStamp)>>, o: usize) -> (st: BackupStamp)
    requires
        o < parsed@.len(),
    ensures
        parsed@[o as int] matches Some(t) ==> st == t.2,
{
    match &parsed[o] {
        Some(t) => t.2,
        None => BackupStamp { secs: 0, nanos: 0 },
    }
}

/// First position of `order` whose entry does not come before entry `i`.
fn insertion_point(
    order: &Vec<usize>,
    parsed: &Vec<Option<(BackupKind, String, BackupStamp)>>,
    st: BackupStamp,
    i: usize,
    Ghost(infos): Ghost<Seq<Option<(BackupKind, Seq<char>, BackupStamp)>>>,
    Ghost(kind): Ghost<Option<BackupKind>>,
    Ghost(stem): Ghost<Seq<char>>,
) -> (q: usize)
    requires
        i < infos.len(),
        infos[i as int] is Some,
        stamp_at(infos, i as int) == st,
        parsed@.len() == i,
        forall|j: int| 0 <= j < i ==> match #[trigger] parsed@[j] {
            Some(t) => infos[j] == Some((t.0, t.1@, t.2)),
            None => infos[j] is None,
        },
        forall|x: usize| #[trigger] order@.contains(x) <==> (x < i && entry_matches(infos, x as int, kind, stem)),
    ensures
        q <= order@.len(),
        forall|k: int| 0 <= k < q ==> comes_before(infos, order@[k] as int, i as int),
        q < order@.len() ==> !comes_before(infos, order@[q as int] as int, i as int),
{
    let mut q: usize = 0;
    while q < order.len()
        invariant
            q <= order@.len(),
            stamp_at(infos, i as int) == st,
            parsed@.len() == i,
            forall|j: int| 0 <= j < i ==> match #[trigger] parsed@[j] {
                Some(t) => infos[j] == Some((t.0, t.1@, t.2)),
                None => infos[j] is None,
            },
            forall|x: usize| #[trigger] order@.contains(x) <==> (x < i && entry_matches(infos, x as int, kind, stem)),
            forall|k: int| 0 <= k < q ==> comes_before(infos, order@[k] as int, i as int),
        decreases order@.len() - q,
    {
        let o = order[q];
        proof {
            assert(order@.contains(o));
            assert(parsed@[o as int] is Some);
        }
        let so = stamp_of(parsed, o);
        if !stamp_before(so, o, st, i) {
            return q;
        }
        q = q + 1;
    }
    q
}

/// The safety copies of the show `stem` found among directory entry
/// `names` (of `kind` only, when given), newest first; equal timestamps keep
/// directory order. Entries whose names do not parse are skipped.
pub fn newest_first(names: &Vec<String>, kind: Option<BackupKind>, stem: &str) -> (r: Vec<usize>)
    ensures
        is_newest_first(infos_of(names@), kind, stem@, r@),
{
    let ghost infos = infos_of(names@);
    let mut parsed: Vec<Option<(BackupKind, String, BackupStamp)>> = Vec::new();
    let mut order: Vec<usize> = Vec::new();
    let mut i: usize = 0;
    while i < names.len()
        invariant
            i <= names.len(),
            infos == infos_of(names@),
            parsed@.len() == i,
            forall|j: int| 0 <= j < i ==> match #[trigger] parsed@[j] {
                Some(t) => infos[j] == Some((t.0, t.1@, t.2)),
                None => infos[j] is None,
            },
            forall|x: usize| #[trigger] order@.contains(x) <==> (x < i && entry_matches(infos, x as int, kind, stem@)),
            forall|a: int, b: int| 0 <= a < b < order@.len() ==> comes_before(infos, order@[a] as int, order@[b] as int),
        decreases names.len() - i,
    {
        let p = parse_name(names[i].as_str());
        let ghost pi = p;
        let m = match &p {
            Some(t) => same_chars(&t.1, stem) && match kind {
                Some(k) => t.0 == k,
                None => true,
            },
            None => false,
        };
        proof {
            assert(infos[i as int] == spec_parse_name(names@[i as int]@));
            assert(m == entry_matches(infos, i as int, kind, stem@));
        }
        if m {
            let st = match &p {
                Some(t) => t.2,
                None => BackupStamp { secs: 0, nanos: 0 },
            };
            assert(stamp_at(infos, i as int) == st);
            let q = insertion_point(&order, &parsed, st, i, Ghost(infos), Ghost(kind), Ghost(stem@));
            let ghost old_order = order@;
            proof {
                assert forall|k: int| 0 <= k < old_order.len() implies (#[trigger] old_order[k]) < i && entry_matches(infos, old_order[k] as int, kind, stem@) by {
                    assert(old_order.contains(old_order[k]));
                }
                if q < old_order.len() {
                    let o = old_order[q as int];
                    assert(!comes_before(infos, o as int, i as int));
                    assert(comes_before(infos, i as int, o as int));
                    assert forall|k: int| q <= k < old_order.len() implies comes_before(infos, i as int, #[trigger] old_order[k] as int) by {
                        if k > q {
                            assert(comes_before(infos, o as int, old_order[k] as int));
                        }
                    }
                }
            }
            order.insert(q, i);
            proof {
                assert(order@ =~= old_order.subrange(0, q as int).push(i) + old_order.subrange(q as int, old_order.len() as int));
                assert forall|x: usize| #[trigger] order@.contains(x) <==> (x < i + 1 && entry_matches(infos, x as int, kind, stem@)) by {
                    if order@.contains(x) {
                        let k = choose|k: int| 0 <= k < order@.len() && order@[k] == x;
                        if k < q {
                            assert(old_order.contains(old_order[k]));
                        } else if k > q {
                            assert(order@[k] == old_order[k - 1]);
                            assert(old_order.contains(old_order[k - 1]));
                        }
                    }
                    if x < i + 1 && entry_matches(infos, x as int, kind, stem@) {
                        if x == i {
                            assert(order@[q as int] == x);
                        } else {
                            assert(old_order.contains(x));
                            let k = choose|k: int| 0 <= k < old_order.len() && old_order[k] == x;
                            if k < q {
                                assert(order@[k] == x);
                            } else {
                                assert(order@[k + 1] == x);
                            }
                        }
                    }
                }
                assert forall|a: int, b: int| 0 <= a < b < order@.len() implies comes_before(infos, order@[a] as int, order@[b] as int) by {
                    if b < q {
                    } else if b == q {
                    } else if a < q {
                        assert(order@[b] == old_order[b - 1]);
                        assert(comes_before(infos, old_order[a] as int, i as int));
                        assert(comes_before(infos, i as int, old_order[b - 1] as int));
                    } else if a == q {
                        assert(order@[b] == old_order[b - 1]);
                    } else {
                        assert(order@[a] == old_order[a - 1]);
                        assert(order@[b] == old_order[b - 1]);
                    }
                }
            }
        } else {
            proof {
                assert forall|x: usize| #[trigger] order@.contains(x) <==> (x < i + 1 && entry_matches(infos, x as int, kind, stem@)) by {
                    if x == i {
                        if order@.contains(x) {
                            let k = choose|k: int| 0 <= k < order@.len() && order@[k] == x;
                            assert(order@.contains(order@[k]));
                        }
                    }
                }
            }
        }
        parsed.push(p);
        proof {
            assert forall|j: int| 0 <= j < i + 1 implies match #[trigger] parsed@[j] {
                Some(t) => infos[j] == Some((t.0, t.1@, t.2)),
                None => infos[j] is None,
            } by {
                if j == i {
                    assert(parsed@[j] == pi);
                }
            }
        }
        i = i + 1;
    }
    order
}


/// The newest-first order of a set of entries is unique.
pub proof fn lemma_newest_first_unique(
    infos: Seq<Option<(BackupKind, Seq<char>, BackupStamp)>>,
    kind: Option<BackupKind>,
    stem: Seq<char>,
    o1: Seq<usize>,
    o2: Seq<usize>,
)
    requires
        is_newest_first(infos, kind, stem, o1),
        is_newest_first(infos, kind, stem, o2),
    ensures
        o1 == o2,
{
    let before = |x: int, y: int| comes_before(infos, x, y);
    assert forall|x: int, y: int| !(#[trigger] before(x, y) && #[trigger] before(y, x)) by {}
    crate::seqs::lemma_ordered_unique(o1, o2, before);
}

/// What rotation deletes: of the newest-first list of `kind` copies of
/// `stem`, everything after the first `keep` entries (nothing when there
/// are at most `keep`).
pub open spec fn spec_prune(order: Seq<usize>, keep: usize) -> Seq<usize> {
    if order.len() <= keep {
        Seq::empty()
    } else {
        order.subrange(keep as int, order.len() as int)
    }
}

/// Entries (indices into `names`) that rotation deletes so that only the
/// `keep` newest `kind` copies of show `stem` remain. Copies of other shows,
/// of the other kind, and unparseable names are never selected.
pub fn backups_to_prune(names: &Vec<String>, kind: BackupKind, stem: &str, keep: usize) -> (r: Vec<usize>)
    ensures
        exists|order: Seq<usize>| #![trigger is_newest_first(infos_of(names@), Some(kind), stem@, order)]
            is_newest_first(infos_of(names@), Some(kind), stem@, order) && r@ == spec_prune(order, keep),
        forall|k: int| 0 <= k < r@.len() ==> entry_matches(infos_of(names@), #[trigger] r@[k] as int, Some(kind), stem@),
{
    let order = newest_first(names, Some(kind), stem);
    if order.len() <= keep {
        proof {
            assert(spec_prune(order@, keep) =~= Seq::<usize>::empty());
        }
        return Vec::new();
    }
    let r = crate::backup::slice_usizes(&order, keep, order.len());
    proof {
        assert forall|k: int| 0 <= k < r@.len() implies entry_matches(infos_of(names@), #[trigger] r@[k] as int, Some(kind), stem@) by {
            assert(r@[k] == order@[k + keep]);
            assert(order@.contains(order@[k + keep]));
        }
    }
    r
}

fn slice_usizes(v: &Vec<usize>, from: usize, to: usize) -> (r: Vec<usize>)
    requires
        from <= to <= v@.len(),
    ensures
        r@ == v@.subrange(from as int, to as int),
{
    let mut r: Vec<usize> = Vec::new();
    let mut k: usize = from;
    while k < to
        invariant
            from <= k <= to <= v@.len(),
            r@ =~= v@.subrange(from as int, k as int),
        decreases to - k,
    {
        r.push(v[k]);
        k = k + 1;
    }
    r
}

/// Coarse class of an I/O error, for telling corruption from other load
/// failures.
#[derive(Clone, Copy, Debug, PartialEq, Eq, Structural)]
pub enum IoErrorClass {
    InvalidData,
    UnexpectedEof,
    NotFound,
    PermissionDenied,
    Other,
}

#[verifier::external_type_specification]
#[verifier::external_body]
pub struct ExIoError(std::io::Error);

/// The class of `err.kind()` (`std::io::Error::kind`): a function of the
/// error value (for an error carrying an OS code, through the target
/// platform's fixed code table).
pub uninterp spec fn class_of(err: std::io::Error) -> IoErrorClass;

/// `std::io::Error::kind`, sorted into [`IoErrorClass`] (one arm per
/// distinguished kind). The contract names the class; which kinds the
/// standard library assigns is not restated.
#[verifier::external_body]
fn io_error_class(err: &std::io::Error) -> (c: IoErrorClass)
    ensures
        c == class_of(*err),
{
    match err.kind() {
        std::io::ErrorKind::InvalidData => IoErrorClass::InvalidData,
        std::io::ErrorKind::UnexpectedEof => IoErrorClass::UnexpectedEof,
        std::io::ErrorKind::NotFound => IoErrorClass::NotFound,
        std::io::ErrorKind::PermissionDenied => IoErrorClass::PermissionDenied,
        _ => IoErrorClass::Other,
    }
}

/// A load error of this class means a corrupt / truncated / bad-header
/// file, for which recovery should be offered.
pub fn is_corruption_class(c: IoErrorClass) -> (r: bool)
    ensures
        r == (c == IoErrorClass::InvalidData || c == IoErrorClass::UnexpectedEof),
{
    match c {
        IoErrorClass::InvalidData | IoErrorClass::UnexpectedEof => true,
        _ => false,
    }
}

/// Classify a load error: `true` when it indicates a corrupt file
/// (`InvalidData` or `UnexpectedEof`), `false` for `NotFound`, permission
/// errors and the rest.
pub fn is_corruption_error(err: &std::io::Error) -> (r: bool)
    ensures
        r == (class_of(*err) == IoErrorClass::InvalidData || class_of(*err) == IoErrorClass::UnexpectedEof),
{
    is_corruption_class(io_error_class(err))
}


/// A path separator on some platform.
pub open spec fn is_path_sep(c: char) -> bool {
    c == '/' || c == '\\'
}

/// A path that ends in an ordinary component on every platform: it holds no
/// `:` (so no drive prefix), does not start with two separators (so no UNC
/// or verbatim prefix), and has a character that is neither a separator nor
/// `.` (so some component is a name, not only roots, `.` or `..`).
pub open spec fn has_name_component(p: Seq<char>) -> bool {
    &&& forall|i: int| 0 <= i < p.len() ==> #[trigger] p[i] != ':'
    &&& !(p.len() >= 2 && is_path_sep(p[0]) && is_path_sep(p[1]))
    &&& exists|i: int| 0 <= i < p.len() && !is_path_sep(#[trigger] p[i]) && p[i] != '.'
}

/// A plain path: non-empty, `/` its only separator (no `\` and no `:`, so no
/// prefix on any platform), no empty component (`//`), no `.` component and
/// no trailing `/`.
pub open spec fn plain_path(p: Seq<char>) -> bool {
    &&& p.len() > 0
    &&& forall|i: int| 0 <= i < p.len() ==> #[trigger] p[i] != '\\' && p[i] != ':'
    &&& forall|i: int| 0 <= i < p.len() - 1 ==> !(#[trigger] p[i] == '/' && p[i + 1] == '/')
    &&& p[p.len() - 1] != '/'
    &&& forall|i: int| 0 <= i < p.len() && #[trigger] p[i] == '.' ==> !((i == 0 || p[i - 1] == '/') && (i + 1 == p.len() || p[i + 1] == '/'))
}

/// Position of the last `c` in `s`.
pub open spec fn last_index_of(s: Seq<char>, c: char) -> Option<int>
    decreases s.len(),
{
    if s.len() == 0 {
        None
    } else if s.last() == c {
        Some(s.len() - 1)
    } else {
        last_index_of(s.drop_last(), c)
    }
}

/// The parent of a plain path: everything before its last `/` (`/` itself
/// when that is the first character; empty when there is none).
pub open spec fn plain_parent(p: Seq<char>) -> Seq<char> {
    match last_index_of(p, '/') {
        None => Seq::empty(),
        Some(i) => if i == 0 { p.subrange(0, 1) } else { p.subrange(0, i) },
    }
}

/// The last component of a plain path.
pub open spec fn plain_file_name(p: Seq<char>) -> Seq<char> {
    match last_index_of(p, '/') {
        None => p,
        Some(i) => p.subrange(i + 1, p.len() as int),
    }
}

/// The stem of a plain path (`Path::file_stem`): none when the last
/// component is `..`; the whole name when it has no `.` or only a leading
/// one; otherwise what precedes the last `.`.
pub open spec fn plain_file_stem(p: Seq<char>) -> Option<Seq<char>> {
    let name = plain_file_name(p);
    if name == ".."@ {
        None
    } else {
        match last_index_of(name, '.') {
            None => Some(name),
            Some(d) => if d == 0 { Some(name) } else { Some(name.subrange(0, d)) },
        }
    }
}

/// `r` is `leaf` adjoined to `base`: directly when `base` is empty or ends
/// in a separator, else with one separator between.
pub open spec fn joined(r: Seq<char>, base: Seq<char>, leaf: Seq<char>) -> bool {
    if base.len() == 0 || is_path_sep(base.last()) {
        r == base + leaf
    } else {
        r.len() == base.len() + leaf.len() + 1 && is_path_sep(r[base.len() as int])
            && r == base + seq![r[base.len() as int]] + leaf
    }
}

/// The text starts with a verbatim prefix (`\\?\`).
pub open spec fn verbatim(p: Seq<char>) -> bool {
    has_prefix(p, seq!['\\', '\\', '?', '\\'])
}

/// `Path::parent`, as text: the path without its final component. It is
/// `None` only for a path that ends in a root or a prefix, or is empty
/// (the documented cases: so for the empty path and for `/`), and a path
/// with a name component has a parent;
/// the parent is a leading part of the path, and for a plain path it is
/// everything before the last `/`. For other paths which parent comes back
/// depends on the platform's path syntax and is not stated.
#[verifier::external_body]
fn path_parent(path: &str) -> (r: Option<String>)
    ensures
        r matches Some(q) ==> has_prefix(path@, q@),
        has_name_component(path@) ==> r is Some,
        path@.len() == 0 || path@ == seq!['/'] ==> r is None,
        plain_path(path@) ==> r is Some && r.unwrap()@ == plain_parent(path@),
{
    std::path::Path::new(path).parent().map(|q| q.to_string_lossy().into_owned())
}

/// `Path::file_stem`, as text. For a plain path it is
/// [`plain_file_stem`]; for other paths it depends on the platform's path
/// syntax and is not stated.
#[verifier::external_body]
fn path_file_stem(path: &str) -> (r: Option<String>)
    ensures
        plain_path(path@) ==> match r {
            Some(s) => plain_file_stem(path@) == Some(s@),
            None => plain_file_stem(path@) is None,
        },
{
    std::path::Path::new(path).file_stem().map(|q| q.to_string_lossy().into_owned())
}

/// No separator or drive colon in a path component.
pub open spec fn component_char_ok(c: char) -> bool {
    c != '/' && c != '\\' && c != ':'
}

/// A base path with no prefix on any platform (no `:`, no two leading
/// separators) that does not end in `\` (a separator on one platform only).
pub open spec fn unprefixed(b: Seq<char>) -> bool {
    &&& forall|i: int| 0 <= i < b.len() ==> #[trigger] b[i] != ':'
    &&& !(b.len() >= 2 && is_path_sep(b[0]) && is_path_sep(b[1]))
    &&& !(b.len() > 0 && b.last() == '\\')
}

/// `Path::join` of a relative single-component `leaf` (not `.` or `..`)
/// onto `base`: `base`, a separator where needed, then `leaf`. This holds
/// when `base` has no verbatim prefix; when `base` is [`unprefixed`] the
/// separator is the only character added, and none is added after an empty
/// base or a trailing separator.
/// Which separator is used depends on the platform and is not stated.
#[verifier::external_body]
fn path_join(base: &str, leaf: &str) -> (r: String)
    requires
        leaf@.len() > 0,
        leaf@ != "."@,
        leaf@ != ".."@,
        forall|i: int| 0 <= i < leaf@.len() ==> component_char_ok(#[trigger] leaf@[i]),
    ensures
        !verbatim(base@) ==> has_prefix(r@, base@) && has_suffix(r@, leaf@),
        unprefixed(base@) ==> joined(r@, base@, leaf@),
{
    std::path::Path::new(base).join(leaf).to_string_lossy().into_owned()
}

proof fn lemma_subdir_ok()
    ensures
        BACKUP_SUBDIR@.len() > 0,
        BACKUP_SUBDIR@ != "."@,
        BACKUP_SUBDIR@ != ".."@,
        forall|i: int| 0 <= i < BACKUP_SUBDIR@.len() ==> component_char_ok(#[trigger] BACKUP_SUBDIR@[i]),
{
    reveal_strlit(".s21backups");
    reveal_strlit(".");
    reveal_strlit("..");
    assert(BACKUP_SUBDIR@.len() != "."@.len());
    assert(BACKUP_SUBDIR@.len() != ".."@.len());
}

proof fn lemma_plain_parent_plain_chars(p: Seq<char>)
    requires
        plain_path(p),
    ensures
        unprefixed(plain_parent(p)),
        forall|i: int| 0 <= i < plain_parent(p).len() ==> #[trigger] plain_parent(p)[i] != '\\',
{
    lemma_last_index_bounds(p, '/');
    let q = plain_parent(p);
    assert(q.len() <= p.len());
    assert forall|i: int| 0 <= i < q.len() implies #[trigger] q[i] == p[i] by {}
    assert forall|i: int| 0 <= i < q.len() implies #[trigger] q[i] != '\\' && q[i] != ':' by {
        assert(q[i] == p[i]);
    }
    if q.len() >= 2 && is_path_sep(q[0]) && is_path_sep(q[1]) {
        assert(p[0] == '/' && p[1] == '/');
    }
}

proof fn lemma_last_index_bounds(s: Seq<char>, c: char)
    ensures
        last_index_of(s, c) matches Some(i) ==> 0 <= i < s.len() && s[i] == c
            && forall|k: int| i < k < s.len() ==> s[k] != c,
        last_index_of(s, c) is None ==> forall|k: int| 0 <= k < s.len() ==> s[k] != c,
    decreases s.len(),
{
    if s.len() > 0 && s.last() != c {
        let d = s.drop_last();
        lemma_last_index_bounds(d, c);
        assert forall|k: int| 0 <= k < d.len() implies s[k] == #[trigger] d[k] by {}
        if last_index_of(d, c) is None {
            assert forall|k: int| 0 <= k < s.len() implies s[k] != c by {
                if k < d.len() {
                    assert(d[k] != c);
                }
            }
        } else {
            let i = last_index_of(d, c)->0;
            assert forall|k: int| i < k < s.len() implies s[k] != c by {
                if k < d.len() {
                    assert(d[k] != c);
                }
            }
        }
    }
}

/// The folder holding the safety copies of the show at `show_path`: the
/// `.s21backups` folder beside it (`None` when the path has no parent, as
/// for a root or an empty path). Every path with a name component has one;
/// for a plain path it is the path's parent joined with `.s21backups`.
pub fn backup_dir(show_path: &str) -> (r: Option<String>)
    ensures
        !verbatim(show_path@) ==> (r matches Some(d) ==> has_suffix(d@, BACKUP_SUBDIR@)),
        has_name_component(show_path@) ==> r is Some,
        show_path@.len() == 0 || show_path@ == seq!['/'] ==> r is None,
        plain_path(show_path@) ==> (r matches Some(d) && joined(d@, plain_parent(show_path@), BACKUP_SUBDIR@)),
{
    proof {
        lemma_subdir_ok();
    }
    match path_parent(show_path) {
        Some(parent) => {
            proof {
                if verbatim(parent@) && !verbatim(show_path@) {
                    assert(show_path@.subrange(0, 4) =~= parent@.subrange(0, 4));
                }
                if plain_path(show_path@) {
                    lemma_plain_parent_plain_chars(show_path@);
                }
            }
            Some(path_join(parent.as_str(), BACKUP_SUBDIR))
        },
        None => None,
    }
}

proof fn lemma_join_unprefixed(d: Seq<char>, base: Seq<char>, leaf: Seq<char>)
    requires
        joined(d, base, leaf),
        unprefixed(base),
        leaf.len() > 0,
        !is_path_sep(leaf[0]),
        forall|i: int| 0 <= i < leaf.len() ==> component_char_ok(#[trigger] leaf[i]),
    ensures
        unprefixed(d),
{
    if base.len() == 0 || is_path_sep(base.last()) {
        assert(d == base + leaf);
        assert forall|i: int| 0 <= i < d.len() implies #[trigger] d[i] != ':' by {
            if i >= base.len() {
                assert(d[i] == leaf[i - base.len()]);
                assert(component_char_ok(leaf[i - base.len()]));
            }
        }
        assert(d.last() == leaf.last());
        assert(component_char_ok(leaf[leaf.len() - 1]));
        if base.len() == 1 {
            assert(d[1] == leaf[0]);
        }
        if base.len() == 0 {
            assert(d[0] == leaf[0]);
        }
    } else {
        let sep = d[base.len() as int];
        assert forall|i: int| 0 <= i < d.len() implies #[trigger] d[i] != ':' by {
            if i > base.len() {
                assert(d[i] == leaf[i - base.len() - 1]);
                assert(component_char_ok(leaf[i - base.len() - 1]));
            }
        }
        assert(d.last() == leaf.last());
        assert(component_char_ok(leaf[leaf.len() - 1]));
        assert(d[0] == base[0]);
    }
}

proof fn lemma_name_chars(kind: BackupKind, stem: Seq<char>, ts: Seq<char>)
    requires
        forall|i: int| 0 <= i < stem.len() ==> component_char_ok(#[trigger] stem[i]),
        forall|i: int| 0 <= i < ts.len() ==> stamp_char(#[trigger] ts[i]),
    ensures
        spec_backup_file_name(kind, stem, ts).len() > 2,
        !is_path_sep(spec_backup_file_name(kind, stem, ts)[0]),
        forall|i: int| 0 <= i < spec_backup_file_name(kind, stem, ts).len()
            ==> component_char_ok(#[trigger] spec_backup_file_name(kind, stem, ts)[i]),
{
    reveal_strlit("autosave");
    reveal_strlit("backup");
    reveal_strlit("__");
    reveal_strlit(".s21show");
    let pre = spec_prefix(kind);
    let a = pre + "__"@;
    let b = a + stem;
    let c = b + "__"@;
    let e = c + ts;
    let n = e + ".s21show"@;
    assert(n == spec_backup_file_name(kind, stem, ts));
    assert forall|i: int| 0 <= i < pre.len() implies component_char_ok(#[trigger] pre[i]) by {}
    assert forall|i: int| 0 <= i < a.len() implies component_char_ok(#[trigger] a[i]) by {
        if i >= pre.len() { assert(a[i] == "__"@[i - pre.len()]); } else { assert(a[i] == pre[i]); }
    }
    assert forall|i: int| 0 <= i < b.len() implies component_char_ok(#[trigger] b[i]) by {
        if i >= a.len() { assert(b[i] == stem[i - a.len()]); } else { assert(b[i] == a[i]); }
    }
    assert forall|i: int| 0 <= i < c.len() implies component_char_ok(#[trigger] c[i]) by {
        if i >= b.len() { assert(c[i] == "__"@[i - b.len()]); } else { assert(c[i] == b[i]); }
    }
    assert forall|i: int| 0 <= i < e.len() implies component_char_ok(#[trigger] e[i]) by {
        if i >= c.len() { assert(e[i] == ts[i - c.len()]); assert(stamp_char(ts[i - c.len()])); } else { assert(e[i] == c[i]); }
    }
    assert forall|i: int| 0 <= i < n.len() implies component_char_ok(#[trigger] n[i]) by {
        if i >= e.len() { assert(n[i] == ".s21show"@[i - e.len()]); } else { assert(n[i] == e[i]); }
    }
    assert(n[0] == pre[0]);
}

proof fn lemma_stem_chars(raw: Option<Seq<char>>)
    ensures
        forall|i: int| 0 <= i < spec_sanitized_stem(raw).len() ==> component_char_ok(#[trigger] spec_sanitized_stem(raw)[i]),
{
    reveal_strlit("untitled");
}

proof fn lemma_sanitized_stem_nonempty(raw: Option<Seq<char>>)
    ensures
        spec_sanitized_stem(raw).len() > 0,
{
    reveal_strlit("untitled");
}

/// The stem of the show at `show_path` as safety copies are named after it.
fn show_stem(show_path: &str) -> (r: String)
    ensures
        plain_path(show_path@) ==> r@ == spec_sanitized_stem(plain_file_stem(show_path@)),
        forall|i: int| 0 <= i < r@.len() ==> component_char_ok(#[trigger] r@[i]),
{
    let raw = path_file_stem(show_path);
    let r = match &raw {
        Some(t) => sanitized_stem(Some(t.as_str())),
        None => sanitized_stem(None),
    };
    proof {
        lemma_stem_chars(match raw { Some(t) => Some(t@), None => None });
    }
    r
}

/// The file name of a safety copy of kind `kind` for `stem`, stamped with
/// the UTC time `now_secs` (`None` when the time is out of chrono's range).
/// For a non-empty stem and a time in years 1000 to 9999 the name parses
/// back to the kind, the stem and that second.
pub fn stamped_file_name(kind: BackupKind, stem: &str, now_secs: i64) -> (r: Option<String>)
    ensures
        match chrono_format_utc(now_secs, 0, TS_FMT@) {
            Some(ts) => (r matches Some(n) && n@ == spec_backup_file_name(kind, stem@, ts)
                && forall|i: int| 0 <= i < ts.len() ==> stamp_char(#[trigger] ts[i])),
            None => r is None,
        },
        stem@.len() > 0 && FIRST_STAMP_SECS <= now_secs <= LAST_STAMP_SECS ==> (r matches Some(n)
            && spec_parse_name(n@) == Some((kind, stem@, BackupStamp { secs: now_secs, nanos: 0 }))),
{
    let ts = match format_utc(now_secs, 0, TS_FMT) {
        Some(t) => t,
        None => return None,
    };
    proof {
        if stem@.len() > 0 && FIRST_STAMP_SECS <= now_secs <= LAST_STAMP_SECS {
            assert forall|k: int| 0 <= k < ts@.len() implies #[trigger] ts@[k] != '_' by {
                assert(stamp_char(ts@[k]));
            }
            lemma_backup_name_round_trip(kind, stem@, ts@);
        }
    }
    Some(backup_file_name(kind, stem, ts.as_str()))
}

/// Full path of a new safety copy of the show at `show_path`, stamped with
/// the UTC time `now_secs`: the show's backup folder joined with
/// `<prefix>__<stem>__<YYYYMMDD-HHMMSS>.s21show`. `None` when the path has
/// no parent or the time is out of chrono's range; every path with a name
/// component has one. For a plain path the result is exact.
pub fn backup_target(show_path: &str, kind: BackupKind, now_secs: i64) -> (r: Option<String>)
    ensures
        r is Some ==> chrono_format_utc(now_secs, 0, TS_FMT@) is Some,
        has_name_component(show_path@) && chrono_format_utc(now_secs, 0, TS_FMT@) is Some ==> r is Some,
        show_path@.len() == 0 || show_path@ == seq!['/'] ==> r is None,
        plain_path(show_path@) ==> match chrono_format_utc(now_secs, 0, TS_FMT@) {
            Some(ts) => (r matches Some(t) && exists|d: Seq<char>| #![trigger joined(d, plain_parent(show_path@), BACKUP_SUBDIR@)]
                joined(d, plain_parent(show_path@), BACKUP_SUBDIR@)
                && joined(t@, d, spec_backup_file_name(kind, spec_sanitized_stem(plain_file_stem(show_path@)), ts))),
            None => r is None,
        },
        plain_path(show_path@) && FIRST_STAMP_SECS <= now_secs <= LAST_STAMP_SECS ==> (chrono_format_utc(
            now_secs,
            0,
            TS_FMT@,
        ) matches Some(ts) && spec_parse_name(
            spec_backup_file_name(kind, spec_sanitized_stem(plain_file_stem(show_path@)), ts),
        ) == Some((kind, spec_sanitized_stem(plain_file_stem(show_path@)), BackupStamp { secs: now_secs, nanos: 0 }))),
{
    let dir = match backup_dir(show_path) {
        Some(d) => d,
        None => return None,
    };
    let stem = show_stem(show_path);
    proof {
        lemma_sanitized_stem_nonempty(plain_file_stem(show_path@));
    }
    let name = match stamped_file_name(kind, stem.as_str(), now_secs) {
        Some(n) => n,
        None => return None,
    };
    proof {
        let ts = chrono_format_utc(now_secs, 0, TS_FMT@).unwrap();
        lemma_name_chars(kind, stem@, ts);
        reveal_strlit(".");
        reveal_strlit("..");
        assert(name@.len() != "."@.len());
        assert(name@.len() != ".."@.len());
        lemma_subdir_ok();
        if plain_path(show_path@) {
            lemma_sanitized_stem_nonempty(plain_file_stem(show_path@));
            lemma_plain_parent_plain_chars(show_path@);
            assert(BACKUP_SUBDIR@[0] == '.') by { reveal_strlit(".s21backups"); }
            lemma_join_unprefixed(dir@, plain_parent(show_path@), BACKUP_SUBDIR@);
        }
    }
    let t = path_join(dir.as_str(), name.as_str());
    Some(t)
}

/// A safety copy offered for recovery.
pub struct RecoveryCandidate {
    pub path: String,
    pub kind: BackupKind,
    /// From the file name's timestamp.
    pub stamp: BackupStamp,
    /// File size in bytes.
    pub size: u64,
    /// The file parses as a show file.
    pub valid: bool,
    /// Its show-file version, when it parsed.
    pub version: Option<u32>,
}

/// What chrono prints for the UTC instant `secs` + `nanos` under the format
/// `fmt` (`None` when the instant is out of chrono's range).
pub uninterp spec fn chrono_format_utc(secs: i64, nanos: u32, fmt: Seq<char>) -> Option<Seq<char>>;

/// A character of a [`TS_FMT`] timestamp: a digit, `-`, or the `+` that
/// chrono writes before years outside `0..=9999`.
pub open spec fn stamp_char(c: char) -> bool {
    ('0' <= c && c <= '9') || c == '-' || c == '+'
}

/// chrono reads the [`TS_FMT`] text `t` back as the whole second `secs`.
pub open spec fn stamp_reads_back(t: Seq<char>, secs: i64) -> bool {
    chrono_parse_utc(t, TS_FMT@) == Some((secs, 0u32))
}

/// 1000-01-01 00:00:00 UTC: the first second whose [`TS_FMT`] stamp has a
/// four-digit year.
pub const FIRST_STAMP_SECS: i64 = -30610224000;
/// 9999-12-31 23:59:59 UTC: the last second whose [`TS_FMT`] stamp has a
/// four-digit year.
pub const LAST_STAMP_SECS: i64 = 253402300799;

/// Format a UTC instant with `chrono::DateTime::from_timestamp` and
/// `format`, for one of this library's two layouts (both well-formed, so the
/// formatting cannot fail). The contract names the result; chrono's
/// calendar rules are not restated, beyond two facts of the [`TS_FMT`]
/// layout: it is written with digits, `-` and a possible year sign only,
/// and for a whole second of a four-digit year it is read back by
/// `NaiveDateTime::parse_from_str` as that same second (`%Y` is written as
/// four zero-padded digits and read as four digits, the other fields as two).
#[verifier::external_body]
fn format_utc(secs: i64, nanos: u32, fmt: &str) -> (r: Option<String>)
    requires
        fmt@ == TS_FMT@ || fmt@ == DESCRIBE_TS_FMT@,
    ensures
        match r {
            Some(t) => chrono_format_utc(secs, nanos, fmt@) == Some(t@),
            None => chrono_format_utc(secs, nanos, fmt@) is None,
        },
        fmt@ == TS_FMT@ ==> (r matches Some(t) ==> forall|i: int| 0 <= i < t@.len() ==> stamp_char(#[trigger] t@[i])),
        fmt@ == TS_FMT@ && nanos == 0 && FIRST_STAMP_SECS <= secs && secs <= LAST_STAMP_SECS ==> r is Some && stamp_reads_back(r.unwrap()@, secs),
{
    chrono::DateTime::from_timestamp(secs, nanos).map(|t| t.format(fmt).to_string())
}

/// Layout of the timestamp in a recovery candidate's description.
pub const DESCRIBE_TS_FMT: &'static str = "%Y-%m-%d %H:%M:%S UTC";

/// Tenths of a kibibyte in `size` bytes, rounded to nearest with ties to
/// even (how `{:.1}` prints the exact quotient `size / 1024`).
pub open spec fn kib_tenths(size: nat) -> nat {
    let q = (size * 10) / 1024;
    let r = (size * 10) % 1024;
    if r > 512 || (r == 512 && q % 2 == 1) { q + 1 } else { q }
}

/// `t` tenths printed with one decimal: `12.4`.
pub open spec fn tenths_text(t: nat) -> Seq<char> {
    crate::text::dec_digits(t / 10) + seq!['.'] + seq![crate::text::digit_char((t % 10) as int)]
}

pub open spec fn kind_label(k: BackupKind) -> Seq<char> {
    match k {
        BackupKind::Autosave => "Autosave"@,
        BackupKind::Backup => "Backup"@,
    }
}

/// The one-line description: `<Kind> — <UTC time> (<size> KB[, v<n>])`,
/// with ` — UNREADABLE` appended for a copy that does not parse.
pub open spec fn spec_describe(c: RecoveryCandidate, time: Seq<char>) -> Seq<char> {
    kind_label(c.kind) + " — "@ + time + " ("@ + tenths_text(kib_tenths(c.size as nat)) + " KB"@
        + (match c.version {
            Some(v) => ", v"@ + crate::text::dec_digits(v as nat),
            None => Seq::empty(),
        }) + ")"@ + (if c.valid { Seq::empty() } else { " — UNREADABLE"@ })
}

impl RecoveryCandidate {
    /// Human-readable one-line label for the recovery dialog, e.g.
    /// `"Autosave — 2026-05-27 14:03:11 UTC (12.4 KB, v15)"`. The size is
    /// the exact quotient `size / 1024` rounded to one decimal (what the
    /// floating-point rendering prints for sizes below 2^53 bytes).
    pub fn describe(&self) -> (r: String)
        ensures
            r@ == spec_describe(*self, match chrono_format_utc(self.stamp.secs, self.stamp.nanos, DESCRIBE_TS_FMT@) {
                Some(t) => t,
                None => Seq::empty(),
            }),
    {
        let ghost time = match chrono_format_utc(self.stamp.secs, self.stamp.nanos, DESCRIBE_TS_FMT@) {
            Some(t) => t,
            None => Seq::empty(),
        };
        let mut out: Vec<char> = Vec::new();
        push_str(&mut out, self.kind.label());
        push_str(&mut out, " — ");
        match format_utc(self.stamp.secs, self.stamp.nanos, DESCRIBE_TS_FMT) {
            Some(t) => push_str(&mut out, t.as_str()),
            None => {},
        }
        let ghost head = out@;
        assert(head =~= kind_label(self.kind) + " — "@ + time);
        push_str(&mut out, " (");
        push_kib_text(&mut out, self.size);
        push_str(&mut out, " KB");
        push_version_suffix(&mut out, self.version);
        push_str(&mut out, ")");
        if !self.valid {
            push_str(&mut out, " — UNREADABLE");
        }
        proof {
            assert(out@ =~= spec_describe(*self, time));
        }
        string_from_chars(&out)
    }
}

fn push_kib_text(out: &mut Vec<char>, size: u64)
    ensures
        final(out)@ == old(out)@ + tenths_text(kib_tenths(size as nat)),
{
    let wide: u128 = size as u128 * 10;
    let q: u128 = wide / 1024;
    let rem: u128 = wide % 1024;
    let t: u128 = if rem > 512 || (rem == 512 && q % 2 == 1) { q + 1 } else { q };
    assert(t == kib_tenths(size as nat));
    push_u128_decimal(out, t / 10);
    out.push('.');
    let d: u8 = (t % 10) as u8;
    out.push((d + 48) as char);
    proof {
        assert(out@ =~= old(out)@ + tenths_text(kib_tenths(size as nat)));
    }
}

fn push_version_suffix(out: &mut Vec<char>, version: Option<u32>)
    ensures
        final(out)@ == old(out)@ + (match version {
            Some(v) => ", v"@ + crate::text::dec_digits(v as nat),
            None => Seq::empty(),
        }),
{
    match version {
        Some(v) => {
            push_str(out, ", v");
            crate::text::push_decimal(out, v as u64);
            proof {
                assert(out@ =~= old(out)@ + (", v"@ + crate::text::dec_digits(v as nat)));
            }
        },
        None => {
            assert(old(out)@ + Seq::<char>::empty() =~= old(out)@);
        },
    }
}

fn push_u128_decimal(out: &mut Vec<char>, n: u128)
    ensures
        final(out)@ == old(out)@ + crate::text::dec_digits(n as nat),
    decreases n,
{
    if n >= 10 {
        push_u128_decimal(out, n / 10);
    }
    let d: u8 = (n % 10) as u8;
    out.push((d + 48) as char);
    proof {
        assert(crate::text::dec_digits(n as nat) == if n < 10 { seq![crate::text::digit_char(n as int)] } else {
            crate::text::dec_digits((n / 10) as nat).push(crate::text::digit_char((n % 10) as int))
        });
    }
}


/// Rotation spares the newest: of a show's copies of one kind, listed
/// newest first, it deletes only what lies past the first `keep`, so it
/// keeps `min(count, keep)` copies and no deleted copy is newer than a kept
/// one.
pub proof fn law_prune_spares_newest(
    infos: Seq<Option<(BackupKind, Seq<char>, BackupStamp)>>,
    kind: BackupKind,
    stem: Seq<char>,
    order: Seq<usize>,
    keep: usize,
)
    requires
        is_newest_first(infos, Some(kind), stem, order),
    ensures
        order.len() - spec_prune(order, keep).len() == (if order.len() <= keep { order.len() as int } else { keep as int }),
        forall|k: int| 0 <= k < spec_prune(order, keep).len() ==> entry_matches(infos, #[trigger] spec_prune(order, keep)[k] as int, Some(kind), stem),
        forall|a: int, b: int| 0 <= a < keep && 0 <= b < spec_prune(order, keep).len() && a < order.len()
            ==> !newer(stamp_at(infos, #[trigger] spec_prune(order, keep)[b] as int), stamp_at(infos, #[trigger] order[a] as int)),
{
    let p = spec_prune(order, keep);
    if order.len() > keep {
        assert forall|k: int| 0 <= k < p.len() implies entry_matches(infos, #[trigger] p[k] as int, Some(kind), stem) by {
            assert(p[k] == order[k + keep]);
            assert(order.contains(order[k + keep]));
        }
        assert forall|a: int, b: int| 0 <= a < keep && 0 <= b < p.len() && a < order.len()
            implies !newer(stamp_at(infos, #[trigger] p[b] as int), stamp_at(infos, #[trigger] order[a] as int)) by {
            assert(p[b] == order[b + keep]);
            assert(comes_before(infos, order[a] as int, order[b + keep] as int));
        }
    }
}

} // verus!
