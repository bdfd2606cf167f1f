//! Localized help bubbles: English reference text from the catalog, with
//! per-key fallback from a runtime-loaded translation.

use vstd::prelude::*;
use crate::help_catalog::{HelpKey, meta, spec_help_english, spec_help_id};
use crate::catalog_laws::{
    id_rank, key_at_rank, key_by_id_rank, keys_increasing, law_help_entries_nonempty,
    lemma_increasing_keys_differ, lemma_rank_inverse, lemma_template_keys_increasing,
    spec_entries_in_id_order,
};
use crate::text::{
    ascii_lower_seq, chars_eq, chars_eq_ignore_ascii_case, chars_of, eq_ignore_ascii_case, lex_less, lex_lt,
    lemma_lex_asymmetric, lemma_lex_irreflexive, lemma_lex_total, lemma_lex_transitive,
    string_from_chars, to_lower, unicode_lower,
};

verus! {

/// Language code of the built-in English reference.
pub const ENGLISH_CODE: &'static str = "en";
/// Display name of the built-in English reference.
pub const ENGLISH_NAME: &'static str = "English";
/// Reserved file stem of the translator template (never a language).
pub const TEMPLATE_STEM: &'static str = "template";

/// The stable JSON key id for a help bubble.
pub fn key_id(key: HelpKey) -> (s: &'static str)
    ensures
        s@ == spec_help_id(key),
{
    meta(key).id
}

/// The canonical English text for a help bubble.
pub fn english(key: HelpKey) -> (s: &'static str)
    ensures
        s@ == spec_help_english(key),
{
    meta(key).english
}

/// Plain-value view of a locale.
pub struct LocaleView {
    pub code: Seq<char>,
    pub name: Seq<char>,
    pub map: Seq<(Seq<char>, Seq<char>)>,
}

/// A loaded translation table for one language.
pub struct Locale {
    /// Language code: the file stem (e.g. `fr`).
    pub code: String,
    /// Display name: the file's `_name`, else the code.
    pub name: String,
    /// `(key id, translated text)` entries; a later entry for the same id
    /// wins.
    pub map: Vec<(String, String)>,
}

pub open spec fn entries_view(m: Seq<(String, String)>) -> Seq<(Seq<char>, Seq<char>)> {
    m.map_values(|e: (String, String)| (e.0@, e.1@))
}

impl View for Locale {
    type V = LocaleView;

    open spec fn view(&self) -> LocaleView {
        LocaleView { code: self.code@, name: self.name@, map: entries_view(self.map@) }
    }
}

/// The text the last entry for `id` carries.
pub open spec fn lookup_last(m: Seq<(Seq<char>, Seq<char>)>, id: Seq<char>) -> Option<Seq<char>>
    decreases m.len(),
{
    if m.len() == 0 {
        None
    } else if m.last().0 == id {
        Some(m.last().1)
    } else {
        lookup_last(m.drop_last(), id)
    }
}

fn copy_string(s: &String) -> (r: String)
    ensures
        r@ == s@,
{
    s.clone()
}

impl Locale {
    /// Translation for key id `id`, if this locale has one.
    pub fn get(&self, id: &str) -> (r: Option<&str>)
        ensures
            match r {
                Some(t) => lookup_last(self@.map, id@) == Some(t@),
                None => lookup_last(self@.map, id@) is None,
            },
    {
        let want = chars_of(id);
        let mut k: usize = self.map.len();
        proof {
            assert(entries_view(self.map@).subrange(0, k as int) =~= entries_view(self.map@));
        }
        while k > 0
            invariant
                k <= self.map@.len(),
                want@ == id@,
                lookup_last(self@.map, id@) == lookup_last(entries_view(self.map@).subrange(0, k as int), id@),
            decreases k,
        {
            let ghost ev = entries_view(self.map@);
            proof {
                let sub = ev.subrange(0, k as int);
                assert(sub.drop_last() =~= ev.subrange(0, k - 1));
                assert(sub.last() == (self.map@[k - 1].0@, self.map@[k - 1].1@));
            }
            if chars_eq(&chars_of(self.map[k - 1].0.as_str()), &want) {
                return Some(self.map[k - 1].1.as_str());
            }
            k = k - 1;
        }
        None
    }

    /// An independent copy of this locale.
    pub fn duplicate(&self) -> (r: Locale)
        ensures
            r@ == self@,
    {
        let mut map: Vec<(String, String)> = Vec::new();
        let mut k: usize = 0;
        while k < self.map.len()
            invariant
                k <= self.map@.len(),
                entries_view(map@) =~= entries_view(self.map@).subrange(0, k as int),
            decreases self.map@.len() - k,
        {
            let ghost prev = map@;
            map.push((copy_string(&self.map[k].0), copy_string(&self.map[k].1)));
            proof {
                assert(entries_view(map@) =~= entries_view(prev).push((self.map@[k as int].0@, self.map@[k as int].1@)));
            }
            k = k + 1;
        }
        proof {
            assert(entries_view(self.map@).subrange(0, k as int) =~= entries_view(self.map@));
        }
        Locale { code: copy_string(&self.code), name: copy_string(&self.name), map }
    }
}

/// Translation entries without the `_name` meta key, in order.
pub open spec fn without_name(entries: Seq<(Seq<char>, Seq<char>)>) -> Seq<(Seq<char>, Seq<char>)>
    decreases entries.len(),
{
    if entries.len() == 0 {
        Seq::empty()
    } else {
        let rest = without_name(entries.drop_last());
        if entries.last().0 == "_name"@ { rest } else { rest.push(entries.last()) }
    }
}

/// Build a locale from the `(key, text)` entries of a translation file:
/// the last `_name` entry is the display name (default: `code`), every other
/// entry is a translation.
pub fn locale_from_entries(code: &str, entries: Vec<(String, String)>) -> (l: Locale)
    ensures
        l@.code == code@,
        l@.name == (match lookup_last(entries_view(entries@), "_name"@) {
            Some(n) => n,
            None => code@,
        }),
        l@.map == without_name(entries_view(entries@)),
{
    let name_key = chars_of("_name");
    let mut name: Option<String> = None;
    let mut map: Vec<(String, String)> = Vec::new();
    let mut k: usize = 0;
    while k < entries.len()
        invariant
            k <= entries@.len(),
            name_key@ == "_name"@,
            entries_view(map@) == without_name(entries_view(entries@).subrange(0, k as int)),
            match name {
                Some(n) => lookup_last(entries_view(entries@).subrange(0, k as int), "_name"@) == Some(n@),
                None => lookup_last(entries_view(entries@).subrange(0, k as int), "_name"@) is None,
            },
        decreases entries@.len() - k,
    {
        let ghost ev = entries_view(entries@);
        proof {
            let sub = ev.subrange(0, k + 1);
            assert(sub.drop_last() =~= ev.subrange(0, k as int));
            assert(sub.last() == (entries@[k as int].0@, entries@[k as int].1@));
        }
        if chars_eq(&chars_of(entries[k].0.as_str()), &name_key) {
            name = Some(copy_string(&entries[k].1));
        } else {
            let ghost prev = map@;
            map.push((copy_string(&entries[k].0), copy_string(&entries[k].1)));
            proof {
                assert(entries_view(map@) =~= entries_view(prev).push((entries@[k as int].0@, entries@[k as int].1@)));
            }
        }
        k = k + 1;
    }
    proof {
        assert(entries_view(entries@).subrange(0, k as int) =~= entries_view(entries@));
    }
    let name = match name {
        Some(n) => n,
        None => string_from_chars(&chars_of(code)),
    };
    Locale { code: string_from_chars(&chars_of(code)), name, map }
}

/// `serde_json::Error`, the parse error of a translation file.
#[verifier::external_type_specification]
#[verifier::external_body]
pub struct ExJsonError(serde_json::Error);

/// The `(key, text)` entries that serde_json reads from `text` as a JSON
/// object whose every value is a string (one entry per distinct key, the
/// last occurrence of a repeated key winning, in key order); `None` when
/// `text` is not such an object.
pub uninterp spec fn json_string_object(text: Seq<char>) -> Option<Seq<(Seq<char>, Seq<char>)>>;

/// Read `text` with `serde_json::from_str` as a map from strings to strings
/// (`BTreeMap<String, String>`) and list its entries. The result depends on
/// the text alone; what serde_json accepts is not restated here.
#[verifier::external_body]
fn json_string_entries(text: &str) -> (r: Result<Vec<(String, String)>, serde_json::Error>)
    ensures
        match r {
            Ok(v) => json_string_object(text@) == Some(entries_view(v@)),
            Err(_) => json_string_object(text@) is None,
        },
{
    serde_json::from_str::<std::collections::BTreeMap<String, String>>(text).map(|m| m.into_iter().collect())
}

/// Why a translation file could not be read.
pub enum LocaleError {
    /// The text is not a JSON object of strings.
    Json(serde_json::Error),
}

/// One locale from a translation file's text: a flat JSON `{ id: text }`
/// object with an optional `_name` display name (default: `code`).
pub fn parse_locale(code: &str, text: &str) -> (r: Result<Locale, LocaleError>)
    ensures
        r is Ok <==> json_string_object(text@) is Some,
        r matches Ok(l) ==> (json_string_object(text@) matches Some(entries) && l@ == LocaleView {
            code: code@,
            name: match lookup_last(entries, "_name"@) {
                Some(n) => n,
                None => code@,
            },
            map: without_name(entries),
        }),
{
    match json_string_entries(text) {
        Ok(entries) => Ok(locale_from_entries(code, entries)),
        Err(e) => Err(LocaleError::Json(e)),
    }
}

/// The translator template's entries in the order its JSON text lists
/// them: `_name` with the English display name, then every key's id with
/// its English text, by id.
pub open spec fn spec_template_json_entries() -> Seq<(Seq<char>, Seq<char>)> {
    seq![("_name"@, ENGLISH_NAME@)] + spec_entries_in_id_order()
}

/// `serde_json::to_string_pretty` of `entries` as a JSON object, through a
/// `BTreeMap<String, String>`; with the keys strictly increasing the map
/// holds the entries one for one, in their order. serde_json escapes every
/// string it writes and `from_str` reads it back unchanged, so the text
/// reads back as exactly these entries.
#[verifier::external_body]
fn json_pretty_object(entries: &Vec<(String, String)>) -> (r: String)
    requires
        keys_increasing(entries_view(entries@)),
    ensures
        json_string_object(r@) == Some(entries_view(entries@)),
{
    let map: std::collections::BTreeMap<String, String> = entries.iter().cloned().collect();
    serde_json::to_string_pretty(&map).unwrap_or_default()
}

/// The English reference as a pretty-printed JSON object (`id` to text,
/// plus `_name`), sorted by id: the template a translator copies to start
/// a new `<code>.json`.
pub fn english_template_json() -> (r: String)
    ensures
        json_string_object(r@) == Some(spec_template_json_entries()),
{
    let mut entries: Vec<(String, String)> = Vec::new();
    entries.push((string_from_chars(&chars_of("_name")), string_from_chars(&chars_of(ENGLISH_NAME))));
    let mut r: u8 = 0;
    while r < 200
        invariant
            r <= 200,
            entries_view(entries@) =~= seq![("_name"@, ENGLISH_NAME@)] + spec_entries_in_id_order().subrange(0, r as int),
        decreases 200 - r,
    {
        let m = meta(key_by_id_rank(r));
        let ghost prev = entries@;
        entries.push((string_from_chars(&chars_of(m.id)), string_from_chars(&chars_of(m.english))));
        proof {
            assert(spec_entries_in_id_order().subrange(0, r + 1) =~= spec_entries_in_id_order().subrange(0, r as int).push(
                spec_entries_in_id_order()[r as int],
            ));
            assert(entries_view(entries@) =~= entries_view(prev).push(spec_entries_in_id_order()[r as int]));
        }
        r = r + 1;
    }
    proof {
        assert(spec_entries_in_id_order().subrange(0, 200) =~= spec_entries_in_id_order());
        lemma_template_keys_increasing(ENGLISH_NAME@);
    }
    json_pretty_object(&entries)
}

proof fn lemma_lookup_last_at(m: Seq<(Seq<char>, Seq<char>)>, id: Seq<char>, i: int)
    requires
        0 <= i < m.len(),
        m[i].0 == id,
        forall|j: int| i < j < m.len() ==> #[trigger] m[j].0 != id,
    ensures
        lookup_last(m, id) == Some(m[i].1),
    decreases m.len(),
{
    if i < m.len() - 1 {
        lemma_lookup_last_at(m.drop_last(), id, i);
    }
}

proof fn lemma_without_leading_name(x: (Seq<char>, Seq<char>), rest: Seq<(Seq<char>, Seq<char>)>)
    requires
        x.0 == "_name"@,
        forall|j: int| 0 <= j < rest.len() ==> #[trigger] rest[j].0 != "_name"@,
    ensures
        without_name(seq![x] + rest) == rest,
    decreases rest.len(),
{
    if rest.len() == 0 {
        assert(seq![x].drop_last() =~= Seq::<(Seq<char>, Seq<char>)>::empty());
        assert(without_name(Seq::<(Seq<char>, Seq<char>)>::empty()) == Seq::<(Seq<char>, Seq<char>)>::empty());
        assert(seq![x] + rest =~= seq![x]);
        assert(seq![x].last() == x);
    } else {
        let s = seq![x] + rest;
        assert(s.drop_last() =~= seq![x] + rest.drop_last());
        assert(s.last() == rest[rest.len() - 1]);
        assert(rest[rest.len() - 1].0 != "_name"@);
        lemma_without_leading_name(x, rest.drop_last());
        assert(rest.drop_last().push(rest.last()) =~= rest);
    }
}

/// The translator template reads back as English: its display name is
/// `English`, and every key's id looks up its English text.
pub proof fn law_template_reads_back_as_english(key: HelpKey)
    ensures
        lookup_last(spec_template_json_entries(), "_name"@) == Some(ENGLISH_NAME@),
        lookup_last(without_name(spec_template_json_entries()), spec_help_id(key)) == Some(spec_help_english(key)),
{
    let t = spec_template_json_entries();
    let s = spec_entries_in_id_order();
    lemma_template_keys_increasing(ENGLISH_NAME@);
    reveal_strlit("_name");
    assert forall|j: int| 0 <= j < s.len() implies #[trigger] s[j].0 != "_name"@ by {
        law_help_entries_nonempty(key_at_rank(j as u8));
    }
    assert forall|j: int| 0 < j < t.len() implies #[trigger] t[j].0 != "_name"@ by {
        assert(t[j] == s[j - 1]);
    }
    lemma_lookup_last_at(t, "_name"@, 0);
    lemma_without_leading_name(("_name"@, ENGLISH_NAME@), s);
    assert(t =~= seq![("_name"@, ENGLISH_NAME@)] + s);
    lemma_rank_inverse(key);
    let i = id_rank(key) as int;
    assert(s[i].0 == spec_help_id(key));
    assert forall|j: int| i < j < s.len() implies #[trigger] s[j].0 != spec_help_id(key) by {
        assert(t[i + 1] == s[i]);
        assert(t[j + 1] == s[j]);
        lemma_increasing_keys_differ(t, i + 1, j + 1);
    }
    lemma_lookup_last_at(s, spec_help_id(key), i);
}

/// Help-bubble language state: the loaded locales (sorted by display
/// name) and the active translation (`None` = English).
pub struct HelpState {
    pub locales: Vec<Locale>,
    pub active: Option<Locale>,
    /// Locales are published once; later loads are ignored.
    pub loaded: bool,
}

pub open spec fn locales_view(ls: Seq<Locale>) -> Seq<LocaleView> {
    ls.map_values(|l: Locale| l@)
}

impl HelpState {
    /// No locales loaded, English active.
    pub fn new() -> (s: HelpState)
        ensures
            s.locales@.len() == 0,
            s.active is None,
            !s.loaded,
    {
        HelpState { locales: Vec::new(), active: None, loaded: false }
    }
}

/// The text shown for `key`: the active translation when it has the key,
/// else the English reference.
pub open spec fn spec_help(active: Option<LocaleView>, key: HelpKey) -> Seq<char> {
    match active {
        Some(l) => match lookup_last(l.map, spec_help_id(key)) {
            Some(t) => t,
            None => spec_help_english(key),
        },
        None => spec_help_english(key),
    }
}

pub open spec fn active_view(s: &HelpState) -> Option<LocaleView> {
    match s.active {
        Some(l) => Some(l@),
        None => None,
    }
}

/// Resolve a help bubble in the active language, falling back per key to
/// the English reference.
pub fn help(state: &HelpState, key: HelpKey) -> (r: String)
    ensures
        r@ == spec_help(active_view(state), key),
{
    let m = meta(key);
    match &state.active {
        None => string_from_chars(&chars_of(m.english)),
        Some(loc) => match loc.get(m.id) {
            Some(t) => string_from_chars(&chars_of(t)),
            None => string_from_chars(&chars_of(m.english)),
        },
    }
}

/// Whether `code` names the English reference: empty, or `en` in any case.
pub open spec fn is_english_code(code: Seq<char>) -> bool {
    code.len() == 0 || eq_ignore_ascii_case(code, "en"@)
}

/// Index of the first locale whose code equals `code` ignoring ASCII case.
pub open spec fn first_code_match(ls: Seq<LocaleView>, code: Seq<char>) -> Option<int>
    decreases ls.len(),
{
    if ls.len() == 0 {
        None
    } else if eq_ignore_ascii_case(ls[0].code, code) {
        Some(0)
    } else {
        match first_code_match(ls.drop_first(), code) {
            Some(i) => Some(i + 1),
            None => None,
        }
    }
}

proof fn lemma_first_code_match_bounds(ls: Seq<LocaleView>, code: Seq<char>)
    ensures
        first_code_match(ls, code) matches Some(i) ==> 0 <= i < ls.len() && eq_ignore_ascii_case(ls[i].code, code),
    decreases ls.len(),
{
    if ls.len() > 0 && !eq_ignore_ascii_case(ls[0].code, code) {
        lemma_first_code_match_bounds(ls.drop_first(), code);
    }
}

fn find_locale(locales: &Vec<Locale>, code: &Vec<char>) -> (r: Option<usize>)
    ensures
        match r {
            Some(i) => first_code_match(locales_view(locales@), code@) == Some(i as int) && i < locales@.len(),
            None => first_code_match(locales_view(locales@), code@) is None,
        },
{
    let ghost lv = locales_view(locales@);
    let mut k: usize = 0;
    while k < locales.len()
        invariant
            k <= locales@.len(),
            lv == locales_view(locales@),
            forall|j: int| 0 <= j < k ==> !eq_ignore_ascii_case(#[trigger] lv[j].code, code@),
        decreases locales@.len() - k,
    {
        if chars_eq_ignore_ascii_case(&chars_of(locales[k].code.as_str()), code) {
            proof {
                lemma_first_match_at(lv, code@, k as int);
            }
            return Some(k);
        }
        k = k + 1;
    }
    proof {
        lemma_no_match(lv, code@);
    }
    None
}

proof fn lemma_first_match_at(ls: Seq<LocaleView>, code: Seq<char>, k: int)
    requires
        0 <= k < ls.len(),
        eq_ignore_ascii_case(ls[k].code, code),
        forall|j: int| 0 <= j < k ==> !eq_ignore_ascii_case(#[trigger] ls[j].code, code),
    ensures
        first_code_match(ls, code) == Some(k),
    decreases k,
{
    if k > 0 {
        assert(!eq_ignore_ascii_case(ls[0].code, code));
        assert forall|j: int| 0 <= j < k - 1 implies !eq_ignore_ascii_case(#[trigger] ls.drop_first()[j].code, code) by {
            assert(ls.drop_first()[j] == ls[j + 1]);
        }
        lemma_first_match_at(ls.drop_first(), code, k - 1);
    }
}

proof fn lemma_no_match(ls: Seq<LocaleView>, code: Seq<char>)
    requires
        forall|j: int| 0 <= j < ls.len() ==> !eq_ignore_ascii_case(#[trigger] ls[j].code, code),
    ensures
        first_code_match(ls, code) is None,
    decreases ls.len(),
{
    if ls.len() > 0 {
        assert(!eq_ignore_ascii_case(ls[0].code, code));
        assert forall|j: int| 0 <= j < ls.len() - 1 implies !eq_ignore_ascii_case(#[trigger] ls.drop_first()[j].code, code) by {
            assert(ls.drop_first()[j] == ls[j + 1]);
        }
        lemma_no_match(ls.drop_first(), code);
    }
}

/// The locale `set_active_language(code)` activates: none for English
/// codes and for codes no loaded locale has; else the first loaded locale
/// whose code matches ignoring ASCII case.
pub open spec fn spec_chosen_locale(ls: Seq<LocaleView>, code: Seq<char>) -> Option<LocaleView> {
    if is_english_code(code) {
        None
    } else {
        match first_code_match(ls, code) {
            Some(i) => Some(ls[i]),
            None => None,
        }
    }
}

/// Publish the active help-bubble language by code. An empty code, `en`,
/// or an unknown code selects the English reference.
pub fn set_active_language(state: &mut HelpState, code: &str)
    ensures
        active_view(final(state)) == spec_chosen_locale(locales_view(old(state).locales@), code@),
        final(state).locales@ == old(state).locales@,
        final(state).loaded == old(state).loaded,
{
    let c = chars_of(code);
    let en = chars_of(ENGLISH_CODE);
    if c.len() == 0 || chars_eq_ignore_ascii_case(&c, &en) {
        state.active = None;
        return;
    }
    match find_locale(&state.locales, &c) {
        Some(i) => {
            let l = state.locales[i].duplicate();
            state.active = Some(l);
        },
        None => {
            state.active = None;
        },
    }
}

/// Display name for a language code: `English` for English codes, the
/// first matching locale's name, else the code itself.
pub open spec fn spec_language_name(ls: Seq<LocaleView>, code: Seq<char>) -> Seq<char> {
    if is_english_code(code) {
        "English"@
    } else {
        match first_code_match(ls, code) {
            Some(i) => ls[i].name,
            None => code,
        }
    }
}

pub fn language_name(state: &HelpState, code: &str) -> (r: String)
    ensures
        r@ == spec_language_name(locales_view(state.locales@), code@),
{
    let c = chars_of(code);
    let en = chars_of(ENGLISH_CODE);
    if c.len() == 0 || chars_eq_ignore_ascii_case(&c, &en) {
        return string_from_chars(&chars_of(ENGLISH_NAME));
    }
    match find_locale(&state.locales, &c) {
        Some(i) => copy_string(&state.locales[i].name),
        None => string_from_chars(&c),
    }
}

/// `(code, display name)` of every selectable language: English first,
/// then every loaded locale in order.
pub open spec fn spec_available_languages(ls: Seq<LocaleView>) -> Seq<(Seq<char>, Seq<char>)> {
    seq![("en"@, "English"@)] + ls.map_values(|l: LocaleView| (l.code, l.name))
}

pub fn available_languages(state: &HelpState) -> (r: Vec<(String, String)>)
    ensures
        entries_view(r@) == spec_available_languages(locales_view(state.locales@)),
{
    let mut out: Vec<(String, String)> = Vec::new();
    out.push((string_from_chars(&chars_of(ENGLISH_CODE)), string_from_chars(&chars_of(ENGLISH_NAME))));
    let ghost lv = locales_view(state.locales@);
    let mut k: usize = 0;
    while k < state.locales.len()
        invariant
            k <= state.locales@.len(),
            lv == locales_view(state.locales@),
            entries_view(out@) =~= seq![("en"@, "English"@)] + lv.subrange(0, k as int).map_values(|l: LocaleView| (l.code, l.name)),
        decreases state.locales@.len() - k,
    {
        let ghost prev = out@;
        out.push((copy_string(&state.locales[k].code), copy_string(&state.locales[k].name)));
        proof {
            assert(lv[k as int] == state.locales@[k as int]@);
            assert(entries_view(out@) =~= entries_view(prev).push((lv[k as int].code, lv[k as int].name)));
            assert(lv.subrange(0, k + 1).map_values(|l: LocaleView| (l.code, l.name)) =~= lv.subrange(0, k as int).map_values(|l: LocaleView| (l.code, l.name)).push((lv[k as int].code, lv[k as int].name)));
        }
        k = k + 1;
    }
    proof {
        assert(lv.subrange(0, k as int) =~= lv);
    }
    out
}


/// Lower-cased code of candidate `i`.
pub open spec fn lc(cands: Seq<LocaleView>, i: int) -> Seq<char> {
    unicode_lower(cands[i].code)
}

/// Lower-cased display name of candidate `i`.
pub open spec fn ln(cands: Seq<LocaleView>, i: int) -> Seq<char> {
    unicode_lower(cands[i].name)
}

/// Candidate `i` survives the merge: no later candidate (a later file of
/// the same directory, or a higher-priority directory) has the same
/// lower-cased code.
pub open spec fn is_winner(cands: Seq<LocaleView>, i: int) -> bool {
    &&& 0 <= i < cands.len()
    &&& forall|j: int| i < j < cands.len() ==> #[trigger] lc(cands, j) != lc(cands, i)
}

/// Published order: by lower-cased name, ties by lower-cased code.
pub open spec fn key_before(cands: Seq<LocaleView>, a: int, b: int) -> bool {
    lex_lt(ln(cands, a), ln(cands, b)) || (ln(cands, a) == ln(cands, b) && lex_lt(lc(cands, a), lc(cands, b)))
}

/// `order` lists exactly the surviving candidates, in published order.
pub open spec fn is_merged_order(cands: Seq<LocaleView>, order: Seq<usize>) -> bool {
    &&& forall|x: usize| #[trigger] order.contains(x) <==> is_winner(cands, x as int)
    &&& forall|a: int, b: int| 0 <= a < b < order.len() ==> key_before(cands, order[a] as int, order[b] as int)
}

proof fn lemma_key_before_total(cands: Seq<LocaleView>, a: int, b: int)
    requires
        lc(cands, a) != lc(cands, b),
    ensures
        key_before(cands, a, b) || key_before(cands, b, a),
        !(key_before(cands, a, b) && key_before(cands, b, a)),
{
    lemma_lex_total(ln(cands, a), ln(cands, b));
    lemma_lex_total(lc(cands, a), lc(cands, b));
    lemma_lex_asymmetric(ln(cands, a), ln(cands, b));
    lemma_lex_asymmetric(lc(cands, a), lc(cands, b));
    lemma_lex_irreflexive(ln(cands, a));
}

proof fn lemma_key_before_transitive(cands: Seq<LocaleView>, a: int, b: int, c: int)
    requires
        key_before(cands, a, b),
        key_before(cands, b, c),
    ensures
        key_before(cands, a, c),
{
    let (na, nb, nc) = (ln(cands, a), ln(cands, b), ln(cands, c));
    if lex_lt(na, nb) && lex_lt(nb, nc) {
        lemma_lex_transitive(na, nb, nc);
    } else if lex_lt(na, nb) {
        assert(nb == nc);
    } else if lex_lt(nb, nc) {
        assert(na == nb);
    } else {
        lemma_lex_transitive(lc(cands, a), lc(cands, b), lc(cands, c));
    }
}

fn lower_chars(s: &String) -> (r: Vec<char>)
    ensures
        r@ == unicode_lower(s@),
        r@ == unicode_lower(ascii_lower_seq(s@)),
{
    let l = to_lower(s.as_str());
    chars_of(l.as_str())
}

fn insert_point(order: &Vec<usize>, lns: &Vec<Vec<char>>, lcs: &Vec<Vec<char>>, i: usize, Ghost(cands): Ghost<Seq<LocaleView>>) -> (q: usize)
    requires
        i < cands.len(),
        lns@.len() == cands.len(),
        lcs@.len() == cands.len(),
        forall|j: int| 0 <= j < cands.len() ==> (#[trigger] lns@[j])@ == ln(cands, j) && lcs@[j]@ == lc(cands, j),
        forall|k: int| 0 <= k < order@.len() ==> (#[trigger] order@[k]) < cands.len(),
    ensures
        q <= order@.len(),
        forall|k: int| 0 <= k < q ==> key_before(cands, #[trigger] order@[k] as int, i as int),
        q < order@.len() ==> !key_before(cands, order@[q as int] as int, i as int),
{
    let mut q: usize = 0;
    while q < order.len()
        invariant
            q <= order@.len(),
            i < cands.len(),
            lns@.len() == cands.len(),
            lcs@.len() == cands.len(),
            forall|j: int| 0 <= j < cands.len() ==> (#[trigger] lns@[j])@ == ln(cands, j) && lcs@[j]@ == lc(cands, j),
            forall|k: int| 0 <= k < order@.len() ==> (#[trigger] order@[k]) < cands.len(),
            forall|k: int| 0 <= k < q ==> key_before(cands, #[trigger] order@[k] as int, i as int),
        decreases order@.len() - q,
    {
        let o = order[q];
        let before = lex_less(&lns[o], &lns[i]) || (chars_eq(&lns[o], &lns[i]) && lex_less(&lcs[o], &lcs[i]));
        if !before {
            return q;
        }
        q = q + 1;
    }
    q
}

/// Merge the candidate locales (in increasing priority: directory after
/// directory, files in scan order) and publish them, once: a later
/// candidate replaces an earlier one with the same lower-cased code, and
/// the survivors are ordered by lower-cased name (ties: lower-cased code).
/// Later calls leave the published set unchanged.
pub fn load_locales(state: &mut HelpState, candidates: Vec<Locale>)
    ensures
        old(state).loaded ==> final(state).locales@ == old(state).locales@,
        !old(state).loaded ==> exists|order: Seq<usize>| #![trigger is_merged_order(locales_view(candidates@), order)]
            is_merged_order(locales_view(candidates@), order)
            && locales_view(final(state).locales@) == order.map_values(|i: usize| locales_view(candidates@)[i as int]),
        !old(state).loaded ==> forall|a: int, b: int| 0 <= a < b < final(state).locales@.len()
            ==> !eq_ignore_ascii_case(#[trigger] final(state).locales@[a].code@, #[trigger] final(state).locales@[b].code@),
        final(state).loaded,
        active_view(final(state)) == active_view(old(state)),
{
    if state.loaded {
        return;
    }
    let ghost cands = locales_view(candidates@);
    let n = candidates.len();
    let mut lns: Vec<Vec<char>> = Vec::new();
    let mut lcs: Vec<Vec<char>> = Vec::new();
    let mut k: usize = 0;
    while k < n
        invariant
            n == candidates@.len(),
            cands == locales_view(candidates@),
            k <= n,
            lns@.len() == k,
            lcs@.len() == k,
            forall|j: int| 0 <= j < k ==> (#[trigger] lns@[j])@ == ln(cands, j),
            forall|j: int| 0 <= j < k ==> (#[trigger] lcs@[j])@ == lc(cands, j),
            forall|j: int| 0 <= j < k ==> #[trigger] unicode_lower(ascii_lower_seq(cands[j].code)) == lc(cands, j),
        decreases n - k,
    {
        lns.push(lower_chars(&candidates[k].name));
        lcs.push(lower_chars(&candidates[k].code));
        proof {
            assert(cands[k as int] == candidates@[k as int]@);
            assert(lns@[k as int]@ == ln(cands, k as int));
            assert(lcs@[k as int]@ == lc(cands, k as int));
        }
        k = k + 1;
    }
    assert forall|j: int| 0 <= j < n implies (#[trigger] lns@[j])@ == ln(cands, j) && lcs@[j]@ == lc(cands, j) by {
        assert(lns@[j]@ == ln(cands, j));
        assert(lcs@[j]@ == lc(cands, j));
    }
    let mut order: Vec<usize> = Vec::new();
    let mut i: usize = 0;
    while i < n
        invariant
            n == candidates@.len(),
            cands == locales_view(candidates@),
            i <= n,
            lns@.len() == n,
            lcs@.len() == n,
            forall|j: int| 0 <= j < n ==> (#[trigger] lns@[j])@ == ln(cands, j) && lcs@[j]@ == lc(cands, j),
            forall|x: usize| #[trigger] order@.contains(x) <==> (x < i && is_winner(cands, x as int)),
            forall|a: int, b: int| 0 <= a < b < order@.len() ==> key_before(cands, order@[a] as int, order@[b] as int),
        decreases n - i,
    {
        let mut win = true;
        let mut j: usize = i + 1;
        proof {
            assert forall|t: int| 0 <= t < n implies (#[trigger] lcs@[t])@ == lc(cands, t) by {
                assert(lns@[t]@ == ln(cands, t));
            }
        }
        while j < n
            invariant
                n == candidates@.len(),
                i < j <= n,
                lcs@.len() == n,
                forall|t: int| 0 <= t < n ==> (#[trigger] lcs@[t])@ == lc(cands, t),
                win == (forall|t: int| i < t < j ==> #[trigger] lc(cands, t) != lc(cands, i as int)),
            decreases n - j,
        {
            if chars_eq(&lcs[j], &lcs[i]) {
                win = false;
            }
            j = j + 1;
        }
        proof {
            assert(win == is_winner(cands, i as int));
        }
        if win {
            proof {
                assert forall|k: int| 0 <= k < order@.len() implies (#[trigger] order@[k]) < n by {
                    assert(order@.contains(order@[k]));
                }
            }
            let q = insert_point(&order, &lns, &lcs, i, Ghost(cands));
            let ghost old_order = order@;
            proof {
                assert forall|k: int| 0 <= k < old_order.len() implies (#[trigger] old_order[k]) < i && is_winner(cands, old_order[k] as int) by {
                    assert(old_order.contains(old_order[k]));
                }
                assert forall|k: int| 0 <= k < old_order.len() implies lc(cands, #[trigger] old_order[k] as int) != lc(cands, i as int) by {
                    assert(old_order.contains(old_order[k]));
                }
                if q < old_order.len() {
                    let o = old_order[q as int];
                    lemma_key_before_total(cands, o as int, i as int);
                    assert(key_before(cands, i as int, o as int));
                    assert forall|k: int| q <= k < old_order.len() implies key_before(cands, i as int, #[trigger] old_order[k] as int) by {
                        if k > q {
                            lemma_key_before_transitive(cands, i as int, o as int, old_order[k] as int);
                        }
                    }
                }
            }
            order.insert(q, i);
            proof {
                assert(order@ =~= old_order.subrange(0, q as int).push(i) + old_order.subrange(q as int, old_order.len() as int));
                assert forall|x: usize| #[trigger] order@.contains(x) <==> (x < i + 1 && is_winner(cands, x as int)) by {
                    if order@.contains(x) {
                        let k = choose|k: int| 0 <= k < order@.len() && order@[k] == x;
                        if k < q {
                            assert(old_order.contains(old_order[k]));
                        } else if k > q {
                            assert(order@[k] == old_order[k - 1]);
                            assert(old_order.contains(old_order[k - 1]));
                        }
                    }
                    if x < i + 1 && is_winner(cands, x as int) {
                        if x == i {
                            assert(order@[q as int] == x);
                        } else {
                            assert(old_order.contains(x));
                            let k = choose|k: int| 0 <= k < old_order.len() && old_order[k] == x;
                            if k < q {
                                assert(order@[k] == x);
                            } else {
                                assert(order@[k + 1] == x);
                            }
                        }
                    }
                }
                assert forall|a: int, b: int| 0 <= a < b < order@.len() implies key_before(cands, order@[a] as int, order@[b] as int) by {
                    if b < q {
                    } else if b == q {
                    } else if a < q {
                        assert(order@[b] == old_order[b - 1]);
                        lemma_key_before_transitive(cands, old_order[a] as int, i as int, old_order[b - 1] as int);
                    } else if a == q {
                        assert(order@[b] == old_order[b - 1]);
                    } else {
                        assert(order@[a] == old_order[a - 1]);
                        assert(order@[b] == old_order[b - 1]);
                    }
                }
            }
        } else {
            proof {
                assert forall|x: usize| #[trigger] order@.contains(x) <==> (x < i + 1 && is_winner(cands, x as int)) by {
                    if x == i && order@.contains(x) {
                        let k = choose|k: int| 0 <= k < order@.len() && order@[k] == x;
                        assert(order@.contains(order@[k]));
                    }
                }
            }
        }
        i = i + 1;
    }
    let mut published: Vec<Locale> = Vec::new();
    let mut k: usize = 0;
    while k < order.len()
        invariant
            n == candidates@.len(),
            cands == locales_view(candidates@),
            k <= order@.len(),
            forall|x: usize| #[trigger] order@.contains(x) <==> (x < n && is_winner(cands, x as int)),
            locales_view(published@) =~= order@.subrange(0, k as int).map_values(|i: usize| cands[i as int]),
        decreases order@.len() - k,
    {
        let o = order[k];
        proof {
            assert(order@.contains(o));
        }
        let ghost prev = published@;
        published.push(candidates[o].duplicate());
        proof {
            assert(locales_view(published@) =~= locales_view(prev).push(cands[o as int]));
            assert(order@.subrange(0, k + 1).map_values(|i: usize| cands[i as int]) =~= order@.subrange(0, k as int).map_values(|i: usize| cands[i as int]).push(cands[o as int]));
        }
        k = k + 1;
    }
    proof {
        assert(order@.subrange(0, k as int) =~= order@);
        assert(is_merged_order(cands, order@));
        lemma_merged_codes_distinct(cands, order@);
        assert forall|a: int, b: int| 0 <= a < b < published@.len() implies !eq_ignore_ascii_case(
            #[trigger] published@[a].code@, #[trigger] published@[b].code@) by {
            let x = order@[a] as int;
            let y = order@[b] as int;
            assert(order@.contains(order@[a]));
            assert(order@.contains(order@[b]));
            assert(locales_view(published@)[a] == cands[x]);
            assert(locales_view(published@)[b] == cands[y]);
            assert(unicode_lower(ascii_lower_seq(cands[x].code)) == lc(cands, x));
            assert(unicode_lower(ascii_lower_seq(cands[y].code)) == lc(cands, y));
        }
    }
    state.locales = published;
    state.loaded = true;
}


/// Choosing English, or a language no loaded locale has, shows every help
/// bubble in the English reference text.
pub proof fn law_unknown_or_english_code_shows_english(ls: Seq<LocaleView>, code: Seq<char>, key: HelpKey)
    requires
        is_english_code(code) || first_code_match(ls, code) is None,
    ensures
        spec_help(spec_chosen_locale(ls, code), key) == spec_help_english(key),
{
}

/// A loaded translation wins for the keys it has; every key it lacks falls
/// back to the English reference.
pub proof fn law_translation_falls_back_per_key(l: LocaleView, key: HelpKey)
    ensures
        lookup_last(l.map, spec_help_id(key)) is None ==> spec_help(Some(l), key) == spec_help_english(key),
        lookup_last(l.map, spec_help_id(key)) matches Some(t) ==> spec_help(Some(l), key) == t,
{
}


/// A file in a locales directory is a selectable language when its
/// extension is `json` and its stem is neither `en` (English is built in)
/// nor `template` (the translators' starting point), ignoring ASCII case;
/// the language code is the stem.
pub open spec fn spec_locale_file_code(extension: Option<Seq<char>>, stem: Option<Seq<char>>) -> Option<Seq<char>> {
    match (extension, stem) {
        (Some(e), Some(s)) => if e == "json"@ && !eq_ignore_ascii_case(s, "en"@)
            && !eq_ignore_ascii_case(s, "template"@) {
            Some(s)
        } else {
            None
        },
        _ => None,
    }
}

/// The language code a locale file stands for, from its extension and
/// stem, or `None` when the file is not a selectable language.
pub fn locale_file_code(extension: Option<&str>, stem: Option<&str>) -> (r: Option<String>)
    ensures
        match r {
            Some(c) => spec_locale_file_code(
                match extension { Some(e) => Some(e@), None => None },
                match stem { Some(s) => Some(s@), None => None },
            ) == Some(c@),
            None => spec_locale_file_code(
                match extension { Some(e) => Some(e@), None => None },
                match stem { Some(s) => Some(s@), None => None },
            ) is None,
        },
{
    let (e, s) = match (extension, stem) {
        (Some(e), Some(s)) => (e, s),
        _ => return None,
    };
    if !chars_eq(&chars_of(e), &chars_of("json")) {
        return None;
    }
    let sc = chars_of(s);
    if chars_eq_ignore_ascii_case(&sc, &chars_of(ENGLISH_CODE)) || chars_eq_ignore_ascii_case(&sc, &chars_of(TEMPLATE_STEM)) {
        return None;
    }
    Some(string_from_chars(&sc))
}


/// A locale found later (a higher-priority directory, or a later file) with
/// the same code, ignoring case, replaces an earlier one: the earlier one is
/// never published, and each code is published at most once.
proof fn lemma_merged_codes_distinct(cands: Seq<LocaleView>, order: Seq<usize>)
    requires
        is_merged_order(cands, order),
    ensures
        forall|a: int, b: int| 0 <= a < b < order.len() ==> lc(cands, #[trigger] order[a] as int) != lc(cands, #[trigger] order[b] as int),
{
    assert forall|a: int, b: int| 0 <= a < b < order.len() implies lc(cands, #[trigger] order[a] as int) != lc(cands, #[trigger] order[b] as int) by {
        let x = order[a] as int;
        let y = order[b] as int;
        assert(order.contains(order[a]));
        assert(order.contains(order[b]));
        if x == y {
            lemma_key_before_irreflexive_at(cands, x);
            assert(key_before(cands, x, y));
        } else if x < y {
            assert(lc(cands, y) != lc(cands, x));
        } else {
            assert(lc(cands, x) != lc(cands, y));
        }
    }
}

pub proof fn law_later_locale_replaces_earlier(cands: Seq<LocaleView>, order: Seq<usize>, i: int, j: int)
    requires
        is_merged_order(cands, order),
        0 <= i < j < cands.len(),
        lc(cands, i) == lc(cands, j),
    ensures
        forall|k: int| 0 <= k < order.len() ==> #[trigger] order[k] as int != i,
        forall|a: int, b: int| 0 <= a < b < order.len() ==> lc(cands, #[trigger] order[a] as int) != lc(cands, #[trigger] order[b] as int),
{
    assert(!is_winner(cands, i));
    assert forall|k: int| 0 <= k < order.len() implies #[trigger] order[k] as int != i by {
        assert(order.contains(order[k]));
    }
    lemma_merged_codes_distinct(cands, order);
}

proof fn lemma_key_before_irreflexive_at(cands: Seq<LocaleView>, a: int)
    ensures
        !key_before(cands, a, a),
{
    lemma_lex_irreflexive(ln(cands, a));
    lemma_lex_irreflexive(lc(cands, a));
}


/// The published language list is determined by the candidates: two orders
/// that both satisfy [`is_merged_order`] are the same.
pub proof fn law_merged_order_unique(cands: Seq<LocaleView>, o1: Seq<usize>, o2: Seq<usize>)
    requires
        is_merged_order(cands, o1),
        is_merged_order(cands, o2),
    ensures
        o1 == o2,
{
    let before = |x: int, y: int| key_before(cands, x, y);
    assert forall|x: int, y: int| !(#[trigger] before(x, y) && #[trigger] before(y, x)) by {
        lemma_lex_asymmetric(ln(cands, x), ln(cands, y));
        lemma_lex_asymmetric(lc(cands, x), lc(cands, y));
        lemma_lex_irreflexive(ln(cands, x));
        lemma_lex_irreflexive(lc(cands, x));
    }
    crate::seqs::lemma_ordered_unique(o1, o2, before);
}

} // verus!
