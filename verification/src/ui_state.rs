//! Top-level UI state that is not tied to one tab: the active tab and the
//! corrupt-show recovery dialog.

use vstd::prelude::*;
use crate::backup::RecoveryCandidate;
use crate::show_file::ConnectionSettings;
use crate::text::{chars_of, dec_digits, parse_uint_chars, push_decimal, spec_parse_uint, string_from_chars, trim, trim_chars};

verus! {

/// The active UI tab.
#[derive(Clone, Copy, Debug, PartialEq, Eq, Structural)]
pub enum Tab {
    Setup,
    Snapshots,
    Macros,
    Gangs,
    PanLink,
    Sidecar,
    Monitor,
    OscLog,
    Inspector,
}

/// Offered when a show file fails to load as corrupt: the safety copies
/// found for it, newest first.
pub struct RecoveryDialog {
    /// The corrupt file the operator tried to open.
    pub original_path: String,
    /// Candidates found in the backup folder, newest first.
    pub candidates: Vec<RecoveryCandidate>,
    /// A candidate has been loaded: saving back to the original path is
    /// offered.
    pub recovered: bool,
}

/// What the operator asked for in the dialog.
pub enum RecoveryRequest {
    Cancel,
    /// Load the candidate at this position.
    Load(usize),
    SaveToOriginal,
}

/// What the application does in answer.
pub enum RecoveryStep {
    /// The request is not available (a disabled button): nothing happens.
    Ignore,
    /// Close the dialog.
    Close,
    /// Load the show file at this path; the dialog stays open.
    LoadFrom(String),
    /// Save the loaded show to this (the original) path and close.
    SaveToAndClose(String),
}

impl RecoveryDialog {
    /// A dialog for `original_path` with its `candidates`, nothing loaded
    /// yet.
    pub fn new(original_path: String, candidates: Vec<RecoveryCandidate>) -> (d: RecoveryDialog)
        ensures
            d.original_path@ == original_path@,
            d.candidates@ == candidates@,
            !d.recovered,
    {
        RecoveryDialog { original_path, candidates, recovered: false }
    }

    /// A show file finished loading while the dialog was open: the
    /// recovery succeeded.
    pub fn mark_recovered(&mut self)
        ensures
            final(self).recovered,
            final(self).original_path@ == old(self).original_path@,
            final(self).candidates@ == old(self).candidates@,
    {
        self.recovered = true;
    }

    /// Answer a request: cancel closes; a valid candidate is loaded (an
    /// unreadable one, or a position past the list, is ignored); saving to
    /// the original path is available only after a recovery.
    pub fn respond(&self, request: &RecoveryRequest) -> (step: RecoveryStep)
        ensures
            match *request {
                RecoveryRequest::Cancel => step is Close,
                RecoveryRequest::Load(i) => if i < self.candidates@.len() && self.candidates@[i as int].valid {
                    step matches RecoveryStep::LoadFrom(p) && p@ == self.candidates@[i as int].path@
                } else {
                    step is Ignore
                },
                RecoveryRequest::SaveToOriginal => if self.recovered {
                    step matches RecoveryStep::SaveToAndClose(p) && p@ == self.original_path@
                } else {
                    step is Ignore
                },
            },
    {
        match request {
            RecoveryRequest::Cancel => RecoveryStep::Close,
            RecoveryRequest::Load(i) => {
                if *i < self.candidates.len() && self.candidates[*i].valid {
                    RecoveryStep::LoadFrom(self.candidates[*i].path.clone())
                } else {
                    RecoveryStep::Ignore
                }
            },
            RecoveryRequest::SaveToOriginal => {
                if self.recovered {
                    RecoveryStep::SaveToAndClose(self.original_path.clone())
                } else {
                    RecoveryStep::Ignore
                }
            },
        }
    }
}


/// The connection fields of the Setup tab, as the operator edits them
/// (ports as typed text).
pub struct SetupConnectionForm {
    pub local_ip: String,
    pub console_ip: String,
    pub console_port: String,
    pub local_port: String,
    pub trigger_port: String,
    pub ipad_ip: String,
    pub ipad_console_port: String,
    pub ipad_local_port: String,
    pub ipad_listen_port: String,
    pub ipad_reply_port: String,
    pub monitor_port: String,
    pub qlab_ip: String,
    pub qlab_port: String,
    pub qlab_patch_app: String,
    pub qlab_patch_console: String,
    pub send_pace_us: u64,
    pub monitor_allow_cidrs: Vec<String>,
    pub trigger_allow_cidrs: Vec<String>,
    pub web_port: String,
    pub web_allow_cidrs: Vec<String>,
}

/// A text field after a load: the loaded text when it is non-empty, else
/// the field as it was.
pub open spec fn loaded_text(field: Seq<char>, loaded: Seq<char>) -> Seq<char> {
    if loaded.len() > 0 { loaded } else { field }
}

/// A port field after a load: the loaded number in decimal when it is
/// positive, else the field as it was.
pub open spec fn loaded_number(field: Seq<char>, loaded: int) -> Seq<char> {
    if loaded > 0 { dec_digits(loaded as nat) } else { field }
}

pub open spec fn texts_view(v: Seq<String>) -> Seq<Seq<char>> {
    v.map_values(|s: String| s@)
}

fn take_text(field: &mut String, loaded: &String)
    ensures
        final(field)@ == loaded_text(old(field)@, loaded@),
{
    if crate::text::chars_of(loaded.as_str()).len() > 0 {
        *field = loaded.clone();
    }
}

fn take_number(field: &mut String, loaded: u64)
    ensures
        final(field)@ == loaded_number(old(field)@, loaded as int),
{
    if loaded > 0 {
        let mut d: Vec<char> = Vec::new();
        push_decimal(&mut d, loaded);
        assert(d@ =~= dec_digits(loaded as nat));
        *field = string_from_chars(&d);
    }
}

fn copy_texts(v: &Vec<String>) -> (r: Vec<String>)
    ensures
        texts_view(r@) == texts_view(v@),
{
    let mut r: Vec<String> = Vec::new();
    let mut k: usize = 0;
    while k < v.len()
        invariant
            k <= v@.len(),
            texts_view(r@) =~= texts_view(v@.subrange(0, k as int)),
        decreases v@.len() - k,
    {
        let ghost before = r@;
        r.push(v[k].clone());
        proof {
            assert(texts_view(r@) =~= texts_view(before).push(v@[k as int]@));
            assert(v@.subrange(0, k + 1) =~= v@.subrange(0, k as int).push(v@[k as int]));
        }
        k = k + 1;
    }
    proof {
        assert(v@.subrange(0, v@.len() as int) =~= v@);
    }
    r
}

/// `n` is the form `o` after taking in the loaded `conn` with `pace` the
/// pacing now in force (the show's value adopted only while
/// `current_pace_us` is zero).
pub open spec fn connection_applied(
    o: SetupConnectionForm,
    conn: ConnectionSettings,
    current_pace_us: u64,
    n: SetupConnectionForm,
    pace: u64,
) -> bool {
    &&& pace == (if current_pace_us == 0 && conn.send_pace_us != 0 { conn.send_pace_us } else { current_pace_us })
    &&& n.send_pace_us == pace
    &&& n.local_ip@ == loaded_text(o.local_ip@, conn.local_ip@)
    &&& n.console_ip@ == loaded_text(o.console_ip@, conn.console_ip@)
    &&& n.console_port@ == loaded_number(o.console_port@, conn.console_gp_port as int)
    &&& n.local_port@ == loaded_number(o.local_port@, conn.local_gp_port as int)
    &&& n.trigger_port@ == loaded_number(o.trigger_port@, conn.trigger_port as int)
    &&& n.ipad_ip@ == loaded_text(o.ipad_ip@, conn.ipad_ip@)
    &&& n.ipad_console_port@ == loaded_number(o.ipad_console_port@, conn.ipad_send_port as int)
    &&& n.ipad_local_port@ == loaded_number(o.ipad_local_port@, conn.ipad_receive_port as int)
    &&& n.ipad_listen_port@ == loaded_number(o.ipad_listen_port@, conn.ipad_listen_port as int)
    &&& n.ipad_reply_port@ == loaded_number(o.ipad_reply_port@, conn.ipad_reply_port as int)
    &&& n.monitor_port@ == loaded_number(o.monitor_port@, conn.monitor_port as int)
    &&& n.qlab_ip@ == loaded_text(o.qlab_ip@, conn.qlab_ip@)
    &&& n.qlab_port@ == loaded_number(o.qlab_port@, conn.qlab_port as int)
    &&& n.qlab_patch_app@ == loaded_number(o.qlab_patch_app@, conn.qlab_patch_app as int)
    &&& n.qlab_patch_console@ == loaded_number(o.qlab_patch_console@, conn.qlab_patch_console as int)
    &&& texts_view(n.monitor_allow_cidrs@) == texts_view(conn.monitor_allow_cidrs@)
    &&& texts_view(n.trigger_allow_cidrs@) == texts_view(conn.trigger_allow_cidrs@)
    &&& n.web_port@ == (if conn.web_port > 0 { dec_digits(conn.web_port as nat) } else { Seq::empty() })
    &&& texts_view(n.web_allow_cidrs@) == texts_view(conn.web_allow_cidrs@)
}

impl SetupConnectionForm {
    /// Take the connection settings of a freshly loaded show into the form:
    /// non-empty addresses and positive ports replace what is there (blank
    /// or zero values keep the current entry); the allowlists are replaced;
    /// the web port shows blank when disabled. The recall pacing is
    /// machine-wide: the show's value is adopted only while no pacing is set
    /// yet (`current_pace_us == 0`). Returns the pacing now in force.
    pub fn apply_loaded_connection(&mut self, conn: &ConnectionSettings, current_pace_us: u64) -> (pace: u64)
        ensures
            connection_applied(*old(self), *conn, current_pace_us, *final(self), pace),
    {
        take_text(&mut self.local_ip, &conn.local_ip);
        take_text(&mut self.console_ip, &conn.console_ip);
        take_number(&mut self.console_port, conn.console_gp_port as u64);
        take_number(&mut self.local_port, conn.local_gp_port as u64);
        take_number(&mut self.trigger_port, conn.trigger_port as u64);
        take_text(&mut self.ipad_ip, &conn.ipad_ip);
        take_number(&mut self.ipad_console_port, conn.ipad_send_port as u64);
        take_number(&mut self.ipad_local_port, conn.ipad_receive_port as u64);
        take_number(&mut self.ipad_listen_port, conn.ipad_listen_port as u64);
        take_number(&mut self.ipad_reply_port, conn.ipad_reply_port as u64);
        take_number(&mut self.monitor_port, conn.monitor_port as u64);
        take_text(&mut self.qlab_ip, &conn.qlab_ip);
        take_number(&mut self.qlab_port, conn.qlab_port as u64);
        if conn.qlab_patch_app > 0 {
            take_number(&mut self.qlab_patch_app, conn.qlab_patch_app as u64);
        }
        if conn.qlab_patch_console > 0 {
            take_number(&mut self.qlab_patch_console, conn.qlab_patch_console as u64);
        }
        let pace = if current_pace_us == 0 && conn.send_pace_us != 0 { conn.send_pace_us } else { current_pace_us };
        self.send_pace_us = pace;
        self.monitor_allow_cidrs = copy_texts(&conn.monitor_allow_cidrs);
        self.trigger_allow_cidrs = copy_texts(&conn.trigger_allow_cidrs);
        if conn.web_port > 0 {
            let mut d: Vec<char> = Vec::new();
            push_decimal(&mut d, conn.web_port as u64);
            assert(d@ =~= dec_digits(conn.web_port as nat));
            self.web_port = string_from_chars(&d);
        } else {
            self.web_port = String::new();
        }
        self.web_allow_cidrs = copy_texts(&conn.web_allow_cidrs);
        pace
    }
}

/// The OSC-target form can be added: the trimmed name and host are
/// non-empty and the trimmed port parses as a `u16`.
pub open spec fn spec_osc_target_form_valid(name: Seq<char>, host: Seq<char>, port: Seq<char>) -> bool {
    &&& trim(name).len() > 0
    &&& trim(host).len() > 0
    &&& spec_parse_uint(trim(port), u16::MAX as nat) is Some
}

/// Whether the Add button of the OSC-target form is enabled (see
/// [`spec_osc_target_form_valid`]).
pub fn osc_target_form_valid(name: &str, host: &str, port: &str) -> (r: bool)
    ensures
        r == spec_osc_target_form_valid(name@, host@, port@),
{
    new_osc_target(name, host, port).is_some()
}

/// The target the OSC-target form adds: trimmed name and host and the
/// trimmed port's value, when the form is valid.
pub fn new_osc_target(name: &str, host: &str, port: &str) -> (r: Option<(String, String, u16)>)
    ensures
        r is Some <==> spec_osc_target_form_valid(name@, host@, port@),
        r matches Some(t) ==> t.0@ == trim(name@) && t.1@ == trim(host@)
            && spec_parse_uint(trim(port@), u16::MAX as nat) == Some(t.2 as nat),
{
    let n = trim_chars(&chars_of(name));
    let h = trim_chars(&chars_of(host));
    let p = trim_chars(&chars_of(port));
    if n.len() == 0 || h.len() == 0 {
        return None;
    }
    proof {
        assert(p@.subrange(0, p@.len() as int) =~= p@);
    }
    match parse_uint_chars(&p, 0, p.len(), 65535) {
        Some(v) => Some((string_from_chars(&n), string_from_chars(&h), v as u16)),
        None => None,
    }
}

} // verus!

