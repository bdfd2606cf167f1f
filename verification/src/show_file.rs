//! The show file: connection settings and persisted show content, plus the
//! clean-up applied to every loaded show.

use vstd::prelude::*;
use crate::channel::ConsoleConfig;
use crate::model::{
    BindingTarget, ChannelScope, MacroDef, MacroStep, ScopeTemplate, SidecarBinding, SidecarConfig,
    Snapshot, step_address, target_address,
};
use crate::monitor_picker::MonitorClient;
use crate::seqs::{keep_if, lemma_keep_if_all, lemma_keep_if_sound, retain_where};
use crate::state::{ParameterAddress, ParameterPath, ParameterValue};
use crate::text::{chars_of, string_from_chars};
use crate::cidr::{Ipv4Cidr, parsed_allowlist, spec_parse_cidr, strings_view};

verus! {

/// Version of this application, stamped into every show file it writes.
pub const APP_VERSION: &'static str = "0.1.2";
/// Show-file format revision written by this library.
pub const SHOW_FILE_VERSION: u32 = 19;

/// Which way snapshot recalls flow between the app and the desk.
#[derive(Clone, Copy, Debug, PartialEq, Eq, Structural)]
pub enum SnapshotSyncDirection {
    Off,
    AppToConsole,
    ConsoleToApp,
}

/// Connection settings persisted in the show file.
pub struct ConnectionSettings {
    pub local_ip: String,
    pub console_ip: String,
    pub console_gp_port: u16,
    pub local_gp_port: u16,
    pub trigger_port: u16,
    pub ipad_ip: String,
    pub ipad_send_port: u16,
    pub ipad_receive_port: u16,
    pub ipad_listen_port: u16,
    pub ipad_reply_port: u16,
    pub monitor_port: u16,
    /// QLab destination IP; empty falls back to localhost in the UI.
    pub qlab_ip: String,
    pub qlab_port: u16,
    /// QLab network patch for cues that target this app.
    pub qlab_patch_app: i32,
    /// QLab network patch for cues that target the console.
    pub qlab_patch_console: i32,
    /// Inter-message pacing during snapshot recall, in microseconds.
    pub send_pace_us: u64,
    pub auto_update_on_recall: bool,
    pub snapshot_sync_direction: SnapshotSyncDirection,
    /// Legacy follow toggle from pre-direction show files (read only).
    pub console_snapshot_follow_legacy: Option<bool>,
    /// Source-IP CIDR allowlist for the monitor server (empty = accept all).
    pub monitor_allow_cidrs: Vec<String>,
    /// Source-IP CIDR allowlist for the trigger listener.
    pub trigger_allow_cidrs: Vec<String>,
    /// Web monitor port (0 = disabled).
    pub web_port: u16,
    /// Source-IP CIDR allowlist for the web monitor server.
    pub web_allow_cidrs: Vec<String>,
    /// Settings whose value types this library does not model (the
    /// operating mode and the UI mode), as `(key, JSON text)` pairs, written
    /// back exactly as they were read.
    pub carried: Vec<(String, String)>,
}

pub fn default_gp_port() -> (p: u16)
    ensures
        p == 8024,
{
    8024
}

pub fn default_local_port() -> (p: u16)
    ensures
        p == 8023,
{
    8023
}

pub fn default_trigger_port() -> (p: u16)
    ensures
        p == 53001,
{
    53001
}

pub fn default_qlab_port() -> (p: u16)
    ensures
        p == 53000,
{
    53000
}

pub fn default_qlab_patch_app() -> (p: i32)
    ensures
        p == 1,
{
    1
}

pub fn default_qlab_patch_console() -> (p: i32)
    ensures
        p == 2,
{
    2
}

pub fn default_monitor_port() -> (p: u16)
    ensures
        p == 8025,
{
    8025
}

pub fn default_web_port() -> (p: u16)
    ensures
        p == 8080,
{
    8080
}

/// The effective sync direction: a legacy `console_snapshot_follow: true`
/// (which only ever meant follow-the-desk) is Console→App; otherwise the
/// stored direction.
pub open spec fn spec_effective_sync_direction(c: ConnectionSettings) -> SnapshotSyncDirection {
    if c.console_snapshot_follow_legacy == Some(true) {
        SnapshotSyncDirection::ConsoleToApp
    } else {
        c.snapshot_sync_direction
    }
}

impl ConnectionSettings {
    /// Resolve the effective sync direction, honouring the legacy follow
    /// flag of pre-direction show files.
    pub fn effective_sync_direction(&self) -> (d: SnapshotSyncDirection)
        ensures
            d == spec_effective_sync_direction(*self),
    {
        if self.console_snapshot_follow_legacy == Some(true) {
            return SnapshotSyncDirection::ConsoleToApp;
        }
        self.snapshot_sync_direction
    }
}

/// `c` holds the default connection settings: no addresses, the standard
/// ports and patches, no pacing, sync off, no allowlists, nothing carried.
pub open spec fn is_default_connection(c: ConnectionSettings) -> bool {
    &&& c.local_ip@.len() == 0
    &&& c.console_ip@.len() == 0
    &&& c.console_gp_port == 8024
    &&& c.local_gp_port == 8023
    &&& c.trigger_port == 53001
    &&& c.ipad_ip@.len() == 0
    &&& c.ipad_send_port == 0
    &&& c.ipad_receive_port == 0
    &&& c.ipad_listen_port == 0
    &&& c.ipad_reply_port == 0
    &&& c.monitor_port == 8025
    &&& c.qlab_ip@.len() == 0
    &&& c.qlab_port == 53000
    &&& c.qlab_patch_app == 1
    &&& c.qlab_patch_console == 2
    &&& c.send_pace_us == 0
    &&& !c.auto_update_on_recall
    &&& c.snapshot_sync_direction == SnapshotSyncDirection::Off
    &&& c.console_snapshot_follow_legacy is None
    &&& c.monitor_allow_cidrs@.len() == 0
    &&& c.trigger_allow_cidrs@.len() == 0
    &&& c.web_port == 8080
    &&& c.web_allow_cidrs@.len() == 0
    &&& c.carried@.len() == 0
}

impl Default for ConnectionSettings {
    fn default() -> (c: ConnectionSettings)
        ensures
            is_default_connection(c),
    {
        ConnectionSettings {
            local_ip: String::new(),
            console_ip: String::new(),
            console_gp_port: default_gp_port(),
            local_gp_port: default_local_port(),
            trigger_port: default_trigger_port(),
            ipad_ip: String::new(),
            ipad_send_port: 0,
            ipad_receive_port: 0,
            ipad_listen_port: 0,
            ipad_reply_port: 0,
            monitor_port: 8025,
            qlab_ip: String::new(),
            qlab_port: default_qlab_port(),
            qlab_patch_app: default_qlab_patch_app(),
            qlab_patch_console: default_qlab_patch_console(),
            send_pace_us: 0,
            auto_update_on_recall: false,
            snapshot_sync_direction: SnapshotSyncDirection::Off,
            console_snapshot_follow_legacy: None,
            monitor_allow_cidrs: Vec::new(),
            trigger_allow_cidrs: Vec::new(),
            web_port: 8080,
            web_allow_cidrs: Vec::new(),
            carried: Vec::new(),
        }
    }
}

/// Top-level show file: the persistent state of a show.
pub struct ShowFile {
    /// File format revision.
    pub version: u32,
    /// Application version that wrote the file (empty = unknown).
    pub app_version: String,
    pub console_config: ConsoleConfig,
    pub connection: ConnectionSettings,
    pub scope_templates: Vec<ScopeTemplate>,
    pub snapshots: Vec<Snapshot>,
    pub macros: Vec<MacroDef>,
    pub monitor_clients: Vec<MonitorClient>,
    pub sidecar: SidecarConfig,
    /// Show sections whose types this library does not model (the cue
    /// list, palettes, gang groups, console recall scope, pan links, Stream
    /// Deck layout, OSC targets and trigger templates), as `(key, JSON text)`
    /// pairs, written back exactly as they were read.
    pub carried: Vec<(String, String)>,
}

pub open spec fn keeps_value(e: (ParameterAddress, ParameterValue)) -> bool {
    e.0.parameter != ParameterPath::TotalGain
}

pub open spec fn keeps_path(p: ParameterPath) -> bool {
    p != ParameterPath::TotalGain
}

pub open spec fn keeps_step(s: MacroStep) -> bool {
    match step_address(s) {
        Some(a) => a.parameter != ParameterPath::TotalGain,
        None => true,
    }
}

pub open spec fn keeps_binding(b: SidecarBinding) -> bool {
    match target_address(b.target) {
        Some(a) => a.parameter != ParameterPath::TotalGain,
        None => true,
    }
}

pub open spec fn channel_scope_stripped(o: ChannelScope, n: ChannelScope) -> bool {
    &&& n.channel == o.channel
    &&& n.sections@ == o.sections@
    &&& n.paths@ == keep_if(o.paths@, |p: ParameterPath| keeps_path(p))
}

pub open spec fn scope_stripped(o: ScopeTemplate, n: ScopeTemplate) -> bool {
    &&& n.id == o.id
    &&& n.name == o.name
    &&& n.channel_scopes@.len() == o.channel_scopes@.len()
    &&& forall|i: int| 0 <= i < o.channel_scopes@.len() ==> channel_scope_stripped(
        #[trigger] o.channel_scopes@[i],
        n.channel_scopes@[i],
    )
}

pub open spec fn snapshot_stripped(o: Snapshot, n: Snapshot) -> bool {
    &&& n.id == o.id
    &&& n.name == o.name
    &&& scope_stripped(o.scope, n.scope)
    &&& n.values@ == keep_if(o.values@, |e: (ParameterAddress, ParameterValue)| keeps_value(e))
}

pub open spec fn macro_stripped(o: MacroDef, n: MacroDef) -> bool {
    &&& n.id == o.id
    &&& n.name == o.name
    &&& n.steps@ == keep_if(o.steps@, |s: MacroStep| keeps_step(s))
}

/// `new` is `old` with every TotalGain reference removed: from snapshot
/// values, from snapshot and standalone scope paths, from macro parameter
/// steps and from sidecar bindings; everything else is unchanged.
pub open spec fn show_stripped(o: ShowFile, n: ShowFile) -> bool {
    &&& n.version == o.version
    &&& n.app_version == o.app_version
    &&& n.console_config == o.console_config
    &&& n.connection == o.connection
    &&& n.monitor_clients == o.monitor_clients
    &&& n.carried == o.carried
    &&& n.scope_templates@.len() == o.scope_templates@.len()
    &&& forall|i: int| 0 <= i < o.scope_templates@.len() ==> scope_stripped(
        #[trigger] o.scope_templates@[i],
        n.scope_templates@[i],
    )
    &&& n.snapshots@.len() == o.snapshots@.len()
    &&& forall|i: int| 0 <= i < o.snapshots@.len() ==> snapshot_stripped(#[trigger] o.snapshots@[i], n.snapshots@[i])
    &&& n.macros@.len() == o.macros@.len()
    &&& forall|i: int| 0 <= i < o.macros@.len() ==> macro_stripped(#[trigger] o.macros@[i], n.macros@[i])
    &&& n.sidecar.enabled == o.sidecar.enabled
    &&& n.sidecar.bindings@ == keep_if(o.sidecar.bindings@, |b: SidecarBinding| keeps_binding(b))
}

fn strip_paths(paths: &mut Vec<ParameterPath>)
    ensures
        final(paths)@ == keep_if(old(paths)@, |p: ParameterPath| keeps_path(p)),
{
    let keep = |p: &ParameterPath| -> (r: bool)
        ensures
            r == keeps_path(*p),
        { *p != ParameterPath::TotalGain };
    retain_where(paths, keep, Ghost(|p: ParameterPath| keeps_path(p)));
}

fn strip_scope(scope: &mut ScopeTemplate)
    ensures
        scope_stripped(*old(scope), *final(scope)),
{
    let ghost orig = *scope;
    let mut i: usize = 0;
    while i < scope.channel_scopes.len()
        invariant
            i <= scope.channel_scopes@.len(),
            scope.id == orig.id,
            scope.name == orig.name,
            scope.channel_scopes@.len() == orig.channel_scopes@.len(),
            forall|k: int| 0 <= k < i ==> channel_scope_stripped(#[trigger] orig.channel_scopes@[k], scope.channel_scopes@[k]),
            forall|k: int| i <= k < scope.channel_scopes@.len() ==> #[trigger] scope.channel_scopes@[k] == orig.channel_scopes@[k],
        decreases scope.channel_scopes@.len() - i,
    {
        let mut cs = ChannelScope::new(crate::channel::ChannelId::Input(0), Vec::new());
        scope.channel_scopes.set_and_swap(i, &mut cs);
        strip_paths(&mut cs.paths);
        scope.channel_scopes.set_and_swap(i, &mut cs);
        i = i + 1;
    }
}

fn strip_snapshot(snap: &mut Snapshot)
    ensures
        snapshot_stripped(*old(snap), *final(snap)),
{
    let keep = |e: &(ParameterAddress, ParameterValue)| -> (r: bool)
        ensures
            r == keeps_value(*e),
        { e.0.parameter != ParameterPath::TotalGain };
    retain_where(&mut snap.values, keep, Ghost(|e: (ParameterAddress, ParameterValue)| keeps_value(e)));
    strip_scope(&mut snap.scope);
}

fn strip_macro(m: &mut MacroDef)
    ensures
        macro_stripped(*old(m), *final(m)),
{
    let keep = |s: &MacroStep| -> (r: bool)
        ensures
            r == keeps_step(*s),
        {
            match s.parameter_address() {
                Some(a) => a.parameter != ParameterPath::TotalGain,
                None => true,
            }
        };
    retain_where(&mut m.steps, keep, Ghost(|s: MacroStep| keeps_step(s)));
}

impl ShowFile {
    /// A fresh show for `config`: current format revision and app version,
    /// default connection settings, no content, sidecar disabled.
    pub fn new(config: ConsoleConfig) -> (s: ShowFile)
        ensures
            s.version == SHOW_FILE_VERSION,
            s.app_version@ == APP_VERSION@,
            s.console_config == config,
            is_default_connection(s.connection),
            s.carried@.len() == 0,
            s.scope_templates@.len() == 0,
            s.snapshots@.len() == 0,
            s.macros@.len() == 0,
            s.monitor_clients@.len() == 0,
            !s.sidecar.enabled,
            s.sidecar.bindings@.len() == 0,
    {
        ShowFile {
            version: SHOW_FILE_VERSION,
            app_version: string_from_chars(&chars_of(APP_VERSION)),
            console_config: config,
            connection: ConnectionSettings::default(),
            scope_templates: Vec::new(),
            snapshots: Vec::new(),
            macros: Vec::new(),
            monitor_clients: Vec::new(),
            sidecar: SidecarConfig::disabled(),
            carried: Vec::new(),
        }
    }

    /// Remove every persisted TotalGain reference from a loaded show.
    /// TotalGain is a console-derived, read-only monitor value that older
    /// versions captured into snapshots, selected in scopes, recorded in
    /// macros or bound to sidecar controls; it can never be written back.
    pub fn strip_total_gain(&mut self)
        ensures
            show_stripped(*old(self), *final(self)),
    {
        let ghost orig = *self;
        let mut i: usize = 0;
        while i < self.snapshots.len()
            invariant
                i <= self.snapshots@.len(),
                self.snapshots@.len() == orig.snapshots@.len(),
                forall|k: int| 0 <= k < i ==> snapshot_stripped(#[trigger] orig.snapshots@[k], self.snapshots@[k]),
                forall|k: int| i <= k < self.snapshots@.len() ==> #[trigger] self.snapshots@[k] == orig.snapshots@[k],
                self.version == orig.version,
                self.app_version == orig.app_version,
                self.console_config == orig.console_config,
                self.connection == orig.connection,
                self.monitor_clients == orig.monitor_clients,
                self.carried == orig.carried,
                self.scope_templates == orig.scope_templates,
                self.macros == orig.macros,
                self.sidecar == orig.sidecar,
            decreases self.snapshots@.len() - i,
        {
            let mut snap = Snapshot::new(0, String::new(), ScopeTemplate::empty(0), Vec::new());
            self.snapshots.set_and_swap(i, &mut snap);
            strip_snapshot(&mut snap);
            self.snapshots.set_and_swap(i, &mut snap);
            i = i + 1;
        }
        let mut i: usize = 0;
        while i < self.scope_templates.len()
            invariant
                i <= self.scope_templates@.len(),
                self.scope_templates@.len() == orig.scope_templates@.len(),
                forall|k: int| 0 <= k < i ==> scope_stripped(#[trigger] orig.scope_templates@[k], self.scope_templates@[k]),
                forall|k: int| i <= k < self.scope_templates@.len() ==> #[trigger] self.scope_templates@[k] == orig.scope_templates@[k],
                self.snapshots@.len() == orig.snapshots@.len(),
                forall|k: int| 0 <= k < orig.snapshots@.len() ==> snapshot_stripped(#[trigger] orig.snapshots@[k], self.snapshots@[k]),
                self.version == orig.version,
                self.app_version == orig.app_version,
                self.console_config == orig.console_config,
                self.connection == orig.connection,
                self.monitor_clients == orig.monitor_clients,
                self.carried == orig.carried,
                self.macros == orig.macros,
                self.sidecar == orig.sidecar,
            decreases self.scope_templates@.len() - i,
        {
            let mut t = ScopeTemplate::empty(0);
            self.scope_templates.set_and_swap(i, &mut t);
            strip_scope(&mut t);
            self.scope_templates.set_and_swap(i, &mut t);
            i = i + 1;
        }
        let mut i: usize = 0;
        while i < self.macros.len()
            invariant
                i <= self.macros@.len(),
                self.macros@.len() == orig.macros@.len(),
                forall|k: int| 0 <= k < i ==> macro_stripped(#[trigger] orig.macros@[k], self.macros@[k]),
                forall|k: int| i <= k < self.macros@.len() ==> #[trigger] self.macros@[k] == orig.macros@[k],
                self.scope_templates@.len() == orig.scope_templates@.len(),
                forall|k: int| 0 <= k < orig.scope_templates@.len() ==> scope_stripped(#[trigger] orig.scope_templates@[k], self.scope_templates@[k]),
                self.snapshots@.len() == orig.snapshots@.len(),
                forall|k: int| 0 <= k < orig.snapshots@.len() ==> snapshot_stripped(#[trigger] orig.snapshots@[k], self.snapshots@[k]),
                self.version == orig.version,
                self.app_version == orig.app_version,
                self.console_config == orig.console_config,
                self.connection == orig.connection,
                self.monitor_clients == orig.monitor_clients,
                self.carried == orig.carried,
                self.sidecar == orig.sidecar,
            decreases self.macros@.len() - i,
        {
            let mut m = MacroDef::new(0, String::new(), Vec::new());
            self.macros.set_and_swap(i, &mut m);
            strip_macro(&mut m);
            self.macros.set_and_swap(i, &mut m);
            i = i + 1;
        }
        let keep = |b: &SidecarBinding| -> (r: bool)
            ensures
                r == keeps_binding(*b),
            {
                match b.target.console_address() {
                    Some(a) => a.parameter != ParameterPath::TotalGain,
                    None => true,
                }
            };
        retain_where(&mut self.sidecar.bindings, keep, Ghost(|b: SidecarBinding| keeps_binding(b)));
    }
}

/// Materialise an allowlist: every entry of `raw` that parses as CIDR, in
/// order; invalid entries are skipped.
pub fn parse_cidr_allowlist(raw: &[String]) -> (r: Vec<Ipv4Cidr>)
    ensures
        r@ == parsed_allowlist(strings_view(raw@)),
{
    let mut out: Vec<Ipv4Cidr> = Vec::new();
    let mut i: usize = 0;
    while i < raw.len()
        invariant
            i <= raw@.len(),
            out@ == parsed_allowlist(strings_view(raw@).subrange(0, i as int)),
        decreases raw@.len() - i,
    {
        let ghost pre = strings_view(raw@).subrange(0, i as int);
        let ghost next = strings_view(raw@).subrange(0, i + 1);
        proof {
            assert(next.drop_last() =~= pre);
            assert(next.last() == raw@[i as int]@);
        }
        match Ipv4Cidr::parse(raw[i].as_str()) {
            Some(c) => out.push(c),
            None => {},
        }
        i = i + 1;
    }
    proof {
        assert(strings_view(raw@).subrange(0, raw@.len() as int) =~= strings_view(raw@));
    }
    out
}


proof fn lemma_parsed_allowlist_append(x: Seq<Seq<char>>, y: Seq<Seq<char>>)
    ensures
        parsed_allowlist(x + y) == parsed_allowlist(x) + parsed_allowlist(y),
    decreases y.len(),
{
    if y.len() == 0 {
        assert(x + y =~= x);
        assert(parsed_allowlist(x) + parsed_allowlist(y) =~= parsed_allowlist(x));
    } else {
        assert((x + y).drop_last() =~= x + y.drop_last());
        assert((x + y).last() == y.last());
        lemma_parsed_allowlist_append(x, y.drop_last());
        let a = parsed_allowlist(x);
        let b = parsed_allowlist(y.drop_last());
        match spec_parse_cidr(y.last()) {
            Some(c) => {
                assert((a + b).push(c) =~= a + b.push(c));
            },
            None => {},
        }
    }
}

/// Materialising an allowlist works entry by entry: the allowlist of two
/// lists one after the other is the allowlist of the first followed by that
/// of the second, and it never has more entries than the raw list.
pub proof fn law_allowlist_of_concatenation(a: Seq<String>, b: Seq<String>)
    ensures
        parsed_allowlist(strings_view(a + b)) == parsed_allowlist(strings_view(a)) + parsed_allowlist(strings_view(b)),
        parsed_allowlist(strings_view(a)).len() <= a.len(),
{
    assert(strings_view(a + b) =~= strings_view(a) + strings_view(b));
    lemma_parsed_allowlist_append(strings_view(a), strings_view(b));
    lemma_parsed_allowlist_len(strings_view(a));
}

proof fn lemma_parsed_allowlist_len(x: Seq<Seq<char>>)
    ensures
        parsed_allowlist(x).len() <= x.len(),
    decreases x.len(),
{
    if x.len() > 0 {
        lemma_parsed_allowlist_len(x.drop_last());
    }
}

/// After the clean-up, nothing in the show refers to TotalGain: no snapshot
/// value, no scope path (standalone or inside a snapshot), no macro step
/// and no sidecar binding.
pub proof fn law_stripped_show_has_no_total_gain(o: ShowFile, n: ShowFile)
    requires
        show_stripped(o, n),
    ensures
        forall|i: int, k: int| 0 <= i < n.snapshots@.len() && 0 <= k < n.snapshots@[i].values@.len()
            ==> keeps_value(#[trigger] n.snapshots@[i].values@[k]),
        forall|i: int, c: int, k: int| 0 <= i < n.snapshots@.len() && 0 <= c < n.snapshots@[i].scope.channel_scopes@.len()
            && 0 <= k < n.snapshots@[i].scope.channel_scopes@[c].paths@.len()
            ==> keeps_path(#[trigger] n.snapshots@[i].scope.channel_scopes@[c].paths@[k]),
        forall|i: int, c: int, k: int| 0 <= i < n.scope_templates@.len() && 0 <= c < n.scope_templates@[i].channel_scopes@.len()
            && 0 <= k < n.scope_templates@[i].channel_scopes@[c].paths@.len()
            ==> keeps_path(#[trigger] n.scope_templates@[i].channel_scopes@[c].paths@[k]),
        forall|i: int, k: int| 0 <= i < n.macros@.len() && 0 <= k < n.macros@[i].steps@.len()
            ==> keeps_step(#[trigger] n.macros@[i].steps@[k]),
        forall|k: int| 0 <= k < n.sidecar.bindings@.len() ==> keeps_binding(#[trigger] n.sidecar.bindings@[k]),
{
    assert forall|i: int, k: int| 0 <= i < n.snapshots@.len() && 0 <= k < n.snapshots@[i].values@.len()
        implies keeps_value(#[trigger] n.snapshots@[i].values@[k]) by {
        assert(snapshot_stripped(o.snapshots@[i], n.snapshots@[i]));
        lemma_keep_if_sound(o.snapshots@[i].values@, |e: (ParameterAddress, ParameterValue)| keeps_value(e));
    }
    assert forall|i: int, c: int, k: int| 0 <= i < n.snapshots@.len() && 0 <= c < n.snapshots@[i].scope.channel_scopes@.len()
        && 0 <= k < n.snapshots@[i].scope.channel_scopes@[c].paths@.len()
        implies keeps_path(#[trigger] n.snapshots@[i].scope.channel_scopes@[c].paths@[k]) by {
        assert(snapshot_stripped(o.snapshots@[i], n.snapshots@[i]));
        let os = o.snapshots@[i].scope;
        assert(channel_scope_stripped(os.channel_scopes@[c], n.snapshots@[i].scope.channel_scopes@[c]));
        lemma_keep_if_sound(os.channel_scopes@[c].paths@, |p: ParameterPath| keeps_path(p));
    }
    assert forall|i: int, c: int, k: int| 0 <= i < n.scope_templates@.len() && 0 <= c < n.scope_templates@[i].channel_scopes@.len()
        && 0 <= k < n.scope_templates@[i].channel_scopes@[c].paths@.len()
        implies keeps_path(#[trigger] n.scope_templates@[i].channel_scopes@[c].paths@[k]) by {
        assert(scope_stripped(o.scope_templates@[i], n.scope_templates@[i]));
        let os = o.scope_templates@[i];
        assert(channel_scope_stripped(os.channel_scopes@[c], n.scope_templates@[i].channel_scopes@[c]));
        lemma_keep_if_sound(os.channel_scopes@[c].paths@, |p: ParameterPath| keeps_path(p));
    }
    assert forall|i: int, k: int| 0 <= i < n.macros@.len() && 0 <= k < n.macros@[i].steps@.len()
        implies keeps_step(#[trigger] n.macros@[i].steps@[k]) by {
        assert(macro_stripped(o.macros@[i], n.macros@[i]));
        lemma_keep_if_sound(o.macros@[i].steps@, |s: MacroStep| keeps_step(s));
    }
    lemma_keep_if_sound(o.sidecar.bindings@, |b: SidecarBinding| keeps_binding(b));
}

/// Cleaning a cleaned show changes nothing: stripping twice gives what
/// stripping once gives.
pub proof fn law_strip_total_gain_idempotent(o: ShowFile, n: ShowFile, m: ShowFile)
    requires
        show_stripped(o, n),
        show_stripped(n, m),
    ensures
        show_stripped(o, m),
{
    law_stripped_show_has_no_total_gain(o, n);
    assert forall|i: int| 0 <= i < o.snapshots@.len() implies snapshot_stripped(#[trigger] o.snapshots@[i], m.snapshots@[i]) by {
        let (os, ns, ms) = (o.snapshots@[i], n.snapshots@[i], m.snapshots@[i]);
        assert(snapshot_stripped(os, ns));
        assert(snapshot_stripped(ns, ms));
        assert forall|k: int| 0 <= k < ns.values@.len() implies (|e: (ParameterAddress, ParameterValue)| keeps_value(e))(#[trigger] ns.values@[k]) by {
            assert(keeps_value(n.snapshots@[i].values@[k]));
        }
        lemma_keep_if_all(ns.values@, |e: (ParameterAddress, ParameterValue)| keeps_value(e));
        assert forall|c: int| 0 <= c < os.scope.channel_scopes@.len() implies channel_scope_stripped(
            #[trigger] os.scope.channel_scopes@[c], ms.scope.channel_scopes@[c]) by {
            let nc = ns.scope.channel_scopes@[c];
            assert(channel_scope_stripped(os.scope.channel_scopes@[c], nc));
            assert(channel_scope_stripped(nc, ms.scope.channel_scopes@[c]));
            assert forall|k: int| 0 <= k < nc.paths@.len() implies (|p: ParameterPath| keeps_path(p))(#[trigger] nc.paths@[k]) by {
                assert(keeps_path(n.snapshots@[i].scope.channel_scopes@[c].paths@[k]));
            }
            lemma_keep_if_all(nc.paths@, |p: ParameterPath| keeps_path(p));
        }
    }
    assert forall|i: int| 0 <= i < o.scope_templates@.len() implies scope_stripped(#[trigger] o.scope_templates@[i], m.scope_templates@[i]) by {
        let (os, ns, ms) = (o.scope_templates@[i], n.scope_templates@[i], m.scope_templates@[i]);
        assert(scope_stripped(os, ns));
        assert(scope_stripped(ns, ms));
        assert forall|c: int| 0 <= c < os.channel_scopes@.len() implies channel_scope_stripped(
            #[trigger] os.channel_scopes@[c], ms.channel_scopes@[c]) by {
            let nc = ns.channel_scopes@[c];
            assert(channel_scope_stripped(os.channel_scopes@[c], nc));
            assert(channel_scope_stripped(nc, ms.channel_scopes@[c]));
            assert forall|k: int| 0 <= k < nc.paths@.len() implies (|p: ParameterPath| keeps_path(p))(#[trigger] nc.paths@[k]) by {
                assert(keeps_path(n.scope_templates@[i].channel_scopes@[c].paths@[k]));
            }
            lemma_keep_if_all(nc.paths@, |p: ParameterPath| keeps_path(p));
        }
    }
    assert forall|i: int| 0 <= i < o.macros@.len() implies macro_stripped(#[trigger] o.macros@[i], m.macros@[i]) by {
        let (om, nm, mm) = (o.macros@[i], n.macros@[i], m.macros@[i]);
        assert(macro_stripped(om, nm));
        assert(macro_stripped(nm, mm));
        assert forall|k: int| 0 <= k < nm.steps@.len() implies (|s: MacroStep| keeps_step(s))(#[trigger] nm.steps@[k]) by {
            assert(keeps_step(n.macros@[i].steps@[k]));
        }
        lemma_keep_if_all(nm.steps@, |s: MacroStep| keeps_step(s));
    }
    assert forall|k: int| 0 <= k < n.sidecar.bindings@.len() implies (|b: SidecarBinding| keeps_binding(b))(#[trigger] n.sidecar.bindings@[k]) by {
        assert(keeps_binding(n.sidecar.bindings@[k]));
    }
    lemma_keep_if_all(n.sidecar.bindings@, |b: SidecarBinding| keeps_binding(b));
}

} // verus!
