//! One step of the application's event loop: how an event reported by a
//! background task (connection, recall, macro, show file, servers, Stream
//! Deck) changes what the UI shows, and what the application must do next.
//! The application drains its event queue, calls [`on_ui_event`] for each
//! event and performs the returned actions.

use vstd::prelude::*;
use crate::autosave::AutosaveGate;
use crate::backup::RecoveryCandidate;
use crate::channel::ChannelId;
use crate::show_file::{ConnectionSettings, SnapshotSyncDirection, spec_effective_sync_direction};
use crate::text::{chars_of, dec_digits, push_chars, push_decimal, push_str, string_from_chars};
use crate::ui_state::{RecoveryDialog, SetupConnectionForm, connection_applied};

verus! {

/// Engine handles built by the connect task (the console sender, the
/// snapshot and macro engines, the iPad sender when that protocol is on,
/// the shared sent-value log and the console profile), waiting for the UI
/// to take them over.
pub struct PendingEngines<S, E, M, I, L, P> {
    pub sender: S,
    pub snapshot_engine: E,
    pub macro_engine: M,
    pub ipad_sender: Option<I>,
    pub sent_log: L,
    pub profile: P,
}

/// The engine handles the UI holds.
pub struct EngineHandles<S, E, M, I> {
    pub sender: Option<S>,
    pub snapshot_engine: Option<E>,
    pub macro_engine: Option<M>,
    pub ipad_sender: Option<I>,
}

/// Take over handles waiting in `slot` (done before each batch of events):
/// the slot is emptied; the sender and engines replace the held ones; the
/// held iPad sender is replaced only by a new one.
pub fn pickup_pending_engines<S, E, M, I, L, P>(
    slot: &mut Option<PendingEngines<S, E, M, I, L, P>>,
    held: &mut EngineHandles<S, E, M, I>,
)
    ensures
        *final(slot) is None,
        match *old(slot) {
            None => *final(held) == *old(held),
            Some(p) => *final(held) == (EngineHandles {
                sender: Some(p.sender),
                snapshot_engine: Some(p.snapshot_engine),
                macro_engine: Some(p.macro_engine),
                ipad_sender: if p.ipad_sender is Some { p.ipad_sender } else { old(held).ipad_sender },
            }),
        },
{
    match slot.take() {
        Some(p) => {
            let PendingEngines { sender, snapshot_engine, macro_engine, ipad_sender, .. } = p;
            held.sender = Some(sender);
            held.snapshot_engine = Some(snapshot_engine);
            held.macro_engine = Some(macro_engine);
            if ipad_sender.is_some() {
                held.ipad_sender = ipad_sender;
            }
        },
        None => {},
    }
}

/// After a disconnect: every held handle and any waiting ones are dropped.
pub fn drop_engines<S, E, M, I, L, P>(
    slot: &mut Option<PendingEngines<S, E, M, I, L, P>>,
    held: &mut EngineHandles<S, E, M, I>,
)
    ensures
        *final(slot) is None,
        final(held).sender is None,
        final(held).snapshot_engine is None,
        final(held).macro_engine is None,
        final(held).ipad_sender is None,
{
    *slot = None;
    held.sender = None;
    held.snapshot_engine = None;
    held.macro_engine = None;
    held.ipad_sender = None;
}

/// The help bubble offered beside a warning status line.
#[derive(Clone, Copy, Debug, PartialEq, Eq, Structural)]
pub enum StatusHelp {
    ConnectionFailed,
    ShowFileError,
    ShowCorrupt,
    IpadConnectionFailed,
    MonitorServerFailed,
    WebServerFailed,
}

/// A status line under a tab, with the help bubble of a warning.
pub struct StatusLine {
    pub text: String,
    pub help: Option<StatusHelp>,
}

/// The post-capture confirmation popup: what was recorded into which
/// snapshot (the application keeps the time it opened).
pub struct CaptureConfirm {
    pub snapshot_id: u128,
    pub name: String,
    /// Pre-formatted `(label, value)` pairs.
    pub params: Vec<(String, String)>,
    /// The operator pinned the popup open.
    pub pinned: bool,
    /// Change counter seen when the popup last checked for drift.
    pub seen_gen_base: Option<u64>,
}

/// Events reported by the background tasks.
pub enum UiEvent {
    ConnectionEstablished,
    ConnectionFailed(String),
    Disconnected,
    SnapshotCaptured { name: String, param_count: u64 },
    SnapshotCaptureConfirm { snapshot_id: u128, name: String, params: Vec<(String, String)> },
    SnapshotRecalled { name: String, params_sent: u64 },
    CueRecalled,
    MacroExecuted { name: String, steps_executed: u64, steps_skipped: u64 },
    MacroExecutionFailed(String),
    MacroRecordingStopped { step_count: u64 },
    PaletteCaptured { name: String, param_count: u64 },
    PaletteLinked { palette_name: String, snapshot_name: String },
    PaletteUpdated { name: String, affected_count: u64 },
    PaletteRevert { palette_id: u128 },
    /// A show file finished loading, with its connection settings and its
    /// console recall scope (as JSON text).
    ShowFileLoaded { path: String, connection: Option<ConnectionSettings>, console_recall: String },
    ShowFileSaved(String),
    ShowFileError(String),
    /// An autosave task finished; `wrote` is false when nothing changed.
    AutosaveCompleted { fingerprint: u64, wrote: bool },
    /// A load failed as corrupt; the safety copies found for it.
    ShowFileCorrupt { path: String, candidates: Vec<RecoveryCandidate> },
    IpadConnected,
    IpadConnectionFailed(String),
    FadeProgress,
    MonitorClientConnected { name: String },
    MonitorClientDisconnected { name: String },
    MonitorServerStarted,
    MonitorServerFailed(String),
    WebServerStarted,
    WebServerFailed(String),
    MacroFireGo,
    MacroFirePrev,
    MacroConnect,
    MacroDisconnect,
    MacroRecallSnapshot { snapshot_id: u128 },
    MacroRecallPalette { palette_id: u128, channel: ChannelId },
    MacroQLabSend { addr: String, string_arg: Option<String>, label: String },
    StreamDeckButtonPressed { button_idx: u64 },
    StreamDeckConnected { device_name: String, button_count: u8 },
    StreamDeckDisconnected,
    StreamDeckError { message: String },
}

/// What the application does after an event.
pub enum UiAction {
    /// Drop the console sender, the engines (see [`drop_engines`]) and the
    /// cancel token.
    DropConnection,
    /// Discard the palette's working overlay and reload its stored values.
    RevertPalette(u128),
    /// Persist the preferences with this recall pacing.
    SavePreferences { send_pace_us: u64 },
    FireGo,
    FirePrev,
    /// Connect with the Setup tab's current settings.
    StartConnection,
    Disconnect,
    RecallSnapshot(u128),
    RecallPalette { palette_id: u128, channel: ChannelId },
    /// Send `addr` (with the optional string argument) to QLab.
    QLabSend { addr: String, string_arg: Option<String>, label: String },
    PressStreamDeckButton(u64),
    /// Resize the button layout to the device and push its labels.
    RefreshStreamDeck { button_count: u8 },
}

/// What the UI shell holds between frames.
pub struct UiShellState {
    pub connected: bool,
    pub ipad_connected: bool,
    pub monitor_server_running: bool,
    pub web_server_running: bool,
    pub setup_status: Option<StatusLine>,
    pub snapshots_status: Option<StatusLine>,
    pub macros_status: Option<StatusLine>,
    /// Summary of the last macro run.
    pub last_execution_info: Option<String>,
    pub palettes_status: Option<StatusLine>,
    pub monitor_status: Option<StatusLine>,
    pub capture_confirm: Option<CaptureConfirm>,
    pub recovery_dialog: Option<RecoveryDialog>,
    pub autosave: AutosaveGate,
    pub auto_update_on_recall: bool,
    pub sync_direction: SnapshotSyncDirection,
    /// Recall pacing in force, microseconds.
    pub send_pace_us: u64,
    pub setup: SetupConnectionForm,
    /// The loaded show's other connection settings (operating mode, UI
    /// mode) as `(key, JSON text)`, for the Setup tab and the preferences.
    pub loaded_modes: Vec<(String, String)>,
    /// The scope editor's console recall scope and recall-safe channels,
    /// as JSON text.
    pub console_recall: String,
}

/// A status line as text and help bubble.
pub open spec fn line_view(l: Option<StatusLine>) -> Option<(Seq<char>, Option<StatusHelp>)> {
    match l {
        Some(l) => Some((l.text@, l.help)),
        None => None,
    }
}

/// The UI shell with its texts taken as character sequences.
pub struct UiShellView {
    pub connected: bool,
    pub ipad_connected: bool,
    pub monitor_server_running: bool,
    pub web_server_running: bool,
    pub setup_status: Option<(Seq<char>, Option<StatusHelp>)>,
    pub snapshots_status: Option<(Seq<char>, Option<StatusHelp>)>,
    pub macros_status: Option<(Seq<char>, Option<StatusHelp>)>,
    pub last_execution_info: Option<Seq<char>>,
    pub palettes_status: Option<(Seq<char>, Option<StatusHelp>)>,
    pub monitor_status: Option<(Seq<char>, Option<StatusHelp>)>,
    pub capture_confirm: Option<CaptureConfirm>,
    pub recovery_dialog: Option<RecoveryDialog>,
    pub autosave: AutosaveGate,
    pub auto_update_on_recall: bool,
    pub sync_direction: SnapshotSyncDirection,
    pub send_pace_us: u64,
    pub setup: SetupConnectionForm,
    pub loaded_modes: Vec<(String, String)>,
    pub console_recall: String,
}

impl View for UiShellState {
    type V = UiShellView;

    open spec fn view(&self) -> UiShellView {
        UiShellView {
            connected: self.connected,
            ipad_connected: self.ipad_connected,
            monitor_server_running: self.monitor_server_running,
            web_server_running: self.web_server_running,
            setup_status: line_view(self.setup_status),
            snapshots_status: line_view(self.snapshots_status),
            macros_status: line_view(self.macros_status),
            last_execution_info: match self.last_execution_info {
                Some(t) => Some(t@),
                None => None,
            },
            palettes_status: line_view(self.palettes_status),
            monitor_status: line_view(self.monitor_status),
            capture_confirm: self.capture_confirm,
            recovery_dialog: self.recovery_dialog,
            autosave: self.autosave,
            auto_update_on_recall: self.auto_update_on_recall,
            sync_direction: self.sync_direction,
            send_pace_us: self.send_pace_us,
            setup: self.setup,
            loaded_modes: self.loaded_modes,
            console_recall: self.console_recall,
        }
    }
}

/// A plain status line (no help bubble).
pub open spec fn plain(t: Seq<char>) -> Option<(Seq<char>, Option<StatusHelp>)> {
    Some((t, None))
}

/// A warning status line with its help bubble.
pub open spec fn warning(t: Seq<char>, h: StatusHelp) -> Option<(Seq<char>, Option<StatusHelp>)> {
    Some((t, Some(h)))
}

/// `'name'`.
pub open spec fn quoted(name: Seq<char>) -> Seq<char> {
    "'"@ + name + "'"@
}

/// `Executed 'name' (N sent)`, with `, M skipped` before the bracket when
/// steps were skipped.
pub open spec fn executed_text(name: Seq<char>, executed: u64, skipped: u64) -> Seq<char> {
    "Executed "@ + quoted(name) + " ("@ + dec_digits(executed as nat) + " sent"@
        + (if skipped > 0 { ", "@ + dec_digits(skipped as nat) + " skipped"@ } else { Seq::empty() }) + ")"@
}

/// The shell after a show file loaded: the status names the file, an open
/// recovery dialog is marked recovered, the scope editor takes the show's
/// console recall settings, and loaded connection settings are
/// taken into the sync settings, the Setup form (pacing adopted only while
/// none is set) and the loaded modes, then saved to the preferences.
pub open spec fn show_loaded(
    o: UiShellView,
    path: Seq<char>,
    conn: Option<ConnectionSettings>,
    recall: String,
    n: UiShellView,
    a: Seq<UiAction>,
) -> bool {
    let recovery = match o.recovery_dialog {
        Some(d) => Some(RecoveryDialog { recovered: true, ..d }),
        None => None,
    };
    match conn {
        None => {
            &&& n == UiShellView {
                setup_status: plain("Loaded: "@ + path),
                recovery_dialog: recovery,
                console_recall: recall,
                ..o
            }
            &&& a.len() == 0
        },
        Some(c) => {
            &&& connection_applied(o.setup, c, o.send_pace_us, n.setup, n.send_pace_us)
            &&& n == UiShellView {
                setup_status: plain("Loaded: "@ + path),
                recovery_dialog: recovery,
                console_recall: recall,
                auto_update_on_recall: c.auto_update_on_recall,
                sync_direction: spec_effective_sync_direction(c),
                send_pace_us: n.send_pace_us,
                setup: n.setup,
                loaded_modes: c.carried,
                ..o
            }
            &&& a =~= seq![UiAction::SavePreferences { send_pace_us: n.send_pace_us }]
        },
    }
}

/// One event's effect: `n` is the shell after `e` arrived in shell `o`, and
/// `a` what the application does next, in order.
pub open spec fn event_step(o: UiShellView, e: UiEvent, n: UiShellView, a: Seq<UiAction>) -> bool {
    match e {
        UiEvent::ConnectionEstablished =>
            n == UiShellView { connected: true, setup_status: plain("Connected to console"@), ..o } && a.len() == 0,
        UiEvent::ConnectionFailed(msg) =>
            n == UiShellView {
                connected: false,
                setup_status: warning("Connection failed: "@ + msg@, StatusHelp::ConnectionFailed),
                ..o
            } && a.len() == 0,
        UiEvent::Disconnected =>
            n == UiShellView {
                connected: false,
                ipad_connected: false,
                setup_status: plain("Disconnected"@),
                monitor_server_running: false,
                web_server_running: false,
                ..o
            } && a =~= seq![UiAction::DropConnection],
        UiEvent::SnapshotCaptured { name, param_count } =>
            n == UiShellView {
                snapshots_status: plain("Captured "@ + quoted(name@) + " ("@ + dec_digits(param_count as nat) + " params)"@),
                ..o
            } && a.len() == 0,
        UiEvent::SnapshotCaptureConfirm { snapshot_id, name, params } =>
            n == UiShellView {
                snapshots_status: plain("Captured "@ + quoted(name@) + " ("@ + dec_digits(params@.len()) + " params)"@),
                capture_confirm: Some(CaptureConfirm { snapshot_id, name, params, pinned: false, seen_gen_base: None }),
                ..o
            } && a.len() == 0,
        UiEvent::SnapshotRecalled { name, params_sent } =>
            n == UiShellView {
                snapshots_status: plain("Recalled "@ + quoted(name@) + " ("@ + dec_digits(params_sent as nat) + " params sent)"@),
                ..o
            } && a.len() == 0,
        UiEvent::CueRecalled => n == o && a.len() == 0,
        UiEvent::MacroExecuted { name, steps_executed, steps_skipped } =>
            n == UiShellView { last_execution_info: Some(executed_text(name@, steps_executed, steps_skipped)), ..o }
                && a.len() == 0,
        UiEvent::MacroExecutionFailed(msg) =>
            n == UiShellView { macros_status: plain("Run failed: "@ + msg@), ..o } && a.len() == 0,
        UiEvent::MacroRecordingStopped { step_count } =>
            n == UiShellView {
                macros_status: plain("Recording stopped: "@ + dec_digits(step_count as nat) + " steps captured"@),
                ..o
            } && a.len() == 0,
        UiEvent::PaletteCaptured { name, param_count } =>
            n == UiShellView {
                palettes_status: plain("Captured palette "@ + quoted(name@) + " ("@ + dec_digits(param_count as nat) + " EQ params)"@),
                ..o
            } && a.len() == 0,
        UiEvent::PaletteLinked { palette_name, snapshot_name } =>
            n == UiShellView {
                palettes_status: plain("Linked "@ + quoted(palette_name@) + " to "@ + quoted(snapshot_name@)),
                ..o
            } && a.len() == 0,
        UiEvent::PaletteUpdated { name, affected_count } =>
            n == UiShellView {
                palettes_status: plain("Updated "@ + quoted(name@) + " — "@ + dec_digits(affected_count as nat) + " snapshots affected"@),
                ..o
            } && a.len() == 0,
        UiEvent::PaletteRevert { palette_id } => n == o && a =~= seq![UiAction::RevertPalette(palette_id)],
        UiEvent::ShowFileLoaded { path, connection, console_recall } =>
            show_loaded(o, path@, connection, console_recall, n, a),
        UiEvent::ShowFileSaved(path) =>
            n == UiShellView { setup_status: plain("Saved: "@ + path@), ..o } && a.len() == 0,
        UiEvent::ShowFileError(msg) =>
            n == UiShellView { setup_status: warning(msg@, StatusHelp::ShowFileError), ..o } && a.len() == 0,
        UiEvent::AutosaveCompleted { fingerprint, wrote } =>
            n == UiShellView {
                autosave: AutosaveGate { last_fingerprint: fingerprint, in_flight: false, ..o.autosave },
                setup_status: if wrote { plain("Autosaved"@) } else { o.setup_status },
                ..o
            } && a.len() == 0,
        UiEvent::ShowFileCorrupt { path, candidates } =>
            n == UiShellView {
                setup_status: warning(
                    "Show file appears corrupt — choose a recovery candidate"@,
                    StatusHelp::ShowCorrupt,
                ),
                recovery_dialog: Some(RecoveryDialog { original_path: path, candidates, recovered: false }),
                ..o
            } && a.len() == 0,
        UiEvent::IpadConnected =>
            n == UiShellView { ipad_connected: true, setup_status: plain("iPad protocol connected"@), ..o } && a.len() == 0,
        UiEvent::IpadConnectionFailed(msg) =>
            n == UiShellView {
                ipad_connected: false,
                setup_status: warning("iPad connection failed: "@ + msg@, StatusHelp::IpadConnectionFailed),
                ..o
            } && a.len() == 0,
        UiEvent::FadeProgress => n == o && a.len() == 0,
        UiEvent::MonitorClientConnected { name } =>
            n == UiShellView { monitor_status: plain("Client "@ + quoted(name@) + " connected"@), ..o } && a.len() == 0,
        UiEvent::MonitorClientDisconnected { name } =>
            n == UiShellView { monitor_status: plain("Client "@ + quoted(name@) + " disconnected"@), ..o } && a.len() == 0,
        UiEvent::MonitorServerStarted =>
            n == UiShellView { monitor_server_running: true, setup_status: plain("Monitor server started"@), ..o }
                && a.len() == 0,
        UiEvent::MonitorServerFailed(msg) =>
            n == UiShellView {
                monitor_server_running: false,
                setup_status: warning("Monitor server failed: "@ + msg@, StatusHelp::MonitorServerFailed),
                ..o
            } && a.len() == 0,
        UiEvent::WebServerStarted =>
            n == UiShellView { web_server_running: true, setup_status: plain("Web monitor server started"@), ..o }
                && a.len() == 0,
        UiEvent::WebServerFailed(msg) =>
            n == UiShellView {
                web_server_running: false,
                setup_status: warning("Web server failed: "@ + msg@, StatusHelp::WebServerFailed),
                ..o
            } && a.len() == 0,
        UiEvent::MacroFireGo => n == o && a =~= seq![UiAction::FireGo],
        UiEvent::MacroFirePrev => n == o && a =~= seq![UiAction::FirePrev],
        UiEvent::MacroConnect => n == o && (if o.connected { a.len() == 0 } else { a =~= seq![UiAction::StartConnection] }),
        UiEvent::MacroDisconnect => n == o && a =~= seq![UiAction::Disconnect],
        UiEvent::MacroRecallSnapshot { snapshot_id } => n == o && a =~= seq![UiAction::RecallSnapshot(snapshot_id)],
        UiEvent::MacroRecallPalette { palette_id, channel } =>
            n == o && a =~= seq![UiAction::RecallPalette { palette_id, channel }],
        UiEvent::MacroQLabSend { addr, string_arg, label } =>
            n == o && a =~= seq![UiAction::QLabSend { addr, string_arg, label }],
        UiEvent::StreamDeckButtonPressed { button_idx } => n == o && a =~= seq![UiAction::PressStreamDeckButton(button_idx)],
        UiEvent::StreamDeckConnected { device_name, button_count } =>
            n == o && a =~= seq![UiAction::RefreshStreamDeck { button_count }],
        UiEvent::StreamDeckDisconnected => n == o && a.len() == 0,
        UiEvent::StreamDeckError { message } =>
            n == UiShellView { macros_status: plain("Stream Deck: "@ + message@), ..o } && a.len() == 0,
    }
}

/// `prefix`, then `body`.
fn text2(prefix: &str, body: &String) -> (r: String)
    ensures
        r@ == prefix@ + body@,
{
    let mut v: Vec<char> = Vec::new();
    push_str(&mut v, prefix);
    push_chars(&mut v, &chars_of(body.as_str()));
    assert(v@ =~= prefix@ + body@);
    string_from_chars(&v)
}

/// Append `'name'` to `v`.
fn push_quoted(v: &mut Vec<char>, name: &String)
    ensures
        final(v)@ == old(v)@ + quoted(name@),
{
    push_str(v, "'");
    push_chars(v, &chars_of(name.as_str()));
    push_str(v, "'");
    assert(v@ =~= old(v)@ + quoted(name@));
}

/// `prefix`, `'name'`, then `suffix`.
fn text_named(prefix: &str, name: &String, suffix: &str) -> (r: String)
    ensures
        r@ == prefix@ + quoted(name@) + suffix@,
{
    let mut v: Vec<char> = Vec::new();
    push_str(&mut v, prefix);
    push_quoted(&mut v, name);
    push_str(&mut v, suffix);
    assert(v@ =~= prefix@ + quoted(name@) + suffix@);
    string_from_chars(&v)
}

/// `prefix`, `'name'`, `mid`, the number `n`, then `suffix`.
fn text_named_count(prefix: &str, name: &String, mid: &str, n: u64, suffix: &str) -> (r: String)
    ensures
        r@ == prefix@ + quoted(name@) + mid@ + dec_digits(n as nat) + suffix@,
{
    let mut v: Vec<char> = Vec::new();
    push_str(&mut v, prefix);
    push_quoted(&mut v, name);
    push_str(&mut v, mid);
    push_decimal(&mut v, n);
    push_str(&mut v, suffix);
    assert(v@ =~= prefix@ + quoted(name@) + mid@ + dec_digits(n as nat) + suffix@);
    string_from_chars(&v)
}

fn plain_line(text: String) -> (l: Option<StatusLine>)
    ensures
        line_view(l) == plain(text@),
{
    Some(StatusLine { text, help: None })
}

fn warning_line(text: String, help: StatusHelp) -> (l: Option<StatusLine>)
    ensures
        line_view(l) == warning(text@, help),
{
    Some(StatusLine { text, help: Some(help) })
}

fn literal_line(text: &str) -> (l: Option<StatusLine>)
    ensures
        line_view(l) == plain(text@),
{
    plain_line(string_from_chars(&chars_of(text)))
}

fn executed_info(name: &String, executed: u64, skipped: u64) -> (r: String)
    ensures
        r@ == executed_text(name@, executed, skipped),
{
    let mut v: Vec<char> = Vec::new();
    push_str(&mut v, "Executed ");
    push_quoted(&mut v, name);
    push_str(&mut v, " (");
    push_decimal(&mut v, executed);
    push_str(&mut v, " sent");
    let ghost before = v@;
    if skipped > 0 {
        push_str(&mut v, ", ");
        push_decimal(&mut v, skipped);
        push_str(&mut v, " skipped");
    }
    push_str(&mut v, ")");
    proof {
        assert(before =~= "Executed "@ + quoted(name@) + " ("@ + dec_digits(executed as nat) + " sent"@);
        if skipped > 0 {
            assert(v@ =~= before + (", "@ + dec_digits(skipped as nat) + " skipped"@) + ")"@);
        } else {
            assert(v@ =~= before + Seq::<char>::empty() + ")"@);
        }
    }
    string_from_chars(&v)
}

/// Apply one event to the shell and say what to do next (see
/// [`event_step`]).
pub fn on_ui_event(s: &mut UiShellState, e: UiEvent) -> (actions: Vec<UiAction>)
    ensures
        event_step(old(s)@, e, final(s)@, actions@),
{
    let mut actions: Vec<UiAction> = Vec::new();
    match e {
        UiEvent::ConnectionEstablished => {
            s.connected = true;
            s.setup_status = literal_line("Connected to console");
        },
        UiEvent::ConnectionFailed(msg) => {
            s.connected = false;
            s.setup_status = warning_line(text2("Connection failed: ", &msg), StatusHelp::ConnectionFailed);
        },
        UiEvent::Disconnected => {
            s.connected = false;
            s.ipad_connected = false;
            s.setup_status = literal_line("Disconnected");
            s.monitor_server_running = false;
            s.web_server_running = false;
            actions.push(UiAction::DropConnection);
        },
        UiEvent::SnapshotCaptured { name, param_count } => {
            s.snapshots_status = plain_line(text_named_count("Captured ", &name, " (", param_count, " params)"));
        },
        UiEvent::SnapshotCaptureConfirm { snapshot_id, name, params } => {
            s.snapshots_status = plain_line(text_named_count("Captured ", &name, " (", params.len() as u64, " params)"));
            s.capture_confirm = Some(CaptureConfirm { snapshot_id, name, params, pinned: false, seen_gen_base: None });
        },
        UiEvent::SnapshotRecalled { name, params_sent } => {
            s.snapshots_status = plain_line(text_named_count("Recalled ", &name, " (", params_sent, " params sent)"));
        },
        UiEvent::CueRecalled => {},
        UiEvent::MacroExecuted { name, steps_executed, steps_skipped } => {
            s.last_execution_info = Some(executed_info(&name, steps_executed, steps_skipped));
        },
        UiEvent::MacroExecutionFailed(msg) => {
            s.macros_status = plain_line(text2("Run failed: ", &msg));
        },
        UiEvent::MacroRecordingStopped { step_count } => {
            let mut v: Vec<char> = Vec::new();
            push_str(&mut v, "Recording stopped: ");
            push_decimal(&mut v, step_count);
            push_str(&mut v, " steps captured");
            assert(v@ =~= "Recording stopped: "@ + dec_digits(step_count as nat) + " steps captured"@);
            s.macros_status = plain_line(string_from_chars(&v));
        },
        UiEvent::PaletteCaptured { name, param_count } => {
            s.palettes_status = plain_line(text_named_count("Captured palette ", &name, " (", param_count, " EQ params)"));
        },
        UiEvent::PaletteLinked { palette_name, snapshot_name } => {
            let mut v: Vec<char> = Vec::new();
            push_str(&mut v, "Linked ");
            push_quoted(&mut v, &palette_name);
            push_str(&mut v, " to ");
            push_quoted(&mut v, &snapshot_name);
            assert(v@ =~= "Linked "@ + quoted(palette_name@) + " to "@ + quoted(snapshot_name@));
            let t = string_from_chars(&v);
            s.palettes_status = plain_line(t);
        },
        UiEvent::PaletteUpdated { name, affected_count } => {
            s.palettes_status = plain_line(
                text_named_count("Updated ", &name, " — ", affected_count, " snapshots affected"),
            );
        },
        UiEvent::PaletteRevert { palette_id } => {
            actions.push(UiAction::RevertPalette(palette_id));
        },
        UiEvent::ShowFileLoaded { path, connection, console_recall } => {
            s.setup_status = plain_line(text2("Loaded: ", &path));
            s.console_recall = console_recall;
            match &mut s.recovery_dialog {
                Some(d) => {
                    d.recovered = true;
                },
                None => {},
            }
            match connection {
                Some(c) => {
                    s.auto_update_on_recall = c.auto_update_on_recall;
                    s.sync_direction = c.effective_sync_direction();
                    let pace = s.setup.apply_loaded_connection(&c, s.send_pace_us);
                    s.send_pace_us = pace;
                    s.loaded_modes = c.carried;
                    actions.push(UiAction::SavePreferences { send_pace_us: pace });
                },
                None => {},
            }
        },
        UiEvent::ShowFileSaved(path) => {
            s.setup_status = plain_line(text2("Saved: ", &path));
        },
        UiEvent::ShowFileError(msg) => {
            s.setup_status = warning_line(msg, StatusHelp::ShowFileError);
        },
        UiEvent::AutosaveCompleted { fingerprint, wrote } => {
            s.autosave.complete(fingerprint);
            if wrote {
                s.setup_status = literal_line("Autosaved");
            }
        },
        UiEvent::ShowFileCorrupt { path, candidates } => {
            s.setup_status = warning_line(
                string_from_chars(&chars_of("Show file appears corrupt — choose a recovery candidate")),
                StatusHelp::ShowCorrupt,
            );
            s.recovery_dialog = Some(RecoveryDialog { original_path: path, candidates, recovered: false });
        },
        UiEvent::IpadConnected => {
            s.ipad_connected = true;
            s.setup_status = literal_line("iPad protocol connected");
        },
        UiEvent::IpadConnectionFailed(msg) => {
            s.ipad_connected = false;
            s.setup_status = warning_line(text2("iPad connection failed: ", &msg), StatusHelp::IpadConnectionFailed);
        },
        UiEvent::FadeProgress => {},
        UiEvent::MonitorClientConnected { name } => {
            s.monitor_status = plain_line(text_named("Client ", &name, " connected"));
        },
        UiEvent::MonitorClientDisconnected { name } => {
            s.monitor_status = plain_line(text_named("Client ", &name, " disconnected"));
        },
        UiEvent::MonitorServerStarted => {
            s.monitor_server_running = true;
            s.setup_status = literal_line("Monitor server started");
        },
        UiEvent::MonitorServerFailed(msg) => {
            s.monitor_server_running = false;
            s.setup_status = warning_line(text2("Monitor server failed: ", &msg), StatusHelp::MonitorServerFailed);
        },
        UiEvent::WebServerStarted => {
            s.web_server_running = true;
            s.setup_status = literal_line("Web monitor server started");
        },
        UiEvent::WebServerFailed(msg) => {
            s.web_server_running = false;
            s.setup_status = warning_line(text2("Web server failed: ", &msg), StatusHelp::WebServerFailed);
        },
        UiEvent::MacroFireGo => {
            actions.push(UiAction::FireGo);
        },
        UiEvent::MacroFirePrev => {
            actions.push(UiAction::FirePrev);
        },
        UiEvent::MacroConnect => {
            if !s.connected {
                actions.push(UiAction::StartConnection);
            }
        },
        UiEvent::MacroDisconnect => {
            actions.push(UiAction::Disconnect);
        },
        UiEvent::MacroRecallSnapshot { snapshot_id } => {
            actions.push(UiAction::RecallSnapshot(snapshot_id));
        },
        UiEvent::MacroRecallPalette { palette_id, channel } => {
            actions.push(UiAction::RecallPalette { palette_id, channel });
        },
        UiEvent::MacroQLabSend { addr, string_arg, label } => {
            actions.push(UiAction::QLabSend { addr, string_arg, label });
        },
        UiEvent::StreamDeckButtonPressed { button_idx } => {
            actions.push(UiAction::PressStreamDeckButton(button_idx));
        },
        UiEvent::StreamDeckConnected { button_count, .. } => {
            actions.push(UiAction::RefreshStreamDeck { button_count });
        },
        UiEvent::StreamDeckDisconnected => {},
        UiEvent::StreamDeckError { message } => {
            s.macros_status = plain_line(text2("Stream Deck: ", &message));
        },
    }
    actions
}


/// A macro's Go and Go Back commands leave the shell as it was and ask for
/// exactly one cue move each: Go for the next cue, Go Back for the previous
/// one, so the two commands never lead to the same action.
pub proof fn law_macro_go_and_go_back(
    o: UiShellView,
    n_go: UiShellView,
    a_go: Seq<UiAction>,
    n_back: UiShellView,
    a_back: Seq<UiAction>,
)
    requires
        event_step(o, UiEvent::MacroFireGo, n_go, a_go),
        event_step(o, UiEvent::MacroFirePrev, n_back, a_back),
    ensures
        n_go == o,
        n_back == o,
        a_go.len() == 1 && a_go[0] is FireGo,
        a_back.len() == 1 && a_back[0] is FirePrev,
        a_go != a_back,
{
    assert(a_go[0] != a_back[0]);
}

/// A macro's connection and recall commands leave the shell as it was and
/// hand their target on unchanged: Disconnect asks to disconnect, a snapshot
/// or palette recall names the same snapshot or palette (and channel), and
/// Connect asks to connect exactly when not yet connected.
pub proof fn law_macro_commands_forward_their_target(o: UiShellView, e: UiEvent, n: UiShellView, a: Seq<UiAction>)
    requires
        event_step(o, e, n, a),
    ensures
        e is MacroDisconnect ==> n == o && a.len() == 1 && a[0] is Disconnect,
        e is MacroConnect ==> n == o && (o.connected <==> a.len() == 0) && (!o.connected ==> a.len() == 1 && a[0] is StartConnection),
        e matches UiEvent::MacroRecallSnapshot { snapshot_id } ==> (n == o && a.len() == 1
            && (a[0] matches UiAction::RecallSnapshot(id) && id == snapshot_id)),
        e matches UiEvent::MacroRecallPalette { palette_id, channel } ==> (n == o && a.len() == 1
            && (a[0] matches UiAction::RecallPalette { palette_id: p, channel: c } && p == palette_id && c == channel)),
{
}


/// The connection and server flags follow their events: a connection made
/// sets the connected flag, a failed or lost one clears it (a loss also
/// clears the iPad link and both servers and drops the engines); the iPad,
/// monitor-server and web-server flags are set by their start events and
/// cleared by their failure events; a failure is shown with a help bubble,
/// a success without one.
pub proof fn law_flags_follow_events(o: UiShellView, e: UiEvent, n: UiShellView, a: Seq<UiAction>)
    requires
        event_step(o, e, n, a),
    ensures
        e is ConnectionEstablished ==> n.connected && (n.setup_status matches Some(l) && l.1 is None),
        e is ConnectionFailed ==> !n.connected && (n.setup_status matches Some(l) && l.1 is Some),
        e is Disconnected ==> !n.connected && !n.ipad_connected && !n.monitor_server_running
            && !n.web_server_running && a.len() == 1 && a[0] is DropConnection,
        e is IpadConnected ==> n.ipad_connected && n.connected == o.connected,
        e is IpadConnectionFailed ==> !n.ipad_connected && n.connected == o.connected
            && (n.setup_status matches Some(l) && l.1 is Some),
        e is MonitorServerStarted ==> n.monitor_server_running && n.web_server_running == o.web_server_running,
        e is MonitorServerFailed ==> !n.monitor_server_running && n.web_server_running == o.web_server_running
            && (n.setup_status matches Some(l) && l.1 is Some),
        e is WebServerStarted ==> n.web_server_running && n.monitor_server_running == o.monitor_server_running,
        e is WebServerFailed ==> !n.web_server_running && n.monitor_server_running == o.monitor_server_running
            && (n.setup_status matches Some(l) && l.1 is Some),
{
}

} // verus!
