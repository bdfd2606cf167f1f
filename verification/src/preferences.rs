//! Machine-bound preferences: MIDI output settings, and the help-language
//! dependent font choice.

use vstd::prelude::*;
use crate::text::{ascii_lower_chars, ascii_lower_seq, chars_eq, chars_of, string_from_chars};

verus! {

/// Name of the virtual MIDI output port this application creates.
pub const VIRTUAL_PORT_NAME: &'static str = "S21_HiJack";

/// MIDI output settings (a property of this computer, not of any show).
pub struct MidiSettings {
    /// Master enable for MIDI output.
    pub enabled: bool,
    /// Existing output port to connect to (when not using a virtual port).
    pub output_port_name: Option<String>,
    /// Create a virtual output port instead of connecting to one.
    pub use_virtual_port: bool,
}

impl Default for MidiSettings {
    fn default() -> (m: MidiSettings)
        ensures
            !m.enabled,
            m.output_port_name is None,
            !m.use_virtual_port,
    {
        MidiSettings { enabled: false, output_port_name: None, use_virtual_port: false }
    }
}

/// What the MIDI engine should do for a settings change.
pub enum MidiAction {
    Disconnect,
    /// Create a virtual output port with this name.
    CreateVirtual(String),
    /// Connect to the named existing port.
    Connect(String),
}

/// Disabled → disconnect; virtual → create the app's virtual port; a named
/// port → connect to it; no port named → disconnect.
pub fn midi_action(settings: &MidiSettings) -> (a: MidiAction)
    ensures
        match a {
            MidiAction::Disconnect => !settings.enabled || (!settings.use_virtual_port && settings.output_port_name is None),
            MidiAction::CreateVirtual(n) => settings.enabled && settings.use_virtual_port && n@ == VIRTUAL_PORT_NAME@,
            MidiAction::Connect(n) => settings.enabled && !settings.use_virtual_port
                && settings.output_port_name == Some(n),
        },
{
    if !settings.enabled {
        return MidiAction::Disconnect;
    }
    if settings.use_virtual_port {
        MidiAction::CreateVirtual(string_from_chars(&chars_of(VIRTUAL_PORT_NAME)))
    } else {
        match &settings.output_port_name {
            Some(name) => MidiAction::Connect(name.clone()),
            None => MidiAction::Disconnect,
        }
    }
}

/// CJK font subset for a help-language code (compared ignoring ASCII case):
/// 2 = Japanese for `ja`, 3 = Korean for `ko`, 1 = Simplified Chinese for
/// everything else (every subset can render the language picker's labels).
pub open spec fn spec_cjk_for(code: Seq<char>) -> u8 {
    if ascii_lower_seq(code) == "ja"@ {
        2
    } else if ascii_lower_seq(code) == "ko"@ {
        3
    } else {
        1
    }
}

pub fn cjk_for(help_language: &str) -> (tag: u8)
    ensures
        tag == spec_cjk_for(help_language@),
{
    let lower = ascii_lower_chars(&chars_of(help_language));
    if chars_eq(&lower, &chars_of("ja")) {
        2
    } else if chars_eq(&lower, &chars_of("ko")) {
        3
    } else {
        1
    }
}

} // verus!
