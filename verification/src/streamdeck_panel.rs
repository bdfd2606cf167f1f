//! The Stream Deck panel's device choice: which button layout is edited,
//! and what the device selector and the status line say. Generic over the
//! device-kind type of the driver.

use vstd::prelude::*;
use crate::text::{chars_of, push_chars, push_str, string_from_chars};

verus! {

/// A Stream Deck the driver can see.
pub struct DeckDevice<K> {
    pub serial: String,
    pub label: String,
    pub kind: K,
}

/// Index of the first device in `devs` whose serial is `serial`.
pub open spec fn first_with_serial<K>(devs: Seq<DeckDevice<K>>, serial: Seq<char>) -> Option<int>
    decreases devs.len(),
{
    if devs.len() == 0 {
        None
    } else {
        match first_with_serial(devs.drop_last(), serial) {
            Some(i) => Some(i),
            None => if devs.last().serial@ == serial { Some(devs.len() - 1) } else { None },
        }
    }
}

proof fn lemma_first_with_serial_bounds<K>(devs: Seq<DeckDevice<K>>, serial: Seq<char>)
    ensures
        first_with_serial(devs, serial) matches Some(i) ==> 0 <= i < devs.len() && devs[i].serial@ == serial,
    decreases devs.len(),
{
    if devs.len() > 0 {
        lemma_first_with_serial_bounds(devs.drop_last(), serial);
    }
}

fn find_serial<K>(devs: &Vec<DeckDevice<K>>, serial: &String) -> (r: Option<usize>)
    ensures
        r matches Some(i) ==> i < devs@.len() && first_with_serial(devs@, serial@) == Some(i as int),
        r is None ==> first_with_serial(devs@, serial@) is None,
{
    let target = chars_of(serial.as_str());
    let mut i: usize = 0;
    while i < devs.len()
        invariant
            i <= devs@.len(),
            target@ == serial@,
            first_with_serial(devs@.subrange(0, i as int), serial@) is None,
        decreases devs@.len() - i,
    {
        proof {
            assert(devs@.subrange(0, i + 1).drop_last() =~= devs@.subrange(0, i as int));
        }
        if crate::text::chars_eq(&chars_of(devs[i].serial.as_str()), &target) {
            proof {
                lemma_prefix_first(devs@, serial@, i as int + 1);
            }
            return Some(i);
        }
        i = i + 1;
    }
    proof {
        assert(devs@.subrange(0, devs@.len() as int) =~= devs@);
    }
    None
}

proof fn lemma_prefix_first<K>(devs: Seq<DeckDevice<K>>, serial: Seq<char>, n: int)
    requires
        0 <= n <= devs.len(),
        first_with_serial(devs.subrange(0, n), serial) is Some,
    ensures
        first_with_serial(devs, serial) == first_with_serial(devs.subrange(0, n), serial),
    decreases devs.len() - n,
{
    if n < devs.len() {
        assert(devs.subrange(0, n + 1).drop_last() =~= devs.subrange(0, n));
        lemma_prefix_first(devs, serial, n + 1);
    } else {
        assert(devs.subrange(0, n) =~= devs);
    }
}

/// The kind of the saved device, when the driver currently sees it.
pub open spec fn spec_saved_serial_kind<K>(saved_serial: Option<String>, available: Seq<DeckDevice<K>>) -> Option<K> {
    match saved_serial {
        Some(s) => match first_with_serial(available, s@) {
            Some(i) => Some(available[i].kind),
            None => None,
        },
        None => None,
    }
}

/// The kind of the saved device (`saved_serial`), looked up among the
/// `available` devices; `None` when nothing is saved or it is not seen.
pub fn saved_serial_kind<K: Copy>(saved_serial: &Option<String>, available: &Vec<DeckDevice<K>>) -> (r: Option<K>)
    ensures
        r == spec_saved_serial_kind(*saved_serial, available@),
{
    match saved_serial {
        Some(s) => {
            proof {
                lemma_first_with_serial_bounds(available@, s@);
            }
            match find_serial(available, s) {
                Some(i) => Some(available[i].kind),
                None => None,
            }
        },
        None => None,
    }
}

/// The layout being edited: the connected device's, else the template the
/// operator picked, else the saved device's (when seen), else the last
/// virtual layout.
pub open spec fn spec_layout_kind<K>(connected: Option<K>, explicit_template: Option<K>, saved: Option<K>, fallback: K) -> K {
    match connected {
        Some(k) => k,
        None => match explicit_template {
            Some(k) => k,
            None => match saved {
                Some(k) => k,
                None => fallback,
            },
        },
    }
}

/// Which button layout the panel edits (see [`spec_layout_kind`]).
pub fn layout_kind<K: Copy>(connected: Option<K>, explicit_template: Option<K>, saved: Option<K>, fallback: K) -> (k: K)
    ensures
        k == spec_layout_kind(connected, explicit_template, saved, fallback),
{
    match connected {
        Some(k) => k,
        None => match explicit_template {
            Some(k) => k,
            None => match saved {
                Some(k) => k,
                None => fallback,
            },
        },
    }
}

/// The device selector's text: the connected device's label; else
/// `Template: <name>` for a picked template; else the saved device as
/// `<label> (not connected)` when seen or `<serial> (unplugged)` when not;
/// else `No device detected` or `Select device…`.
pub open spec fn spec_selector_label<K>(
    connected_label: Option<String>,
    template_name: Option<String>,
    saved_serial: Option<String>,
    available: Seq<DeckDevice<K>>,
) -> Seq<char> {
    match connected_label {
        Some(l) => l@,
        None => match template_name {
            Some(t) => "Template: "@ + t@,
            None => match saved_serial {
                Some(s) => match first_with_serial(available, s@) {
                    Some(i) => available[i].label@ + " (not connected)"@,
                    None => s@ + " (unplugged)"@,
                },
                None => if available.len() == 0 { "No device detected"@ } else { "Select device…"@ },
            },
        },
    }
}

fn joined(a: &String, b: &str) -> (r: String)
    ensures
        r@ == a@ + b@,
{
    let mut v = chars_of(a.as_str());
    push_str(&mut v, b);
    string_from_chars(&v)
}

/// The device selector's text (see [`spec_selector_label`]).
pub fn selector_label<K>(
    connected_label: &Option<String>,
    template_name: &Option<String>,
    saved_serial: &Option<String>,
    available: &Vec<DeckDevice<K>>,
) -> (r: String)
    ensures
        r@ == spec_selector_label(*connected_label, *template_name, *saved_serial, available@),
{
    match connected_label {
        Some(l) => string_from_chars(&chars_of(l.as_str())),
        None => match template_name {
            Some(t) => {
                let mut v = chars_of("Template: ");
                push_chars(&mut v, &chars_of(t.as_str()));
                string_from_chars(&v)
            },
            None => match saved_serial {
                Some(s) => {
                    proof {
                        lemma_first_with_serial_bounds(available@, s@);
                    }
                    match find_serial(available, s) {
                        Some(i) => joined(&available[i].label, " (not connected)"),
                        None => joined(s, " (unplugged)"),
                    }
                },
                None => if available.len() == 0 {
                    string_from_chars(&chars_of("No device detected"))
                } else {
                    string_from_chars(&chars_of("Select device…"))
                },
            },
        },
    }
}

/// The panel's status line.
pub open spec fn spec_deck_status(connected_label: Option<String>, enabled: bool) -> Seq<char> {
    match connected_label {
        Some(l) => "Connected: "@ + l@,
        None => if enabled { "Disconnected — editing offline."@ } else { "OFF — editing offline."@ },
    }
}

/// The panel's status line: the connected device, or offline editing with
/// the integration on or off.
pub fn deck_status(connected_label: &Option<String>, enabled: bool) -> (r: String)
    ensures
        r@ == spec_deck_status(*connected_label, enabled),
{
    match connected_label {
        Some(l) => {
            let mut v = chars_of("Connected: ");
            push_chars(&mut v, &chars_of(l.as_str()));
            string_from_chars(&v)
        },
        None => if enabled {
            string_from_chars(&chars_of("Disconnected — editing offline."))
        } else {
            string_from_chars(&chars_of("OFF — editing offline."))
        },
    }
}

} // verus!
