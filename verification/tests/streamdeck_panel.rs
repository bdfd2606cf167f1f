use s21_hijack::streamdeck_panel::{deck_status, layout_kind, saved_serial_kind, selector_label, DeckDevice};

#[derive(Clone, Copy, Debug, PartialEq)]
enum Kind {
    Original,
    Mini,
    Xl,
    Neo,
}

fn devices() -> Vec<DeckDevice<Kind>> {
    vec![
        DeckDevice { serial: "A1".into(), label: "Stream Deck XL".into(), kind: Kind::Xl },
        DeckDevice { serial: "B2".into(), label: "Stream Deck Mini".into(), kind: Kind::Mini },
    ]
}

#[test]
fn layout_precedence() {
    assert_eq!(layout_kind(Some(Kind::Xl), Some(Kind::Mini), Some(Kind::Neo), Kind::Original), Kind::Xl);
    assert_eq!(layout_kind(None, Some(Kind::Mini), Some(Kind::Neo), Kind::Original), Kind::Mini);
    assert_eq!(layout_kind(None, None, Some(Kind::Neo), Kind::Original), Kind::Neo);
    assert_eq!(layout_kind(None, None, None, Kind::Original), Kind::Original);
}

#[test]
fn saved_serial_kind_looks_up_available() {
    let devs = devices();
    assert_eq!(saved_serial_kind(&Some("B2".into()), &devs), Some(Kind::Mini));
    assert_eq!(saved_serial_kind(&Some("Z9".into()), &devs), None);
    assert_eq!(saved_serial_kind(&None, &devs), None);
}

#[test]
fn selector_label_cases() {
    let devs = devices();
    assert_eq!(selector_label(&Some("Deck (A1)".into()), &None, &None, &devs), "Deck (A1)");
    assert_eq!(
        selector_label(&None, &Some("Stream Deck Neo — 2×4 (8 keys)".into()), &Some("A1".into()), &devs),
        "Template: Stream Deck Neo — 2×4 (8 keys)"
    );
    assert_eq!(selector_label(&None, &None, &Some("A1".into()), &devs), "Stream Deck XL (not connected)");
    assert_eq!(selector_label(&None, &None, &Some("Q7".into()), &devs), "Q7 (unplugged)");
    assert_eq!(selector_label::<Kind>(&None, &None, &None, &Vec::new()), "No device detected");
    assert_eq!(selector_label(&None, &None, &None, &devs), "Select device…");
}

#[test]
fn status_line_cases() {
    assert_eq!(deck_status(&Some("XL".into()), false), "Connected: XL");
    assert_eq!(deck_status(&None, true), "Disconnected — editing offline.");
    assert_eq!(deck_status(&None, false), "OFF — editing offline.");
}
