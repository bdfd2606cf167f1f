use s21_hijack::channel::ChannelId;
use s21_hijack::gangs::{format_members, format_ranges, GangForm, GangFormCheck, GangPanMode};
use s21_hijack::model::ParameterSection;

#[test]
fn format_ranges_compresses() {
    assert_eq!(format_ranges(&[1, 2, 3, 7, 12]), "1-3,7,12");
    assert_eq!(format_ranges(&[5]), "5");
    assert_eq!(format_ranges(&[1, 3, 5]), "1,3,5");
}

#[test]
fn format_ranges_sorts_and_dedups() {
    assert_eq!(format_ranges(&[12, 3, 2, 2, 1]), "1-3,12");
    assert_eq!(format_ranges(&[]), "");
}

#[test]
fn format_members_same_type() {
    let members = vec![ChannelId::Input(1), ChannelId::Input(2), ChannelId::Input(3)];
    assert_eq!(format_members(&members), "Input 1-3");
}

#[test]
fn format_members_mixed() {
    let members = vec![ChannelId::Input(1), ChannelId::Aux(2), ChannelId::Group(5)];
    assert_eq!(format_members(&members), "I1,A2,G5");
}

#[test]
fn gang_form_checks_in_order() {
    let mut form = GangForm::new();
    assert!(form.members.is_empty());
    assert_eq!(form.sections, vec![ParameterSection::FaderMutePan]);
    assert_eq!(form.check(), GangFormCheck::Ignored);
    form.name = "  Drums ".to_string();
    assert_eq!(form.check(), GangFormCheck::NoMembers);
    form.members = vec![ChannelId::Input(1)];
    assert_eq!(form.check(), GangFormCheck::TooFewMembers);
    form.members.push(ChannelId::Input(2));
    form.members.push(ChannelId::Input(3));
    form.pan_mode = GangPanMode::Reversed;
    assert_eq!(form.check(), GangFormCheck::ReversedNeedsPair);
    assert!(!form.reversed_pan_enabled());
    form.members.pop();
    assert!(form.reversed_pan_enabled());
    assert_eq!(form.check(), GangFormCheck::Accepted);
    assert_eq!(form.saved_name(), "Drums");
    form.toggle_section(ParameterSection::FaderMutePan);
    assert!(form.sections.is_empty());
    assert_eq!(form.check(), GangFormCheck::NoSection);
    form.reset();
    assert!(form.name.is_empty());
    assert_eq!(form.pan_mode, GangPanMode::On);
}

#[test]
fn format_ranges_same_members_same_text() {
    assert_eq!(format_ranges(&[7, 1, 2, 7, 3]), format_ranges(&[3, 2, 1, 7]));
    assert_eq!(format_ranges(&[255, 254]), "254-255");
    assert_eq!(format_ranges(&[65535, 65534, 0]), "0,65534-65535");
}
