use s21_hijack::channel::ChannelId;
use s21_hijack::macro_edit::{
    build_step_kind, parse_parameter_value, AddStepForm, StepAction, StepEditBuffers,
};
use s21_hijack::macros::{
    describe_step_kind, remove_user_swatch, save_user_swatch, standard_swatches, AddStepKindChoice,
    ChannelTypeChoice, StepColor, StepModeChoice,
};
use s21_hijack::model::{MacroDef, MacroStep, MacroStepKind, MacroStepMode};
use s21_hijack::state::{ParameterAddress, ParameterPath, ParameterValue};

fn addr(n: u16, p: ParameterPath) -> ParameterAddress {
    ParameterAddress { channel: ChannelId::Input(n), parameter: p }
}

fn step(n: u16, p: ParameterPath, delay_ms: u32) -> MacroStep {
    MacroStep::parameter(addr(n, p), MacroStepMode::Toggle, delay_ms)
}

fn delays(m: &MacroDef) -> Vec<u32> {
    m.steps.iter().map(|s| s.delay_ms).collect()
}

fn sample() -> MacroDef {
    MacroDef::new(
        1,
        "M".into(),
        vec![
            step(1, ParameterPath::Fader, 10),
            step(2, ParameterPath::Mute, 20),
            step(1, ParameterPath::Fader, 30),
            MacroStep { kind: MacroStepKind::GoNextCue, delay_ms: 40 },
            step(1, ParameterPath::Fader, 50),
        ],
    )
}

#[test]
fn move_up_and_down_swap_neighbours() {
    let mut m = sample();
    m.apply_step_action(StepAction::MoveUp(1));
    assert_eq!(delays(&m), vec![20, 10, 30, 40, 50]);
    m.apply_step_action(StepAction::MoveDown(0));
    assert_eq!(delays(&m), vec![10, 20, 30, 40, 50]);
    m.apply_step_action(StepAction::MoveUp(0));
    m.apply_step_action(StepAction::MoveDown(4));
    assert_eq!(delays(&m), vec![10, 20, 30, 40, 50]);
}

#[test]
fn delete_removes_one_step() {
    let mut m = sample();
    m.apply_step_action(StepAction::Delete(3));
    assert_eq!(delays(&m), vec![10, 20, 30, 50]);
    m.apply_step_action(StepAction::Delete(9));
    assert_eq!(m.steps.len(), 4);
}

#[test]
fn keep_only_drops_other_writers_of_the_address() {
    let mut m = sample();
    let r = m.keep_only_step(2);
    assert_eq!(r, Some((1, 2)));
    assert_eq!(delays(&m), vec![20, 30, 40]);
    let mut n = sample();
    assert_eq!(n.keep_only_step(3), None);
    assert_eq!(n.steps.len(), 5);
    n.apply_step_action(StepAction::KeepOnly(0));
    assert_eq!(delays(&n), vec![10, 20, 40]);
}

#[test]
fn delay_edit_parses_or_keeps() {
    let mut m = sample();
    m.apply_step_action(StepAction::UpdateDelay(1, "250".to_string()));
    m.apply_step_action(StepAction::UpdateDelay(2, "abc".to_string()));
    m.apply_step_action(StepAction::UpdateDelay(3, "+7".to_string()));
    m.apply_step_action(StepAction::UpdateDelay(4, "4294967296".to_string()));
    assert_eq!(delays(&m), vec![10, 250, 30, 7, 50]);
}

#[test]
fn mode_edit_applies_to_parameter_steps_only() {
    let mut m = sample();
    m.apply_step_action(StepAction::UpdateMode(0, MacroStepMode::Fixed(ParameterValue::Int(3))));
    m.apply_step_action(StepAction::UpdateMode(3, MacroStepMode::Toggle));
    match &m.steps[0].kind {
        MacroStepKind::Parameter { address, mode } => {
            assert_eq!(*address, addr(1, ParameterPath::Fader));
            assert!(matches!(mode, MacroStepMode::Fixed(ParameterValue::Int(3))));
        }
        _ => panic!("parameter step expected"),
    }
    assert!(matches!(m.steps[3].kind, MacroStepKind::GoNextCue));
}

#[test]
fn edit_buffers_follow_actions() {
    let m = sample();
    let values: Vec<String> = (0..5).map(|i| format!("v{i}")).collect();
    let mut b = StepEditBuffers::from_steps(&m.steps, values);
    assert_eq!(b.delays, vec!["10", "20", "30", "40", "50"]);
    assert_eq!(b.modes[3], StepModeChoice::Fixed);
    assert_eq!(b.modes[0], StepModeChoice::Toggle);
    assert!(!b.stale(5));
    b.apply_action(&StepAction::MoveUp(2));
    assert_eq!(b.delays, vec!["10", "30", "20", "40", "50"]);
    assert_eq!(b.values[1], "v2");
    b.apply_action(&StepAction::UpdateDelay(0, "1".to_string()));
    assert_eq!(b.delays.len(), 5);
    b.apply_action(&StepAction::Delete(0));
    assert!(b.modes.is_empty() && b.values.is_empty() && b.delays.is_empty());
    assert!(b.stale(4));
}

fn form(kind: AddStepKindChoice) -> AddStepForm {
    AddStepForm {
        kind,
        channel_type: ChannelTypeChoice::Aux,
        channel_number: "0".to_string(),
        parameter: Some(ParameterPath::Pan),
        mode: StepModeChoice::Relative,
        qlab_cue_number: "  12.5 ".to_string(),
        target_macro: Some(7),
        target_snapshot: None,
        target_palette: Some(9),
        palette_channel_type: ChannelTypeChoice::Group,
        palette_channel_number: "300".to_string(),
    }
}

#[test]
fn build_step_kind_from_form() {
    let k = build_step_kind(&form(AddStepKindChoice::Parameter), ParameterValue::Int(1), 5).unwrap();
    match k {
        MacroStepKind::Parameter { address, mode } => {
            assert_eq!(address.channel, ChannelId::Aux(1));
            assert_eq!(address.parameter, ParameterPath::Pan);
            assert!(matches!(mode, MacroStepMode::Relative(5)));
        }
        _ => panic!("parameter step expected"),
    }
    match build_step_kind(&form(AddStepKindChoice::QLabGoCue), ParameterValue::Int(1), 0) {
        Some(MacroStepKind::QLabGoCue { cue_number }) => assert_eq!(cue_number, "12.5"),
        _ => panic!("cue step expected"),
    }
    let mut blank = form(AddStepKindChoice::QLabGoCue);
    blank.qlab_cue_number = "   ".to_string();
    assert!(build_step_kind(&blank, ParameterValue::Int(1), 0).is_none());
    assert!(build_step_kind(&form(AddStepKindChoice::RecallSnapshot), ParameterValue::Int(1), 0).is_none());
    match build_step_kind(&form(AddStepKindChoice::RecallPalette), ParameterValue::Int(1), 0) {
        Some(MacroStepKind::RecallPalette { id, channel }) => {
            assert_eq!(id, 9);
            assert_eq!(channel, ChannelId::Group(1));
        }
        _ => panic!("palette step expected"),
    }
    let mut no_param = form(AddStepKindChoice::Parameter);
    no_param.parameter = None;
    assert!(build_step_kind(&no_param, ParameterValue::Int(1), 0).is_none());
    let mut numbered = form(AddStepKindChoice::Parameter);
    numbered.channel_number = "+12".to_string();
    numbered.mode = StepModeChoice::Fixed;
    match build_step_kind(&numbered, ParameterValue::Bool(true), 0) {
        Some(MacroStepKind::Parameter { address, mode }) => {
            assert_eq!(address.channel, ChannelId::Aux(12));
            assert!(matches!(mode, MacroStepMode::Fixed(ParameterValue::Bool(true))));
        }
        _ => panic!("parameter step expected"),
    }
}

fn f32_bits(text: &str) -> Option<u32> {
    text.trim().parse::<f32>().ok().map(f32::to_bits)
}

#[test]
fn parameter_value_text_is_read_in_order() {
    let read = |t: &str| parse_parameter_value(t, f32_bits(t));
    assert!(matches!(read(" TRUE "), ParameterValue::Bool(true)));
    assert!(matches!(read("false"), ParameterValue::Bool(false)));
    assert!(matches!(read("-42"), ParameterValue::Int(-42)));
    assert!(matches!(read("2147483647"), ParameterValue::Int(2147483647)));
    assert!(matches!(read("-2147483648"), ParameterValue::Int(-2147483648)));
    match read("-2.5") {
        ParameterValue::Float(b) => assert_eq!(f32::from_bits(b), -2.5),
        other => panic!("float expected, got {other:?}"),
    }
    match read("2147483648") {
        ParameterValue::Float(b) => assert_eq!(f32::from_bits(b), 2147483648.0),
        other => panic!("float expected, got {other:?}"),
    }
    match read("  Lead Vox ") {
        ParameterValue::String(s) => assert_eq!(s, "Lead Vox"),
        other => panic!("text expected, got {other:?}"),
    }
}

#[test]
fn step_descriptions() {
    assert_eq!(describe_step_kind(&MacroStepKind::GoNextCue), "Go (next cue)");
    assert_eq!(
        describe_step_kind(&MacroStepKind::QLabGoCue { cue_number: "4".to_string() }),
        "QLab Go Cue #4"
    );
    assert_eq!(
        describe_step_kind(&MacroStepKind::FireMacro { id: 0x0123_4567_89ab_cdef_0011_2233_4455_6677 }),
        "Run Macro 01234567-89ab-cdef-0011-223344556677"
    );
    assert_eq!(
        describe_step_kind(&MacroStepKind::RecallPalette { id: 1, channel: ChannelId::Matrix(3) }),
        "Recall Palette 00000000-0000-0000-0000-000000000001 on Mtx 3"
    );
}

#[test]
fn choice_labels_and_channels() {
    assert_eq!(AddStepKindChoice::QLabGoCue.label(), "QLab Go Cue #");
    assert_eq!(ChannelTypeChoice::ControlGroup.label(), "CG");
    assert_eq!(ChannelTypeChoice::Matrix.to_channel_id(4), ChannelId::Matrix(4));
    assert_eq!(ChannelTypeChoice::from_channel_id(&ChannelId::GraphicEq(2)), (ChannelTypeChoice::Input, 2));
    assert_eq!(StepModeChoice::from_mode(&MacroStepMode::Relative(0)), StepModeChoice::Relative);
}

#[test]
fn user_swatches_are_a_set() {
    let mut user = Vec::new();
    assert!(save_user_swatch(&mut user, StepColor::new(1, 2, 3)));
    assert!(!save_user_swatch(&mut user, StepColor::new(1, 2, 3)));
    assert!(save_user_swatch(&mut user, StepColor::new(4, 5, 6)));
    remove_user_swatch(&mut user, 0);
    assert_eq!(user, vec![StepColor::new(4, 5, 6)]);
    let std = standard_swatches();
    assert_eq!(std.len(), 11);
    assert_eq!(std[0], (StepColor::new(0, 0, 0), "Black"));
    assert_eq!(std[10].1, "Magenta");
}

#[test]
fn received_address_fills_add_step_form() {
    let mut f = form(AddStepKindChoice::Parameter);
    f.apply_address(&ParameterAddress { channel: ChannelId::MatrixInput(17), parameter: ParameterPath::Mute });
    assert_eq!(f.channel_type, ChannelTypeChoice::Input);
    assert_eq!(f.channel_number, "17");
    assert_eq!(f.parameter, Some(ParameterPath::Mute));
}
