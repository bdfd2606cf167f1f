use s21_hijack::channel::{ChannelMode, ConsoleConfig};
use s21_hijack::monitor_picker::{
    ripple_highlight_for, ChannelPickerState, MonitorClient, PickerOutcome, RippleHighlight, RippleState,
};
use s21_hijack::state::ConsoleState;

fn config_with_inputs_and_auxes(input_count: u16, aux_count: u16) -> ConsoleConfig {
    let mut c = ConsoleConfig::default();
    c.input_channel_count = input_count;
    c.aux_output_count = aux_count;
    c.group_output_count = 0;
    c.mix_output_types = (0..aux_count).map(|_| true).collect();
    c.mix_output_modes = (0..aux_count).map(|_| ChannelMode::Mono).collect();
    c
}

fn saved(p: &ChannelPickerState) -> (Option<u128>, String, Option<String>, Vec<u16>, Vec<u16>) {
    match p.to_save_outcome() {
        PickerOutcome::Save { editing, name, pin, permitted_auxes, visible_inputs } => {
            (editing, name, pin, permitted_auxes, visible_inputs)
        }
        PickerOutcome::Cancel => panic!("expected Save"),
    }
}

#[test]
fn new_client_picker_starts_with_all_inputs_no_auxes() {
    let state = ConsoleState::new(config_with_inputs_and_auxes(48, 8));
    let picker = ChannelPickerState::for_new_client(&state);
    assert_eq!(picker.selected_inputs.len(), 48);
    assert!(picker.selected_auxes.is_empty());
    assert_eq!(picker.editing, None);
    assert!(picker.name.is_empty());
}

#[test]
fn save_collapses_canonical_input_selection_to_empty_vec() {
    let state = ConsoleState::new(config_with_inputs_and_auxes(48, 8));
    let mut picker = ChannelPickerState::for_new_client(&state);
    picker.name = "Drummer".into();
    picker.toggle_aux(1);
    let (editing, name, _pin, permitted_auxes, visible_inputs) = saved(&picker);
    assert!(visible_inputs.is_empty(), "1..=N in canonical order must save as empty Vec");
    assert_eq!(permitted_auxes, vec![1]);
    assert_eq!(name, "Drummer");
    assert!(editing.is_none());
}

#[test]
fn save_preserves_partial_input_selection_in_click_order() {
    let state = ConsoleState::new(config_with_inputs_and_auxes(48, 8));
    let mut picker = ChannelPickerState::for_new_client(&state);
    picker.name = "Bass".into();
    picker.toggle_aux(2);
    picker.toggle_input(5);
    picker.toggle_input(10);
    let (_, _, _, _, visible_inputs) = saved(&picker);
    assert_eq!(visible_inputs.len(), 46);
    assert!(!visible_inputs.contains(&5));
    assert!(!visible_inputs.contains(&10));
    assert!(visible_inputs.windows(2).all(|w| w[0] < w[1]));
}

#[test]
fn save_preserves_click_order_when_reselected() {
    let state = ConsoleState::new(config_with_inputs_and_auxes(48, 8));
    let mut picker = ChannelPickerState::for_new_client(&state);
    picker.name = "Keys".into();
    picker.toggle_aux(3);
    picker.selected_inputs.clear();
    picker.toggle_input(7);
    picker.toggle_input(1);
    picker.toggle_input(12);
    let (_, _, _, permitted_auxes, visible_inputs) = saved(&picker);
    assert_eq!(visible_inputs, vec![7, 1, 12]);
    assert_eq!(permitted_auxes, vec![3]);
}

#[test]
fn save_preserves_aux_click_order() {
    let state = ConsoleState::new(config_with_inputs_and_auxes(48, 8));
    let mut picker = ChannelPickerState::for_new_client(&state);
    picker.name = "FOH".into();
    picker.toggle_aux(4);
    picker.toggle_aux(2);
    picker.toggle_aux(7);
    let (_, _, _, permitted_auxes, _) = saved(&picker);
    assert_eq!(permitted_auxes, vec![4, 2, 7]);
}

#[test]
fn save_preserves_full_selection_in_custom_order() {
    let state = ConsoleState::new(config_with_inputs_and_auxes(4, 8));
    let mut picker = ChannelPickerState::for_new_client(&state);
    picker.name = "Custom".into();
    picker.toggle_aux(1);
    picker.selected_inputs = vec![3, 1, 4, 2];
    let (_, _, _, _, visible_inputs) = saved(&picker);
    assert_eq!(visible_inputs, vec![3, 1, 4, 2]);
}

#[test]
fn save_trims_name_and_blank_pin() {
    let state = ConsoleState::new(config_with_inputs_and_auxes(4, 8));
    let mut picker = ChannelPickerState::for_new_client(&state);
    picker.name = "  Vox  ".into();
    picker.pin = "   ".into();
    picker.toggle_aux(1);
    let (_, name, pin, _, _) = saved(&picker);
    assert_eq!(name, "Vox");
    assert_eq!(pin, None);
    picker.pin = " 1234 ".into();
    let (_, _, pin, _, _) = saved(&picker);
    assert_eq!(pin, Some("1234".to_string()));
}

#[test]
fn toggle_input_removes_then_re_adds_at_end() {
    let state = ConsoleState::new(config_with_inputs_and_auxes(8, 4));
    let mut picker = ChannelPickerState::for_new_client(&state);
    picker.toggle_input(3);
    assert_eq!(picker.selected_inputs, vec![1, 2, 4, 5, 6, 7, 8]);
    picker.toggle_input(3);
    assert_eq!(picker.selected_inputs, vec![1, 2, 4, 5, 6, 7, 8, 3]);
}

#[test]
fn edit_picker_loads_existing_order_verbatim() {
    let state = ConsoleState::new(config_with_inputs_and_auxes(60, 8));
    let client = MonitorClient::new(11, "Custom".into(), vec![5, 1, 3], vec![10, 4, 7]);
    let picker = ChannelPickerState::for_edit(&client, &state);
    assert_eq!(picker.selected_auxes, vec![5, 1, 3]);
    assert_eq!(picker.selected_inputs, vec![10, 4, 7]);
    assert_eq!(picker.editing, Some(client.id));
}

#[test]
fn edit_picker_expands_empty_visible_inputs_to_all() {
    let state = ConsoleState::new(config_with_inputs_and_auxes(60, 8));
    let client = MonitorClient::new(12, "FOH".into(), vec![1, 2], vec![]);
    let picker = ChannelPickerState::for_edit(&client, &state);
    assert_eq!(picker.selected_inputs.len(), 60);
    assert_eq!(picker.selected_auxes.len(), 2);
    assert_eq!(picker.editing, Some(client.id));
}

#[test]
fn edit_then_save_round_trips_lists() {
    let state = ConsoleState::new(config_with_inputs_and_auxes(60, 8));
    for visible in [vec![], vec![10, 4, 7]] {
        let client = MonitorClient::new(13, "FOH".into(), vec![3, 1], visible.clone());
        let picker = ChannelPickerState::for_edit(&client, &state);
        let (editing, _, _, auxes, inputs) = saved(&picker);
        assert_eq!(editing, Some(client.id));
        assert_eq!(auxes, vec![3, 1]);
        assert_eq!(inputs, visible);
    }
}

#[test]
fn ripple_ascending_appends_in_order_skipping_duplicates() {
    let state = ConsoleState::new(config_with_inputs_and_auxes(20, 4));
    let mut picker = ChannelPickerState::for_new_client(&state);
    picker.selected_inputs.clear();
    picker.selected_inputs.push(15);
    picker.selected_inputs.push(5);
    picker.apply_ripple(3, 7);
    assert_eq!(picker.selected_inputs, vec![15, 5, 3, 4, 6, 7]);
}

#[test]
fn ripple_descending_appends_in_reverse() {
    let state = ConsoleState::new(config_with_inputs_and_auxes(20, 4));
    let mut picker = ChannelPickerState::for_new_client(&state);
    picker.selected_inputs.clear();
    picker.apply_ripple(10, 5);
    assert_eq!(picker.selected_inputs, vec![10, 9, 8, 7, 6, 5]);
}

#[test]
fn ripple_single_channel_when_endpoints_equal() {
    let state = ConsoleState::new(config_with_inputs_and_auxes(20, 4));
    let mut picker = ChannelPickerState::for_new_client(&state);
    picker.selected_inputs.clear();
    picker.apply_ripple(7, 7);
    assert_eq!(picker.selected_inputs, vec![7]);
}

#[test]
fn ripple_state_default_is_off() {
    let state = ConsoleState::new(config_with_inputs_and_auxes(20, 4));
    let picker = ChannelPickerState::for_new_client(&state);
    assert_eq!(picker.ripple, RippleState::Off);
    assert_eq!(RippleState::default(), RippleState::Off);
}

#[test]
fn ripple_descending_skips_already_selected_in_reverse_walk() {
    let state = ConsoleState::new(config_with_inputs_and_auxes(20, 4));
    let mut picker = ChannelPickerState::for_new_client(&state);
    picker.selected_inputs.clear();
    picker.selected_inputs.push(8);
    picker.apply_ripple(10, 5);
    assert_eq!(picker.selected_inputs, vec![8, 10, 9, 7, 6, 5]);
}

#[test]
fn ripple_flow_through_buttons_and_tiles() {
    let state = ConsoleState::new(config_with_inputs_and_auxes(20, 4));
    let mut picker = ChannelPickerState::for_new_client(&state);
    picker.selected_inputs.clear();
    picker.press_ripple_button();
    assert_eq!(picker.ripple, RippleState::Pending);
    picker.click_input_tile(4);
    assert_eq!(picker.ripple, RippleState::GotFirst { first: 4 });
    picker.click_input_tile(6);
    assert_eq!(picker.ripple, RippleState::Confirming { first: 4, last: 6 });
    assert_eq!(ripple_highlight_for(picker.ripple, 4), RippleHighlight::Endpoint);
    assert_eq!(ripple_highlight_for(picker.ripple, 5), RippleHighlight::InRange);
    assert_eq!(ripple_highlight_for(picker.ripple, 9), RippleHighlight::Unmarked);
    picker.confirm_ripple();
    assert_eq!(picker.ripple, RippleState::Off);
    assert_eq!(picker.selected_inputs, vec![4, 5, 6]);
    picker.click_input_tile(5);
    assert_eq!(picker.selected_inputs, vec![4, 6]);
}

#[test]
fn save_disabled_when_name_or_auxes_missing() {
    let state = ConsoleState::new(config_with_inputs_and_auxes(48, 8));
    let mut picker = ChannelPickerState::for_new_client(&state);
    assert!(!picker.save_enabled(), "no name, no auxes");
    picker.name = "Keys".into();
    assert!(!picker.save_enabled(), "name without auxes");
    picker.toggle_aux(1);
    assert!(picker.save_enabled());
    picker.name = "   ".into();
    assert!(!picker.save_enabled(), "whitespace-only name doesn't count");
}

#[test]
fn stereo_auxes_picked_up_from_config() {
    let mut cfg = config_with_inputs_and_auxes(48, 4);
    cfg.mix_output_modes = vec![ChannelMode::Mono, ChannelMode::Stereo, ChannelMode::Mono, ChannelMode::Stereo];
    let state = ConsoleState::new(cfg);
    let picker = ChannelPickerState::for_new_client(&state);
    assert!(!picker.stereo_auxes.contains(&1));
    assert!(picker.stereo_auxes.contains(&2));
    assert!(!picker.stereo_auxes.contains(&3));
    assert!(picker.stereo_auxes.contains(&4));
}
