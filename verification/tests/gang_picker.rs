use s21_hijack::channel::{ChannelGroup, ChannelId, ConsoleConfig};
use s21_hijack::gang_picker::{active_bucket, apply_click, bucket_of, ChannelGridData, TypeBucket};
use s21_hijack::state::{ConsoleState, ParameterAddress, ParameterPath, ParameterValue};

fn data(groups: Vec<(ChannelGroup, Vec<ChannelId>)>) -> ChannelGridData {
    ChannelGridData { groups, names: Vec::new(), stereo: Vec::new() }
}

fn inputs(n: u16) -> Vec<ChannelId> {
    (1..=n).map(ChannelId::Input).collect()
}

fn auxes(n: u16) -> Vec<ChannelId> {
    (1..=n).map(ChannelId::Aux).collect()
}

fn anchor_of(anchor: &[(ChannelGroup, u16)], g: ChannelGroup) -> Option<u16> {
    anchor.iter().find(|(h, _)| *h == g).map(|e| e.1)
}

#[test]
fn from_state_skips_empty_groups() {
    let mut cfg = ConsoleConfig::default();
    cfg.input_channel_count = 4;
    cfg.aux_output_count = 2;
    cfg.group_output_count = 0;
    cfg.matrix_output_count = 0;
    cfg.control_group_count = 0;
    cfg.graphic_eq_count = 0;
    cfg.matrix_input_count = 0;
    let state = ConsoleState::new(cfg);

    let d = ChannelGridData::from_state(&state);
    let labels: Vec<ChannelGroup> = d.groups.iter().map(|(g, _)| *g).collect();
    assert_eq!(labels, vec![ChannelGroup::Inputs, ChannelGroup::Aux]);
}

#[test]
fn from_state_collects_names() {
    let mut cfg = ConsoleConfig::default();
    cfg.input_channel_count = 3;
    cfg.aux_output_count = 0;
    cfg.group_output_count = 0;
    cfg.matrix_output_count = 0;
    cfg.control_group_count = 0;
    cfg.graphic_eq_count = 0;
    cfg.matrix_input_count = 0;
    let mut state = ConsoleState::new(cfg);
    state.set(
        ParameterAddress { channel: ChannelId::Input(2), parameter: ParameterPath::Name },
        ParameterValue::String("Kick".to_string()),
    );
    state.set(
        ParameterAddress { channel: ChannelId::Input(3), parameter: ParameterPath::Name },
        ParameterValue::String(String::new()),
    );
    let d = ChannelGridData::from_state(&state);
    assert_eq!(d.names, vec![(ChannelId::Input(2), "Kick".to_string())]);
    assert_eq!(d.groups[0].1, inputs(3));
}

#[test]
fn plain_click_toggles_and_anchors() {
    let d = data(vec![(ChannelGroup::Inputs, inputs(8))]);
    let mut sel = Vec::new();
    let mut anchor = Vec::new();
    apply_click(&mut sel, &mut anchor, &d, ChannelGroup::Inputs, &ChannelId::Input(3), 3, false);
    assert!(sel.contains(&ChannelId::Input(3)));
    assert_eq!(anchor_of(&anchor, ChannelGroup::Inputs), Some(3));
    apply_click(&mut sel, &mut anchor, &d, ChannelGroup::Inputs, &ChannelId::Input(3), 3, false);
    assert!(!sel.contains(&ChannelId::Input(3)));
}

#[test]
fn shift_click_fills_range_within_group() {
    let d = data(vec![(ChannelGroup::Inputs, inputs(8))]);
    let mut sel = Vec::new();
    let mut anchor = Vec::new();
    apply_click(&mut sel, &mut anchor, &d, ChannelGroup::Inputs, &ChannelId::Input(2), 2, false);
    apply_click(&mut sel, &mut anchor, &d, ChannelGroup::Inputs, &ChannelId::Input(5), 5, true);
    for n in 2..=5 {
        assert!(sel.contains(&ChannelId::Input(n)), "missing {n}");
    }
    assert!(!sel.contains(&ChannelId::Input(1)));
    assert!(!sel.contains(&ChannelId::Input(6)));
}

#[test]
fn shift_does_not_bridge_channel_types() {
    let d = data(vec![(ChannelGroup::Inputs, inputs(8)), (ChannelGroup::Aux, auxes(8))]);
    let mut sel = Vec::new();
    let mut anchor = Vec::new();
    apply_click(&mut sel, &mut anchor, &d, ChannelGroup::Inputs, &ChannelId::Input(2), 2, false);
    apply_click(&mut sel, &mut anchor, &d, ChannelGroup::Aux, &ChannelId::Aux(5), 5, true);
    assert!(sel.contains(&ChannelId::Aux(5)));
    assert!(!sel.contains(&ChannelId::Aux(2)));
    assert!(sel.contains(&ChannelId::Input(2)));
    assert!(!sel.contains(&ChannelId::Input(3)));
}

#[test]
fn reverse_shift_click_fills_without_duplicates() {
    let d = data(vec![(ChannelGroup::Inputs, inputs(8))]);
    let mut sel = vec![ChannelId::Input(4)];
    let mut anchor = vec![(ChannelGroup::Inputs, 6)];
    apply_click(&mut sel, &mut anchor, &d, ChannelGroup::Inputs, &ChannelId::Input(3), 3, true);
    let mut nums: Vec<u16> = sel
        .iter()
        .map(|c| match c {
            ChannelId::Input(n) => *n,
            _ => 0,
        })
        .collect();
    nums.sort();
    assert_eq!(nums, vec![3, 4, 5, 6]);
    assert_eq!(anchor_of(&anchor, ChannelGroup::Inputs), Some(3));
}

#[test]
fn exclusivity_buckets() {
    assert_eq!(active_bucket(&[]), None);
    let b = active_bucket(&[ChannelId::Input(1), ChannelId::Aux(2)]);
    assert_eq!(b, Some(TypeBucket::Normal));
    assert!(b != Some(bucket_of(&ChannelId::MatrixInput(1))));
    assert!(b != Some(bucket_of(&ChannelId::GraphicEq(1))));
    assert_eq!(active_bucket(&[ChannelId::MatrixInput(3)]), Some(TypeBucket::MatrixIn));
    assert_eq!(bucket_of(&ChannelId::Input(1)), TypeBucket::Normal);
    assert_eq!(bucket_of(&ChannelId::GraphicEq(1)), TypeBucket::GraphicEq);
    assert_eq!(active_bucket(&[ChannelId::GraphicEq(2)]), Some(TypeBucket::GraphicEq));
}

#[test]
fn mixed_legacy_selection_locks_nothing() {
    assert_eq!(active_bucket(&[ChannelId::Input(1), ChannelId::MatrixInput(2)]), None);
}
