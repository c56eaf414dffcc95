use terman_tmux::pane_layout::{PaneDirection, PaneLayout, SplitDirection};
use terman_tmux::pane_layout_presets::PaneLayoutPreset;
use terman_tmux::pane_args::{next_pane, resize_pane_adjustment_arg, resize_pane_direction_arg};

#[test]
fn every_preset_preserves_pane_indexes() {
    let indexes = [0, 2, 5, 8, 9];
    let presets = [
        PaneLayoutPreset::EvenHorizontal,
        PaneLayoutPreset::EvenVertical,
        PaneLayoutPreset::MainHorizontal,
        PaneLayoutPreset::MainVertical,
        PaneLayoutPreset::Tiled,
    ];
    for preset in presets {
        let layout = PaneLayout::from_preset(&indexes, preset).unwrap();
        assert_eq!(layout.pane_indexes(), indexes);
    }
}

#[test]
fn tiled_layout_uses_multiple_axes() {
    let layout = PaneLayout::from_preset(&[0, 1, 2, 3], PaneLayoutPreset::Tiled).unwrap();
    let geometry = layout.geometry(80, 24);
    assert_eq!(geometry.panes.len(), 4);
    assert!(geometry.separators.len() >= 3);
}

#[test]
fn parses_direction_and_adjustment_without_using_target_numbers() {
    let args: [String; 5] = ["resizep".into(), "-t".into(), "dev:1.0".into(), "-L".into(), "5".into()];
    assert_eq!(resize_pane_direction_arg(&args), Some(PaneDirection::Left));
    assert_eq!(resize_pane_adjustment_arg(&args), 5);
}

#[test]
fn adjustment_defaults_to_one() {
    let args: [String; 3] = ["resize-pane".into(), "-R".into(), "0".into()];
    assert_eq!(resize_pane_adjustment_arg(&args), 1);
    assert_eq!(resize_pane_adjustment_arg(&["resize-pane".to_string()]), 1);
    assert_eq!(resize_pane_direction_arg(&["resize-pane".to_string(), "--down".to_string()]), Some(PaneDirection::Down));
}

#[test]
fn no_preset_without_panes() {
    assert!(PaneLayout::from_preset(&[], PaneLayoutPreset::Tiled).is_none());
}

#[test]
fn split_then_remove_restores_the_panes() {
    let mut layout = PaneLayout::new(0);
    assert!(layout.split(0, 1, SplitDirection::Horizontal));
    assert_eq!(layout.pane_indexes(), vec![0, 1]);
    let geometry = layout.geometry(81, 10);
    assert_eq!(geometry.panes.len(), 2);
    assert_eq!(geometry.separators.len(), 1);
    assert!(layout.remove(1));
    assert_eq!(layout.pane_indexes(), vec![0]);
    assert!(!layout.remove(7));
}

#[test]
fn split_of_a_missing_pane_changes_nothing() {
    let mut layout = PaneLayout::new(0);
    assert!(!layout.split(4, 1, SplitDirection::Vertical));
    assert_eq!(layout.pane_indexes(), vec![0]);
}

#[test]
fn swap_exchanges_two_panes() {
    let mut layout = PaneLayout::new(0);
    assert!(layout.split(0, 1, SplitDirection::Horizontal));
    assert!(layout.swap_panes(0, 1));
    assert_eq!(layout.pane_indexes(), vec![1, 0]);
}

#[test]
fn next_pane_wraps_around() {
    assert_eq!(next_pane(3, &[1, 3]), Some(1));
    assert_eq!(next_pane(1, &[1, 3]), Some(3));
    assert_eq!(next_pane(9, &[1, 3]), Some(3));
    assert_eq!(next_pane(0, &[]), None);
}
