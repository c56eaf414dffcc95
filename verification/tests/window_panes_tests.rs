use terman_tmux::pane_layout::{PaneLayout, SplitDirection};
use terman_tmux::window_panes::WindowPanes;

#[test]
fn a_split_pane_gets_the_next_number_and_becomes_active() {
    let mut panes = WindowPanes::new();
    assert_eq!(panes.new_pane_index(), Some(1));
    assert!(panes.split(1, SplitDirection::Horizontal));
    assert_eq!(panes.active, 1);
    assert_eq!(panes.layout.pane_indexes(), vec![0, 1]);
    assert_eq!(panes.new_pane_index(), Some(2));
}

#[test]
fn killing_the_active_pane_hands_over_to_the_first_one() {
    let mut panes = WindowPanes::new();
    assert!(panes.split(1, SplitDirection::Horizontal));
    assert!(panes.split(2, SplitDirection::Vertical));
    assert!(panes.toggle_zoom(2));
    assert_eq!(panes.zoomed, Some(2));
    assert!(panes.kill(2));
    assert_eq!(panes.active, 0);
    assert_eq!(panes.zoomed, None);
    assert_eq!(panes.layout.pane_indexes(), vec![0, 1]);
    assert!(!panes.kill(5));
    assert!(panes.kill(1));
    assert_eq!(panes.layout, PaneLayout::Pane(0));
    assert!(!panes.kill(0));
    assert_eq!(panes.layout, PaneLayout::Pane(0));
}

#[test]
fn zoom_toggles_and_gives_the_whole_window() {
    let mut panes = WindowPanes::new();
    assert!(panes.split(1, SplitDirection::Horizontal));
    let (cols, _) = panes.pane_size(0, 81, 24);
    assert!(cols < 81);
    assert!(panes.toggle_zoom(0));
    assert_eq!(panes.pane_size(0, 81, 24), (81, 24));
    assert!(panes.toggle_zoom(0));
    assert_eq!(panes.zoomed, None);
    assert!(!panes.toggle_zoom(9));
    assert_eq!(panes.pane_size(9, 81, 24), (81, 24));
}

#[test]
fn input_goes_to_the_active_pane_or_to_all_when_synchronized() {
    let mut panes = WindowPanes::new();
    assert!(panes.split(1, SplitDirection::Vertical));
    assert!(panes.receives_input(1));
    assert!(!panes.receives_input(0));
    panes.set_synchronize(true);
    assert!(panes.receives_input(0));
    assert!(panes.select(0));
    assert!(!panes.select(4));
    assert_eq!(panes.active, 0);
}
