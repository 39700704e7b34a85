use lan_chat::tui::app::connection_list::ConnectionList;

fn list(count: usize, selected: Option<usize>) -> ConnectionList<char> {
    let mut list = ConnectionList::new();
    for _ in 0..count {
        list.push('c');
    }
    list.selected = selected;
    list
}

#[test]
fn new_list_is_empty() {
    let list: ConnectionList<u8> = ConnectionList::new();
    assert!(list.connections.is_empty());
    assert_eq!(list.selected, None);
}

#[test]
fn push_appends_and_keeps_the_selection() {
    let mut list = ConnectionList::new();
    list.push("a");
    list.push("b");
    list.selected = Some(1);
    list.push("c");
    assert_eq!(list.connections, vec!["a", "b", "c"]);
    assert_eq!(list.selected, Some(1));
}

#[test]
fn update_keeps_a_selection_within_the_list() {
    let mut l = list(3, Some(0));
    l.update();
    assert_eq!(l.selected, Some(0));
    let mut l = list(3, Some(2));
    l.update();
    assert_eq!(l.selected, Some(2));
    let mut l = list(0, None);
    l.update();
    assert_eq!(l.selected, None);
}

#[test]
fn update_brings_a_selection_back_to_the_last_entry() {
    let mut l = list(3, Some(3));
    l.update();
    assert_eq!(l.selected, Some(2));
    let mut l = list(3, Some(usize::MAX));
    l.update();
    assert_eq!(l.selected, Some(2));
    let mut l = list(1, Some(5));
    l.update();
    assert_eq!(l.selected, Some(0));
    assert_eq!(l.connections.len(), 1);
}

#[test]
fn first_step_selects_an_end() {
    let mut l = list(3, None);
    l.iterate_selected(1);
    assert_eq!(l.selected, Some(0));
    let mut l = list(3, None);
    l.iterate_selected(-1);
    assert_eq!(l.selected, Some(usize::MAX));
    let mut l = list(3, None);
    l.iterate_selected(0);
    assert_eq!(l.selected, Some(usize::MAX));
    let mut l = list(0, None);
    l.iterate_selected(1);
    assert_eq!(l.selected, Some(0));
}

#[test]
fn steps_go_round_at_both_ends() {
    let mut l = list(3, Some(0));
    l.iterate_selected(1);
    assert_eq!(l.selected, Some(1));
    l.iterate_selected(1);
    assert_eq!(l.selected, Some(2));
    l.iterate_selected(1);
    assert_eq!(l.selected, Some(0));
    l.iterate_selected(-1);
    assert_eq!(l.selected, Some(2));
    l.iterate_selected(-1);
    assert_eq!(l.selected, Some(1));
}

#[test]
fn large_steps_wrap_several_times() {
    let mut l = list(3, Some(1));
    l.iterate_selected(7);
    assert_eq!(l.selected, Some(2));
    l.iterate_selected(-7);
    assert_eq!(l.selected, Some(1));
    l.iterate_selected(-3);
    assert_eq!(l.selected, Some(1));
    l.iterate_selected(0);
    assert_eq!(l.selected, Some(1));
    let mut l = list(1, Some(0));
    l.iterate_selected(-5);
    assert_eq!(l.selected, Some(0));
}

#[test]
fn can_update_needs_an_entry_for_a_selection() {
    assert!(list(0, None).can_update());
    assert!(list(2, None).can_update());
    assert!(list(2, Some(5)).can_update());
    assert!(!list(0, Some(0)).can_update());
    assert!(!list(0, Some(usize::MAX)).can_update());
}

#[test]
fn can_iterate_says_when_a_step_is_possible() {
    assert!(list(0, None).can_iterate(1));
    assert!(list(0, None).can_iterate(i32::MIN));
    assert!(!list(0, Some(0)).can_iterate(1));
    assert!(list(3, Some(0)).can_iterate(1));
    assert!(list(3, Some(0)).can_iterate(-1));
    assert!(list(3, Some(0)).can_iterate(i32::MAX));
    assert!(!list(3, Some(1)).can_iterate(i32::MAX));
    assert!(list(3, Some(0)).can_iterate(i32::MIN));
    assert!(list(3, Some(i32::MAX as usize)).can_iterate(0));
    assert!(!list(3, Some(i32::MAX as usize)).can_iterate(1));
    assert!(!list(3, Some(i32::MAX as usize + 1)).can_iterate(-1));
    assert!(!list(3, Some(usize::MAX)).can_iterate(1));
}

#[test]
fn steps_from_the_edges_of_the_range() {
    let mut l = list(3, Some(0));
    l.iterate_selected(i32::MAX);
    assert_eq!(l.selected, Some((i32::MAX % 3) as usize));
    let mut l = list(3, Some(0));
    l.iterate_selected(i32::MIN);
    assert_eq!(l.selected, Some((i32::MIN as i64).rem_euclid(3) as usize));
    let mut l = list(3, Some(i32::MAX as usize));
    l.iterate_selected(0);
    assert_eq!(l.selected, Some((i32::MAX % 3) as usize));
}
