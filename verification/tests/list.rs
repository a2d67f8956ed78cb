use prize_wheel::list::StatefulList;

fn letters() -> StatefulList<char> {
    StatefulList::new(vec!['A', 'B', 'C'])
}

#[test]
fn new_list_has_nothing_selected() {
    let mut list = letters();
    assert_eq!(list.items, vec!['A', 'B', 'C']);
    assert_eq!(list.state.selected(), None);
    assert_eq!(list.get_selected(), None);
}

#[test]
fn next_walks_the_circle() {
    let mut list = letters();
    list.next(1);
    assert_eq!(list.state.selected(), Some(0));
    assert_eq!(list.get_selected(), Some('A'));
    list.next(1);
    assert_eq!(list.state.selected(), Some(1));
    assert_eq!(list.get_selected(), Some('B'));
    list.next(1);
    assert_eq!(list.state.selected(), Some(2));
    assert_eq!(list.get_selected(), Some('C'));
    list.next(1);
    assert_eq!(list.state.selected(), Some(0));
    assert_eq!(list.get_selected(), Some('A'));
}

#[test]
fn next_on_empty_list_selects_nothing() {
    let mut list: StatefulList<char> = StatefulList::new(Vec::new());
    list.next(0);
    assert_eq!(list.state.selected(), None);
    list.next(1);
    assert_eq!(list.state.selected(), None);
    list.next(usize::MAX);
    assert_eq!(list.state.selected(), None);
    assert_eq!(list.get_selected(), None);
    assert!(list.items.is_empty());
}

#[test]
fn first_next_selects_the_first_item_whatever_the_step() {
    for step in [0usize, 1, 2, 3, 7, 100, usize::MAX] {
        let mut list = letters();
        list.next(step);
        assert_eq!(list.state.selected(), Some(0));
    }
}

#[test]
fn next_adds_the_step_modulo_the_length() {
    let mut list = letters();
    list.next(1);
    list.next(7);
    assert_eq!(list.state.selected(), Some(1));
    list.next(0);
    assert_eq!(list.state.selected(), Some(1));
    list.next(3);
    assert_eq!(list.state.selected(), Some(1));
    list.next(5);
    assert_eq!(list.state.selected(), Some(0));
    list.next(2);
    assert_eq!(list.state.selected(), Some(2));
}

#[test]
fn next_takes_the_largest_step() {
    // usize::MAX is a multiple of 3 on 32-bit and 64-bit machines alike.
    let mut list = letters();
    list.next(1);
    list.next(2);
    assert_eq!(list.state.selected(), Some(2));
    list.next(usize::MAX);
    assert_eq!(list.state.selected(), Some(2));
    list.next(usize::MAX - 1);
    assert_eq!(list.state.selected(), Some(1));
}

#[test]
fn next_on_a_single_item_stays_on_it() {
    let mut list = StatefulList::new(vec![42u32]);
    list.next(5);
    assert_eq!(list.state.selected(), Some(0));
    list.next(5);
    assert_eq!(list.state.selected(), Some(0));
    assert_eq!(list.get_selected(), Some(42));
}

#[test]
fn previous_walks_the_circle_backwards() {
    let mut list = letters();
    list.previous();
    assert_eq!(list.state.selected(), Some(0));
    list.previous();
    assert_eq!(list.state.selected(), Some(2));
    list.previous();
    assert_eq!(list.state.selected(), Some(1));
    list.previous();
    assert_eq!(list.state.selected(), Some(0));
}

#[test]
fn previous_on_empty_list_selects_nothing() {
    let mut list: StatefulList<char> = StatefulList::new(Vec::new());
    list.previous();
    assert_eq!(list.state.selected(), None);
}

#[test]
fn previous_undoes_next() {
    let mut list = letters();
    list.next(1);
    list.next(2);
    list.next(1);
    list.previous();
    assert_eq!(list.state.selected(), Some(2));
    list.previous();
    list.next(1);
    assert_eq!(list.state.selected(), Some(2));
}

#[test]
fn unselect_clears_the_selection() {
    let mut list = letters();
    list.next(1);
    list.next(1);
    list.unselect();
    assert_eq!(list.state.selected(), None);
    assert_eq!(list.get_selected(), None);
    assert_eq!(list.items, vec!['A', 'B', 'C']);
    list.unselect();
    assert_eq!(list.state.selected(), None);
}

#[test]
fn get_selected_hands_out_a_copy() {
    let mut list = StatefulList::new(vec![String::from("one"), String::from("two")]);
    list.next(1);
    list.next(1);
    let mut copy = list.get_selected().unwrap();
    assert_eq!(copy, "two");
    copy.push('!');
    assert_eq!(list.items[1], "two");
    assert_eq!(list.state.selected(), Some(1));
}

#[test]
fn remove_takes_out_the_selected_item() {
    let mut list = letters();
    list.next(1);
    list.next(1);
    list.remove();
    assert_eq!(list.items, vec!['A', 'C']);
    assert_eq!(list.items.len(), 2);
    assert_eq!(list.state.selected(), None);
    assert_eq!(list.get_selected(), None);
}

#[test]
fn remove_moves_later_items_down() {
    let mut list = StatefulList::new(vec![1u8, 2, 3, 4, 5]);
    list.next(1);
    list.remove();
    assert_eq!(list.items, vec![2, 3, 4, 5]);
    list.previous();
    list.previous();
    list.remove();
    assert_eq!(list.items, vec![2, 3, 4]);
}

#[test]
fn remove_without_selection_changes_nothing() {
    let mut list = letters();
    list.remove();
    assert_eq!(list.items, vec!['A', 'B', 'C']);
    assert_eq!(list.state.selected(), None);
}

#[test]
fn remove_on_empty_list_changes_nothing() {
    let mut list: StatefulList<char> = StatefulList::new(Vec::new());
    list.remove();
    assert!(list.items.is_empty());
    assert_eq!(list.state.selected(), None);
}

#[test]
fn remove_down_to_nothing() {
    let mut list = StatefulList::new(vec!['A']);
    list.next(1);
    list.remove();
    assert!(list.items.is_empty());
    assert_eq!(list.get_selected(), None);
    list.next(1);
    assert_eq!(list.state.selected(), None);
}

#[test]
fn next_after_remove_starts_from_the_first_item() {
    let mut list = letters();
    list.next(1);
    list.next(2);
    list.remove();
    list.next(9);
    assert_eq!(list.get_selected(), Some('A'));
}
