use hectic::menu::{Item, Menu};

fn items(flags: &[bool]) -> Vec<Item> {
    flags
        .iter()
        .enumerate()
        .map(|(i, &a)| Item { text: format!("item {}", i), active: a })
        .collect()
}

#[test]
fn item_constructors() {
    let a = Item::new("Play");
    assert_eq!(a.text, "Play");
    assert!(a.active);
    let b = Item::unactive("General:");
    assert_eq!(b.text, "General:");
    assert!(!b.active);
    let c = Item::owned(String::from("Mode: Multiplayer"));
    assert_eq!(c.text, "Mode: Multiplayer");
    assert!(c.active);
}

#[test]
fn rotate_down_moves_to_next_item() {
    let mut sel = 0usize;
    let mut menu = Menu { title: "t", items: items(&[true, true, true]), selected: &mut sel };
    menu.rotate_down();
    assert_eq!(*menu.selected, 1);
    menu.rotate_down();
    assert_eq!(*menu.selected, 2);
    menu.rotate_down();
    assert_eq!(*menu.selected, 0);
}

#[test]
fn rotate_down_skips_unactive_items() {
    let mut sel = 0usize;
    let mut menu = Menu { title: "t", items: items(&[false, true, false, false, true]), selected: &mut sel };
    menu.rotate_down();
    assert_eq!(*menu.selected, 1);
    menu.rotate_down();
    assert_eq!(*menu.selected, 4);
    menu.rotate_down();
    assert_eq!(*menu.selected, 1);
}

#[test]
fn rotate_down_from_out_of_range_selection_wraps() {
    let mut sel = 7usize;
    let mut menu = Menu { title: "t", items: items(&[true, false, true]), selected: &mut sel };
    // (7 + 1) % 3 == 2
    menu.rotate_down();
    assert_eq!(sel, 2);
}

#[test]
fn rotate_up_moves_to_previous_item() {
    let mut sel = 2usize;
    let mut menu = Menu { title: "t", items: items(&[true, true, true]), selected: &mut sel };
    menu.rotate_up();
    assert_eq!(*menu.selected, 1);
    menu.rotate_up();
    assert_eq!(*menu.selected, 0);
    menu.rotate_up();
    assert_eq!(*menu.selected, 2);
}

#[test]
fn rotate_up_skips_unactive_items() {
    let mut sel = 1usize;
    let mut menu = Menu { title: "t", items: items(&[false, true, false, false, true, false]), selected: &mut sel };
    menu.rotate_up();
    assert_eq!(*menu.selected, 4);
    menu.rotate_up();
    assert_eq!(*menu.selected, 1);
}

#[test]
fn rotate_with_single_selectable_item_stays() {
    let mut sel = 1usize;
    let mut menu = Menu { title: "t", items: items(&[false, true, false]), selected: &mut sel };
    menu.rotate_down();
    assert_eq!(*menu.selected, 1);
    menu.rotate_up();
    assert_eq!(*menu.selected, 1);
}

#[test]
fn rotate_up_from_one_past_the_end() {
    let mut sel = 3usize;
    let mut menu = Menu { title: "t", items: items(&[true, true, true]), selected: &mut sel };
    menu.rotate_up();
    assert_eq!(sel, 2);
}

#[test]
fn rotate_down_then_up_returns() {
    for start in [1usize, 3, 4] {
        let mut sel = start;
        let mut menu = Menu { title: "t", items: items(&[false, true, false, true, true, false]), selected: &mut sel };
        menu.rotate_down();
        menu.rotate_up();
        assert_eq!(sel, start);
        let mut menu = Menu { title: "t", items: items(&[false, true, false, true, true, false]), selected: &mut sel };
        menu.rotate_up();
        menu.rotate_down();
        assert_eq!(sel, start);
    }
}

#[test]
fn rotation_keeps_title_and_items() {
    let mut sel = 0usize;
    let mut menu = Menu { title: "Paused", items: items(&[true, true]), selected: &mut sel };
    menu.rotate_down();
    assert_eq!(menu.title, "Paused");
    assert_eq!(menu.items.len(), 2);
    assert_eq!(menu.items[1].text, "item 1");
}
