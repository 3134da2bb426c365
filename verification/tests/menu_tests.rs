use snake::menu::ItemList;

#[derive(Debug, Copy, Clone, PartialEq)]
enum TestEnum {
    A,
    B,
    C,
}

fn variants() -> std::vec::IntoIter<TestEnum> {
    vec![TestEnum::A, TestEnum::B, TestEnum::C].into_iter()
}

#[test]
fn initial_selection_is_first_variant() {
    let list = ItemList::new(variants(), 0);
    assert_eq!(list.current_item(), TestEnum::A);
}

#[test]
fn next_grabs_item_in_number_order() {
    let mut list = ItemList::new(variants(), 0);
    list.move_forward();
    assert_eq!(list.current_item(), TestEnum::B);
}

#[test]
fn previous_from_initial_is_just_initial() {
    let mut list = ItemList::new(variants(), 0);
    assert_eq!(list.current_item(), TestEnum::A);
    list.move_back();
    assert_eq!(list.current_item(), TestEnum::A);
}

#[test]
fn next_from_final_is_just_final() {
    let mut list = ItemList::new(variants(), 0);
    list.move_forward(); // B
    list.move_forward(); // C
    list.move_forward(); // C
    assert_eq!(list.current_item(), TestEnum::C);
}

#[test]
fn list_starts_at_the_index_given() {
    let mut list = ItemList::new(variants(), 1);
    assert_eq!(list.current_index(), 1);
    assert_eq!(list.current_item(), TestEnum::B);
    list.move_back();
    assert_eq!(list.current_index(), 0);
    list.move_back();
    assert_eq!(list.current_index(), 0);
}

#[test]
fn list_keeps_the_order_of_its_source() {
    let mut list = ItemList::new(vec![7u8, 5, 9, 1].into_iter(), 0);
    let mut seen = vec![list.current_item()];
    for _ in 0..5 {
        list.move_forward();
        seen.push(list.current_item());
    }
    assert_eq!(seen, vec![7, 5, 9, 1, 1, 1]);
    assert_eq!(list.current_index(), 3);
}

#[test]
fn stepping_forward_from_beyond_the_list_leads_to_its_last_item() {
    let mut list = ItemList::new(variants(), 7);
    assert_eq!(list.current_index(), 7);
    list.move_forward();
    assert_eq!(list.current_index(), 2);
    assert_eq!(list.current_item(), TestEnum::C);
}
