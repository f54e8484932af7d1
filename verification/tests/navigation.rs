use player_handlers::nav::{on_down_press_handler, on_up_press_handler};

#[test]
fn test_on_down_press_handler() {
    let data = vec!["Choice 1", "Choice 2", "Choice 3"];

    let index = 0;
    let next_index = on_down_press_handler(&data, Some(index));

    assert_eq!(next_index, 1);

    // Selection wrap if on last item
    let index = data.len() - 1;
    let next_index = on_down_press_handler(&data, Some(index));
    assert_eq!(next_index, 0);
}

#[test]
fn test_on_up_press_handler() {
    let data = vec!["Choice 1", "Choice 2", "Choice 3"];

    let index = data.len() - 1;
    let next_index = on_up_press_handler(&data, Some(index));

    assert_eq!(next_index, index - 1);

    // Selection wrap if on first item
    let index = 0;
    let next_index = on_up_press_handler(&data, Some(index));
    assert_eq!(next_index, data.len() - 1);
}

#[test]
fn moves_at_the_ends_and_without_a_selection() {
    let three = vec![10u8, 20, 30];
    let none: Vec<u8> = Vec::new();
    assert_eq!(on_down_press_handler(&three, Some(2)), 0);
    assert_eq!(on_up_press_handler(&three, Some(0)), 2);
    assert_eq!(on_down_press_handler(&none, None), 0);
    assert_eq!(on_up_press_handler(&three, None), 0);
    assert_eq!(on_down_press_handler(&three, None), 0);
}

#[test]
fn moves_on_an_empty_list_give_zero() {
    let none: Vec<u8> = Vec::new();
    assert_eq!(on_down_press_handler(&none, Some(0)), 0);
    assert_eq!(on_down_press_handler(&none, Some(7)), 0);
    assert_eq!(on_up_press_handler(&none, Some(0)), 0);
    assert_eq!(on_up_press_handler(&none, Some(7)), 0);
    assert_eq!(on_up_press_handler(&none, None), 0);
}

#[test]
fn move_down_from_the_largest_index_wraps() {
    let three = vec![1u8, 2, 3];
    assert_eq!(on_down_press_handler(&three, Some(usize::MAX)), 0);
    assert_eq!(on_down_press_handler(&three, Some(3)), 0);
    assert_eq!(on_up_press_handler(&three, Some(usize::MAX)), usize::MAX - 1);
}

#[test]
fn down_then_up_and_up_then_down_return() {
    let data = vec!['a', 'b', 'c', 'd', 'e'];
    for current in 0..data.len() {
        let down = on_down_press_handler(&data, Some(current));
        assert_eq!(on_up_press_handler(&data, Some(down)), current);
        let up = on_up_press_handler(&data, Some(current));
        assert_eq!(on_down_press_handler(&data, Some(up)), current);
    }
}

#[test]
fn single_item_list_stays_on_its_item() {
    let one = vec![0u8];
    assert_eq!(on_down_press_handler(&one, Some(0)), 0);
    assert_eq!(on_up_press_handler(&one, Some(0)), 0);
}
