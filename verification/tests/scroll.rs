use scroll_ui::scroll::{sum_heights, ScrollEvent, ScrollUnit, ScrollingList};

fn line(amount: i32) -> ScrollEvent {
    ScrollEvent {
        amount,
        unit: ScrollUnit::Line,
    }
}

fn pixel(amount: i32) -> ScrollEvent {
    ScrollEvent {
        amount,
        unit: ScrollUnit::Pixel,
    }
}

#[test]
fn fresh_list_sits_at_top() {
    let list = ScrollingList::new();
    assert_eq!(list.position, 0);
}

#[test]
fn sum_of_child_heights() {
    assert_eq!(sum_heights(&vec![]), 0);
    assert_eq!(sum_heights(&vec![100, 200, 200]), 500);
}

#[test]
fn scroll_down_clamp_and_back() {
    // Content of 500 px in a 200 px panel: 300 px of scroll room.
    let heights: Vec<u32> = vec![250, 250];
    let mut list = ScrollingList::new();

    list.mouse_scroll(&vec![line(-1)], &heights, 200);
    assert_eq!(list.position, -20);

    let twenty_more: Vec<ScrollEvent> = vec![line(-1); 20];
    list.mouse_scroll(&twenty_more, &heights, 200);
    assert_eq!(list.position, -300);

    list.mouse_scroll(&vec![line(1)], &heights, 200);
    assert_eq!(list.position, -280);
}

#[test]
fn events_apply_in_arrival_order_each_reclamped() {
    // Overshooting the top between two events must clamp in between:
    // +2 lines from -20 pins at 0, then -1 line lands at -20 again.
    let mut list = ScrollingList::new();
    list.scroll_tick(line(-1), 500, 200);
    assert_eq!(list.position, -20);
    list.handle_events(&vec![line(2), line(-1)], 500, 200);
    assert_eq!(list.position, -20);
}

#[test]
fn zero_delta_leaves_offset_unchanged() {
    let mut list = ScrollingList::new();
    list.scroll_tick(line(-3), 500, 200);
    assert_eq!(list.position, -60);
    list.scroll_tick(line(0), 500, 200);
    assert_eq!(list.position, -60);
    list.scroll_tick(pixel(0), 500, 200);
    assert_eq!(list.position, -60);
}

#[test]
fn one_line_equals_twenty_pixels() {
    let mut by_line = ScrollingList::new();
    by_line.scroll_tick(line(-1), 500, 200);
    let mut by_pixel = ScrollingList::new();
    by_pixel.scroll_tick(pixel(-20), 500, 200);
    assert_eq!(by_line.position, by_pixel.position);

    by_line.scroll_tick(line(1), 500, 200);
    by_pixel.scroll_tick(pixel(20), 500, 200);
    assert_eq!(by_line.position, 0);
    assert_eq!(by_pixel.position, 0);
}

#[test]
fn pixel_events_move_by_their_raw_amount() {
    let mut list = ScrollingList::new();
    list.scroll_tick(pixel(-7), 500, 200);
    assert_eq!(list.position, -7);
}

#[test]
fn content_that_fits_cannot_scroll() {
    // 100 px of content in a 200 px panel: the offset is pinned to 0.
    let heights: Vec<u32> = vec![50, 50];
    let mut list = ScrollingList::new();
    list.mouse_scroll(&vec![line(-5), pixel(-300), line(4)], &heights, 200);
    assert_eq!(list.position, 0);

    // So too when content and panel heights are equal.
    list.mouse_scroll(&vec![line(-5)], &heights, 100);
    assert_eq!(list.position, 0);
}

#[test]
fn offset_stays_between_minus_max_scroll_and_zero() {
    // Max scroll is 300; wild swings never leave [-300, 0].
    let mut list = ScrollingList::new();
    let swings: Vec<ScrollEvent> = vec![
        line(-100),
        pixel(9999),
        line(-2),
        pixel(-1),
        line(50),
        pixel(-100000),
        line(1),
    ];
    for event in &swings {
        list.scroll_tick(*event, 500, 200);
        assert!(-300 <= list.position && list.position <= 0);
    }
}

#[test]
fn empty_event_queue_changes_nothing() {
    let mut list = ScrollingList::new();
    list.scroll_tick(line(-2), 500, 200);
    list.handle_events(&vec![], 500, 200);
    assert_eq!(list.position, -40);
}
