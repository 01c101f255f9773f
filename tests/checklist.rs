use ssh_config::checklist::{Ui, HIGHLIGHT_PAIR, REGULAR_PAIR, TITLE_PAIR};

#[test]
fn list_items_stack_and_highlight_current() {
    let mut ui = Ui::new();
    ui.begin(0, 0);
    let title = ui.label(">>> Tasks:".to_string(), TITLE_PAIR);
    assert_eq!((title.row, title.col, title.pair), (0, 0, TITLE_PAIR));
    ui.begin_list(1);
    let a = ui.list_element("Buy a bread", 0);
    let b = ui.list_element("Make a cup of tea", 1);
    ui.end_list();
    ui.end();
    assert_eq!(a.text, "- [ ] Buy a bread");
    assert_eq!((a.row, a.pair), (1, REGULAR_PAIR));
    assert_eq!(b.text, "- [ ] Make a cup of tea");
    assert_eq!((b.row, b.pair), (2, HIGHLIGHT_PAIR));
    assert_eq!(ui.row, 3);
    assert_eq!(ui.list_curr, None);
}

#[test]
fn begin_moves_the_cursor() {
    let mut ui = Ui::new();
    ui.begin(4, 7);
    let l = ui.label("x".to_string(), REGULAR_PAIR);
    assert_eq!((l.row, l.col), (4, 7));
}
