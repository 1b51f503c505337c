use conrod_thread::custom_widget::chatview;
use conrod_thread::custom_widget::chatview_ownedmsg;

fn test_ui() -> conrod::Ui {
    conrod::UiBuilder::new([800.0, 600.0]).build()
}

fn indices(list: &conrod::widget::id::List) -> Vec<usize> {
    list.iter().map(|id| id.index()).collect()
}

#[test]
fn chatview_ids_are_consecutive_and_lists_start_empty() {
    let mut ui = test_ui();
    let first = ui.widget_id_generator().next().index();
    let ids = chatview::Ids::new(ui.widget_id_generator());
    let singles = [
        ids.chat_canvas,
        ids.message_panel,
        ids.text_edit_body,
        ids.text_edit_panel,
        ids.text_edit_panel_scrollbar,
        ids.text_edit,
        ids.text_rect,
        ids.text_edit_button_panel,
        ids.text_edit_button,
    ];
    for (k, id) in singles.iter().enumerate() {
        assert_eq!(id.index(), first + 1 + k);
    }
    assert!(ids.display_pics.is_empty());
    assert!(ids.names.is_empty());
    assert!(ids.texts.is_empty());
    assert!(ids.rects.is_empty());
}

#[test]
fn ownedmsg_ids_are_consecutive() {
    let mut ui = test_ui();
    let first = ui.widget_id_generator().next().index();
    let ids = chatview_ownedmsg::Ids::new(ui.widget_id_generator());
    let all = [
        ids.chat_canvas,
        ids.message_panel,
        ids.history_list,
        ids.text_edit_body,
        ids.text_edit_panel,
        ids.text_edit_panel_scrollbar,
        ids.text_edit,
        ids.text_rect,
        ids.text_edit_button_panel,
        ids.text_edit_button,
    ];
    for (k, id) in all.iter().enumerate() {
        assert_eq!(id.index(), first + 1 + k);
    }
}

#[test]
fn resize_grows_with_fresh_ids_then_truncates() {
    let mut ui = test_ui();
    let ids = chatview::Ids::new(ui.widget_id_generator());
    let canvas = ids.chat_canvas;
    let button = ids.text_edit_button;
    let mut state = chatview::State { ids };
    let base = ui.widget_id_generator().next().index() + 1;
    state.resize(3, &mut ui.widget_id_generator());
    assert_eq!(state.ids.chat_canvas, canvas);
    assert_eq!(state.ids.text_edit_button, button);
    assert_eq!(indices(&state.ids.display_pics), vec![base, base + 1, base + 2]);
    assert!(state.ids.names.is_empty());
    // Resizing to the same length generates nothing and changes nothing.
    state.resize(3, &mut ui.widget_id_generator());
    assert_eq!(indices(&state.ids.display_pics), vec![base, base + 1, base + 2]);
    let next = ui.widget_id_generator().next().index();
    assert_eq!(next, base + 3);
    state.resize(1, &mut ui.widget_id_generator());
    assert_eq!(indices(&state.ids.display_pics), vec![base]);
}

#[test]
fn grow_id_lists_fills_each_list_in_order_and_never_shrinks() {
    let mut ui = test_ui();
    let ids = chatview::Ids::new(ui.widget_id_generator());
    let mut state = chatview::State { ids };
    state.resize(1, &mut ui.widget_id_generator());
    let pic0 = indices(&state.ids.display_pics)[0];
    let base = ui.widget_id_generator().next().index() + 1;
    state.grow_id_lists(2, &mut ui.widget_id_generator());
    assert_eq!(indices(&state.ids.display_pics), vec![pic0, base]);
    assert_eq!(indices(&state.ids.names), vec![base + 1, base + 2]);
    assert_eq!(indices(&state.ids.texts), vec![base + 3, base + 4]);
    assert_eq!(indices(&state.ids.rects), vec![base + 5, base + 6]);
    state.grow_id_lists(1, &mut ui.widget_id_generator());
    assert_eq!(indices(&state.ids.display_pics), vec![pic0, base]);
    assert_eq!(indices(&state.ids.rects), vec![base + 5, base + 6]);
}
