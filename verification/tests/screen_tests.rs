use cervisia::beerlist::Beerlist;
use cervisia::mock::setup_mock_data;
use cervisia::screen::{
    handle_purchase_select, handle_purchase_unselect, purchase_undo_handler,
    quickmenu_item_btn_pressed, quickmenu_item_btn_pressed_at, record_purchase,
    refresh_purchase_label_from_newest_log_element, render_last_purchase, search_entry_text_changed,
    first_page, show_items_on_quickmenu, show_quickmenu, user_btn_pressed, Cervisia, NUMBER_OF_USERS_PER_PAGE, SIZE_OF_PURCHASE_LOG,
};

fn small_app() -> Cervisia {
    let mut bl = Beerlist::new(40, 40);
    bl.create_user("Gruin".to_string());
    bl.create_user("Vall".to_string());
    bl.create_item("Club Mate".to_string(), 100, None);
    bl.create_item("Pils".to_string(), 95, None);
    Cervisia::new(bl)
}

fn mock_app() -> Cervisia {
    let mut bl = Beerlist::new(40, 40);
    setup_mock_data(&mut bl);
    Cervisia::new(bl)
}

#[test]
fn windows_open_empty() {
    let app = small_app();
    assert_eq!(app.user_buttons.len(), NUMBER_OF_USERS_PER_PAGE as usize);
    assert_eq!(app.quickmenu_buttons.len(), 4);
    assert!(app.user_buttons.iter().all(|b| !b.visible && b.label.is_empty()));
    assert!(app.purchase_log.is_empty());
    assert_eq!(app.user_selected, None);
    assert_eq!(app.purchase_selected, None);
    assert!(!app.undo_enabled);
}

#[test]
fn empty_search_shows_top_users_without_action_bar() {
    let mut app = small_app();
    search_entry_text_changed(&mut app, "");
    assert!(!app.action_bar_visible);
    let mut shown = app.users_on_screen.clone();
    shown.sort();
    assert_eq!(shown, vec![0, 1]);
    for (i, b) in app.user_buttons.iter().enumerate() {
        assert_eq!(b.visible, i < 2);
    }
    for i in 0..2 {
        let name = app.beerlist.username(app.users_on_screen[i]).unwrap();
        assert_eq!(app.user_buttons[i].label, name);
    }
}

#[test]
fn search_shows_at_most_one_page_in_id_order() {
    let mut app = mock_app();
    search_entry_text_changed(&mut app, "genuser");
    assert!(app.action_bar_visible);
    assert_eq!(app.users_on_screen.len(), NUMBER_OF_USERS_PER_PAGE as usize);
    assert_eq!(app.users_on_screen[0], 3);
    assert!(app.users_on_screen.windows(2).all(|w| w[0] < w[1]));
    assert!(app.user_buttons.iter().all(|b| b.visible));
    assert_eq!(app.user_buttons[0].label, "GenUser #0");

    search_entry_text_changed(&mut app, "GenUser #24");
    // GenUser #24 and #240 .. #249
    assert_eq!(app.users_on_screen.len(), 11);
    assert_eq!(app.user_buttons[0].label, "GenUser #24");
    assert!(app.user_buttons[10].visible);
    assert!(!app.user_buttons[11].visible);
    // a hidden button keeps its old label
    assert_eq!(app.user_buttons[11].label, "GenUser #11");

    search_entry_text_changed(&mut app, "nobody");
    assert!(app.users_on_screen.is_empty());
    assert!(app.user_buttons.iter().all(|b| !b.visible));
}

#[test]
fn user_button_selects_the_user_and_opens_the_quickmenu() {
    let mut app = small_app();
    app.beerlist.purchase(1, 1, 5);
    search_entry_text_changed(&mut app, "vall");
    assert_eq!(app.users_on_screen, vec![1]);
    user_btn_pressed(&mut app, 0);
    assert_eq!(app.user_selected, Some(1));
    let mut items = app.items_on_screen.clone();
    items.sort();
    assert_eq!(items, vec![0, 1]);
    for i in 0..4 {
        assert_eq!(app.quickmenu_buttons[i].visible, i < 2);
    }
    for i in 0..2 {
        let name = app.beerlist.item_name(app.items_on_screen[i]).unwrap();
        assert_eq!(app.quickmenu_buttons[i].label, name);
    }
}

#[test]
fn quickmenu_of_a_user_without_top_drinks_is_empty() {
    let mut app = small_app();
    assert_eq!(app.beerlist.top_drinks_list(0).map(|d| d.len()), Some(0));
    show_quickmenu(&mut app, 0);
    assert!(app.items_on_screen.is_empty());
    assert!(app.quickmenu_buttons.iter().all(|b| !b.visible));
    // the backend keeps no top drinks for an unknown user
    assert_eq!(app.beerlist.top_drinks_list(77), None);
}

#[test]
fn quickmenu_shows_at_most_four_items() {
    let mut app = mock_app();
    let mut shown_any = false;
    for u in 0..253u32 {
        let n = app.beerlist.top_drinks_list(u).map_or(0, |d| d.len());
        show_quickmenu(&mut app, u);
        assert_eq!(app.items_on_screen.len(), n.min(4));
        for i in 0..4 {
            assert_eq!(app.quickmenu_buttons[i].visible, i < n.min(4));
        }
        if n == 4 {
            shown_any = true;
        }
    }
    assert!(shown_any);
}

#[test]
fn quickmenu_takes_the_first_four_of_more_drinks() {
    let mut app = mock_app();
    show_items_on_quickmenu(&mut app, vec![4, 3, 2, 1, 0, 2]);
    assert_eq!(app.items_on_screen, vec![4, 3, 2, 1]);
    assert!(app.quickmenu_buttons.iter().all(|b| b.visible));
    assert_eq!(app.quickmenu_buttons[0].label, "Kr\u{e4}ussen");
    assert_eq!(app.quickmenu_buttons[3].label, "Pils");
}

#[test]
fn user_button_shows_as_many_top_drinks_as_fit() {
    let mut app = mock_app();
    search_entry_text_changed(&mut app, "genuser #1");
    for index in 0..app.users_on_screen.len() {
        let u = app.users_on_screen[index];
        let n = app.beerlist.top_drinks_list(u).unwrap().len();
        user_btn_pressed(&mut app, index);
        assert_eq!(app.user_selected, Some(u));
        assert_eq!(app.items_on_screen.len(), n.min(4));
    }
}

#[test]
fn search_page_is_the_first_page_of_the_hits() {
    let mut app = mock_app();
    search_entry_text_changed(&mut app, "GENUSER #24");
    let mut expected = vec![27u32];
    expected.extend(243u32..253);
    assert_eq!(app.users_on_screen, expected);
    search_entry_text_changed(&mut app, "r");
    // "Gruin", "rad(i)" and every "GenUser #.."; the page holds the first forty of them
    let mut expected = vec![0u32, 2];
    expected.extend(3u32..41);
    assert_eq!(app.users_on_screen, expected);
    assert_eq!(app.user_buttons[1].label, "rad(i)");
}

#[test]
fn undo_handler_leaves_the_log_where_no_row_has_the_purchase() {
    let mut app = small_app();
    render_last_purchase(&mut app, "Gruin", "Pils", 7, 99);
    app.beerlist.purchase(1, 0, 5);
    handle_purchase_select(&mut app, 1);
    purchase_undo_handler(&mut app);
    assert_eq!(app.beerlist.get_purchase(1), None);
    assert_eq!(app.purchase_log.len(), 1);
    assert_eq!(app.purchase_log[0].purchase_id, 99);
    assert!(app.log_button_label.starts_with("User Pils bought 1 Gruin at 19"));
}

#[test]
fn item_button_buys_the_item_for_the_selected_user() {
    let mut app = small_app();
    app.beerlist.purchase(1, 1, 5);
    search_entry_text_changed(&mut app, "vall");
    user_btn_pressed(&mut app, 0);
    let item = app.items_on_screen[0];
    let item_name = app.beerlist.item_name(item).unwrap();
    quickmenu_item_btn_pressed_at(&mut app, 0, 1_500_000_000);
    assert_eq!(app.purchase_log.len(), 1);
    let row = &app.purchase_log[0];
    assert_eq!(row.timestamp, 1_500_000_000);
    assert_eq!(row.user, "Vall");
    assert_eq!(row.item, item_name);
    assert_eq!(row.purchase_id, 2);
    assert_eq!(app.beerlist.get_purchase(2), Some((2, 1, item, 1_500_000_000)));
    assert!(app
        .log_button_label
        .starts_with(&format!("User Vall bought 1 {} at ", item_name)));
}

#[test]
fn item_button_without_selected_user_does_nothing() {
    let mut app = small_app();
    quickmenu_item_btn_pressed(&mut app, 3);
    assert!(app.purchase_log.is_empty());
    assert_eq!(app.beerlist.get_purchase(1), None);
}

#[test]
fn item_button_now_buys_with_the_current_time() {
    let mut app = small_app();
    app.beerlist.purchase(0, 0, 5);
    show_quickmenu(&mut app, 0);
    app.user_selected = Some(0);
    quickmenu_item_btn_pressed(&mut app, 0);
    assert_eq!(app.purchase_log.len(), 1);
    assert!(app.purchase_log[0].timestamp > 1_577_836_800);
}

#[test]
fn record_purchase_writes_label_and_row() {
    let mut app = small_app();
    record_purchase(&mut app, "Gruin", "Pils", 77, 9, "2018-01-02 03:04:05");
    assert_eq!(app.log_button_label, "User Gruin bought 1 Pils at 2018-01-02 03:04:05");
    assert_eq!(app.purchase_log.len(), 1);
    assert_eq!(app.purchase_log[0].purchase_id, 9);
    assert_eq!(app.purchase_log[0].timestamp, 77);
}

#[test]
fn purchase_log_keeps_the_newest_rows() {
    let mut app = small_app();
    for id in 1..=(SIZE_OF_PURCHASE_LOG as u64 + 5) {
        render_last_purchase(&mut app, "Gruin", "Pils", id as i64, id);
        assert!(app.purchase_log.len() <= SIZE_OF_PURCHASE_LOG as usize);
        assert_eq!(app.purchase_log.last().unwrap().purchase_id, id);
    }
    assert_eq!(app.purchase_log.len(), SIZE_OF_PURCHASE_LOG as usize);
    assert_eq!(app.purchase_log[0].purchase_id, 6);
}

#[test]
fn selecting_a_purchase_shows_it_and_unselecting_clears() {
    let mut app = small_app();
    app.beerlist.purchase(1, 0, 5);
    handle_purchase_select(&mut app, 1);
    assert_eq!(app.purchase_selected, Some(1));
    assert!(app.undo_enabled);
    assert_eq!(app.log_upper_label, "Vall");
    assert_eq!(app.log_lower_label, "Club Mate");
    handle_purchase_unselect(&mut app);
    assert_eq!(app.purchase_selected, None);
    assert!(!app.undo_enabled);
    assert!(app.log_upper_label.is_empty());
    assert!(app.log_lower_label.is_empty());
}

#[test]
fn selecting_an_unknown_purchase_only_remembers_it() {
    let mut app = small_app();
    handle_purchase_select(&mut app, 4);
    assert_eq!(app.purchase_selected, Some(4));
    assert!(!app.undo_enabled);
    assert!(app.log_upper_label.is_empty());
}

#[test]
fn undo_handler_removes_purchase_and_row() {
    let mut app = small_app();
    app.beerlist.purchase(0, 1, 5);
    app.user_selected = Some(0);
    show_quickmenu(&mut app, 0);
    let drink = app.beerlist.item_name(app.items_on_screen[0]).unwrap();
    quickmenu_item_btn_pressed_at(&mut app, 0, 1_500_000_000);
    quickmenu_item_btn_pressed_at(&mut app, 0, 1_500_000_001);
    assert_eq!(app.purchase_log.len(), 2);
    let newest = app.purchase_log[1].purchase_id;
    let older = app.purchase_log[0].purchase_id;
    handle_purchase_select(&mut app, newest);
    purchase_undo_handler(&mut app);
    assert_eq!(app.beerlist.get_purchase(newest), None);
    assert_eq!(app.purchase_log.len(), 1);
    assert_eq!(app.purchase_log[0].purchase_id, older);
    // the refreshed label reads the row's name columns in order: item, then user
    assert!(app
        .log_button_label
        .starts_with(&format!("User {} bought 1 Gruin at ", drink)));
    handle_purchase_select(&mut app, older);
    purchase_undo_handler(&mut app);
    assert!(app.purchase_log.is_empty());
    assert_eq!(app.log_button_label, "No purchases since last bill");
    // without a selection the undo button changes nothing
    handle_purchase_unselect(&mut app);
    purchase_undo_handler(&mut app);
    assert!(app.purchase_log.is_empty());
    assert_eq!(app.log_button_label, "No purchases since last bill");
}

#[test]
fn undo_handler_without_selection_does_nothing() {
    let mut app = small_app();
    app.beerlist.purchase(0, 1, 5);
    purchase_undo_handler(&mut app);
    assert_eq!(app.beerlist.get_purchase(1), Some((1, 0, 1, 5)));
}

#[test]
fn refresh_label_on_empty_and_filled_log() {
    let mut app = small_app();
    refresh_purchase_label_from_newest_log_element(&mut app);
    assert_eq!(app.log_button_label, "No purchases since last bill");
    record_purchase(&mut app, "Gruin", "Pils", 1_500_000_000, 1, "x");
    refresh_purchase_label_from_newest_log_element(&mut app);
    assert!(app.log_button_label.starts_with("User Pils bought 1 Gruin at 2017-07-1"));
}

#[test]
fn refresh_label_keeps_old_label_where_the_time_has_no_local_name() {
    let mut app = small_app();
    record_purchase(&mut app, "Gruin", "Pils", i64::MAX, 1, "x");
    refresh_purchase_label_from_newest_log_element(&mut app);
    assert_eq!(app.log_button_label, "User Gruin bought 1 Pils at x");
}

#[test]
fn first_page_takes_at_most_a_page() {
    let hits: Vec<u32> = (0..100).collect();
    assert_eq!(first_page(&hits), (0..40).collect::<Vec<u32>>());
    let few: Vec<u32> = vec![3, 7, 9];
    assert_eq!(first_page(&few), few);
    assert_eq!(first_page(&Vec::new()), Vec::<u32>::new());
}

#[test]
fn logged_purchase_label_carries_a_full_local_time() {
    let mut app = small_app();
    render_last_purchase(&mut app, "Gruin", "Pils", 7, 99);
    let prefix = "User Gruin bought 1 Pils at ";
    assert!(app.log_button_label.starts_with(prefix));
    assert!(app.log_button_label.len() >= prefix.len() + 19);
    refresh_purchase_label_from_newest_log_element(&mut app);
    let prefix = "User Pils bought 1 Gruin at ";
    assert!(app.log_button_label.starts_with(prefix));
    assert!(app.log_button_label.len() >= prefix.len() + 19);
}

#[test]
fn every_user_has_a_top_drinks_entry() {
    let app = mock_app();
    for u in 0..253u32 {
        assert!(app.beerlist.top_drinks_list(u).is_some());
    }
    assert!(app.beerlist.top_drinks_list(253).is_none());
}
