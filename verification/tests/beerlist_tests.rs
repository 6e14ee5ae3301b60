use cervisia::beerlist::Beerlist;
use cervisia::mock::{add_mock_purchases, mock_draws, setup_mock_data, MOCK_USERS};

fn fresh() -> Beerlist {
    Beerlist::new(40, 40)
}

#[test]
fn created_users_and_items_get_consecutive_ids() {
    let mut bl = fresh();
    assert!(bl.create_user("klaus".to_string()));
    assert!(bl.create_user("anna".to_string()));
    assert_eq!(bl.username(0).as_deref(), Some("klaus"));
    assert_eq!(bl.username(1).as_deref(), Some("anna"));
    assert_eq!(bl.username(2), None);
    assert!(bl.create_item("beer".to_string(), 95, Some("Alcohol".to_string())));
    assert!(bl.create_item("soda".to_string(), 75, None));
    assert_eq!(bl.item_name(0).as_deref(), Some("beer"));
    assert_eq!(bl.item_name(1).as_deref(), Some("soda"));
    assert_eq!(bl.item_name(2), None);
}

#[test]
fn purchases_get_increasing_ids_and_can_be_found() {
    let mut bl = fresh();
    bl.create_user("klaus".to_string());
    bl.create_item("beer".to_string(), 95, None);
    let first = bl.purchase(0, 0, 1000).expect("known user and item");
    let second = bl.purchase(0, 0, 1001).expect("known user and item");
    assert_eq!(first.0, 1);
    assert_eq!(second.0, 2);
    // klaus is a top user from the start (the list holds up to 40 users)
    assert!(!first.1);
    assert!(!second.1);
    assert_eq!(bl.get_purchase(1), Some((1, 0, 0, 1000)));
    assert_eq!(bl.get_purchase(2), Some((2, 0, 0, 1001)));
    assert_eq!(bl.get_purchase(3), None);
}

#[test]
fn purchase_of_unknown_user_or_item_changes_nothing() {
    let mut bl = fresh();
    bl.create_user("klaus".to_string());
    bl.create_item("beer".to_string(), 95, None);
    assert_eq!(bl.purchase(5, 0, 1), None);
    assert_eq!(bl.purchase(0, 5, 1), None);
    assert_eq!(bl.get_purchase(1), None);
    assert_eq!(bl.purchase(0, 0, 1).map(|p| p.0), Some(1));
}

#[test]
fn undo_removes_the_purchase_and_tells_if_it_was_the_newest() {
    let mut bl = fresh();
    bl.create_user("klaus".to_string());
    bl.create_item("beer".to_string(), 95, None);
    bl.purchase(0, 0, 10);
    bl.purchase(0, 0, 11);
    bl.purchase(0, 0, 12);
    assert_eq!(bl.undo_purchase(2), Some(false));
    assert_eq!(bl.get_purchase(2), None);
    assert_eq!(bl.undo_purchase(2), None, "an undone purchase cannot be undone again");
    assert_eq!(bl.undo_purchase(3), Some(true));
    assert_eq!(bl.get_purchase(1), Some((1, 0, 0, 10)));
    assert_eq!(bl.undo_purchase(7), None);
}

#[test]
fn undo_after_purchase_restores_the_log() {
    let mut bl = fresh();
    bl.create_user("klaus".to_string());
    bl.create_item("beer".to_string(), 95, None);
    bl.purchase(0, 0, 10);
    let (id, _) = bl.purchase(0, 0, 11).unwrap();
    assert_eq!(bl.undo_purchase(id), Some(true));
    assert_eq!(bl.get_purchase(1), Some((1, 0, 0, 10)));
    assert_eq!(bl.get_purchase(id), None);
    // the next purchase gets a fresh id
    assert_eq!(bl.purchase(0, 0, 12).map(|p| p.0), Some(3));
}

#[test]
fn undo_of_a_free_item_is_refused() {
    // the backend lowers the cost tally by one on undo, which a free item
    // leaves at zero: the beer list refuses instead of letting it underflow
    let mut bl = fresh();
    bl.create_user("klaus".to_string());
    bl.create_item("water".to_string(), 0, None);
    let (id, _) = bl.purchase(0, 0, 10).unwrap();
    assert_eq!(bl.undo_purchase(id), None);
    assert_eq!(bl.get_purchase(id), Some((id, 0, 0, 10)));
}

#[test]
fn top_users_and_top_drinks() {
    let mut bl = fresh();
    bl.create_user("klaus".to_string());
    bl.create_user("anna".to_string());
    bl.create_item("beer".to_string(), 95, None);
    bl.create_item("soda".to_string(), 75, None);
    bl.purchase(1, 1, 10);
    let top = bl.top_users_list();
    assert!(top.contains(&1));
    let mut drinks = bl.top_drinks_list(1).expect("anna has top drinks");
    drinks.sort();
    assert_eq!(drinks, vec![0, 1]);
    assert_eq!(bl.top_drinks_list(0), Some(vec![]));
    assert_eq!(bl.top_drinks_list(9), None);
}

#[test]
fn search_finds_users_case_insensitively_in_id_order() {
    let mut bl = fresh();
    bl.create_user("Klaus".to_string());
    bl.create_user("anna".to_string());
    bl.create_user("klausi".to_string());
    assert_eq!(bl.search_users("klau"), vec![0, 2]);
    assert_eq!(bl.search_users("NN"), vec![1]);
    assert_eq!(bl.search_users("zz"), Vec::<u32>::new());
    assert_eq!(bl.search_users(""), vec![0, 1, 2]);
}

#[test]
fn mock_data_has_named_users_items_and_a_first_purchase() {
    let mut bl = fresh();
    setup_mock_data(&mut bl);
    assert_eq!(bl.username(0).as_deref(), Some("Gruin"));
    assert_eq!(bl.username(1).as_deref(), Some("Vall"));
    assert_eq!(bl.username(2).as_deref(), Some("rad(i)"));
    assert_eq!(bl.username(3).as_deref(), Some("GenUser #0"));
    assert_eq!(bl.username(MOCK_USERS - 1).as_deref(), Some("GenUser #249"));
    assert_eq!(bl.username(MOCK_USERS), None);
    let names = ["Club Mate", "Pils", "Whiskey", "Schirker", "Kr\u{e4}ussen"];
    for (id, name) in names.iter().enumerate() {
        assert_eq!(bl.item_name(id as u32).as_deref(), Some(*name));
    }
    assert_eq!(bl.item_name(5), None);
    assert_eq!(bl.get_purchase(1), Some((1, 0, 2, 12345678)));
    let mut id = 2;
    while let Some((pid, user, item, ts)) = bl.get_purchase(id) {
        assert_eq!(pid, id);
        assert!(user < MOCK_USERS);
        assert!(item < 5);
        assert!(ts > 12345678);
        id += 1;
    }
    assert!(id > 2, "the random purchases exist");
}

#[test]
fn mock_purchases_are_one_second_apart_in_user_order() {
    let mut bl = fresh();
    setup_mock_data(&mut bl);
    let mut per_user = vec![0u32; MOCK_USERS as usize];
    let mut last_user = 0u32;
    let mut id = 2u64;
    while let Some((_, user, _, ts)) = bl.get_purchase(id) {
        assert_eq!(ts, 12345678 + (id as i64 - 1));
        assert!(user >= last_user);
        last_user = user;
        per_user[user as usize] += 1;
        id += 1;
    }
    assert!(per_user.iter().all(|&n| n <= 9));
}

#[test]
fn a_priced_purchase_can_be_undone_right_after_it_is_made() {
    let mut bl = fresh();
    setup_mock_data(&mut bl);
    let (id, _) = bl.purchase(7, 3, 99).unwrap();
    assert_eq!(bl.undo_purchase(id), Some(true));
    assert_eq!(bl.get_purchase(id), None);
    // an older purchase of the demonstration data too
    assert_eq!(bl.undo_purchase(1), Some(false));
    assert_eq!(bl.get_purchase(1), None);
}

#[test]
fn the_same_search_gives_the_same_hits() {
    let mut bl = fresh();
    setup_mock_data(&mut bl);
    let a = bl.search_users("user #1");
    let b = bl.search_users("USER #1");
    assert_eq!(a, b);
    assert_eq!(a.len(), 111);
    assert!(a.windows(2).all(|w| w[0] < w[1]));
}

#[test]
fn top_users_stay_within_the_limit() {
    let mut bl = Beerlist::new(40, 3);
    for n in 0..6 {
        bl.create_user(format!("user {}", n));
    }
    bl.create_item("beer".to_string(), 95, None);
    for u in 0..6 {
        for _ in 0..(u + 1) {
            bl.purchase(u, 0, 10);
        }
        assert!(bl.top_users_list().len() <= 3);
    }
    let mut mock = fresh();
    setup_mock_data(&mut mock);
    assert!(mock.top_users_list().len() <= 40);
}

fn mock_users_and_items() -> Beerlist {
    let mut bl = fresh();
    for name in ["Gruin", "Vall", "rad(i)"] {
        bl.create_user(name.to_string());
    }
    for i in 0..250 {
        bl.create_user(format!("GenUser #{}", i));
    }
    bl.create_item("Club Mate".to_string(), 100, Some("without alcohol".to_string()));
    bl.create_item("Pils".to_string(), 95, Some("Beer".to_string()));
    bl.create_item("Whiskey".to_string(), 1200, Some("Liquor".to_string()));
    bl.create_item("Schirker".to_string(), 1100, Some("Liquor".to_string()));
    bl.create_item("Kr\u{e4}ussen".to_string(), 1100, Some("Beer".to_string()));
    bl.purchase(0, 2, 12345678);
    bl
}

#[test]
fn mock_purchases_follow_the_given_pairs() {
    let mut bl = mock_users_and_items();
    add_mock_purchases(&mut bl, &vec![(5, 1), (5, 4), (9, 0)]);
    assert_eq!(bl.get_purchase(1), Some((1, 0, 2, 12345678)));
    assert_eq!(bl.get_purchase(2), Some((2, 5, 1, 12345679)));
    assert_eq!(bl.get_purchase(3), Some((3, 5, 4, 12345680)));
    assert_eq!(bl.get_purchase(4), Some((4, 9, 0, 12345681)));
    assert_eq!(bl.get_purchase(5), None);
}

#[test]
fn mock_draws_are_the_same_on_every_call() {
    let a = mock_draws();
    let b = mock_draws();
    assert_eq!(a, b);
    assert!(!a.is_empty());
    assert!(a.len() <= 9 * MOCK_USERS as usize);
    assert!(a.iter().all(|&(u, i)| u < MOCK_USERS && i < 5));
    assert!(a.windows(2).all(|w| w[0].0 <= w[1].0));
    // the draws are not all alike
    assert!(a.iter().any(|&(_, i)| i != a[0].1));
}

#[test]
fn two_runs_of_the_demonstration_data_are_equal() {
    let mut x = fresh();
    setup_mock_data(&mut x);
    let mut y = fresh();
    setup_mock_data(&mut y);
    let pairs = mock_draws();
    for id in 1..=(pairs.len() as u64 + 2) {
        assert_eq!(x.get_purchase(id), y.get_purchase(id));
    }
    for (k, &(u, i)) in pairs.iter().enumerate() {
        let id = k as u64 + 2;
        assert_eq!(x.get_purchase(id), Some((id, u, i, 12345678 + k as i64 + 1)));
    }
    assert_eq!(x.get_purchase(pairs.len() as u64 + 2), None);
}
