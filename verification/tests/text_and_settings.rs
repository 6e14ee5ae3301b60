use cervisia::assistant::{toggled, util_page_entries, AssistantDialogue};
use cervisia::clock::current_time;
use cervisia::settings::{config_dir_path, config_file_path, join};
use cervisia::text::{
    clock_text, decimal_string, no_purchases_label, notification_id, purchase_label,
};

#[test]
fn decimal_string_writes_numbers_like_to_string() {
    assert_eq!(decimal_string(0), "0");
    assert_eq!(decimal_string(7), "7");
    assert_eq!(decimal_string(10), "10");
    assert_eq!(decimal_string(42), "42");
    assert_eq!(decimal_string(249), "249");
    assert_eq!(decimal_string(u32::MAX), u32::MAX.to_string());
    for n in [1u32, 9, 99, 100, 1000, 65535, 123456789] {
        assert_eq!(decimal_string(n), n.to_string());
    }
}

#[test]
fn purchase_label_reads_user_bought_drink_at_time() {
    assert_eq!(
        purchase_label("Gruin", "Pils", "2018-01-02 03:04:05"),
        "User Gruin bought 1 Pils at 2018-01-02 03:04:05"
    );
    assert_eq!(purchase_label("", "", ""), "User  bought 1  at ");
}

#[test]
fn fixed_labels() {
    assert_eq!(no_purchases_label(), "No purchases since last bill");
    assert_eq!(clock_text("2018-01-02 03:04:05"), "2018-01-02 03:04:05 Uhr");
    assert_eq!(notification_id(42), "my-notification-id-42");
    assert_eq!(notification_id(0), "my-notification-id-0");
}

#[test]
fn current_time_is_a_local_time_with_uhr() {
    let t = current_time();
    assert!(t.ends_with(" Uhr"));
    // "%Y-%m-%d %H:%M:%S Uhr" for a four-digit year
    assert_eq!(t.len(), 23);
    assert_eq!(&t[4..5], "-");
    assert_eq!(&t[13..14], ":");
}

#[test]
fn config_paths_below_home() {
    assert_eq!(config_dir_path("/home/gruin"), "/home/gruin/.cervisia");
    assert_eq!(config_file_path("/home/gruin"), "/home/gruin/.cervisia/Settings.toml");
    assert_eq!(config_file_path("/home/gruin/"), "/home/gruin/.cervisia/Settings.toml");
    assert_eq!(config_file_path("/"), "/.cervisia/Settings.toml");
    assert_eq!(config_file_path(""), ".cervisia/Settings.toml");
}

#[test]
fn join_matches_path_buf_push() {
    for (base, part) in [("/a", "b"), ("/a/", "b"), ("", "b"), ("rel", "x.toml"), ("/", ".c")] {
        let mut p = std::path::PathBuf::from(base);
        p.push(part);
        assert_eq!(join(base, part), p.to_str().unwrap());
    }
}

#[test]
fn util_page_rows_are_numbered_from_one() {
    let rows = util_page_entries();
    let expected = [
        (1u32, "Michel", false),
        (2, "Sara", true),
        (3, "Liam", true),
        (4, "Zelda", false),
        (5, "Neo", false),
        (6, "Octopus master", true),
    ];
    assert_eq!(rows.len(), expected.len());
    for (row, exp) in rows.iter().zip(expected.iter()) {
        assert_eq!(row.0, exp.0);
        assert_eq!(row.1, exp.1);
        assert_eq!(row.2, exp.2);
    }
}

#[test]
fn toggling_a_check_box_flips_it() {
    assert!(toggled(false));
    assert!(!toggled(true));
    assert!(!toggled(toggled(false)));
}

#[test]
fn assistant_dialogues_exist() {
    let dialogues = [
        AssistantDialogue::Donation,
        AssistantDialogue::UserAdministration,
        AssistantDialogue::ItemAdministration,
    ];
    assert_eq!(dialogues.len(), 3);
}
