//! What the windows of the application show, and how input changes it.
//!
//! `Cervisia` holds the beer list together with everything the user window, the
//! quick menu and the purchase log display: which users and items the buttons stand
//! for, their labels and visibility, the selected user and purchase, and the rows of
//! the purchase log. The handlers below take one input each and compute the next
//! state; the windows are drawn from that state.
use crate::beerlist::{has_purchase, position_of, user_search_hits, Beerlist};
use crate::laws::law_priced_purchase_undoable;
use crate::clock::{local_stamp, CLOCK_LIMIT, local_time_label, now_epoch_seconds, now_label};
use crate::rustix::{entry_item, entry_user, tally};
use crate::text::{no_purchases_label, no_purchases_text, purchase_label, purchase_text};
use vstd::prelude::*;

verus! {

/// Number of user buttons on one page of the user window.
pub const NUMBER_OF_USERS_PER_PAGE: u8 = 40;

/// The purchase log keeps at most this many rows.
pub const SIZE_OF_PURCHASE_LOG: u16 = 100;

/// Number of item buttons in the quick menu.
pub const QUICKMENU_ITEM_BUTTONS: usize = 4;

/// A button: whether it is shown, and its label.
pub struct ButtonState {
    pub visible: bool,
    pub label: String,
}

/// A row of the purchase log. Its columns, in order: the timestamp, the item's name,
/// the user's name and the purchase id.
pub struct LogRow {
    pub timestamp: i64,
    pub item: String,
    pub user: String,
    pub purchase_id: u64,
}

/// The state of the application's windows, with the beer list behind them.
pub struct Cervisia {
    pub beerlist: Beerlist,
    /// The user whose quick menu was opened last.
    pub user_selected: Option<u32>,
    /// The purchase selected in the purchase log.
    pub purchase_selected: Option<u64>,
    /// The users that the user buttons stand for, in button order.
    pub users_on_screen: Vec<u32>,
    /// The items that the quick menu's item buttons stand for, in button order.
    pub items_on_screen: Vec<u32>,
    pub user_buttons: Vec<ButtonState>,
    pub action_bar_visible: bool,
    pub quickmenu_buttons: Vec<ButtonState>,
    /// The rows of the purchase log, oldest first.
    pub purchase_log: Vec<LogRow>,
    /// The label of the button that opens the purchase log.
    pub log_button_label: String,
    pub log_upper_label: String,
    pub log_lower_label: String,
    pub undo_enabled: bool,
}

/// A log row as values, column by column: (timestamp, item name, user name, purchase id).
pub open spec fn row_view(r: LogRow) -> (i64, Seq<char>, Seq<char>, u64) {
    (r.timestamp, r.item@, r.user@, r.purchase_id)
}

/// The rows of a purchase log as values.
pub open spec fn log_view(log: Seq<LogRow>) -> Seq<(i64, Seq<char>, Seq<char>, u64)> {
    log.map_values(|r: LogRow| row_view(r))
}

/// A log with a row appended, keeping the newest `SIZE_OF_PURCHASE_LOG` rows.
pub open spec fn keep_recent<T>(log: Seq<T>) -> Seq<T> {
    if log.len() > SIZE_OF_PURCHASE_LOG {
        log.drop_first()
    } else {
        log
    }
}

/// The name shown for the user `id`: its name, or nothing where there is no such user.
pub open spec fn shown_user(users: Map<u32, Seq<char>>, id: u32) -> Seq<char> {
    if users.dom().contains(id) {
        users[id]
    } else {
        Seq::empty()
    }
}

/// The name shown for the item `id`: its name, or nothing where there is no such item.
pub open spec fn shown_item(items: Map<u32, (Seq<char>, u32)>, id: u32) -> Seq<char> {
    if items.dom().contains(id) {
        items[id].0
    } else {
        Seq::empty()
    }
}

/// The first `n` elements of `s`, or all of them where it is shorter.
pub open spec fn prefix<T>(s: Seq<T>, n: nat) -> Seq<T> {
    if s.len() <= n {
        s
    } else {
        s.take(n as int)
    }
}

/// `buttons` show the first `shown.len()` of them labelled with `label(id)` for the
/// id at their position, and hide the others, which keep their labels from `before`.
pub open spec fn buttons_show(
    buttons: Seq<ButtonState>,
    before: Seq<ButtonState>,
    shown: Seq<u32>,
    label: spec_fn(u32) -> Seq<char>,
) -> bool {
    &&& buttons.len() == before.len()
    &&& forall|i: int| 0 <= i < buttons.len() ==> (#[trigger] buttons[i]).visible == (i < shown.len())
    &&& forall|i: int| 0 <= i < buttons.len() && i < shown.len() ==> (#[trigger] buttons[i]).label@
        == label(shown[i])
    &&& forall|i: int| 0 <= i < buttons.len() && i >= shown.len() ==> (#[trigger] buttons[i]).label@
        == before[i].label@
}

impl Cervisia {
    /// The well-formedness of the windows' state: the beer list is well formed and
    /// keeps no more top users than a page holds, there are as many user buttons as a
    /// page holds and four item buttons, at most four items are on screen, and the
    /// purchase log keeps at most `SIZE_OF_PURCHASE_LOG` rows.
    pub open spec fn wf(self) -> bool {
        &&& self.beerlist.wf()
        &&& self.beerlist.top_limit() <= NUMBER_OF_USERS_PER_PAGE
        &&& self.user_buttons.len() == NUMBER_OF_USERS_PER_PAGE
        &&& self.quickmenu_buttons.len() == QUICKMENU_ITEM_BUTTONS
        &&& self.items_on_screen.len() <= QUICKMENU_ITEM_BUTTONS
        &&& self.purchase_log.len() <= SIZE_OF_PURCHASE_LOG
    }

    /// The user page is the same in `self` and `other`.
    pub open spec fn same_page(self, other: Self) -> bool {
        &&& self.users_on_screen@ == other.users_on_screen@
        &&& self.user_buttons@ == other.user_buttons@
        &&& self.action_bar_visible == other.action_bar_visible
    }

    /// The quick menu is the same in `self` and `other`.
    pub open spec fn same_quickmenu(self, other: Self) -> bool {
        &&& self.user_selected == other.user_selected
        &&& self.items_on_screen@ == other.items_on_screen@
        &&& self.quickmenu_buttons@ == other.quickmenu_buttons@
    }

    /// The purchase log and its button are the same in `self` and `other`.
    pub open spec fn same_log(self, other: Self) -> bool {
        &&& self.purchase_log@ == other.purchase_log@
        &&& self.log_button_label@ == other.log_button_label@
    }

    /// The selected purchase and what shows it are the same in `self` and `other`.
    pub open spec fn same_selection(self, other: Self) -> bool {
        &&& self.purchase_selected == other.purchase_selected
        &&& self.undo_enabled == other.undo_enabled
        &&& self.log_upper_label@ == other.log_upper_label@
        &&& self.log_lower_label@ == other.log_lower_label@
    }

    /// The windows as they open: nothing selected, every button hidden and unlabelled,
    /// the purchase log empty.
    pub fn new(beerlist: Beerlist) -> (r: Self)
        requires
            beerlist.wf(),
            beerlist.top_limit() <= NUMBER_OF_USERS_PER_PAGE,
        ensures
            r.wf(),
            r.beerlist == beerlist,
            r.user_selected is None,
            r.purchase_selected is None,
            r.users_on_screen@.len() == 0,
            r.items_on_screen@.len() == 0,
            forall|i: int| 0 <= i < r.user_buttons@.len() ==> !(#[trigger] r.user_buttons@[i]).visible
                && r.user_buttons@[i].label@.len() == 0,
            forall|i: int| 0 <= i < r.quickmenu_buttons@.len() ==> !(
            #[trigger] r.quickmenu_buttons@[i]).visible && r.quickmenu_buttons@[i].label@.len()
                == 0,
            !r.action_bar_visible,
            r.purchase_log@.len() == 0,
            r.log_button_label@.len() == 0,
            r.log_upper_label@.len() == 0,
            r.log_lower_label@.len() == 0,
            !r.undo_enabled,
    {
        let mut user_buttons: Vec<ButtonState> = Vec::new();
        while user_buttons.len() < NUMBER_OF_USERS_PER_PAGE as usize
            invariant
                user_buttons.len() <= NUMBER_OF_USERS_PER_PAGE,
                forall|i: int| 0 <= i < user_buttons@.len() ==> !(#[trigger] user_buttons@[i]).visible
                    && user_buttons@[i].label@.len() == 0,
            decreases NUMBER_OF_USERS_PER_PAGE - user_buttons.len(),
        {
            user_buttons.push(ButtonState { visible: false, label: String::new() });
        }
        let mut quickmenu_buttons: Vec<ButtonState> = Vec::new();
        while quickmenu_buttons.len() < QUICKMENU_ITEM_BUTTONS
            invariant
                quickmenu_buttons.len() <= QUICKMENU_ITEM_BUTTONS,
                forall|i: int| 0 <= i < quickmenu_buttons@.len() ==> !(
                #[trigger] quickmenu_buttons@[i]).visible && quickmenu_buttons@[i].label@.len()
                    == 0,
            decreases QUICKMENU_ITEM_BUTTONS - quickmenu_buttons.len(),
        {
            quickmenu_buttons.push(ButtonState { visible: false, label: String::new() });
        }
        Cervisia {
            beerlist,
            user_selected: None,
            purchase_selected: None,
            users_on_screen: Vec::new(),
            items_on_screen: Vec::new(),
            user_buttons,
            action_bar_visible: false,
            quickmenu_buttons,
            purchase_log: Vec::new(),
            log_button_label: String::new(),
            log_upper_label: String::new(),
            log_lower_label: String::new(),
            undo_enabled: false,
        }
    }
}

/// Puts `users` on the user page: the user buttons show the first of them, labelled
/// with their names, and hide the rest; the action bar is shown while searching.
pub fn show_users_on_screen(app: &mut Cervisia, users: Vec<u32>, searching: bool)
    requires
        old(app).wf(),
    ensures
        final(app).wf(),
        final(app).users_on_screen@ == users@,
        final(app).action_bar_visible == searching,
        buttons_show(
            final(app).user_buttons@,
            old(app).user_buttons@,
            users@,
            |id: u32| shown_user(old(app).beerlist.users(), id),
        ),
        final(app).beerlist == old(app).beerlist,
        final(app).same_quickmenu(*old(app)),
        final(app).same_log(*old(app)),
        final(app).same_selection(*old(app)),
{
    let ghost before = app.user_buttons@;
    let ghost names = app.beerlist.users();
    let ghost a0 = *app;
    let n = app.user_buttons.len();
    let mut i: usize = 0;
    while i < n
        invariant
            0 <= i <= n,
            app.beerlist == a0.beerlist,
            app.same_quickmenu(a0),
            app.same_log(a0),
            app.same_selection(a0),
            app.wf(),
            n == app.user_buttons@.len(),
            n == before.len(),
            names == app.beerlist.users(),
            forall|j: int| i <= j < n ==> app.user_buttons@[j] == before[j],
            forall|j: int| 0 <= j < i ==> (#[trigger] app.user_buttons@[j]).visible == (j < users@.len()),
            forall|j: int| 0 <= j < i && j < users@.len() ==> (#[trigger] app.user_buttons@[j]).label@
                == shown_user(names, users@[j]),
            forall|j: int| 0 <= j < i && j >= users@.len() ==> (#[trigger] app.user_buttons@[j]).label@
                == before[j].label@,
        decreases n - i,
    {
        if i < users.len() {
            let label = match app.beerlist.username(users[i]) {
                Some(name) => name,
                None => String::new(),
            };
            app.user_buttons.set(i, ButtonState { visible: true, label });
        } else {
            let label = app.user_buttons[i].label.clone();
            app.user_buttons.set(i, ButtonState { visible: false, label });
        }
        i = i + 1;
    }
    app.users_on_screen = users;
    app.action_bar_visible = searching;
}

/// The first page of `hits`: at most `NUMBER_OF_USERS_PER_PAGE` of them, in order.
pub fn first_page(hits: &Vec<u32>) -> (r: Vec<u32>)
    ensures
        r@ == prefix(hits@, NUMBER_OF_USERS_PER_PAGE as nat),
{
    let mut users: Vec<u32> = Vec::new();
    let mut i: usize = 0;
    while i < hits.len() && i < NUMBER_OF_USERS_PER_PAGE as usize
        invariant
            0 <= i <= hits@.len(),
            i <= NUMBER_OF_USERS_PER_PAGE,
            users@ == hits@.take(i as int),
        decreases hits@.len() - i,
    {
        users.push(hits[i]);
        i = i + 1;
    }
    proof {
        if hits@.len() <= NUMBER_OF_USERS_PER_PAGE {
            assert(hits@.take(hits@.len() as int) =~= hits@);
        }
    }
    users
}

/// The user page after it was filled for `term`: with the top users where the term
/// is empty (the action bar hidden), otherwise with the first page of the users whose
/// names hold the term, ignoring case, in increasing id order (the action bar shown);
/// each user button shows the name of its user, the other buttons are hidden.
pub open spec fn user_page_for(before: Cervisia, after: Cervisia, term: Seq<char>) -> bool {
    &&& term.len() == 0 ==> {
        &&& !after.action_bar_visible
        &&& after.users_on_screen@.to_set() == before.beerlist.top_user_set()
        &&& after.users_on_screen@.no_duplicates()
        &&& after.users_on_screen@.len() <= NUMBER_OF_USERS_PER_PAGE
    }
    &&& term.len() != 0 ==> {
        &&& after.action_bar_visible
        &&& after.users_on_screen@ == prefix(
            user_search_hits(before.beerlist.users(), term),
            NUMBER_OF_USERS_PER_PAGE as nat,
        )
    }
    &&& buttons_show(
        after.user_buttons@,
        before.user_buttons@,
        after.users_on_screen@,
        |id: u32| shown_user(before.beerlist.users(), id),
    )
    &&& after.beerlist == before.beerlist
    &&& after.same_quickmenu(before)
    &&& after.same_log(before)
    &&& after.same_selection(before)
}

/// Fills the user page for the search term (see `user_page_for`).
pub fn render_user_buttons(app: &mut Cervisia, searchterm: &str)
    requires
        old(app).wf(),
    ensures
        final(app).wf(),
        user_page_for(*old(app), *final(app), searchterm@),
{
    if searchterm.is_empty() {
        let users = app.beerlist.top_users_list();
        proof {
            users@.unique_seq_to_set();
        }
        show_users_on_screen(app, users, false);
    } else {
        let hits = app.beerlist.search_users(searchterm);
        let users = first_page(&hits);
        show_users_on_screen(app, users, true);
    }
}

/// Reacts to a change of the search bar's text: fills the user page for it (see
/// `user_page_for`).
pub fn search_entry_text_changed(app: &mut Cervisia, searchterm: &str)
    requires
        old(app).wf(),
    ensures
        final(app).wf(),
        user_page_for(*old(app), *final(app), searchterm@),
{
    render_user_buttons(app, searchterm);
}

/// Puts `drinks` into the quick menu: its item buttons stand for the first four of
/// them, labelled with their names, and the other buttons are hidden.
pub fn show_items_on_quickmenu(app: &mut Cervisia, drinks: Vec<u32>)
    requires
        old(app).wf(),
    ensures
        final(app).wf(),
        final(app).items_on_screen@ == prefix(drinks@, QUICKMENU_ITEM_BUTTONS as nat),
        buttons_show(
            final(app).quickmenu_buttons@,
            old(app).quickmenu_buttons@,
            final(app).items_on_screen@,
            |id: u32| shown_item(old(app).beerlist.items(), id),
        ),
        final(app).user_selected == old(app).user_selected,
        final(app).beerlist == old(app).beerlist,
        final(app).same_page(*old(app)),
        final(app).same_log(*old(app)),
        final(app).same_selection(*old(app)),
{
    let ghost before = app.quickmenu_buttons@;
    let ghost items = app.beerlist.items();
    let ghost a0 = *app;
    let mut shown: Vec<u32> = Vec::new();
    let mut i: usize = 0;
    while i < QUICKMENU_ITEM_BUTTONS
        invariant
            0 <= i <= QUICKMENU_ITEM_BUTTONS,
            app.beerlist == a0.beerlist,
            app.user_selected == a0.user_selected,
            app.items_on_screen@ == a0.items_on_screen@,
            app.same_page(a0),
            app.same_log(a0),
            app.same_selection(a0),
            app.wf(),
            shown@.len() <= i,
            app.quickmenu_buttons@.len() == QUICKMENU_ITEM_BUTTONS,
            before.len() == QUICKMENU_ITEM_BUTTONS,
            items == app.beerlist.items(),
            shown@ == prefix(drinks@, i as nat),
            forall|j: int| i <= j < QUICKMENU_ITEM_BUTTONS ==> app.quickmenu_buttons@[j] == before[j],
            forall|j: int| 0 <= j < i ==> (#[trigger] app.quickmenu_buttons@[j]).visible == (j
                < drinks@.len()),
            forall|j: int| 0 <= j < i && j < drinks@.len() ==> (
            #[trigger] app.quickmenu_buttons@[j]).label@ == shown_item(items, drinks@[j]),
            forall|j: int| 0 <= j < i && j >= drinks@.len() ==> (
            #[trigger] app.quickmenu_buttons@[j]).label@ == before[j].label@,
        decreases QUICKMENU_ITEM_BUTTONS - i,
    {
        if i < drinks.len() {
            let item_id = drinks[i];
            let label = match app.beerlist.item_name(item_id) {
                Some(name) => name,
                None => String::new(),
            };
            app.quickmenu_buttons.set(i, ButtonState { visible: true, label });
            shown.push(item_id);
            proof {
                assert(prefix(drinks@, (i + 1) as nat) == prefix(drinks@, i as nat).push(drinks@[i as int]));
            }
        } else {
            let label = app.quickmenu_buttons[i].label.clone();
            app.quickmenu_buttons.set(i, ButtonState { visible: false, label });
            proof {
                assert(prefix(drinks@, (i + 1) as nat) == prefix(drinks@, i as nat));
            }
        }
        i = i + 1;
    }
    app.items_on_screen = shown;
}

/// The quick menu after it was opened for `user_id`: its item buttons stand for as
/// many of the user's top drinks as fit (four at most), each once, labelled with their
/// names; the other item buttons are hidden.
pub open spec fn quickmenu_for(before: Cervisia, after: Cervisia, user_id: u32) -> bool {
    let drinks = before.beerlist.top_drink_sets()[user_id];
    &&& after.items_on_screen@.no_duplicates()
    &&& after.items_on_screen@.to_set().subset_of(drinks)
    &&& after.items_on_screen@.len() == if drinks.len() <= QUICKMENU_ITEM_BUTTONS {
        drinks.len()
    } else {
        QUICKMENU_ITEM_BUTTONS as nat
    }
    &&& buttons_show(
        after.quickmenu_buttons@,
        before.quickmenu_buttons@,
        after.items_on_screen@,
        |id: u32| shown_item(before.beerlist.items(), id),
    )
    &&& after.beerlist == before.beerlist
    &&& after.same_page(before)
    &&& after.same_log(before)
    &&& after.same_selection(before)
}

/// Opens the quick menu for `user_id`, whom the backend keeps top drinks for (see
/// `quickmenu_for`).
pub fn show_quickmenu(app: &mut Cervisia, user_id: u32)
    requires
        old(app).wf(),
        old(app).beerlist.top_drink_sets().dom().contains(user_id),
    ensures
        final(app).wf(),
        quickmenu_for(*old(app), *final(app), user_id),
        final(app).user_selected == old(app).user_selected,
{
    let drinks = match app.beerlist.top_drinks_list(user_id) {
        Some(v) => v,
        None => Vec::new(),
    };
    proof {
        assert(drinks@.no_duplicates());
        drinks@.unique_seq_to_set();
        if drinks@.len() > QUICKMENU_ITEM_BUTTONS {
            let p = drinks@.take(QUICKMENU_ITEM_BUTTONS as int);
            assert forall|a: int, b: int| 0 <= a < p.len() && 0 <= b < p.len() && a != b implies p[a]
                != p[b] by {
                assert(p[a] == drinks@[a] && p[b] == drinks@[b]);
            }
            assert forall|x: u32| p.to_set().contains(x) implies drinks@.to_set().contains(x) by {
                let a = choose|a: int| 0 <= a < p.len() && p[a] == x;
                assert(drinks@[a] == x);
            }
        }
    }
    show_items_on_quickmenu(app, drinks);
}

/// Reacts to the user button at `index`: selects its user and opens the quick menu
/// for them (see `quickmenu_for`).
pub fn user_btn_pressed(app: &mut Cervisia, index: usize)
    requires
        old(app).wf(),
        index < old(app).users_on_screen@.len(),
        old(app).beerlist.top_drink_sets().dom().contains(old(app).users_on_screen@[index as int]),
    ensures
        final(app).wf(),
        final(app).user_selected == Some(old(app).users_on_screen@[index as int]),
        quickmenu_for(*old(app), *final(app), old(app).users_on_screen@[index as int]),
{
    let user_id = app.users_on_screen[index];
    app.user_selected = Some(user_id);
    show_quickmenu(app, user_id);
}

/// Writes the purchase of `drink` by `user` into the purchase log: the log button shows
/// "User {user} bought 1 {drink} at {time}", and the row (`ts`, `drink`, `user`, `id`)
/// is appended to the log, whose oldest row goes where it would exceed
/// `SIZE_OF_PURCHASE_LOG` rows.
pub fn record_purchase(app: &mut Cervisia, user: &str, drink: &str, ts: i64, id: u64, time: &str)
    requires
        old(app).wf(),
    ensures
        final(app).wf(),
        final(app).log_button_label@ == purchase_text(user@, drink@, time@),
        log_view(final(app).purchase_log@) == keep_recent(
            log_view(old(app).purchase_log@).push((ts, drink@, user@, id)),
        ),
        final(app).beerlist == old(app).beerlist,
        final(app).same_page(*old(app)),
        final(app).same_quickmenu(*old(app)),
        final(app).same_selection(*old(app)),
{
    app.log_button_label = purchase_label(user, drink, time);
    let ghost before = app.purchase_log@;
    app.purchase_log.push(
        LogRow {
            timestamp: ts,
            user: String::from_str(user),
            item: String::from_str(drink),
            purchase_id: id,
        },
    );
    proof {
        assert(log_view(app.purchase_log@) =~= log_view(before).push((ts, drink@, user@, id)));
    }
    if app.purchase_log.len() > SIZE_OF_PURCHASE_LOG as usize {
        let ghost pushed = app.purchase_log@;
        let _oldest = app.purchase_log.remove(0);
        proof {
            assert(app.purchase_log@ =~= pushed.drop_first());
            assert(log_view(app.purchase_log@) =~= log_view(pushed).drop_first());
        }
    }
}

/// Writes the purchase of `drink` by `user` into the purchase log, with the local time
/// now in its label (see `record_purchase`).
pub fn render_last_purchase(app: &mut Cervisia, user: &str, drink: &str, ts: i64, id: u64)
    requires
        old(app).wf(),
    ensures
        final(app).wf(),
        exists|t: Seq<char>| t.len() >= 19 && final(app).log_button_label@ == purchase_text(user@, drink@, t),
        log_view(final(app).purchase_log@) == keep_recent(
            log_view(old(app).purchase_log@).push((ts, drink@, user@, id)),
        ),
        final(app).beerlist == old(app).beerlist,
        final(app).same_page(*old(app)),
        final(app).same_quickmenu(*old(app)),
        final(app).same_selection(*old(app)),
{
    let time = now_label();
    record_purchase(app, user, drink, ts, id, time.as_str());
}

/// The windows after `user_id` bought one `item_id` at `ts`: where the backend's
/// counters and tallies have room, the purchase is appended to the beer list under the
/// id `purchase_count + 1` (the pair's cost tally grows by the item's price, its count
/// tally by one, the event counter by one), the purchase log gets its row (with the user's and the
/// item's names) and the log button the label "User {user} bought 1 {item} at {time}";
/// otherwise nothing changes. The user page, the quick menu and the selection stay.
pub open spec fn purchase_rendered(
    before: Cervisia,
    after: Cervisia,
    user_id: u32,
    item_id: u32,
    ts: i64,
) -> bool {
    let fits = before.beerlist.purchase_fits(user_id, item_id);
    let id = (before.beerlist.purchase_count() + 1) as u64;
    let user = before.beerlist.users()[user_id];
    let drink = before.beerlist.items()[item_id].0;
    &&& fits ==> {
        &&& after.beerlist.log() == before.beerlist.log().push((id, Some((user_id, item_id, ts))))
        &&& after.beerlist.users() == before.beerlist.users()
        &&& after.beerlist.items() == before.beerlist.items()
        &&& after.beerlist.purchase_count() == id
        &&& after.beerlist.events() == before.beerlist.events() + 1
        &&& after.beerlist.next_user_id() == before.beerlist.next_user_id()
        &&& after.beerlist.next_item_id() == before.beerlist.next_item_id()
        &&& after.beerlist.costs() == before.beerlist.costs().insert(
            (user_id, item_id),
            (tally(before.beerlist.costs(), user_id, item_id) + before.beerlist.items()[item_id].1) as u32,
        )
        &&& after.beerlist.counts() == before.beerlist.counts().insert(
            (user_id, item_id),
            (tally(before.beerlist.counts(), user_id, item_id) + 1) as u32,
        )
        &&& after.beerlist.categories() == before.beerlist.categories()
        &&& after.beerlist.top_limit() == before.beerlist.top_limit()
        &&& log_view(after.purchase_log@) == keep_recent(
            log_view(before.purchase_log@).push((ts, drink, user, id)),
        )
        &&& exists|t: Seq<char>| t.len() >= 19 && after.log_button_label@ == purchase_text(user, drink, t)
    }
    &&& !fits ==> after.beerlist == before.beerlist && after.same_log(before)
    &&& after.same_page(before)
    &&& after.same_quickmenu(before)
    &&& after.same_selection(before)
}

/// Makes the purchase of `item_id` by `user_id` at `ts`, both of which exist (see
/// `purchase_rendered`).
pub fn finalize_purchase(app: &mut Cervisia, user_id: u32, item_id: u32, ts: i64)
    requires
        old(app).wf(),
        old(app).beerlist.purchase_applies(user_id, item_id),
    ensures
        final(app).wf(),
        purchase_rendered(*old(app), *final(app), user_id, item_id, ts),
{
    match app.beerlist.purchase(user_id, item_id, ts) {
        Some((id, _newly_top)) => {
            let user = match app.beerlist.username(user_id) {
                Some(name) => name,
                None => String::new(),
            };
            let drink = match app.beerlist.item_name(item_id) {
                Some(name) => name,
                None => String::new(),
            };
            render_last_purchase(app, user.as_str(), drink.as_str(), ts, id);
        },
        None => {},
    }
}

/// Queues the purchase of `item_id` by `user_id` at `ts`; it is made at once, with
/// the same effect as `finalize_purchase` (see `purchase_rendered`).
pub fn enqueue_purchase(app: &mut Cervisia, user_id: u32, item_id: u32, ts: i64)
    requires
        old(app).wf(),
        old(app).beerlist.purchase_applies(user_id, item_id),
    ensures
        final(app).wf(),
        purchase_rendered(*old(app), *final(app), user_id, item_id, ts),
{
    finalize_purchase(app, user_id, item_id, ts);
}

/// Reacts to the quick menu's item button at `index` at the time `epoch_seconds`:
/// where a user is selected, that user buys the button's item (see
/// `purchase_rendered`); otherwise nothing changes.
pub fn quickmenu_item_btn_pressed_at(app: &mut Cervisia, index: usize, epoch_seconds: i64)
    requires
        old(app).wf(),
        old(app).user_selected matches Some(user_id) ==> index < old(app).items_on_screen@.len()
            && old(app).beerlist.purchase_applies(user_id, old(app).items_on_screen@[index as int]),
    ensures
        final(app).wf(),
        old(app).user_selected matches Some(user_id) ==> purchase_rendered(
            *old(app),
            *final(app),
            user_id,
            old(app).items_on_screen@[index as int],
            epoch_seconds,
        ),
        old(app).user_selected is None ==> *final(app) == *old(app),
{
    match app.user_selected {
        Some(user_id) => {
            let item_id = app.items_on_screen[index];
            enqueue_purchase(app, user_id, item_id, epoch_seconds);
        },
        None => {},
    }
}

/// Reacts to the quick menu's item button at `index` now: where a user is selected,
/// that user buys the button's item at the current time, in seconds since the Unix
/// epoch as the clock reads them (see `purchase_rendered`); otherwise nothing changes.
pub fn quickmenu_item_btn_pressed(app: &mut Cervisia, index: usize)
    requires
        old(app).wf(),
        old(app).user_selected matches Some(user_id) ==> index < old(app).items_on_screen@.len()
            && old(app).beerlist.purchase_applies(user_id, old(app).items_on_screen@[index as int]),
    ensures
        final(app).wf(),
        old(app).user_selected matches Some(user_id) ==> exists|ts: i64| 0 <= ts < CLOCK_LIMIT && purchase_rendered(
            *old(app),
            *final(app),
            user_id,
            old(app).items_on_screen@[index as int],
            ts,
        ),
        old(app).user_selected is None ==> *final(app) == *old(app),
{
    let epoch_seconds = now_epoch_seconds();
    quickmenu_item_btn_pressed_at(app, index, epoch_seconds);
}

/// Reacts to the selection of the purchase `id` in the purchase log: it becomes the
/// selected purchase; where the beer list has it, the undo button is enabled and the
/// labels show its user's and its item's names.
pub fn handle_purchase_select(app: &mut Cervisia, id: u64)
    requires
        old(app).wf(),
    ensures
        final(app).wf(),
        final(app).purchase_selected == Some(id),
        has_purchase(old(app).beerlist.log(), id) ==> {
            let e = old(app).beerlist.log()[position_of(old(app).beerlist.log(), id)];
            &&& final(app).undo_enabled
            &&& final(app).log_upper_label@ == old(app).beerlist.users()[entry_user(e)]
            &&& final(app).log_lower_label@ == old(app).beerlist.items()[entry_item(e)].0
        },
        !has_purchase(old(app).beerlist.log(), id) ==> {
            &&& final(app).undo_enabled == old(app).undo_enabled
            &&& final(app).log_upper_label@ == old(app).log_upper_label@
            &&& final(app).log_lower_label@ == old(app).log_lower_label@
        },
        final(app).beerlist == old(app).beerlist,
        final(app).same_page(*old(app)),
        final(app).same_quickmenu(*old(app)),
        final(app).same_log(*old(app)),
{
    app.purchase_selected = Some(id);
    match app.beerlist.get_purchase(id) {
        Some(p) => {
            proof {
                let k = position_of(app.beerlist.log(), id);
                assert(0 <= k < app.beerlist.log().len() && app.beerlist.log()[k].0 == id);
            }
            app.undo_enabled = true;
            app.log_upper_label = match app.beerlist.username(p.1) {
                Some(name) => name,
                None => String::new(),
            };
            app.log_lower_label = match app.beerlist.item_name(p.2) {
                Some(name) => name,
                None => String::new(),
            };
        },
        None => {},
    }
}

/// Reacts to the purchase log losing its selection: nothing is selected, the undo
/// button is disabled and the labels are cleared.
pub fn handle_purchase_unselect(app: &mut Cervisia)
    requires
        old(app).wf(),
    ensures
        final(app).wf(),
        final(app).purchase_selected is None,
        !final(app).undo_enabled,
        final(app).log_upper_label@.len() == 0,
        final(app).log_lower_label@.len() == 0,
        final(app).beerlist == old(app).beerlist,
        final(app).same_page(*old(app)),
        final(app).same_quickmenu(*old(app)),
        final(app).same_log(*old(app)),
{
    app.purchase_selected = None;
    app.undo_enabled = false;
    app.log_upper_label = String::new();
    app.log_lower_label = String::new();
}

/// The position of the first row of `log` with the purchase id `id`.
pub open spec fn first_row_with(log: Seq<LogRow>, id: u64, k: int) -> bool {
    &&& 0 <= k < log.len()
    &&& log[k].purchase_id == id
    &&& forall|j: int| 0 <= j < k ==> log[j].purchase_id != id
}

/// Removes the first row of the purchase log with the purchase id `id`, where there
/// is one.
pub fn remove_log_row(app: &mut Cervisia, id: u64)
    requires
        old(app).wf(),
    ensures
        final(app).wf(),
        forall|k: int| first_row_with(old(app).purchase_log@, id, k) ==> final(app).purchase_log@
            == old(app).purchase_log@.remove(k),
        (forall|k: int| 0 <= k < old(app).purchase_log@.len() ==> old(app).purchase_log@[k].purchase_id != id) ==> final(app).purchase_log@ == old(app).purchase_log@,
        final(app).log_button_label@ == old(app).log_button_label@,
        final(app).beerlist == old(app).beerlist,
        final(app).same_page(*old(app)),
        final(app).same_quickmenu(*old(app)),
        final(app).same_selection(*old(app)),
{
    let ghost a0 = *app;
    let mut i: usize = 0;
    while i < app.purchase_log.len()
        invariant
            0 <= i <= app.purchase_log@.len(),
            *app == a0,
            a0 == *old(app),
            app.wf(),
            forall|j: int| 0 <= j < i ==> app.purchase_log@[j].purchase_id != id,
        decreases app.purchase_log@.len() - i,
    {
        if app.purchase_log[i].purchase_id == id {
            let ghost before = app.purchase_log@;
            let _row = app.purchase_log.remove(i);
            proof {
                assert(first_row_with(before, id, i as int));
                assert forall|k: int| first_row_with(before, id, k) implies k == i by {
                    if k < i {
                    } else if k > i {
                        assert(before[i as int].purchase_id == id);
                    }
                }
            }
            return;
        }
        i = i + 1;
    }
}

/// Writes the newest row of the purchase log into the label of the log button, with
/// its time in the local time zone; where the log is empty the label reads
/// "No purchases since last bill". The label takes the row's name columns in their
/// order, the first (the item's name) where the user's name stands and the second
/// (the user's name) where the drink's stands: "User {item} bought 1 {user} at {time}". Where chrono has no date for the row's timestamp
/// (beyond 8 * 10^12 seconds from the epoch) the label stays as it was.
pub fn refresh_purchase_label_from_newest_log_element(app: &mut Cervisia)
    requires
        old(app).wf(),
    ensures
        final(app).wf(),
        old(app).purchase_log@.len() == 0 ==> final(app).log_button_label@ == no_purchases_text(),
        old(app).purchase_log@.len() > 0 ==> {
            let newest = old(app).purchase_log@.last();
            ||| exists|t: Seq<char>| t.len() >= 19 && final(app).log_button_label@ == purchase_text(
                newest.item@,
                newest.user@,
                t,
            )
            ||| final(app).log_button_label@ == old(app).log_button_label@
        },
        old(app).purchase_log@.len() > 0 && -8_000_000_000_000
            <= old(app).purchase_log@.last().timestamp <= 8_000_000_000_000 ==> {
            let newest = old(app).purchase_log@.last();
            exists|t: Seq<char>| t.len() >= 19 && final(app).log_button_label@ == purchase_text(
                newest.item@,
                newest.user@,
                t,
            )
        },
        old(app).purchase_log@.len() > 0 && 0 <= old(app).purchase_log@.last().timestamp
            < 253_402_214_400 ==> {
            let newest = old(app).purchase_log@.last();
            exists|t: Seq<char>| local_stamp(newest.timestamp as int, t) && final(app).log_button_label@
                == purchase_text(newest.item@, newest.user@, t)
        },
        final(app).purchase_log@ == old(app).purchase_log@,
        final(app).beerlist == old(app).beerlist,
        final(app).same_page(*old(app)),
        final(app).same_quickmenu(*old(app)),
        final(app).same_selection(*old(app)),
{
    let n = app.purchase_log.len();
    if n == 0 {
        app.log_button_label = no_purchases_label();
    } else {
        let label = match local_time_label(app.purchase_log[n - 1].timestamp) {
            Some(time) => {
                let l = purchase_label(
                    app.purchase_log[n - 1].item.as_str(),
                    app.purchase_log[n - 1].user.as_str(),
                    time.as_str(),
                );
                assert(l@ == purchase_text(
                    app.purchase_log@.last().item@,
                    app.purchase_log@.last().user@,
                    time@,
                ));
                Some(l)
            },
            None => None,
        };
        match label {
            Some(l) => {
                app.log_button_label = l;
            },
            None => {},
        }
    }
}

/// The purchase `id`, which the beer list holds, is of an item that costs something.
pub open spec fn priced_purchase(bl: Beerlist, id: u64) -> bool {
    bl.items()[entry_item(bl.log()[position_of(bl.log(), id)])].1 >= 1
}

/// Reacts to the undo button. The selected purchase, where there is one, is one the
/// beer list holds, and the purchase log has rows. Where the beer list can undo it (see `Beerlist::undo_fits`; a
/// purchase of an item that costs something can be undone while the event counter has
/// room), it is undone, its first row leaves the purchase log (which stays as it was
/// where no row has its id), and the log button shows the newest remaining row, or
/// "No purchases since last bill" where none remains; otherwise nothing changes.
pub fn purchase_undo_handler(app: &mut Cervisia)
    requires
        old(app).wf(),
        old(app).purchase_selected matches Some(id) ==> has_purchase(old(app).beerlist.log(), id)
            && old(app).purchase_log@.len() > 0,
    ensures
        final(app).wf(),
        old(app).purchase_selected matches Some(id) ==> {
            &&& old(app).beerlist.events() < u32::MAX && priced_purchase(old(app).beerlist, id)
                ==> !has_purchase(final(app).beerlist.log(), id)
        },
        old(app).purchase_selected is Some && old(app).beerlist.undo_fits(
            old(app).purchase_selected->0,
        ) ==> {
            let id = old(app).purchase_selected->0;
            let rows = final(app).purchase_log@;
            &&& final(app).beerlist.log() == old(app).beerlist.log().remove(
                position_of(old(app).beerlist.log(), id),
            )
            &&& !has_purchase(final(app).beerlist.log(), id)
            &&& forall|k: int| first_row_with(old(app).purchase_log@, id, k) ==> rows
                == old(app).purchase_log@.remove(k)
            &&& (forall|k: int| 0 <= k < old(app).purchase_log@.len()
                ==> old(app).purchase_log@[k].purchase_id != id) ==> rows == old(app).purchase_log@
            &&& rows.len() == 0 ==> final(app).log_button_label@ == no_purchases_text()
            &&& rows.len() > 0 ==> {
                ||| exists|t: Seq<char>| t.len() >= 19 && final(app).log_button_label@ == purchase_text(
                    rows.last().item@,
                    rows.last().user@,
                    t,
                )
                ||| final(app).log_button_label@ == old(app).log_button_label@
            }
            &&& rows.len() > 0 && -8_000_000_000_000 <= rows.last().timestamp <= 8_000_000_000_000
                ==> exists|t: Seq<char>| t.len() >= 19 && final(app).log_button_label@ == purchase_text(
                rows.last().item@,
                rows.last().user@,
                t,
            )
            &&& rows.len() > 0 && 0 <= rows.last().timestamp < 253_402_214_400
                ==> exists|t: Seq<char>| local_stamp(rows.last().timestamp as int, t)
                && final(app).log_button_label@ == purchase_text(
                rows.last().item@,
                rows.last().user@,
                t,
            )
        },
        !(old(app).purchase_selected is Some && old(app).beerlist.undo_fits(
            old(app).purchase_selected->0,
        )) ==> final(app).beerlist == old(app).beerlist && final(app).same_log(*old(app)),
        final(app).same_page(*old(app)),
        final(app).same_quickmenu(*old(app)),
        final(app).same_selection(*old(app)),
{
    match app.purchase_selected {
        Some(id) => {
            proof {
                if app.beerlist.events() < u32::MAX && priced_purchase(app.beerlist, id) {
                    law_priced_purchase_undoable(app.beerlist, id);
                }
            }
            match app.beerlist.undo_purchase(id) {
                Some(_was_last) => {
                    remove_log_row(app, id);
                    refresh_purchase_label_from_newest_log_element(app);
                },
                None => {},
            }
        },
        None => {},
    }
}

} // verus!
