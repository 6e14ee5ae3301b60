//! The in-memory beer-list backend of `rustix_bl` (0.3.4, with its `TransientPersister`).
//!
//! The functions here make the calls into `rustix_bl` and `suffix_rs`; their contracts
//! are taken as given, not proved. They are written over the models below, each of
//! which names one part of the backend's datastore that the rest of the crate reads.
use rustix_bl::datastore::Purchase;
use rustix_bl::datastore::Purchaseable;
use rustix_bl::persistencer::TransientPersister;
use rustix_bl::rustix_backend::RustixBackend;
use rustix_bl::rustix_backend::WriteBackend;
use suffix_rs::KDTree;
use vstd::prelude::*;

verus! {

/// A transient `rustix_bl` backend (`RustixBackend<TransientPersister>`).
///
/// Verus cannot declare `RustixBackend` itself (its parameter is bounded by traits of
/// `rustix_bl`), so the backend is held here, opaque, and read through the models below.
#[verifier::external_body]
pub struct Backend {
    inner: RustixBackend<TransientPersister>,
}

/// A purchase as the datastore lists it: its unique id and, for a simple purchase,
/// `Some((consumer_id, item_id, timestamp))`; `None` stands for the other variant of
/// `rustix_bl::datastore::Purchase` (`UndoPurchase`), which no event of this version adds.
pub type PurchaseEntry = (u64, Option<(u32, u32, i64)>);

/// `datastore.users`: user id to user name.
pub uninterp spec fn users_of(b: Backend) -> Map<u32, Seq<char>>;

/// `datastore.items`: item id to (item name, `cost_cents`).
pub uninterp spec fn items_of(b: Backend) -> Map<u32, (Seq<char>, u32)>;

/// `datastore.purchases`, in order.
pub uninterp spec fn purchases_of(b: Backend) -> Seq<PurchaseEntry>;

/// `datastore.top_users`.
pub uninterp spec fn top_users_of(b: Backend) -> Set<u32>;

/// `datastore.top_drinks_per_user`.
pub uninterp spec fn top_drinks_of(b: Backend) -> Map<u32, Set<u32>>;

/// The texts that `datastore.users_suffix_tree` searches, by user id.
pub uninterp spec fn search_index_of(b: Backend) -> Map<u32, Seq<char>>;

/// `datastore.balance_cost_per_user`, flattened: (user id, item id) to cents.
pub uninterp spec fn costs_of(b: Backend) -> Map<(u32, u32), u32>;

/// `datastore.balance_count_per_user`, flattened: (user id, item id) to count.
pub uninterp spec fn counts_of(b: Backend) -> Map<(u32, u32), u32>;

/// The counters: (`persistencer.events_stored`, `datastore.user_id_counter`,
/// `datastore.item_id_counter`, `datastore.purchase_count`).
pub uninterp spec fn counters_of(b: Backend) -> (u32, u32, u32, u64);

/// `persistencer.config.users_in_top_users`: how many users the backend keeps as top
/// users at most.
pub uninterp spec fn top_limit_of(b: Backend) -> nat;

/// `datastore.items`: item id to the item's `category`.
pub uninterp spec fn item_categories_of(b: Backend) -> Map<u32, Option<Seq<char>>>;

/// Whether `datastore.users_suffix_tree` was built to ignore case (`!case_sensitive`).
pub uninterp spec fn search_ignores_case_of(b: Backend) -> bool;

/// `str::to_lowercase`: the lower-case form of a text.
pub uninterp spec fn lowercase(s: Seq<char>) -> Seq<char>;

/// A category as text.
pub open spec fn category_view(c: Option<String>) -> Option<Seq<char>> {
    match c {
        Some(s) => Some(s@),
        None => None,
    }
}

/// `query` occurs in `text` as a run of consecutive characters (the empty query
/// occurs in every text).
pub open spec fn has_substring(text: Seq<char>, query: Seq<char>) -> bool {
    exists|i: int| 0 <= i && i + query.len() <= text.len() && #[trigger] text.subrange(
        i,
        i + query.len(),
    ) == query
}

/// The elements of `s` grow strictly from first to last.
pub open spec fn strictly_increasing(s: Seq<u32>) -> bool {
    forall|i: int, j: int| 0 <= i < j < s.len() ==> s[i] < s[j]
}

/// `hits` are the ids of `index` whose texts hold `query`, each once, in increasing order.
pub open spec fn is_search_result(index: Map<u32, Seq<char>>, query: Seq<char>, hits: Seq<u32>) -> bool {
    &&& strictly_increasing(hits)
    &&& forall|id: u32| #[trigger] hits.contains(id) <==> index.dom().contains(id) && has_substring(
        index[id],
        query,
    )
}

/// The query as the user search tree compares it: lower-cased where the tree ignores
/// case.
pub open spec fn search_query(b: Backend, query: Seq<char>) -> Seq<char> {
    if search_ignores_case_of(b) {
        lowercase(query)
    } else {
        query
    }
}

/// The greatest score held in `datastore.top_user_scores` and in any tree of
/// `datastore.drink_scores_per_user` (0 when they hold none).
pub uninterp spec fn max_score_of(b: Backend) -> nat;

/// The consumer of a simple purchase.
pub open spec fn entry_user(e: PurchaseEntry) -> u32 {
    match e.1 {
        Some(p) => p.0,
        None => 0,
    }
}

/// The item of a simple purchase.
pub open spec fn entry_item(e: PurchaseEntry) -> u32 {
    match e.1 {
        Some(p) => p.1,
        None => 0,
    }
}

/// The timestamp of a simple purchase.
pub open spec fn entry_time(e: PurchaseEntry) -> i64 {
    match e.1 {
        Some(p) => p.2,
        None => 0,
    }
}

/// `k` is the first position of `log` whose purchase has the id `id`.
pub open spec fn first_with_id(log: Seq<PurchaseEntry>, id: u64, k: int) -> bool {
    &&& 0 <= k < log.len()
    &&& log[k].0 == id
    &&& forall|j: int| 0 <= j < k ==> log[j].0 != id
}

/// The first position of `log` whose purchase has the id `id`, where there is one.
pub open spec fn first_index(log: Seq<PurchaseEntry>, id: u64) -> int {
    choose|k: int| first_with_id(log, id, k)
}

/// `k` is the first position of `log` that holds a simple purchase with the id `id`.
pub open spec fn first_simple_with_id(log: Seq<PurchaseEntry>, id: u64, k: int) -> bool {
    &&& 0 <= k < log.len()
    &&& log[k].0 == id
    &&& log[k].1 is Some
    &&& forall|j: int| 0 <= j < k ==> !(log[j].0 == id && log[j].1 is Some)
}

/// What `costs_of` or `counts_of` holds for a pair, 0 where it holds nothing.
pub open spec fn tally(m: Map<(u32, u32), u32>, user: u32, item: u32) -> nat {
    if m.dom().contains((user, item)) {
        m[(user, item)] as nat
    } else {
        0
    }
}

/// `rustix_bl::build_transient_backend_with`: an empty datastore and a
/// `TransientPersister` whose event counter is 0.
#[verifier::external_body]
pub(crate) fn new_backend(users_per_page: u8, top_users: u8) -> (b: Backend)
    ensures
        users_of(b).dom().is_empty(),
        items_of(b).dom().is_empty(),
        purchases_of(b).len() == 0,
        top_users_of(b).is_empty(),
        top_drinks_of(b).dom().is_empty(),
        search_index_of(b).dom().is_empty(),
        costs_of(b).dom().is_empty(),
        counts_of(b).dom().is_empty(),
        counters_of(b) == (0u32, 0u32, 0u32, 0u64),
        max_score_of(b) == 0,
        top_limit_of(b) == top_users as nat,
        item_categories_of(b).dom().is_empty(),
        !search_ignores_case_of(b),
{
    Backend { inner: rustix_bl::build_transient_backend_with(users_per_page, top_users) }
}

/// `WriteBackend::create_user`: always applies. It stores the user under the next
/// user id, gives the user an empty set of top drinks and scores of 0, rebuilds the
/// search tree from all users (ignoring case: each user's name in lower case), takes
/// the top users anew (at most `top_limit_of` of them) and counts one event; it adds
/// new scores of 0 only, so the greatest score does not grow. The counters are `u32`
/// and overflow (panic) at their maximum, which `requires` leaves out. Not stated:
/// which users are the top users.
#[verifier::external_body]
pub(crate) fn create_user(b: &mut Backend, username: String) -> (r: bool)
    requires
        counters_of(*old(b)).0 < u32::MAX,
        counters_of(*old(b)).1 < u32::MAX,
    ensures
        r,
        users_of(*final(b)) == users_of(*old(b)).insert(counters_of(*old(b)).1, username@),
        items_of(*final(b)) == items_of(*old(b)),
        purchases_of(*final(b)) == purchases_of(*old(b)),
        top_drinks_of(*final(b)) == top_drinks_of(*old(b)).insert(
            counters_of(*old(b)).1,
            Set::empty(),
        ),
        search_index_of(*final(b)) == users_of(*final(b)).map_values(|n: Seq<char>| lowercase(n)),
        search_ignores_case_of(*final(b)),
        top_users_of(*final(b)).finite(),
        top_users_of(*final(b)).len() <= top_limit_of(*final(b)),
        top_limit_of(*final(b)) == top_limit_of(*old(b)),
        item_categories_of(*final(b)) == item_categories_of(*old(b)),
        costs_of(*final(b)) == costs_of(*old(b)),
        counts_of(*final(b)) == counts_of(*old(b)),
        counters_of(*final(b)) == (
            (counters_of(*old(b)).0 + 1) as u32,
            (counters_of(*old(b)).1 + 1) as u32,
            counters_of(*old(b)).2,
            counters_of(*old(b)).3,
        ),
        max_score_of(*final(b)) <= max_score_of(*old(b)),
{
    b.inner.create_user(username)
}

/// `WriteBackend::create_item`: always applies. It stores the item under the next
/// item id, adds it with score 0 to every user's drink scores and counts one event.
/// The counters overflow (panic) at their maximum, which `requires` leaves out.
#[verifier::external_body]
pub(crate) fn create_item(
    b: &mut Backend,
    itemname: String,
    price_cents: u32,
    category: Option<String>,
) -> (r: bool)
    requires
        counters_of(*old(b)).0 < u32::MAX,
        counters_of(*old(b)).2 < u32::MAX,
    ensures
        r,
        users_of(*final(b)) == users_of(*old(b)),
        items_of(*final(b)) == items_of(*old(b)).insert(
            counters_of(*old(b)).2,
            (itemname@, price_cents),
        ),
        purchases_of(*final(b)) == purchases_of(*old(b)),
        top_users_of(*final(b)) == top_users_of(*old(b)),
        top_drinks_of(*final(b)) == top_drinks_of(*old(b)),
        search_index_of(*final(b)) == search_index_of(*old(b)),
        search_ignores_case_of(*final(b)) == search_ignores_case_of(*old(b)),
        top_limit_of(*final(b)) == top_limit_of(*old(b)),
        item_categories_of(*final(b)) == item_categories_of(*old(b)).insert(
            counters_of(*old(b)).2,
            category_view(category),
        ),
        costs_of(*final(b)) == costs_of(*old(b)),
        counts_of(*final(b)) == counts_of(*old(b)),
        counters_of(*final(b)) == (
            (counters_of(*old(b)).0 + 1) as u32,
            counters_of(*old(b)).1,
            (counters_of(*old(b)).2 + 1) as u32,
            counters_of(*old(b)).3,
        ),
        max_score_of(*final(b)) <= max_score_of(*old(b)),
{
    b.inner.create_item(itemname, price_cents, category)
}

/// `WriteBackend::purchase`. Where the user or the item is unknown nothing happens
/// and the result is `false`. Otherwise it appends a simple purchase with the id
/// `purchase_count + 1`, raises the pair's cost tally by the item's price and its count
/// tally by one, raises the user's score and the pair's drink score by one and counts
/// one event; where the user was not among the top users, it takes them anew (at most
/// `top_limit_of`). The result tells whether the user has just entered the top users.
/// Every one of these additions panics on overflow, which `requires` leaves out.
/// Not stated: the new top users and top drinks beyond that.
#[verifier::external_body]
pub(crate) fn purchase(b: &mut Backend, user_id: u32, item_id: u32, timestamp: i64) -> (r: bool)
    requires
        counters_of(*old(b)).0 < u32::MAX,
        users_of(*old(b)).dom().contains(user_id) && items_of(*old(b)).dom().contains(item_id)
            ==> {
            &&& counters_of(*old(b)).3 < u64::MAX
            &&& max_score_of(*old(b)) < u32::MAX
            &&& tally(costs_of(*old(b)), user_id, item_id) + items_of(*old(b))[item_id].1
                <= u32::MAX
            &&& tally(counts_of(*old(b)), user_id, item_id) < u32::MAX
        },
    ensures
        !(users_of(*old(b)).dom().contains(user_id) && items_of(*old(b)).dom().contains(item_id))
            ==> !r && *final(b) == *old(b),
        users_of(*old(b)).dom().contains(user_id) && items_of(*old(b)).dom().contains(item_id)
            ==> {
            &&& users_of(*final(b)) == users_of(*old(b))
            &&& items_of(*final(b)) == items_of(*old(b))
            &&& purchases_of(*final(b)) == purchases_of(*old(b)).push(
                ((counters_of(*old(b)).3 + 1) as u64, Some((user_id, item_id, timestamp))),
            )
            &&& top_drinks_of(*final(b)).dom() == top_drinks_of(*old(b)).dom()
            &&& search_index_of(*final(b)) == search_index_of(*old(b))
            &&& search_ignores_case_of(*final(b)) == search_ignores_case_of(*old(b))
            &&& top_limit_of(*final(b)) == top_limit_of(*old(b))
            &&& item_categories_of(*final(b)) == item_categories_of(*old(b))
            &&& top_users_of(*old(b)).finite() && top_users_of(*old(b)).len() <= top_limit_of(
                *old(b),
            ) ==> top_users_of(*final(b)).finite() && top_users_of(*final(b)).len()
                <= top_limit_of(*final(b))
            &&& costs_of(*final(b)) == costs_of(*old(b)).insert(
                (user_id, item_id),
                (tally(costs_of(*old(b)), user_id, item_id) + items_of(*old(b))[item_id].1) as u32,
            )
            &&& counts_of(*final(b)) == counts_of(*old(b)).insert(
                (user_id, item_id),
                (tally(counts_of(*old(b)), user_id, item_id) + 1) as u32,
            )
            &&& counters_of(*final(b)) == (
                (counters_of(*old(b)).0 + 1) as u32,
                counters_of(*old(b)).1,
                counters_of(*old(b)).2,
                (counters_of(*old(b)).3 + 1) as u64,
            )
            &&& max_score_of(*final(b)) <= max_score_of(*old(b)) + 1
            &&& r == (!top_users_of(*old(b)).contains(user_id)
                && top_users_of(*final(b)).contains(user_id))
        },
{
    b.inner.purchase(user_id, item_id, timestamp)
}

/// `WriteBackend::undo_purchase`. Where `unique_id` exceeds `purchase_count` nothing
/// happens and the result is `false`. Otherwise it removes the first purchase with
/// that id, lowers the pair's cost tally and count tally by one each, counts one
/// event, and tells whether the removed purchase was the last one. It panics where no
/// purchase has that id, where that purchase is not a simple one, where a tally of
/// the pair is missing or 0, and where the event counter overflows: `requires` leaves
/// those out.
#[verifier::external_body]
pub(crate) fn undo_purchase(b: &mut Backend, unique_id: u64) -> (r: bool)
    requires
        counters_of(*old(b)).0 < u32::MAX,
        unique_id <= counters_of(*old(b)).3 ==> {
            let log = purchases_of(*old(b));
            let k = first_index(log, unique_id);
            &&& exists|j: int| first_with_id(log, unique_id, j)
            &&& log[k].1 is Some
            &&& tally(costs_of(*old(b)), entry_user(log[k]), entry_item(log[k])) >= 1
            &&& tally(counts_of(*old(b)), entry_user(log[k]), entry_item(log[k])) >= 1
        },
    ensures
        unique_id > counters_of(*old(b)).3 ==> !r && *final(b) == *old(b),
        unique_id <= counters_of(*old(b)).3 ==> {
            let log = purchases_of(*old(b));
            let k = first_index(log, unique_id);
            let u = entry_user(log[k]);
            let i = entry_item(log[k]);
            &&& users_of(*final(b)) == users_of(*old(b))
            &&& items_of(*final(b)) == items_of(*old(b))
            &&& purchases_of(*final(b)) == log.remove(k)
            &&& top_users_of(*final(b)) == top_users_of(*old(b))
            &&& top_drinks_of(*final(b)) == top_drinks_of(*old(b))
            &&& search_index_of(*final(b)) == search_index_of(*old(b))
            &&& search_ignores_case_of(*final(b)) == search_ignores_case_of(*old(b))
            &&& top_limit_of(*final(b)) == top_limit_of(*old(b))
            &&& item_categories_of(*final(b)) == item_categories_of(*old(b))
            &&& costs_of(*final(b)) == costs_of(*old(b)).insert(
                (u, i),
                (costs_of(*old(b))[(u, i)] - 1) as u32,
            )
            &&& counts_of(*final(b)) == counts_of(*old(b)).insert(
                (u, i),
                (counts_of(*old(b))[(u, i)] - 1) as u32,
            )
            &&& counters_of(*final(b)) == (
                (counters_of(*old(b)).0 + 1) as u32,
                counters_of(*old(b)).1,
                counters_of(*old(b)).2,
                counters_of(*old(b)).3,
            )
            &&& max_score_of(*final(b)) == max_score_of(*old(b))
            &&& r == (k == log.len() - 1)
        },
{
    b.inner.undo_purchase(unique_id)
}

/// `Purchaseable::get_purchase` on the datastore: the first simple purchase with the
/// id `unique_id`, as (id, consumer id, item id, timestamp), or `None` where there is none.
#[verifier::external_body]
pub(crate) fn get_purchase(b: &Backend, unique_id: u64) -> (r: Option<(u64, u32, u32, i64)>)
    ensures
        r is Some <==> exists|k: int| first_simple_with_id(purchases_of(*b), unique_id, k),
        r matches Some(p) ==> exists|k: int| {
            &&& first_simple_with_id(purchases_of(*b), unique_id, k)
            &&& p == (unique_id, entry_user(purchases_of(*b)[k]), entry_item(purchases_of(*b)[k]),
                entry_time(purchases_of(*b)[k]))
        },
{
    match b.inner.datastore.get_purchase(unique_id) {
        Some(Purchase::SimplePurchase { unique_id, timestamp_epoch_millis, item_id, consumer_id }) =>
            Some((unique_id, consumer_id, item_id, timestamp_epoch_millis)),
        Some(Purchase::UndoPurchase { .. }) => None,
        None => None,
    }
}

/// The name of the user `user_id` in `datastore.users`, where there is such a user.
#[verifier::external_body]
pub(crate) fn username(b: &Backend, user_id: u32) -> (r: Option<String>)
    ensures
        r is Some <==> users_of(*b).dom().contains(user_id),
        r matches Some(s) ==> s@ == users_of(*b)[user_id],
{
    b.inner.datastore.users.get(&user_id).map(|u| u.username.clone())
}

/// The name and price of the item `item_id` in `datastore.items`, where there is one.
#[verifier::external_body]
pub(crate) fn item_entry(b: &Backend, item_id: u32) -> (r: Option<(String, u32)>)
    ensures
        r is Some <==> items_of(*b).dom().contains(item_id),
        r matches Some(e) ==> e.0@ == items_of(*b)[item_id].0 && e.1 == items_of(*b)[item_id].1,
{
    match b.inner.datastore.items.get(&item_id) {
        Some(item) => Some((item.name.clone(), item.cost_cents)),
        None => None,
    }
}

/// The ids of `datastore.top_users`, each once, in the order in which the hash set
/// hands them out (which is not stated).
#[verifier::external_body]
pub(crate) fn top_users(b: &Backend) -> (r: Vec<u32>)
    ensures
        r@.to_set() == top_users_of(*b),
        r@.no_duplicates(),
{
    b.inner.datastore.top_users.iter().copied().collect()
}

/// The item ids in `datastore.top_drinks_per_user` for the user, each once, in the
/// order in which the hash set hands them out (not stated); `None` where the map has
/// no entry for the user.
#[verifier::external_body]
pub(crate) fn top_drinks(b: &Backend, user_id: u32) -> (r: Option<Vec<u32>>)
    ensures
        r is Some <==> top_drinks_of(*b).dom().contains(user_id),
        r matches Some(v) ==> v@.to_set() == top_drinks_of(*b)[user_id] && v@.no_duplicates(),
{
    match b.inner.datastore.top_drinks_per_user.get(&user_id) {
        Some(set) => Some(set.iter().copied().collect()),
        None => None,
    }
}

/// `KDTree::search` on `datastore.users_suffix_tree`, reduced to the user ids of the
/// hits. The tree lower-cases the query where it ignores case, and finds the ids
/// whose texts hold the query as a substring (`str::find`); it sorts its hits by id
/// and holds one text per id, so the ids come out strictly increasing.
#[verifier::external_body]
pub(crate) fn search_users(b: &Backend, query: &str) -> (r: Vec<u32>)
    ensures
        is_search_result(search_index_of(*b), search_query(*b, query@), r@),
{
    b.inner.datastore.users_suffix_tree.search(query).iter().map(|hit| hit.id).collect()
}

/// The counters named by `counters_of`.
#[verifier::external_body]
pub(crate) fn counters(b: &Backend) -> (r: (u32, u32, u32, u64))
    ensures
        r == counters_of(*b),
{
    let ds = &b.inner.datastore;
    (b.inner.persistencer.events_stored, ds.user_id_counter, ds.item_id_counter, ds.purchase_count)
}

/// The cost tally and the count tally of a (user, item) pair, where the datastore
/// holds them.
#[verifier::external_body]
pub(crate) fn tallies(b: &Backend, user_id: u32, item_id: u32) -> (r: (Option<u32>, Option<u32>))
    ensures
        r.0 is Some <==> costs_of(*b).dom().contains((user_id, item_id)),
        r.0 matches Some(c) ==> c == costs_of(*b)[(user_id, item_id)],
        r.1 is Some <==> counts_of(*b).dom().contains((user_id, item_id)),
        r.1 matches Some(c) ==> c == counts_of(*b)[(user_id, item_id)],
{
    let ds = &b.inner.datastore;
    let cost = match ds.balance_cost_per_user.get(&user_id) { Some(m) => m.get(&item_id).copied(), None => None };
    let count = match ds.balance_count_per_user.get(&user_id) { Some(m) => m.get(&item_id).copied(), None => None };
    (cost, count)
}

} // verus!
