//! The beer list: users, items and their purchases, kept by the `rustix_bl` backend.
//!
//! `Beerlist` calls the backend only where the backend cannot panic: each operation
//! first reads the counters and tallies that the backend's additions depend on, and
//! refuses (changing nothing) where the backend would overflow or fail to find what
//! it removes.
use crate::rustix::{
    costs_of, counters, counters_of, counts_of, create_item, create_user, entry_item, entry_time,
    entry_user, first_index, first_simple_with_id, first_with_id, get_purchase, item_entry,
    items_of, max_score_of, new_backend, purchase, purchases_of, tallies, tally, top_users_of,
    undo_purchase, username, users_of, Backend, PurchaseEntry, top_users, top_drinks,
    top_drinks_of, search_users, search_index_of, top_limit_of, item_categories_of,
    search_ignores_case_of, lowercase, has_substring, strictly_increasing,
};
use vstd::prelude::*;

verus! {

/// The beer list of the application.
pub struct Beerlist {
    pub backend: Backend,
}

/// The ids of `log` grow strictly from first to last.
pub open spec fn ids_increasing(log: Seq<PurchaseEntry>) -> bool {
    forall|j: int, k: int| 0 <= j < k < log.len() ==> log[j].0 < log[k].0
}

/// Every purchase of `log` is a simple purchase.
pub open spec fn all_simple(log: Seq<PurchaseEntry>) -> bool {
    forall|k: int| 0 <= k < log.len() ==> (#[trigger] log[k]).1 is Some
}

/// `log` holds a purchase with the id `id`.
pub open spec fn has_purchase(log: Seq<PurchaseEntry>, id: u64) -> bool {
    exists|k: int| 0 <= k < log.len() && (#[trigger] log[k]).0 == id
}

/// The position of the purchase with the id `id` in a log whose ids are increasing.
pub open spec fn position_of(log: Seq<PurchaseEntry>, id: u64) -> int {
    choose|k: int| 0 <= k < log.len() && (#[trigger] log[k]).0 == id
}

/// One where `e` is a purchase of `item` by `user`, else none.
pub open spec fn pair_hit(e: PurchaseEntry, user: u32, item: u32) -> nat {
    if entry_user(e) == user && entry_item(e) == item {
        1
    } else {
        0
    }
}

/// How many purchases of `item` by `user` the log holds.
pub open spec fn pair_count(log: Seq<PurchaseEntry>, user: u32, item: u32) -> nat
    decreases log.len(),
{
    if log.len() == 0 {
        0
    } else {
        pair_count(log.drop_last(), user, item) + pair_hit(log.last(), user, item)
    }
}

/// `hits` are the ids of the users whose names hold the search term, ignoring case,
/// each once and in increasing order.
pub open spec fn user_search(users: Map<u32, Seq<char>>, term: Seq<char>, hits: Seq<u32>) -> bool {
    &&& strictly_increasing(hits)
    &&& forall|id: u32| #[trigger] hits.contains(id) <==> users.dom().contains(id) && has_substring(
        lowercase(users[id]),
        lowercase(term),
    )
}

/// The hits of the user search for `term` (there is one sequence of them at most: see
/// `lemma_increasing_same_members`).
pub open spec fn user_search_hits(users: Map<u32, Seq<char>>, term: Seq<char>) -> Seq<u32> {
    choose|hits: Seq<u32>| user_search(users, term, hits)
}

/// Appending a purchase counts it for its own pair and for no other.
pub proof fn lemma_pair_count_push(log: Seq<PurchaseEntry>, e: PurchaseEntry, user: u32, item: u32)
    ensures
        pair_count(log.push(e), user, item) == pair_count(log, user, item) + pair_hit(e, user, item),
{
    assert(log.push(e).drop_last() =~= log);
}

/// Removing the purchase at `k` uncounts it for its own pair and for no other.
pub proof fn lemma_pair_count_remove(log: Seq<PurchaseEntry>, k: int, user: u32, item: u32)
    requires
        0 <= k < log.len(),
    ensures
        pair_count(log, user, item) == pair_count(log.remove(k), user, item) + pair_hit(
            log[k],
            user,
            item,
        ),
    decreases log.len(),
{
    if k == log.len() - 1 {
        assert(log.remove(k) =~= log.drop_last());
    } else {
        lemma_pair_count_remove(log.drop_last(), k, user, item);
        assert(log.remove(k).drop_last() =~= log.drop_last().remove(k));
        assert(log.remove(k).last() == log.last());
    }
}

/// A log without purchases of `item` counts none for it.
pub proof fn lemma_pair_count_absent(log: Seq<PurchaseEntry>, user: u32, item: u32)
    requires
        forall|k: int| 0 <= k < log.len() ==> entry_item(#[trigger] log[k]) != item,
    ensures
        pair_count(log, user, item) == 0,
    decreases log.len(),
{
    if log.len() > 0 {
        let d = log.drop_last();
        assert forall|k: int| 0 <= k < d.len() implies entry_item(#[trigger] d[k]) != item by {
            assert(d[k] == log[k]);
        }
        lemma_pair_count_absent(d, user, item);
        assert(entry_item(log[log.len() - 1]) != item);
    }
}

/// Two strictly increasing sequences with the same members are equal.
pub proof fn lemma_increasing_same_members(a: Seq<u32>, b: Seq<u32>)
    requires
        strictly_increasing(a),
        strictly_increasing(b),
        forall|x: u32| a.contains(x) <==> b.contains(x),
    ensures
        a == b,
    decreases a.len(),
{
    if a.len() == 0 {
        if b.len() > 0 {
            assert(b.contains(b[0]));
        }
        assert(a =~= b);
    } else {
        if b.len() == 0 {
            assert(a.contains(a[0]));
        } else {
            assert(a.contains(a[0]));
            assert(b.contains(b[0]));
            let j = choose|j: int| 0 <= j < b.len() && b[j] == a[0];
            let m = choose|m: int| 0 <= m < a.len() && a[m] == b[0];
            if m > 0 {
                assert(a[0] < a[m]);
            }
            if j > 0 {
                assert(b[0] < b[j]);
            }
            let a1 = a.drop_first();
            let b1 = b.drop_first();
            assert forall|x: u32| a1.contains(x) <==> b1.contains(x) by {
                if a1.contains(x) {
                    let p = choose|p: int| 0 <= p < a1.len() && a1[p] == x;
                    assert(a[p + 1] == x);
                    assert(a.contains(x));
                    let q = choose|q: int| 0 <= q < b.len() && b[q] == x;
                    assert(a[0] < a[p + 1]);
                    assert(q != 0);
                    assert(b1[q - 1] == x);
                }
                if b1.contains(x) {
                    let p = choose|p: int| 0 <= p < b1.len() && b1[p] == x;
                    assert(b[p + 1] == x);
                    assert(b.contains(x));
                    let q = choose|q: int| 0 <= q < a.len() && a[q] == x;
                    assert(b[0] < b[p + 1]);
                    assert(q != 0);
                    assert(a1[q - 1] == x);
                }
            }
            lemma_increasing_same_members(a1, b1);
            assert forall|t: int| 0 <= t < a.len() implies a[t] == b[t] by {
                if t > 0 {
                    assert(a[t] == a1[t - 1]);
                    assert(b[t] == b1[t - 1]);
                }
            }
            assert(a =~= b);
        }
    }
}

impl Beerlist {
    /// The users: id to name.
    pub open spec fn users(self) -> Map<u32, Seq<char>> {
        users_of(self.backend)
    }

    /// The items: id to (name, price in cents).
    pub open spec fn items(self) -> Map<u32, (Seq<char>, u32)> {
        items_of(self.backend)
    }

    /// The purchases, oldest first.
    pub open spec fn log(self) -> Seq<PurchaseEntry> {
        purchases_of(self.backend)
    }

    /// The top users.
    pub open spec fn top_user_set(self) -> Set<u32> {
        top_users_of(self.backend)
    }

    /// The top drinks of each user.
    pub open spec fn top_drink_sets(self) -> Map<u32, Set<u32>> {
        top_drinks_of(self.backend)
    }

    /// The users that the user search can find, with the texts it searches.
    pub open spec fn search_index(self) -> Map<u32, Seq<char>> {
        search_index_of(self.backend)
    }

    /// The cost tallies: (user, item) to cents.
    pub open spec fn costs(self) -> Map<(u32, u32), u32> {
        costs_of(self.backend)
    }

    /// The count tallies: (user, item) to number bought.
    pub open spec fn counts(self) -> Map<(u32, u32), u32> {
        counts_of(self.backend)
    }

    /// The event counter of the backend.
    pub open spec fn events(self) -> u32 {
        counters_of(self.backend).0
    }

    /// The id that the next user gets.
    pub open spec fn next_user_id(self) -> u32 {
        counters_of(self.backend).1
    }

    /// The id that the next item gets.
    pub open spec fn next_item_id(self) -> u32 {
        counters_of(self.backend).2
    }

    /// The number of purchases ever made; the id of the latest one.
    pub open spec fn purchase_count(self) -> u64 {
        counters_of(self.backend).3
    }

    /// How many users the backend keeps as top users at most.
    pub open spec fn top_limit(self) -> nat {
        top_limit_of(self.backend)
    }

    /// The category each item was created with.
    pub open spec fn categories(self) -> Map<u32, Option<Seq<char>>> {
        item_categories_of(self.backend)
    }

    /// The well-formedness of the beer list: the purchases are simple ones, by known
    /// users of known items, with increasing ids no greater than the purchase count;
    /// no score exceeds the number of events (each event raises a score by one at
    /// most); item ids lie below the next item id; the count tally of each (user, item)
    /// pair is the number of its purchases in the log, and for an item that costs
    /// something the cost tally is at least the count tally; the user search holds each
    /// user's name in lower case and ignores case once there are users; the top users
    /// are no more than the backend's limit; the backend keeps top drinks for exactly
    /// the users.
    pub open spec fn wf(self) -> bool {
        &&& all_simple(self.log())
        &&& forall|k: int| 0 <= k < self.log().len() ==> self.users().dom().contains(
            entry_user(#[trigger] self.log()[k]),
        ) && self.items().dom().contains(entry_item(self.log()[k]))
        &&& ids_increasing(self.log())
        &&& forall|k: int| 0 <= k < self.log().len() ==> (#[trigger] self.log()[k]).0
            <= self.purchase_count()
        &&& max_score_of(self.backend) <= self.events()
        &&& forall|i: u32| #[trigger] self.items().dom().contains(i) ==> i < self.next_item_id()
        &&& forall|u: u32, i: u32| #![trigger tally(self.counts(), u, i)]
            {
                &&& tally(self.counts(), u, i) == pair_count(self.log(), u, i)
                &&& self.items().dom().contains(i) && self.items()[i].1 >= 1 ==> tally(
                    self.counts(),
                    u,
                    i,
                ) <= tally(self.costs(), u, i)
            }
        &&& self.search_index().dom() == self.users().dom()
        &&& forall|id: u32| #[trigger] self.users().dom().contains(id) ==> {
            &&& self.search_index()[id] == lowercase(self.users()[id])
            &&& search_ignores_case_of(self.backend)
        }
        &&& self.top_user_set().finite()
        &&& self.top_user_set().len() <= self.top_limit()
        &&& self.top_drink_sets().dom() == self.users().dom()
    }

    /// A purchase of `item_id` by `user_id` is one the backend accepts: both exist.
    pub open spec fn purchase_applies(self, user_id: u32, item_id: u32) -> bool {
        self.users().dom().contains(user_id) && self.items().dom().contains(item_id)
    }

    /// A purchase of `item_id` by `user_id` leaves every counter and tally of the
    /// backend within its range.
    pub open spec fn purchase_fits(self, user_id: u32, item_id: u32) -> bool {
        &&& self.events() < u32::MAX
        &&& self.purchase_count() < u64::MAX
        &&& tally(self.costs(), user_id, item_id) + self.items()[item_id].1 <= u32::MAX
        &&& tally(self.counts(), user_id, item_id) < u32::MAX
    }

    /// The purchase with the id `id` can be undone: it exists, the event counter has
    /// room, and both tallies of its pair are at least one.
    pub open spec fn undo_fits(self, id: u64) -> bool {
        let k = position_of(self.log(), id);
        &&& has_purchase(self.log(), id)
        &&& self.events() < u32::MAX
        &&& tally(costs_of(self.backend), entry_user(self.log()[k]), entry_item(self.log()[k]))
            >= 1
        &&& tally(counts_of(self.backend), entry_user(self.log()[k]), entry_item(self.log()[k]))
            >= 1
    }

    /// An empty beer list whose backend lists `top_users` users as top users.
    pub fn new(users_per_page: u8, top_users: u8) -> (r: Self)
        ensures
            r.wf(),
            r.users().dom().is_empty(),
            r.items().dom().is_empty(),
            r.log().len() == 0,
            r.events() == 0,
            r.next_user_id() == 0,
            r.next_item_id() == 0,
            r.purchase_count() == 0,
            r.costs().dom().is_empty(),
            r.counts().dom().is_empty(),
            r.top_limit() == top_users,
            r.categories().dom().is_empty(),
    {
        let r = Beerlist { backend: new_backend(users_per_page, top_users) };
        assert(r.search_index().dom() =~= r.users().dom());
        r
    }

    /// Creates a user under the next user id; `false`, with nothing changed, where the
    /// counters are exhausted.
    pub fn create_user(&mut self, username: String) -> (r: bool)
        requires
            old(self).wf(),
        ensures
            final(self).wf(),
            r == (old(self).events() < u32::MAX && old(self).next_user_id() < u32::MAX),
            r ==> final(self).users() == old(self).users().insert(
                old(self).next_user_id(),
                username@,
            ),
            r ==> final(self).next_user_id() == old(self).next_user_id() + 1,
            r ==> final(self).next_item_id() == old(self).next_item_id(),
            r ==> final(self).events() == old(self).events() + 1,
            r ==> final(self).top_drink_sets() == old(self).top_drink_sets().insert(
                old(self).next_user_id(),
                Set::empty(),
            ),
            r ==> final(self).search_index() == old(self).search_index().insert(
                old(self).next_user_id(),
                lowercase(username@),
            ),
            !r ==> *final(self) == *old(self),
            final(self).items() == old(self).items(),
            final(self).log() == old(self).log(),
            final(self).purchase_count() == old(self).purchase_count(),
            final(self).costs() == old(self).costs(),
            final(self).counts() == old(self).counts(),
            final(self).categories() == old(self).categories(),
            final(self).top_limit() == old(self).top_limit(),
    {
        let (events, next_user, _next_item, _count) = counters(&self.backend);
        if events == u32::MAX || next_user == u32::MAX {
            return false;
        }
        let ghost before = *self;
        let ghost name = username@;
        let r = create_user(&mut self.backend, username);
        proof {
            assert(self.search_index().dom() =~= self.users().dom());
            assert(self.search_index() =~= before.search_index().insert(before.next_user_id(), lowercase(name)));
            assert(self.items() == before.items());
            assert(self.next_item_id() == before.next_item_id());
            assert forall|i: u32| #[trigger] self.items().dom().contains(i) implies i < self.next_item_id() by {
                assert(before.items().dom().contains(i));
            }
            assert forall|u: u32, i: u32| #![trigger tally(self.counts(), u, i)]
                {
                    &&& tally(self.counts(), u, i) == pair_count(self.log(), u, i)
                    &&& self.items().dom().contains(i) && self.items()[i].1 >= 1 ==> tally(
                        self.counts(),
                        u,
                        i,
                    ) <= tally(self.costs(), u, i)
                } by {
                assert(tally(before.counts(), u, i) == pair_count(before.log(), u, i));
            }
        }
        r
    }

    /// Creates an item under the next item id; `false`, with nothing changed, where the
    /// counters are exhausted.
    pub fn create_item(&mut self, itemname: String, price_cents: u32, category: Option<String>) -> (r: bool)
        requires
            old(self).wf(),
        ensures
            final(self).wf(),
            r == (old(self).events() < u32::MAX && old(self).next_item_id() < u32::MAX),
            r ==> final(self).items() == old(self).items().insert(
                old(self).next_item_id(),
                (itemname@, price_cents),
            ),
            r ==> final(self).next_item_id() == old(self).next_item_id() + 1,
            r ==> final(self).next_user_id() == old(self).next_user_id(),
            r ==> final(self).events() == old(self).events() + 1,
            !r ==> *final(self) == *old(self),
            final(self).users() == old(self).users(),
            final(self).top_user_set() == old(self).top_user_set(),
            final(self).top_drink_sets() == old(self).top_drink_sets(),
            final(self).search_index() == old(self).search_index(),
            final(self).log() == old(self).log(),
            final(self).purchase_count() == old(self).purchase_count(),
            final(self).costs() == old(self).costs(),
            final(self).counts() == old(self).counts(),
            final(self).top_limit() == old(self).top_limit(),
            r ==> final(self).categories() == old(self).categories().insert(
                old(self).next_item_id(),
                crate::rustix::category_view(category),
            ),
            !r ==> final(self).categories() == old(self).categories(),
    {
        let (events, _next_user, next_item, _count) = counters(&self.backend);
        if events == u32::MAX || next_item == u32::MAX {
            return false;
        }
        let ghost before = *self;
        let r = create_item(&mut self.backend, itemname, price_cents, category);
        proof {
            assert forall|i: u32| #[trigger] self.items().dom().contains(i) implies i < self.next_item_id() by {
                if i != next_item {
                    assert(before.items().dom().contains(i));
                }
            }
            let log = self.log();
            assert forall|u: u32, i: u32| #![trigger tally(self.counts(), u, i)]
                {
                    &&& tally(self.counts(), u, i) == pair_count(log, u, i)
                    &&& self.items().dom().contains(i) && self.items()[i].1 >= 1 ==> tally(
                        self.counts(),
                        u,
                        i,
                    ) <= tally(self.costs(), u, i)
                } by {
                assert(tally(before.counts(), u, i) == pair_count(log, u, i));
                assert(log == before.log());
                if i == next_item {
                    assert forall|k: int| 0 <= k < log.len() implies entry_item(#[trigger] log[k])
                        != i by {
                        assert(before.items().dom().contains(entry_item(log[k])));
                    }
                    lemma_pair_count_absent(log, u, i);
                }
            }
        }
        r
    }

    /// Records that `user_id` bought one `item_id` at `timestamp`. Where both exist and
    /// the backend's counters and tallies have room, the purchase is appended under the
    /// id `purchase_count + 1` and the result is that id with whether the user has just
    /// entered the top users; otherwise nothing changes and the result is `None`.
    pub fn purchase(&mut self, user_id: u32, item_id: u32, timestamp: i64) -> (r: Option<
        (u64, bool),
    >)
        requires
            old(self).wf(),
        ensures
            final(self).wf(),
            r is Some <==> old(self).purchase_applies(user_id, item_id) && old(self).purchase_fits(
                user_id,
                item_id,
            ),
            r is None ==> *final(self) == *old(self),
            final(self).top_limit() == old(self).top_limit(),
            final(self).categories() == old(self).categories(),
            r matches Some(p) ==> {
                &&& p.0 == old(self).purchase_count() + 1
                &&& final(self).log() == old(self).log().push(
                    (p.0, Some((user_id, item_id, timestamp))),
                )
                &&& final(self).users() == old(self).users()
                &&& final(self).items() == old(self).items()
                &&& final(self).purchase_count() == p.0
                &&& final(self).events() == old(self).events() + 1
                &&& final(self).next_user_id() == old(self).next_user_id()
                &&& final(self).next_item_id() == old(self).next_item_id()
                &&& final(self).costs() == old(self).costs().insert(
                    (user_id, item_id),
                    (tally(old(self).costs(), user_id, item_id) + old(self).items()[item_id].1) as u32,
                )
                &&& final(self).counts() == old(self).counts().insert(
                    (user_id, item_id),
                    (tally(old(self).counts(), user_id, item_id) + 1) as u32,
                )
                &&& p.1 == (!old(self).top_user_set().contains(user_id)
                    && final(self).top_user_set().contains(user_id))
            },
    {
        let (events, _next_user, _next_item, count) = counters(&self.backend);
        let user = username(&self.backend, user_id);
        let item = item_entry(&self.backend, item_id);
        if user.is_none() || item.is_none() {
            return None;
        }
        let price = match item {
            Some(e) => e.1,
            None => 0,
        };
        let (cost_tally, count_tally) = tallies(&self.backend, user_id, item_id);
        let cost: u32 = match cost_tally {
            Some(c) => c,
            None => 0,
        };
        let bought: u32 = match count_tally {
            Some(c) => c,
            None => 0,
        };
        if events == u32::MAX || count == u64::MAX || cost > u32::MAX - price || bought == u32::MAX {
            return None;
        }
        let newly_top = purchase(&mut self.backend, user_id, item_id, timestamp);
        let ghost log = self.log();
        assert forall|j: int, k: int| 0 <= j < k < log.len() implies log[j].0 < log[k].0 by {
            if k == log.len() - 1 {
                assert(old(self).log()[j].0 <= old(self).purchase_count());
            }
        }
        assert forall|k: int| 0 <= k < log.len() implies (#[trigger] log[k]).1 is Some by {
            if k < log.len() - 1 {
                assert(old(self).log()[k] == log[k]);
            }
        }
        proof {
            let e = log.last();
            assert(log == old(self).log().push(e));
            assert forall|u: u32, i: u32| #![trigger tally(self.counts(), u, i)]
                {
                    &&& tally(self.counts(), u, i) == pair_count(log, u, i)
                    &&& self.items().dom().contains(i) && self.items()[i].1 >= 1 ==> tally(
                        self.counts(),
                        u,
                        i,
                    ) <= tally(self.costs(), u, i)
                } by {
                lemma_pair_count_push(old(self).log(), e, u, i);
                assert(tally(old(self).counts(), u, i) == pair_count(old(self).log(), u, i));
            }
        }
        Some((count + 1, newly_top))
    }

    /// Undoes the purchase with the id `id`. Where it exists and the backend can take
    /// it back (its event counter has room and both tallies of the pair are at least
    /// one), the purchase leaves the log and the result tells whether it was the newest;
    /// otherwise nothing changes and the result is `None`.
    pub fn undo_purchase(&mut self, id: u64) -> (r: Option<bool>)
        requires
            old(self).wf(),
        ensures
            final(self).wf(),
            r is Some <==> old(self).undo_fits(id),
            r is None ==> *final(self) == *old(self),
            final(self).top_limit() == old(self).top_limit(),
            final(self).categories() == old(self).categories(),
            r matches Some(last) ==> {
                let k = position_of(old(self).log(), id);
                &&& final(self).log() == old(self).log().remove(k)
                &&& last == (k == old(self).log().len() - 1)
                &&& !has_purchase(final(self).log(), id)
                &&& final(self).users() == old(self).users()
                &&& final(self).items() == old(self).items()
                &&& final(self).purchase_count() == old(self).purchase_count()
                &&& final(self).events() == old(self).events() + 1
                &&& final(self).top_user_set() == old(self).top_user_set()
                &&& final(self).top_drink_sets() == old(self).top_drink_sets()
                &&& final(self).costs() == old(self).costs().insert(
                    (entry_user(old(self).log()[k]), entry_item(old(self).log()[k])),
                    (old(self).costs()[(entry_user(old(self).log()[k]), entry_item(old(self).log()[k]))]
                        - 1) as u32,
                )
                &&& final(self).counts() == old(self).counts().insert(
                    (entry_user(old(self).log()[k]), entry_item(old(self).log()[k])),
                    (old(self).counts()[(entry_user(old(self).log()[k]), entry_item(old(self).log()[k]))]
                        - 1) as u32,
                )
            },
    {
        let (events, _next_user, _next_item, _count) = counters(&self.backend);
        let found = get_purchase(&self.backend, id);
        let ghost log = self.log();
        match found {
            None => {
                assert(!has_purchase(log, id)) by {
                    if has_purchase(log, id) {
                        let k = choose|k: int| 0 <= k < log.len() && (#[trigger] log[k]).0 == id;
                        assert(first_simple_with_id(log, id, k));
                    }
                }
                return None;
            },
            Some(p) => {
                let ghost k = choose|k: int| first_simple_with_id(log, id, k);
                assert(position_of(log, id) == k) by {
                    let q = position_of(log, id);
                    assert(0 <= q < log.len() && log[q].0 == id);
                    if q < k {
                        assert(log[q].0 < log[k].0);
                    } else if q > k {
                        assert(log[k].0 < log[q].0);
                    }
                }
                let (cost_tally, count_tally) = tallies(&self.backend, p.1, p.2);
                let cost: u32 = match cost_tally {
                    Some(c) => c,
                    None => 0,
                };
                let bought: u32 = match count_tally {
                    Some(c) => c,
                    None => 0,
                };
                if events == u32::MAX || cost == 0 || bought == 0 {
                    return None;
                }
                proof {
                    assert(first_with_id(log, id, k));
                    assert(first_index(log, id) == k) by {
                        let q = first_index(log, id);
                        assert(first_with_id(log, id, q));
                        if q < k {
                            assert(log[q].0 < log[k].0);
                        }
                        if q > k {
                            assert(log[k].0 != id);
                        }
                    }
                    assert(log[k].0 <= self.purchase_count());
                }
                let last = undo_purchase(&mut self.backend, id);
                proof {
                    let nlog = self.log();
                    assert(nlog == log.remove(k));
                    assert forall|j: int, m: int| 0 <= j < m < nlog.len() implies nlog[j].0
                        < nlog[m].0 by {
                        if j < k && m >= k {
                            assert(nlog[m] == log[m + 1]);
                        } else if j >= k {
                            assert(nlog[j] == log[j + 1]);
                            assert(nlog[m] == log[m + 1]);
                        }
                    }
                    assert forall|m: int| 0 <= m < nlog.len() implies (#[trigger] nlog[m]).1 is Some by {
                        if m >= k {
                            assert(nlog[m] == log[m + 1]);
                        }
                    }
                    assert forall|m: int| 0 <= m < nlog.len() implies (#[trigger] nlog[m]).0
                        <= self.purchase_count() by {
                        if m >= k {
                            assert(nlog[m] == log[m + 1]);
                        }
                    }
                    let u0 = entry_user(log[k]);
                    let i0 = entry_item(log[k]);
                    assert forall|u: u32, i: u32| #![trigger tally(self.counts(), u, i)]
                        {
                            &&& tally(self.counts(), u, i) == pair_count(nlog, u, i)
                            &&& self.items().dom().contains(i) && self.items()[i].1 >= 1 ==> tally(
                                self.counts(),
                                u,
                                i,
                            ) <= tally(self.costs(), u, i)
                        } by {
                        lemma_pair_count_remove(log, k, u, i);
                        assert(tally(old(self).counts(), u, i) == pair_count(log, u, i));
                    }
                    assert(!has_purchase(nlog, id)) by {
                        if has_purchase(nlog, id) {
                            let m = choose|m: int| 0 <= m < nlog.len() && (#[trigger] nlog[m]).0 == id;
                            if m < k {
                                assert(log[m].0 < log[k].0);
                            } else {
                                assert(nlog[m] == log[m + 1]);
                                assert(log[k].0 < log[m + 1].0);
                            }
                        }
                    }
                }
                Some(last)
            },
        }
    }

    /// The purchase with the id `id`, as (id, consumer id, item id, timestamp).
    pub fn get_purchase(&self, id: u64) -> (r: Option<(u64, u32, u32, i64)>)
        requires
            self.wf(),
        ensures
            r is Some <==> has_purchase(self.log(), id),
            r matches Some(p) ==> {
                let e = self.log()[position_of(self.log(), id)];
                p == (id, entry_user(e), entry_item(e), entry_time(e))
            },
    {
        let found = get_purchase(&self.backend, id);
        let ghost log = self.log();
        proof {
            if has_purchase(log, id) {
                let k = choose|k: int| 0 <= k < log.len() && (#[trigger] log[k]).0 == id;
                assert(first_simple_with_id(log, id, k));
                let q = position_of(log, id);
                assert(q == k) by {
                    if q < k {
                        assert(log[q].0 < log[k].0);
                    } else if q > k {
                        assert(log[k].0 < log[q].0);
                    }
                }
            }
            if found is Some {
                let k = choose|k: int| first_simple_with_id(log, id, k);
                assert(0 <= k < log.len() && log[k].0 == id);
            }
        }
        found
    }

    /// The name of the user `user_id`, where there is such a user.
    pub fn username(&self, user_id: u32) -> (r: Option<String>)
        ensures
            r is Some <==> self.users().dom().contains(user_id),
            r matches Some(s) ==> s@ == self.users()[user_id],
    {
        username(&self.backend, user_id)
    }

    /// The name of the item `item_id`, where there is such an item.
    pub fn item_name(&self, item_id: u32) -> (r: Option<String>)
        ensures
            r is Some <==> self.items().dom().contains(item_id),
            r matches Some(s) ==> s@ == self.items()[item_id].0,
    {
        match item_entry(&self.backend, item_id) {
            Some(e) => Some(e.0),
            None => None,
        }
    }

    /// The top users, each once, in no stated order.
    pub fn top_users_list(&self) -> (r: Vec<u32>)
        ensures
            r@.to_set() == self.top_user_set(),
            r@.no_duplicates(),
    {
        top_users(&self.backend)
    }

    /// The top drinks of the user, each once, in no stated order; `None` where the
    /// backend keeps no top drinks for the user.
    pub fn top_drinks_list(&self, user_id: u32) -> (r: Option<Vec<u32>>)
        ensures
            r is Some <==> self.top_drink_sets().dom().contains(user_id),
            r matches Some(v) ==> v@.to_set() == self.top_drink_sets()[user_id] && v@.no_duplicates(),
    {
        top_drinks(&self.backend, user_id)
    }

    /// The ids of the users whose names hold the search term, ignoring case, in
    /// increasing order.
    pub fn search_users(&self, searchterm: &str) -> (r: Vec<u32>)
        requires
            self.wf(),
        ensures
            user_search(self.users(), searchterm@, r@),
            r@ == user_search_hits(self.users(), searchterm@),
    {
        let r = search_users(&self.backend, searchterm);
        proof {
            let users = self.users();
            let term = searchterm@;
            assert forall|id: u32| #[trigger] r@.contains(id) <==> users.dom().contains(id)
                && has_substring(lowercase(users[id]), lowercase(term)) by {
                if users.dom().contains(id) {
                    assert(self.search_index()[id] == lowercase(users[id]));
                    assert(search_ignores_case_of(self.backend));
                }
            }
            assert(user_search(users, term, r@));
            let h = user_search_hits(users, term);
            assert(user_search(users, term, h));
            lemma_increasing_same_members(r@, h);
        }
        r
    }
}

} // verus!
