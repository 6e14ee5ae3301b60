//! Demonstration data for the beer list: a few named users, 250 generated ones,
//! five drinks, and random purchases drawn from a seeded `rand::rngs::StdRng`.
use crate::beerlist::Beerlist;
use crate::rustix::{entry_item, entry_time, entry_user, tally, PurchaseEntry};
use crate::text::{decimal, decimal_string};
use rand::rngs::StdRng;
use rand::Rng;
use rand::SeedableRng;
use vstd::prelude::*;

verus! {

/// What a `rand::rngs::StdRng` seeded by `StdRng::seed_from_u64(seed)` draws when asked,
/// in order, for one number below each of `bounds` (`gen_range(0..bound)`). The
/// generator is ChaCha12 and each draw takes the next words of its stream, so the
/// draws are a function of the seed and the bounds alone.
pub uninterp spec fn std_rng_draws(seed: u64, bounds: Seq<u32>) -> Seq<u32>;

/// Seeds a `StdRng` with `seed` (`StdRng::seed_from_u64`) and draws from it, in order,
/// one number below each of `bounds` (`gen_range(0..bound)`): one draw per bound, each
/// below its bound. `gen_range` panics on an empty range, which `requires` leaves out.
#[verifier::external_body]
fn seeded_draws(seed: u64, bounds: &Vec<u32>) -> (r: Vec<u32>)
    requires
        forall|i: int| 0 <= i < bounds@.len() ==> bounds@[i] > 0,
    ensures
        r@ == std_rng_draws(seed, bounds@),
        r@.len() == bounds@.len(),
        forall|i: int| 0 <= i < r@.len() ==> r@[i] < bounds@[i],
{
    let mut rng = StdRng::seed_from_u64(seed);
    let mut r = Vec::with_capacity(bounds.len());
    for bound in bounds.iter() {
        r.push(rng.gen_range(0..*bound));
    }
    r
}

/// The seed of the generator that draws the demonstration purchases.
pub const MOCK_SEED: u64 = 42;

/// The number of users that the demonstration data creates.
pub const MOCK_USERS: u32 = 253;

/// The number of items that the demonstration data creates.
pub const MOCK_ITEMS: u32 = 5;

/// The timestamp of the first demonstration purchase.
pub const MOCK_FIRST_TIMESTAMP: i64 = 12345678;

/// The name of the demonstration user with the id `id`.
pub open spec fn mock_user_name(id: nat) -> Seq<char> {
    if id == 0 {
        "Gruin"@
    } else if id == 1 {
        "Vall"@
    } else if id == 2 {
        "rad(i)"@
    } else {
        "GenUser #"@ + decimal((id - 3) as nat)
    }
}

/// The demonstration users with ids below `n`.
pub open spec fn mock_users(n: nat) -> Map<u32, Seq<char>> {
    Map::new(|id: u32| id < n, |id: u32| mock_user_name(id as nat))
}

/// The demonstration items: id to (name, price in cents).
pub open spec fn mock_items() -> Map<u32, (Seq<char>, u32)> {
    map![
        0u32 => ("Club Mate"@, 100u32),
        1u32 => ("Pils"@, 95u32),
        2u32 => ("Whiskey"@, 1200u32),
        3u32 => ("Schirker"@, 1100u32),
        4u32 => ("Kr\u{e4}ussen"@, 1100u32),
    ]
}

/// The categories of the demonstration items, by item id.
pub open spec fn mock_categories() -> Map<u32, Option<Seq<char>>> {
    map![
        0u32 => Some("without alcohol"@),
        1u32 => Some("Beer"@),
        2u32 => Some("Liquor"@),
        3u32 => Some("Liquor"@),
        4u32 => Some("Beer"@),
    ]
}

/// The demonstration purchases in `log`: the first is of item 2 by user 0 at
/// `MOCK_FIRST_TIMESTAMP`; the purchase at position `k` has the id `k + 1` and the
/// timestamp `MOCK_FIRST_TIMESTAMP + k`; every purchase is of a demonstration item by a
/// demonstration user; after the first, the users never decrease and no user has more
/// than nine purchases.
pub open spec fn mock_purchases(log: Seq<PurchaseEntry>) -> bool {
    &&& log.len() >= 1
    &&& log[0] == (1u64, Some((0u32, 2u32, MOCK_FIRST_TIMESTAMP)))
    &&& forall|k: int| 0 <= k < log.len() ==> {
        &&& (#[trigger] log[k]).0 == k + 1
        &&& log[k].1 is Some
        &&& entry_time(log[k]) == MOCK_FIRST_TIMESTAMP + k
        &&& entry_user(log[k]) < MOCK_USERS
        &&& entry_item(log[k]) < MOCK_ITEMS
    }
    &&& forall|a: int, b: int| #![trigger log[a], log[b]] 1 <= a < b < log.len() ==> {
        &&& entry_user(log[a]) <= entry_user(log[b])
        &&& entry_user(log[a]) == entry_user(log[b]) ==> b - a < 9
    }
}

/// The bounds that the demonstration data asks the generator for, for its first `k`
/// users: for each user, one number below 10 (how many purchases the user makes), then
/// one number below `MOCK_ITEMS` for each of those purchases (which item).
pub open spec fn mock_bounds(k: nat) -> Seq<u32>
    decreases k,
{
    if k == 0 {
        Seq::empty()
    } else {
        let asked = mock_bounds((k - 1) as nat).push(10u32);
        let n = std_rng_draws(MOCK_SEED, asked).last();
        asked + Seq::new(n as nat, |j: int| MOCK_ITEMS)
    }
}

/// The random purchases, as (user, item), that the generator seeded with `MOCK_SEED`
/// draws for the first `k` users, user after user.
pub open spec fn mock_schedule(k: nat) -> Seq<(u32, u32)>
    decreases k,
{
    if k == 0 {
        Seq::empty()
    } else {
        let start = mock_bounds((k - 1) as nat).len() + 1;
        let n = mock_bounds(k).len() - start;
        let d = std_rng_draws(MOCK_SEED, mock_bounds(k));
        mock_schedule((k - 1) as nat) + Seq::new(n as nat, |j: int| ((k - 1) as u32, d[start + j]))
    }
}

/// The purchase log of the demonstration data with the random purchases `s`: first
/// item 2 by user 0 at `MOCK_FIRST_TIMESTAMP`, then those of `s` in order, each under
/// the next id and one second after the one before.
pub open spec fn mock_log(s: Seq<(u32, u32)>) -> Seq<PurchaseEntry> {
    seq![(1u64, Some((0u32, 2u32, MOCK_FIRST_TIMESTAMP)))] + Seq::new(
        s.len(),
        |m: int| ((m + 2) as u64, Some((s[m].0, s[m].1, (MOCK_FIRST_TIMESTAMP + 1 + m) as i64))),
    )
}

/// `bl` holds the demonstration data: its users, items, categories and purchase log
/// are those that `setup_mock_data` makes.
pub open spec fn holds_mock_data(bl: Beerlist) -> bool {
    &&& bl.users() == mock_users(MOCK_USERS as nat)
    &&& bl.items() == mock_items()
    &&& bl.categories() == mock_categories()
    &&& bl.log() == mock_log(mock_schedule(MOCK_USERS as nat))
}

/// Fills an empty beer list with the demonstration data: the users "Gruin", "Vall",
/// "rad(i)" and "GenUser #0" to "GenUser #249", the five drinks with their categories,
/// a first purchase of item 2 by user 0 at `MOCK_FIRST_TIMESTAMP`, then, user by user,
/// up to nine purchases of random items, one second apart. How many purchases each
/// user gets, and of which items, a `StdRng` seeded with `MOCK_SEED` decides: the log is
/// `mock_log(mock_schedule(MOCK_USERS))`, the same on every run.
pub fn setup_mock_data(bl: &mut Beerlist)
    requires
        old(bl).wf(),
        old(bl).users().dom().is_empty(),
        old(bl).items().dom().is_empty(),
        old(bl).categories().dom().is_empty(),
        old(bl).log().len() == 0,
        old(bl).events() == 0,
        old(bl).next_user_id() == 0,
        old(bl).next_item_id() == 0,
        old(bl).purchase_count() == 0,
        old(bl).costs().dom().is_empty(),
        old(bl).counts().dom().is_empty(),
    ensures
        final(bl).wf(),
        final(bl).users() == mock_users(MOCK_USERS as nat),
        final(bl).items() == mock_items(),
        final(bl).categories() == mock_categories(),
        final(bl).top_limit() == old(bl).top_limit(),
        final(bl).purchase_count() == final(bl).log().len(),
        mock_purchases(final(bl).log()),
        final(bl).log() == mock_log(mock_schedule(MOCK_USERS as nat)),
        holds_mock_data(*final(bl)),
{
    let ghost limit = bl.top_limit();
    bl.create_user(String::from_str("Gruin"));
    bl.create_user(String::from_str("Vall"));
    bl.create_user(String::from_str("rad(i)"));
    proof {
        reveal_strlit("Gruin");
        reveal_strlit("Vall");
        reveal_strlit("rad(i)");
        assert(bl.users() =~= mock_users(3));
    }
    let mut i: u32 = 0;
    while i < 250
        invariant
            0 <= i <= 250,
            bl.wf(),
            bl.users() == mock_users(3 + i as nat),
            bl.items().dom().is_empty(),
            bl.categories().dom().is_empty(),
            bl.top_limit() == limit,
            bl.log().len() == 0,
            bl.events() == 3 + i,
            bl.next_user_id() == 3 + i,
            bl.next_item_id() == 0,
            bl.purchase_count() == 0,
            bl.costs().dom().is_empty(),
            bl.counts().dom().is_empty(),
        decreases 250 - i,
    {
        let mut name = String::from_str("GenUser #");
        let digits = decimal_string(i);
        name.append(digits.as_str());
        bl.create_user(name);
        proof {
            assert(mock_user_name((3 + i) as nat) == "GenUser #"@ + decimal(i as nat));
            assert(bl.users() =~= mock_users(3 + i as nat + 1));
        }
        i = i + 1;
    }
    bl.create_item(String::from_str("Club Mate"), 100, Some(String::from_str("without alcohol")));
    bl.create_item(String::from_str("Pils"), 95, Some(String::from_str("Beer")));
    bl.create_item(String::from_str("Whiskey"), 1200, Some(String::from_str("Liquor")));
    bl.create_item(String::from_str("Schirker"), 1100, Some(String::from_str("Liquor")));
    bl.create_item(String::from_str("Kr\u{e4}ussen"), 1100, Some(String::from_str("Beer")));
    proof {
        assert(bl.items() =~= mock_items());
        assert(bl.categories() =~= mock_categories());
    }
    let _first = bl.purchase(0, 2, MOCK_FIRST_TIMESTAMP);
    proof {
        assert(bl.log() =~= mock_log(Seq::empty()));
        assert forall|u: u32, t: u32| #[trigger] tally(bl.costs(), u, t) <= 1200 * bl.log().len() by {
            if u != 0 || t != 2 {
                assert(!bl.costs().dom().contains((u, t)));
            }
        }
        assert forall|u: u32, t: u32| #[trigger] tally(bl.counts(), u, t) <= bl.log().len() by {
            if u != 0 || t != 2 {
                assert(!bl.counts().dom().contains((u, t)));
            }
        }
    }
    let pairs = mock_draws();
    add_mock_purchases(bl, &pairs);
    proof {
        lemma_mock_log_shape(pairs@);
    }
}

/// The random purchases of the demonstration data are in order: each of a
/// demonstration item by a demonstration user, the users never decreasing, and no user
/// with more than nine of them.
pub open spec fn mock_pairs_ok(s: Seq<(u32, u32)>) -> bool {
    &&& forall|k: int| 0 <= k < s.len() ==> (#[trigger] s[k]).0 < MOCK_USERS && s[k].1 < MOCK_ITEMS
    &&& forall|a: int, b: int| #![trigger s[a], s[b]] 0 <= a < b < s.len() ==> {
        &&& s[a].0 <= s[b].0
        &&& s[a].0 == s[b].0 ==> b - a < 9
    }
}

/// A log made of ordered random purchases has the shape `mock_purchases` describes.
pub proof fn lemma_mock_log_shape(s: Seq<(u32, u32)>)
    requires
        mock_pairs_ok(s),
        s.len() <= 9 * MOCK_USERS,
    ensures
        mock_purchases(mock_log(s)),
{
    let log = mock_log(s);
    assert(log[0] == (1u64, Some((0u32, 2u32, MOCK_FIRST_TIMESTAMP))));
    assert forall|k: int| 0 <= k < log.len() implies {
        &&& (#[trigger] log[k]).0 == k + 1
        &&& log[k].1 is Some
        &&& entry_time(log[k]) == MOCK_FIRST_TIMESTAMP + k
        &&& entry_user(log[k]) < MOCK_USERS
        &&& entry_item(log[k]) < MOCK_ITEMS
    } by {
        if k > 0 {
            assert(log[k] == ((k + 1) as u64, Some((s[k - 1].0, s[k - 1].1, (MOCK_FIRST_TIMESTAMP + k) as i64))));
        }
    }
    assert forall|a: int, b: int| #![trigger log[a], log[b]] 1 <= a < b < log.len() implies {
        &&& entry_user(log[a]) <= entry_user(log[b])
        &&& entry_user(log[a]) == entry_user(log[b]) ==> b - a < 9
    } by {
        assert(log[a].1 == Some((s[a - 1].0, s[a - 1].1, (MOCK_FIRST_TIMESTAMP + a) as i64)));
        assert(log[b].1 == Some((s[b - 1].0, s[b - 1].1, (MOCK_FIRST_TIMESTAMP + b) as i64)));
        assert(s[a - 1].0 <= s[b - 1].0);
    }
}

/// Draws the random purchases of the demonstration data from a `StdRng` seeded with
/// `MOCK_SEED`: user after user, how many purchases the user makes (below 10), then
/// which item each one is of (below `MOCK_ITEMS`). The result is
/// `mock_schedule(MOCK_USERS)`.
pub fn mock_draws() -> (pairs: Vec<(u32, u32)>)
    ensures
        pairs@ == mock_schedule(MOCK_USERS as nat),
        mock_pairs_ok(pairs@),
        pairs@.len() <= 9 * MOCK_USERS,
{
    let mut pairs: Vec<(u32, u32)> = Vec::new();
    let mut bounds: Vec<u32> = Vec::new();
    let mut user_id: u32 = 0;
    while user_id < MOCK_USERS
        invariant
            0 <= user_id <= MOCK_USERS,
            bounds@ == mock_bounds(user_id as nat),
            bounds@.len() <= 10 * user_id,
            forall|i: int| 0 <= i < bounds@.len() ==> bounds@[i] > 0,
            pairs@ == mock_schedule(user_id as nat),
            pairs@.len() <= 9 * user_id,
            mock_pairs_ok(pairs@),
            forall|k: int| 0 <= k < pairs@.len() ==> (#[trigger] pairs@[k]).0 < user_id,
        decreases MOCK_USERS - user_id,
    {
        let ghost b0 = bounds@;
        let first_at: usize = bounds.len();
        bounds.push(10);
        let counts = seeded_draws(MOCK_SEED, &bounds);
        let nr_of_purchases = counts[first_at];
        let mut f: u32 = 0;
        while f < nr_of_purchases
            invariant
                f <= nr_of_purchases < 10,
                first_at == b0.len(),
                b0.len() <= 10 * user_id,
                user_id < MOCK_USERS,
                bounds@ == b0.push(10u32) + Seq::new(f as nat, |j: int| MOCK_ITEMS),
                forall|i: int| 0 <= i < bounds@.len() ==> bounds@[i] > 0,
            decreases nr_of_purchases - f,
        {
            bounds.push(MOCK_ITEMS);
            f = f + 1;
            proof {
                assert(bounds@ =~= b0.push(10u32) + Seq::new(f as nat, |j: int| MOCK_ITEMS));
            }
        }
        proof {
            assert(counts@.last() == nr_of_purchases);
            assert(bounds@ =~= mock_bounds((user_id + 1) as nat));
        }
        let draws = seeded_draws(MOCK_SEED, &bounds);
        let ghost sched = pairs@;
        let ghost bought = Seq::new(
            nr_of_purchases as nat,
            |t: int| (user_id, draws@[first_at + 1 + t]),
        );
        proof {
            assert(mock_schedule((user_id + 1) as nat) =~= sched + bought);
        }
        let mut j: u32 = 0;
        while j < nr_of_purchases
            invariant
                0 <= j <= nr_of_purchases < 10,
                user_id < MOCK_USERS,
                first_at <= 10 * user_id,
                first_at + 1 + nr_of_purchases == draws@.len(),
                draws@.len() == bounds@.len(),
                forall|i: int| 0 <= i < draws@.len() ==> draws@[i] < bounds@[i],
                forall|i: int| first_at < i < bounds@.len() ==> bounds@[i] == MOCK_ITEMS,
                bought.len() == nr_of_purchases,
                forall|t: int| 0 <= t < bought.len() ==> bought[t] == (user_id, draws@[first_at + 1 + t]),
                pairs@ == sched + bought.take(j as int),
                sched.len() <= 9 * user_id,
                mock_pairs_ok(pairs@),
                forall|k: int| 0 <= k < sched.len() ==> (#[trigger] sched[k]).0 < user_id,
                forall|k: int| sched.len() <= k < pairs@.len() ==> (#[trigger] pairs@[k]).0 == user_id,
            decreases nr_of_purchases - j,
        {
            let item_id = draws[first_at + 1 + j as usize];
            let ghost before = pairs@;
            pairs.push((user_id, item_id));
            proof {
                assert(item_id < MOCK_ITEMS);
                assert(bought[j as int] == (user_id, item_id));
                assert(sched + bought.take(j + 1) =~= before.push((user_id, item_id)));
                let s = pairs@;
                assert forall|a: int, b: int| #![trigger s[a], s[b]] 0 <= a < b < s.len() implies {
                    &&& s[a].0 <= s[b].0
                    &&& s[a].0 == s[b].0 ==> b - a < 9
                } by {
                    if b < before.len() {
                        assert(s[a] == before[a] && s[b] == before[b]);
                    } else if a < sched.len() {
                        assert(s[a] == sched[a]);
                    } else {
                        assert(s[a] == before[a]);
                    }
                }
                assert forall|k: int| sched.len() <= k < s.len() implies (#[trigger] s[k]).0 == user_id by {
                    if k < before.len() {
                        assert(s[k] == before[k]);
                    }
                }
            }
            j = j + 1;
        }
        proof {
            assert(bought.take(nr_of_purchases as int) =~= bought);
            assert forall|k: int| 0 <= k < pairs@.len() implies (#[trigger] pairs@[k]).0 < user_id + 1 by {
                if k < sched.len() {
                    assert(pairs@[k] == sched[k]);
                }
            }
        }
        user_id = user_id + 1;
    }
    pairs
}

/// Makes the random purchases `pairs` of the demonstration data, (user, item) after
/// (user, item), one second apart, on a beer list that holds the demonstration users
/// and items and, as its only purchase, the first one: the log becomes
/// `mock_log(pairs)`.
pub fn add_mock_purchases(bl: &mut Beerlist, pairs: &Vec<(u32, u32)>)
    requires
        old(bl).wf(),
        old(bl).users() == mock_users(MOCK_USERS as nat),
        old(bl).items() == mock_items(),
        old(bl).log() == mock_log(Seq::empty()),
        old(bl).purchase_count() == 1,
        old(bl).events() + pairs@.len() < u32::MAX,
        pairs@.len() <= 9 * MOCK_USERS,
        forall|k: int| 0 <= k < pairs@.len() ==> (#[trigger] pairs@[k]).0 < MOCK_USERS
            && pairs@[k].1 < MOCK_ITEMS,
        forall|u: u32, t: u32| #[trigger] tally(old(bl).costs(), u, t) <= 1200,
        forall|u: u32, t: u32| #[trigger] tally(old(bl).counts(), u, t) <= 1,
    ensures
        final(bl).wf(),
        final(bl).log() == mock_log(pairs@),
        final(bl).purchase_count() == final(bl).log().len(),
        final(bl).users() == old(bl).users(),
        final(bl).items() == old(bl).items(),
        final(bl).categories() == old(bl).categories(),
        final(bl).top_limit() == old(bl).top_limit(),
{
    let ghost b0 = *bl;
    let mut i: usize = 0;
    while i < pairs.len()
        invariant
            0 <= i <= pairs@.len() <= 9 * MOCK_USERS,
            bl.wf(),
            bl.users() == mock_users(MOCK_USERS as nat),
            bl.items() == mock_items(),
            bl.categories() == b0.categories(),
            bl.top_limit() == b0.top_limit(),
            forall|k: int| 0 <= k < pairs@.len() ==> (#[trigger] pairs@[k]).0 < MOCK_USERS
                && pairs@[k].1 < MOCK_ITEMS,
            bl.log() == mock_log(pairs@.take(i as int)),
            bl.purchase_count() == bl.log().len(),
            bl.events() == b0.events() + i,
            b0.events() + pairs@.len() < u32::MAX,
            forall|u: u32, t: u32| #[trigger] tally(bl.costs(), u, t) <= 1200 * bl.log().len(),
            forall|u: u32, t: u32| #[trigger] tally(bl.counts(), u, t) <= bl.log().len(),
        decreases pairs@.len() - i,
    {
        let (user_id, item_id) = pairs[i];
        let timestamp = MOCK_FIRST_TIMESTAMP + 1 + i as i64;
        let ghost before = *bl;
        proof {
            assert(pairs@[i as int].0 < MOCK_USERS && pairs@[i as int].1 < MOCK_ITEMS);
            assert(mock_items().dom().contains(item_id));
            assert(mock_items()[item_id].1 <= 1200);
            assert(tally(bl.costs(), user_id, item_id) <= 1200 * bl.log().len());
            assert(tally(bl.counts(), user_id, item_id) <= bl.log().len());
        }
        let made = bl.purchase(user_id, item_id, timestamp);
        proof {
            assert(made is Some);
            let n = before.log().len();
            let s0 = pairs@.take(i as int);
            assert(pairs@.take(i + 1) =~= s0.push((user_id, item_id)));
            assert(mock_log(s0.push((user_id, item_id))) =~= mock_log(s0).push(
                ((n + 1) as u64, Some((user_id, item_id, timestamp))),
            ));
            assert forall|u: u32, t: u32| #[trigger] tally(bl.costs(), u, t) <= 1200 * bl.log().len() by {
                assert(tally(before.costs(), u, t) <= 1200 * n);
            }
            assert forall|u: u32, t: u32| #[trigger] tally(bl.counts(), u, t) <= bl.log().len() by {
                assert(tally(before.counts(), u, t) <= n);
            }
        }
        i = i + 1;
    }
    proof {
        assert(pairs@.take(pairs@.len() as int) =~= pairs@);
    }
}

} // verus!
