//! Properties that relate several operations of the library.
use crate::beerlist::{
    has_purchase, ids_increasing, lemma_increasing_same_members, lemma_pair_count_remove,
    pair_count, position_of, user_search, Beerlist,
};
use crate::rustix::{entry_item, entry_user, tally, PurchaseEntry};
use crate::clock::{civil_ok, civil_seconds, clock_stamp, digit, local_stamp, stamp_char, CivilTime};
use crate::mock::{holds_mock_data, mock_bounds, mock_items};
use crate::screen::{keep_recent, SIZE_OF_PURCHASE_LOG};
use vstd::prelude::*;

verus! {

/// Undoing a purchase right after making it gives back the purchase log as it was:
/// the purchase is appended under an id greater than every id before it, and undoing
/// that id removes exactly the appended purchase.
pub proof fn law_undo_inverts_purchase(log: Seq<PurchaseEntry>, id: u64, purchase: Option<(u32, u32, i64)>)
    requires
        ids_increasing(log),
        forall|k: int| 0 <= k < log.len() ==> (#[trigger] log[k]).0 < id,
    ensures
        ids_increasing(log.push((id, purchase))),
        position_of(log.push((id, purchase)), id) == log.len(),
        log.push((id, purchase)).remove(position_of(log.push((id, purchase)), id)) == log,
{
    let pushed = log.push((id, purchase));
    assert(pushed[log.len() as int].0 == id);
    let p = position_of(pushed, id);
    if p < log.len() {
        assert(pushed[p] == log[p]);
    }
    assert(pushed.remove(log.len() as int) =~= log);
}

/// No two purchases of a well-formed beer list share an id.
pub proof fn law_purchase_ids_unique(bl: Beerlist)
    requires
        bl.wf(),
    ensures
        forall|j: int, k: int| 0 <= j < bl.log().len() && 0 <= k < bl.log().len() && j != k
            ==> bl.log()[j].0 != bl.log()[k].0,
{
    assert forall|j: int, k: int| 0 <= j < bl.log().len() && 0 <= k < bl.log().len() && j != k
        implies bl.log()[j].0 != bl.log()[k].0 by {
        if j < k {
            assert(bl.log()[j].0 < bl.log()[k].0);
        } else {
            assert(bl.log()[k].0 < bl.log()[j].0);
        }
    }
}

/// The purchase log never holds more than `SIZE_OF_PURCHASE_LOG` rows, and a row
/// written into it becomes its newest row.
pub proof fn law_purchase_log_bounded<T>(log: Seq<T>, row: T)
    requires
        log.len() <= SIZE_OF_PURCHASE_LOG,
    ensures
        keep_recent(log.push(row)).len() <= SIZE_OF_PURCHASE_LOG,
        keep_recent(log.push(row)).last() == row,
{
}

/// The user search has one answer: two hit lists for the same users and the same
/// term are equal.
pub proof fn law_user_search_unique(
    users: Map<u32, Seq<char>>,
    term: Seq<char>,
    hits: Seq<u32>,
    other: Seq<u32>,
)
    requires
        user_search(users, term, hits),
        user_search(users, term, other),
    ensures
        hits == other,
{
    assert forall|x: u32| hits.contains(x) <==> other.contains(x) by {
        if hits.contains(x) {
            assert(users.dom().contains(x));
        }
        if other.contains(x) {
            assert(users.dom().contains(x));
        }
    }
    lemma_increasing_same_members(hits, other);
}

/// A logged purchase of an item that costs something can be undone while the event
/// counter has room; in particular, right after it is made.
pub proof fn law_priced_purchase_undoable(bl: Beerlist, id: u64)
    requires
        bl.wf(),
        has_purchase(bl.log(), id),
        bl.items()[entry_item(bl.log()[position_of(bl.log(), id)])].1 >= 1,
        bl.events() < u32::MAX,
    ensures
        bl.undo_fits(id),
{
    let log = bl.log();
    let k = position_of(log, id);
    let u = entry_user(log[k]);
    let i = entry_item(log[k]);
    assert(0 <= k < log.len() && log[k].0 == id);
    lemma_pair_count_remove(log, k, u, i);
    assert(pair_count(log, u, i) >= 1);
    assert(tally(bl.counts(), u, i) == pair_count(log, u, i));
    assert(bl.items().dom().contains(i));
}

/// The beer list never keeps more top users than the limit its backend was made with
/// (`Beerlist::new`'s `top_users`): every operation keeps this, as part of `wf`.
pub proof fn law_top_users_within_limit(bl: Beerlist)
    requires
        bl.wf(),
    ensures
        bl.top_user_set().finite(),
        bl.top_user_set().len() <= bl.top_limit(),
{
}

/// The demonstration data is the same on every run: two beer lists that both hold it
/// (as `setup_mock_data` leaves them) have the same users, items, categories and
/// purchases.
pub proof fn law_mock_data_reproducible(x: Beerlist, y: Beerlist)
    requires
        holds_mock_data(x),
        holds_mock_data(y),
    ensures
        x.users() == y.users(),
        x.items() == y.items(),
        x.categories() == y.categories(),
        x.log() == y.log(),
{
}

/// A digit names one number.
proof fn lemma_digit_injective(a: int, b: int)
    requires
        0 <= a <= 9,
        0 <= b <= 9,
        digit(a) == digit(b),
    ensures
        a == b,
{
    assert(digit(a) as int == 48 + a);
    assert(digit(b) as int == 48 + b);
}

/// Two-digit numbers with equal digits are equal.
proof fn lemma_two_digits(a: int, b: int)
    requires
        0 <= a < 100,
        0 <= b < 100,
        a / 10 == b / 10,
        a % 10 == b % 10,
    ensures
        a == b,
{
}

/// Equal stamps have equal characters.
proof fn lemma_stamp_char_equal(f: CivilTime, g: CivilTime, i: int)
    requires
        clock_stamp(f) == clock_stamp(g),
        0 <= i < 19,
    ensures
        stamp_char(f, i) == stamp_char(g, i),
{
    assert(clock_stamp(f)[i] == stamp_char(f, i));
    assert(clock_stamp(g)[i] == stamp_char(g, i));
}

/// A two-digit field written at positions `i` and `i + 1` of equal stamps is equal.
proof fn lemma_two_digit_field(a: int, b: int)
    requires
        0 <= a < 100,
        0 <= b < 100,
        digit(a / 10) == digit(b / 10),
        digit(a % 10) == digit(b % 10),
    ensures
        a == b,
{
    lemma_digit_injective(a / 10, b / 10);
    lemma_digit_injective(a % 10, b % 10);
    lemma_two_digits(a, b);
}

/// A four-digit year written in equal stamps is equal.
proof fn lemma_year_field(a: int, b: int)
    requires
        1000 <= a <= 9999,
        1000 <= b <= 9999,
        digit(a / 1000) == digit(b / 1000),
        digit(a / 100 % 10) == digit(b / 100 % 10),
        digit(a / 10 % 10) == digit(b / 10 % 10),
        digit(a % 10) == digit(b % 10),
    ensures
        a == b,
{
    lemma_digit_injective(a / 1000, b / 1000);
    lemma_digit_injective(a / 100 % 10, b / 100 % 10);
    lemma_digit_injective(a / 10 % 10, b / 10 % 10);
    lemma_digit_injective(a % 10, b % 10);
    vstd::arithmetic::div_mod::lemma_div_denominator(a, 100, 10);
    vstd::arithmetic::div_mod::lemma_div_denominator(b, 100, 10);
    vstd::arithmetic::div_mod::lemma_div_denominator(a, 10, 10);
    vstd::arithmetic::div_mod::lemma_div_denominator(b, 10, 10);
    let x = a / 100;
    let y = b / 100;
    assert(x == 10 * (x / 10) + x % 10);
    assert(y == 10 * (y / 10) + y % 10);
    assert(x == y);
    let p = a / 10;
    let q = b / 10;
    assert(p == 10 * (p / 10) + p % 10);
    assert(q == 10 * (q / 10) + q % 10);
    assert(p == q);
    assert(a == 10 * p + a % 10);
    assert(b == 10 * q + b % 10);
}

/// A date and time of day written as "%Y-%m-%d %H:%M:%S" names one date and time.
pub proof fn lemma_clock_stamp_injective(f: CivilTime, g: CivilTime)
    requires
        civil_ok(f),
        civil_ok(g),
        clock_stamp(f) == clock_stamp(g),
    ensures
        f == g,
{
    lemma_stamp_char_equal(f, g, 0);
    lemma_stamp_char_equal(f, g, 1);
    lemma_stamp_char_equal(f, g, 2);
    lemma_stamp_char_equal(f, g, 3);
    lemma_year_field(f.0, g.0);
    lemma_stamp_char_equal(f, g, 5);
    lemma_stamp_char_equal(f, g, 6);
    lemma_two_digit_field(f.1, g.1);
    lemma_stamp_char_equal(f, g, 8);
    lemma_stamp_char_equal(f, g, 9);
    lemma_two_digit_field(f.2, g.2);
    lemma_stamp_char_equal(f, g, 11);
    lemma_stamp_char_equal(f, g, 12);
    lemma_two_digit_field(f.3, g.3);
    lemma_stamp_char_equal(f, g, 14);
    lemma_stamp_char_equal(f, g, 15);
    lemma_two_digit_field(f.4, g.4);
    lemma_stamp_char_equal(f, g, 17);
    lemma_stamp_char_equal(f, g, 18);
    lemma_two_digit_field(f.5, g.5);
}

/// A local time text pins its instant down to within two days, whatever the time
/// zone: two instants with the same local time text lie less than two days apart. So
/// the refreshed purchase label, which carries the local time of the newest row,
/// tells that row's time from any other more than two days away.
pub proof fn law_local_stamp_pins_the_instant(a: int, b: int, text: Seq<char>)
    requires
        local_stamp(a, text),
        local_stamp(b, text),
    ensures
        -172800 < a - b < 172800,
{
    let f = choose|f: CivilTime|
        #![trigger clock_stamp(f)]
        clock_stamp(f) == text && civil_ok(f) && -86400 < civil_seconds(f) - a < 86400;
    let g = choose|g: CivilTime|
        #![trigger clock_stamp(g)]
        clock_stamp(g) == text && civil_ok(g) && -86400 < civil_seconds(g) - b < 86400;
    lemma_clock_stamp_injective(f, g);
}

/// `bound` is the number of demonstration items: a draw below it can be any of them
/// and nothing else.
pub open spec fn covers_the_items(bound: u32) -> bool {
    forall|x: u32| #[trigger] mock_items().dom().contains(x) <==> x < bound
}

/// The demonstration data asks the generator, for each user in turn, first for a
/// number below 10 (how many purchases) and then, for each purchase, for a number
/// below the number of items created, so that every item can be drawn: the bounds of
/// the first `k + 1` users extend those of the first `k` by a 10 and then by bounds
/// that each cover exactly the demonstration items.
pub proof fn law_mock_item_draws_cover_the_items(k: nat)
    ensures
        mock_bounds(k + 1).len() > mock_bounds(k).len(),
        mock_bounds(k + 1).subrange(0, mock_bounds(k).len() as int) == mock_bounds(k),
        mock_bounds(k + 1)[mock_bounds(k).len() as int] == 10,
        forall|i: int| mock_bounds(k).len() < i < mock_bounds(k + 1).len() ==> covers_the_items(
            #[trigger] mock_bounds(k + 1)[i],
        ),
{
    let prev = mock_bounds(k);
    let next = mock_bounds(k + 1);
    assert(next.subrange(0, prev.len() as int) =~= prev);
    assert(covers_the_items(5)) by {
        assert forall|x: u32| #[trigger] mock_items().dom().contains(x) <==> x < 5 by {
            if x < 5 {
                assert(x == 0 || x == 1 || x == 2 || x == 3 || x == 4);
            }
        }
    }
}

} // verus!
