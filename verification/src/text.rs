//! The texts that the application shows: numbers in decimal, purchase labels,
//! the clock and notification ids.
use vstd::prelude::*;

verus! {

/// The label of the purchase log button while the log is empty.
pub open spec fn no_purchases_text() -> Seq<char> {
    "No purchases since last bill"@
}

/// The character of the decimal digit `d` (below 10).
pub open spec fn digit_char(d: nat) -> char {
    (48 + d) as char
}

/// The decimal digits of `n`, without leading zeros ("0" for zero).
pub open spec fn decimal(n: nat) -> Seq<char>
    decreases n,
{
    if n < 10 {
        seq![digit_char(n)]
    } else {
        decimal(n / 10) + seq![digit_char(n % 10)]
    }
}

/// "User {user} bought 1 {drink} at {time}".
pub open spec fn purchase_text(user: Seq<char>, drink: Seq<char>, time: Seq<char>) -> Seq<char> {
    "User "@ + user + " bought 1 "@ + drink + " at "@ + time
}

/// "{time} Uhr".
pub open spec fn clock_text_of(time: Seq<char>) -> Seq<char> {
    time + " Uhr"@
}

/// The id of the notification for the purchase `id`.
pub open spec fn notification_id_of(id: nat) -> Seq<char> {
    "my-notification-id-"@ + decimal(id)
}

/// The one-character text of the digit `d`.
fn digit_str(d: u32) -> (r: &'static str)
    requires
        d < 10,
    ensures
        r@ == seq![digit_char(d as nat)],
{
    proof {
        reveal_strlit("0");
        reveal_strlit("1");
        reveal_strlit("2");
        reveal_strlit("3");
        reveal_strlit("4");
        reveal_strlit("5");
        reveal_strlit("6");
        reveal_strlit("7");
        reveal_strlit("8");
        reveal_strlit("9");
    }
    match d {
        0 => "0",
        1 => "1",
        2 => "2",
        3 => "3",
        4 => "4",
        5 => "5",
        6 => "6",
        7 => "7",
        8 => "8",
        _ => "9",
    }
}

/// `n` written in decimal, as `u32::to_string` writes it.
pub fn decimal_string(n: u32) -> (r: String)
    ensures
        r@ == decimal(n as nat),
    decreases n,
{
    if n < 10 {
        String::from_str(digit_str(n))
    } else {
        let mut s = decimal_string(n / 10);
        s.append(digit_str(n % 10));
        s
    }
}

/// "User {user} bought 1 {drink} at {time}", the label of a purchase.
pub fn purchase_label(user: &str, drink: &str, time: &str) -> (r: String)
    ensures
        r@ == purchase_text(user@, drink@, time@),
{
    let mut s = String::from_str("User ");
    s.append(user);
    s.append(" bought 1 ");
    s.append(drink);
    s.append(" at ");
    s.append(time);
    s
}

/// "No purchases since last bill".
pub fn no_purchases_label() -> (r: String)
    ensures
        r@ == no_purchases_text(),
{
    String::from_str("No purchases since last bill")
}

/// The clock's text for the time `time`: "{time} Uhr".
pub fn clock_text(time: &str) -> (r: String)
    ensures
        r@ == clock_text_of(time@),
{
    let mut s = String::from_str(time);
    s.append(" Uhr");
    s
}

/// The id under which the notification for purchase `id` is sent.
pub fn notification_id(id: u32) -> (r: String)
    ensures
        r@ == notification_id_of(id as nat),
{
    let digits = decimal_string(id);
    let mut s = String::from_str("my-notification-id-");
    s.append(digits.as_str());
    s
}

} // verus!
