//! Users as the API shows them, and the outcome of a user lookup.
use vstd::prelude::*;

use crate::models::{DateTimeFields, User, UserResponse};
use crate::text::{push_char, push_zero_padded, zero_padded};

verus! {

/// A year as `chrono` prints `%Y`: four digits, zero-padded, for years 0 to
/// 9999; otherwise a sign and at least four digits.
pub open spec fn year_text(year: int) -> Seq<char> {
    if 0 <= year <= 9999 {
        zero_padded(year as nat, 4)
    } else if year < 0 {
        seq!['-'] + zero_padded((-year) as nat, 4)
    } else {
        seq!['+'] + zero_padded(year as nat, 4)
    }
}

/// A date-time as `chrono` prints it with the format `%Y-%m-%d %H:%M:%S`.
pub open spec fn datetime_text(t: DateTimeFields) -> Seq<char> {
    year_text(t.year as int) + seq!['-'] + zero_padded(t.month as nat, 2) + seq!['-']
        + zero_padded(t.day as nat, 2) + seq![' '] + zero_padded(t.hour as nat, 2) + seq![':']
        + zero_padded(t.minute as nat, 2) + seq![':'] + zero_padded(t.second as nat, 2)
}

/// Renders `t` as `%Y-%m-%d %H:%M:%S`.
pub fn format_datetime(t: &DateTimeFields) -> (text: String)
    requires
        t.wf(),
    ensures
        text@ == datetime_text(*t),
{
    let mut s = String::new();
    if 0 <= t.year && t.year <= 9999 {
        push_zero_padded(&mut s, t.year as u64, 4);
    } else if t.year < 0 {
        push_char(&mut s, '-');
        let magnitude: i64 = -(t.year as i64);
        push_zero_padded(&mut s, magnitude as u64, 4);
    } else {
        push_char(&mut s, '+');
        push_zero_padded(&mut s, t.year as u64, 4);
    }
    push_char(&mut s, '-');
    push_zero_padded(&mut s, t.month as u64, 2);
    push_char(&mut s, '-');
    push_zero_padded(&mut s, t.day as u64, 2);
    push_char(&mut s, ' ');
    push_zero_padded(&mut s, t.hour as u64, 2);
    push_char(&mut s, ':');
    push_zero_padded(&mut s, t.minute as u64, 2);
    push_char(&mut s, ':');
    push_zero_padded(&mut s, t.second as u64, 2);
    assert(s@ =~= datetime_text(*t));
    s
}

/// The API form of a user: the same fields, with its creation and last-seen
/// times rendered as `%Y-%m-%d %H:%M:%S`.
pub fn serialize_uzer(user: User) -> (response: UserResponse)
    requires
        user.created_at.wf(),
        user.last_seen.wf(),
    ensures
        response.public_key == user.public_key,
        response.username == user.username,
        response.rewards == user.rewards,
        response.created_at@ == datetime_text(user.created_at),
        response.last_seen@ == datetime_text(user.last_seen),
        response.banned == user.banned,
        response.ban_reason == user.ban_reason,
{
    let created_at = format_datetime(&user.created_at);
    let last_seen = format_datetime(&user.last_seen);
    UserResponse {
        public_key: user.public_key,
        username: user.username,
        rewards: user.rewards,
        created_at,
        last_seen,
        banned: user.banned,
        ban_reason: user.ban_reason,
    }
}

/// The outcome of looking a user up, given the row found (if any) and the
/// outcome of recording the visit: a missing row gives `not_found`, else a
/// failed visit update gives its error, else the user.
pub fn finish_user_lookup<U, E>(record: Option<U>, touched: Result<bool, E>, not_found: E) -> (res:
    Result<U, E>)
    ensures
        match record {
            None => res == Err::<U, E>(not_found),
            Some(user) => match touched {
                Ok(_) => res == Ok::<U, E>(user),
                Err(e) => res == Err::<U, E>(e),
            },
        },
{
    match record {
        Some(user) => match touched {
            Ok(_) => Ok(user),
            Err(e) => Err(e),
        },
        None => Err(not_found),
    }
}

proof fn lemma_two_digits(n: nat)
    requires
        n < 100,
    ensures
        zero_padded(n, 2).len() == 2,
{
    crate::text::lemma_decimal_len_bounds(n);
}

/// A date-time from year 0 to 9999 renders as 19 characters,
/// `YYYY-MM-DD hh:mm:ss`, with the separators in their places.
pub proof fn law_datetime_text_shape(t: DateTimeFields)
    requires
        t.wf(),
        0 <= t.year <= 9999,
    ensures
        datetime_text(t).len() == 19,
        datetime_text(t)[4] == '-',
        datetime_text(t)[7] == '-',
        datetime_text(t)[10] == ' ',
        datetime_text(t)[13] == ':',
        datetime_text(t)[16] == ':',
{
    crate::text::lemma_decimal_len_bounds(t.year as nat);
    assert(zero_padded(t.year as nat, 4).len() == 4);
    lemma_two_digits(t.month as nat);
    lemma_two_digits(t.day as nat);
    lemma_two_digits(t.hour as nat);
    lemma_two_digits(t.minute as nat);
    lemma_two_digits(t.second as nat);
}

/// The character of the decimal digit `d`.
pub open spec fn digit_char_of(d: nat) -> char {
    (48 + d) as char
}

proof fn lemma_two_digit_text(n: nat)
    requires
        n < 100,
    ensures
        zero_padded(n, 2) == seq![digit_char_of(n / 10), digit_char_of(n % 10)],
{
    reveal_with_fuel(crate::text::decimal, 2);
    if n < 10 {
        assert(crate::text::decimal(n) == seq![(48 + n) as char]);
        assert(digit_char_of(0) == '0');
        assert(zero_padded(n, 2) =~= seq![digit_char_of(n / 10), digit_char_of(n % 10)]);
    } else {
        assert(crate::text::decimal(n / 10) == seq![(48 + n / 10) as char]);
        assert(zero_padded(n, 2) =~= seq![digit_char_of(n / 10), digit_char_of(n % 10)]);
    }
}

proof fn lemma_four_digit_text(y: nat)
    requires
        y < 10000,
    ensures
        zero_padded(y, 4) == seq![
            digit_char_of(y / 1000),
            digit_char_of((y / 100) % 10),
            digit_char_of((y / 10) % 10),
            digit_char_of(y % 10),
        ],
{
    reveal_with_fuel(crate::text::decimal, 4);
    assert(digit_char_of(0) == '0');
    let expected = seq![
        digit_char_of(y / 1000),
        digit_char_of((y / 100) % 10),
        digit_char_of((y / 10) % 10),
        digit_char_of(y % 10),
    ];
    if y < 10 {
        assert(crate::text::decimal(y) == seq![(48 + y) as char]);
        assert(zero_padded(y, 4) =~= expected);
    } else if y < 100 {
        assert(crate::text::decimal(y / 10) == seq![(48 + y / 10) as char]);
        assert(crate::text::decimal(y) == seq![(48 + y / 10) as char, (48 + y % 10) as char]);
        assert(zero_padded(y, 4) =~= expected);
    } else if y < 1000 {
        assert((y / 10) / 10 == y / 100);
        assert(crate::text::decimal(y / 100) == seq![(48 + y / 100) as char]);
        assert(crate::text::decimal(y / 10) == seq![
            (48 + y / 100) as char,
            (48 + (y / 10) % 10) as char,
        ]);
        assert(zero_padded(y, 4) =~= expected);
    } else {
        assert((y / 10) / 10 == y / 100);
        assert((y / 100) / 10 == y / 1000);
        assert(crate::text::decimal(y / 1000) == seq![(48 + y / 1000) as char]);
        assert(crate::text::decimal(y / 100) == seq![
            (48 + y / 1000) as char,
            (48 + (y / 100) % 10) as char,
        ]);
        assert(crate::text::decimal(y / 10) == seq![
            (48 + y / 1000) as char,
            (48 + (y / 100) % 10) as char,
            (48 + (y / 10) % 10) as char,
        ]);
        assert(zero_padded(y, 4) =~= expected);
    }
}

/// A date-time from year 0 to 9999 renders as `YYYY-MM-DD hh:mm:ss`: each
/// field, in its place, as its zero-padded decimal digits (the year in four,
/// the others in two), with `-`, ` ` and `:` between them.
pub proof fn law_datetime_text_fields(t: DateTimeFields)
    requires
        t.wf(),
        0 <= t.year <= 9999,
    ensures
        datetime_text(t).len() == 19,
        datetime_text(t)[0] == digit_char_of(t.year as nat / 1000),
        datetime_text(t)[1] == digit_char_of((t.year as nat / 100) % 10),
        datetime_text(t)[2] == digit_char_of((t.year as nat / 10) % 10),
        datetime_text(t)[3] == digit_char_of(t.year as nat % 10),
        datetime_text(t)[4] == '-',
        datetime_text(t)[5] == digit_char_of(t.month as nat / 10),
        datetime_text(t)[6] == digit_char_of(t.month as nat % 10),
        datetime_text(t)[7] == '-',
        datetime_text(t)[8] == digit_char_of(t.day as nat / 10),
        datetime_text(t)[9] == digit_char_of(t.day as nat % 10),
        datetime_text(t)[10] == ' ',
        datetime_text(t)[11] == digit_char_of(t.hour as nat / 10),
        datetime_text(t)[12] == digit_char_of(t.hour as nat % 10),
        datetime_text(t)[13] == ':',
        datetime_text(t)[14] == digit_char_of(t.minute as nat / 10),
        datetime_text(t)[15] == digit_char_of(t.minute as nat % 10),
        datetime_text(t)[16] == ':',
        datetime_text(t)[17] == digit_char_of(t.second as nat / 10),
        datetime_text(t)[18] == digit_char_of(t.second as nat % 10),
{
    lemma_four_digit_text(t.year as nat);
    lemma_two_digit_text(t.month as nat);
    lemma_two_digit_text(t.day as nat);
    lemma_two_digit_text(t.hour as nat);
    lemma_two_digit_text(t.minute as nat);
    lemma_two_digit_text(t.second as nat);
    let text = datetime_text(t);
    let expected = seq![
        digit_char_of(t.year as nat / 1000),
        digit_char_of((t.year as nat / 100) % 10),
        digit_char_of((t.year as nat / 10) % 10),
        digit_char_of(t.year as nat % 10),
        '-',
        digit_char_of(t.month as nat / 10),
        digit_char_of(t.month as nat % 10),
        '-',
        digit_char_of(t.day as nat / 10),
        digit_char_of(t.day as nat % 10),
        ' ',
        digit_char_of(t.hour as nat / 10),
        digit_char_of(t.hour as nat % 10),
        ':',
        digit_char_of(t.minute as nat / 10),
        digit_char_of(t.minute as nat % 10),
        ':',
        digit_char_of(t.second as nat / 10),
        digit_char_of(t.second as nat % 10),
    ];
    assert(text =~= expected);
}

} // verus!
