use vstd::prelude::*;
use vstd::string::StringExecFns;

use crate::london::Instant;
use crate::london::london_hour;
use crate::london::london_hour_at;

verus! {

/// The 12-hour reading of a nonzero 24-hour value: 12 stays 12, hours past
/// noon drop 12 (13 reads 1, 23 reads 11).
pub open spec fn hour12_of(h: int) -> int {
    if h > 12 {
        h - 12
    } else {
        h
    }
}

pub open spec fn digit_char(d: int) -> char {
    if d == 0 {
        '0'
    } else if d == 1 {
        '1'
    } else if d == 2 {
        '2'
    } else if d == 3 {
        '3'
    } else if d == 4 {
        '4'
    } else if d == 5 {
        '5'
    } else if d == 6 {
        '6'
    } else if d == 7 {
        '7'
    } else if d == 8 {
        '8'
    } else {
        '9'
    }
}

/// An hour zero-padded to two digits, as the confirmation suffix shows it.
pub open spec fn two_digits(h: int) -> Seq<char> {
    seq![digit_char(h / 10), digit_char(h % 10)]
}

/// An hour without a leading zero, as the 12-hour reading shows it.
pub open spec fn unpadded_digits(h: int) -> Seq<char> {
    if h >= 10 {
        two_digits(h)
    } else {
        seq![digit_char(h)]
    }
}

/// The plain template: "It's {h12} o'clock ({HH}:00)" for civil hour `h`.
pub open spec fn plain_msg(h: int) -> Seq<char> {
    "It's "@ + unpadded_digits(hour12_of(h)) + " o'clock ("@ + two_digits(h) + ":00)"@
}

/// The repeated-hour template: "It's {h12} o'clock again ({HH}:00)".
pub open spec fn again_msg(h: int) -> Seq<char> {
    "It's "@ + unpadded_digits(hour12_of(h)) + " o'clock again ("@ + two_digits(h) + ":00)"@
}

/// What the announcer says when the civil hour is `h` now and was `h_prev`
/// one hour earlier: midnight is special-cased, a repeated reading takes the
/// "again" template, anything else the plain one.
pub open spec fn announcement(h: int, h_prev: int) -> Seq<char> {
    if h == 0 {
        "It's midnight"@
    } else if h == h_prev {
        again_msg(h)
    } else {
        plain_msg(h)
    }
}

/// `s` is the midnight announcement.
pub open spec fn is_midnight_msg(s: Seq<char>) -> bool {
    s == "It's midnight"@
}

/// `s` is the plain announcement of some civil hour.
pub open spec fn is_plain_msg(s: Seq<char>) -> bool {
    exists|h: int| 1 <= h < 24 && s == plain_msg(h)
}

/// `s` is the repeated-hour announcement of some civil hour.
pub open spec fn is_again_msg(s: Seq<char>) -> bool {
    exists|h: int| 1 <= h < 24 && s == again_msg(h)
}

/// When the civil hour is 0 the announcement is exactly "It's midnight",
/// whatever the clock read one hour earlier.
pub proof fn lemma_midnight_announcement(h_prev: int)
    ensures
        announcement(0, h_prev) == "It's midnight"@,
{
}

/// A nonzero civil hour whose predecessor read differently is announced
/// with the plain template: the suffix holds the two-digit civil hour and
/// the leading number its 12-hour reading.
pub proof fn lemma_plain_announcement(h: int, h_prev: int)
    requires
        1 <= h < 24,
        h != h_prev,
    ensures
        announcement(h, h_prev) == "It's "@ + unpadded_digits(hour12_of(h)) + " o'clock ("@
            + two_digits(h) + ":00)"@,
{
}

/// Announcing the same instant twice yields identical strings: the
/// announcement is a function of the instant's two civil-hour readings
/// alone, with no hidden state.
pub proof fn lemma_deterministic(first: Seq<char>, second: Seq<char>, now: Instant)
    requires
        first == announcement(london_hour(now.secs as int), london_hour(now.secs - 3600)),
        second == announcement(london_hour(now.secs as int), london_hour(now.secs - 3600)),
    ensures
        first == second,
{
}

/// The two numbered templates never collide with each other or with the
/// midnight literal: their lengths alone keep them apart.
proof fn lemma_msg_lens(h: int)
    requires
        1 <= h < 24,
    ensures
        22 <= plain_msg(h).len() <= 23,
        28 <= again_msg(h).len() <= 29,
{
    reveal_strlit("It's ");
    reveal_strlit(" o'clock (");
    reveal_strlit(" o'clock again (");
    reveal_strlit(":00)");
}

/// Every announcement of in-range civil hours matches one of the three
/// templates, and only one of them.
pub proof fn lemma_exactly_one_template(h: int, h_prev: int)
    requires
        0 <= h < 24,
    ensures
        is_midnight_msg(announcement(h, h_prev)) || is_plain_msg(announcement(h, h_prev))
            || is_again_msg(announcement(h, h_prev)),
        !(is_midnight_msg(announcement(h, h_prev)) && is_plain_msg(announcement(h, h_prev))),
        !(is_midnight_msg(announcement(h, h_prev)) && is_again_msg(announcement(h, h_prev))),
        !(is_plain_msg(announcement(h, h_prev)) && is_again_msg(announcement(h, h_prev))),
{
    reveal_strlit("It's midnight");
    let s = announcement(h, h_prev);
    if h == 0 {
        assert(is_midnight_msg(s));
    } else if h == h_prev {
        assert(1 <= h < 24 && s == again_msg(h));
        assert(is_again_msg(s));
    } else {
        assert(1 <= h < 24 && s == plain_msg(h));
        assert(is_plain_msg(s));
    }
    if is_midnight_msg(s) && is_plain_msg(s) {
        let k = choose|k: int| 1 <= k < 24 && s == plain_msg(k);
        lemma_msg_lens(k);
        assert(false);
    }
    if is_midnight_msg(s) && is_again_msg(s) {
        let k = choose|k: int| 1 <= k < 24 && s == again_msg(k);
        lemma_msg_lens(k);
        assert(false);
    }
    if is_plain_msg(s) && is_again_msg(s) {
        let k1 = choose|k: int| 1 <= k < 24 && s == plain_msg(k);
        let k2 = choose|k: int| 1 <= k < 24 && s == again_msg(k);
        lemma_msg_lens(k1);
        lemma_msg_lens(k2);
        assert(false);
    }
}

/// The 12-hour reading of civil hour `h`, rendered without a leading zero.
fn hour12_str(h: u8) -> (r: &'static str)
    requires
        1 <= h < 24,
    ensures
        r@ == unpadded_digits(hour12_of(h as int)),
{
    let r: &'static str = match h {
        1 | 13 => "1",
        2 | 14 => "2",
        3 | 15 => "3",
        4 | 16 => "4",
        5 | 17 => "5",
        6 | 18 => "6",
        7 | 19 => "7",
        8 | 20 => "8",
        9 | 21 => "9",
        10 | 22 => "10",
        11 | 23 => "11",
        _ => "12",
    };
    proof {
        reveal_strlit("1");
        reveal_strlit("2");
        reveal_strlit("3");
        reveal_strlit("4");
        reveal_strlit("5");
        reveal_strlit("6");
        reveal_strlit("7");
        reveal_strlit("8");
        reveal_strlit("9");
        reveal_strlit("10");
        reveal_strlit("11");
        reveal_strlit("12");
        assert(r@ =~= unpadded_digits(hour12_of(h as int)));
    }
    r
}

/// Civil hour `h` zero-padded to two digits, for the confirmation suffix.
fn padded_hour_str(h: u8) -> (r: &'static str)
    requires
        1 <= h < 24,
    ensures
        r@ == two_digits(h as int),
{
    let r: &'static str = match h {
        1 => "01",
        2 => "02",
        3 => "03",
        4 => "04",
        5 => "05",
        6 => "06",
        7 => "07",
        8 => "08",
        9 => "09",
        10 => "10",
        11 => "11",
        12 => "12",
        13 => "13",
        14 => "14",
        15 => "15",
        16 => "16",
        17 => "17",
        18 => "18",
        19 => "19",
        20 => "20",
        21 => "21",
        22 => "22",
        _ => "23",
    };
    proof {
        reveal_strlit("01");
        reveal_strlit("02");
        reveal_strlit("03");
        reveal_strlit("04");
        reveal_strlit("05");
        reveal_strlit("06");
        reveal_strlit("07");
        reveal_strlit("08");
        reveal_strlit("09");
        reveal_strlit("10");
        reveal_strlit("11");
        reveal_strlit("12");
        reveal_strlit("13");
        reveal_strlit("14");
        reveal_strlit("15");
        reveal_strlit("16");
        reveal_strlit("17");
        reveal_strlit("18");
        reveal_strlit("19");
        reveal_strlit("20");
        reveal_strlit("21");
        reveal_strlit("22");
        reveal_strlit("23");
        assert(r@ =~= two_digits(h as int));
    }
    r
}

/// The London civil hour one hour before `now`: the reading a wall clock
/// showed sixty minutes earlier, used to spot a fall-back transition.
fn an_hour_back(now: &Instant) -> (h: u8)
    requires
        now.representable(),
    ensures
        h as int == london_hour(now.secs - 3600),
        h < 24,
{
    london_hour_at(now.secs - 3600)
}

/// The clock announcement for `now`: localizes the instant to London's
/// civil time, special-cases midnight, and detects a repeated hour by
/// comparing with the civil hour one hour earlier.
pub fn announce(now: Instant) -> (r: String)
    requires
        now.representable(),
    ensures
        r@ == announcement(london_hour(now.secs as int), london_hour(now.secs - 3600)),
        0 <= london_hour(now.secs as int) < 24,
{
    let h = london_hour_at(now.secs);
    if h == 0 {
        return String::from_str("It's midnight");
    }
    let h_prev = an_hour_back(&now);
    let mut s = String::from_str("It's ");
    s.append(hour12_str(h));
    if h == h_prev {
        s.append(" o'clock again (");
    } else {
        s.append(" o'clock (");
    }
    s.append(padded_hour_str(h));
    s.append(":00)");
    proof {
        assert(s@ =~= announcement(london_hour(now.secs as int), london_hour(now.secs - 3600)));
    }
    s
}

} // verus!
