//! Verified rendering of the display strings and report lines: decimal
//! digits, fixed-point one-decimal values, and the exact line formats the
//! simulation emits.

use vstd::prelude::*;
use vstd::string::StringExecFns;

verus! {

/// The decimal digit character for `d` (0 through 9).
pub open spec fn spec_digit(d: int) -> char {
    if d == 0 {
        '0'
    } else if d == 1 {
        '1'
    } else if d == 2 {
        '2'
    } else if d == 3 {
        '3'
    } else if d == 4 {
        '4'
    } else if d == 5 {
        '5'
    } else if d == 6 {
        '6'
    } else if d == 7 {
        '7'
    } else if d == 8 {
        '8'
    } else {
        '9'
    }
}

/// Decimal representation of a non-negative integer, most significant
/// digit first, without leading zeros (a single zero for 0).
pub open spec fn spec_udec(n: int) -> Seq<char>
    decreases n,
{
    if n < 10 {
        seq![spec_digit(n)]
    } else {
        spec_udec(n / 10).push(spec_digit(n % 10))
    }
}

/// A value counted in tenths, written with one decimal place ("12.3").
pub open spec fn spec_dec1(tenths: int) -> Seq<char> {
    spec_udec(tenths / 10) + "."@ + seq![spec_digit(tenths % 10)]
}

/// The FPS display string for a rounded average.
pub open spec fn spec_fps_text(rounded: int) -> Seq<char> {
    "FPS: "@ + spec_udec(rounded)
}

/// The entity-count display string.
pub open spec fn spec_entities_text(total: int) -> Seq<char> {
    "Entities: "@ + spec_udec(total)
}

/// The log line emitted by a successful spawn batch.
pub open spec fn spec_batch_log(batch: int, total: int) -> Seq<char> {
    "Batch "@ + spec_udec(batch) + ": Total Entities "@ + spec_udec(total)
}

/// The periodic console report line; `elapsed_tenths` and `avg_tenths`
/// are tenths of a second and tenths of an FPS unit.
pub open spec fn spec_report_line(elapsed_tenths: int, total: int, avg_tenths: int) -> Seq<char> {
    "["@ + spec_dec1(elapsed_tenths) + "s] Entities: "@ + spec_udec(total) + ", 3-sec Avg FPS: "@
        + spec_dec1(avg_tenths)
}

fn digit_str(d: u64) -> (r: &'static str)
    requires
        d < 10,
    ensures
        r@ == seq![spec_digit(d as int)],
{
    if d == 0 {
        proof {
            reveal_strlit("0");
            assert("0"@ =~= seq![spec_digit(0int)]);
        }
        "0"
    } else if d == 1 {
        proof {
            reveal_strlit("1");
            assert("1"@ =~= seq![spec_digit(1int)]);
        }
        "1"
    } else if d == 2 {
        proof {
            reveal_strlit("2");
            assert("2"@ =~= seq![spec_digit(2int)]);
        }
        "2"
    } else if d == 3 {
        proof {
            reveal_strlit("3");
            assert("3"@ =~= seq![spec_digit(3int)]);
        }
        "3"
    } else if d == 4 {
        proof {
            reveal_strlit("4");
            assert("4"@ =~= seq![spec_digit(4int)]);
        }
        "4"
    } else if d == 5 {
        proof {
            reveal_strlit("5");
            assert("5"@ =~= seq![spec_digit(5int)]);
        }
        "5"
    } else if d == 6 {
        proof {
            reveal_strlit("6");
            assert("6"@ =~= seq![spec_digit(6int)]);
        }
        "6"
    } else if d == 7 {
        proof {
            reveal_strlit("7");
            assert("7"@ =~= seq![spec_digit(7int)]);
        }
        "7"
    } else if d == 8 {
        proof {
            reveal_strlit("8");
            assert("8"@ =~= seq![spec_digit(8int)]);
        }
        "8"
    } else {
        proof {
            reveal_strlit("9");
            assert("9"@ =~= seq![spec_digit(9int)]);
        }
        "9"
    }
}

/// Renders `n` in decimal.
pub fn udec(n: u64) -> (s: String)
    ensures
        s@ == spec_udec(n as int),
    decreases n,
{
    if n < 10 {
        String::from_str(digit_str(n))
    } else {
        let mut s = udec(n / 10);
        s.append(digit_str(n % 10));
        proof {
            assert(s@ =~= spec_udec(n as int));
        }
        s
    }
}

/// Renders a tenths count with one decimal place.
pub fn dec1(tenths: u64) -> (s: String)
    ensures
        s@ == spec_dec1(tenths as int),
{
    let mut s = udec(tenths / 10);
    s.append(".");
    s.append(digit_str(tenths % 10));
    proof {
        assert(s@ =~= spec_dec1(tenths as int));
    }
    s
}

/// Renders the FPS display string.
pub fn fps_text(rounded: u64) -> (s: String)
    ensures
        s@ == spec_fps_text(rounded as int),
{
    let mut s = String::from_str("FPS: ");
    let digits = udec(rounded);
    s.append(digits.as_str());
    s
}

/// The FPS display string shown before any sample exists.
pub fn fps_placeholder_text() -> (s: String)
    ensures
        s@ == "FPS: --"@,
{
    String::from_str("FPS: --")
}

/// Renders the entity-count display string.
pub fn entities_text(total: u64) -> (s: String)
    ensures
        s@ == spec_entities_text(total as int),
{
    let mut s = String::from_str("Entities: ");
    let digits = udec(total);
    s.append(digits.as_str());
    s
}

/// Renders the log line for a successful spawn batch.
pub fn batch_log(batch: u64, total: u64) -> (s: String)
    ensures
        s@ == spec_batch_log(batch as int, total as int),
{
    let mut s = String::from_str("Batch ");
    let b = udec(batch);
    s.append(b.as_str());
    s.append(": Total Entities ");
    let t = udec(total);
    s.append(t.as_str());
    proof {
        assert(s@ =~= spec_batch_log(batch as int, total as int));
    }
    s
}

/// Renders the periodic console report line.
pub fn report_line(elapsed_tenths: u64, total: u64, avg_tenths: u64) -> (s: String)
    ensures
        s@ == spec_report_line(elapsed_tenths as int, total as int, avg_tenths as int),
{
    let mut s = String::from_str("[");
    let e = dec1(elapsed_tenths);
    s.append(e.as_str());
    s.append("s] Entities: ");
    let t = udec(total);
    s.append(t.as_str());
    s.append(", 3-sec Avg FPS: ");
    let a = dec1(avg_tenths);
    s.append(a.as_str());
    proof {
        assert(s@ =~= spec_report_line(elapsed_tenths as int, total as int, avg_tenths as int));
    }
    s
}

} // verus!
