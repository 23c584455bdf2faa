//! Object-key and byte-range construction. The key shape
//! `{prefix}{counter}-{timestamp}` is the naming contract that lets GET and
//! LIST runs find what a PUT run wrote under the shared prefix.

use vstd::prelude::*;
use vstd::string::StrSliceExecFns;
use vstd::string::StringExecFns;

verus! {

/// The decimal digit character for `d`.
pub open spec fn digit_char(d: int) -> char
    recommends
        0 <= d < 10,
{
    if d == 0 {
        '0'
    } else if d == 1 {
        '1'
    } else if d == 2 {
        '2'
    } else if d == 3 {
        '3'
    } else if d == 4 {
        '4'
    } else if d == 5 {
        '5'
    } else if d == 6 {
        '6'
    } else if d == 7 {
        '7'
    } else if d == 8 {
        '8'
    } else {
        '9'
    }
}

/// The usual decimal rendering of a non-negative integer, most significant
/// digit first, with no leading zeros (zero itself is "0").
pub open spec fn dec_digits(n: int) -> Seq<char>
    recommends
        n >= 0,
    decreases n,
{
    if n < 10 {
        seq![digit_char(n)]
    } else {
        dec_digits(n / 10).push(digit_char(n % 10))
    }
}

fn digit_str(d: u64) -> (r: &'static str)
    requires
        d < 10,
    ensures
        r@ == seq![digit_char(d as int)],
{
    match d {
        0 => {
            proof {
                reveal_strlit("0");
                assert("0"@ =~= seq![digit_char(0)]);
            }
            "0"
        },
        1 => {
            proof {
                reveal_strlit("1");
                assert("1"@ =~= seq![digit_char(1)]);
            }
            "1"
        },
        2 => {
            proof {
                reveal_strlit("2");
                assert("2"@ =~= seq![digit_char(2)]);
            }
            "2"
        },
        3 => {
            proof {
                reveal_strlit("3");
                assert("3"@ =~= seq![digit_char(3)]);
            }
            "3"
        },
        4 => {
            proof {
                reveal_strlit("4");
                assert("4"@ =~= seq![digit_char(4)]);
            }
            "4"
        },
        5 => {
            proof {
                reveal_strlit("5");
                assert("5"@ =~= seq![digit_char(5)]);
            }
            "5"
        },
        6 => {
            proof {
                reveal_strlit("6");
                assert("6"@ =~= seq![digit_char(6)]);
            }
            "6"
        },
        7 => {
            proof {
                reveal_strlit("7");
                assert("7"@ =~= seq![digit_char(7)]);
            }
            "7"
        },
        8 => {
            proof {
                reveal_strlit("8");
                assert("8"@ =~= seq![digit_char(8)]);
            }
            "8"
        },
        _ => {
            proof {
                reveal_strlit("9");
                assert("9"@ =~= seq![digit_char(9)]);
            }
            "9"
        },
    }
}

/// Renders `n` in decimal.
pub fn u64_to_dec(n: u64) -> (r: String)
    ensures
        r@ == dec_digits(n as int),
    decreases n,
{
    if n < 10 {
        let s = digit_str(n);
        s.to_owned()
    } else {
        let mut s = u64_to_dec(n / 10);
        let d = digit_str(n % 10);
        s.append(d);
        proof {
            assert(n as int / 10 == (n / 10) as int);
            assert(n as int % 10 == (n % 10) as int);
            assert(dec_digits((n / 10) as int) + seq![digit_char((n % 10) as int)] =~= dec_digits(
                (n / 10) as int,
            ).push(digit_char((n % 10) as int)));
        }
        s
    }
}

/// The key written by operation number `counter` at clock reading
/// `timestamp_nanos`: the prefix, the counter, a dash, and the timestamp.
pub open spec fn spec_object_key(prefix: Seq<char>, counter: int, timestamp_nanos: int) -> Seq<
    char,
> {
    prefix + dec_digits(counter) + seq!['-'] + dec_digits(timestamp_nanos)
}

/// Builds the object key `{prefix}{counter}-{timestamp_nanos}`.
pub fn make_object_key(prefix: &str, counter: u64, timestamp_nanos: u64) -> (r: String)
    ensures
        r@ == spec_object_key(prefix@, counter as int, timestamp_nanos as int),
{
    let mut s = prefix.to_owned();
    let c = u64_to_dec(counter);
    s.append(c.as_str());
    proof {
        reveal_strlit("-");
        assert("-"@ =~= seq!['-']);
    }
    s.append("-");
    let t = u64_to_dec(timestamp_nanos);
    s.append(t.as_str());
    s
}

/// Relies on chrono::Utc::now and chrono::DateTime::timestamp_nanos_opt: the
/// current wall-clock instant as nanoseconds since the epoch, when that
/// instant is representable in 64 bits.
#[verifier::external_body]
fn now_timestamp_nanos() -> Option<i64> {
    chrono::Utc::now().timestamp_nanos_opt()
}

/// Clamps a clock reading to a usable key timestamp: an absent or pre-epoch
/// reading becomes zero.
pub fn key_timestamp(reading: Option<i64>) -> (r: u64)
    ensures
        match reading {
            Option::Some(t) => if t >= 0 {
                r == t
            } else {
                r == 0
            },
            Option::None => r == 0,
        },
{
    match reading {
        Option::Some(t) => if t >= 0 {
            t as u64
        } else {
            0
        },
        Option::None => 0,
    }
}

/// A fresh key for the next PUT operation, stamped with the wall clock now.
/// The clock reading is the one thing outside the contract: the key always
/// has the shape `{prefix}{counter}-{t}` for some non-negative timestamp `t`.
pub fn fresh_object_key(prefix: &str, counter: u64) -> (r: String)
    ensures
        exists|t: int| 0 <= t && r@ == spec_object_key(prefix@, counter as int, t),
{
    let ts = key_timestamp(now_timestamp_nanos());
    let r = make_object_key(prefix, counter, ts);
    proof {
        assert(r@ == spec_object_key(prefix@, counter as int, ts as int));
    }
    r
}

/// The byte-range header value requesting the first `range_bytes` bytes of an
/// object: `bytes=0-{last}` with `last` the inclusive index of the final byte.
pub open spec fn spec_range_header(range_bytes: int) -> Seq<char>
    recommends
        range_bytes >= 1,
{
    "bytes=0-"@ + dec_digits(range_bytes - 1)
}

/// Builds the byte-range header for a ranged GET of the first `range_bytes`
/// bytes. A range of zero bytes has no inclusive last index and is excluded.
pub fn range_header(range_bytes: u64) -> (r: String)
    requires
        range_bytes >= 1,
    ensures
        r@ == spec_range_header(range_bytes as int),
{
    let mut s = "bytes=0-".to_owned();
    let v = u64_to_dec(range_bytes - 1);
    s.append(v.as_str());
    s
}

} // verus!
