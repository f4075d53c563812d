//! The topic and the published payloads: a small JSON object with a
//! fixed message and a decimal sequence number, built and specified
//! character by character.

use vstd::prelude::*;
use vstd::string::StringExecFns;

verus! {

/// The one topic this session subscribes and publishes to.
pub open spec fn topic_chars() -> Seq<char> {
    "hello/world"@
}

/// The decimal digit character for `d` (`d < 10`; larger values are
/// clamped to `'9'`, a case no caller reaches).
pub open spec fn digit_char(d: nat) -> char {
    if d == 0 {
        '0'
    } else if d == 1 {
        '1'
    } else if d == 2 {
        '2'
    } else if d == 3 {
        '3'
    } else if d == 4 {
        '4'
    } else if d == 5 {
        '5'
    } else if d == 6 {
        '6'
    } else if d == 7 {
        '7'
    } else if d == 8 {
        '8'
    } else {
        '9'
    }
}

/// The usual decimal rendering of `n`: most significant digit first,
/// no leading zeros except for `n == 0` itself.
pub open spec fn dec_chars(n: nat) -> Seq<char>
    decreases n,
{
    if n < 10 {
        seq![digit_char(n)]
    } else {
        dec_chars(n / 10) + seq![digit_char(n % 10)]
    }
}

/// Everything of the payload before the sequence number.
pub open spec fn payload_prefix() -> Seq<char> {
    "{\"message\": \"hello from rust!\",\"sequence\": "@
}

/// Everything of the payload after the sequence number.
pub open spec fn payload_suffix() -> Seq<char> {
    " }"@
}

/// The full payload published for sequence number `n`.
pub open spec fn payload_chars(n: nat) -> Seq<char> {
    payload_prefix() + dec_chars(n) + payload_suffix()
}

/// The one topic this session subscribes and publishes to.
pub fn topic() -> (t: String)
    ensures
        t@ == topic_chars(),
{
    String::from_str("hello/world")
}

fn digit_str(d: u64) -> (s: &'static str)
    requires
        d < 10,
    ensures
        s@ == seq![digit_char(d as nat)],
{
    match d {
        0 => {
            proof {
                reveal_strlit("0");
                assert("0"@ =~= seq![digit_char(0)]);
            }
            "0"
        },
        1 => {
            proof {
                reveal_strlit("1");
                assert("1"@ =~= seq![digit_char(1)]);
            }
            "1"
        },
        2 => {
            proof {
                reveal_strlit("2");
                assert("2"@ =~= seq![digit_char(2)]);
            }
            "2"
        },
        3 => {
            proof {
                reveal_strlit("3");
                assert("3"@ =~= seq![digit_char(3)]);
            }
            "3"
        },
        4 => {
            proof {
                reveal_strlit("4");
                assert("4"@ =~= seq![digit_char(4)]);
            }
            "4"
        },
        5 => {
            proof {
                reveal_strlit("5");
                assert("5"@ =~= seq![digit_char(5)]);
            }
            "5"
        },
        6 => {
            proof {
                reveal_strlit("6");
                assert("6"@ =~= seq![digit_char(6)]);
            }
            "6"
        },
        7 => {
            proof {
                reveal_strlit("7");
                assert("7"@ =~= seq![digit_char(7)]);
            }
            "7"
        },
        8 => {
            proof {
                reveal_strlit("8");
                assert("8"@ =~= seq![digit_char(8)]);
            }
            "8"
        },
        _ => {
            proof {
                reveal_strlit("9");
                assert("9"@ =~= seq![digit_char(9)]);
            }
            "9"
        },
    }
}

/// Renders `n` in decimal.
pub fn dec_string(n: u64) -> (r: String)
    ensures
        r@ == dec_chars(n as nat),
    decreases n,
{
    if n < 10 {
        String::from_str(digit_str(n))
    } else {
        let mut r = dec_string(n / 10);
        r.append(digit_str(n % 10));
        proof {
            assert(r@ =~= dec_chars(n as nat));
        }
        r
    }
}

/// Builds the payload published for sequence number `n`.
pub fn sequence_payload(n: u64) -> (p: String)
    ensures
        p@ == payload_chars(n as nat),
{
    let mut p = String::from_str("{\"message\": \"hello from rust!\",\"sequence\": ");
    let digits = dec_string(n);
    p.append(digits.as_str());
    p.append(" }");
    proof {
        assert(p@ =~= payload_chars(n as nat));
    }
    p
}

} // verus!
