use vstd::prelude::*;
use vstd::string::StringExecFns;
use crate::level::Level;

verus! {

/// The bracketed severity tag that frames a rendered record.
pub open spec fn label_spec(level: Level) -> Seq<char> {
    match level {
        Level::Error => "ERROR"@,
        Level::Warn => "WARN"@,
        Level::Info => "INFO"@,
        Level::Debug => "DEBUG"@,
        Level::Trace => "TRACE"@,
    }
}

/// The text a record of severity `level` with message `msg` puts on the
/// console: the bracketed severity tag, the message, and a line break.
pub open spec fn rendered_spec(level: Level, msg: Seq<char>) -> Seq<char> {
    "["@ + label_spec(level) + "] "@ + msg + "\n"@
}

/// The severity tag of `level`, as static text.
pub fn label_for(level: Level) -> (s: &'static str)
    ensures
        s@ == label_spec(level),
{
    match level {
        Level::Error => "ERROR",
        Level::Warn => "WARN",
        Level::Info => "INFO",
        Level::Debug => "DEBUG",
        Level::Trace => "TRACE",
    }
}

/// Renders one record into the exact line the console receives.
pub fn render_record(level: Level, msg: &str) -> (s: String)
    ensures
        s@ == rendered_spec(level, msg@),
{
    let mut s = String::from_str("[");
    s.append(label_for(level));
    s.append("] ");
    s.append(msg);
    s.append("\n");
    proof {
        assert(s@ =~= rendered_spec(level, msg@));
    }
    s
}

/// The decimal digit character for a value below ten.
pub open spec fn digit_char(d: nat) -> char {
    if d == 0 {
        '0'
    } else if d == 1 {
        '1'
    } else if d == 2 {
        '2'
    } else if d == 3 {
        '3'
    } else if d == 4 {
        '4'
    } else if d == 5 {
        '5'
    } else if d == 6 {
        '6'
    } else if d == 7 {
        '7'
    } else if d == 8 {
        '8'
    } else {
        '9'
    }
}

/// The decimal digits of `n`, most significant first, with no leading zero
/// except for `n == 0` itself.
pub open spec fn dec_spec(n: nat) -> Seq<char>
    decreases n,
{
    if n < 10 {
        seq![digit_char(n)]
    } else {
        dec_spec(n / 10).push(digit_char(n % 10))
    }
}

/// The digit character of a value below ten, as static text.
fn digit_str(d: u64) -> (s: &'static str)
    requires
        d < 10,
    ensures
        s@ == seq![digit_char(d as nat)],
{
    if d == 0 {
        proof {
            reveal_strlit("0");
            assert("0"@ =~= seq![digit_char(0)]);
        }
        "0"
    } else if d == 1 {
        proof {
            reveal_strlit("1");
            assert("1"@ =~= seq![digit_char(1)]);
        }
        "1"
    } else if d == 2 {
        proof {
            reveal_strlit("2");
            assert("2"@ =~= seq![digit_char(2)]);
        }
        "2"
    } else if d == 3 {
        proof {
            reveal_strlit("3");
            assert("3"@ =~= seq![digit_char(3)]);
        }
        "3"
    } else if d == 4 {
        proof {
            reveal_strlit("4");
            assert("4"@ =~= seq![digit_char(4)]);
        }
        "4"
    } else if d == 5 {
        proof {
            reveal_strlit("5");
            assert("5"@ =~= seq![digit_char(5)]);
        }
        "5"
    } else if d == 6 {
        proof {
            reveal_strlit("6");
            assert("6"@ =~= seq![digit_char(6)]);
        }
        "6"
    } else if d == 7 {
        proof {
            reveal_strlit("7");
            assert("7"@ =~= seq![digit_char(7)]);
        }
        "7"
    } else if d == 8 {
        proof {
            reveal_strlit("8");
            assert("8"@ =~= seq![digit_char(8)]);
        }
        "8"
    } else {
        proof {
            reveal_strlit("9");
            assert("9"@ =~= seq![digit_char(9)]);
        }
        "9"
    }
}

/// Writes `n` in decimal.
pub fn u64_to_dec(n: u64) -> (s: String)
    ensures
        s@ == dec_spec(n as nat),
    decreases n,
{
    if n < 10 {
        String::from_str(digit_str(n))
    } else {
        let mut s = u64_to_dec(n / 10);
        s.append(digit_str(n % 10));
        proof {
            assert(s@ =~= dec_spec(n as nat));
        }
        s
    }
}

} // verus!
