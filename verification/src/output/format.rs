use vstd::prelude::*;
use vstd::string::StringExecFns;
use crate::loggers::log_levels::LogLevel;

verus! {

/// The decimal digit character for a value below ten.
pub open spec fn spec_digit_char(d: int) -> char {
    if d == 0 {
        '0'
    } else if d == 1 {
        '1'
    } else if d == 2 {
        '2'
    } else if d == 3 {
        '3'
    } else if d == 4 {
        '4'
    } else if d == 5 {
        '5'
    } else if d == 6 {
        '6'
    } else if d == 7 {
        '7'
    } else if d == 8 {
        '8'
    } else {
        '9'
    }
}

/// The decimal spelling of a non-negative number, most significant
/// digit first, with no leading zeros (zero itself spells `0`).
pub open spec fn spec_u32_string(n: int) -> Seq<char>
    decreases n,
{
    if n < 10 {
        seq![spec_digit_char(n)]
    } else {
        spec_u32_string(n / 10).push(spec_digit_char(n % 10))
    }
}

fn digit_str(d: u32) -> (r: &'static str)
    requires
        d < 10,
    ensures
        r@ == seq![spec_digit_char(d as int)],
{
    match d {
        0 => {
            proof {
                reveal_strlit("0");
                assert("0"@ =~= seq![spec_digit_char(0)]);
            }
            "0"
        },
        1 => {
            proof {
                reveal_strlit("1");
                assert("1"@ =~= seq![spec_digit_char(1)]);
            }
            "1"
        },
        2 => {
            proof {
                reveal_strlit("2");
                assert("2"@ =~= seq![spec_digit_char(2)]);
            }
            "2"
        },
        3 => {
            proof {
                reveal_strlit("3");
                assert("3"@ =~= seq![spec_digit_char(3)]);
            }
            "3"
        },
        4 => {
            proof {
                reveal_strlit("4");
                assert("4"@ =~= seq![spec_digit_char(4)]);
            }
            "4"
        },
        5 => {
            proof {
                reveal_strlit("5");
                assert("5"@ =~= seq![spec_digit_char(5)]);
            }
            "5"
        },
        6 => {
            proof {
                reveal_strlit("6");
                assert("6"@ =~= seq![spec_digit_char(6)]);
            }
            "6"
        },
        7 => {
            proof {
                reveal_strlit("7");
                assert("7"@ =~= seq![spec_digit_char(7)]);
            }
            "7"
        },
        8 => {
            proof {
                reveal_strlit("8");
                assert("8"@ =~= seq![spec_digit_char(8)]);
            }
            "8"
        },
        _ => {
            proof {
                reveal_strlit("9");
                assert("9"@ =~= seq![spec_digit_char(9)]);
            }
            "9"
        },
    }
}

/// Appends the decimal spelling of `n` to `s`.
fn push_u32_decimal(s: &mut String, n: u32)
    ensures
        final(s)@ == old(s)@ + spec_u32_string(n as int),
    decreases n,
{
    if n >= 10 {
        push_u32_decimal(s, n / 10);
        let d = digit_str(n % 10);
        s.append(d);
        proof {
            assert(s@ =~= old(s)@ + spec_u32_string(n as int));
        }
    } else {
        let d = digit_str(n);
        s.append(d);
    }
}

/// Renders a number in decimal.
pub fn u32_to_string(n: u32) -> (r: String)
    ensures
        r@ == spec_u32_string(n as int),
{
    let mut s = String::new();
    push_u32_decimal(&mut s, n);
    proof {
        assert(s@ =~= spec_u32_string(n as int));
    }
    s
}

/// The spelling of a boolean in a configuration snapshot.
pub open spec fn spec_bool_str(b: bool) -> Seq<char> {
    if b {
        "true"@
    } else {
        "false"@
    }
}

/// Renders a boolean as `true` or `false`.
pub fn bool_str(b: bool) -> (r: &'static str)
    ensures
        r@ == spec_bool_str(b),
{
    if b {
        "true"
    } else {
        "false"
    }
}

/// The text of one emitted line: `[<timestamp> - <SEVERITY>] <message>`,
/// suffixed with ` | File: <file> | Line: <line> | ` when paranoia is
/// active for the resolved scope.
pub open spec fn spec_line(
    timestamp: Seq<char>,
    level: LogLevel,
    message: Seq<char>,
    paranoia: bool,
    file: Seq<char>,
    line: int,
) -> Seq<char> {
    let head = "["@ + timestamp + " - "@ + level.spec_name() + "] "@ + message;
    if paranoia {
        head + " | File: "@ + file + " | Line: "@ + spec_u32_string(line) + " | "@
    } else {
        head
    }
}

/// Formats one line exactly as it will be handed to the sinks.
pub fn format_line(
    timestamp: &str,
    level: LogLevel,
    message: &str,
    paranoia: bool,
    file: &str,
    line: u32,
) -> (r: String)
    ensures
        r@ == spec_line(timestamp@, level, message@, paranoia, file@, line as int),
{
    let mut s = String::new();
    s.append("[");
    s.append(timestamp);
    s.append(" - ");
    s.append(level.as_str());
    s.append("] ");
    s.append(message);
    if paranoia {
        s.append(" | File: ");
        s.append(file);
        s.append(" | Line: ");
        push_u32_decimal(&mut s, line);
        s.append(" | ");
    }
    proof {
        assert(s@ =~= spec_line(timestamp@, level, message@, paranoia, file@, line as int));
    }
    s
}

} // verus!
