use vstd::prelude::*;
use vstd::string::StringExecFns;

verus! {

/// Colors that terminal text can be wrapped in, by ANSI escape code.
#[derive(Clone, Copy, Debug)]
pub enum Color {
    Red,
    Green,
    Yellow,
    Blue,
    Magenta,
    Cyan,
    Gray,
    White,
    Black,
    Reset,
}

impl Color {
    /// The ANSI escape code that switches the terminal to this color.
    pub open spec fn spec_ansi_code(self) -> Seq<char> {
        match self {
            Color::Red => "\x1b[31m"@,
            Color::Green => "\x1b[32m"@,
            Color::Yellow => "\x1b[33m"@,
            Color::Blue => "\x1b[34m"@,
            Color::Magenta => "\x1b[35m"@,
            Color::Cyan => "\x1b[36m"@,
            Color::Gray => "\x1b[90m"@,
            Color::White => "\x1b[37m"@,
            Color::Black => "\x1b[30m"@,
            Color::Reset => "\x1b[0m"@,
        }
    }

    /// The ANSI escape code that switches the terminal to this color.
    pub fn to_ansi_code(&self) -> (r: &'static str)
        ensures
            r@ == self.spec_ansi_code(),
    {
        match self {
            Color::Red => "\x1b[31m",
            Color::Green => "\x1b[32m",
            Color::Yellow => "\x1b[33m",
            Color::Blue => "\x1b[34m",
            Color::Magenta => "\x1b[35m",
            Color::Cyan => "\x1b[36m",
            Color::Gray => "\x1b[90m",
            Color::White => "\x1b[37m",
            Color::Black => "\x1b[30m",
            Color::Reset => "\x1b[0m",
        }
    }
}

/// Wraps text in the escape codes for `color`, switching the terminal
/// back to its normal color afterwards.
pub fn colorize(text: &str, color: Color) -> (r: String)
    ensures
        r@ == color.spec_ansi_code() + text@ + Color::Reset.spec_ansi_code(),
{
    let mut s = String::new();
    s.append(color.to_ansi_code());
    s.append(text);
    s.append(Color::Reset.to_ansi_code());
    proof {
        assert(s@ =~= color.spec_ansi_code() + text@ + Color::Reset.spec_ansi_code());
    }
    s
}

} // verus!
