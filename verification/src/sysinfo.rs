//! Host introspection that stays within the library: the machine's host
//! name, and terminal color codes.

use vstd::prelude::*;

verus! {

/// Relies on hostname::get for the machine's host name; the result depends
/// on the machine, so nothing is promised of it. A name that is not valid
/// Unicode comes back as `None`.
#[verifier::external_body]
fn machine_hostname() -> Option<String> {
    hostname::get().ok().and_then(|h| h.into_string().ok())
}

/// Information about the machine the process runs on.
pub struct SystemInfo;

impl SystemInfo {
    /// The machine's host name, when the platform reports one that is
    /// valid Unicode. The result depends on the machine, so no more can be
    /// said of it.
    pub fn hostname() -> Option<String> {
        machine_hostname()
    }
}

/// A terminal foreground color.
#[derive(Debug, Clone, Copy, PartialEq, Eq, Structural)]
#[allow(missing_docs)]
pub enum ConsoleColor {
    Black,
    Red,
    Green,
    Yellow,
    Blue,
    Magenta,
    Cyan,
    White,
    BrightBlack,
    BrightRed,
    BrightGreen,
    BrightYellow,
    BrightBlue,
    BrightMagenta,
    BrightCyan,
    BrightWhite,
}

impl ConsoleColor {
    /// The ANSI escape sequence that selects this color.
    pub fn ansi_code(&self) -> (r: &'static str)
        ensures
            r@ == match self {
                ConsoleColor::Black => "\x1b[30m"@,
                ConsoleColor::Red => "\x1b[31m"@,
                ConsoleColor::Green => "\x1b[32m"@,
                ConsoleColor::Yellow => "\x1b[33m"@,
                ConsoleColor::Blue => "\x1b[34m"@,
                ConsoleColor::Magenta => "\x1b[35m"@,
                ConsoleColor::Cyan => "\x1b[36m"@,
                ConsoleColor::White => "\x1b[37m"@,
                ConsoleColor::BrightBlack => "\x1b[90m"@,
                ConsoleColor::BrightRed => "\x1b[91m"@,
                ConsoleColor::BrightGreen => "\x1b[92m"@,
                ConsoleColor::BrightYellow => "\x1b[93m"@,
                ConsoleColor::BrightBlue => "\x1b[94m"@,
                ConsoleColor::BrightMagenta => "\x1b[95m"@,
                ConsoleColor::BrightCyan => "\x1b[96m"@,
                ConsoleColor::BrightWhite => "\x1b[97m"@,
            },
    {
        match self {
            ConsoleColor::Black => "\x1b[30m",
            ConsoleColor::Red => "\x1b[31m",
            ConsoleColor::Green => "\x1b[32m",
            ConsoleColor::Yellow => "\x1b[33m",
            ConsoleColor::Blue => "\x1b[34m",
            ConsoleColor::Magenta => "\x1b[35m",
            ConsoleColor::Cyan => "\x1b[36m",
            ConsoleColor::White => "\x1b[37m",
            ConsoleColor::BrightBlack => "\x1b[90m",
            ConsoleColor::BrightRed => "\x1b[91m",
            ConsoleColor::BrightGreen => "\x1b[92m",
            ConsoleColor::BrightYellow => "\x1b[93m",
            ConsoleColor::BrightBlue => "\x1b[94m",
            ConsoleColor::BrightMagenta => "\x1b[95m",
            ConsoleColor::BrightCyan => "\x1b[96m",
            ConsoleColor::BrightWhite => "\x1b[97m",
        }
    }
}

} // verus!
