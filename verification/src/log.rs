//! Lines for the host's log.

use vstd::prelude::*;

verus! {

/// How grave a log line is.
#[derive(Clone, Copy, Debug, PartialEq, Eq, Structural)]
pub enum Level {
    Info,
    Warn,
    Error,
}

impl Level {
    /// The word that stands for the level in a line.
    pub open spec fn label_text(self) -> Seq<char> {
        match self {
            Level::Info => "INFO"@,
            Level::Warn => "WARNING"@,
            Level::Error => "ERROR"@,
        }
    }

    /// The word that stands for the level in a line.
    pub fn label(self) -> (r: &'static str)
        ensures
            r@ == self.label_text(),
    {
        match self {
            Level::Info => "INFO",
            Level::Warn => "WARNING",
            Level::Error => "ERROR",
        }
    }
}

/// The line for a message: the prefix, if one is set, and a blank; the level
/// and a colon; the message; and the end of the line.
pub open spec fn line_text(prefix: Option<Seq<char>>, level: Level, message: Seq<char>) -> Seq<
    char,
> {
    let head = match prefix {
        Some(prefix) => prefix + " "@,
        None => Seq::<char>::empty(),
    };
    head + level.label_text() + ": "@ + message + "\n"@
}

/// Builds the line that is written to the host's log for a message.
pub fn log_line(prefix: Option<&str>, level: Level, message: &str) -> (r: String)
    ensures
        r@ == line_text(
            match prefix {
                Some(prefix) => Some(prefix@),
                None => None,
            },
            level,
            message@,
        ),
{
    let mut out = String::new();
    match prefix {
        Some(prefix) => {
            out.append(prefix);
            out.append(" ");
        },
        None => {},
    }
    assert(out@ == match prefix {
        Some(prefix) => prefix@ + " "@,
        None => Seq::<char>::empty(),
    });
    out.append(level.label());
    out.append(": ");
    out.append(message);
    out.append("\n");
    out
}

} // verus!
