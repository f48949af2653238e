//! Log levels and the log sink that the rest of the library writes to.
//!
//! The sink keeps the formatted lines; the program prints them. Labels are coloured with
//! ANSI escape codes.
use vstd::prelude::*;

verus! {

/// Severity of a log line, from most to least severe.
#[derive(Clone, Copy, Debug, PartialEq, Eq, Structural)]
pub enum Level {
    Error,
    Warn,
    Info,
    Debug,
    Trace,
}

impl Level {
    /// Position of the level, `Error` first: a logger shows a line when the line's rank is at
    /// most its own.
    pub open spec fn rank(self) -> nat {
        match self {
            Level::Error => 1,
            Level::Warn => 2,
            Level::Info => 3,
            Level::Debug => 4,
            Level::Trace => 5,
        }
    }

    pub open spec fn name(self) -> Seq<char> {
        match self {
            Level::Error => "ERROR"@,
            Level::Warn => "WARN"@,
            Level::Info => "INFO"@,
            Level::Debug => "DEBUG"@,
            Level::Trace => "TRACE"@,
        }
    }

    /// The level's name in capitals, e.g. `WARN`.
    pub fn as_str(&self) -> (r: &'static str)
        ensures
            r@ == self.name(),
    {
        match self {
            Level::Error => "ERROR",
            Level::Warn => "WARN",
            Level::Info => "INFO",
            Level::Debug => "DEBUG",
            Level::Trace => "TRACE",
        }
    }
}

/// The colours that label log lines.
#[derive(Clone, Copy, Debug, PartialEq, Eq, Structural)]
pub enum Colour {
    Purple,
    Yellow,
    Red,
}

pub open spec fn colour_code(c: Colour) -> Seq<char> {
    match c {
        Colour::Purple => seq!['3', '5'],
        Colour::Yellow => seq!['3', '3'],
        Colour::Red => seq!['3', '1'],
    }
}

/// `s` between the escape code that selects colour `c` and the code that resets it.
pub open spec fn painted(c: Colour, s: Seq<char>) -> Seq<char> {
    seq!['\x1b', '['] + colour_code(c) + seq!['m'] + s + seq!['\x1b', '[', '0', 'm']
}

/// Relies on ansi_term's `Colour::paint` and the `Display` of its result: the foreground
/// code, the text, then the reset code.
#[verifier::external_body]
fn paint(c: Colour, s: &str) -> (r: String)
    ensures
        r@ == painted(c, s@),
{
    let colour = match c {
        Colour::Purple => ansi_term::Colour::Purple,
        Colour::Yellow => ansi_term::Colour::Yellow,
        Colour::Red => ansi_term::Colour::Red,
    };
    colour.paint(s).to_string()
}

/// A log sink that shows lines up to `level` and keeps them, formatted, in `lines`.
pub struct SimpleLogger {
    pub level: Level,
    pub lines: Vec<String>,
}

/// The line written for a record: trace lines start with their target in brackets, warnings
/// and errors with a coloured label.
pub open spec fn record_line(
    level: Level,
    target: Seq<char>,
    module_name: Seq<char>,
    message: Seq<char>,
) -> Seq<char> {
    match level {
        Level::Trace => "["@ + painted(
            Colour::Purple,
            if target.len() == 0 { module_name } else { target },
        ) + "] "@ + message,
        Level::Warn => painted(Colour::Yellow, "warning"@) + ": "@ + message,
        Level::Error => painted(Colour::Red, "error"@) + ": "@ + message,
        _ => message,
    }
}

impl SimpleLogger {
    /// The lines kept so far, as text.
    pub open spec fn lines_view(&self) -> Seq<Seq<char>> {
        self.lines@.map_values(|l: String| l@)
    }

    /// Whether a record of `level` is shown.
    pub fn enabled(&self, level: Level) -> (r: bool)
        ensures
            r == (level.rank() <= self.level.rank()),
    {
        let shown: u8 = match self.level {
            Level::Error => 1,
            Level::Warn => 2,
            Level::Info => 3,
            Level::Debug => 4,
            Level::Trace => 5,
        };
        let asked: u8 = match level {
            Level::Error => 1,
            Level::Warn => 2,
            Level::Info => 3,
            Level::Debug => 4,
            Level::Trace => 5,
        };
        asked <= shown
    }

    /// Formats a record. `target` names its origin; when empty, `module_name` does.
    pub fn format_record(level: Level, target: &str, module_name: &str, message: &str) -> (r:
        String)
        ensures
            r@ == record_line(level, target@, module_name@, message@),
    {
        match level {
            Level::Trace => {
                let origin = if target.unicode_len() == 0 {
                    module_name
                } else {
                    target
                };
                let mut r = String::from_str("[");
                let label = paint(Colour::Purple, origin);
                r.append(label.as_str());
                r.append("] ");
                r.append(message);
                r
            },
            Level::Warn => {
                let mut r = paint(Colour::Yellow, "warning");
                r.append(": ");
                r.append(message);
                r
            },
            Level::Error => {
                let mut r = paint(Colour::Red, "error");
                r.append(": ");
                r.append(message);
                r
            },
            _ => String::from_str(message),
        }
    }

    /// Keeps the formatted record if its level is shown; otherwise leaves the sink as it was.
    pub fn log(&mut self, level: Level, target: &str, message: &str)
        ensures
            final(self).level == old(self).level,
            final(self).lines_view() == old(self).lines_view() + if level.rank()
                <= old(self).level.rank() {
                seq![record_line(level, target@, "ego"@, message@)]
            } else {
                Seq::empty()
            },
    {
        if self.enabled(level) {
            let line = SimpleLogger::format_record(level, target, "ego", message);
            self.lines.push(line);
            assert(self.lines_view() =~= old(self).lines_view().push(
                record_line(level, target@, "ego"@, message@),
            ));
        } else {
            assert(self.lines_view() =~= old(self).lines_view());
        }
    }
}

/// Creates the log sink that shows records up to `level`. At the trace level its first line
/// says so.
pub fn init_with_level(level: Level) -> (r: SimpleLogger)
    ensures
        r.level == level,
        r.lines_view() == if level == Level::Trace {
            seq![record_line(level, "ego::logging"@, "ego"@, "Log level "@ + level.name())]
        } else {
            Seq::<Seq<char>>::empty()
        },
{
    let mut r = SimpleLogger { level, lines: Vec::new() };
    assert(r.lines_view() =~= Seq::<Seq<char>>::empty());
    let mut message = String::from_str("Log level ");
    message.append(level.as_str());
    r.log(Level::Trace, "ego::logging", message.as_str());
    r
}

} // verus!
