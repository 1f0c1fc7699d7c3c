//! The event log: how its files are named and how its entries read.
//!
//! The library writes no file. It names the file and words each entry; the
//! moment of an entry is read from the clock through the `time` crate.

use vstd::prelude::*;
use vstd::string::*;
use crate::text::{chars_of, join};

verus! {

/// Severity of a log entry.
#[derive(Debug, Clone, Copy, PartialEq, Eq, Structural)]
pub enum Level {
    Error,
    Warn,
    Info,
    Debug,
    Trace,
}

impl Level {
    /// The word that stands for the level in an entry.
    pub open spec fn label_of(self) -> Seq<char> {
        match self {
            Level::Error => "ERROR"@,
            Level::Warn => "WARN"@,
            Level::Info => "INFO"@,
            Level::Debug => "DEBUG"@,
            Level::Trace => "TRACE"@,
        }
    }

    /// The word that stands for the level in an entry.
    pub fn label(self) -> (word: &'static str)
        ensures
            word@ == self.label_of(),
    {
        match self {
            Level::Error => "ERROR",
            Level::Warn => "WARN",
            Level::Info => "INFO",
            Level::Debug => "DEBUG",
            Level::Trace => "TRACE",
        }
    }
}

/// Format of the moment in a file name: date and time of day, to the
/// second.
pub const FILE_STAMP: &'static str = "%F.%H-%M-%S";

/// Format of the moment in an entry: date, time of day and the fraction of
/// the second.
pub const ENTRY_STAMP: &'static str = "%D %T.%f";

/// Directory of the main log.
pub const MAIN_LOG_DIRECTORY: &'static str = "data/logs/main";

/// The name of the log file of `stem` that was begun at `stamp`.
pub open spec fn file_name_of(stem: Seq<char>, stamp: Seq<char>) -> Seq<char> {
    stem + "."@ + stamp + ".log"@
}

/// The entry that records `message`: prefix and level in brackets, then
/// the moment and the message set off by dashes, and a line feed.
pub open spec fn entry_of(prefix: Seq<char>, level: Level, stamp: Seq<char>, message: Seq<char>)
    -> Seq<char> {
    "["@ + prefix + "]["@ + level.label_of() + "] - "@ + stamp + " - "@ + message + "\n"@
}

/// The letters that `time::strftime` takes after a `%`.
pub open spec fn is_conversion(c: char) -> bool {
    ||| c == 'A' || c == 'a' || c == 'B' || c == 'b' || c == 'C' || c == 'c' || c == 'D'
    ||| c == 'd' || c == 'e' || c == 'F' || c == 'f' || c == 'G' || c == 'g' || c == 'H'
    ||| c == 'h' || c == 'I' || c == 'j' || c == 'k' || c == 'l' || c == 'M' || c == 'm'
    ||| c == 'n' || c == 'P' || c == 'p' || c == 'R' || c == 'r' || c == 'S' || c == 's'
    ||| c == 'T' || c == 't' || c == 'U' || c == 'u' || c == 'V' || c == 'v' || c == 'W'
    ||| c == 'w' || c == 'X' || c == 'x' || c == 'Y' || c == 'y' || c == 'Z' || c == 'z'
    ||| c == '+' || c == '%'
}

/// Whether `format` is in order from position `at` on: every `%` is
/// followed by a conversion letter, which is then passed over.
pub open spec fn accepted_from(format: Seq<char>, at: int) -> bool
    decreases format.len() - at,
{
    if at < 0 || at >= format.len() {
        true
    } else if format[at] == '%' {
        at + 1 < format.len() && is_conversion(format[at + 1]) && accepted_from(format, at + 2)
    } else {
        accepted_from(format, at + 1)
    }
}

/// Whether `time::strftime` takes `format`.
pub open spec fn format_accepted(format: Seq<char>) -> bool {
    accepted_from(format, 0)
}

/// Whether `c` is a letter that `time::strftime` takes after a `%`.
pub fn char_is_conversion(c: char) -> (yes: bool)
    ensures
        yes == is_conversion(c),
{
    c == 'A' || c == 'a' || c == 'B' || c == 'b' || c == 'C' || c == 'c' || c == 'D' || c == 'd'
        || c == 'e' || c == 'F' || c == 'f' || c == 'G' || c == 'g' || c == 'H' || c == 'h' || c
        == 'I' || c == 'j' || c == 'k' || c == 'l' || c == 'M' || c == 'm' || c == 'n' || c == 'P'
        || c == 'p' || c == 'R' || c == 'r' || c == 'S' || c == 's' || c == 'T' || c == 't' || c
        == 'U' || c == 'u' || c == 'V' || c == 'v' || c == 'W' || c == 'w' || c == 'X' || c == 'x'
        || c == 'Y' || c == 'y' || c == 'Z' || c == 'z' || c == '+' || c == '%'
}

/// Whether the clock can be written in `format`.
pub fn format_is_accepted(format: &str) -> (yes: bool)
    ensures
        yes == format_accepted(format@),
{
    let chars: Vec<char> = chars_of(format);
    let mut at: usize = 0;
    while at < chars.len()
        invariant
            chars@ == format@,
            format_accepted(format@) == accepted_from(format@, at as int),
        decreases chars.len() - at,
    {
        if chars[at] == '%' {
            if at + 1 >= chars.len() || !char_is_conversion(chars[at + 1]) {
                return false;
            }
            at = at + 2;
        } else {
            at = at + 1;
        }
    }
    true
}

/// The present moment in coordinated universal time, written in `format`
/// by `time::strftime` from what `time::now_utc` returns.
///
/// `strftime` refuses a time whose weekday or month is out of range, which
/// `now_utc` does not give, and otherwise exactly the formats in which
/// some `%` is not followed by one of its conversion letters. So there is
/// a text exactly if the format is accepted. Nothing is claimed of the
/// text itself: it depends on the clock.
#[verifier::external_body]
fn utc_now(format: &str) -> (stamp: Option<String>)
    ensures
        stamp is Some <==> format_accepted(format@),
{
    time::strftime(format, &time::now_utc()).ok()
}

/// The two formats of the library are accepted.
proof fn lemma_stamps_accepted()
    ensures
        format_accepted(FILE_STAMP@),
        format_accepted(ENTRY_STAMP@),
{
    reveal_strlit("%F.%H-%M-%S");
    reveal_strlit("%D %T.%f");
    reveal_with_fuel(accepted_from, 12);
}

/// An event log of one concern.
#[derive(Debug)]
pub struct Logger {
    /// Name of the file that the entries go to.
    pub file_name: String,
    /// What stands in the first bracket of every entry.
    pub prefix: String,
}

impl Logger {
    /// The log of `stem` that was begun at the moment `stamp`.
    pub fn begun_at(stem: &str, prefix: &str, stamp: &str) -> (logger: Logger)
        ensures
            logger.file_name@ == file_name_of(stem@, stamp@),
            logger.prefix@ == prefix@,
    {
        Logger {
            file_name: join(stem, ".").concat(stamp).concat(".log"),
            prefix: prefix.to_owned(),
        }
    }

    /// The log of `stem`, begun now: there always is one, and its file is
    /// named by the stem and the present moment, written in `FILE_STAMP`.
    pub fn new(stem: &str, prefix: &str) -> (logger: Option<Logger>)
        ensures
            logger matches Some(l) && l.prefix@ == prefix@ && exists|stamp: Seq<char>|
                l.file_name@ == file_name_of(stem@, stamp),
    {
        proof {
            lemma_stamps_accepted();
        }
        match utc_now(FILE_STAMP) {
            Some(stamp) => {
                let logger = Logger::begun_at(stem, prefix, stamp.as_str());
                assert(logger.file_name@ == file_name_of(stem@, stamp@));
                Some(logger)
            },
            None => None,
        }
    }

    /// The entry that records `message` at the moment `stamp`.
    pub fn entry(&self, message: &str, level: Level, stamp: &str) -> (line: String)
        ensures
            line@ == entry_of(self.prefix@, level, stamp@, message@),
    {
        join("[", self.prefix.as_str()).concat("][").concat(level.label()).concat("] - ").concat(
            stamp,
        ).concat(" - ").concat(message).concat("\n")
    }

    /// The entry that records `message` now: there always is one, and it
    /// carries the present moment, written in `ENTRY_STAMP`.
    pub fn log(&self, message: &str, level: Level) -> (line: Option<String>)
        ensures
            line matches Some(text) && exists|stamp: Seq<char>|
                text@ == entry_of(self.prefix@, level, stamp, message@),
    {
        proof {
            lemma_stamps_accepted();
        }
        match utc_now(ENTRY_STAMP) {
            Some(stamp) => {
                let text = self.entry(message, level, stamp.as_str());
                assert(text@ == entry_of(self.prefix@, level, stamp@, message@));
                Some(text)
            },
            None => None,
        }
    }
}

/// How the main log of the program is set up.
#[derive(Debug)]
pub struct MainLog {
    /// The log itself.
    pub logger: Logger,
    /// Whether entries are also printed.
    pub console: bool,
    /// The least severe level that is recorded.
    pub threshold: Level,
}

/// The set-up of the main log begun at `stamp`. When debugging, entries
/// are also printed and every level is recorded; otherwise nothing below
/// `Info` is.
pub fn init_logger(debug: bool, stamp: &str) -> (plan: MainLog)
    ensures
        plan.logger.file_name@ == file_name_of("OpenStratos"@, stamp@),
        plan.logger.prefix@ == "OpenStratos"@,
        plan.console == debug,
        plan.threshold == if debug {
            Level::Trace
        } else {
            Level::Info
        },
{
    MainLog {
        logger: Logger::begun_at("OpenStratos", "OpenStratos", stamp),
        console: debug,
        threshold: if debug {
            Level::Trace
        } else {
            Level::Info
        },
    }
}

} // verus!
