//! The shape of a log line: when, how grave, from which module, what.

use vstd::prelude::*;
use vstd::string::*;
use std::fmt::Write;

verus! {

/// How grave a message is.
#[derive(Debug, Clone, Copy, PartialEq, Eq, Structural)]
pub enum Level {
    Error,
    Warn,
    Info,
    Debug,
    Trace,
}

/// The width that a module's name is padded to.
pub const MODULE_WIDTH: usize = 8;

impl Level {
    /// The level's name in its colour, five columns wide.
    pub open spec fn label(self) -> Seq<char> {
        match self {
            Level::Error => "\x1b[31mERROR\x1b[0m"@,
            Level::Warn => "\x1b[33mWARN \x1b[0m"@,
            Level::Info => "\x1b[32mINFO \x1b[0m"@,
            Level::Debug => "\x1b[36mDEBUG\x1b[0m"@,
            Level::Trace => "\x1b[35mTRACE\x1b[0m"@,
        }
    }

    /// The level's name in its colour, five columns wide.
    pub fn as_label(self) -> (label: &'static str)
        ensures
            label@ == self.label(),
    {
        match self {
            Level::Error => "\x1b[31mERROR\x1b[0m",
            Level::Warn => "\x1b[33mWARN \x1b[0m",
            Level::Info => "\x1b[32mINFO \x1b[0m",
            Level::Debug => "\x1b[36mDEBUG\x1b[0m",
            Level::Trace => "\x1b[35mTRACE\x1b[0m",
        }
    }
}

/// Where the last part of `target` begins when `target` is cut at every
/// `::`, the cuts being found from left to right from `pos` on and `start`
/// being the end of the last cut found so far.
pub open spec fn last_part_start(target: Seq<char>, pos: int, start: int) -> int
    decreases target.len() - pos,
{
    if pos < 0 || pos + 1 >= target.len() {
        start
    } else if target[pos] == ':' && target[pos + 1] == ':' {
        last_part_start(target, pos + 2, pos + 2)
    } else {
        last_part_start(target, pos + 1, start)
    }
}

/// The module that a message comes from: the last part of its target.
pub open spec fn module_of(target: Seq<char>) -> Seq<char> {
    target.skip(last_part_start(target, 0, 0))
}

/// `count` spaces.
pub open spec fn spaces(count: nat) -> Seq<char> {
    Seq::new(count, |i: int| ' ')
}

/// `text` with spaces in front until it is `width` characters wide; a text
/// that is wider stays as it is.
pub open spec fn right_aligned(text: Seq<char>, width: nat) -> Seq<char> {
    if text.len() >= width {
        text
    } else {
        spaces((width - text.len()) as nat) + text
    }
}

/// A log line without its line end.
pub open spec fn line_of(time: Seq<char>, level: Level, target: Seq<char>, message: Seq<char>)
    -> Seq<char> {
    time + " "@ + level.label() + " ["@ + right_aligned(module_of(target), MODULE_WIDTH as nat)
        + "] "@ + message
}

/// The module that a message with this target comes from.
pub fn module_name(target: &str) -> (module: String)
    ensures
        module@ == module_of(target@),
{
    let n = target.unicode_len();
    let mut pos: usize = 0;
    let mut start: usize = 0;
    while pos < n && pos + 1 < n
        invariant
            n == target@.len(),
            0 <= start <= pos <= n,
            last_part_start(target@, pos as int, start as int) == last_part_start(target@, 0, 0),
        decreases n - pos,
    {
        if target.get_char(pos) == ':' && target.get_char(pos + 1) == ':' {
            pos = pos + 2;
            start = pos;
        } else {
            pos = pos + 1;
        }
    }
    let part = target.substring_char(start, n);
    String::from_str(part)
}

/// `text` padded on the left to `width` characters.
pub fn pad_left(text: &str, width: usize) -> (padded: String)
    ensures
        padded@ == right_aligned(text@, width as nat),
{
    let n = text.unicode_len();
    let mut padded = String::new();
    let mut i: usize = n;
    proof {
        reveal_strlit(" ");
    }
    while i < width
        invariant
            n <= i,
            n < width ==> i <= width,
            n >= width ==> i == n,
            padded@ == spaces((i - n) as nat),
            " "@ == seq![' '],
        decreases width - i,
    {
        padded.append(" ");
        i = i + 1;
    }
    padded.append(text);
    padded
}

/// Puts a log line together.
pub fn format_log(time: &str, level: Level, target: &str, message: &str) -> (line: String)
    ensures
        line@ == line_of(time@, level, target@, message@),
{
    let module = module_name(target);
    let padded = pad_left(module.as_str(), MODULE_WIDTH);
    let mut line = String::from_str(time);
    line.append(" ");
    line.append(level.as_label());
    line.append(" [");
    line.append(padded.as_str());
    line.append("] ");
    line.append(message);
    line
}

/// How the time of a message is written: hours, minutes and seconds.
pub const TIME_FORMAT: &'static str = "%H:%M:%S";

/// `chrono::Local::now` and `DateTime::format`: the local time of this
/// moment, written as `format` says; none where `format` cannot be
/// followed. The answer depends on the clock, so nothing is claimed of it.
#[verifier::external_body]
fn local_time(format: &str) -> (time: Option<String>) {
    let mut time = String::new();
    write!(time, "{}", chrono::Local::now().format(format)).ok().map(|_| time)
}

/// Puts together the log line of a message that is written now. The time
/// is the clock's; the rest of the line is as [`format_log`] makes it.
pub fn format_log_now(level: Level, target: &str, message: &str) -> (line: String)
    ensures
        exists|time: Seq<char>| line@ == line_of(time, level, target@, message@),
{
    let time = match local_time(TIME_FORMAT) {
        Some(time) => time,
        None => String::new(),
    };
    format_log(time.as_str(), level, target, message)
}

} // verus!
