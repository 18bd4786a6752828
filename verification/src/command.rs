//! The commands that the bot understands and how a message is read as one.

use vstd::prelude::*;
use crate::text::{chars_of, range_is};

verus! {

/// A command of the bot.
#[derive(Clone, Copy, Debug, PartialEq, Eq, Structural)]
pub enum Command {
    /// Show the list of commands.
    Help,
    /// Ask for the weather at a place.
    Weather,
}

/// The name under which the bot is addressed, as in `/help@ButlerBot`.
pub open spec fn bot_name() -> Seq<char> {
    "ButlerBot"@
}

/// The list of commands as it is shown to the user.
pub open spec fn descriptions_text() -> Seq<char> {
    "These commands are supported:\n/help - display this text.\n/weather - show weather at specific location.\n"@
}

/// How many characters of `s` stand before the first `stop`; the length of
/// `s` where it holds none.
pub open spec fn position(s: Seq<char>, stop: char) -> int
    decreases s.len(),
{
    if s.len() == 0 || s[0] == stop {
        0
    } else {
        1 + position(s.drop_first(), stop)
    }
}

/// The part of `s` before the first `stop`; all of `s` where it holds none.
pub open spec fn until(s: Seq<char>, stop: char) -> Seq<char> {
    s.take(position(s, stop))
}

/// Whether two characters are the same letter, taking an ASCII capital and
/// its small letter as the same.
pub open spec fn same_letter(a: char, b: char) -> bool {
    ||| a == b
    ||| ('A' <= a && a <= 'Z' && b as int == a as int + 32)
    ||| ('A' <= b && b <= 'Z' && a as int == b as int + 32)
}

/// Whether two texts are the same but for the case of their ASCII letters.
pub open spec fn same_name(a: Seq<char>, b: Seq<char>) -> bool {
    a.len() == b.len() && forall|i: int| 0 <= i < a.len() ==> same_letter(#[trigger] a[i], b[i])
}

/// The first word of a message: what stands before the first space.
pub open spec fn command_word(text: Seq<char>) -> Seq<char> {
    until(text, ' ')
}

/// The command's own text: the first word up to its first `@`.
pub open spec fn command_token(text: Seq<char>) -> Seq<char> {
    until(command_word(text), '@')
}

/// The bot that the command is addressed to: what stands between the first
/// `@` of the first word and the next one; `None` where the word has no `@`.
pub open spec fn addressee(text: Seq<char>) -> Option<Seq<char>> {
    let word = command_word(text);
    let token = command_token(text);
    if token.len() < word.len() {
        Some(until(word.skip(token.len() as int + 1), '@'))
    } else {
        None
    }
}

/// The command that a message holds for a bot of the given name, if any.
/// A command addressed to another bot is none; what follows the first word
/// is not looked at.
pub open spec fn parsed(text: Seq<char>, name: Seq<char>) -> Option<Command> {
    if addressee(text) is Some && !same_name(addressee(text)->0, name) {
        None
    } else if command_token(text) == "/help"@ {
        Some(Command::Help)
    } else if command_token(text) == "/weather"@ {
        Some(Command::Weather)
    } else {
        None
    }
}

/// An index at which `stop` stands, with no `stop` before it, is where
/// `position` points; so is the end of a sequence without any `stop`.
pub proof fn position_found(s: Seq<char>, stop: char, i: int)
    requires
        0 <= i <= s.len(),
        forall|j: int| 0 <= j < i ==> s[j] != stop,
        i < s.len() ==> s[i] == stop,
    ensures
        position(s, stop) == i,
    decreases i,
{
    if i > 0 {
        let rest = s.drop_first();
        assert forall|j: int| 0 <= j < i - 1 implies rest[j] != stop by {
            assert(rest[j] == s[j + 1]);
        }
        position_found(rest, stop, i - 1);
    }
}

/// The index of the first `stop` in `v[from..to]`, counted from `from`.
fn find(v: &Vec<char>, from: usize, to: usize, stop: char) -> (i: usize)
    requires
        from <= to <= v@.len(),
    ensures
        from <= i <= to,
        i - from == position(v@.subrange(from as int, to as int), stop),
{
    let mut i: usize = from;
    while i < to && v[i] != stop
        invariant
            from <= i <= to <= v@.len(),
            forall|j: int| from <= j < i ==> v@[j] != stop,
        decreases to - i,
    {
        i += 1;
    }
    proof {
        position_found(v@.subrange(from as int, to as int), stop, i - from);
    }
    i
}

/// Compares two characters without regard to the case of ASCII letters.
fn letters_match(a: char, b: char) -> (r: bool)
    ensures
        r == same_letter(a, b),
{
    if a == b {
        return true;
    }
    let x: u32 = a as u32;
    let y: u32 = b as u32;
    (65 <= x && x <= 90 && y == x + 32) || (65 <= y && y <= 90 && x == y + 32)
}

/// Whether `v[from..to]` is `name` but for the case of ASCII letters.
fn range_names(v: &Vec<char>, from: usize, to: usize, name: &str) -> (r: bool)
    requires
        from <= to <= v@.len(),
    ensures
        r == same_name(v@.subrange(from as int, to as int), name@),
{
    let w = chars_of(name);
    if w.len() != to - from {
        return false;
    }
    let ghost part = v@.subrange(from as int, to as int);
    let mut i: usize = 0;
    while i < w.len()
        invariant
            from <= to <= v@.len(),
            w@.len() == to - from,
            w@ == name@,
            part == v@.subrange(from as int, to as int),
            i <= w@.len(),
            forall|j: int| 0 <= j < i ==> same_letter(#[trigger] part[j], w@[j]),
        decreases w@.len() - i,
    {
        if !letters_match(v[from + i], w[i]) {
            assert(!same_letter(part[i as int], name@[i as int]));
            return false;
        }
        i += 1;
    }
    true
}

impl Command {
    /// The list of commands, one per line, under a heading.
    pub fn descriptions() -> (s: String)
        ensures
            s@ == descriptions_text(),
    {
        String::from_str(
            "These commands are supported:\n/help - display this text.\n/weather - show weather at specific location.\n",
        )
    }

    /// Reads a message as a command for the bot called `name`.
    ///
    /// Only the first word counts. It may address a bot, as in
    /// `/help@ButlerBot`; a command for a bot of another name is not a
    /// command for this one. Names are compared without regard to the case
    /// of ASCII letters.
    pub fn parse(text: &str, name: &str) -> (command: Option<Command>)
        ensures
            command == parsed(text@, name@),
    {
        let v = chars_of(text);
        let word_end = find(&v, 0, v.len(), ' ');
        assert(v@.subrange(0, v@.len() as int) =~= v@);
        let ghost word = command_word(text@);
        assert(v@.subrange(0, word_end as int) =~= word);
        let token_end = find(&v, 0, word_end, '@');
        let ghost token = command_token(text@);
        assert(v@.subrange(0, token_end as int) =~= token);
        if token_end < word_end {
            let name_start = token_end + 1;
            let name_end = find(&v, name_start, word_end, '@');
            assert(v@.subrange(name_start as int, word_end as int) =~= word.skip(
                token.len() as int + 1,
            ));
            assert(v@.subrange(name_start as int, name_end as int) =~= addressee(text@)->0);
            if !range_names(&v, name_start, name_end, name) {
                return None;
            }
        }
        if range_is(&v, 0, token_end, "/help") {
            Some(Command::Help)
        } else if range_is(&v, 0, token_end, "/weather") {
            Some(Command::Weather)
        } else {
            None
        }
    }
}

} // verus!
