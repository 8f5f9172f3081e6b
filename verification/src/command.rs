//! Built-in launcher commands: a line typed into the launcher names a
//! command and, after a space, its argument.

use crate::text::{
    chars_of, find_char, first_at, first_other, join, scanned_run, skip_char, skipped_run,
};
use vstd::prelude::*;

verus! {

/// Where the command's name begins: after every leading `>`.
pub open spec fn verb_start(line: Seq<char>) -> int {
    first_other(line, '>', 0)
}

/// Where the command's name ends: at the first space after its beginning,
/// or at the end of the line.
pub open spec fn verb_end(line: Seq<char>) -> int {
    first_at(line, ' ', verb_start(line))
}

/// The command's name.
pub open spec fn verb(line: Seq<char>) -> Seq<char> {
    line.subrange(verb_start(line), verb_end(line))
}

/// The command's argument: all that follows the first space after the name,
/// if there is such a space.
pub open spec fn argument(line: Seq<char>) -> Option<Seq<char>> {
    if verb_end(line) < line.len() {
        Some(line.subrange(verb_end(line) + 1, line.len() as int))
    } else {
        None
    }
}

/// What a command line asks for.
#[derive(Debug)]
pub enum Launch {
    /// Open this address in the system browser.
    Open(String),
    /// Do nothing and tell the user why.
    Refuse(String),
}

/// The mathematical content of a [`Launch`].
pub enum LaunchView {
    Open(Seq<char>),
    Refuse(Seq<char>),
}

impl View for Launch {
    type V = LaunchView;

    open spec fn view(&self) -> LaunchView {
        match self {
            Launch::Open(url) => LaunchView::Open(url@),
            Launch::Refuse(reason) => LaunchView::Refuse(reason@),
        }
    }
}

/// The table of built-in commands: `google` opens the search engine,
/// `wiki <term>` opens the encyclopedia's page on the term, and every other
/// name is unknown.
pub open spec fn launch_of(line: Seq<char>) -> LaunchView {
    if verb(line) == "google"@ {
        LaunchView::Open("https://www.google.com"@)
    } else if verb(line) == "wiki"@ {
        match argument(line) {
            Some(term) => LaunchView::Open("https://en.wikipedia.org/wiki/"@ + term),
            None => LaunchView::Refuse("Missing search term for wiki command"@),
        }
    } else {
        LaunchView::Refuse("Unknown command: "@ + verb(line))
    }
}

/// What the user is told after an attempt to open `url`.
pub open spec fn reply_of(url: Seq<char>, opened: bool) -> Result<Seq<char>, Seq<char>> {
    if opened {
        Ok("Opened "@ + url)
    } else {
        Err("Failed to open URL"@)
    }
}

/// The mathematical content of what the user is told.
pub open spec fn reply_view(reply: Result<String, String>) -> Result<Seq<char>, Seq<char>> {
    match reply {
        Ok(text) => Ok(text@),
        Err(text) => Err(text@),
    }
}

/// Reads a command line and decides what it asks for.
pub fn plan_launch(line: &str) -> (launch: Launch)
    ensures
        launch@ == launch_of(line@),
{
    let chars = chars_of(line);
    let start = skip_char(&chars, '>', 0);
    let end = find_char(&chars, ' ', start);
    let name = line.substring_char(start, end).to_string();
    if name == String::from_str("google") {
        Launch::Open(String::from_str("https://www.google.com"))
    } else if name == String::from_str("wiki") {
        if end < chars.len() {
            let term = line.substring_char(end + 1, chars.len());
            Launch::Open(join("https://en.wikipedia.org/wiki/", term))
        } else {
            Launch::Refuse(String::from_str("Missing search term for wiki command"))
        }
    } else {
        Launch::Refuse(join("Unknown command: ", name.as_str()))
    }
}

/// What the user is told after an attempt to open `url`.
pub fn launch_reply(url: &str, opened: bool) -> (reply: Result<String, String>)
    ensures
        reply_view(reply) == reply_of(url@, opened),
{
    if opened {
        Ok(join("Opened ", url))
    } else {
        Err(String::from_str("Failed to open URL"))
    }
}

/// Runs a built-in command: reads the line and, where it asks for an
/// address, has `open` open it and reports how that went. `open` is called
/// at most once, and only with the address the table gives.
pub fn open_url<F: FnOnce(String) -> bool>(line: &str, open: F) -> (reply: Result<String, String>)
    requires
        forall|url: String| open.requires((url,)),
    ensures
        launch_of(line@) matches LaunchView::Refuse(reason) ==> reply_view(reply) == Err::<
            Seq<char>,
            _,
        >(reason),
        launch_of(line@) matches LaunchView::Open(address) ==> exists|url: String, opened: bool|
            url@ == address && open.ensures((url,), opened) && reply_view(reply) == reply_of(
                address,
                opened,
            ),
{
    match plan_launch(line) {
        Launch::Refuse(reason) => Err(reason),
        Launch::Open(url) => {
            let shown = url.clone();
            let opened = open(url);
            launch_reply(shown.as_str(), opened)
        },
    }
}

/// A command line is its leading `>`s, then the name, then, where there is
/// an argument, one space and the argument. The name holds no space and
/// does not begin with `>`.
pub proof fn line_shape(line: Seq<char>)
    ensures
        0 <= verb_start(line) <= verb_end(line) <= line.len(),
        forall|i: int| 0 <= i < verb_start(line) ==> line[i] == '>',
        forall|i: int| 0 <= i < verb(line).len() ==> verb(line)[i] != ' ',
        verb(line).len() > 0 ==> verb(line)[0] != '>',
        argument(line) matches Some(rest) ==> line == line.take(verb_start(line)) + verb(line)
            + seq![' '] + rest,
        argument(line) is None ==> line == line.take(verb_start(line)) + verb(line),
{
    skipped_run(line, '>', 0);
    scanned_run(line, ' ', verb_start(line));
    match argument(line) {
        Some(rest) => {
            assert(line =~= line.take(verb_start(line)) + verb(line) + seq![' '] + rest);
        },
        None => {
            assert(line =~= line.take(verb_start(line)) + verb(line));
        },
    }
}

} // verus!
