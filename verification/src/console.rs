//! Lines typed at a console: how they are trimmed and split into words, and
//! the commands of the server's operator.

use crate::encoding::same_text;
use vstd::prelude::*;
use vstd::string::{StrSliceExecFns, StringExecFns};

verus! {

/// Whether a character is white space to `char::is_whitespace`, that is,
/// has the Unicode property White_Space.
pub uninterp spec fn char_is_whitespace(c: char) -> bool;

/// `char::is_whitespace`: whether the character has the Unicode property
/// White_Space. The answer depends on the character alone.
#[verifier::external_body]
pub(crate) fn is_whitespace(c: char) -> (out: bool)
    ensures
        out == char_is_whitespace(c),
{
    c.is_whitespace()
}

/// The number of white-space characters at the start of a text.
pub open spec fn leading_whitespace(s: Seq<char>) -> nat
    decreases s.len(),
{
    if s.len() > 0 && char_is_whitespace(s[0]) {
        1 + leading_whitespace(s.drop_first())
    } else {
        0
    }
}

/// The number of white-space characters at the end of a text.
pub open spec fn trailing_whitespace(s: Seq<char>) -> nat
    decreases s.len(),
{
    if s.len() > 0 && char_is_whitespace(s.last()) {
        1 + trailing_whitespace(s.drop_last())
    } else {
        0
    }
}

/// A text without the white space at its start and at its end.
pub open spec fn trimmed(s: Seq<char>) -> Seq<char> {
    if leading_whitespace(s) == s.len() {
        Seq::empty()
    } else {
        s.subrange(leading_whitespace(s) as int, s.len() - trailing_whitespace(s))
    }
}

/// The number of characters before the first white space of a text.
pub open spec fn word_length(s: Seq<char>) -> nat
    decreases s.len(),
{
    if s.len() > 0 && !char_is_whitespace(s[0]) {
        1 + word_length(s.drop_first())
    } else {
        0
    }
}

/// The first word of a text: what stands before its first white space.
pub open spec fn first_word(s: Seq<char>) -> Seq<char> {
    s.subrange(0, word_length(s) as int)
}

/// A text split at its first white-space character, which is dropped;
/// nothing where it holds no white space.
pub open spec fn split_at_whitespace(s: Seq<char>) -> Option<(Seq<char>, Seq<char>)> {
    if word_length(s) == s.len() {
        None
    } else {
        Some((first_word(s), s.subrange(word_length(s) as int + 1, s.len() as int)))
    }
}

/// A text split at its first two white-space characters into a command and
/// two arguments; an argument that is not there is empty.
pub open spec fn two_arguments(s: Seq<char>) -> (Seq<char>, Seq<char>) {
    match split_at_whitespace(s) {
        None => (Seq::empty(), Seq::empty()),
        Some((_, rest)) => match split_at_whitespace(rest) {
            None => (rest, Seq::empty()),
            Some((first, second)) => (first, second),
        },
    }
}

proof fn lemma_leading_whitespace(s: Seq<char>, i: nat)
    requires
        i <= s.len(),
        forall|j: int| 0 <= j < i ==> char_is_whitespace(#[trigger] s[j]),
        i == s.len() || !char_is_whitespace(s[i as int]),
    ensures
        leading_whitespace(s) == i,
    decreases i,
{
    if i > 0 {
        let rest = s.drop_first();
        assert(forall|j: int| 0 <= j < i - 1 ==> #[trigger] rest[j] == s[j + 1]);
        lemma_leading_whitespace(rest, (i - 1) as nat);
    }
}

proof fn lemma_trailing_whitespace(s: Seq<char>, i: nat)
    requires
        i <= s.len(),
        forall|j: int| s.len() - i <= j < s.len() ==> char_is_whitespace(#[trigger] s[j]),
        i == s.len() || !char_is_whitespace(s[s.len() - i - 1]),
    ensures
        trailing_whitespace(s) == i,
    decreases i,
{
    if i > 0 {
        let rest = s.drop_last();
        assert(forall|j: int| 0 <= j < rest.len() ==> #[trigger] rest[j] == s[j]);
        lemma_trailing_whitespace(rest, (i - 1) as nat);
    }
}

proof fn lemma_word_length(s: Seq<char>, i: nat)
    requires
        i <= s.len(),
        forall|j: int| 0 <= j < i ==> !char_is_whitespace(#[trigger] s[j]),
        i == s.len() || char_is_whitespace(s[i as int]),
    ensures
        word_length(s) == i,
    decreases i,
{
    if i > 0 {
        let rest = s.drop_first();
        assert(forall|j: int| 0 <= j < i - 1 ==> #[trigger] rest[j] == s[j + 1]);
        lemma_word_length(rest, (i - 1) as nat);
    }
}

/// The number of characters before the first white space of `input`.
pub fn first_word_length(input: &str) -> (out: usize)
    ensures
        out == word_length(input@),
        out <= input@.len(),
{
    let n = input.unicode_len();
    let mut i: usize = 0;
    let mut scanning = true;
    while scanning && i < n
        invariant
            n == input@.len(),
            i <= n,
            forall|j: int| 0 <= j < i ==> !char_is_whitespace(#[trigger] input@[j]),
            !scanning ==> i < n && char_is_whitespace(input@[i as int]),
        decreases n - i + if scanning { 1int } else { 0int },
    {
        if is_whitespace(input.get_char(i)) {
            scanning = false;
        } else {
            i += 1;
        }
    }
    proof {
        lemma_word_length(input@, i as nat);
    }
    i
}

/// The line without the white space at its start and at its end.
pub fn trim(line: &str) -> (out: &str)
    ensures
        out@ == trimmed(line@),
{
    let n = line.unicode_len();
    let mut a: usize = 0;
    let mut scanning = true;
    while scanning && a < n
        invariant
            n == line@.len(),
            a <= n,
            forall|j: int| 0 <= j < a ==> char_is_whitespace(#[trigger] line@[j]),
            !scanning ==> a < n && !char_is_whitespace(line@[a as int]),
        decreases n - a + if scanning { 1int } else { 0int },
    {
        if is_whitespace(line.get_char(a)) {
            a += 1;
        } else {
            scanning = false;
        }
    }
    proof {
        lemma_leading_whitespace(line@, a as nat);
    }
    if a == n {
        let out = line.substring_char(n, n);
        assert(out@ =~= Seq::<char>::empty());
        return out;
    }
    let mut b: usize = n;
    let mut scanning = true;
    while scanning && b > a + 1
        invariant
            n == line@.len(),
            a < b <= n,
            !char_is_whitespace(line@[a as int]),
            forall|j: int| b <= j < n ==> char_is_whitespace(#[trigger] line@[j]),
            !scanning ==> !char_is_whitespace(line@[b - 1]),
        decreases b - a + if scanning { 1int } else { 0int },
    {
        if is_whitespace(line.get_char(b - 1)) {
            b -= 1;
        } else {
            scanning = false;
        }
    }
    proof {
        lemma_trailing_whitespace(line@, (n - b) as nat);
    }
    line.substring_char(a, b)
}

/// The input split at its first white-space character.
pub fn split_once_whitespace(input: &str) -> (out: Option<(&str, &str)>)
    ensures
        match split_at_whitespace(input@) {
            Some((word, rest)) => out matches Some(parts) && parts.0@ == word && parts.1@ == rest,
            None => out is None,
        },
{
    let n = input.unicode_len();
    let k = first_word_length(input);
    if k == n {
        None
    } else {
        Some((input.substring_char(0, k), input.substring_char(k + 1, n)))
    }
}

/// The two arguments behind the command of `input`.
pub fn split_two_arguments(input: &str) -> (out: (&str, &str))
    ensures
        (out.0@, out.1@) == two_arguments(input@),
{
    match split_once_whitespace(input) {
        None => {
            let nothing = input.substring_char(0, 0);
            assert(nothing@ =~= Seq::<char>::empty());
            (nothing, nothing)
        },
        Some((_, rest)) => match split_once_whitespace(rest) {
            None => {
                let nothing = input.substring_char(0, 0);
                assert(nothing@ =~= Seq::<char>::empty());
                (rest, nothing)
            },
            Some((first, second)) => (first, second),
        },
    }
}

/// A text put between two others.
pub fn framed(before: &str, text: &str, after: &str) -> (out: String)
    ensures
        out@ == before@ + text@ + after@,
{
    let mut out = String::from_str(before);
    out.append(text);
    out.append(after);
    out
}

/// What the operator of a server asked for.
#[derive(Clone, Debug, PartialEq, Eq)]
pub enum ServerCommand {
    Clear,
    /// Disconnect every client and stop.
    Shutdown,
    Help,
    /// A command that does not exist.
    Unknown(String),
    /// Nothing was typed.
    Empty,
}

/// An operator's command, with its text as a sequence.
pub enum ServerCommandView {
    Clear,
    Shutdown,
    Help,
    Unknown(Seq<char>),
    Empty,
}

impl View for ServerCommand {
    type V = ServerCommandView;

    open spec fn view(&self) -> ServerCommandView {
        match *self {
            ServerCommand::Clear => ServerCommandView::Clear,
            ServerCommand::Shutdown => ServerCommandView::Shutdown,
            ServerCommand::Help => ServerCommandView::Help,
            ServerCommand::Unknown(command) => ServerCommandView::Unknown(command@),
            ServerCommand::Empty => ServerCommandView::Empty,
        }
    }
}

/// The operator's command that a line stands for: the first word of the
/// trimmed line names it.
pub open spec fn server_command_parsed(line: Seq<char>) -> ServerCommandView {
    let input = trimmed(line);
    let command = first_word(input);
    if input.len() == 0 {
        ServerCommandView::Empty
    } else if command == "clear"@ {
        ServerCommandView::Clear
    } else if command == "exit"@ || command == "disconnect"@ || command == "quit"@ {
        ServerCommandView::Shutdown
    } else if command == "help"@ {
        ServerCommandView::Help
    } else {
        ServerCommandView::Unknown(command)
    }
}

/// Reads the command that the operator typed.
pub fn parse_server_command(line: &str) -> (out: ServerCommand)
    ensures
        out@ == server_command_parsed(line@),
{
    let input = trim(line);
    if input.unicode_len() == 0 {
        return ServerCommand::Empty;
    }
    let command = input.substring_char(0, first_word_length(input));
    if same_text(command, "clear") {
        ServerCommand::Clear
    } else if same_text(command, "exit") || same_text(command, "disconnect") || same_text(
        command,
        "quit",
    ) {
        ServerCommand::Shutdown
    } else if same_text(command, "help") {
        ServerCommand::Help
    } else {
        ServerCommand::Unknown(String::from_str(command))
    }
}

/// A text with the operator's help behind it.
pub open spec fn with_server_help(before: Seq<char>) -> Seq<char> {
    before + "Available commands:\n"@ + "  clear                          Clear the screen.\n"@
        + "  exit; disconnect; quit         Gracefully disconnect all clients\n"@
        + "                                 and exit QuickTransfer.\n"@
}

/// Puts the operator's help behind `help_msg`.
pub fn preprint_user_help(help_msg: &mut String)
    ensures
        final(help_msg)@ == with_server_help(old(help_msg)@),
{
    help_msg.append("Available commands:\n");
    help_msg.append("  clear                          Clear the screen.\n");
    help_msg.append("  exit; disconnect; quit         Gracefully disconnect all clients\n");
    help_msg.append("                                 and exit QuickTransfer.\n");
}

} // verus!
