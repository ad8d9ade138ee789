//! The inspection shell: a line of text asks something of a store, and gets a
//! reply.

use crate::db::Database;
use vstd::prelude::*;
use vstd::string::StringExecFns;
use vstd::string::StringSliceAdditionalSpecFns;

verus! {

/// Whether three bytes are one of the white space characters that take three
/// bytes in UTF-8: U+1680, U+2000 to U+200A, U+2028, U+2029, U+202F, U+205F and
/// U+3000.
pub open spec fn is_wide_space(a: u8, b: u8, c: u8) -> bool {
    ||| a == 0xe1 && b == 0x9a && c == 0x80
    ||| a == 0xe2 && b == 0x80 && (0x80 <= c <= 0x8a || c == 0xa8 || c == 0xa9 || c == 0xaf)
    ||| a == 0xe2 && b == 0x81 && c == 0x9f
    ||| a == 0xe3 && b == 0x80 && c == 0x80
}

/// The length in bytes of the white space character that begins at `i`, and 0
/// if none does. White space is what Unicode calls so: tab to carriage return
/// and the space in one byte, U+0085 and U+00A0 in two, and the wide spaces in
/// three.
pub open spec fn space_len(s: Seq<u8>, i: int) -> int {
    if i < 0 || i >= s.len() {
        0
    } else if s[i] == 0x20 || 0x09 <= s[i] <= 0x0d {
        1
    } else if i + 1 < s.len() && s[i] == 0xc2 && (s[i + 1] == 0x85 || s[i + 1] == 0xa0) {
        2
    } else if i + 2 < s.len() && is_wide_space(s[i], s[i + 1], s[i + 2]) {
        3
    } else {
        0
    }
}

/// The first place at or after `i` where no white space begins.
pub open spec fn skip_spaces(s: Seq<u8>, i: int) -> int
    decreases s.len() - i,
{
    if space_len(s, i) > 0 {
        skip_spaces(s, i + space_len(s, i))
    } else {
        i
    }
}

/// The first place at or after `i` where white space begins, or the end.
pub open spec fn word_end(s: Seq<u8>, i: int) -> int
    decreases s.len() - i,
{
    if 0 <= i < s.len() && space_len(s, i) == 0 {
        word_end(s, i + 1)
    } else {
        i
    }
}

/// The bounds of the first word at or after `from`: a longest stretch without
/// white space. None if only white space is left.
pub open spec fn first_word(s: Seq<u8>, from: int) -> Option<(int, int)> {
    if skip_spaces(s, from) >= s.len() {
        None
    } else {
        Some((skip_spaces(s, from), word_end(s, skip_spaces(s, from))))
    }
}

/// Skipping white space goes forward, stays within the line, and ends where no
/// white space begins.
proof fn lemma_skip_spaces(s: Seq<u8>, i: int)
    requires
        0 <= i <= s.len(),
    ensures
        i <= skip_spaces(s, i) <= s.len(),
        space_len(s, skip_spaces(s, i)) == 0,
    decreases s.len() - i,
{
    if space_len(s, i) > 0 {
        lemma_skip_spaces(s, i + space_len(s, i));
    }
}

/// From the start of a word to its end no white space begins, and at its end
/// white space does, unless the line ends there.
proof fn lemma_word_end(s: Seq<u8>, i: int)
    requires
        0 <= i <= s.len(),
    ensures
        i <= word_end(s, i) <= s.len(),
        forall|j: int| i <= j < word_end(s, i) ==> space_len(s, j) == 0,
        word_end(s, i) == s.len() || space_len(s, word_end(s, i)) > 0,
    decreases s.len() - i,
{
    if i < s.len() && space_len(s, i) == 0 {
        lemma_word_end(s, i + 1);
    }
}

/// Words are what they are said to be: a word is not empty and lies within the
/// line, no white space begins in it, and it ends where white space begins or
/// the line ends.
pub proof fn lemma_first_word(s: Seq<u8>, from: int)
    requires
        0 <= from <= s.len(),
    ensures
        first_word(s, from) matches Some(bounds) ==> {
            &&& from <= bounds.0 < bounds.1 <= s.len()
            &&& forall|j: int| bounds.0 <= j < bounds.1 ==> space_len(s, j) == 0
            &&& bounds.1 == s.len() || space_len(s, bounds.1) > 0
        },
{
    lemma_skip_spaces(s, from);
    lemma_word_end(s, skip_spaces(s, from));
}

/// What a line asks for, as a value of the mathematical kind.
pub enum Asked {
    Nothing,
    Help,
    Stat,
    Read(Seq<u8>),
    ReadUsage,
    Write(Seq<u8>, Seq<u8>),
    WriteUsage,
    Unknown(Seq<u8>),
}

/// What a line asks for.
#[derive(Clone, Debug, PartialEq, Eq)]
pub enum Request {
    /// The line holds no word.
    Nothing,
    /// `help`
    Help,
    /// `stat`
    Stat,
    /// `read` and a key
    Read(Vec<u8>),
    /// `read` without a key
    ReadUsage,
    /// `write`, a key and a value
    Write(Vec<u8>, Vec<u8>),
    /// `write` without a key or without a value
    WriteUsage,
    /// Another first word
    Unknown(Vec<u8>),
}

impl View for Request {
    type V = Asked;

    open spec fn view(&self) -> Asked {
        match self {
            Request::Nothing => Asked::Nothing,
            Request::Help => Asked::Help,
            Request::Stat => Asked::Stat,
            Request::Read(k) => Asked::Read(k@),
            Request::ReadUsage => Asked::ReadUsage,
            Request::Write(k, v) => Asked::Write(k@, v@),
            Request::WriteUsage => Asked::WriteUsage,
            Request::Unknown(w) => Asked::Unknown(w@),
        }
    }
}

/// The word from `bounds.0` up to `bounds.1`.
pub open spec fn word(s: Seq<u8>, bounds: (int, int)) -> Seq<u8> {
    s.subrange(bounds.0, bounds.1)
}

/// What the line `s` asks for. Its first word is the command. `read` takes the
/// next word as the key, `write` the next two as the key and the value; words
/// after those are not looked at.
pub open spec fn request_of(s: Seq<u8>) -> Asked {
    match first_word(s, 0) {
        None => Asked::Nothing,
        Some(command) => if word(s, command) == "help".spec_bytes() {
            Asked::Help
        } else if word(s, command) == "stat".spec_bytes() {
            Asked::Stat
        } else if word(s, command) == "read".spec_bytes() {
            match first_word(s, command.1) {
                None => Asked::ReadUsage,
                Some(key) => Asked::Read(word(s, key)),
            }
        } else if word(s, command) == "write".spec_bytes() {
            match first_word(s, command.1) {
                None => Asked::WriteUsage,
                Some(key) => match first_word(s, key.1) {
                    None => Asked::WriteUsage,
                    Some(value) => Asked::Write(word(s, key), word(s, value)),
                },
            }
        } else {
            Asked::Unknown(word(s, command))
        },
    }
}

/// The length of the white space character that begins at `i`, and 0 if none
/// does.
fn space_at(line: &[u8], i: usize) -> (n: usize)
    requires
        i < line.len(),
    ensures
        n == space_len(line@, i as int),
        i + n <= line.len(),
{
    let a = line[i];
    if a == 0x20 || (0x09 <= a && a <= 0x0d) {
        1
    } else if line.len() - i > 1 && a == 0xc2 && (line[i + 1] == 0x85 || line[i + 1] == 0xa0) {
        2
    } else if line.len() - i > 2 {
        let b = line[i + 1];
        let c = line[i + 2];
        let wide = (a == 0xe1 && b == 0x9a && c == 0x80) || (a == 0xe2 && b == 0x80 && ((0x80 <= c
            && c <= 0x8a) || c == 0xa8 || c == 0xa9 || c == 0xaf)) || (a == 0xe2 && b == 0x81 && c
            == 0x9f) || (a == 0xe3 && b == 0x80 && c == 0x80);
        if wide {
            3
        } else {
            0
        }
    } else {
        0
    }
}

/// The bounds of the first word at or after `from`.
fn next_word(line: &[u8], from: usize) -> (r: Option<(usize, usize)>)
    requires
        from <= line.len(),
    ensures
        r.is_some() == first_word(line@, from as int).is_some(),
        r matches Some(bounds) ==> {
            &&& first_word(line@, from as int) == Some((bounds.0 as int, bounds.1 as int))
            &&& from <= bounds.0 < bounds.1 <= line.len()
        },
{
    let mut start: usize = from;
    loop
        invariant
            from <= start <= line.len(),
            skip_spaces(line@, start as int) == skip_spaces(line@, from as int),
        ensures
            start < line.len(),
            space_len(line@, start as int) == 0,
            skip_spaces(line@, from as int) == start,
        decreases line.len() - start,
    {
        if start >= line.len() {
            return None;
        }
        let n = space_at(line, start);
        if n == 0 {
            break;
        }
        start = start + n;
    }
    let mut end: usize = start + 1;
    while end < line.len() && space_at(line, end) == 0
        invariant
            start < end <= line.len(),
            word_end(line@, end as int) == word_end(line@, start as int),
        decreases line.len() - end,
    {
        end = end + 1;
    }
    Some((start, end))
}

/// Whether the bytes of `line` from `from` up to `to` are those of `text`.
fn word_is(line: &[u8], from: usize, to: usize, text: &str) -> (same: bool)
    requires
        from <= to <= line.len(),
    ensures
        same == (line@.subrange(from as int, to as int) == text.spec_bytes()),
{
    let wanted = text.as_bytes();
    if to - from != wanted.len() {
        return false;
    }
    let mut i: usize = 0;
    while i < wanted.len()
        invariant
            from <= to <= line.len(),
            to - from == wanted.len(),
            wanted@ == text.spec_bytes(),
            i <= wanted.len(),
            forall|j: int| 0 <= j < i ==> line@[from + j] == wanted@[j],
        decreases wanted.len() - i,
    {
        if line[from + i] != wanted[i] {
            proof {
                let found = line@.subrange(from as int, to as int);
                assert(found[i as int] == line@[from + i]);
                assert(found[i as int] != wanted@[i as int]);
            }
            return false;
        }
        i = i + 1;
    }
    proof {
        assert(line@.subrange(from as int, to as int) =~= wanted@);
    }
    true
}

/// A copy of the bytes of `line` from `from` up to `to`.
fn copy_of(line: &[u8], from: usize, to: usize) -> (bytes: Vec<u8>)
    requires
        from <= to <= line.len(),
    ensures
        bytes@ == line@.subrange(from as int, to as int),
{
    let mut bytes: Vec<u8> = Vec::new();
    let mut i: usize = from;
    while i < to
        invariant
            from <= i <= to <= line.len(),
            bytes@ == line@.subrange(from as int, i as int),
        decreases to - i,
    {
        bytes.push(line[i]);
        proof {
            assert(bytes@ =~= line@.subrange(from as int, i + 1));
        }
        i = i + 1;
    }
    bytes
}

/// Reads a line: what it asks for.
pub fn parse(line: &[u8]) -> (request: Request)
    ensures
        request@ == request_of(line@),
{
    let Some(command) = next_word(line, 0) else {
        return Request::Nothing;
    };
    if word_is(line, command.0, command.1, "help") {
        Request::Help
    } else if word_is(line, command.0, command.1, "stat") {
        Request::Stat
    } else if word_is(line, command.0, command.1, "read") {
        match next_word(line, command.1) {
            None => Request::ReadUsage,
            Some(key) => Request::Read(copy_of(line, key.0, key.1)),
        }
    } else if word_is(line, command.0, command.1, "write") {
        match next_word(line, command.1) {
            None => Request::WriteUsage,
            Some(key) => match next_word(line, key.1) {
                None => Request::WriteUsage,
                Some(value) => Request::Write(
                    copy_of(line, key.0, key.1),
                    copy_of(line, value.0, value.1),
                ),
            },
        }
    } else {
        Request::Unknown(copy_of(line, command.0, command.1))
    }
}

/// What the shell prints for `help`.
pub const HELP: &'static str = "Commands:\n  help                 Show this help message\n  stat                 Show database statistics\n  read <KEY>           Read the value for the given KEY\n  write <KEY> <VALUE>  Write the VALUE for the given KEY";

/// The text that `String::from_utf8_lossy` makes of bytes.
pub uninterp spec fn lossy_text(bytes: Seq<u8>) -> Seq<char>;

/// `String::from_utf8_lossy`: the text that the bytes encode, with a
/// replacement character in place of whatever is not UTF-8. Bytes that are
/// UTF-8 come out as the characters that they encode.
#[verifier::external_body]
fn text_of(bytes: &[u8]) -> (s: String)
    ensures
        s@ == lossy_text(bytes@),
        vstd::utf8::valid_utf8(bytes@) ==> s@ == vstd::utf8::decode_utf8(bytes@),
{
    String::from_utf8_lossy(bytes).into_owned()
}

/// What the shell has to say to a line.
#[derive(Clone, Debug, PartialEq, Eq)]
pub enum Reply {
    /// Nothing at all.
    Nothing,
    /// The list of commands.
    Help,
    /// The description that the store gave of itself.
    Stat(String),
    /// Whether the key read is there.
    Found(bool),
    /// The write is done.
    Written,
    /// The store failed, with this message.
    Failed(String),
    /// How to use `read`.
    ReadUsage,
    /// How to use `write`.
    WriteUsage,
    /// The first word of the line is no command.
    Unknown(Vec<u8>),
}

impl Reply {
    /// The reply to `stat`, given what the store came back with.
    pub fn of_stat(outcome: Result<String, crate::db::BackendError>) -> (reply: Reply)
        ensures
            reply == match outcome {
                Ok(stat) => Reply::Stat(stat),
                Err(e) => Reply::Failed(e.message),
            },
    {
        match outcome {
            Ok(stat) => Reply::Stat(stat),
            Err(e) => Reply::Failed(e.message),
        }
    }

    /// The reply to `read`, given what the store came back with.
    pub fn of_read(outcome: Result<bool, crate::db::BackendError>) -> (reply: Reply)
        ensures
            reply == match outcome {
                Ok(found) => Reply::Found(found),
                Err(e) => Reply::Failed(e.message),
            },
    {
        match outcome {
            Ok(found) => Reply::Found(found),
            Err(e) => Reply::Failed(e.message),
        }
    }

    /// The reply to `write`, given what the store came back with.
    pub fn of_write(outcome: Result<(), crate::db::BackendError>) -> (reply: Reply)
        ensures
            reply == match outcome {
                Ok(_) => Reply::Written,
                Err(e) => Reply::Failed(e.message),
            },
    {
        match outcome {
            Ok(_) => Reply::Written,
            Err(e) => Reply::Failed(e.message),
        }
    }

    /// Whether this can be the reply to what was asked: the reply to `stat`,
    /// `read` and `write` depends on the store, and every other reply is fixed
    /// by the line.
    pub open spec fn answers(self, asked: Asked) -> bool {
        match asked {
            Asked::Nothing => self == Reply::Nothing,
            Asked::Help => self == Reply::Help,
            Asked::Stat => self is Stat || self is Failed,
            Asked::Read(_) => self is Found || self is Failed,
            Asked::ReadUsage => self == Reply::ReadUsage,
            Asked::Write(_, _) => self is Written || self is Failed,
            Asked::WriteUsage => self == Reply::WriteUsage,
            Asked::Unknown(command) => self matches Reply::Unknown(named) && named@ == command,
        }
    }

    /// What is printed for this reply, if anything.
    pub open spec fn spec_text(&self) -> Option<Seq<char>> {
        match self {
            Reply::Nothing => None,
            Reply::Help => Some(HELP@),
            Reply::Stat(stat) => Some(stat@),
            Reply::Found(found) => Some(
                if *found {
                    "Some"@
                } else {
                    "None"@
                },
            ),
            Reply::Written => Some("OK"@),
            Reply::Failed(message) => Some("Error: "@ + message@),
            Reply::ReadUsage => Some("Usage: read <KEY>"@),
            Reply::WriteUsage => Some("Usage: write <KEY> <VALUE>"@),
            Reply::Unknown(command) => Some(
                "Unknown command '"@ + lossy_text(command@)
                    + "', type 'help' to see available commands"@,
            ),
        }
    }

    /// What to print for this reply, if anything.
    pub fn text(&self) -> (text: Option<String>)
        ensures
            text.is_some() == self.spec_text().is_some(),
            text matches Some(t) ==> Some(t@) == self.spec_text(),
    {
        match self {
            Reply::Nothing => None,
            Reply::Help => Some(String::from_str(HELP)),
            Reply::Stat(stat) => Some(stat.clone()),
            Reply::Found(found) => Some(
                if *found {
                    String::from_str("Some")
                } else {
                    String::from_str("None")
                },
            ),
            Reply::Written => Some(String::from_str("OK")),
            Reply::Failed(message) => Some(String::from_str("Error: ").concat(message.as_str())),
            Reply::ReadUsage => Some(String::from_str("Usage: read <KEY>")),
            Reply::WriteUsage => Some(String::from_str("Usage: write <KEY> <VALUE>")),
            Reply::Unknown(command) => {
                let named = text_of(command.as_slice());
                Some(
                    String::from_str("Unknown command '").concat(named.as_str()).concat(
                        "', type 'help' to see available commands",
                    ),
                )
            },
        }
    }
}

/// A shell on an open store.
pub struct Shell<D: Database + ?Sized = dyn Database> {
    db: Box<D>,
}

impl<D: Database + ?Sized> Shell<D> {
    /// The store that this shell looks into.
    pub closed spec fn store(&self) -> Box<D> {
        self.db
    }

    /// A shell on the given store.
    pub fn new(db: Box<D>) -> (shell: Shell<D>)
        ensures
            shell.store() == db,
    {
        Shell { db }
    }

    /// Does what the line asks for, on the store where it asks for that, and
    /// replies.
    pub fn execute(&self, line: &str) -> (reply: Reply)
        ensures
            reply.answers(request_of(line.spec_bytes())),
    {
        match parse(line.as_bytes()) {
            Request::Nothing => Reply::Nothing,
            Request::Help => Reply::Help,
            Request::Stat => Reply::of_stat(self.db.stat()),
            Request::Read(k) => Reply::of_read(self.db.read(k.as_slice())),
            Request::ReadUsage => Reply::ReadUsage,
            Request::Write(k, v) => Reply::of_write(self.db.write(k.as_slice(), v.as_slice())),
            Request::WriteUsage => Reply::WriteUsage,
            Request::Unknown(command) => Reply::Unknown(command),
        }
    }
}

} // verus!
