//! Command lines for the control connection.

use vstd::prelude::*;
use vstd::string::StringSliceAdditionalSpecFns;

verus! {

/// The byte that parts a command word from its argument.
pub const SPACE: u8 = 0x20;

/// Carriage return, the first byte of a line's end.
pub const CR: u8 = 0x0d;

/// Line feed, the second byte of a line's end.
pub const LF: u8 = 0x0a;

/// The commands that this client sends.
#[derive(Clone, Copy, Debug, PartialEq, Eq, Structural)]
pub enum Verb {
    User,
    Pass,
    Pasv,
    Pwd,
    Nlst,
    Retr,
    Stor,
    Quit,
    Cwd,
    Dele,
    Mkd,
    Rmd,
    Rnfr,
    Rnto,
}

impl Verb {
    /// The command word on the wire.
    pub open spec fn word(self) -> Seq<u8> {
        match self {
            Verb::User => seq!['U' as u8, 'S' as u8, 'E' as u8, 'R' as u8],
            Verb::Pass => seq!['P' as u8, 'A' as u8, 'S' as u8, 'S' as u8],
            Verb::Pasv => seq!['P' as u8, 'A' as u8, 'S' as u8, 'V' as u8],
            Verb::Pwd => seq!['P' as u8, 'W' as u8, 'D' as u8],
            Verb::Nlst => seq!['N' as u8, 'L' as u8, 'S' as u8, 'T' as u8],
            Verb::Retr => seq!['R' as u8, 'E' as u8, 'T' as u8, 'R' as u8],
            Verb::Stor => seq!['S' as u8, 'T' as u8, 'O' as u8, 'R' as u8],
            Verb::Quit => seq!['Q' as u8, 'U' as u8, 'I' as u8, 'T' as u8],
            Verb::Cwd => seq!['C' as u8, 'W' as u8, 'D' as u8],
            Verb::Dele => seq!['D' as u8, 'E' as u8, 'L' as u8, 'E' as u8],
            Verb::Mkd => seq!['M' as u8, 'K' as u8, 'D' as u8],
            Verb::Rmd => seq!['R' as u8, 'M' as u8, 'D' as u8],
            Verb::Rnfr => seq!['R' as u8, 'N' as u8, 'F' as u8, 'R' as u8],
            Verb::Rnto => seq!['R' as u8, 'N' as u8, 'T' as u8, 'O' as u8],
        }
    }

    /// The command word as bytes.
    pub fn bytes(self) -> (word: Vec<u8>)
        ensures
            word@ == self.word(),
    {
        let word = match self {
            Verb::User => vec!['U' as u8, 'S' as u8, 'E' as u8, 'R' as u8],
            Verb::Pass => vec!['P' as u8, 'A' as u8, 'S' as u8, 'S' as u8],
            Verb::Pasv => vec!['P' as u8, 'A' as u8, 'S' as u8, 'V' as u8],
            Verb::Pwd => vec!['P' as u8, 'W' as u8, 'D' as u8],
            Verb::Nlst => vec!['N' as u8, 'L' as u8, 'S' as u8, 'T' as u8],
            Verb::Retr => vec!['R' as u8, 'E' as u8, 'T' as u8, 'R' as u8],
            Verb::Stor => vec!['S' as u8, 'T' as u8, 'O' as u8, 'R' as u8],
            Verb::Quit => vec!['Q' as u8, 'U' as u8, 'I' as u8, 'T' as u8],
            Verb::Cwd => vec!['C' as u8, 'W' as u8, 'D' as u8],
            Verb::Dele => vec!['D' as u8, 'E' as u8, 'L' as u8, 'E' as u8],
            Verb::Mkd => vec!['M' as u8, 'K' as u8, 'D' as u8],
            Verb::Rmd => vec!['R' as u8, 'M' as u8, 'D' as u8],
            Verb::Rnfr => vec!['R' as u8, 'N' as u8, 'F' as u8, 'R' as u8],
            Verb::Rnto => vec!['R' as u8, 'N' as u8, 'T' as u8, 'O' as u8],
        };
        assert(word@ =~= self.word());
        word
    }
}

/// `text` as a line: the text, then CR and LF.
pub open spec fn line(text: Seq<u8>) -> Seq<u8> {
    text + seq![CR, LF]
}

/// The line of a command that takes no argument.
pub open spec fn bare(verb: Verb) -> Seq<u8> {
    line(verb.word())
}

/// The line of a command with its argument: the word, a space, the
/// argument, and the end of the line.
pub open spec fn command(verb: Verb, arg: Seq<u8>) -> Seq<u8> {
    line(verb.word() + seq![SPACE] + arg)
}

/// Builds the line of a command that the caller spells out.
pub fn raw_line(text: &[u8]) -> (out: Vec<u8>)
    ensures
        out@ == line(text@),
{
    let mut out: Vec<u8> = Vec::new();
    out.extend_from_slice(text);
    out.push(CR);
    out.push(LF);
    assert(out@ =~= line(text@));
    out
}

/// Builds the line of a command without argument.
pub fn bare_line(verb: Verb) -> (out: Vec<u8>)
    ensures
        out@ == bare(verb),
{
    let mut out = verb.bytes();
    out.push(CR);
    out.push(LF);
    assert(out@ =~= bare(verb));
    out
}

/// Builds the line of a command with its argument.
pub fn command_line(verb: Verb, arg: &str) -> (out: Vec<u8>)
    ensures
        out@ == command(verb, arg.spec_bytes()),
{
    let mut out = verb.bytes();
    out.push(SPACE);
    out.extend_from_slice(arg.as_bytes());
    out.push(CR);
    out.push(LF);
    assert(out@ =~= command(verb, arg.spec_bytes()));
    out
}

} // verus!
