//! Replies on the control connection: a three-digit code, then text.

use vstd::prelude::*;
use vstd::string::StringSliceAdditionalSpecFns;
use crate::bytes::{before, find, lemma_before_at, strip_line_end, without_line_end};
use crate::error::{Error, ErrorView};
use crate::text::{decode, text_of};

verus! {

/// 220: the server is ready for a new user.
pub const SERVICE_READY: u16 = 220;

/// 331: the user name is accepted and a password is wanted.
pub const NEED_PASSWORD: u16 = 331;

/// 230: the user is logged in.
pub const USER_LOGGED_IN: u16 = 230;

/// 530: not logged in.
pub const NOT_LOGGED_IN: u16 = 530;

/// 227: the server listens for a data connection.
pub const ENTERING_PASSIVE_MODE: u16 = 227;

/// 150: the data connection is about to carry the transfer.
pub const OPENING_DATA_CONNECTION: u16 = 150;

/// 226: the transfer is over and the data connection closes.
pub const CLOSING_DATA_CONNECTION: u16 = 226;

/// 257: a path name follows.
pub const PATHNAME_CREATED: u16 = 257;

/// 250: the file action was carried out.
pub const FILE_ACTION_COMPLETED: u16 = 250;

/// 350: the file action waits for a further command.
pub const FILE_ACTION_NEEDS_FURTHER_INFO: u16 = 350;

/// 221: the server closes the control connection.
pub const SERVICE_CLOSING_CONTROL_CONNECTION: u16 = 221;

/// The bytes in front of a reply's text: three digits and a separator.
pub const PREFIX_LEN: usize = 4;

/// The byte `"`.
pub const QUOTE: u8 = 0x22;

/// Whether `b` is an ASCII digit.
pub open spec fn is_digit(b: u8) -> bool {
    '0' as u8 <= b && b <= '9' as u8
}

/// The number that the digit `b` stands for.
pub open spec fn digit_value(b: u8) -> nat {
    (b - '0' as u8) as nat
}

/// The code that a reply opens with: its first three bytes read as a
/// decimal number, if all three are digits.
pub open spec fn code_of(raw: Seq<u8>) -> Option<u16> {
    if raw.len() >= 3 && is_digit(raw[0]) && is_digit(raw[1]) && is_digit(raw[2]) {
        Some((digit_value(raw[0]) * 100 + digit_value(raw[1]) * 10 + digit_value(raw[2])) as u16)
    } else {
        None
    }
}

/// What the first digit of a code says of the command's fate.
#[derive(Clone, Copy, Debug, PartialEq, Eq, Structural)]
pub enum ReplyClass {
    /// 1xx: the action has begun and another reply will follow.
    Preliminary,
    /// 2xx: the action was carried out.
    Success,
    /// 3xx: the server waits for a further command.
    Intermediate,
    /// 4xx: the action failed for now.
    TransientFailure,
    /// 5xx: the action failed for good.
    PermanentFailure,
}

/// The class of a code, if its first digit is one to five.
pub open spec fn class_of_code(code: u16) -> Option<ReplyClass> {
    if 100 <= code < 200 {
        Some(ReplyClass::Preliminary)
    } else if 200 <= code < 300 {
        Some(ReplyClass::Success)
    } else if 300 <= code < 400 {
        Some(ReplyClass::Intermediate)
    } else if 400 <= code < 500 {
        Some(ReplyClass::TransientFailure)
    } else if 500 <= code < 600 {
        Some(ReplyClass::PermanentFailure)
    } else {
        None
    }
}

/// The class of a raw reply.
pub open spec fn class_of(raw: Seq<u8>) -> Option<ReplyClass> {
    match code_of(raw) {
        Some(code) => class_of_code(code),
        None => None,
    }
}

/// What a reply means to this client.
#[derive(Clone, Copy, Debug, PartialEq, Eq, Structural)]
pub enum ReplyKind {
    ServiceReady,
    NeedPassword,
    LoggedIn,
    NotLoggedIn,
    EnteringPassive,
    OpeningData,
    ClosingData,
    Pathname,
    FileActionDone,
    NeedFurtherInfo,
    ServiceClosing,
    /// Any other code, or no code at all.
    Other,
}

/// The kind that goes with a code.
pub open spec fn kind_of_code(code: Option<u16>) -> ReplyKind {
    if code == Some(SERVICE_READY) {
        ReplyKind::ServiceReady
    } else if code == Some(NEED_PASSWORD) {
        ReplyKind::NeedPassword
    } else if code == Some(USER_LOGGED_IN) {
        ReplyKind::LoggedIn
    } else if code == Some(NOT_LOGGED_IN) {
        ReplyKind::NotLoggedIn
    } else if code == Some(ENTERING_PASSIVE_MODE) {
        ReplyKind::EnteringPassive
    } else if code == Some(OPENING_DATA_CONNECTION) {
        ReplyKind::OpeningData
    } else if code == Some(CLOSING_DATA_CONNECTION) {
        ReplyKind::ClosingData
    } else if code == Some(PATHNAME_CREATED) {
        ReplyKind::Pathname
    } else if code == Some(FILE_ACTION_COMPLETED) {
        ReplyKind::FileActionDone
    } else if code == Some(FILE_ACTION_NEEDS_FURTHER_INFO) {
        ReplyKind::NeedFurtherInfo
    } else if code == Some(SERVICE_CLOSING_CONTROL_CONNECTION) {
        ReplyKind::ServiceClosing
    } else {
        ReplyKind::Other
    }
}

/// The kind of a raw reply.
pub open spec fn kind_of(raw: Seq<u8>) -> ReplyKind {
    kind_of_code(code_of(raw))
}

/// Whether a reply to a transfer command lets the transfer go on: the data
/// connection opens, or the server reports the transfer as already over.
pub open spec fn opens_data(raw: Seq<u8>) -> bool {
    kind_of(raw) == ReplyKind::OpeningData || kind_of(raw) == ReplyKind::ClosingData
}

/// A reply without its code and the separator behind it.
pub open spec fn tail_of(raw: Seq<u8>) -> Seq<u8> {
    if raw.len() >= PREFIX_LEN {
        raw.skip(PREFIX_LEN as int)
    } else {
        Seq::<u8>::empty()
    }
}

/// The error for a reply that is not the one the command calls for: it
/// carries the server's text, the reply without its code.
pub open spec fn rejected(raw: Seq<u8>) -> ErrorView {
    ErrorView::Server(text_of(tail_of(raw)))
}

/// The path in a reply to `PWD`: what stands between the first quote of the
/// text behind the code and the next quote. Where no second quote follows,
/// the path runs to the end of the line; where the text holds no quote at
/// all, the path is the text without the end of the line.
pub open spec fn path_of(raw: Seq<u8>) -> Seq<u8> {
    let text = tail_of(raw);
    let open = before(text, QUOTE);
    if open >= text.len() {
        without_line_end(text)
    } else {
        let rest = text.skip(open + 1);
        let close = before(rest, QUOTE);
        if close >= rest.len() {
            without_line_end(rest)
        } else {
            rest.take(close)
        }
    }
}

/// Reads the code at the start of a reply.
pub fn reply_code(raw: &[u8]) -> (code: Option<u16>)
    ensures
        code == code_of(raw@),
{
    if raw.len() < 3 {
        return None;
    }
    let zero: u8 = '0' as u8;
    let nine: u8 = '9' as u8;
    let a: u8 = raw[0];
    let b: u8 = raw[1];
    let c: u8 = raw[2];
    if a < zero || a > nine || b < zero || b > nine || c < zero || c > nine {
        return None;
    }
    let hundreds: u16 = (a - zero) as u16;
    let tens: u16 = (b - zero) as u16;
    let ones: u16 = (c - zero) as u16;
    Some(hundreds * 100 + tens * 10 + ones)
}

/// Sorts a reply by the first digit of its code.
pub fn reply_class(raw: &[u8]) -> (class: Option<ReplyClass>)
    ensures
        class == class_of(raw@),
{
    match reply_code(raw) {
        Some(code) => {
            if code < 100 {
                None
            } else if code < 200 {
                Some(ReplyClass::Preliminary)
            } else if code < 300 {
                Some(ReplyClass::Success)
            } else if code < 400 {
                Some(ReplyClass::Intermediate)
            } else if code < 500 {
                Some(ReplyClass::TransientFailure)
            } else if code < 600 {
                Some(ReplyClass::PermanentFailure)
            } else {
                None
            }
        },
        None => None,
    }
}

/// Sorts a reply by its code.
pub fn classify(raw: &[u8]) -> (kind: ReplyKind)
    ensures
        kind == kind_of(raw@),
{
    match reply_code(raw) {
        Some(code) => {
            if code == SERVICE_READY {
                ReplyKind::ServiceReady
            } else if code == NEED_PASSWORD {
                ReplyKind::NeedPassword
            } else if code == USER_LOGGED_IN {
                ReplyKind::LoggedIn
            } else if code == NOT_LOGGED_IN {
                ReplyKind::NotLoggedIn
            } else if code == ENTERING_PASSIVE_MODE {
                ReplyKind::EnteringPassive
            } else if code == OPENING_DATA_CONNECTION {
                ReplyKind::OpeningData
            } else if code == CLOSING_DATA_CONNECTION {
                ReplyKind::ClosingData
            } else if code == PATHNAME_CREATED {
                ReplyKind::Pathname
            } else if code == FILE_ACTION_COMPLETED {
                ReplyKind::FileActionDone
            } else if code == FILE_ACTION_NEEDS_FURTHER_INFO {
                ReplyKind::NeedFurtherInfo
            } else if code == SERVICE_CLOSING_CONTROL_CONNECTION {
                ReplyKind::ServiceClosing
            } else {
                ReplyKind::Other
            }
        },
        None => ReplyKind::Other,
    }
}

/// Whether the reply to a transfer command starts with 150 or with 226.
pub fn is_data_conn_open(res: &str) -> (open: bool)
    ensures
        open == opens_data(res.spec_bytes()),
{
    let kind = classify(res.as_bytes());
    kind == ReplyKind::OpeningData || kind == ReplyKind::ClosingData
}

/// The bytes of a reply behind its code and separator.
pub fn reply_tail(raw: &[u8]) -> (tail: &[u8])
    ensures
        tail@ == tail_of(raw@),
{
    if raw.len() >= PREFIX_LEN {
        vstd::slice::slice_subrange(raw, PREFIX_LEN, raw.len())
    } else {
        vstd::slice::slice_subrange(raw, 0, 0)
    }
}

/// The whole reply as text.
pub fn full_text(raw: &[u8]) -> (text: String)
    ensures
        text@ == text_of(raw@),
{
    decode(raw)
}

/// The server's message: the reply without its code, as text.
pub fn reply_text(raw: &[u8]) -> (text: String)
    ensures
        text@ == text_of(tail_of(raw@)),
{
    decode(reply_tail(raw))
}

/// The error for a reply that is not the one the command calls for.
pub fn rejection(raw: &[u8]) -> (error: Error)
    ensures
        error@ == rejected(raw@),
{
    Error::Server(reply_text(raw))
}

/// The working directory named in a reply to `PWD`.
pub fn quoted_path(raw: &[u8]) -> (path: String)
    ensures
        path@ == text_of(path_of(raw@)),
{
    let text = reply_tail(raw);
    assert(text@.skip(0) =~= text@);
    let open = find(text, 0, QUOTE);
    if open >= text.len() {
        return decode(strip_line_end(text));
    }
    let rest = vstd::slice::slice_subrange(text, open + 1, text.len());
    assert(rest@ =~= text@.skip(open + 1));
    assert(rest@.skip(0) =~= rest@);
    let close = find(rest, 0, QUOTE);
    if close >= rest.len() {
        decode(strip_line_end(rest))
    } else {
        let path = vstd::slice::slice_subrange(rest, 0, close);
        assert(path@ =~= rest@.take(close as int));
        decode(path)
    }
}

/// A reply to `PWD` that holds the path between quotes names that path,
/// whatever stands in front of the first quote and behind the second.
pub proof fn lemma_path_between_quotes(
    prefix: Seq<u8>,
    lead: Seq<u8>,
    path: Seq<u8>,
    trail: Seq<u8>,
)
    requires
        prefix.len() == PREFIX_LEN,
        forall|i: int| 0 <= i < lead.len() ==> #[trigger] lead[i] != QUOTE,
        forall|i: int| 0 <= i < path.len() ==> #[trigger] path[i] != QUOTE,
    ensures
        path_of(prefix + lead + seq![QUOTE] + path + seq![QUOTE] + trail) == path,
{
    let raw = prefix + lead + seq![QUOTE] + path + seq![QUOTE] + trail;
    let text = tail_of(raw);
    assert(text =~= lead + seq![QUOTE] + path + seq![QUOTE] + trail);
    assert forall|i: int| 0 <= i < lead.len() implies #[trigger] text[i] != QUOTE by {
        assert(text[i] == lead[i]);
    }
    assert(text[lead.len() as int] == QUOTE);
    lemma_before_at(text, QUOTE, lead.len() as int);
    let rest = text.skip(lead.len() as int + 1);
    assert(rest =~= path + seq![QUOTE] + trail);
    assert forall|i: int| 0 <= i < path.len() implies #[trigger] rest[i] != QUOTE by {
        assert(rest[i] == path[i]);
    }
    assert(rest[path.len() as int] == QUOTE);
    lemma_before_at(rest, QUOTE, path.len() as int);
    assert(rest.take(path.len() as int) =~= path);
}

} // verus!
