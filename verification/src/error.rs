//! What can go wrong, and the text shown for it.

use vstd::prelude::*;
use vstd::string::StringExecFns;

verus! {

/// No greeting came after the connection was made.
pub const CONNECT_FAILED: &'static str = "连接到服务器失败，可能是服务器未启动或地址错误";

/// The server closed the control connection instead of replying.
pub const NO_RESPONSE: &'static str = "服务器没有响应";

/// A command was asked for while no control connection was free for it.
pub const NOT_CONNECTED: &'static str = "未连接到服务器，请先登录";

/// The server refused the user name or the password.
pub const INVALID_CREDENTIALS: &'static str = "登录失败，用户名或密码错误";

/// Text for [`AddressFault::NoGroup`].
pub const PASSIVE_MALFORMED: &'static str = "PASV 响应格式错误";

/// Text for [`AddressFault::FieldCount`].
pub const PASSIVE_ADDRESS_MALFORMED: &'static str = "PASV 响应地址部分格式错误";

/// The local path of an upload ends in no file name.
pub const NO_FILE_NAME: &'static str = "path has no file name";

/// The caller reported something that the pending action cannot bring about.
pub const UNEXPECTED_EVENT: &'static str = "unexpected event";

/// Text for [`AddressFault::Host`].
pub const ADDRESS_SYNTAX: &'static str = "invalid IP address syntax";

/// Text for [`NumericFault::Empty`].
pub const NUMBER_EMPTY: &'static str = "cannot parse integer from empty string";

/// Text for [`NumericFault::InvalidDigit`].
pub const NUMBER_INVALID_DIGIT: &'static str = "invalid digit found in string";

/// Text for [`NumericFault::Overflow`].
pub const NUMBER_TOO_LARGE: &'static str = "number too large to fit in target type";

/// Why a passive-mode reply names no address.
#[derive(Clone, Copy, Debug, PartialEq, Eq, Structural)]
pub enum AddressFault {
    /// The reply holds no group in parentheses.
    NoGroup,
    /// The group does not hold six fields.
    FieldCount,
    /// A host field is no octet of an IPv4 address.
    Host,
}

/// Why a field of a passive-mode reply is no port number.
#[derive(Clone, Copy, Debug, PartialEq, Eq, Structural)]
pub enum NumericFault {
    /// The field is empty.
    Empty,
    /// The field is more than an optional `+` and digits.
    InvalidDigit,
    /// The number does not fit the port.
    Overflow,
}

/// The tag under which an error is shown.
#[derive(Clone, Copy, Debug, PartialEq, Eq, Structural)]
pub enum ErrorKind {
    Io,
    AddressParse,
    NumericParse,
    Server,
}

/// An error of the client.
#[derive(Debug, PartialEq, Eq)]
pub enum Error {
    /// Reading or writing failed; the text is the caller's account of it.
    Io(String),
    /// A passive-mode reply names no address.
    AddressParse(AddressFault),
    /// A port field in a passive-mode reply is no number.
    NumericParse(NumericFault),
    /// The server did not answer as the command calls for; the text is the
    /// server's own, or says what the session found.
    Server(String),
}

/// An [`Error`] as a mathematical value.
pub enum ErrorView {
    Io(Seq<char>),
    AddressParse(AddressFault),
    NumericParse(NumericFault),
    Server(Seq<char>),
}

impl View for Error {
    type V = ErrorView;

    open spec fn view(&self) -> ErrorView {
        match self {
            Error::Io(text) => ErrorView::Io(text@),
            Error::AddressParse(fault) => ErrorView::AddressParse(*fault),
            Error::NumericParse(fault) => ErrorView::NumericParse(*fault),
            Error::Server(text) => ErrorView::Server(text@),
        }
    }
}

impl AddressFault {
    /// The text shown for the fault.
    pub open spec fn text(self) -> Seq<char> {
        match self {
            AddressFault::NoGroup => PASSIVE_MALFORMED@,
            AddressFault::FieldCount => PASSIVE_ADDRESS_MALFORMED@,
            AddressFault::Host => ADDRESS_SYNTAX@,
        }
    }
}

impl NumericFault {
    /// The text shown for the fault.
    pub open spec fn text(self) -> Seq<char> {
        match self {
            NumericFault::Empty => NUMBER_EMPTY@,
            NumericFault::InvalidDigit => NUMBER_INVALID_DIGIT@,
            NumericFault::Overflow => NUMBER_TOO_LARGE@,
        }
    }
}

impl ErrorView {
    /// The tag of the error.
    pub open spec fn kind(self) -> ErrorKind {
        match self {
            ErrorView::Io(_) => ErrorKind::Io,
            ErrorView::AddressParse(_) => ErrorKind::AddressParse,
            ErrorView::NumericParse(_) => ErrorKind::NumericParse,
            ErrorView::Server(_) => ErrorKind::Server,
        }
    }

    /// The text shown for the error.
    pub open spec fn message(self) -> Seq<char> {
        match self {
            ErrorView::Io(text) => text,
            ErrorView::AddressParse(fault) => fault.text(),
            ErrorView::NumericParse(fault) => fault.text(),
            ErrorView::Server(text) => text,
        }
    }
}

impl Error {
    /// A server error with a fixed text.
    pub fn server(text: &str) -> (error: Error)
        ensures
            error@ == ErrorView::Server(text@),
    {
        Error::Server(String::from_str(text))
    }

    /// An I/O error with the caller's account of it.
    pub fn io(text: &str) -> (error: Error)
        ensures
            error@ == ErrorView::Io(text@),
    {
        Error::Io(String::from_str(text))
    }

    /// The tag of the error.
    pub fn kind(&self) -> (kind: ErrorKind)
        ensures
            kind == self@.kind(),
    {
        match self {
            Error::Io(_) => ErrorKind::Io,
            Error::AddressParse(_) => ErrorKind::AddressParse,
            Error::NumericParse(_) => ErrorKind::NumericParse,
            Error::Server(_) => ErrorKind::Server,
        }
    }

    /// The text shown for the error.
    pub fn message(&self) -> (text: String)
        ensures
            text@ == self@.message(),
    {
        match self {
            Error::Io(text) => text.clone(),
            Error::AddressParse(AddressFault::NoGroup) => String::from_str(PASSIVE_MALFORMED),
            Error::AddressParse(AddressFault::FieldCount) => String::from_str(
                PASSIVE_ADDRESS_MALFORMED,
            ),
            Error::AddressParse(AddressFault::Host) => String::from_str(ADDRESS_SYNTAX),
            Error::NumericParse(NumericFault::Empty) => String::from_str(NUMBER_EMPTY),
            Error::NumericParse(NumericFault::InvalidDigit) => String::from_str(
                NUMBER_INVALID_DIGIT,
            ),
            Error::NumericParse(NumericFault::Overflow) => String::from_str(NUMBER_TOO_LARGE),
            Error::Server(text) => text.clone(),
        }
    }
}

} // verus!
