//! What passes between the session and the caller that owns the connections.

use vstd::prelude::*;
use crate::error::{Error, ErrorKind, ErrorView};
use crate::listing::texts;
use crate::pasv::PassiveEndpoint;

verus! {

/// What an exchange hands back when it ends well.
#[derive(Debug, PartialEq, Eq)]
pub enum Output {
    /// The command was carried out.
    Done,
    /// The reply to a command that the caller spelled out.
    Reply(String),
    /// The working directory.
    Path(String),
    /// The names in a directory, in the order the server sent them.
    Names(Vec<String>),
    /// The name of the local file that holds the download.
    Saved(String),
    /// The data connection is open and stays with the caller.
    Connected,
}

/// An [`Output`] as a mathematical value.
pub enum OutputView {
    Done,
    Reply(Seq<char>),
    Path(Seq<char>),
    Names(Seq<Seq<char>>),
    Saved(Seq<char>),
    Connected,
}

impl View for Output {
    type V = OutputView;

    open spec fn view(&self) -> OutputView {
        match self {
            Output::Done => OutputView::Done,
            Output::Reply(text) => OutputView::Reply(text@),
            Output::Path(path) => OutputView::Path(path@),
            Output::Names(names) => OutputView::Names(texts(names@)),
            Output::Saved(name) => OutputView::Saved(name@),
            Output::Connected => OutputView::Connected,
        }
    }
}

/// What the caller is to do next.
#[derive(Debug, PartialEq, Eq)]
pub enum Action {
    /// Write the line to the control connection, flush, and read one reply.
    Exchange(Vec<u8>),
    /// Read one more reply from the control connection.
    AwaitReply,
    /// Open the data connection to the endpoint.
    Connect(PassiveEndpoint),
    /// Create the local file of this name for the download.
    CreateFile(String),
    /// Read the next bytes from the data connection, once and without
    /// waiting for them.
    ReadData,
    /// Append the bytes to the local file.
    WriteFile(Vec<u8>),
    /// Copy the local file into the data connection, then shut it down.
    SendFile,
    /// The exchange is over: close the data connection if one is open, and
    /// the control connection if the session no longer holds it.
    Finish(Result<Output, Error>),
}

/// An [`Action`] as a mathematical value.
pub enum ActionView {
    Exchange(Seq<u8>),
    AwaitReply,
    Connect(PassiveEndpoint),
    CreateFile(Seq<char>),
    ReadData,
    WriteFile(Seq<u8>),
    SendFile,
    Finish(Result<OutputView, ErrorView>),
}

impl ActionView {
    /// Whether the action ends the exchange with an error of this kind.
    pub open spec fn fails_as(self, kind: ErrorKind) -> bool {
        match self {
            ActionView::Finish(Err(error)) => error.kind() == kind,
            _ => false,
        }
    }
}

impl View for Action {
    type V = ActionView;

    open spec fn view(&self) -> ActionView {
        match self {
            Action::Exchange(line) => ActionView::Exchange(line@),
            Action::AwaitReply => ActionView::AwaitReply,
            Action::Connect(endpoint) => ActionView::Connect(*endpoint),
            Action::CreateFile(name) => ActionView::CreateFile(name@),
            Action::ReadData => ActionView::ReadData,
            Action::WriteFile(bytes) => ActionView::WriteFile(bytes@),
            Action::SendFile => ActionView::SendFile,
            Action::Finish(Ok(output)) => ActionView::Finish(Ok(output@)),
            Action::Finish(Err(error)) => ActionView::Finish(Err(error@)),
        }
    }
}

/// What came of the last action.
#[derive(Debug, PartialEq, Eq)]
pub enum Event {
    /// The bytes of one read from the control connection; none when the
    /// server had closed it.
    Reply(Vec<u8>),
    /// The bytes of one read from the data connection; none when the server
    /// had closed it.
    Data(Vec<u8>),
    /// The read from the data connection would have had to wait: nothing
    /// was read, and nothing is known of the connection.
    WouldBlock,
    /// The action, one that reads nothing, was carried out.
    Done,
    /// The action failed; the text says how.
    Failed(String),
}

/// An [`Event`] as a mathematical value.
pub enum EventView {
    Reply(Seq<u8>),
    Data(Seq<u8>),
    WouldBlock,
    Done,
    Failed(Seq<char>),
}

impl View for Event {
    type V = EventView;

    open spec fn view(&self) -> EventView {
        match self {
            Event::Reply(raw) => EventView::Reply(raw@),
            Event::Data(bytes) => EventView::Data(bytes@),
            Event::WouldBlock => EventView::WouldBlock,
            Event::Done => EventView::Done,
            Event::Failed(text) => EventView::Failed(text@),
        }
    }
}

} // verus!
