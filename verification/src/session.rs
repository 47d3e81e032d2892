//! The session as a mathematical state machine: what each event does to the
//! state, and which action comes next.

use vstd::prelude::*;
use vstd::utf8::encode_utf8;
use crate::command::{bare, command, line, Verb};
use crate::error::{
    ErrorView, CONNECT_FAILED, INVALID_CREDENTIALS, NOT_CONNECTED, NO_FILE_NAME, NO_RESPONSE, UNEXPECTED_EVENT,
};
use crate::exchange::{ActionView, EventView, OutputView};
use crate::listing::names_of;
use crate::pasv::endpoint_of;
use crate::reply::{kind_of, opens_data, path_of, rejected, ReplyKind};
use crate::text::text_of;

verus! {

/// How far the control connection has come.
#[derive(Clone, Copy, Debug, PartialEq, Eq, Structural)]
pub enum Link {
    /// The session holds no control connection.
    Offline,
    /// The server has greeted; nobody is logged in.
    Greeted,
    /// The server has accepted the user and the password.
    LoggedIn,
}

/// The reply that a command of a single round trip waits for.
#[derive(Clone, Copy, Debug, PartialEq, Eq, Structural)]
pub enum Goal {
    /// 250, for `CWD`, `DELE`, `MKD`, `RMD` and `RNTO`.
    FileAction,
    /// 257, for `PWD`.
    Pathname,
    /// 221, for `QUIT`.
    Closing,
}

impl Goal {
    /// The kind of reply that meets the goal.
    pub open spec fn wanted(self) -> ReplyKind {
        match self {
            Goal::FileAction => ReplyKind::FileActionDone,
            Goal::Pathname => ReplyKind::Pathname,
            Goal::Closing => ReplyKind::ServiceClosing,
        }
    }

    /// The kind of reply that meets the goal.
    pub fn kind(self) -> (kind: ReplyKind)
        ensures
            kind == self.wanted(),
    {
        match self {
            Goal::FileAction => ReplyKind::FileActionDone,
            Goal::Pathname => ReplyKind::Pathname,
            Goal::Closing => ReplyKind::ServiceClosing,
        }
    }
}

/// What a data connection is opened for.
#[derive(Clone, Copy, Debug, PartialEq, Eq, Structural)]
pub enum Job {
    List,
    Download,
    Upload,
}

/// A transfer that waits for its data connection.
pub struct TransferView {
    pub job: Job,
    /// The command line that starts the transfer.
    pub line: Seq<u8>,
    /// For a download, the name of the local file.
    pub name: Seq<char>,
}

/// The exchange in flight: which action the caller has been handed, and
/// what the session remembers for the steps after it.
pub enum PhaseView {
    /// Nothing is in flight.
    Idle,
    /// `USER` was sent.
    User,
    /// `PASS` was sent.
    Pass,
    /// A command that the caller spelled out was sent.
    Raw,
    /// A command of a single round trip was sent.
    Simple(Goal),
    /// `RNFR` was sent; the line of `RNTO` waits.
    RenameFrom(Seq<u8>),
    /// `PASV` was sent, for the transfer if there is one.
    Passive(Option<TransferView>),
    /// The data connection is being opened.
    Connecting(Option<TransferView>),
    /// The transfer command was sent.
    Opening(Job, Seq<char>),
    /// The local file is being created; `true` if the server has reported
    /// the transfer as over already.
    Creating(Seq<char>, bool),
    /// A listing is being read; the bytes are those read so far.
    Listing(Seq<u8>),
    /// A download is being read.
    Fetching(Seq<char>),
    /// Bytes of a download are being written to the local file.
    Writing(Seq<char>),
    /// The local file is being sent.
    Sending,
    /// The data is through and the server's last word is awaited.
    Confirming(OutputView),
}

/// A session as a mathematical value.
pub struct ClientView {
    pub name: Seq<char>,
    pub passwd: Seq<char>,
    pub link: Link,
    pub phase: PhaseView,
}

/// What the greeting makes of a fresh control connection: a session for
/// the user, if the server is ready.
pub open spec fn greeted(name: Seq<char>, passwd: Seq<char>, greeting: Seq<u8>) -> Result<
    ClientView,
    ErrorView,
> {
    if greeting.len() == 0 {
        Err(ErrorView::Server(CONNECT_FAILED@))
    } else if kind_of(greeting) != ReplyKind::ServiceReady {
        Err(rejected(greeting))
    } else {
        Ok(ClientView { name, passwd, link: Link::Greeted, phase: PhaseView::Idle })
    }
}

impl PhaseView {
    /// Whether the pending action reads a reply from the control connection.
    pub open spec fn awaits_reply(self) -> bool {
        match self {
            PhaseView::User
            | PhaseView::Pass
            | PhaseView::Raw
            | PhaseView::Simple(_)
            | PhaseView::RenameFrom(_)
            | PhaseView::Passive(_)
            | PhaseView::Opening(_, _)
            | PhaseView::Confirming(_) => true,
            _ => false,
        }
    }

    /// Whether the pending action reads from the data connection.
    pub open spec fn awaits_data(self) -> bool {
        self is Listing || self is Fetching
    }

    /// Whether the pending action is one that reads nothing.
    pub open spec fn awaits_completion(self) -> bool {
        self is Connecting || self is Creating || self is Writing || self is Sending
    }
}

impl ClientView {
    /// Nothing in flight while there is no control connection.
    pub open spec fn wf(self) -> bool {
        self.link == Link::Offline ==> self.phase is Idle
    }

    /// Whether a new exchange can start: there is a control connection, and
    /// no exchange holds it.
    pub open spec fn free(self) -> bool {
        self.link != Link::Offline && self.phase is Idle
    }

    /// The session in another phase.
    pub open spec fn at(self, phase: PhaseView) -> ClientView {
        ClientView { phase, ..self }
    }

    /// The session with nothing in flight.
    pub open spec fn idle(self) -> ClientView {
        self.at(PhaseView::Idle)
    }

    /// The session after it has let go of the control connection.
    pub open spec fn offline(self) -> ClientView {
        ClientView { link: Link::Offline, phase: PhaseView::Idle, ..self }
    }

    /// The exchange ends well.
    pub open spec fn succeed(self, output: OutputView) -> (ClientView, ActionView) {
        (self.idle(), ActionView::Finish(Ok(output)))
    }

    /// The exchange ends with an error; the control connection stays.
    pub open spec fn fail(self, error: ErrorView) -> (ClientView, ActionView) {
        (self.idle(), ActionView::Finish(Err(error)))
    }

    /// The exchange ends with an error that costs the control connection.
    pub open spec fn abandon(self, error: ErrorView) -> (ClientView, ActionView) {
        (self.offline(), ActionView::Finish(Err(error)))
    }

    /// A command is turned down at once: nothing changes and nothing is
    /// sent.
    pub open spec fn refuse(self) -> (ClientView, ActionView) {
        (self, ActionView::Finish(Err(ErrorView::Server(NOT_CONNECTED@))))
    }

    /// A new exchange starts with `line`, or is refused where the session is
    /// not free for it.
    pub open spec fn begin(self, phase: PhaseView, line: Seq<u8>) -> (ClientView, ActionView) {
        if self.free() {
            (self.at(phase), ActionView::Exchange(line))
        } else {
            self.refuse()
        }
    }

    /// The login starts: whoever was logged in no longer is.
    pub open spec fn login(self) -> (ClientView, ActionView) {
        if self.free() {
            (
                ClientView { link: Link::Greeted, phase: PhaseView::User, ..self },
                ActionView::Exchange(command(Verb::User, encode_utf8(self.name))),
            )
        } else {
            self.refuse()
        }
    }

    /// A command that the caller spells out.
    pub open spec fn send_command(self, text: Seq<u8>) -> (ClientView, ActionView) {
        self.begin(PhaseView::Raw, line(text))
    }

    /// A command of a single round trip.
    pub open spec fn simple(self, goal: Goal, line: Seq<u8>) -> (ClientView, ActionView) {
        self.begin(PhaseView::Simple(goal), line)
    }

    /// The two steps of a rename.
    pub open spec fn rename(self, from: Seq<u8>, to: Seq<u8>) -> (ClientView, ActionView) {
        self.begin(PhaseView::RenameFrom(command(Verb::Rnto, to)), command(Verb::Rnfr, from))
    }

    /// An upload under the name that the local path ends in. A path that
    /// ends in no name ends the upload at once: nothing changes and nothing
    /// is sent.
    pub open spec fn upload(self, name: Option<Seq<u8>>) -> (ClientView, ActionView) {
        match name {
            Some(name) => self.passive(
                Some(
                    TransferView {
                        job: Job::Upload,
                        line: command(Verb::Stor, name),
                        name: Seq::empty(),
                    },
                ),
            ),
            None => (self, ActionView::Finish(Err(ErrorView::Io(NO_FILE_NAME@)))),
        }
    }

    /// Passive mode, for a transfer or for the data connection alone.
    pub open spec fn passive(self, transfer: Option<TransferView>) -> (ClientView, ActionView) {
        self.begin(PhaseView::Passive(transfer), bare(Verb::Pasv))
    }

    /// A reply came in answer to `USER` or to `PASS`. Only 331 to `USER`
    /// and then 230 to `PASS` log the user in.
    pub open spec fn on_login_reply(self, raw: Seq<u8>) -> (ClientView, ActionView)
        recommends
            self.phase is User || self.phase is Pass,
    {
        match kind_of(raw) {
            ReplyKind::NeedPassword if self.phase is User => (
                self.at(PhaseView::Pass),
                ActionView::Exchange(command(Verb::Pass, encode_utf8(self.passwd))),
            ),
            ReplyKind::LoggedIn if self.phase is Pass => ClientView {
                link: Link::LoggedIn,
                ..self
            }.succeed(OutputView::Done),
            ReplyKind::NotLoggedIn => self.fail(ErrorView::Server(INVALID_CREDENTIALS@)),
            _ => self.fail(rejected(raw)),
        }
    }

    /// A reply came in answer to a command of a single round trip. After
    /// `QUIT` the control connection is given up whatever the reply.
    pub open spec fn on_simple_reply(self, goal: Goal, raw: Seq<u8>) -> (ClientView, ActionView) {
        let met = kind_of(raw) == goal.wanted();
        match goal {
            Goal::FileAction => if met {
                self.succeed(OutputView::Done)
            } else {
                self.fail(rejected(raw))
            },
            Goal::Pathname => if met {
                self.succeed(OutputView::Path(text_of(path_of(raw))))
            } else {
                self.fail(rejected(raw))
            },
            Goal::Closing => if met {
                (self.offline(), ActionView::Finish(Ok(OutputView::Done)))
            } else {
                self.abandon(rejected(raw))
            },
        }
    }

    /// A reply came in answer to `PASV`.
    pub open spec fn on_passive_reply(self, transfer: Option<TransferView>, raw: Seq<u8>) -> (
        ClientView,
        ActionView,
    ) {
        if kind_of(raw) != ReplyKind::EnteringPassive {
            self.fail(rejected(raw))
        } else {
            match endpoint_of(raw) {
                Ok(endpoint) => (
                    self.at(PhaseView::Connecting(transfer)),
                    ActionView::Connect(endpoint),
                ),
                Err(error) => self.fail(error),
            }
        }
    }

    /// A reply came in answer to the command that starts a transfer. With
    /// 150 the data flows. With 226 a listing or a download is over before
    /// any data came, while an upload still has its file to send.
    pub open spec fn on_opening_reply(self, job: Job, name: Seq<char>, raw: Seq<u8>) -> (
        ClientView,
        ActionView,
    ) {
        let over = kind_of(raw) == ReplyKind::ClosingData;
        if !opens_data(raw) {
            self.fail(rejected(raw))
        } else {
            match job {
                Job::List => if over {
                    self.succeed(OutputView::Names(Seq::empty()))
                } else {
                    (self.at(PhaseView::Listing(Seq::empty())), ActionView::ReadData)
                },
                Job::Download => (
                    self.at(PhaseView::Creating(name, over)),
                    ActionView::CreateFile(name),
                ),
                Job::Upload => (self.at(PhaseView::Sending), ActionView::SendFile),
            }
        }
    }

    /// A reply of at least one byte came from the control connection.
    pub open spec fn on_reply(self, raw: Seq<u8>) -> (ClientView, ActionView)
        recommends
            self.phase.awaits_reply(),
            raw.len() > 0,
    {
        match self.phase {
            PhaseView::User | PhaseView::Pass => self.on_login_reply(raw),
            PhaseView::Raw => self.succeed(OutputView::Reply(text_of(raw))),
            PhaseView::Simple(goal) => self.on_simple_reply(goal, raw),
            PhaseView::RenameFrom(next) => if kind_of(raw) == ReplyKind::NeedFurtherInfo {
                (self.at(PhaseView::Simple(Goal::FileAction)), ActionView::Exchange(next))
            } else {
                self.fail(rejected(raw))
            },
            PhaseView::Passive(transfer) => self.on_passive_reply(transfer, raw),
            PhaseView::Opening(job, name) => self.on_opening_reply(job, name, raw),
            PhaseView::Confirming(output) => if kind_of(raw) == ReplyKind::ClosingData {
                self.succeed(output)
            } else {
                self.abandon(rejected(raw))
            },
            _ => self.fail(ErrorView::Io(UNEXPECTED_EVENT@)),
        }
    }

    /// Bytes came from the data connection; none means that it is closed.
    pub open spec fn on_data(self, bytes: Seq<u8>) -> (ClientView, ActionView)
        recommends
            self.phase.awaits_data(),
    {
        match self.phase {
            PhaseView::Listing(sofar) => if bytes.len() == 0 {
                (
                    self.at(PhaseView::Confirming(OutputView::Names(names_of(sofar)))),
                    ActionView::AwaitReply,
                )
            } else {
                (self.at(PhaseView::Listing(sofar + bytes)), ActionView::ReadData)
            },
            PhaseView::Fetching(name) => if bytes.len() == 0 {
                (
                    self.at(PhaseView::Confirming(OutputView::Saved(name))),
                    ActionView::AwaitReply,
                )
            } else {
                (self.at(PhaseView::Writing(name)), ActionView::WriteFile(bytes))
            },
            _ => self.fail(ErrorView::Io(UNEXPECTED_EVENT@)),
        }
    }

    /// The pending action, one that reads nothing, was carried out.
    pub open spec fn on_done(self) -> (ClientView, ActionView)
        recommends
            self.phase.awaits_completion(),
    {
        match self.phase {
            PhaseView::Connecting(None) => self.succeed(OutputView::Connected),
            PhaseView::Connecting(Some(transfer)) => (
                self.at(PhaseView::Opening(transfer.job, transfer.name)),
                ActionView::Exchange(transfer.line),
            ),
            PhaseView::Creating(name, over) => if over {
                self.succeed(OutputView::Saved(name))
            } else {
                (self.at(PhaseView::Fetching(name)), ActionView::ReadData)
            },
            PhaseView::Writing(name) => (self.at(PhaseView::Fetching(name)), ActionView::ReadData),
            PhaseView::Sending => (
                self.at(PhaseView::Confirming(OutputView::Done)),
                ActionView::AwaitReply,
            ),
            _ => self.fail(ErrorView::Io(UNEXPECTED_EVENT@)),
        }
    }

    /// The pending action failed. A failure on the control connection costs
    /// the session that connection; any other leaves it in place.
    pub open spec fn on_failure(self, text: Seq<char>) -> (ClientView, ActionView) {
        if self.phase.awaits_reply() {
            self.abandon(ErrorView::Io(text))
        } else {
            self.fail(ErrorView::Io(text))
        }
    }

    /// What an event does to the session, and the action that follows. A
    /// read of data that would have had to wait is tried again, with the
    /// session as it was. An event that the pending action cannot bring
    /// about counts as a failure of that action.
    pub open spec fn step(self, event: EventView) -> (ClientView, ActionView) {
        match event {
            EventView::Reply(raw) if self.phase.awaits_reply() => if raw.len() == 0 {
                self.abandon(ErrorView::Server(NO_RESPONSE@))
            } else {
                self.on_reply(raw)
            },
            EventView::Data(bytes) if self.phase.awaits_data() => self.on_data(bytes),
            EventView::WouldBlock if self.phase.awaits_data() => (self, ActionView::ReadData),
            EventView::Done if self.phase.awaits_completion() => self.on_done(),
            EventView::Failed(text) => self.on_failure(text),
            _ => self.on_failure(UNEXPECTED_EVENT@),
        }
    }
}

} // verus!
