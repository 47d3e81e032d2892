//! The session that the caller drives.

use vstd::prelude::*;
use vstd::string::{StringExecFns, StringSliceAdditionalSpecFns};
use crate::command::{bare, bare_line, command, command_line, raw_line, Verb};
use crate::error::{
    Error, ErrorView, CONNECT_FAILED, INVALID_CREDENTIALS, NOT_CONNECTED, NO_FILE_NAME, NO_RESPONSE,
    UNEXPECTED_EVENT,
};
use crate::exchange::{Action, Event, Output};
use crate::listing::list_names;
use crate::pasv::parse_endpoint;
use crate::reply::{classify, full_text, quoted_path, rejection, ReplyKind};
use crate::session::{greeted, ClientView, Goal, Job, Link, PhaseView, TransferView};

verus! {

/// How many bytes one read of a reply may deliver.
pub const REPLY_CAPACITY: usize = 1024;

/// How many seconds opening a connection may take.
pub const CONNECT_TIMEOUT_SECS: u64 = 5;

/// A transfer that waits for its data connection.
struct Transfer {
    job: Job,
    line: Vec<u8>,
    name: String,
}

impl View for Transfer {
    type V = TransferView;

    closed spec fn view(&self) -> TransferView {
        TransferView { job: self.job, line: self.line@, name: self.name@ }
    }
}

/// The transfer that passive mode is entered for, as a mathematical value.
spec fn wanted(transfer: Option<Transfer>) -> Option<TransferView> {
    match transfer {
        Some(transfer) => Some(transfer@),
        None => None,
    }
}

/// The exchange in flight.
enum Phase {
    Idle,
    User,
    Pass,
    Raw,
    Simple(Goal),
    RenameFrom(Vec<u8>),
    Passive(Option<Transfer>),
    Connecting(Option<Transfer>),
    Opening(Job, String),
    Creating(String, bool),
    Listing(Vec<u8>),
    Fetching(String),
    Writing(String),
    Sending,
    Confirming(Output),
}

impl View for Phase {
    type V = PhaseView;

    closed spec fn view(&self) -> PhaseView {
        match self {
            Phase::Idle => PhaseView::Idle,
            Phase::User => PhaseView::User,
            Phase::Pass => PhaseView::Pass,
            Phase::Raw => PhaseView::Raw,
            Phase::Simple(goal) => PhaseView::Simple(*goal),
            Phase::RenameFrom(next) => PhaseView::RenameFrom(next@),
            Phase::Passive(transfer) => PhaseView::Passive(wanted(*transfer)),
            Phase::Connecting(transfer) => PhaseView::Connecting(wanted(*transfer)),
            Phase::Opening(job, name) => PhaseView::Opening(*job, name@),
            Phase::Creating(name, over) => PhaseView::Creating(name@, *over),
            Phase::Listing(sofar) => PhaseView::Listing(sofar@),
            Phase::Fetching(name) => PhaseView::Fetching(name@),
            Phase::Writing(name) => PhaseView::Writing(name@),
            Phase::Sending => PhaseView::Sending,
            Phase::Confirming(output) => PhaseView::Confirming(output@),
        }
    }
}

impl Phase {
    /// Whether the pending action reads a reply from the control connection.
    fn awaits_reply(&self) -> (yes: bool)
        ensures
            yes == self@.awaits_reply(),
    {
        match self {
            Phase::User
            | Phase::Pass
            | Phase::Raw
            | Phase::Simple(_)
            | Phase::RenameFrom(_)
            | Phase::Passive(_)
            | Phase::Opening(_, _)
            | Phase::Confirming(_) => true,
            _ => false,
        }
    }

    /// Whether the pending action reads from the data connection.
    fn awaits_data(&self) -> (yes: bool)
        ensures
            yes == self@.awaits_data(),
    {
        match self {
            Phase::Listing(_) | Phase::Fetching(_) => true,
            _ => false,
        }
    }

    /// Whether the pending action is one that reads nothing.
    fn awaits_completion(&self) -> (yes: bool)
        ensures
            yes == self@.awaits_completion(),
    {
        match self {
            Phase::Connecting(_) | Phase::Creating(_, _) | Phase::Writing(_) | Phase::Sending => true,
            _ => false,
        }
    }
}

/// One user's session with one server.
///
/// The session holds no socket. It hands out [`Action`]s, and the caller
/// that owns the control and data connections reports what came of each
/// through [`Client::advance`], until an action is [`Action::Finish`].
pub struct Client {
    name: String,
    passwd: String,
    link: Link,
    phase: Phase,
}

impl View for Client {
    type V = ClientView;

    closed spec fn view(&self) -> ClientView {
        ClientView { name: self.name@, passwd: self.passwd@, link: self.link, phase: self.phase@ }
    }
}

/// The outcome of [`Client::build`] as a mathematical value.
pub open spec fn built(outcome: Result<Client, Error>) -> Result<ClientView, ErrorView> {
    match outcome {
        Ok(client) => Ok(client@),
        Err(error) => Err(error@),
    }
}

impl Client {
    /// Nothing is in flight while there is no control connection.
    #[verifier::type_invariant]
    spec fn inv(self) -> bool {
        self.link == Link::Offline ==> self.phase is Idle
    }
}

impl Default for Client {
    /// A session without a control connection, for nobody.
    fn default() -> (client: Client)
        ensures
            client@ == (ClientView {
                name: Seq::empty(),
                passwd: Seq::empty(),
                link: Link::Offline,
                phase: PhaseView::Idle,
            }),
    {
        Client { name: String::new(), passwd: String::new(), link: Link::Offline, phase: Phase::Idle }
    }
}

impl Client {
    /// Makes the session for a control connection that was just opened,
    /// from the greeting read on it. The server must be ready (220).
    pub fn build(name: String, passwd: String, greeting: &[u8]) -> (outcome: Result<Client, Error>)
        ensures
            built(outcome) == greeted(name@, passwd@, greeting@),
    {
        if greeting.len() == 0 {
            return Err(Error::server(CONNECT_FAILED));
        }
        match classify(greeting) {
            ReplyKind::ServiceReady => Ok(
                Client { name, passwd, link: Link::Greeted, phase: Phase::Idle },
            ),
            _ => Err(rejection(greeting)),
        }
    }

    /// How far the control connection has come.
    pub fn link(&self) -> (link: Link)
        ensures
            link == self@.link,
    {
        self.link
    }

    /// Whether the session holds a control connection.
    pub fn is_connected(&self) -> (connected: bool)
        ensures
            connected == (self@.link != Link::Offline),
            self@.wf(),
    {
        proof {
            use_type_invariant(self);
        }
        self.link != Link::Offline
    }

    /// Whether the server has accepted the user and the password.
    pub fn is_authenticated(&self) -> (authenticated: bool)
        ensures
            authenticated == (self@.link == Link::LoggedIn),
    {
        self.link == Link::LoggedIn
    }

    /// Whether nothing is in flight.
    pub fn is_idle(&self) -> (idle: bool)
        ensures
            idle == (self@.phase is Idle),
            self@.wf(),
    {
        proof {
            use_type_invariant(self);
        }
        match self.phase {
            Phase::Idle => true,
            _ => false,
        }
    }

    /// The name of the user.
    pub fn name(&self) -> (name: &str)
        ensures
            name@ == self@.name,
    {
        self.name.as_str()
    }

    /// Whether a new exchange can start.
    fn is_free(&self) -> (free: bool)
        ensures
            free == self@.free(),
    {
        self.is_idle() && self.is_connected()
    }

    /// Starts an exchange with `line`, or refuses it.
    fn begin(&mut self, phase: Phase, line: Vec<u8>) -> (action: Action)
        ensures
            (final(self)@, action@) == old(self)@.begin(phase@, line@),
    {
        if self.is_free() {
            self.phase = phase;
            Action::Exchange(line)
        } else {
            Action::Finish(Err(Error::server(NOT_CONNECTED)))
        }
    }

    /// Sends a command that the caller spells out; the exchange ends with
    /// the reply as [`Output::Reply`], whatever its code.
    pub fn send_command(&mut self, command: &[u8]) -> (action: Action)
        ensures
            (final(self)@, action@) == old(self)@.send_command(command@),
    {
        self.begin(Phase::Raw, raw_line(command))
    }

    /// Logs in with the name and password of the session: `USER`, which
    /// must be answered with 331, then `PASS`, which must be answered with
    /// 230.
    pub fn login(&mut self) -> (action: Action)
        ensures
            (final(self)@, action@) == old(self)@.login(),
    {
        if self.is_free() {
            self.link = Link::Greeted;
            self.phase = Phase::User;
            Action::Exchange(command_line(Verb::User, self.name.as_str()))
        } else {
            Action::Finish(Err(Error::server(NOT_CONNECTED)))
        }
    }

    /// Enters passive mode and has the data connection opened, for the
    /// caller to keep.
    pub fn pasv(&mut self) -> (action: Action)
        ensures
            (final(self)@, action@) == old(self)@.passive(None),
    {
        self.begin(Phase::Passive(None), bare_line(Verb::Pasv))
    }

    /// Asks for the working directory (`PWD`, 257).
    pub fn pwd(&mut self) -> (action: Action)
        ensures
            (final(self)@, action@) == old(self)@.simple(Goal::Pathname, bare(Verb::Pwd)),
    {
        self.begin(Phase::Simple(Goal::Pathname), bare_line(Verb::Pwd))
    }

    /// Lists the names in `path` (`PASV`, then `NLST`).
    pub fn nlst(&mut self, path: &str) -> (action: Action)
        ensures
            (final(self)@, action@) == old(self)@.passive(
                Some(
                    TransferView {
                        job: Job::List,
                        line: command(Verb::Nlst, path.spec_bytes()),
                        name: Seq::empty(),
                    },
                ),
            ),
    {
        let transfer = Transfer {
            job: Job::List,
            line: command_line(Verb::Nlst, path),
            name: String::new(),
        };
        self.begin(Phase::Passive(Some(transfer)), bare_line(Verb::Pasv))
    }

    /// Downloads `file` into a local file of the same name (`PASV`, then
    /// `RETR`).
    pub fn download(&mut self, file: &str) -> (action: Action)
        ensures
            (final(self)@, action@) == old(self)@.passive(
                Some(
                    TransferView {
                        job: Job::Download,
                        line: command(Verb::Retr, file.spec_bytes()),
                        name: file@,
                    },
                ),
            ),
    {
        let transfer = Transfer {
            job: Job::Download,
            line: command_line(Verb::Retr, file),
            name: String::from_str(file),
        };
        self.begin(Phase::Passive(Some(transfer)), bare_line(Verb::Pasv))
    }

    /// Uploads the caller's local file under `name`, the file name that
    /// its path ends in (`PASV`, then `STOR`). A path that ends in no name
    /// is an error, and nothing is sent.
    pub fn upload(&mut self, name: Option<&str>) -> (action: Action)
        ensures
            (final(self)@, action@) == old(self)@.upload(
                match name {
                    Some(name) => Some(name.spec_bytes()),
                    None => None,
                },
            ),
    {
        match name {
            Some(name) => {
                let transfer = Transfer {
                    job: Job::Upload,
                    line: command_line(Verb::Stor, name),
                    name: String::new(),
                };
                self.begin(Phase::Passive(Some(transfer)), bare_line(Verb::Pasv))
            },
            None => Action::Finish(Err(Error::io(NO_FILE_NAME))),
        }
    }

    /// Ends the session (`QUIT`, 221). Whatever the reply, the control
    /// connection is given up.
    pub fn quit(&mut self) -> (action: Action)
        ensures
            (final(self)@, action@) == old(self)@.simple(Goal::Closing, bare(Verb::Quit)),
    {
        self.begin(Phase::Simple(Goal::Closing), bare_line(Verb::Quit))
    }

    /// Changes the working directory (`CWD`, 250).
    pub fn cd(&mut self, path: &str) -> (action: Action)
        ensures
            (final(self)@, action@) == old(self)@.simple(
                Goal::FileAction,
                command(Verb::Cwd, path.spec_bytes()),
            ),
    {
        self.begin(Phase::Simple(Goal::FileAction), command_line(Verb::Cwd, path))
    }

    /// Deletes a file (`DELE`, 250).
    pub fn rm(&mut self, path: &str) -> (action: Action)
        ensures
            (final(self)@, action@) == old(self)@.simple(
                Goal::FileAction,
                command(Verb::Dele, path.spec_bytes()),
            ),
    {
        self.begin(Phase::Simple(Goal::FileAction), command_line(Verb::Dele, path))
    }

    /// Makes a directory (`MKD`, 250).
    pub fn mkdir(&mut self, path: &str) -> (action: Action)
        ensures
            (final(self)@, action@) == old(self)@.simple(
                Goal::FileAction,
                command(Verb::Mkd, path.spec_bytes()),
            ),
    {
        self.begin(Phase::Simple(Goal::FileAction), command_line(Verb::Mkd, path))
    }

    /// Removes a directory (`RMD`, 250).
    pub fn rmdir(&mut self, path: &str) -> (action: Action)
        ensures
            (final(self)@, action@) == old(self)@.simple(
                Goal::FileAction,
                command(Verb::Rmd, path.spec_bytes()),
            ),
    {
        self.begin(Phase::Simple(Goal::FileAction), command_line(Verb::Rmd, path))
    }

    /// Ends the exchange with an error; the control connection stays.
    fn fail(&mut self, error: Error) -> (action: Action)
        requires
            old(self).phase is Idle,
        ensures
            (final(self)@, action@) == old(self)@.fail(error@),
    {
        Action::Finish(Err(error))
    }

    /// Ends the exchange with an error and gives up the control connection.
    fn abandon(&mut self, error: Error) -> (action: Action)
        requires
            old(self).phase is Idle,
        ensures
            (final(self)@, action@) == old(self)@.abandon(error@),
    {
        self.link = Link::Offline;
        Action::Finish(Err(error))
    }

    /// Handles a reply to `USER` or `PASS`.
    fn on_login_reply(&mut self, after_user: bool, raw: &[u8]) -> (action: Action)
        requires
            old(self).phase is Idle,
            old(self).link != Link::Offline,
        ensures
            (final(self)@, action@) == old(self)@.at(
                if after_user {
                    PhaseView::User
                } else {
                    PhaseView::Pass
                },
            ).on_login_reply(raw@),
    {
        match classify(raw) {
            ReplyKind::NeedPassword if after_user => {
                self.phase = Phase::Pass;
                Action::Exchange(command_line(Verb::Pass, self.passwd.as_str()))
            },
            ReplyKind::LoggedIn if !after_user => {
                self.link = Link::LoggedIn;
                Action::Finish(Ok(Output::Done))
            },
            ReplyKind::NotLoggedIn => self.fail(Error::server(INVALID_CREDENTIALS)),
            _ => self.fail(rejection(raw)),
        }
    }

    /// Handles a reply to a command of a single round trip.
    fn on_simple_reply(&mut self, goal: Goal, raw: &[u8]) -> (action: Action)
        requires
            old(self).phase is Idle,
            old(self).link != Link::Offline,
        ensures
            (final(self)@, action@) == old(self)@.at(PhaseView::Simple(goal)).on_simple_reply(
                goal,
                raw@,
            ),
    {
        let met = classify(raw) == goal.kind();
        match goal {
            Goal::FileAction => {
                if met {
                    Action::Finish(Ok(Output::Done))
                } else {
                    self.fail(rejection(raw))
                }
            },
            Goal::Pathname => {
                if met {
                    Action::Finish(Ok(Output::Path(quoted_path(raw))))
                } else {
                    self.fail(rejection(raw))
                }
            },
            Goal::Closing => {
                if met {
                    self.link = Link::Offline;
                    Action::Finish(Ok(Output::Done))
                } else {
                    self.abandon(rejection(raw))
                }
            },
        }
    }

    /// Handles a reply to `PASV`.
    fn on_passive_reply(&mut self, transfer: Option<Transfer>, raw: &[u8]) -> (action: Action)
        requires
            old(self).phase is Idle,
            old(self).link != Link::Offline,
        ensures
            (final(self)@, action@) == old(self)@.at(
                PhaseView::Passive(wanted(transfer)),
            ).on_passive_reply(wanted(transfer), raw@),
    {
        if classify(raw) != ReplyKind::EnteringPassive {
            return self.fail(rejection(raw));
        }
        match parse_endpoint(raw) {
            Ok(endpoint) => {
                self.phase = Phase::Connecting(transfer);
                Action::Connect(endpoint)
            },
            Err(error) => self.fail(error),
        }
    }

    /// Handles a reply to the command that starts a transfer.
    fn on_opening_reply(&mut self, job: Job, name: String, raw: &[u8]) -> (action: Action)
        requires
            old(self).phase is Idle,
            old(self).link != Link::Offline,
        ensures
            (final(self)@, action@) == old(self)@.at(PhaseView::Opening(job, name@)).on_opening_reply(
                job,
                name@,
                raw@,
            ),
    {
        let kind = classify(raw);
        let over = kind == ReplyKind::ClosingData;
        if kind != ReplyKind::OpeningData && !over {
            return self.fail(rejection(raw));
        }
        match job {
            Job::List => {
                if over {
                    let names: Vec<String> = Vec::new();
                    assert(crate::listing::texts(names@) =~= Seq::<Seq<char>>::empty());
                    Action::Finish(Ok(Output::Names(names)))
                } else {
                    self.phase = Phase::Listing(Vec::new());
                    Action::ReadData
                }
            },
            Job::Download => {
                let target = name.clone();
                self.phase = Phase::Creating(name, over);
                Action::CreateFile(target)
            },
            Job::Upload => {
                self.phase = Phase::Sending;
                Action::SendFile
            },
        }
    }

    /// Handles a reply of at least one byte.
    fn on_reply(&mut self, phase: Phase, raw: &[u8]) -> (action: Action)
        requires
            old(self).phase is Idle,
            old(self).link != Link::Offline,
            phase@.awaits_reply(),
        ensures
            (final(self)@, action@) == old(self)@.at(phase@).on_reply(raw@),
    {
        match phase {
            Phase::User => self.on_login_reply(true, raw),
            Phase::Pass => self.on_login_reply(false, raw),
            Phase::Raw => Action::Finish(Ok(Output::Reply(full_text(raw)))),
            Phase::Simple(goal) => self.on_simple_reply(goal, raw),
            Phase::RenameFrom(next) => {
                if classify(raw) == ReplyKind::NeedFurtherInfo {
                    self.phase = Phase::Simple(Goal::FileAction);
                    Action::Exchange(next)
                } else {
                    self.fail(rejection(raw))
                }
            },
            Phase::Passive(transfer) => self.on_passive_reply(transfer, raw),
            Phase::Opening(job, name) => self.on_opening_reply(job, name, raw),
            Phase::Confirming(output) => {
                if classify(raw) == ReplyKind::ClosingData {
                    Action::Finish(Ok(output))
                } else {
                    self.abandon(rejection(raw))
                }
            },
            _ => self.fail(Error::io(UNEXPECTED_EVENT)),
        }
    }

    /// Handles bytes from the data connection.
    fn on_data(&mut self, phase: Phase, bytes: Vec<u8>) -> (action: Action)
        requires
            old(self).phase is Idle,
            old(self).link != Link::Offline,
            phase@.awaits_data(),
        ensures
            (final(self)@, action@) == old(self)@.at(phase@).on_data(bytes@),
    {
        match phase {
            Phase::Listing(sofar) => {
                if bytes.len() == 0 {
                    let names = list_names(sofar.as_slice());
                    self.phase = Phase::Confirming(Output::Names(names));
                    Action::AwaitReply
                } else {
                    let mut sofar = sofar;
                    let mut bytes = bytes;
                    sofar.append(&mut bytes);
                    self.phase = Phase::Listing(sofar);
                    Action::ReadData
                }
            },
            Phase::Fetching(name) => {
                if bytes.len() == 0 {
                    self.phase = Phase::Confirming(Output::Saved(name));
                    Action::AwaitReply
                } else {
                    self.phase = Phase::Writing(name);
                    Action::WriteFile(bytes)
                }
            },
            _ => self.fail(Error::io(UNEXPECTED_EVENT)),
        }
    }

    /// Handles the completion of an action that reads nothing.
    fn on_done(&mut self, phase: Phase) -> (action: Action)
        requires
            old(self).phase is Idle,
            old(self).link != Link::Offline,
            phase@.awaits_completion(),
        ensures
            (final(self)@, action@) == old(self)@.at(phase@).on_done(),
    {
        match phase {
            Phase::Connecting(None) => Action::Finish(Ok(Output::Connected)),
            Phase::Connecting(Some(transfer)) => {
                self.phase = Phase::Opening(transfer.job, transfer.name);
                Action::Exchange(transfer.line)
            },
            Phase::Creating(name, over) => {
                if over {
                    Action::Finish(Ok(Output::Saved(name)))
                } else {
                    self.phase = Phase::Fetching(name);
                    Action::ReadData
                }
            },
            Phase::Writing(name) => {
                self.phase = Phase::Fetching(name);
                Action::ReadData
            },
            Phase::Sending => {
                self.phase = Phase::Confirming(Output::Done);
                Action::AwaitReply
            },
            _ => self.fail(Error::io(UNEXPECTED_EVENT)),
        }
    }

    /// Handles the failure of the pending action.
    fn on_failure(&mut self, phase: Phase, text: String) -> (action: Action)
        requires
            old(self).phase is Idle,
        ensures
            (final(self)@, action@) == old(self)@.at(phase@).on_failure(text@),
    {
        if phase.awaits_reply() {
            self.abandon(Error::Io(text))
        } else {
            self.fail(Error::Io(text))
        }
    }

    /// Takes in what came of the last action, and says what to do next.
    ///
    /// An event that the pending action cannot bring about, or any event
    /// while nothing is in flight, is taken as a failure of that action.
    pub fn advance(&mut self, event: Event) -> (action: Action)
        ensures
            (final(self)@, action@) == old(self)@.step(event@),
            old(self)@.wf(),
            final(self)@.wf(),
    {
        proof {
            use_type_invariant(&*self);
        }
        let mut phase = Phase::Idle;
        std::mem::swap(&mut self.phase, &mut phase);
        match event {
            Event::Reply(raw) => {
                if !phase.awaits_reply() {
                    self.on_failure(phase, String::from_str(UNEXPECTED_EVENT))
                } else if raw.len() == 0 {
                    self.abandon(Error::server(NO_RESPONSE))
                } else {
                    self.on_reply(phase, raw.as_slice())
                }
            },
            Event::Data(bytes) => {
                if phase.awaits_data() {
                    self.on_data(phase, bytes)
                } else {
                    self.on_failure(phase, String::from_str(UNEXPECTED_EVENT))
                }
            },
            Event::WouldBlock => {
                if phase.awaits_data() {
                    self.phase = phase;
                    Action::ReadData
                } else {
                    self.on_failure(phase, String::from_str(UNEXPECTED_EVENT))
                }
            },
            Event::Done => {
                if phase.awaits_completion() {
                    self.on_done(phase)
                } else {
                    self.on_failure(phase, String::from_str(UNEXPECTED_EVENT))
                }
            },
            Event::Failed(text) => self.on_failure(phase, text),
        }
    }

    /// Renames `from` to `to`: `RNFR`, which must be answered with 350,
    /// and only then `RNTO`, which must be answered with 250.
    pub fn rename(&mut self, from: &str, to: &str) -> (action: Action)
        ensures
            (final(self)@, action@) == old(self)@.rename(from.spec_bytes(), to.spec_bytes()),
    {
        let next = command_line(Verb::Rnto, to);
        self.begin(Phase::RenameFrom(next), command_line(Verb::Rnfr, from))
    }
}

} // verus!
