//! What holds of every session, whatever the server sends.

use vstd::prelude::*;
use crate::command::{bare, command, Verb};
use crate::error::{ErrorKind, ErrorView, NO_FILE_NAME, NO_RESPONSE};
use crate::exchange::{ActionView, EventView, OutputView};
use crate::listing::lemma_no_data_no_entries;
use crate::pasv::endpoint_of;
use crate::reply::{kind_of, lemma_path_between_quotes, rejected, ReplyKind, PREFIX_LEN, QUOTE};
use crate::text::{ascii, lemma_text_of_ascii, text_of};
use crate::session::{greeted, ClientView, Goal, Job, Link, PhaseView, TransferView};

verus! {

/// Where the caller's loop stands after `events`: it starts with a session
/// and the action it was handed, reports one event per action, and stops
/// at the first [`ActionView::Finish`].
pub open spec fn run(start: (ClientView, ActionView), events: Seq<EventView>) -> (
    ClientView,
    ActionView,
)
    decreases events.len(),
{
    if events.len() == 0 || start.1 is Finish {
        start
    } else {
        run(start.0.step(events[0]), events.drop_first())
    }
}

/// The actions that the caller's loop is handed along the way, in order.
pub open spec fn trace(start: (ClientView, ActionView), events: Seq<EventView>) -> Seq<ActionView>
    decreases events.len(),
{
    if events.len() == 0 || start.1 is Finish {
        Seq::empty()
    } else {
        let next = start.0.step(events[0]);
        seq![next.1] + trace(next, events.drop_first())
    }
}

/// The bytes that the actions have written to the local file, in order.
pub open spec fn written(actions: Seq<ActionView>) -> Seq<u8>
    decreases actions.len(),
{
    if actions.len() == 0 {
        Seq::empty()
    } else {
        let rest = written(actions.drop_first());
        match actions[0] {
            ActionView::WriteFile(bytes) => bytes + rest,
            _ => rest,
        }
    }
}

/// The events of a data connection that delivers `chunks` to a listing.
pub open spec fn listed(chunks: Seq<Seq<u8>>) -> Seq<EventView> {
    chunks.map_values(|chunk: Seq<u8>| EventView::Data(chunk))
}

/// The events of a data connection that delivers `chunks` to a download,
/// each written to the local file before the next is read.
pub open spec fn fetched(chunks: Seq<Seq<u8>>) -> Seq<EventView>
    decreases chunks.len(),
{
    if chunks.len() == 0 {
        Seq::empty()
    } else {
        seq![EventView::Data(chunks[0]), EventView::Done] + fetched(chunks.drop_first())
    }
}

/// The transfer that lists `path`.
pub open spec fn listing_of(path: Seq<u8>) -> Option<TransferView> {
    Some(TransferView { job: Job::List, line: command(Verb::Nlst, path), name: Seq::empty() })
}

/// No event puts an exchange in flight on a session without control
/// connection.
pub proof fn lemma_step_keeps_wf(s: ClientView, event: EventView)
    requires
        s.wf(),
    ensures
        s.step(event).0.wf(),
{
}

/// While nothing is in flight an event changes nothing and has nothing
/// sent: it is answered with an error.
pub proof fn lemma_idle_takes_no_event(s: ClientView, event: EventView)
    requires
        s.phase is Idle,
    ensures
        s.step(event).0 == s,
        s.step(event).1.fails_as(ErrorKind::Io),
{
}

/// A command on a session that is not free for it, because it holds no
/// control connection or an exchange is in flight, changes nothing and has
/// nothing sent.
pub proof fn lemma_busy_session_refuses(s: ClientView, phase: PhaseView, line: Seq<u8>)
    requires
        !s.free(),
    ensures
        s.begin(phase, line) == s.refuse(),
        s.login() == s.refuse(),
        s.refuse().0 == s,
        s.refuse().1.fails_as(ErrorKind::Server),
{
}

/// No command puts an exchange in flight on a session without control
/// connection.
pub proof fn lemma_commands_keep_wf(s: ClientView, phase: PhaseView, line: Seq<u8>)
    requires
        s.wf(),
    ensures
        s.begin(phase, line).0.wf(),
        s.login().0.wf(),
{
}

/// A session made from a greeting is well formed.
pub proof fn lemma_greeted_is_wf(name: Seq<char>, passwd: Seq<char>, greeting: Seq<u8>)
    ensures
        greeted(name, passwd, greeting) matches Ok(s) ==> s.wf() && s.free(),
{
}

/// A user is logged in exactly if the greeting is 220, the reply to `USER`
/// is 331 and the reply to `PASS` is 230. Anything else ends in a server
/// error, with nobody logged in.
pub proof fn lemma_login_needs_220_331_230(
    name: Seq<char>,
    passwd: Seq<char>,
    greeting: Seq<u8>,
    first: Seq<u8>,
    second: Seq<u8>,
)
    ensures
        match greeted(name, passwd, greeting) {
            Err(error) => kind_of(greeting) != ReplyKind::ServiceReady && error is Server,
            Ok(s) => {
                let end = run(s.login(), seq![EventView::Reply(first), EventView::Reply(second)]);
                let accepted = kind_of(first) == ReplyKind::NeedPassword && kind_of(second)
                    == ReplyKind::LoggedIn;
                &&& kind_of(greeting) == ReplyKind::ServiceReady
                &&& s.login().1 == ActionView::Exchange(
                    command(Verb::User, vstd::utf8::encode_utf8(name)),
                )
                &&& kind_of(first) == ReplyKind::NeedPassword ==> s.login().0.step(
                    EventView::Reply(first),
                ).1 == ActionView::Exchange(command(Verb::Pass, vstd::utf8::encode_utf8(passwd)))
                &&& end.0.phase is Idle
                &&& accepted ==> end.1 == ActionView::Finish(Ok(OutputView::Done)) && end.0.link
                    == Link::LoggedIn
                &&& !accepted ==> end.1.fails_as(ErrorKind::Server) && end.0.link
                    != Link::LoggedIn
            },
        },
{
    if greeted(name, passwd, greeting) is Ok {
        let s = greeted(name, passwd, greeting)->Ok_0;
        let events = seq![EventView::Reply(first), EventView::Reply(second)];
        let start = s.login();
        let mid = start.0.step(events[0]);
        assert(events.drop_first() =~= seq![EventView::Reply(second)]);
        assert(run(start, events) == run(mid, events.drop_first()));
        if !(mid.1 is Finish) {
            let end = mid.0.step(EventView::Reply(second));
            assert(events.drop_first().drop_first() =~= Seq::<EventView>::empty());
            assert(run(mid, events.drop_first()) == run(end, events.drop_first().drop_first()));
        }
    }
}

/// A rename succeeds exactly if the reply to `RNFR` is 350 and the reply to
/// `RNTO` is 250. Unless `RNFR` is answered with 350, the exchange ends
/// there and `RNTO` is not sent.
pub proof fn lemma_rename_needs_350_250(
    s: ClientView,
    from: Seq<u8>,
    to: Seq<u8>,
    first: Seq<u8>,
    second: Seq<u8>,
)
    requires
        s.free(),
    ensures
        ({
            let start = s.rename(from, to);
            let mid = start.0.step(EventView::Reply(first));
            let end = run(start, seq![EventView::Reply(first), EventView::Reply(second)]);
            let accepted = kind_of(first) == ReplyKind::NeedFurtherInfo && kind_of(second)
                == ReplyKind::FileActionDone;
            &&& start.1 == ActionView::Exchange(command(Verb::Rnfr, from))
            &&& kind_of(first) == ReplyKind::NeedFurtherInfo ==> mid.1 == ActionView::Exchange(
                command(Verb::Rnto, to),
            )
            &&& kind_of(first) != ReplyKind::NeedFurtherInfo ==> end == mid && mid.0.phase is Idle
            &&& accepted ==> end == (s, ActionView::Finish(Ok(OutputView::Done)))
            &&& !accepted ==> end.1.fails_as(ErrorKind::Server)
        }),
{
    let events = seq![EventView::Reply(first), EventView::Reply(second)];
    let start = s.rename(from, to);
    let mid = start.0.step(events[0]);
    assert(events.drop_first() =~= seq![EventView::Reply(second)]);
    assert(run(start, events) == run(mid, events.drop_first()));
    if !(mid.1 is Finish) {
        let end = mid.0.step(EventView::Reply(second));
        assert(events.drop_first().drop_first() =~= Seq::<EventView>::empty());
        assert(run(mid, events.drop_first()) == run(end, events.drop_first().drop_first()));
    }
}

/// Passive mode is entered exactly if the reply to `PASV` is 227 and names
/// an endpoint; the data connection is then opened to that endpoint. Any
/// other reply ends the exchange with an error, a parse error where the
/// reply is 227, and the control connection stays.
pub proof fn lemma_passive_needs_227_and_endpoint(
    s: ClientView,
    transfer: Option<TransferView>,
    raw: Seq<u8>,
)
    requires
        s.free(),
        raw.len() > 0,
    ensures
        ({
            let start = s.passive(transfer);
            let next = start.0.step(EventView::Reply(raw));
            &&& start.1 == ActionView::Exchange(bare(Verb::Pasv))
            &&& next.0.link == s.link
            &&& match endpoint_of(raw) {
                Ok(endpoint) if kind_of(raw) == ReplyKind::EnteringPassive => next.1
                    == ActionView::Connect(endpoint),
                Err(error) if kind_of(raw) == ReplyKind::EnteringPassive => next == (
                    s,
                    ActionView::Finish(Err(error)),
                ) && (error is AddressParse || error is NumericParse),
                _ => next == (s, ActionView::Finish(Err(rejected(raw)))),
            }
        }),
{
}

/// Listing a directory that holds nothing gives no names and no error:
/// when the data connection closes before a byte came and the server then
/// confirms with 226, and when the server answers `NLST` with 226 at once.
pub proof fn lemma_empty_directory_lists_nothing(
    s: ClientView,
    path: Seq<u8>,
    passive: Seq<u8>,
    opening: Seq<u8>,
    closing: Seq<u8>,
)
    requires
        s.free(),
        kind_of(passive) == ReplyKind::EnteringPassive,
        endpoint_of(passive) is Ok,
        kind_of(opening) == ReplyKind::OpeningData,
        kind_of(closing) == ReplyKind::ClosingData,
    ensures
        run(
            s.passive(listing_of(path)),
            seq![
                EventView::Reply(passive),
                EventView::Done,
                EventView::Reply(opening),
                EventView::Data(Seq::empty()),
                EventView::Reply(closing),
            ],
        ) == (s, ActionView::Finish(Ok(OutputView::Names(Seq::empty())))),
        run(
            s.passive(listing_of(path)),
            seq![EventView::Reply(passive), EventView::Done, EventView::Reply(closing)],
        ) == (s, ActionView::Finish(Ok(OutputView::Names(Seq::empty())))),
{
    lemma_no_data_no_entries();
    let start = s.passive(listing_of(path));
    let connecting = start.0.step(EventView::Reply(passive));
    let opened = connecting.0.step(EventView::Done);
    {
        let e0 = seq![
            EventView::Reply(passive),
            EventView::Done,
            EventView::Reply(opening),
            EventView::Data(Seq::empty()),
            EventView::Reply(closing),
        ];
        let e1 = e0.drop_first();
        let e2 = e1.drop_first();
        let e3 = e2.drop_first();
        let e4 = e3.drop_first();
        let e5 = e4.drop_first();
        let reading = opened.0.step(e2[0]);
        let confirming = reading.0.step(e3[0]);
        let end = confirming.0.step(e4[0]);
        assert(run(start, e0) == run(connecting, e1));
        assert(run(connecting, e1) == run(opened, e2));
        assert(run(opened, e2) == run(reading, e3));
        assert(run(reading, e3) == run(confirming, e4));
        assert(run(confirming, e4) == run(end, e5));
        assert(end.0 == s);
    }
    {
        let e0 = seq![EventView::Reply(passive), EventView::Done, EventView::Reply(closing)];
        let e1 = e0.drop_first();
        let e2 = e1.drop_first();
        let e3 = e2.drop_first();
        let end = opened.0.step(e2[0]);
        assert(run(start, e0) == run(connecting, e1));
        assert(run(connecting, e1) == run(opened, e2));
        assert(run(opened, e2) == run(end, e3));
        assert(end.0 == s);
    }
}

/// A listing is read as one string of bytes: however the data connection
/// cuts it into chunks, the session holds the chunks joined, and so names
/// the same entries.
pub proof fn lemma_listing_joins_chunks(s: ClientView, sofar: Seq<u8>, chunks: Seq<Seq<u8>>)
    requires
        s.phase == PhaseView::Listing(sofar),
        forall|k: int| 0 <= k < chunks.len() ==> (#[trigger] chunks[k]).len() > 0,
    ensures
        run((s, ActionView::ReadData), listed(chunks)) == (
            s.at(PhaseView::Listing(sofar + chunks.flatten())),
            ActionView::ReadData,
        ),
    decreases chunks.len(),
{
    let events = listed(chunks);
    if chunks.len() == 0 {
        assert(sofar + chunks.flatten() =~= sofar);
    } else {
        let rest = chunks.drop_first();
        let next = s.step(events[0]);
        assert(events.drop_first() =~= listed(rest));
        assert forall|k: int| 0 <= k < rest.len() implies (#[trigger] rest[k]).len() > 0 by {
            assert(rest[k] == chunks[k + 1]);
        }
        lemma_listing_joins_chunks(next.0, sofar + chunks[0], rest);
        assert((sofar + chunks[0]) + rest.flatten() =~= sofar + chunks.flatten());
        assert(next.0.at(PhaseView::Listing((sofar + chunks[0]) + rest.flatten())) == s.at(
            PhaseView::Listing(sofar + chunks.flatten()),
        ));
    }
}

/// A download writes to the local file the bytes that the data connection
/// delivers, all of them and in order, however it cuts them into chunks.
pub proof fn lemma_download_writes_what_it_reads(s: ClientView, name: Seq<char>, chunks: Seq<Seq<u8>>)
    requires
        s.phase == PhaseView::Fetching(name),
        forall|k: int| 0 <= k < chunks.len() ==> (#[trigger] chunks[k]).len() > 0,
    ensures
        run((s, ActionView::ReadData), fetched(chunks)) == (s, ActionView::ReadData),
        written(trace((s, ActionView::ReadData), fetched(chunks))) == chunks.flatten(),
    decreases chunks.len(),
{
    let start = (s, ActionView::ReadData);
    let events = fetched(chunks);
    if chunks.len() == 0 {
        assert(chunks.flatten() =~= Seq::<u8>::empty());
    } else {
        let rest = chunks.drop_first();
        let writing = s.step(events[0]);
        let reading = writing.0.step(events[1]);
        assert(events.drop_first().drop_first() =~= fetched(rest));
        assert(reading == start);
        assert forall|k: int| 0 <= k < rest.len() implies (#[trigger] rest[k]).len() > 0 by {
            assert(rest[k] == chunks[k + 1]);
        }
        lemma_download_writes_what_it_reads(s, name, rest);
        assert(run(start, events) == run(writing, events.drop_first()));
        assert(run(writing, events.drop_first()) == run(reading, fetched(rest)));
        let tail = trace(start, fetched(rest));
        assert(trace(writing, events.drop_first()) == seq![reading.1] + tail);
        assert(trace(start, events) == seq![writing.1] + (seq![reading.1] + tail));
        let actions = trace(start, events);
        assert(actions.drop_first() =~= seq![reading.1] + tail);
        assert(actions.drop_first().drop_first() =~= tail);
        assert(written(actions.drop_first()) == written(tail));
        assert(written(actions) == chunks[0] + written(tail));
    }
}

/// While data is awaited, a read that would have had to wait changes
/// nothing: the session stays as it is and the read is tried again,
/// however often that happens.
pub proof fn lemma_would_block_reads_again(s: ClientView, times: nat)
    requires
        s.phase.awaits_data(),
    ensures
        s.step(EventView::WouldBlock) == (s, ActionView::ReadData),
        run((s, ActionView::ReadData), Seq::new(times, |i: int| EventView::WouldBlock)) == (
            s,
            ActionView::ReadData,
        ),
    decreases times,
{
    if times > 0 {
        let events = Seq::new(times, |i: int| EventView::WouldBlock);
        assert(events.drop_first() =~= Seq::new((times - 1) as nat, |i: int| EventView::WouldBlock));
        lemma_would_block_reads_again(s, (times - 1) as nat);
    }
}

/// An upload from a path that ends in no file name is over at once, with
/// an error and nothing sent; with a name it starts as any transfer does,
/// and the name is what `STOR` carries.
pub proof fn lemma_upload_needs_a_name(s: ClientView, name: Seq<u8>)
    ensures
        s.upload(None) == (s, ActionView::Finish(Err(ErrorView::Io(NO_FILE_NAME@)))),
        s.free() ==> s.upload(Some(name)).1 == ActionView::Exchange(bare(Verb::Pasv)),
        s.free() ==> s.upload(Some(name)).0.phase == PhaseView::Passive(
            Some(
                TransferView {
                    job: Job::Upload,
                    line: command(Verb::Stor, name),
                    name: Seq::empty(),
                },
            ),
        ),
        !s.free() ==> s.upload(Some(name)) == s.refuse(),
{
}

/// The working directory is the path between the quotes of the reply to
/// `PWD`, whatever stands around them: the rest of the line and its end
/// are no part of it. Where the path is ASCII, its text is the characters
/// of the same numbers.
pub proof fn lemma_pwd_names_the_quoted_path(
    s: ClientView,
    prefix: Seq<u8>,
    lead: Seq<u8>,
    path: Seq<u8>,
    trail: Seq<u8>,
)
    requires
        s.phase == PhaseView::Simple(Goal::Pathname),
        prefix.len() == PREFIX_LEN,
        kind_of(prefix) == ReplyKind::Pathname,
        forall|i: int| 0 <= i < lead.len() ==> #[trigger] lead[i] != QUOTE,
        forall|i: int| 0 <= i < path.len() ==> #[trigger] path[i] != QUOTE,
    ensures
        s.step(EventView::Reply(prefix + lead + seq![QUOTE] + path + seq![QUOTE] + trail)) == (
            s.idle(),
            ActionView::Finish(Ok(OutputView::Path(text_of(path)))),
        ),
        (forall|i: int| 0 <= i < path.len() ==> #[trigger] path[i] < 128) ==> text_of(path)
            == ascii(path),
{
    let raw = prefix + lead + seq![QUOTE] + path + seq![QUOTE] + trail;
    lemma_path_between_quotes(prefix, lead, path, trail);
    assert(raw[0] == prefix[0] && raw[1] == prefix[1] && raw[2] == prefix[2]);
    if forall|i: int| 0 <= i < path.len() ==> #[trigger] path[i] < 128 {
        lemma_text_of_ascii(path);
    }
}

/// After its data, a transfer ends well exactly if the server confirms it
/// with 226. On any other reply the session gives up the control
/// connection: the user has to log in again.
pub proof fn lemma_transfer_needs_226(s: ClientView, output: OutputView, raw: Seq<u8>)
    requires
        s.phase == PhaseView::Confirming(output),
        raw.len() > 0,
    ensures
        kind_of(raw) == ReplyKind::ClosingData ==> s.step(EventView::Reply(raw)) == (
            s.idle(),
            ActionView::Finish(Ok(output)),
        ),
        kind_of(raw) != ReplyKind::ClosingData ==> s.step(EventView::Reply(raw)) == (
            s.offline(),
            ActionView::Finish(Err(rejected(raw))),
        ),
{
}

/// A command of a single round trip is over with the first reply: it ends
/// well exactly if the reply is of the kind it waits for, and with the
/// server's text as the error otherwise. Only `QUIT` touches the control
/// connection, which it gives up whatever the reply.
pub proof fn lemma_simple_command_is_one_round_trip(
    s: ClientView,
    goal: Goal,
    line: Seq<u8>,
    raw: Seq<u8>,
)
    requires
        s.free(),
        raw.len() > 0,
    ensures
        ({
            let start = s.simple(goal, line);
            let end = start.0.step(EventView::Reply(raw));
            &&& start == (s.at(PhaseView::Simple(goal)), ActionView::Exchange(line))
            &&& end.0 == if goal == Goal::Closing {
                s.offline()
            } else {
                s
            }
            &&& kind_of(raw) == goal.wanted() ==> end.1 is Finish && end.1->Finish_0 is Ok
            &&& kind_of(raw) != goal.wanted() ==> end.1 == ActionView::Finish(Err(rejected(raw)))
        }),
{
}

/// Whatever goes wrong on the control connection, be it a failed write or
/// read or a read that delivers nothing, costs the session that
/// connection; what goes wrong on the data connection or the local file
/// does not.
pub proof fn lemma_failure_costs_only_its_connection(s: ClientView, text: Seq<char>)
    requires
        !(s.phase is Idle),
    ensures
        s.step(EventView::Failed(text)).1 == ActionView::Finish(Err(ErrorView::Io(text))),
        s.step(EventView::Failed(text)).0 == if s.phase.awaits_reply() {
            s.offline()
        } else {
            s.idle()
        },
        s.phase.awaits_reply() ==> s.step(EventView::Reply(Seq::empty())) == (
            s.offline(),
            ActionView::Finish(Err(ErrorView::Server(NO_RESPONSE@))),
        ),
{
}

} // verus!
