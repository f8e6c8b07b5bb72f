//! The collector-side alert dispatcher.
//!
//! Concurrent request handlers enqueue `(drone name, error report)`
//! pairs into a bounded FIFO queue; a single consumer drains it, renders
//! two message bodies per pair and sends them through the chat backend.
//! A send classified as an expired login triggers one login + room-join
//! sequence; the pair whose send failed is dropped, never resent. A
//! full queue refuses the next pair: the producer must wait until the
//! consumer drains a slot (back-pressure, not drop).

use vstd::prelude::*;

use crate::drones::DroneRecord;
use crate::handler::ApiError;
use crate::matrix::MatrixError;
use crate::report::{opt_view, ErrorReport, ErrorReportView};
use crate::report::state_message;

verus! {

/// How many pairs may be pending at once.
pub const ALERT_QUEUE_CAPACITY: usize = 16;

/// One enqueued alert: the name of the drone and its error report.
#[derive(Debug)]
pub struct AlertItem {
    /// The name of the drone the report came from
    pub drone_name: String,
    /// The report to alert about
    pub report: ErrorReport,
}

/// The bounded FIFO queue between the request handlers and the
/// dispatcher.
pub struct AlertQueue {
    items: Vec<AlertItem>,
}

impl View for AlertQueue {
    type V = Seq<AlertItem>;

    closed spec fn view(&self) -> Seq<AlertItem> {
        self.items@
    }
}

/// What an enqueue attempt does to the queue's contents: a pair is
/// appended when a slot is free, otherwise the queue is unchanged and
/// the pair refused.
pub open spec fn spec_try_enqueue(s: Seq<AlertItem>, item: AlertItem) -> (Seq<AlertItem>, bool) {
    if s.len() < ALERT_QUEUE_CAPACITY as int {
        (s.push(item), true)
    } else {
        (s, false)
    }
}

/// What a dequeue does to the queue's contents: the oldest pair
/// leaves, in FIFO order.
pub open spec fn spec_dequeue(s: Seq<AlertItem>) -> (Seq<AlertItem>, Option<AlertItem>) {
    if s.len() > 0 {
        (s.skip(1), Some(s[0]))
    } else {
        (s, None)
    }
}

impl AlertQueue {
    /// Whether the queue is within its capacity.
    pub open spec fn wf(&self) -> bool {
        self@.len() <= ALERT_QUEUE_CAPACITY as int
    }

    /// An empty queue.
    pub fn new() -> (q: AlertQueue)
        ensures
            q@ == Seq::<AlertItem>::empty(),
            q.wf(),
    {
        AlertQueue { items: Vec::new() }
    }

    /// How many pairs are pending.
    pub fn len(&self) -> (n: usize)
        ensures
            n == self@.len(),
    {
        self.items.len()
    }

    /// Try to enqueue a pair. A refusal means the queue is full: the
    /// producer must hold the pair and try again once the consumer has
    /// drained a slot — back-pressure, not drop.
    pub fn try_enqueue(&mut self, item: AlertItem) -> (accepted: bool)
        requires
            old(self).wf(),
        ensures
            (final(self)@, accepted) == spec_try_enqueue(old(self)@, item),
            final(self).wf(),
    {
        if self.items.len() < ALERT_QUEUE_CAPACITY {
            self.items.push(item);
            true
        } else {
            false
        }
    }

    /// Dequeue the oldest pair, if any.
    pub fn dequeue(&mut self) -> (r: Option<AlertItem>)
        requires
            old(self).wf(),
        ensures
            (final(self)@, r) == spec_dequeue(old(self)@),
            final(self).wf(),
    {
        if self.items.len() > 0 {
            Some(self.items.remove(0))
        } else {
            None
        }
    }
}

/// What the error endpoint does with an authenticated pair.
#[derive(Debug)]
pub enum ErrorEndpointStep {
    /// The pair is enqueued; the client is answered success at once,
    /// whatever becomes of the alert afterwards.
    Enqueued,
    /// The queue is full: the pair is handed back and the producer
    /// must wait and try again — back-pressure, not drop.
    QueueFull(AlertItem),
}

/// The whole rule of the error endpoint: a request whose bearer token
/// matched no drone is refused as unauthenticated, the queue
/// untouched; an authenticated pair is enqueued with back-pressure
/// (a full queue hands the pair back to be retried, it is never
/// dropped), and the client is answered success as soon as the pair
/// is in the queue — never because the alert was sent.
pub fn error_endpoint_decision(
    queue: &mut AlertQueue,
    drone: Option<DroneRecord>,
    report: ErrorReport,
) -> (r: Result<ErrorEndpointStep, ApiError>)
    requires
        old(queue).wf(),
    ensures
        final(queue).wf(),
        drone is None ==> (r == Err::<ErrorEndpointStep, ApiError>(ApiError::Unauthenticated)
            && final(queue)@ == old(queue)@),
        drone matches Some(d) ==> (if old(queue)@.len() < ALERT_QUEUE_CAPACITY as int {
            r matches Ok(ErrorEndpointStep::Enqueued) && final(queue)@ == old(queue)@.push(
                (AlertItem { drone_name: d.name, report }),
            )
        } else {
            (r matches Ok(ErrorEndpointStep::QueueFull(item)) && item.drone_name == d.name
                && item.report == report) && final(queue)@ == old(queue)@
        }),
{
    let d = match drone {
        None => {
            return Err(ApiError::Unauthenticated);
        },
        Some(d) => d,
    };
    let item = AlertItem { drone_name: d.name, report };
    if queue.len() < ALERT_QUEUE_CAPACITY {
        queue.try_enqueue(item);
        Ok(ErrorEndpointStep::Enqueued)
    } else {
        Ok(ErrorEndpointStep::QueueFull(item))
    }
}

/// Sixteen pending pairs refuse a seventeenth: the enqueue leaves the
/// queue unchanged and the producer must wait. As soon as the consumer
/// drains one slot the same enqueue succeeds, and FIFO order is kept:
/// the drained pair is the oldest, the waiting pair goes to the back.
pub proof fn lemma_full_queue_backpressure(s: Seq<AlertItem>, item: AlertItem)
    requires
        s.len() == ALERT_QUEUE_CAPACITY as int,
    ensures
        spec_try_enqueue(s, item) == (s, false),
        ({
            let (drained, popped) = spec_dequeue(s);
            let (after, accepted) = spec_try_enqueue(drained, item);
            &&& popped == Some(s[0])
            &&& accepted
            &&& after == s.skip(1).push(item)
        }),
{
}

/// One action of the dispatcher's consumer, in the order performed.
pub enum DispatchAction {
    /// Send the rendered messages of this pair.
    Send(AlertItem),
    /// Log in to the chat backend again.
    Login,
    /// Join the alert room again.
    JoinRoom,
}

/// What the consumer does for the oldest pending pair, given how the
/// send of that pair ends (`None` is a delivered send): the pair leaves
/// the queue in every case; a send classified as an expired login is
/// followed by one login + room-join sequence; no outcome makes the
/// consumer send the same pair again.
pub open spec fn spec_consume(q: Seq<AlertItem>, send_error: Option<MatrixError>) -> (
    Seq<AlertItem>,
    Seq<DispatchAction>,
) {
    let actions = if send_error matches Some(MatrixError::LoginFailed) {
        seq![
            DispatchAction::Send(q[0]),
            DispatchAction::Login,
            DispatchAction::JoinRoom,
        ]
    } else {
        seq![DispatchAction::Send(q[0])]
    };
    (q.skip(1), actions)
}

/// A send classified as an expired login triggers login + room-join
/// before the next pair is dequeued, and the pair whose send failed is
/// dropped: it leaves the queue and no later action sends it again.
pub proof fn lemma_relogin_drops_message(q: Seq<AlertItem>)
    requires
        q.len() > 0,
    ensures
        ({
            let (q2, actions) = spec_consume(q, Some(MatrixError::LoginFailed));
            &&& q2 == q.skip(1)
            &&& actions[0] == DispatchAction::Send(q[0])
            &&& actions[1] == DispatchAction::Login
            &&& actions[2] == DispatchAction::JoinRoom
            &&& forall|i: int| 1 <= i < actions.len() ==> !(actions[i] is Send)
        }),
{
}

/// Every outcome of a send — delivered, expired login, or any other
/// failure — removes the pair from the queue: each pair is sent at
/// most once.
pub proof fn lemma_pair_never_resent(q: Seq<AlertItem>, send_error: Option<MatrixError>)
    requires
        q.len() > 0,
    ensures
        ({
            let (q2, actions) = spec_consume(q, send_error);
            &&& q2 == q.skip(1)
            &&& actions[0] == DispatchAction::Send(q[0])
            &&& forall|i: int| 1 <= i < actions.len() ==> !(actions[i] is Send)
        }),
{
}

/// How the dispatcher reacts to the outcome of a send.
#[derive(Copy, Clone, Debug, PartialEq, Eq, Structural)]
pub enum DispatcherReaction {
    /// Go on with the next pending pair.
    Proceed,
    /// Log in and join the room again, then go on with the next
    /// pending pair; the pair whose send failed is dropped.
    ReloginThenProceed,
}

/// Decide how to react to the outcome of a send: only an expired login
/// is recovered (by logging in and joining again); every other failure
/// is logged and dropped, and never stops the dispatcher.
pub fn react(send_result: &Result<(), MatrixError>) -> (r: DispatcherReaction)
    ensures
        (r == DispatcherReaction::ReloginThenProceed) <==> (send_result matches Err(
            MatrixError::LoginFailed,
        )),
{
    match send_result {
        Err(MatrixError::LoginFailed) => DispatcherReaction::ReloginThenProceed,
        _ => DispatcherReaction::Proceed,
    }
}

/// A section of a message that is present only when its content is.
pub open spec fn opt_section(
    prefix: Seq<char>,
    content: Option<Seq<char>>,
    suffix: Seq<char>,
) -> Seq<char> {
    match content {
        Some(c) => prefix + c + suffix,
        None => Seq::empty(),
    }
}

/// The plain-text alert body for a drone name and a report.
pub open spec fn render_plain_spec(name: Seq<char>, r: ErrorReportView) -> Seq<char> {
    "\u{1F6A8} The vinculum reports alarm for drone "@ + name + "!\n                \n                "@
        + name + " failed in "@ + state_message(r.state) + "\n                \n                "@
        + opt_section("Custom error:\n"@, r.custom, "\n\n"@)
        + opt_section("Stderr:\n"@, r.stderr, "\n\n"@)
        + opt_section("Stdout:\n"@, r.stdout, ""@)
}

/// The formatted (HTML) alert body for a drone name and a report.
pub open spec fn render_formatted_spec(name: Seq<char>, r: ErrorReportView) -> Seq<char> {
    "<h4>\u{1F6A8} The vinculum reports alarm for drone <font color=\"cyan\">"@ + name
        + "</font>!</h4>\n                <p><font color=\"cyan\">"@ + name + "</font> failed in "@
        + state_message(r.state) + "</p>\n                "@
        + opt_section("<p>Custom error:<br><code>"@, r.custom, "</code></p>"@)
        + "\n                "@
        + opt_section("<p>Stderr:<br><pre>"@, r.stderr, "</pre></p>"@)
        + "\n                "@
        + opt_section("<p>Stdout:<br><pre>"@, r.stdout, "</pre></p>"@)
        + "\n            "@
}

/// Append a section to the message being built, when its content is
/// present.
fn append_opt_section(s: &mut String, prefix: &str, content: &Option<String>, suffix: &str)
    ensures
        final(s)@ == old(s)@ + opt_section(prefix@, opt_view(*content), suffix@),
{
    match content {
        Some(c) => {
            s.append(prefix);
            s.append(c.as_str());
            s.append(suffix);
            assert(s@ =~= old(s)@ + opt_section(prefix@, opt_view(*content), suffix@));
        },
        None => {
            assert(s@ =~= old(s)@ + opt_section(prefix@, opt_view(*content), suffix@));
        },
    }
}

/// Render the plain-text alert body of a pair.
pub fn render_plain(item: &AlertItem) -> (r: String)
    ensures
        r@ == render_plain_spec(item.drone_name@, item.report@),
{
    let mut s = "\u{1F6A8} The vinculum reports alarm for drone ".to_owned();
    s.append(item.drone_name.as_str());
    s.append("!\n                \n                ");
    s.append(item.drone_name.as_str());
    s.append(" failed in ");
    s.append(item.report.state.message());
    s.append("\n                \n                ");
    append_opt_section(&mut s, "Custom error:\n", &item.report.custom, "\n\n");
    append_opt_section(&mut s, "Stderr:\n", &item.report.stderr, "\n\n");
    append_opt_section(&mut s, "Stdout:\n", &item.report.stdout, "");
    proof {
        assert(s@ =~= render_plain_spec(item.drone_name@, item.report@));
    }
    s
}

/// Render the formatted (HTML) alert body of a pair.
pub fn render_formatted(item: &AlertItem) -> (r: String)
    ensures
        r@ == render_formatted_spec(item.drone_name@, item.report@),
{
    let mut s = "<h4>\u{1F6A8} The vinculum reports alarm for drone <font color=\"cyan\">"
        .to_owned();
    s.append(item.drone_name.as_str());
    s.append("</font>!</h4>\n                <p><font color=\"cyan\">");
    s.append(item.drone_name.as_str());
    s.append("</font> failed in ");
    s.append(item.report.state.message());
    s.append("</p>\n                ");
    append_opt_section(&mut s, "<p>Custom error:<br><code>", &item.report.custom, "</code></p>");
    s.append("\n                ");
    append_opt_section(&mut s, "<p>Stderr:<br><pre>", &item.report.stderr, "</pre></p>");
    s.append("\n                ");
    append_opt_section(&mut s, "<p>Stdout:<br><pre>", &item.report.stdout, "</pre></p>");
    s.append("\n            ");
    proof {
        assert(s@ =~= render_formatted_spec(item.drone_name@, item.report@));
    }
    s
}

} // verus!
