//! The course of one publish: open a session, queue the message, wait until
//! the transport reports it as sent, let the session go.
//!
//! The publisher decides and the caller acts. Each `step` takes what has just
//! happened and names what is to be done next; whoever owns the sockets does
//! it and comes back with the outcome.

use vstd::prelude::*;
use crate::config::{Configuration, Settings};
use crate::failure::Failure;

verus! {

/// Client identifier under which every run opens its session.
pub const CLIENT_ID: &'static str = "rumqtt-sync";

/// Keep-alive interval of the session, in seconds.
pub const KEEP_ALIVE_SECS: u64 = 5;

/// Number of requests that the session's outbound queue holds.
pub const REQUEST_QUEUE_CAPACITY: usize = 10;

/// Delivery guarantee of a publish.
#[derive(Copy, Clone, PartialEq, Eq, Debug, Structural)]
pub enum QoS {
    AtMostOnce,
    AtLeastOnce,
    ExactlyOnce,
}

/// Where a run stands.
#[derive(Copy, Clone, PartialEq, Eq, Debug, Structural)]
pub enum Phase {
    /// Nothing has been done yet.
    Disconnected,
    /// A session is being opened.
    Connecting,
    /// The session can take requests. It need not have completed its
    /// handshake: no acknowledgement of the connection is waited for.
    Connected,
    /// The message is queued and has not been seen to leave.
    Publishing,
    /// The transport has reported the message as sent.
    Confirmed,
    /// The run is over and the message was sent.
    Terminated,
    /// The run is over and no sending was confirmed.
    Failed(Failure),
}

/// What the session's event stream yields, as far as a run tells it apart.
#[derive(Copy, Clone, PartialEq, Eq, Debug, Structural)]
pub enum Signal {
    /// The publish request was handed to the transport as an outgoing
    /// PUBLISH frame.
    PublishSent,
    /// Any other notification.
    Other,
    /// The stream reported an error.
    Error,
    /// The stream has ended.
    Closed,
}

/// What has just happened.
#[derive(Copy, Clone, PartialEq, Eq, Debug, Structural)]
pub enum Input {
    /// The run is to begin.
    Start,
    /// The session was opened.
    SessionOpened,
    /// The session could not be opened.
    SessionRefused,
    /// The publish request was queued.
    PublishQueued,
    /// The publish request was turned down.
    PublishRejected,
    /// The event stream yielded something.
    Notified(Signal),
    /// The session was let go.
    SessionReleased,
}

/// What is to be done next.
#[derive(Copy, Clone, PartialEq, Eq, Debug, Structural)]
pub enum Action {
    /// Open a session as `Publisher::connect_request` says.
    Connect,
    /// Queue the message as `Publisher::publish_request` says.
    Publish,
    /// Take the next item from the event stream.
    AwaitNotification,
    /// Let the session go.
    Release,
    /// End the process with `Publisher::exit_status`.
    Exit,
    /// Nothing: the input was not awaited.
    Idle,
}

/// The run is over in this phase.
pub open spec fn is_final(phase: Phase) -> bool {
    phase is Terminated || phase is Failed
}

/// The failure that `input` reports, if it reports one.
pub open spec fn reported_failure(input: Input) -> Option<Failure> {
    match input {
        Input::SessionRefused => Some(Failure::Connection),
        Input::PublishRejected => Some(Failure::Publish),
        Input::Notified(Signal::Error) => Some(Failure::Connection),
        Input::Notified(Signal::Closed) => Some(Failure::Confirmation),
        _ => None,
    }
}

/// The phase that follows `phase` on `input`.
///
/// A final phase stays. Once the sending is confirmed only the release of
/// the session counts. Before that a reported failure ends the run at once,
/// and otherwise the run advances by one phase on the input that the phase
/// awaits and stays where it is on any other.
pub open spec fn next_phase(phase: Phase, input: Input) -> Phase {
    match phase {
        Phase::Terminated | Phase::Failed(_) => phase,
        Phase::Confirmed => if input is SessionReleased {
            Phase::Terminated
        } else {
            phase
        },
        _ => match reported_failure(input) {
            Some(failure) => Phase::Failed(failure),
            None => match (phase, input) {
                (Phase::Disconnected, Input::Start) => Phase::Connecting,
                (Phase::Connecting, Input::SessionOpened) => Phase::Connected,
                (Phase::Connected, Input::PublishQueued) => Phase::Publishing,
                (Phase::Publishing, Input::Notified(Signal::PublishSent)) => Phase::Confirmed,
                _ => phase,
            },
        },
    }
}

/// What is to be done when `input` arrives in `phase`.
pub open spec fn reaction(phase: Phase, input: Input) -> Action {
    match (phase, next_phase(phase, input)) {
        (Phase::Disconnected, Phase::Connecting) => Action::Connect,
        (Phase::Connecting, Phase::Connected) => Action::Publish,
        (Phase::Connected, Phase::Publishing) => Action::AwaitNotification,
        (Phase::Publishing, Phase::Publishing) => if input is Notified {
            Action::AwaitNotification
        } else {
            Action::Idle
        },
        (Phase::Publishing, Phase::Confirmed) => Action::Release,
        (Phase::Confirmed, Phase::Terminated) => Action::Exit,
        (Phase::Failed(_), _) => Action::Idle,
        (_, Phase::Failed(_)) => Action::Exit,
        _ => Action::Idle,
    }
}

/// The exit status that belongs to a final phase.
pub open spec fn phase_status(phase: Phase) -> Option<i32> {
    match phase {
        Phase::Terminated => Some(crate::failure::EXIT_CONFIRMED),
        Phase::Failed(failure) => Some(crate::failure::failure_status(failure)),
        _ => None,
    }
}

/// The phase reached from `phase` after `inputs`, taken in order.
pub open spec fn run(phase: Phase, inputs: Seq<Input>) -> Phase
    decreases inputs.len(),
{
    if inputs.len() == 0 {
        phase
    } else {
        run(next_phase(phase, inputs[0]), inputs.drop_first())
    }
}

/// How often `action` is asked for while `inputs` are taken from `phase` on.
pub open spec fn asked(phase: Phase, inputs: Seq<Input>, action: Action) -> nat
    decreases inputs.len(),
{
    if inputs.len() == 0 {
        0
    } else {
        let now: nat = if reaction(phase, inputs[0]) == action {
            1
        } else {
            0
        };
        now + asked(next_phase(phase, inputs[0]), inputs.drop_first(), action)
    }
}

/// `action` can still be asked for in `phase` or later.
pub open spec fn pending(phase: Phase, action: Action) -> bool {
    match action {
        Action::Connect => phase is Disconnected,
        Action::Publish => phase is Disconnected || phase is Connecting,
        Action::Release => !(phase is Confirmed) && !is_final(phase),
        Action::Exit => !is_final(phase),
        _ => true,
    }
}

/// An action that is no longer pending is never asked for again.
pub proof fn lemma_not_pending_never_asked(phase: Phase, inputs: Seq<Input>, action: Action)
    requires
        !pending(phase, action),
    ensures
        asked(phase, inputs, action) == 0,
    decreases inputs.len(),
{
    if inputs.len() > 0 {
        lemma_not_pending_never_asked(next_phase(phase, inputs[0]), inputs.drop_first(), action);
    }
}

/// Whatever happens, and in whatever order, a run asks at most once to open
/// a session, at most once to queue the message, at most once to let the
/// session go and at most once to end the process.
pub proof fn lemma_asked_at_most_once(phase: Phase, inputs: Seq<Input>, action: Action)
    requires
        action != Action::AwaitNotification,
        action != Action::Idle,
    ensures
        asked(phase, inputs, action) <= 1,
    decreases inputs.len(),
{
    if inputs.len() > 0 {
        let next = next_phase(phase, inputs[0]);
        if reaction(phase, inputs[0]) == action {
            lemma_not_pending_never_asked(next, inputs.drop_first(), action);
        } else {
            lemma_asked_at_most_once(next, inputs.drop_first(), action);
        }
    }
}

/// Taking one more input at the end of a run is one more step.
pub proof fn lemma_run_extends(phase: Phase, inputs: Seq<Input>, input: Input)
    ensures
        run(phase, inputs.push(input)) == next_phase(run(phase, inputs), input),
    decreases inputs.len(),
{
    let longer = inputs.push(input);
    if inputs.len() == 0 {
        assert(longer.drop_first().len() == 0);
        assert(run(next_phase(phase, input), longer.drop_first()) == next_phase(phase, input));
    } else {
        assert(longer.drop_first() =~= inputs.drop_first().push(input));
        lemma_run_extends(next_phase(phase, inputs[0]), inputs.drop_first(), input);
    }
}

/// A run that is over stays as it ended, whatever arrives.
pub proof fn lemma_final_phase_stays(phase: Phase, inputs: Seq<Input>)
    requires
        is_final(phase),
    ensures
        run(phase, inputs) == phase,
    decreases inputs.len(),
{
    if inputs.len() > 0 {
        lemma_final_phase_stays(phase, inputs.drop_first());
    }
}

/// Before the sending is confirmed, every reported failure ends the run at
/// once, with that failure.
pub proof fn lemma_failure_is_fatal(phase: Phase, input: Input)
    requires
        !is_final(phase),
        !(phase is Confirmed),
        reported_failure(input) is Some,
    ensures
        next_phase(phase, input) == Phase::Failed(reported_failure(input)->0),
        reaction(phase, input) == Action::Exit,
{
}

/// The sending counts as confirmed only where the transport reported the
/// message as sent while it was awaited.
pub proof fn lemma_confirmed_only_when_sent(phase: Phase, input: Input)
    requires
        next_phase(phase, input) is Confirmed,
        !(phase is Confirmed),
    ensures
        phase is Publishing,
        input == Input::Notified(Signal::PublishSent),
{
}

/// A run that has got as far as `Confirmed` from an earlier phase has seen
/// the transport report the message as sent.
pub proof fn lemma_success_was_confirmed(phase: Phase, inputs: Seq<Input>)
    requires
        !(phase is Confirmed),
        !is_final(phase),
        run(phase, inputs) is Confirmed || run(phase, inputs) is Terminated,
    ensures
        inputs.contains(Input::Notified(Signal::PublishSent)),
    decreases inputs.len(),
{
    if inputs.len() > 0 {
        let next = next_phase(phase, inputs[0]);
        let rest = inputs.drop_first();
        if inputs[0] == Input::Notified(Signal::PublishSent) {
        } else {
            if next is Failed {
                lemma_final_phase_stays(next, rest);
            } else {
                lemma_success_was_confirmed(next, rest);
                let at = choose|at: int|
                    0 <= at < rest.len() && rest[at] == Input::Notified(Signal::PublishSent);
                assert(inputs[at + 1] == Input::Notified(Signal::PublishSent));
            }
        }
    }
}

/// The exit status is `EXIT_CONFIRMED` for a run that ended after a
/// confirmed publish, and for no other.
pub proof fn lemma_status_tells_success(phase: Phase)
    ensures
        phase_status(phase) == Some(crate::failure::EXIT_CONFIRMED) <==> phase is Terminated,
        phase_status(phase) is Some <==> is_final(phase),
{
}

/// How a session is to be opened.
pub struct ConnectRequest {
    pub client_id: String,
    pub host: String,
    pub port: u16,
    pub keep_alive_secs: u64,
    pub queue_capacity: usize,
}

/// The one message of a run.
pub struct PublishRequest {
    pub topic: String,
    pub payload: String,
    pub qos: QoS,
    pub retain: bool,
}

/// What a `Publisher` holds, as mathematical values.
pub struct PublisherView {
    pub settings: Settings,
    pub payload: Seq<char>,
    pub phase: Phase,
}

/// One run: the settings, the encoded body and the phase reached.
pub struct Publisher {
    config: Configuration,
    payload: String,
    phase: Phase,
}

impl View for Publisher {
    type V = PublisherView;

    closed spec fn view(&self) -> PublisherView {
        PublisherView { settings: self.config@, payload: self.payload@, phase: self.phase }
    }
}

impl Publisher {
    /// A run that has not begun, for these settings and this body.
    pub fn new(config: Configuration, payload: String) -> (publisher: Publisher)
        ensures
            publisher@ == (PublisherView {
                settings: config@,
                payload: payload@,
                phase: Phase::Disconnected,
            }),
    {
        Publisher { config, payload, phase: Phase::Disconnected }
    }

    /// The phase reached.
    pub fn phase(&self) -> (phase: Phase)
        ensures
            phase == self@.phase,
    {
        self.phase
    }

    /// Takes `input` and says what is to be done next. The settings and the
    /// body never change.
    pub fn step(&mut self, input: Input) -> (action: Action)
        ensures
            final(self)@ == (PublisherView {
                phase: next_phase(old(self)@.phase, input),
                ..old(self)@
            }),
            action == reaction(old(self)@.phase, input),
    {
        let failure: Option<Failure> = match input {
            Input::SessionRefused => Some(Failure::Connection),
            Input::PublishRejected => Some(Failure::Publish),
            Input::Notified(Signal::Error) => Some(Failure::Connection),
            Input::Notified(Signal::Closed) => Some(Failure::Confirmation),
            _ => None,
        };
        let (next, action): (Phase, Action) = match (self.phase, failure, input) {
            (Phase::Terminated, _, _) | (Phase::Failed(_), _, _) => (self.phase, Action::Idle),
            (Phase::Confirmed, _, Input::SessionReleased) => (Phase::Terminated, Action::Exit),
            (Phase::Confirmed, _, _) => (Phase::Confirmed, Action::Idle),
            (_, Some(failure), _) => (Phase::Failed(failure), Action::Exit),
            (Phase::Disconnected, None, Input::Start) => (Phase::Connecting, Action::Connect),
            (Phase::Connecting, None, Input::SessionOpened) => (Phase::Connected, Action::Publish),
            (Phase::Connected, None, Input::PublishQueued) => (
                Phase::Publishing,
                Action::AwaitNotification,
            ),
            (Phase::Publishing, None, Input::Notified(Signal::PublishSent)) => (
                Phase::Confirmed,
                Action::Release,
            ),
            (Phase::Publishing, None, Input::Notified(_)) => (
                Phase::Publishing,
                Action::AwaitNotification,
            ),
            (phase, None, _) => (phase, Action::Idle),
        };
        self.phase = next;
        action
    }

    /// Takes `inputs` in order and returns what was asked for at each.
    pub fn replay(&mut self, inputs: &Vec<Input>) -> (actions: Vec<Action>)
        ensures
            final(self)@ == (PublisherView {
                phase: run(old(self)@.phase, inputs@),
                ..old(self)@
            }),
            actions@.len() == inputs@.len(),
            forall|at: int|
                0 <= at < inputs@.len() ==> #[trigger] actions@[at] == reaction(
                    run(old(self)@.phase, inputs@.take(at)),
                    inputs@[at],
                ),
    {
        let mut actions: Vec<Action> = Vec::new();
        let mut at: usize = 0;
        assert(inputs@.take(0) =~= Seq::empty());
        while at < inputs.len()
            invariant
                at <= inputs@.len(),
                actions@.len() == at,
                self@ == (PublisherView {
                    phase: run(old(self)@.phase, inputs@.take(at as int)),
                    ..old(self)@
                }),
                forall|done: int|
                    0 <= done < at ==> #[trigger] actions@[done] == reaction(
                        run(old(self)@.phase, inputs@.take(done)),
                        inputs@[done],
                    ),
            decreases inputs@.len() - at,
        {
            proof {
                lemma_run_extends(old(self)@.phase, inputs@.take(at as int), inputs@[at as int]);
                assert(inputs@.take(at as int).push(inputs@[at as int]) =~= inputs@.take(
                    at as int + 1,
                ));
            }
            let action = self.step(inputs[at]);
            actions.push(action);
            at = at + 1;
        }
        assert(inputs@.take(at as int) =~= inputs@);
        actions
    }

    /// How the session is to be opened: at the configured broker, under
    /// `CLIENT_ID`, with a keep-alive of `KEEP_ALIVE_SECS`.
    pub fn connect_request(&self) -> (request: ConnectRequest)
        ensures
            request.client_id@ == CLIENT_ID@,
            request.host@ == self@.settings.broker_host,
            request.port == self@.settings.broker_port,
            request.port >= 1,
            request.keep_alive_secs == KEEP_ALIVE_SECS,
            request.queue_capacity == REQUEST_QUEUE_CAPACITY,
    {
        ConnectRequest {
            client_id: CLIENT_ID.to_owned(),
            host: self.config.broker_host().to_owned(),
            port: self.config.broker_port(),
            keep_alive_secs: KEEP_ALIVE_SECS,
            queue_capacity: REQUEST_QUEUE_CAPACITY,
        }
    }

    /// The message: the body, to the configured topic, delivered at least
    /// once and not retained by the broker.
    pub fn publish_request(&self) -> (request: PublishRequest)
        ensures
            request.topic@ == self@.settings.topic,
            request.topic@.len() > 0,
            request.payload@ == self@.payload,
            request.qos == QoS::AtLeastOnce,
            request.retain == false,
    {
        PublishRequest {
            topic: self.config.topic().to_owned(),
            payload: self.payload.as_str().to_owned(),
            qos: QoS::AtLeastOnce,
            retain: false,
        }
    }

    /// The exit status, once the run is over: `EXIT_CONFIRMED` after a
    /// confirmed publish, the status of the failure otherwise.
    pub fn exit_status(&self) -> (status: Option<i32>)
        ensures
            status == phase_status(self@.phase),
    {
        match self.phase {
            Phase::Terminated => Some(crate::failure::EXIT_CONFIRMED),
            Phase::Failed(failure) => Some(failure.exit_status()),
            _ => None,
        }
    }

    /// The failure that ended the run, if one did.
    pub fn failure(&self) -> (failure: Option<Failure>)
        ensures
            failure == (match self@.phase {
                Phase::Failed(reason) => Some(reason),
                _ => None,
            }),
    {
        match self.phase {
            Phase::Failed(reason) => Some(reason),
            _ => None,
        }
    }
}

} // verus!
