//! What `rumqttc`'s event stream yields, told apart for the publisher.

use vstd::prelude::*;
use crate::publisher::{next_phase, reaction, Action, Input, Publisher, PublisherView, Signal};

verus! {

/// `rumqttc::Event`.
#[verifier::external_type_specification]
#[verifier::external_body]
pub struct ExSessionEvent(rumqttc::Event);

/// `rumqttc::ConnectionError`.
#[verifier::external_type_specification]
#[verifier::external_body]
pub struct ExSessionError(rumqttc::ConnectionError);

/// `event` is an `Event::Outgoing` that holds an `Outgoing::Publish`: the
/// transport was handed a PUBLISH frame.
pub uninterp spec fn is_outgoing_publish(event: rumqttc::Event) -> bool;

/// The signal that an item of the event stream stands for: the end of the
/// stream where there is none, an error where it is one, and otherwise the
/// sending of the message or anything else.
pub open spec fn item_signal(item: Option<Result<rumqttc::Event, rumqttc::ConnectionError>>)
    -> Signal {
    match item {
        None => Signal::Closed,
        Some(Err(_)) => Signal::Error,
        Some(Ok(event)) => if is_outgoing_publish(event) {
            Signal::PublishSent
        } else {
            Signal::Other
        },
    }
}

/// Tells apart what `Iterator::next` on `rumqttc::Iter` gave, by the variants
/// of `Option`, `Result`, `rumqttc::Event` and `rumqttc::Outgoing` alone: the
/// packet identifier inside `Outgoing::Publish` is not looked at.
#[verifier::external_body]
fn classify(item: &Option<Result<rumqttc::Event, rumqttc::ConnectionError>>) -> (signal: Signal)
    ensures
        signal == item_signal(*item),
        signal is PublishSent <==> (*item matches Some(Ok(event)) && is_outgoing_publish(event)),
{
    match item {
        Some(Ok(rumqttc::Event::Outgoing(rumqttc::Outgoing::Publish(_)))) => Signal::PublishSent,
        Some(Ok(_)) => Signal::Other,
        Some(Err(_)) => Signal::Error,
        None => Signal::Closed,
    }
}

impl Publisher {
    /// Takes the next item of the session's event stream, `None` where the
    /// stream has ended, and steps on the signal that it stands for.
    pub fn observe(
        &mut self,
        item: &Option<Result<rumqttc::Event, rumqttc::ConnectionError>>,
    ) -> (action: Action)
        ensures
            final(self)@ == (PublisherView {
                phase: next_phase(old(self)@.phase, Input::Notified(item_signal(*item))),
                ..old(self)@
            }),
            action == reaction(old(self)@.phase, Input::Notified(item_signal(*item))),
    {
        let signal = classify(item);
        self.step(Input::Notified(signal))
    }
}

} // verus!
