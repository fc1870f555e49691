//! What holds of the state machine over whole runs.

use vstd::prelude::*;
use crate::model::AppModel;
use crate::settings::{DataBits, Parity, PortSettings, StopBits};
use crate::transport::{ActionView, EventView};

verus! {

/// A disconnected controller asks for any port to be opened, listed by a
/// scan or not, with the fixed settings; and once the transport reports
/// success it is connected to that port.
pub proof fn lemma_open_needs_no_scan(state: AppModel, name: Seq<char>)
    requires
        !state.is_connected(),
    ensures
        state.open_port(name) == (ActionView::OpenPort {
            name,
            settings: (PortSettings {
                baud_rate: 115_200,
                timeout_ms: 100,
                data_bits: DataBits::Eight,
                parity: Parity::NoParity,
                stop_bits: StopBits::One,
            }),
        }),
        state.open_finished(name, Ok(())).connection == Some(name),
        state.run(seq![EventView::OpenClicked(name), EventView::OpenFinished { name, result: Ok(()) }])
            .connection == Some(name),
{
    let clicked = EventView::OpenClicked(name);
    let finished = EventView::OpenFinished { name, result: Ok(()) };
    let events = seq![clicked, finished];
    let rest = events.drop_first();
    assert(events[0] == clicked);
    assert(rest.len() == 1 && rest[0] == finished);
    assert(rest.drop_first().len() == 0);
    let opened = state.step(clicked).0.step(finished).0;
    assert(state.step(clicked).0.run(rest) == opened.run(rest.drop_first()));
    assert(opened.run(rest.drop_first()) == opened);
}

/// Once a port is open, no run of events closes it or opens another: the
/// connection and the known ports stay what they were, and the transport
/// is never asked to list or to open, only to write.
pub proof fn lemma_connection_is_kept(state: AppModel, events: Seq<EventView>)
    requires
        state.is_connected(),
    ensures
        state.run(events).connection == state.connection,
        state.run(events).ports == state.ports,
        state.actions(events).len() == events.len(),
        forall|i: int|
            0 <= i < events.len() ==> {
                ||| #[trigger] state.actions(events)[i] is Idle
                ||| state.actions(events)[i] is Write
            },
    decreases events.len(),
{
    if events.len() > 0 {
        let next = state.step(events[0]).0;
        let rest = events.drop_first();
        lemma_connection_is_kept(next, rest);
        assert forall|i: int| 0 <= i < events.len() implies {
            ||| #[trigger] state.actions(events)[i] is Idle
            ||| state.actions(events)[i] is Write
        } by {
            if i > 0 {
                assert(state.actions(events)[i] == next.actions(rest)[i - 1]);
            }
        }
    }
}

/// A disconnected controller never asks for a write, and neither a
/// request to send nor the result of a write changes it.
pub proof fn lemma_nothing_is_sent_while_disconnected(state: AppModel, event: EventView)
    requires
        !state.is_connected(),
    ensures
        !(state.step(event).1 is Write),
        event is SendClicked ==> state.step(event) == (state, ActionView::Idle),
        event is SendFinished ==> state.step(event) == (state, ActionView::Idle),
{
}

} // verus!
