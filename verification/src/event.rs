//! What comes in to the daemon from its workers and timers.

use crate::remote_data::EventView as RemoteView;
use crate::remote_data::Slot;
use vstd::prelude::*;

verus! {

/// A report from a worker or a timer.
#[derive(Clone, Debug, PartialEq)]
pub enum Event {
    FetchAddresses(crate::remote_data::Event),
    FetchOpenSession(crate::remote_data::Event),
    FetchListSessions(crate::remote_data::Event),
    FetchCloseSession(crate::remote_data::Event),
    /// The session is due for a check.
    CheckSession,
}

/// What an `Event` stands for.
pub enum EventView {
    /// A report on one of the remote calls.
    Remote(Slot, RemoteView),
    CheckSession,
}

impl DeepView for Event {
    type V = EventView;

    open spec fn deep_view(&self) -> EventView {
        match self {
            Event::FetchAddresses(event) => EventView::Remote(Slot::Addresses, event@),
            Event::FetchOpenSession(event) => EventView::Remote(Slot::OpenSession, event@),
            Event::FetchListSessions(event) => EventView::Remote(Slot::ListSessions, event@),
            Event::FetchCloseSession(event) => EventView::Remote(Slot::CloseSession, event@),
            Event::CheckSession => EventView::CheckSession,
        }
    }
}

impl View for Event {
    type V = EventView;

    open spec fn view(&self) -> EventView {
        self.deep_view()
    }
}

impl Event {
    /// The report of a worker or a retry timer, as an event of its call.
    pub fn remote(slot: Slot, event: crate::remote_data::Event) -> (r: Event)
        ensures
            r@ == EventView::Remote(slot, event@),
    {
        match slot {
            Slot::Addresses => Event::FetchAddresses(event),
            Slot::OpenSession => Event::FetchOpenSession(event),
            Slot::ListSessions => Event::FetchListSessions(event),
            Slot::CloseSession => Event::FetchCloseSession(event),
        }
    }
}

} // verus!
