use vstd::prelude::*;

verus! {

/// Happenings that a room reacts to.
#[derive(PartialEq, Eq, Structural, Clone, Copy, Debug)]
pub enum Event {
    Connect,
    Join,
}

/// The fixed set of rooms a session can be affiliated with. A session holds
/// a room by tag, never by reference.
#[derive(PartialEq, Eq, Structural, Clone, Copy, Debug)]
pub enum Room {
    WaitingRoom,
}

/// The notice the waiting room gives when a player connects.
pub open spec fn waiting_room_notice() -> Seq<char> {
    "A player connected to waiting room"@
}

/// The waiting room's reaction to an event: a notice on `Connect`, nothing
/// otherwise.
pub fn waiting_room_on(event: Event) -> (r: Option<String>)
    ensures
        r is Some <==> event == Event::Connect,
        r matches Some(t) ==> t@ == waiting_room_notice(),
{
    match event {
        Event::Connect => Some(String::from_str("A player connected to waiting room")),
        Event::Join => None,
    }
}

impl Room {
    /// Hands an event to this room's logic and returns the notice it gives.
    pub fn on(&self, event: Event) -> (r: Option<String>)
        ensures
            r is Some <==> event == Event::Connect,
            r matches Some(t) ==> t@ == waiting_room_notice(),
    {
        match self {
            Room::WaitingRoom => waiting_room_on(event),
        }
    }
}

} // verus!
