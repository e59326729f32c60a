use vstd::prelude::*;
use crate::address::Address;

verus! {

/// A request that this game makes of the hub, which holds both stakes until
/// the game is decided.
#[derive(Clone, Copy, Debug, PartialEq, Eq, Structural)]
pub enum HubRequest {
    /// Lock both stakes for a session that is about to begin.
    StartGame {
        hub: Address,
        game_id: Address,
        session_id: u32,
        player1: Address,
        player2: Address,
        player1_points: i128,
        player2_points: i128,
    },
    /// Release the stakes of a session to its winner.
    EndGame { hub: Address, session_id: u32, player1_won: bool },
}

/// A request together with what the hub made of it.
pub struct Exchange {
    pub request: HubRequest,
    pub accepted: bool,
}

/// The later history is the earlier one followed by exactly the given
/// requests, in order, each with whatever answer it got.
pub open spec fn continues_with(
    earlier: Seq<Exchange>,
    later: Seq<Exchange>,
    asked: Seq<HubRequest>,
) -> bool {
    &&& later.len() == earlier.len() + asked.len()
    &&& forall|i: int| 0 <= i < earlier.len() ==> later[i] == earlier[i]
    &&& forall|i: int| 0 <= i < asked.len() ==> later[earlier.len() + i].request == asked[i]
}

/// The hub, as this game sees it: two requests, each answered by whether
/// the hub carried it out.
///
/// `hub` is the address at which the hub is to be reached and `game_id` the
/// address of the game that asks. Nothing is assumed of an answer.
pub trait GameHub {
    fn start_game(
        &mut self,
        hub: Address,
        game_id: Address,
        session_id: u32,
        player1: Address,
        player2: Address,
        player1_points: i128,
        player2_points: i128,
    ) -> bool;

    fn end_game(&mut self, hub: Address, session_id: u32, player1_won: bool) -> bool;
}

/// The one way to the hub: every request goes through here, exactly once,
/// and is remembered with its answer.
pub struct Escrow<H: GameHub> {
    hub: H,
    history: Ghost<Seq<Exchange>>,
}

impl<H: GameHub> Escrow<H> {
    /// Every exchange with the hub so far, oldest first.
    pub closed spec fn exchanges(&self) -> Seq<Exchange> {
        self.history@
    }

    /// The hub behind this way, as it stands.
    pub closed spec fn inner(&self) -> H {
        self.hub
    }

    /// A way to the given hub over which nothing has been asked yet.
    pub fn new(hub: H) -> (escrow: Self)
        ensures
            escrow.exchanges() == Seq::<Exchange>::empty(),
            escrow.inner() == hub,
    {
        Escrow { hub, history: Ghost(Seq::empty()) }
    }

    /// Asks the hub to lock both stakes, and says whether it did.
    pub fn lock(
        &mut self,
        hub: Address,
        game_id: Address,
        session_id: u32,
        player1: Address,
        player2: Address,
        player1_points: i128,
        player2_points: i128,
    ) -> (accepted: bool)
        ensures
            final(self).exchanges() == old(self).exchanges().push(
                Exchange {
                    request: HubRequest::StartGame {
                        hub,
                        game_id,
                        session_id,
                        player1,
                        player2,
                        player1_points,
                        player2_points,
                    },
                    accepted,
                },
            ),
    {
        let accepted = self.hub.start_game(
            hub,
            game_id,
            session_id,
            player1,
            player2,
            player1_points,
            player2_points,
        );
        proof {
            self.history@ = self.history@.push(
                Exchange {
                    request: HubRequest::StartGame {
                        hub,
                        game_id,
                        session_id,
                        player1,
                        player2,
                        player1_points,
                        player2_points,
                    },
                    accepted,
                },
            );
        }
        accepted
    }

    /// Asks the hub to release the stakes of a session, and says whether it did.
    pub fn release(&mut self, hub: Address, session_id: u32, player1_won: bool) -> (accepted: bool)
        ensures
            final(self).exchanges() == old(self).exchanges().push(
                Exchange {
                    request: HubRequest::EndGame { hub, session_id, player1_won },
                    accepted,
                },
            ),
    {
        let accepted = self.hub.end_game(hub, session_id, player1_won);
        proof {
            self.history@ = self.history@.push(
                Exchange {
                    request: HubRequest::EndGame { hub, session_id, player1_won },
                    accepted,
                },
            );
        }
        accepted
    }

    /// The hub behind this way.
    pub fn hub(&self) -> (hub: &H)
        ensures
            *hub == self.inner(),
    {
        &self.hub
    }

    /// Gives the hub back.
    pub fn into_hub(self) -> (hub: H)
        ensures
            hub == self.inner(),
    {
        self.hub
    }
}

/// A hub that settles nothing: it writes down each request and gives the
/// answers it was set up to give. It stands in for the hub wherever the
/// game is to be run without one.
pub struct RecordingHub {
    asked: Vec<HubRequest>,
    locks: bool,
    releases: bool,
}

impl RecordingHub {
    /// The requests written down so far, oldest first.
    pub closed spec fn asked(&self) -> Seq<HubRequest> {
        self.asked@
    }

    /// The answer given to a request to lock.
    pub closed spec fn locks(&self) -> bool {
        self.locks
    }

    /// The answer given to a request to release.
    pub closed spec fn releases(&self) -> bool {
        self.releases
    }

    /// A hub that has been asked nothing and will answer as given.
    pub fn new(locks: bool, releases: bool) -> (hub: RecordingHub)
        ensures
            hub.asked() == Seq::<HubRequest>::empty(),
            hub.locks() == locks,
            hub.releases() == releases,
    {
        RecordingHub { asked: Vec::new(), locks, releases }
    }

    /// Changes the answers given from now on.
    pub fn answer(&mut self, locks: bool, releases: bool)
        ensures
            final(self).asked() == old(self).asked(),
            final(self).locks() == locks,
            final(self).releases() == releases,
    {
        self.locks = locks;
        self.releases = releases;
    }

    /// How many requests were written down.
    pub fn count(&self) -> (n: usize)
        ensures
            n == self.asked().len(),
    {
        self.asked.len()
    }

    /// The request written down at a position, the oldest at position 0.
    pub fn request(&self, at: usize) -> (found: Option<HubRequest>)
        ensures
            found == if at < self.asked().len() {
                Some(self.asked()[at as int])
            } else {
                None
            },
    {
        if at < self.asked.len() {
            Some(self.asked[at])
        } else {
            None
        }
    }
}

impl GameHub for RecordingHub {
    fn start_game(
        &mut self,
        hub: Address,
        game_id: Address,
        session_id: u32,
        player1: Address,
        player2: Address,
        player1_points: i128,
        player2_points: i128,
    ) -> (accepted: bool)
        ensures
            accepted == old(self).locks(),
            final(self).locks() == old(self).locks(),
            final(self).releases() == old(self).releases(),
            final(self).asked() == old(self).asked().push(
                HubRequest::StartGame {
                    hub,
                    game_id,
                    session_id,
                    player1,
                    player2,
                    player1_points,
                    player2_points,
                },
            ),
    {
        self.asked.push(
            HubRequest::StartGame {
                hub,
                game_id,
                session_id,
                player1,
                player2,
                player1_points,
                player2_points,
            },
        );
        self.locks
    }

    fn end_game(&mut self, hub: Address, session_id: u32, player1_won: bool) -> (accepted: bool)
        ensures
            accepted == old(self).releases(),
            final(self).locks() == old(self).locks(),
            final(self).releases() == old(self).releases(),
            final(self).asked() == old(self).asked().push(
                HubRequest::EndGame { hub, session_id, player1_won },
            ),
    {
        self.asked.push(HubRequest::EndGame { hub, session_id, player1_won });
        self.releases
    }
}

} // verus!
