use vstd::prelude::*;
use crate::address::Address;
use crate::records::{CalibrationSession, SenseResult};

verus! {

/// A session as it is kept: the record and the lifetime it was last granted.
#[derive(Clone, Copy, Debug, PartialEq, Eq, Structural)]
pub struct StoredSession {
    pub session: CalibrationSession,
    /// Ledgers of lifetime granted; zero while none has been asked for.
    pub ttl: u32,
}

/// A sense result as it is kept: whose it is, the record, and the lifetime
/// it was last granted.
#[derive(Clone, Copy, Debug, PartialEq, Eq, Structural)]
pub struct StoredResult {
    pub player: Address,
    pub result: SenseResult,
    /// Ledgers of lifetime granted; zero while none has been asked for.
    pub ttl: u32,
}

impl StoredResult {
    /// The player and sense under which the result is kept.
    pub open spec fn key(self) -> (Address, u32) {
        (self.player, self.result.sense_id)
    }
}

/// A lifetime after a request to extend it: raised to `extend_to` where it
/// was below `threshold`, otherwise left alone.
pub open spec fn extended(ttl: u32, threshold: u32, extend_to: u32) -> u32 {
    if ttl < threshold {
        extend_to
    } else {
        ttl
    }
}

/// The rows are the sessions of the map, one row for each player in it.
pub open spec fn lists_sessions(
    rows: Seq<StoredSession>,
    kept: Map<Address, StoredSession>,
) -> bool {
    &&& forall|i: int|
        0 <= i < rows.len() ==> kept.contains_key((#[trigger] rows[i]).session.player)
            && kept[rows[i].session.player] == rows[i]
    &&& forall|player: Address| #[trigger]
        kept.contains_key(player) ==> exists|i: int|
            0 <= i < rows.len() && (#[trigger] rows[i]).session.player == player
    &&& forall|i: int, j: int|
        0 <= i < j < rows.len() ==> (#[trigger] rows[i]).session.player != (
        #[trigger] rows[j]).session.player
}

/// The rows are the results of the map, one row for each player and sense in it.
pub open spec fn lists_results(
    rows: Seq<StoredResult>,
    kept: Map<(Address, u32), StoredResult>,
) -> bool {
    &&& forall|i: int|
        0 <= i < rows.len() ==> kept.contains_key((#[trigger] rows[i]).key()) && kept[rows[i].key()]
            == rows[i]
    &&& forall|key: (Address, u32)| #[trigger]
        kept.contains_key(key) ==> exists|i: int|
            0 <= i < rows.len() && (#[trigger] rows[i]).key() == key
    &&& forall|i: int, j: int|
        0 <= i < j < rows.len() ==> (#[trigger] rows[i]).key() != (#[trigger] rows[j]).key()
}

/// The two families of keyed records: one session for each player, one
/// result for each player and sense. A record is read, written whole, or has
/// its lifetime extended; none is ever taken away.
pub struct Store {
    session_rows: Vec<StoredSession>,
    result_rows: Vec<StoredResult>,
    session_map: Ghost<Map<Address, StoredSession>>,
    result_map: Ghost<Map<(Address, u32), StoredResult>>,
}

impl Store {
    /// The sessions kept, by player.
    pub closed spec fn sessions(&self) -> Map<Address, StoredSession> {
        self.session_map@
    }

    /// The sense results kept, by player and sense.
    pub closed spec fn results(&self) -> Map<(Address, u32), StoredResult> {
        self.result_map@
    }

    /// The rows and the maps agree.
    pub closed spec fn wf(&self) -> bool {
        &&& lists_sessions(self.session_rows@, self.session_map@)
        &&& lists_results(self.result_rows@, self.result_map@)
    }

    /// Each record is kept under its own player, and sense.
    pub proof fn keys_agree(&self)
        requires
            self.wf(),
        ensures
            forall|player: Address| #[trigger]
                self.sessions().contains_key(player) ==> self.sessions()[player].session.player
                    == player,
            forall|key: (Address, u32)| #[trigger]
                self.results().contains_key(key) ==> self.results()[key].key() == key,
    {
        assert forall|player: Address| #[trigger]
            self.sessions().contains_key(player) implies self.sessions()[player].session.player
            == player by {
            let rows = self.session_rows@;
            let i = choose|i: int|
                0 <= i < rows.len() && (#[trigger] rows[i]).session.player == player;
            assert(self.session_map@[self.session_rows@[i].session.player]
                == self.session_rows@[i]);
        }
        assert forall|key: (Address, u32)| #[trigger]
            self.results().contains_key(key) implies self.results()[key].key() == key by {
            let i = choose|i: int|
                0 <= i < self.result_rows@.len() && (#[trigger] self.result_rows@[i]).key() == key;
            assert(self.result_map@[self.result_rows@[i].key()] == self.result_rows@[i]);
        }
    }

    /// A store that keeps nothing.
    pub fn new() -> (store: Store)
        ensures
            store.wf(),
            store.sessions() == Map::<Address, StoredSession>::empty(),
            store.results() == Map::<(Address, u32), StoredResult>::empty(),
    {
        Store {
            session_rows: Vec::new(),
            result_rows: Vec::new(),
            session_map: Ghost(Map::empty()),
            result_map: Ghost(Map::empty()),
        }
    }

    fn find_session(&self, player: Address) -> (at: Option<usize>)
        requires
            self.wf(),
        ensures
            match at {
                Some(i) => {
                    &&& i < self.session_rows@.len()
                    &&& self.session_rows@[i as int].session.player == player
                    &&& self.sessions().contains_key(player)
                    &&& self.sessions()[player] == self.session_rows@[i as int]
                },
                None => !self.sessions().contains_key(player),
            },
    {
        let mut i: usize = 0;
        while i < self.session_rows.len()
            invariant
                self.wf(),
                i <= self.session_rows.len(),
                forall|k: int|
                    0 <= k < i ==> (#[trigger] self.session_rows@[k]).session.player != player,
            decreases self.session_rows.len() - i,
        {
            if self.session_rows[i].session.player == player {
                return Some(i);
            }
            i += 1;
        }
        None
    }

    fn find_result(&self, player: Address, sense_id: u32) -> (at: Option<usize>)
        requires
            self.wf(),
        ensures
            match at {
                Some(i) => {
                    &&& i < self.result_rows@.len()
                    &&& self.result_rows@[i as int].key() == (player, sense_id)
                    &&& self.results().contains_key((player, sense_id))
                    &&& self.results()[(player, sense_id)] == self.result_rows@[i as int]
                },
                None => !self.results().contains_key((player, sense_id)),
            },
    {
        let mut i: usize = 0;
        while i < self.result_rows.len()
            invariant
                self.wf(),
                i <= self.result_rows.len(),
                forall|k: int|
                    0 <= k < i ==> (#[trigger] self.result_rows@[k]).key() != (player, sense_id),
            decreases self.result_rows.len() - i,
        {
            let row = self.result_rows[i];
            if row.player == player && row.result.sense_id == sense_id {
                return Some(i);
            }
            i += 1;
        }
        None
    }

    /// Keeps a session exactly as given, lifetime included, under its
    /// player, in place of the one kept before if there was one.
    pub fn keep_session(&mut self, row: StoredSession)
        requires
            old(self).wf(),
        ensures
            final(self).wf(),
            final(self).sessions() == old(self).sessions().insert(row.session.player, row),
            final(self).results() == old(self).results(),
    {
        let ghost before = self.session_rows@;
        let ghost mut written: int = before.len() as int;
        match self.find_session(row.session.player) {
            Some(i) => {
                self.session_rows.set(i, row);
                proof {
                    written = i as int;
                    assert forall|k: int| 0 <= k < before.len() && k != i implies (
                    #[trigger] before[k]).session.player != row.session.player by {
                        if k < i {
                            assert(before[k].session.player != before[i as int].session.player);
                        } else {
                            assert(before[i as int].session.player != before[k].session.player);
                        }
                    }
                }
            },
            None => {
                self.session_rows.push(row);
            },
        }
        proof {
            self.session_map@ = self.session_map@.insert(row.session.player, row);
            let rows = self.session_rows@;
            let kept = self.session_map@;
            assert forall|player: Address| #[trigger] kept.contains_key(player) implies exists|
                i: int,
            |
                0 <= i < rows.len() && (#[trigger] rows[i]).session.player == player by {
                if player == row.session.player {
                    assert(rows[written].session.player == player);
                } else {
                    let at = choose|at: int|
                        0 <= at < before.len() && (#[trigger] before[at]).session.player == player;
                    assert(rows[at].session.player == player);
                }
            }
        }
    }

    /// Keeps a result exactly as given, lifetime included, under its player
    /// and sense, in place of the one kept before if there was one.
    pub fn keep_result(&mut self, row: StoredResult)
        requires
            old(self).wf(),
        ensures
            final(self).wf(),
            final(self).results() == old(self).results().insert(row.key(), row),
            final(self).sessions() == old(self).sessions(),
    {
        let ghost before = self.result_rows@;
        let ghost mut written: int = before.len() as int;
        match self.find_result(row.player, row.result.sense_id) {
            Some(i) => {
                self.result_rows.set(i, row);
                proof {
                    written = i as int;
                    assert forall|k: int| 0 <= k < before.len() && k != i implies (
                    #[trigger] before[k]).key() != row.key() by {
                        if k < i {
                            assert(before[k].key() != before[i as int].key());
                        } else {
                            assert(before[i as int].key() != before[k].key());
                        }
                    }
                }
            },
            None => {
                self.result_rows.push(row);
            },
        }
        proof {
            self.result_map@ = self.result_map@.insert(row.key(), row);
            let rows = self.result_rows@;
            let kept = self.result_map@;
            assert forall|key: (Address, u32)| #[trigger] kept.contains_key(key) implies exists|
                i: int,
            |
                0 <= i < rows.len() && (#[trigger] rows[i]).key() == key by {
                if key == row.key() {
                    assert(rows[written].key() == key);
                } else {
                    let at = choose|at: int|
                        0 <= at < before.len() && (#[trigger] before[at]).key() == key;
                    assert(rows[at].key() == key);
                }
            }
        }
    }

    /// The session kept for a player, with its lifetime.
    pub fn get_session(&self, player: Address) -> (found: Option<StoredSession>)
        requires
            self.wf(),
        ensures
            found == if self.sessions().contains_key(player) {
                Some(self.sessions()[player])
            } else {
                None
            },
    {
        match self.find_session(player) {
            Some(i) => Some(self.session_rows[i]),
            None => None,
        }
    }

    /// Keeps a session under its player, in place of the one kept before if
    /// there was one. Writing grants no lifetime: a record keeps what it had,
    /// and a new one starts with none.
    pub fn put_session(&mut self, session: CalibrationSession)
        requires
            old(self).wf(),
        ensures
            final(self).wf(),
            final(self).sessions() == old(self).sessions().insert(
                session.player,
                StoredSession {
                    session,
                    ttl: if old(self).sessions().contains_key(session.player) {
                        old(self).sessions()[session.player].ttl
                    } else {
                        0
                    },
                },
            ),
            final(self).results() == old(self).results(),
    {
        let ttl: u32 = match self.find_session(session.player) {
            Some(i) => self.session_rows[i].ttl,
            None => 0,
        };
        self.keep_session(StoredSession { session, ttl });
    }

    /// Extends the lifetime of a player's session: where it is below
    /// `threshold` it becomes `extend_to`. Without a session nothing happens.
    pub fn extend_session_ttl(&mut self, player: Address, threshold: u32, extend_to: u32)
        requires
            old(self).wf(),
        ensures
            final(self).wf(),
            final(self).results() == old(self).results(),
            final(self).sessions() == if old(self).sessions().contains_key(player) {
                old(self).sessions().insert(
                    player,
                    StoredSession {
                        ttl: extended(old(self).sessions()[player].ttl, threshold, extend_to),
                        ..old(self).sessions()[player]
                    },
                )
            } else {
                old(self).sessions()
            },
    {
        match self.find_session(player) {
            Some(i) => {
                let row = self.session_rows[i];
                if row.ttl < threshold {
                    self.keep_session(StoredSession { session: row.session, ttl: extend_to });
                } else {
                    assert(self.sessions().insert(player, row) =~= self.sessions());
                }
            },
            None => {},
        }
    }

    /// The result kept for a player and sense, with its lifetime.
    pub fn get_result(&self, player: Address, sense_id: u32) -> (found: Option<StoredResult>)
        requires
            self.wf(),
        ensures
            found == if self.results().contains_key((player, sense_id)) {
                Some(self.results()[(player, sense_id)])
            } else {
                None
            },
    {
        match self.find_result(player, sense_id) {
            Some(i) => Some(self.result_rows[i]),
            None => None,
        }
    }

    /// Keeps a result under its player and sense, in place of the one kept
    /// before if there was one. Writing grants no lifetime.
    pub fn put_result(&mut self, player: Address, result: SenseResult)
        requires
            old(self).wf(),
        ensures
            final(self).wf(),
            final(self).sessions() == old(self).sessions(),
            final(self).results() == old(self).results().insert(
                (player, result.sense_id),
                StoredResult {
                    player,
                    result,
                    ttl: if old(self).results().contains_key((player, result.sense_id)) {
                        old(self).results()[(player, result.sense_id)].ttl
                    } else {
                        0
                    },
                },
            ),
    {
        let ttl: u32 = match self.find_result(player, result.sense_id) {
            Some(i) => self.result_rows[i].ttl,
            None => 0,
        };
        self.keep_result(StoredResult { player, result, ttl });
    }

    /// Extends the lifetime of a player's result for a sense: where it is
    /// below `threshold` it becomes `extend_to`. Without a result nothing happens.
    pub fn extend_result_ttl(
        &mut self,
        player: Address,
        sense_id: u32,
        threshold: u32,
        extend_to: u32,
    )
        requires
            old(self).wf(),
        ensures
            final(self).wf(),
            final(self).sessions() == old(self).sessions(),
            final(self).results() == if old(self).results().contains_key((player, sense_id)) {
                old(self).results().insert(
                    (player, sense_id),
                    StoredResult {
                        ttl: extended(
                            old(self).results()[(player, sense_id)].ttl,
                            threshold,
                            extend_to,
                        ),
                        ..old(self).results()[(player, sense_id)]
                    },
                )
            } else {
                old(self).results()
            },
    {
        match self.find_result(player, sense_id) {
            Some(i) => {
                let row = self.result_rows[i];
                if row.ttl < threshold {
                    self.keep_result(
                        StoredResult { player: row.player, result: row.result, ttl: extend_to },
                    );
                } else {
                    assert(self.results().insert((player, sense_id), row) =~= self.results());
                }
            },
            None => {},
        }
    }

    /// Every session kept, one row for each player.
    pub fn session_list(&self) -> (rows: Vec<StoredSession>)
        requires
            self.wf(),
        ensures
            lists_sessions(rows@, self.sessions()),
    {
        let mut rows: Vec<StoredSession> = Vec::new();
        let mut i: usize = 0;
        while i < self.session_rows.len()
            invariant
                i <= self.session_rows.len(),
                rows@ == self.session_rows@.take(i as int),
            decreases self.session_rows.len() - i,
        {
            rows.push(self.session_rows[i]);
            assert(self.session_rows@.take(i as int).push(self.session_rows@[i as int])
                =~= self.session_rows@.take(i + 1));
            i += 1;
        }
        assert(self.session_rows@.take(i as int) =~= self.session_rows@);
        rows
    }

    /// Every sense result kept, one row for each player and sense.
    pub fn result_list(&self) -> (rows: Vec<StoredResult>)
        requires
            self.wf(),
        ensures
            lists_results(rows@, self.results()),
    {
        let mut rows: Vec<StoredResult> = Vec::new();
        let mut i: usize = 0;
        while i < self.result_rows.len()
            invariant
                i <= self.result_rows.len(),
                rows@ == self.result_rows@.take(i as int),
            decreases self.result_rows.len() - i,
        {
            rows.push(self.result_rows[i]);
            assert(self.result_rows@.take(i as int).push(self.result_rows@[i as int])
                =~= self.result_rows@.take(i + 1));
            i += 1;
        }
        assert(self.result_rows@.take(i as int) =~= self.result_rows@);
        rows
    }
}

} // verus!
