use vstd::prelude::*;
use vstd::seq_lib::to_multiset_insert;
use crate::records::LeaderboardEntry;

verus! {

/// Scores never go down from one entry to the next.
pub open spec fn ascending(entries: Seq<LeaderboardEntry>) -> bool {
    forall|i: int, j: int|
        0 <= i <= j < entries.len() ==> entries[i].total_score <= entries[j].total_score
}

/// Where an entry with the given score goes in an ascending sequence:
/// behind every entry whose score is not above its own.
pub open spec fn rank_of(entries: Seq<LeaderboardEntry>, score: u64) -> int
    decreases entries.len(),
{
    if entries.len() == 0 {
        0
    } else if entries.last().total_score <= score {
        entries.len() as int
    } else {
        rank_of(entries.drop_last(), score)
    }
}

/// An ascending sequence with one more entry, put at its rank.
pub open spec fn placed(entries: Seq<LeaderboardEntry>, entry: LeaderboardEntry) -> Seq<
    LeaderboardEntry,
> {
    entries.insert(rank_of(entries, entry.total_score), entry)
}

/// The entries in ascending order of score; entries of equal score stay in
/// the order in which they were recorded.
pub open spec fn ranked(entries: Seq<LeaderboardEntry>) -> Seq<LeaderboardEntry>
    decreases entries.len(),
{
    if entries.len() == 0 {
        Seq::empty()
    } else {
        placed(ranked(entries.drop_last()), entries.last())
    }
}

/// A rank is a position in the sequence or just behind it; what stands
/// before it is not above the score, what stands from it on is.
pub proof fn rank_divides(entries: Seq<LeaderboardEntry>, score: u64)
    requires
        ascending(entries),
    ensures
        0 <= rank_of(entries, score) <= entries.len(),
        forall|i: int| 0 <= i < rank_of(entries, score) ==> entries[i].total_score <= score,
        forall|i: int|
            rank_of(entries, score) <= i < entries.len() ==> entries[i].total_score > score,
    decreases entries.len(),
{
    if entries.len() > 0 && entries.last().total_score > score {
        let front = entries.drop_last();
        rank_divides(front, score);
        assert forall|i: int| 0 <= i < rank_of(entries, score) implies entries[i].total_score
            <= score by {
            assert(entries[i] == front[i]);
        }
        assert forall|i: int| rank_of(entries, score) <= i < entries.len() implies entries[i]
            .total_score > score by {
            if i < front.len() {
                assert(entries[i] == front[i]);
            }
        }
    }
}

/// Putting an entry at its rank keeps an ascending sequence ascending.
pub proof fn placing_keeps_order(entries: Seq<LeaderboardEntry>, entry: LeaderboardEntry)
    requires
        ascending(entries),
    ensures
        ascending(placed(entries, entry)),
        placed(entries, entry).len() == entries.len() + 1,
        placed(entries, entry).to_multiset() == entries.to_multiset().insert(entry),
{
    rank_divides(entries, entry.total_score);
    to_multiset_insert(entries, rank_of(entries, entry.total_score), entry);
}

/// The ranking holds each recorded entry as often as it was recorded.
pub proof fn ranking_keeps_every_entry(entries: Seq<LeaderboardEntry>)
    ensures
        ranked(entries).len() == entries.len(),
        ranked(entries).to_multiset() == entries.to_multiset(),
        ascending(ranked(entries)),
    decreases entries.len(),
{
    broadcast use vstd::seq_lib::to_multiset_build;

    if entries.len() == 0 {
        assert(entries =~= Seq::<LeaderboardEntry>::empty());
    } else {
        let front = entries.drop_last();
        ranking_keeps_every_entry(front);
        placing_keeps_order(ranked(front), entries.last());
        assert(front.push(entries.last()) =~= entries);
    }
}

/// The ranking is in non-decreasing order of score, in whatever order the
/// entries were recorded.
pub proof fn ranking_is_ascending(entries: Seq<LeaderboardEntry>)
    ensures
        ascending(ranked(entries)),
{
    ranking_keeps_every_entry(entries);
}

/// Entries already in ascending order are ranked as they stand.
pub proof fn ranking_keeps_ascending_input(entries: Seq<LeaderboardEntry>)
    requires
        ascending(entries),
    ensures
        ranked(entries) == entries,
    decreases entries.len(),
{
    if entries.len() > 0 {
        let front = entries.drop_last();
        assert forall|i: int, j: int| 0 <= i <= j < front.len() implies front[i].total_score
            <= front[j].total_score by {
            assert(front[i] == entries[i] && front[j] == entries[j]);
        }
        ranking_keeps_ascending_input(front);
        let score = entries.last().total_score;
        if front.len() > 0 {
            assert(front.last() == entries[front.len() - 1]);
        }
        assert(rank_of(front, score) == front.len());
        assert(front.insert(front.len() as int, entries.last()) =~= entries);
    } else {
        assert(ranked(entries) =~= entries);
    }
}

/// Every winning attempt, in the order in which it was recorded.
pub struct Leaderboard {
    entries: Vec<LeaderboardEntry>,
}

impl View for Leaderboard {
    type V = Seq<LeaderboardEntry>;

    closed spec fn view(&self) -> Seq<LeaderboardEntry> {
        self.entries@
    }
}

impl Leaderboard {
    /// A leaderboard without entries.
    pub fn new() -> (board: Leaderboard)
        ensures
            board@ == Seq::<LeaderboardEntry>::empty(),
    {
        Leaderboard { entries: Vec::new() }
    }

    /// How many entries were recorded.
    pub fn len(&self) -> (n: usize)
        ensures
            n == self@.len(),
    {
        self.entries.len()
    }

    /// Adds an entry behind all others. Nothing is filtered, merged or dropped.
    pub fn record(&mut self, entry: LeaderboardEntry)
        ensures
            final(self)@ == old(self)@.push(entry),
    {
        self.entries.push(entry);
    }

    /// The entries in the order in which they were recorded.
    pub fn recorded(&self) -> (entries: Vec<LeaderboardEntry>)
        ensures
            entries@ == self@,
    {
        let mut entries: Vec<LeaderboardEntry> = Vec::new();
        let mut i: usize = 0;
        while i < self.entries.len()
            invariant
                i <= self.entries.len(),
                entries@ == self.entries@.take(i as int),
            decreases self.entries.len() - i,
        {
            entries.push(self.entries[i]);
            assert(self.entries@.take(i as int).push(self.entries@[i as int])
                =~= self.entries@.take(i + 1));
            i += 1;
        }
        assert(self.entries@.take(i as int) =~= self.entries@);
        entries
    }

    /// The entries in ascending order of score, lower being better. Entries
    /// of equal score come in the order in which they were recorded. The
    /// leaderboard itself is left as it is.
    pub fn read(&self) -> (sorted: Vec<LeaderboardEntry>)
        ensures
            sorted@ == ranked(self@),
            ascending(sorted@),
            sorted@.to_multiset() == self@.to_multiset(),
    {
        let mut sorted: Vec<LeaderboardEntry> = Vec::new();
        let mut done: usize = 0;
        while done < self.entries.len()
            invariant
                done <= self.entries.len(),
                sorted@ == ranked(self.entries@.take(done as int)),
            decreases self.entries.len() - done,
        {
            let entry = self.entries[done];
            proof {
                ranking_keeps_every_entry(self.entries@.take(done as int));
            }
            let mut at: usize = sorted.len();
            assert(sorted@.take(at as int) =~= sorted@);
            while at > 0 && sorted[at - 1].total_score > entry.total_score
                invariant
                    at <= sorted.len(),
                    rank_of(sorted@, entry.total_score) == rank_of(
                        sorted@.take(at as int),
                        entry.total_score,
                    ),
                decreases at,
            {
                assert(sorted@.take(at as int).drop_last() =~= sorted@.take(at - 1));
                at -= 1;
            }
            assert(rank_of(sorted@, entry.total_score) == at);
            sorted.insert(at, entry);
            proof {
                let next = self.entries@.take(done + 1);
                assert(next.drop_last() =~= self.entries@.take(done as int));
                assert(next.last() == entry);
            }
            done += 1;
        }
        proof {
            assert(self.entries@.take(done as int) =~= self.entries@);
            ranking_keeps_every_entry(self@);
        }
        sorted
    }
}

} // verus!
