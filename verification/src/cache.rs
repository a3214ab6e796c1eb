//! The scrape cache: it holds the last harvest and the cursor, and decides for
//! each scrape whether the harvest is served as it is, whether the scrape
//! waits for a harvest that is under way, or whether it starts one. At most
//! one harvest is under way at any time.

use crate::cursor::Cursor;
use crate::data::RepositoriesWithCommits;
use crate::error::HarvestError;
use vstd::prelude::*;

verus! {

/// What a scrape is told to do.
#[derive(Debug, Clone, Copy, PartialEq, Eq, Structural)]
pub enum Decision {
    /// Answer from the cache as it stands: the last harvest, or "no data" if
    /// there is none.
    Serve,
    /// A harvest is under way: wait for its outcome, then answer from the
    /// cache.
    Wait,
    /// Run a harvest of what was committed since `since`, and report its
    /// outcome to the cache.
    Refresh { since: Cursor },
}

/// What the cache sees: a scrape arriving, or the outcome of the harvest that
/// a scrape was told to run.
pub enum CacheEvent {
    /// A scrape at `now` on the monotonic clock and `wall_clock` in UTC,
    /// accepting a harvest younger than `ttl`.
    Scrape { now: u64, wall_clock: Cursor, ttl: u64 },
    /// The harvest ended at `now` on the monotonic clock.
    Outcome { outcome: Result<RepositoriesWithCommits, HarvestError>, now: u64 },
}

/// The cache as contracts speak of it.
pub struct CacheState {
    /// The last harvest that succeeded.
    pub snapshot: Option<RepositoriesWithCommits>,
    /// When that harvest was installed, on the monotonic clock.
    pub fetched_at: Option<u64>,
    /// When the last harvest ended, whether it succeeded or failed.
    pub last_attempt: Option<u64>,
    /// Where the next harvest starts.
    pub cursor: Cursor,
    /// The wall-clock start of the harvest under way, if there is one.
    pub in_flight: Option<Cursor>,
}

impl CacheState {
    /// The state before the first scrape.
    pub open spec fn initial(cursor: Cursor) -> CacheState {
        CacheState {
            snapshot: None,
            fetched_at: None,
            last_attempt: None,
            cursor,
            in_flight: None,
        }
    }

    /// A harvest and its time of installation come and go together, and a
    /// harvest that was installed is an attempt that ended.
    pub open spec fn well_formed(self) -> bool {
        &&& self.snapshot.is_some() == self.fetched_at.is_some()
        &&& self.fetched_at.is_some() ==> self.last_attempt.is_some()
    }

    /// No harvest is due at `now`: the harvest held is younger than `ttl`, or
    /// the last attempt ended less than `ttl` ago.
    pub open spec fn fresh(self, now: u64, ttl: u64) -> bool {
        ||| self.snapshot.is_some() && self.fetched_at.is_some() && now
            - self.fetched_at.unwrap() < ttl
        ||| self.last_attempt.is_some() && now - self.last_attempt.unwrap() < ttl
    }

    /// What a scrape at `now` is told.
    pub open spec fn decide(self, now: u64, ttl: u64) -> Decision {
        if self.fresh(now, ttl) {
            Decision::Serve
        } else if self.in_flight.is_some() {
            Decision::Wait
        } else {
            Decision::Refresh { since: self.cursor }
        }
    }

    /// The state after a scrape: only a scrape that is told to refresh
    /// changes it, by recording the harvest's start.
    pub open spec fn after_request(self, now: u64, wall_clock: Cursor, ttl: u64) -> CacheState {
        if self.decide(now, ttl) is Refresh {
            CacheState { in_flight: Some(wall_clock), ..self }
        } else {
            self
        }
    }

    /// The state after the harvest under way has ended. Success installs the
    /// harvest and moves the cursor to the harvest's start, never back;
    /// failure keeps harvest and cursor. An outcome that no harvest under
    /// way accounts for changes nothing.
    pub open spec fn after_outcome(
        self,
        outcome: Result<RepositoriesWithCommits, HarvestError>,
        now: u64,
    ) -> CacheState {
        match self.in_flight {
            None => self,
            Some(started) => match outcome {
                Ok(snapshot) => CacheState {
                    snapshot: Some(snapshot),
                    fetched_at: Some(now),
                    last_attempt: Some(now),
                    cursor: self.cursor.spec_latest(started),
                    in_flight: None,
                },
                Err(_) => CacheState { last_attempt: Some(now), in_flight: None, ..self },
            },
        }
    }

    /// The state after one event.
    pub open spec fn after_event(self, event: CacheEvent) -> CacheState {
        match event {
            CacheEvent::Scrape { now, wall_clock, ttl } => self.after_request(now, wall_clock, ttl),
            CacheEvent::Outcome { outcome, now } => self.after_outcome(outcome, now),
        }
    }

    /// The state after a sequence of events, the first event first.
    pub open spec fn after_events(self, events: Seq<CacheEvent>) -> CacheState
        decreases events.len(),
    {
        if events.len() == 0 {
            self
        } else {
            self.after_events(events.drop_last()).after_event(events.last())
        }
    }

    /// How many events of the sequence are scrapes that are told to refresh.
    pub open spec fn refreshes_started(self, events: Seq<CacheEvent>) -> nat
        decreases events.len(),
    {
        if events.len() == 0 {
            0
        } else {
            let before = self.after_events(events.drop_last());
            let started: nat = match events.last() {
                CacheEvent::Scrape { now, wall_clock, ttl } => if before.decide(now, ttl) is Refresh {
                    1
                } else {
                    0
                },
                CacheEvent::Outcome { .. } => 0,
            };
            self.refreshes_started(events.drop_last()) + started
        }
    }
}

/// The scrape cache.
pub struct ScrapeCache {
    snapshot: Option<RepositoriesWithCommits>,
    fetched_at: Option<u64>,
    last_attempt: Option<u64>,
    cursor: Cursor,
    in_flight: Option<Cursor>,
}

impl View for ScrapeCache {
    type V = CacheState;

    closed spec fn view(&self) -> CacheState {
        CacheState {
            snapshot: self.snapshot,
            fetched_at: self.fetched_at,
            last_attempt: self.last_attempt,
            cursor: self.cursor,
            in_flight: self.in_flight,
        }
    }
}

/// Whether `now` is less than `ttl` after `since`.
fn younger_than(since: Option<u64>, now: u64, ttl: u64) -> (result: bool)
    ensures
        result == (since.is_some() && now - since.unwrap() < ttl),
{
    match since {
        Some(at) => now < at || now - at < ttl,
        None => false,
    }
}

impl ScrapeCache {
    /// An empty cache whose first harvest starts at `cursor`.
    pub fn new(cursor: Cursor) -> (result: ScrapeCache)
        ensures
            result@ == CacheState::initial(cursor),
            result@.well_formed(),
    {
        ScrapeCache { snapshot: None, fetched_at: None, last_attempt: None, cursor, in_flight: None }
    }

    /// An empty cache whose first harvest takes the whole history, or `None`
    /// where the calendar has no such instant.
    pub fn starting_at_epoch() -> (result: Option<ScrapeCache>)
        ensures
            match crate::cursor::utc_timestamp(2007, 1, 1, 1, 1, 1) {
                Some(seconds) => result.is_some() && result.unwrap()@ == CacheState::initial(
                    Cursor { seconds },
                ),
                None => result.is_none(),
            },
    {
        match Cursor::epoch() {
            Some(cursor) => Some(ScrapeCache::new(cursor)),
            None => None,
        }
    }

    /// Decides what a scrape at `now` does. A scrape that finds the cache
    /// fresh is served and starts nothing; one that finds a harvest under
    /// way waits; otherwise it becomes the refresher, and the cache records
    /// that a harvest is under way since `wall_clock`.
    pub fn get_or_refresh(&mut self, now: u64, wall_clock: Cursor, ttl: u64) -> (result: Decision)
        ensures
            result == old(self)@.decide(now, ttl),
            final(self)@ == old(self)@.after_request(now, wall_clock, ttl),
            old(self)@.fresh(now, ttl) ==> result == Decision::Serve && final(self)@ == old(self)@,
            old(self)@.well_formed() ==> final(self)@.well_formed(),
    {
        let fresh = (self.snapshot.is_some() && younger_than(self.fetched_at, now, ttl))
            || younger_than(self.last_attempt, now, ttl);
        if fresh {
            Decision::Serve
        } else if self.in_flight.is_some() {
            Decision::Wait
        } else {
            self.in_flight = Some(wall_clock);
            Decision::Refresh { since: self.cursor }
        }
    }

    /// Takes the outcome of the harvest under way, at `now`. Returns whether
    /// a new harvest was installed. A failure keeps the harvest held before
    /// and the cursor, so that the next harvest covers the same interval
    /// again.
    pub fn complete_refresh(
        &mut self,
        outcome: Result<RepositoriesWithCommits, HarvestError>,
        now: u64,
    ) -> (installed: bool)
        ensures
            final(self)@ == old(self)@.after_outcome(outcome, now),
            installed == (old(self)@.in_flight.is_some() && outcome.is_ok()),
            final(self)@.in_flight.is_none(),
            final(self)@.cursor.seconds >= old(self)@.cursor.seconds,
            !installed ==> final(self)@.snapshot == old(self)@.snapshot && final(self)@.cursor
                == old(self)@.cursor,
            old(self)@.well_formed() ==> final(self)@.well_formed(),
    {
        match self.in_flight {
            None => false,
            Some(started) => {
                self.in_flight = None;
                self.last_attempt = Some(now);
                match outcome {
                    Ok(snapshot) => {
                        self.snapshot = Some(snapshot);
                        self.fetched_at = Some(now);
                        self.cursor = self.cursor.latest(started);
                        true
                    },
                    Err(_) => false,
                }
            },
        }
    }

    /// The harvest held, or `None` for "no data yet".
    pub fn snapshot(&self) -> (result: Option<&RepositoriesWithCommits>)
        ensures
            result.is_some() == self@.snapshot.is_some(),
            result.is_some() ==> *result.unwrap() == self@.snapshot.unwrap(),
    {
        self.snapshot.as_ref()
    }

    /// Where the next harvest starts.
    pub fn cursor(&self) -> (result: Cursor)
        ensures
            result == self@.cursor,
    {
        self.cursor
    }

    /// Whether a harvest is under way.
    pub fn refresh_in_progress(&self) -> (result: bool)
        ensures
            result == self@.in_flight.is_some(),
    {
        self.in_flight.is_some()
    }

    /// When the last harvest ended, whether it succeeded or failed.
    pub fn last_attempt(&self) -> (result: Option<u64>)
        ensures
            result == self@.last_attempt,
    {
        self.last_attempt
    }

    /// When the harvest held was installed, on the monotonic clock.
    pub fn fetched_at(&self) -> (result: Option<u64>)
        ensures
            result == self@.fetched_at,
    {
        self.fetched_at
    }
}

/// A scrape that finds the cache fresh is served and starts no harvest,
/// whatever else the cache holds.
pub proof fn lemma_fresh_scrape_starts_nothing(
    state: CacheState,
    now: u64,
    wall_clock: Cursor,
    ttl: u64,
)
    requires
        state.fresh(now, ttl),
    ensures
        state.decide(now, ttl) == Decision::Serve,
        state.after_request(now, wall_clock, ttl) == state,
        state.refreshes_started(seq![CacheEvent::Scrape { now, wall_clock, ttl }]) == 0,
{
    let events = seq![CacheEvent::Scrape { now, wall_clock, ttl }];
    assert(events.drop_last() =~= Seq::<CacheEvent>::empty());
    assert(state.after_events(events.drop_last()) == state);
    assert(state.refreshes_started(events.drop_last()) == 0);
}

/// Between two outcomes at most one scrape is told to refresh: however many
/// scrapes arrive, and whenever, they start at most one harvest, and none
/// where one is under way already. Scrapes change nothing in the cache but
/// the mark of the harvest under way.
pub proof fn lemma_single_flight(state: CacheState, events: Seq<CacheEvent>)
    requires
        forall|i: int| 0 <= i < events.len() ==> events[i] is Scrape,
    ensures
        state.refreshes_started(events) <= 1,
        state.in_flight.is_some() ==> state.refreshes_started(events) == 0,
        state.in_flight.is_some() ==> state.after_events(events) == state,
        state.refreshes_started(events) == 0 ==> state.after_events(events) == state,
        state.refreshes_started(events) == 1 ==> state.after_events(events).in_flight.is_some(),
        state.after_events(events).snapshot == state.snapshot,
        state.after_events(events).fetched_at == state.fetched_at,
        state.after_events(events).last_attempt == state.last_attempt,
        state.after_events(events).cursor == state.cursor,
    decreases events.len(),
{
    if events.len() > 0 {
        lemma_single_flight(state, events.drop_last());
    }
}

/// Single flight: scrapes that all find the cache expired, with no harvest
/// under way when the first arrives, start exactly one harvest. The first is
/// the refresher, every later one waits, and the cache is as the first left
/// it, so that all of them read the one outcome of that harvest.
pub proof fn lemma_expired_scrapes_share_one_refresh(state: CacheState, events: Seq<CacheEvent>)
    requires
        state.in_flight.is_none(),
        events.len() > 0,
        forall|i: int|
            0 <= i < events.len() ==> events[i] is Scrape && !state.fresh(
                events[i]->Scrape_now,
                events[i]->Scrape_ttl,
            ),
    ensures
        state.refreshes_started(events) == 1,
        state.decide(events[0]->Scrape_now, events[0]->Scrape_ttl) == (Decision::Refresh {
            since: state.cursor,
        }),
        state.after_events(events) == state.after_event(events[0]),
        forall|i: int|
            0 < i < events.len() ==> state.after_events(events.take(i)).decide(
                events[i]->Scrape_now,
                events[i]->Scrape_ttl,
            ) == Decision::Wait,
    decreases events.len(),
{
    let first = events[0];
    if events.len() == 1 {
        assert(events.drop_last() =~= Seq::<CacheEvent>::empty());
        assert(state.after_events(events.drop_last()) == state);
        assert(state.refreshes_started(events.drop_last()) == 0);
    } else {
        let earlier = events.drop_last();
        lemma_expired_scrapes_share_one_refresh(state, earlier);
        assert(earlier[0] == first);
        assert forall|i: int| 0 < i < events.len() implies state.after_events(
            events.take(i),
        ).decide(events[i]->Scrape_now, events[i]->Scrape_ttl) == Decision::Wait by {
            if i < earlier.len() {
                assert(events.take(i) =~= earlier.take(i));
                assert(events[i] == earlier[i]);
            } else {
                assert(events.take(i) =~= earlier);
            }
        }
    }
}

/// Every scrape of such a burst reads the same outcome: once the one harvest
/// has ended, the cache is as if the refresher alone had scraped, and it
/// holds the new harvest if the harvest succeeded and the harvest held
/// before if it failed.
pub proof fn lemma_waiters_read_one_outcome(
    state: CacheState,
    events: Seq<CacheEvent>,
    outcome: Result<RepositoriesWithCommits, HarvestError>,
    now: u64,
)
    requires
        state.in_flight.is_none(),
        events.len() > 0,
        forall|i: int|
            0 <= i < events.len() ==> events[i] is Scrape && !state.fresh(
                events[i]->Scrape_now,
                events[i]->Scrape_ttl,
            ),
    ensures
        state.after_events(events.push(CacheEvent::Outcome { outcome, now })) == state.after_event(
            events[0],
        ).after_outcome(outcome, now),
        state.refreshes_started(events.push(CacheEvent::Outcome { outcome, now })) == 1,
        state.after_events(events.push(CacheEvent::Outcome { outcome, now })).in_flight.is_none(),
        state.after_events(events.push(CacheEvent::Outcome { outcome, now })).snapshot == (
        match outcome {
            Ok(snapshot) => Some(snapshot),
            Err(_) => state.snapshot,
        }),
{
    let all = events.push(CacheEvent::Outcome { outcome, now });
    assert(all.drop_last() =~= events);
    lemma_expired_scrapes_share_one_refresh(state, events);
}

/// The cursor never moves back: along any sequence of scrapes and outcomes,
/// the cursor after the first `j` events is no earlier than the cursor after
/// the first `i <= j`. So every harvest starts from a cursor no earlier than
/// the one before it did.
pub proof fn lemma_cursor_never_moves_back(
    state: CacheState,
    events: Seq<CacheEvent>,
    i: int,
    j: int,
)
    requires
        0 <= i <= j <= events.len(),
    ensures
        state.after_events(events.take(i)).cursor.seconds <= state.after_events(
            events.take(j),
        ).cursor.seconds,
    decreases j - i,
{
    if i < j {
        lemma_cursor_never_moves_back(state, events, i, j - 1);
        assert(events.take(j).drop_last() =~= events.take(j - 1));
    }
}

/// A harvest that fails leaves the cursor and the harvest held as they were,
/// and a scrape less than `ttl` after the failure is served from the cache
/// without a new attempt.
pub proof fn lemma_failed_refresh_keeps_harvest(
    state: CacheState,
    error: HarvestError,
    now: u64,
    later: u64,
    ttl: u64,
)
    ensures
        state.after_outcome(Err(error), now).cursor == state.cursor,
        state.after_outcome(Err(error), now).snapshot == state.snapshot,
        state.after_outcome(Err(error), now).fetched_at == state.fetched_at,
        state.in_flight.is_some() && later - now < ttl ==> state.after_outcome(
            Err(error),
            now,
        ).decide(later, ttl) == Decision::Serve,
{
}

/// A harvest that succeeds is what the cache holds afterwards, and the next
/// harvest starts no earlier than this one's start and no earlier than the
/// cursor before.
pub proof fn lemma_successful_refresh_installs(
    state: CacheState,
    snapshot: RepositoriesWithCommits,
    now: u64,
)
    requires
        state.in_flight.is_some(),
    ensures
        state.after_outcome(Ok(snapshot), now).snapshot == Some(snapshot),
        state.after_outcome(Ok(snapshot), now).fetched_at == Some(now),
        state.after_outcome(Ok(snapshot), now).cursor.seconds >= state.cursor.seconds,
        state.after_outcome(Ok(snapshot), now).cursor.seconds >= state.in_flight.unwrap().seconds,
        state.after_outcome(Ok(snapshot), now).in_flight.is_none(),
{
}

} // verus!
