use vstd::prelude::*;

verus! {

/// Seconds that a cached URL stays fresh.
pub const DEFAULT_TTL: u64 = 3600;

/// The independent upstream sources; each has its own cache entry.
#[derive(PartialEq, Eq, Structural, Debug, Clone, Copy)]
pub enum Source {
    Astronomy,
    Cats,
}

/// A stored value and the clock reading, in seconds, at which it was stored.
pub struct CacheEntry {
    pub value: String,
    pub created_at: u64,
}

/// One key's state: the last stored entry, and whether a fetch is under way.
pub struct Slot {
    pub entry: Option<CacheEntry>,
    pub in_flight: bool,
}

/// What a caller is to do on a lookup.
pub enum Lookup {
    /// Use this fresh value.
    Hit(String),
    /// Run the producer, then report with `complete` or `abandon`.
    Fetch,
    /// Another caller's fetch is under way: look up again once it ends.
    Wait,
}

/// A time-boxed, single-flight cache of one value per source. The clock is
/// the caller's: every operation takes the current reading in seconds.
pub struct TtlCache {
    pub ttl: u64,
    pub astronomy: Slot,
    pub cats: Slot,
}

/// `entry` was stored less than `ttl` seconds before `now`.
pub open spec fn is_fresh(entry: CacheEntry, ttl: u64, now: u64) -> bool {
    entry.created_at <= now && now - entry.created_at < ttl
}

/// The answer to a lookup at `now` on a slot.
pub open spec fn lookup_result(s: Slot, ttl: u64, now: u64) -> Lookup {
    match s.entry {
        Some(e) if is_fresh(e, ttl, now) => Lookup::Hit(e.value),
        _ => if s.in_flight {
            Lookup::Wait
        } else {
            Lookup::Fetch
        },
    }
}

/// A slot after a lookup at `now`: a lookup that asks for a fetch marks it.
pub open spec fn slot_after_lookup(s: Slot, ttl: u64, now: u64) -> Slot {
    if lookup_result(s, ttl, now) is Fetch {
        Slot { entry: s.entry, in_flight: true }
    } else {
        s
    }
}

/// A slot after a fetch produced `value` at `now`.
pub open spec fn slot_after_complete(value: String, now: u64) -> Slot {
    Slot { entry: Some(CacheEntry { value, created_at: now }), in_flight: false }
}

/// A slot after a fetch failed: the previous entry stays, nothing is stored.
pub open spec fn slot_after_abandon(s: Slot) -> Slot {
    Slot { entry: s.entry, in_flight: false }
}

impl TtlCache {
    /// The slot of `key`.
    pub open spec fn slot(&self, key: Source) -> Slot {
        match key {
            Source::Astronomy => self.astronomy,
            Source::Cats => self.cats,
        }
    }

    /// This cache with the slot of `key` replaced by `s`.
    pub open spec fn with_slot(self, key: Source, s: Slot) -> TtlCache {
        match key {
            Source::Astronomy => TtlCache { astronomy: s, ..self },
            Source::Cats => TtlCache { cats: s, ..self },
        }
    }

    /// An empty cache whose entries stay fresh for `ttl` seconds.
    pub fn new(ttl: u64) -> (r: TtlCache)
        ensures
            r.ttl == ttl,
            r.astronomy.entry is None && !r.astronomy.in_flight,
            r.cats.entry is None && !r.cats.in_flight,
    {
        TtlCache {
            ttl,
            astronomy: Slot { entry: None, in_flight: false },
            cats: Slot { entry: None, in_flight: false },
        }
    }

    fn slot_mut(&mut self, key: Source) -> (r: &mut Slot)
        ensures
            *r == old(self).slot(key),
            *final(self) == old(self).with_slot(key, *final(r)),
    {
        match key {
            Source::Astronomy => &mut self.astronomy,
            Source::Cats => &mut self.cats,
        }
    }

    /// Looks `key` up at clock reading `now`: a fresh entry is a hit; else, with
    /// a fetch under way, wait; else the caller is to fetch, and the slot is
    /// marked so that no other caller fetches meanwhile.
    pub fn lookup(&mut self, key: Source, now: u64) -> (r: Lookup)
        ensures
            r == lookup_result(old(self).slot(key), old(self).ttl, now),
            *final(self) == old(self).with_slot(
                key,
                slot_after_lookup(old(self).slot(key), old(self).ttl, now),
            ),
    {
        let ttl = self.ttl;
        let s = self.slot_mut(key);
        if let Some(e) = &s.entry {
            if e.created_at <= now && now - e.created_at < ttl {
                return Lookup::Hit(e.value.clone());
            }
        }
        if s.in_flight {
            Lookup::Wait
        } else {
            s.in_flight = true;
            Lookup::Fetch
        }
    }

    /// Stores the value that a fetch for `key` produced at clock reading `now`,
    /// replacing any earlier entry, and ends the fetch.
    pub fn complete(&mut self, key: Source, value: String, now: u64)
        ensures
            *final(self) == old(self).with_slot(key, slot_after_complete(value, now)),
    {
        let s = self.slot_mut(key);
        *s = Slot { entry: Some(CacheEntry { value, created_at: now }), in_flight: false };
    }

    /// Ends a failed fetch for `key` without storing anything.
    pub fn abandon(&mut self, key: Source)
        ensures
            *final(self) == old(self).with_slot(key, slot_after_abandon(old(self).slot(key))),
    {
        let s = self.slot_mut(key);
        s.in_flight = false;
    }

    /// Ends the fetch for `key` that asked for it: a produced value is stored
    /// at clock reading `now`; a failed fetch stores nothing.
    pub fn settle(&mut self, key: Source, outcome: Option<String>, now: u64)
        ensures
            *final(self) == old(self).with_slot(
                key,
                match outcome {
                    Some(value) => slot_after_complete(value, now),
                    None => slot_after_abandon(old(self).slot(key)),
                },
            ),
    {
        match outcome {
            Some(value) => self.complete(key, value, now),
            None => self.abandon(key),
        }
    }
}

/// A value stored at `stored` is served without a new fetch at every reading
/// within the time to live.
pub proof fn lemma_hit_within_ttl(value: String, stored: u64, now: u64, ttl: u64)
    requires
        stored <= now,
        now - stored < ttl,
    ensures
        lookup_result(slot_after_complete(value, stored), ttl, now) == Lookup::Hit(value),
        slot_after_lookup(slot_after_complete(value, stored), ttl, now) == slot_after_complete(
            value,
            stored,
        ),
{
}

/// Once the time to live has elapsed, a lookup asks for a new fetch.
pub proof fn lemma_fetch_after_ttl(value: String, stored: u64, now: u64, ttl: u64)
    requires
        now >= stored + ttl,
    ensures
        lookup_result(slot_after_complete(value, stored), ttl, now) == Lookup::Fetch,
{
}

/// While a fetch is under way no lookup asks for another: every lookup that
/// follows one that asked for a fetch, at any reading, is a hit or a wait.
pub proof fn lemma_single_flight(s: Slot, ttl: u64, now: u64, later: u64)
    requires
        lookup_result(s, ttl, now) is Fetch,
    ensures
        !(lookup_result(slot_after_lookup(s, ttl, now), ttl, later) is Fetch),
        slot_after_lookup(slot_after_lookup(s, ttl, now), ttl, later) == slot_after_lookup(
            s,
            ttl,
            now,
        ),
{
}

/// A slot after lookups at each of the readings in `times`, in order.
pub open spec fn slot_after_lookups(s: Slot, ttl: u64, times: Seq<u64>) -> Slot
    decreases times.len(),
{
    if times.len() == 0 {
        s
    } else {
        slot_after_lookups(slot_after_lookup(s, ttl, times[0]), ttl, times.drop_first())
    }
}

/// With a fetch under way, any number of lookups at any readings leave the
/// slot as it is, and none of them asks for a fetch.
pub proof fn lemma_single_flight_many(s: Slot, ttl: u64, times: Seq<u64>)
    requires
        s.in_flight,
    ensures
        slot_after_lookups(s, ttl, times) == s,
        forall|i: int| 0 <= i < times.len() ==> !(lookup_result(s, ttl, #[trigger] times[i]) is Fetch),
    decreases times.len(),
{
    if times.len() > 0 {
        lemma_single_flight_many(s, ttl, times.drop_first());
        assert forall|i: int| 0 <= i < times.len() implies !(lookup_result(
            s,
            ttl,
            #[trigger] times[i],
        ) is Fetch) by {
            if i > 0 {
                assert(times[i] == times.drop_first()[i - 1]);
            }
        }
    }
}

/// Whatever happens to one source's slot leaves every other source's slot,
/// and so its entry and the clock reading it was stored at, as it was.
pub proof fn lemma_key_isolation(c: TtlCache, key: Source, other: Source, s: Slot)
    requires
        key != other,
    ensures
        c.with_slot(key, s).slot(other) == c.slot(other),
        c.with_slot(key, s).ttl == c.ttl,
{
}

} // verus!
