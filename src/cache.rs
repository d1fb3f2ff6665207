use vstd::prelude::*;

verus! {

/// Number of seconds in one UTC calendar day.
pub const SECONDS_PER_DAY: u64 = 86400;

/// The UTC calendar day (days since the Unix epoch) that holds the given instant.
pub open spec fn day_of_spec(unix_seconds: u64) -> u64 {
    unix_seconds / SECONDS_PER_DAY
}

/// The day-key for an instant given in seconds since the Unix epoch.
pub fn utc_day(unix_seconds: u64) -> (r: u64)
    ensures
        r == day_of_spec(unix_seconds),
{
    unix_seconds / SECONDS_PER_DAY
}

/// The mathematical content of the cache: absent, or a day-key with its value.
pub type CacheModel = Option<(u64, Seq<char>)>;

/// What one fetch hands back, as a model: the value, or `None` when it failed.
pub type FetchModel = Option<Seq<char>>;

/// The entry is valid on `today` exactly when its day-key is `today`.
pub open spec fn is_fresh(m: CacheModel, today: u64) -> bool {
    match m {
        Some(e) => e.0 == today,
        None => false,
    }
}

/// The cache after a fetch made on `today`: a success overwrites the entry,
/// a failure leaves it as it was.
pub open spec fn store(m: CacheModel, today: u64, fetched: FetchModel) -> CacheModel {
    match fetched {
        Some(v) => Some((today, v)),
        None => m,
    }
}

/// The cached value of a present entry.
pub open spec fn cached_value(m: CacheModel) -> Seq<char> {
    match m {
        Some(e) => e.1,
        None => Seq::empty(),
    }
}

/// The effect of a queue of `get()` calls that the lock serializes.
/// `days[i]` is the day on which call `i` holds the lock; `outcomes` are the
/// results of the fetches in the order they are made (a missing one fails).
/// The result is the final cache, the number of fetches made, and each
/// call's reply (`None` for an upstream error).
pub open spec fn serve(m: CacheModel, days: Seq<u64>, outcomes: Seq<FetchModel>) -> (
    CacheModel,
    nat,
    Seq<FetchModel>,
)
    decreases days.len(),
{
    if days.len() == 0 {
        (m, 0, Seq::empty())
    } else if is_fresh(m, days[0]) {
        let rest = serve(m, days.drop_first(), outcomes);
        (rest.0, rest.1, seq![Some(cached_value(m))] + rest.2)
    } else {
        let o: FetchModel = if outcomes.len() > 0 { outcomes[0] } else { None };
        let rest = serve(store(m, days[0], o), days.drop_first(), outcomes.drop_first());
        (rest.0, rest.1 + 1, seq![o] + rest.2)
    }
}

/// Raised when the external fetch behind the cache did not succeed.
#[derive(Debug, Clone, Copy, PartialEq, Eq, Structural)]
pub enum UpstreamError {
    Unavailable,
}

/// The model of a reply or of a fetch result.
pub open spec fn result_model(r: Result<String, UpstreamError>) -> FetchModel {
    match r {
        Ok(s) => Some(s@),
        Err(_) => None,
    }
}

/// One cached value and the UTC day on which it was computed.
#[derive(Debug)]
pub struct CacheEntry {
    pub day: u64,
    pub value: String,
}

/// What a `get()` must do once it holds the lock.
#[derive(Debug)]
pub enum CacheStep {
    /// The entry is valid today: reply with this value, fetch nothing.
    Hit(String),
    /// The entry is stale or absent: fetch, then call `complete`.
    Fetch,
}

/// A single-slot cache keyed by the UTC day, recomputed lazily on access.
#[derive(Debug)]
pub struct RefreshingCache {
    entry: Option<CacheEntry>,
}

impl View for RefreshingCache {
    type V = CacheModel;

    closed spec fn view(&self) -> CacheModel {
        match self.entry {
            Some(e) => Some((e.day, e.value@)),
            None => None,
        }
    }
}

impl RefreshingCache {
    /// An empty cache, as at startup.
    pub fn new() -> (r: Self)
        ensures
            r@ == None::<(u64, Seq<char>)>,
    {
        RefreshingCache { entry: None }
    }

    /// Decides, on `today`, between replying from the cache and fetching.
    pub fn lookup(&self, today: u64) -> (r: CacheStep)
        ensures
            is_fresh(self@, today) <==> r is Hit,
            r matches CacheStep::Hit(v) ==> v@ == cached_value(self@),
    {
        match &self.entry {
            Some(e) => {
                if e.day == today {
                    CacheStep::Hit(e.value.clone())
                } else {
                    CacheStep::Fetch
                }
            },
            None => CacheStep::Fetch,
        }
    }

    /// Records the result of a fetch made on `today` and gives the reply:
    /// a success is stored under `today` and returned, a failure leaves the
    /// cache unchanged and is returned as an upstream error.
    pub fn complete(&mut self, today: u64, fetched: Result<String, UpstreamError>) -> (r: Result<
        String,
        UpstreamError,
    >)
        ensures
            final(self)@ == store(old(self)@, today, result_model(fetched)),
            result_model(r) == result_model(fetched),
            r is Err ==> r == Err::<String, UpstreamError>(UpstreamError::Unavailable),
    {
        match fetched {
            Ok(v) => {
                self.entry = Some(CacheEntry { day: today, value: v.clone() });
                Ok(v)
            },
            Err(_) => Err(UpstreamError::Unavailable),
        }
    }
}

/// Calls made on a day for which the entry is already valid fetch nothing
/// and all reply with the cached value.
pub proof fn lemma_fresh_calls_fetch_nothing(m: CacheModel, d: u64, days: Seq<u64>, outcomes: Seq<FetchModel>)
    requires
        is_fresh(m, d),
        forall|i: int| 0 <= i < days.len() ==> days[i] == d,
    ensures
        serve(m, days, outcomes).0 == m,
        serve(m, days, outcomes).1 == 0,
        serve(m, days, outcomes).2.len() == days.len(),
        forall|i: int| 0 <= i < days.len() ==> serve(m, days, outcomes).2[i] == Some(cached_value(m)),
    decreases days.len(),
{
    if days.len() > 0 {
        let tail = days.drop_first();
        assert forall|i: int| 0 <= i < tail.len() implies tail[i] == d by {
            assert(tail[i] == days[i + 1]);
        }
        lemma_fresh_calls_fetch_nothing(m, d, tail, outcomes);
        let rest = serve(m, tail, outcomes);
        assert forall|i: int| 0 <= i < days.len() implies serve(m, days, outcomes).2[i] == Some(cached_value(m)) by {
            if i > 0 {
                assert(serve(m, days, outcomes).2[i] == rest.2[i - 1]);
            }
        }
    }
}

/// Single flight: a queue of calls all made on a day for which the entry is
/// stale makes exactly one fetch, and when that fetch succeeds every call
/// replies with its value.
pub proof fn lemma_single_flight(m: CacheModel, d: u64, days: Seq<u64>, outcomes: Seq<FetchModel>)
    requires
        days.len() > 0,
        forall|i: int| 0 <= i < days.len() ==> days[i] == d,
        !is_fresh(m, d),
        outcomes.len() > 0,
        outcomes[0] is Some,
    ensures
        serve(m, days, outcomes).1 == 1,
        serve(m, days, outcomes).2.len() == days.len(),
        forall|i: int| 0 <= i < days.len() ==> serve(m, days, outcomes).2[i] == outcomes[0],
{
    let m2 = store(m, d, outcomes[0]);
    let tail = days.drop_first();
    assert forall|i: int| 0 <= i < tail.len() implies tail[i] == d by {
        assert(tail[i] == days[i + 1]);
    }
    lemma_fresh_calls_fetch_nothing(m2, d, tail, outcomes.drop_first());
    let rest = serve(m2, tail, outcomes.drop_first());
    assert forall|i: int| 0 <= i < days.len() implies serve(m, days, outcomes).2[i] == outcomes[0] by {
        if i > 0 {
            assert(serve(m, days, outcomes).2[i] == rest.2[i - 1]);
        }
    }
}

/// Day rollover: when the entry was computed no later than day `d1`, a call on
/// a later day `d2` after a call on `d1` makes exactly one more fetch than the
/// call on `d1` alone.
pub proof fn lemma_rollover_fetches_once(m: CacheModel, d1: u64, d2: u64, outcomes: Seq<FetchModel>)
    requires
        d1 < d2,
        m matches Some(e) ==> e.0 <= d1,
    ensures
        serve(m, seq![d1, d2], outcomes).1 == serve(m, seq![d1], outcomes).1 + 1,
{
    reveal_with_fuel(serve, 3);
    assert(seq![d1, d2].drop_first() =~= seq![d2]);
    assert(seq![d1].drop_first() =~= Seq::<u64>::empty());
    assert(seq![d2].drop_first() =~= Seq::<u64>::empty());
}

/// A failed fetch is not cached: on a cold cache, a failing fetch gives an
/// upstream error, and a second call on the same day fetches again.
pub proof fn lemma_failure_not_cached(d: u64, outcomes: Seq<FetchModel>)
    requires
        outcomes.len() > 0,
        outcomes[0] is None,
    ensures
        serve(None, seq![d, d], outcomes).2[0] is None,
        serve(None, seq![d, d], outcomes).1 == 2,
{
    reveal_with_fuel(serve, 3);
    assert(seq![d, d].drop_first() =~= seq![d]);
    assert(seq![d].drop_first() =~= Seq::<u64>::empty());
}

} // verus!
