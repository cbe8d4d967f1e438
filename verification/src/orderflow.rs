//! Binance USDT-perpetual orderflow request rules: symbol canonicalisation,
//! supported kline intervals and the delta-cache purge schedule.
use vstd::prelude::*;

use crate::text::{
    all_ascii_alnum, all_ascii_alnum_exec, chars_of, ends_with, ends_with_str,
    push_str, string_of, trim, trim_chars, trim_end_matches, trim_end_matches_str, upper,
    upper_chars,
};

verus! {

/// Symbol used when the request names none.
pub const DEFAULT_SYMBOL: &'static str = "BTCUSDT";

/// Delta-cache rows older than 21 days are purged.
pub const DELTA_CACHE_RETENTION_MS: i64 = 1_814_400_000;

/// The delta cache is purged at most once an hour.
pub const DELTA_CACHE_PURGE_INTERVAL_MS: i64 = 3_600_000;

/// The symbol a request resolves to before it is checked: upper-cased,
/// a `-PERP` or `PERP` suffix turned into `USDT`, `USDT` appended when
/// missing.
pub open spec fn candidate_symbol(raw: Seq<char>) -> Seq<char> {
    let r = upper(trim(raw));
    if ends_with(r, "-PERP"@) {
        trim_end_matches(r, "-PERP"@) + "USDT"@
    } else if ends_with(r, "PERP"@) {
        trim_end_matches(r, "PERP"@) + "USDT"@
    } else if ends_with(r, "USDT"@) {
        r
    } else {
        r + "USDT"@
    }
}

/// A Binance USDT perpetual symbol: 7 to 20 ASCII letters and digits that
/// end in `USDT`.
pub open spec fn valid_perp_symbol(s: Seq<char>) -> bool {
    7 <= s.len() <= 20 && ends_with(s, "USDT"@) && all_ascii_alnum(s)
}

/// Resolves the requested symbol (default `BTCUSDT`) to a Binance USDT
/// perpetual symbol, or explains why it is not one.
pub fn canonical_symbol(raw: Option<&str>) -> (r: Result<String, String>)
    ensures
        ({
            let s = candidate_symbol(
                match raw {
                    Some(x) => x@,
                    None => DEFAULT_SYMBOL@,
                },
            );
            match r {
                Ok(v) => valid_perp_symbol(s) && v@ == s,
                Err(e) => !valid_perp_symbol(s) && e@
                    == "symbol must be a Binance USDT perpetual symbol"@,
            }
        }),
{
    let input = match raw {
        Some(x) => chars_of(x),
        None => chars_of(DEFAULT_SYMBOL),
    };
    let r = upper_chars(&trim_chars(&input));
    let symbol = if ends_with_str(&r, "-PERP") {
        let mut base = trim_end_matches_str(&r, "-PERP");
        push_str(&mut base, "USDT");
        base
    } else if ends_with_str(&r, "PERP") {
        let mut base = trim_end_matches_str(&r, "PERP");
        push_str(&mut base, "USDT");
        base
    } else if ends_with_str(&r, "USDT") {
        r
    } else {
        let mut base = r;
        push_str(&mut base, "USDT");
        base
    };
    if symbol.len() < 7 || symbol.len() > 20 || !ends_with_str(&symbol, "USDT")
        || !all_ascii_alnum_exec(&symbol) {
        return Err(String::from_str("symbol must be a Binance USDT perpetual symbol"));
    }
    Ok(string_of(&symbol))
}

pub open spec fn interval_ms_of(interval: Seq<char>) -> Option<i64> {
    if interval == "1m"@ {
        Some(60_000i64)
    } else if interval == "3m"@ {
        Some(180_000i64)
    } else if interval == "5m"@ {
        Some(300_000i64)
    } else if interval == "15m"@ {
        Some(900_000i64)
    } else if interval == "30m"@ {
        Some(1_800_000i64)
    } else if interval == "1h"@ {
        Some(3_600_000i64)
    } else if interval == "2h"@ {
        Some(7_200_000i64)
    } else if interval == "4h"@ {
        Some(14_400_000i64)
    } else if interval == "6h"@ {
        Some(21_600_000i64)
    } else if interval == "8h"@ {
        Some(28_800_000i64)
    } else if interval == "12h"@ {
        Some(43_200_000i64)
    } else if interval == "1d"@ {
        Some(86_400_000i64)
    } else if interval == "3d"@ {
        Some(259_200_000i64)
    } else if interval == "1w"@ {
        Some(604_800_000i64)
    } else {
        None
    }
}

/// Length in milliseconds of a fixed-length kline interval; the monthly
/// interval `1M` has no fixed length.
pub fn interval_millis(interval: &str) -> (r: Option<i64>)
    ensures
        r == interval_ms_of(interval@),
{
    let v = chars_of(interval);
    if crate::text::eq_str(&v, "1m") {
        Some(60_000)
    } else if crate::text::eq_str(&v, "3m") {
        Some(180_000)
    } else if crate::text::eq_str(&v, "5m") {
        Some(300_000)
    } else if crate::text::eq_str(&v, "15m") {
        Some(900_000)
    } else if crate::text::eq_str(&v, "30m") {
        Some(1_800_000)
    } else if crate::text::eq_str(&v, "1h") {
        Some(3_600_000)
    } else if crate::text::eq_str(&v, "2h") {
        Some(7_200_000)
    } else if crate::text::eq_str(&v, "4h") {
        Some(14_400_000)
    } else if crate::text::eq_str(&v, "6h") {
        Some(21_600_000)
    } else if crate::text::eq_str(&v, "8h") {
        Some(28_800_000)
    } else if crate::text::eq_str(&v, "12h") {
        Some(43_200_000)
    } else if crate::text::eq_str(&v, "1d") {
        Some(86_400_000)
    } else if crate::text::eq_str(&v, "3d") {
        Some(259_200_000)
    } else if crate::text::eq_str(&v, "1w") {
        Some(604_800_000)
    } else {
        None
    }
}

/// The kline intervals Binance accepts: the fixed ones and `1M`.
pub fn is_supported_interval(interval: &str) -> (r: bool)
    ensures
        r == (interval_ms_of(interval@) is Some || interval@ == "1M"@),
{
    interval_millis(interval).is_some() || crate::text::eq_str(&chars_of(interval), "1M")
}

pub open spec fn sat_sub(a: int, b: int) -> int {
    if a - b < i64::MIN {
        i64::MIN as int
    } else if a - b > i64::MAX {
        i64::MAX as int
    } else {
        a - b
    }
}

pub fn saturating_sub_i64(a: i64, b: i64) -> (r: i64)
    ensures
        r == sat_sub(a as int, b as int),
{
    let d = (a as i128) - (b as i128);
    if d < i64::MIN as i128 {
        i64::MIN
    } else if d > i64::MAX as i128 {
        i64::MAX
    } else {
        d as i64
    }
}

/// Decides whether the delta cache is due for a purge at `now_ms`, given
/// when it was last purged: at most once an hour. When it is due, returns
/// the cutoff: rows older than 21 days before `now_ms` go.
pub fn maybe_purge_delta_cache(last_purge_ms: i64, now_ms: i64) -> (r: Option<i64>)
    ensures
        r == if sat_sub(now_ms as int, last_purge_ms as int) < DELTA_CACHE_PURGE_INTERVAL_MS {
            None
        } else {
            Some(sat_sub(now_ms as int, DELTA_CACHE_RETENTION_MS as int) as i64)
        },
{
    if saturating_sub_i64(now_ms, last_purge_ms) < DELTA_CACHE_PURGE_INTERVAL_MS {
        return None;
    }
    Some(saturating_sub_i64(now_ms, DELTA_CACHE_RETENTION_MS))
}

/// Interval used when the request names none.
pub const DEFAULT_INTERVAL: &'static str = "1h";

/// Candles asked for when the request names no number.
pub const DEFAULT_LIMIT: usize = 300;

/// The query string of the orderflow route.
pub struct BinanceOrderflowQuery {
    pub symbol: Option<String>,
    pub interval: Option<String>,
    pub limit: Option<usize>,
    /// The `startTime` parameter.
    pub start_time: Option<i64>,
    /// The `endTime` parameter.
    pub end_time: Option<i64>,
}

/// A checked orderflow request.
pub struct OrderflowRequest {
    pub symbol: String,
    pub interval: String,
    pub limit: usize,
    pub start_time: Option<i64>,
    pub end_time: Option<i64>,
}

/// The interval a request names, else the default.
pub open spec fn interval_of(q: BinanceOrderflowQuery) -> Seq<char> {
    match q.interval {
        Some(i) => i@,
        None => DEFAULT_INTERVAL@,
    }
}

/// Checks an orderflow request, in order: the symbol, the interval, and
/// non-negative time bounds; the number of candles defaults to 300 and is
/// clamped to `1..=1000`.
pub fn orderflow_request(query: &BinanceOrderflowQuery) -> (r: Result<OrderflowRequest, String>)
    ensures
        ({
            let sym = candidate_symbol(
                match query.symbol {
                    Some(x) => x@,
                    None => DEFAULT_SYMBOL@,
                },
            );
            let interval = interval_of(*query);
            let supported = interval_ms_of(interval) is Some || interval == "1M"@;
            let negative = (query.start_time matches Some(t) && t < 0) || (
            query.end_time matches Some(t) && t < 0);
            if !valid_perp_symbol(sym) {
                r matches Err(e) && e@ == "symbol must be a Binance USDT perpetual symbol"@
            } else if !supported {
                r matches Err(e) && e@ == "unsupported Binance interval: "@ + interval
            } else if negative {
                r matches Err(e) && e@ == "time bounds must be positive"@
            } else {
                r matches Ok(req) && {
                    &&& req.symbol@ == sym
                    &&& req.interval@ == interval
                    &&& req.limit == match query.limit {
                        Some(n) => if n < 1 {
                            1
                        } else if n > 1000 {
                            1000
                        } else {
                            n
                        },
                        None => DEFAULT_LIMIT,
                    }
                    &&& req.start_time == query.start_time
                    &&& req.end_time == query.end_time
                }
            }
        }),
{
    let symbol = match canonical_symbol(
        match &query.symbol {
            Some(s) => Some(s.as_str()),
            None => None,
        },
    ) {
        Ok(s) => s,
        Err(e) => return Err(e),
    };
    let interval = match &query.interval {
        Some(i) => i.clone(),
        None => String::from_str(DEFAULT_INTERVAL),
    };
    if !is_supported_interval(interval.as_str()) {
        let mut m = chars_of("unsupported Binance interval: ");
        push_str(&mut m, interval.as_str());
        return Err(string_of(&m));
    }
    let raw_limit = match query.limit {
        Some(n) => n,
        None => DEFAULT_LIMIT,
    };
    let limit = if raw_limit < 1 {
        1
    } else if raw_limit > 1000 {
        1000
    } else {
        raw_limit
    };
    let negative = match query.start_time {
        Some(t) => t < 0,
        None => false,
    } || match query.end_time {
        Some(t) => t < 0,
        None => false,
    };
    if negative {
        return Err(String::from_str("time bounds must be positive"));
    }
    Ok(
        OrderflowRequest {
            symbol,
            interval,
            limit,
            start_time: query.start_time,
            end_time: query.end_time,
        },
    )
}

/// How long fetched klines are served again, in milliseconds.
pub const KLINE_CACHE_TTL_MS: i64 = 1_500;

/// Most kline requests remembered.
pub const KLINE_CACHE_MAX_ENTRIES: usize = 64;

/// `Some(v)` or `None`, as `{:?}` writes an optional time.
pub open spec fn debug_opt(v: Option<i64>) -> Seq<char> {
    match v {
        Some(t) => "Some("@ + crate::text::int_decimal(t as int) + ")"@,
        None => "None"@,
    }
}

/// The cache key of a request: `symbol|interval|limit|start|end`.
pub open spec fn kline_key_of(req: OrderflowRequest) -> Seq<char> {
    req.symbol@ + "|"@ + req.interval@ + "|"@ + crate::text::nat_decimal(req.limit as nat) + "|"@
        + debug_opt(req.start_time) + "|"@ + debug_opt(req.end_time)
}

fn push_debug_opt(v: &mut Vec<char>, t: Option<i64>)
    ensures
        final(v)@ == old(v)@ + debug_opt(t),
{
    match t {
        Some(x) => {
            push_str(v, "Some(");
            let d = crate::text::i64_decimal(x);
            crate::text::append_chars(v, &d);
            push_str(v, ")");
        },
        None => push_str(v, "None"),
    }
}

/// The cache key of a request.
pub fn kline_cache_key(req: &OrderflowRequest) -> (r: String)
    ensures
        r@ == kline_key_of(*req),
{
    let mut v = chars_of(req.symbol.as_str());
    push_str(&mut v, "|");
    push_str(&mut v, req.interval.as_str());
    push_str(&mut v, "|");
    let l = crate::text::u64_decimal(req.limit as u64);
    crate::text::append_chars(&mut v, &l);
    push_str(&mut v, "|");
    push_debug_opt(&mut v, req.start_time);
    push_str(&mut v, "|");
    push_debug_opt(&mut v, req.end_time);
    string_of(&v)
}

/// Klines fetched for a request, and when.
pub struct CachedKlines<T> {
    pub fetched_at_ms: i64,
    pub rows: T,
}

/// The recently fetched klines by request key.
pub struct KlineCache<T> {
    entries: crate::keyed::Keyed<CachedKlines<T>>,
}

impl<T> KlineCache<T> {
    pub closed spec fn wf(&self) -> bool {
        self.entries.wf() && self.entries.view().dom().len() <= KLINE_CACHE_MAX_ENTRIES
    }

    pub closed spec fn view(&self) -> Map<Seq<char>, CachedKlines<T>> {
        self.entries.view()
    }

    pub fn new() -> (r: Self)
        ensures
            r.wf(),
            r.view() == Map::<Seq<char>, CachedKlines<T>>::empty(),
    {
        let r = KlineCache { entries: crate::keyed::Keyed::new() };
        proof {
            crate::keyed::lemma_entries_map(r.entries.entries@);
        }
        r
    }

    /// The rows cached under `key` when fetched at most the TTL before
    /// `now_ms`.
    pub fn fresh(&self, key: &str, now_ms: i64) -> (r: Option<&T>)
        requires
            self.wf(),
        ensures
            match r {
                Some(rows) => self.view().contains_key(key@) && sat_sub(
                    now_ms as int,
                    self.view()[key@].fetched_at_ms as int,
                ) <= KLINE_CACHE_TTL_MS && *rows == self.view()[key@].rows,
                None => !(self.view().contains_key(key@) && sat_sub(
                    now_ms as int,
                    self.view()[key@].fetched_at_ms as int,
                ) <= KLINE_CACHE_TTL_MS),
            },
    {
        match self.entries.get(key) {
            Some(c) => if saturating_sub_i64(now_ms, c.fetched_at_ms) <= KLINE_CACHE_TTL_MS {
                Some(&c.rows)
            } else {
                None
            },
            None => None,
        }
    }

    /// Stores fetched rows under `key`; when the cache is full, an entry
    /// fetched earliest leaves first.
    pub fn store(&mut self, key: String, fetched_at_ms: i64, rows: T)
        requires
            old(self).wf(),
        ensures
            final(self).wf(),
            old(self).view().dom().len() < KLINE_CACHE_MAX_ENTRIES ==> final(self).view()
                == old(self).view().insert(key@, CachedKlines { fetched_at_ms, rows }),
            old(self).view().dom().len() >= KLINE_CACHE_MAX_ENTRIES ==> exists|oldest: Seq<char>|
                {
                    &&& #[trigger] old(self).view().contains_key(oldest)
                    &&& forall|k: Seq<char>|
                        old(self).view().contains_key(k) ==> old(self).view()[oldest].fetched_at_ms
                            <= #[trigger] old(self).view()[k].fetched_at_ms
                    &&& final(self).view() == old(self).view().remove(oldest).insert(
                        key@,
                        CachedKlines { fetched_at_ms, rows },
                    )
                },
    {
        proof {
            crate::keyed::lemma_entries_map(self.entries.entries@);
        }
        if self.entries.len() >= KLINE_CACHE_MAX_ENTRIES {
            let n = self.entries.entries.len();
            let mut best: usize = 0;
            let mut i: usize = 1;
            while i < n
                invariant
                    n == self.entries.entries@.len(),
                    n > 0,
                    1 <= i <= n,
                    best < n,
                    forall|j: int|
                        0 <= j < i ==> self.entries.entries@[best as int].1.fetched_at_ms
                            <= #[trigger] self.entries.entries@[j].1.fetched_at_ms,
                decreases n - i,
            {
                if self.entries.entries[i].1.fetched_at_ms < self.entries.entries[best].1.fetched_at_ms {
                    best = i;
                }
                i = i + 1;
            }
            let oldest = string_of(&chars_of(self.entries.entries[best].0.as_str()));
            let ghost before = self.entries.view();
            proof {
                assert forall|k: Seq<char>| before.contains_key(k) implies before[oldest@].fetched_at_ms
                    <= #[trigger] before[k].fetched_at_ms by {
                    let j = choose|j: int| 0 <= j < n && self.entries.entries@[j].0@ == k;
                    assert(self.entries.entries@[j].1 == before[k]);
                }
                assert(before.contains_key(oldest@));
            }
            self.entries.remove(oldest.as_str());
            proof {
                crate::keyed::lemma_entries_map(self.entries.entries@);
                assert(self.entries.view().dom() =~= before.dom().remove(oldest@));
            }
            let ghost removed = self.entries.view();
            self.entries.insert(key, CachedKlines { fetched_at_ms, rows });
            proof {
                crate::keyed::lemma_entries_map(self.entries.entries@);
                assert(self.entries.view().dom() =~= removed.dom().insert(key@));
                vstd::set_lib::lemma_len_subset(removed.dom(), before.dom());
            }
        } else {
            let ghost before = self.entries.view();
            self.entries.insert(key, CachedKlines { fetched_at_ms, rows });
            proof {
                crate::keyed::lemma_entries_map(self.entries.entries@);
                assert(self.entries.view().dom() =~= before.dom().insert(key@));
            }
        }
    }
}

} // verus!
