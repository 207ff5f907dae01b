use vstd::prelude::*;

use vstd::arithmetic::div_mod::{
    lemma_div_is_ordered, lemma_div_multiples_vanish, lemma_fundamental_div_mod,
    lemma_hoist_over_denominator,
};

use rand::Rng;

use crate::error::SyncError;
use crate::remote::{opt_view, url_components, RemoteUrl};

verus! {

/// Relies on `chrono::Utc::now` and `DateTime::timestamp`: the current time
/// in whole seconds since the Unix epoch. Nothing is known of its value.
#[verifier::external_body]
fn now_unix_secs() -> (r: i64) {
    chrono::Utc::now().timestamp()
}

/// Relies on `rand::thread_rng` and `Rng::gen_range` over an inclusive range,
/// which panics only on an empty range and returns a value inside it.
#[verifier::external_body]
fn draw_millis(lo: u64, hi: u64) -> (r: u64)
    requires
        lo <= hi,
    ensures
        lo <= r <= hi,
{
    rand::thread_rng().gen_range(lo..=hi)
}

pub const DEFAULT_MIN_SLEEP_SECS: u64 = 15;

pub const DEFAULT_MAX_SLEEP_SECS: u64 = 120;

pub const DEFAULT_MAX_SLEEP_AFTER_HOURS: u64 = 24;

/// The shortest average poll interval, in milliseconds.
pub const MIN_AVERAGE_MILLIS: u64 = 10;

/// The longest average poll interval, in milliseconds: one hour.
pub const MAX_AVERAGE_MILLIS: u64 = 3_600_000;

pub fn default_min_sleep_secs() -> (r: u64)
    ensures
        r == DEFAULT_MIN_SLEEP_SECS,
{
    DEFAULT_MIN_SLEEP_SECS
}

pub fn default_max_sleep_secs() -> (r: u64)
    ensures
        r == DEFAULT_MAX_SLEEP_SECS,
{
    DEFAULT_MAX_SLEEP_SECS
}

pub fn default_max_sleep_after_hours() -> (r: u64)
    ensures
        r == DEFAULT_MAX_SLEEP_AFTER_HOURS,
{
    DEFAULT_MAX_SLEEP_AFTER_HOURS
}

/// The daemon's persisted state: where to sync from, what to activate, what
/// was last activated and when, and the tuning of the polling curve.
#[derive(Debug)]
pub struct Config {
    pub remote: Option<RemoteUrl>,
    pub configuration: Option<String>,
    /// Seconds since the Unix epoch.
    pub last_reconfiguration: i64,
    pub last_etag: String,
    pub min_sleep_secs: u64,
    pub max_sleep_secs: u64,
    pub max_sleep_after_hours: u64,
}

/// The mathematical content of a `Config`; the remote is its source text.
pub struct ConfigModel {
    pub remote: Option<Seq<char>>,
    pub configuration: Option<Seq<char>>,
    pub last_reconfiguration: int,
    pub last_etag: Seq<char>,
    pub min_sleep_secs: nat,
    pub max_sleep_secs: nat,
    pub max_sleep_after_hours: nat,
}

pub open spec fn remote_source(o: Option<RemoteUrl>) -> Option<Seq<char>> {
    match o {
        Some(r) => Some(r.source@),
        None => None,
    }
}

impl View for Config {
    type V = ConfigModel;

    open spec fn view(&self) -> ConfigModel {
        ConfigModel {
            remote: remote_source(self.remote),
            configuration: opt_view(self.configuration),
            last_reconfiguration: self.last_reconfiguration as int,
            last_etag: self.last_etag@,
            min_sleep_secs: self.min_sleep_secs as nat,
            max_sleep_secs: self.max_sleep_secs as nat,
            max_sleep_after_hours: self.max_sleep_after_hours as nat,
        }
    }
}

/// The record as persisted: the tuning fields may be absent (an older
/// record) and the remote is kept as text.
#[derive(Debug)]
pub struct StoredConfig {
    pub remote: Option<String>,
    pub configuration: Option<String>,
    pub last_reconfiguration: i64,
    pub last_etag: String,
    pub min_sleep_secs: Option<u64>,
    pub max_sleep_secs: Option<u64>,
    pub max_sleep_after_hours: Option<u64>,
}

pub struct StoredModel {
    pub remote: Option<Seq<char>>,
    pub configuration: Option<Seq<char>>,
    pub last_reconfiguration: int,
    pub last_etag: Seq<char>,
    pub min_sleep_secs: Option<nat>,
    pub max_sleep_secs: Option<nat>,
    pub max_sleep_after_hours: Option<nat>,
}

pub open spec fn opt_nat(o: Option<u64>) -> Option<nat> {
    match o {
        Some(v) => Some(v as nat),
        None => None,
    }
}

pub open spec fn or_default(o: Option<nat>, d: nat) -> nat {
    match o {
        Some(v) => v,
        None => d,
    }
}

impl View for StoredConfig {
    type V = StoredModel;

    open spec fn view(&self) -> StoredModel {
        StoredModel {
            remote: opt_view(self.remote),
            configuration: opt_view(self.configuration),
            last_reconfiguration: self.last_reconfiguration as int,
            last_etag: self.last_etag@,
            min_sleep_secs: opt_nat(self.min_sleep_secs),
            max_sleep_secs: opt_nat(self.max_sleep_secs),
            max_sleep_after_hours: opt_nat(self.max_sleep_after_hours),
        }
    }
}

/// The record that storing a state writes.
pub open spec fn stored_of(c: ConfigModel) -> StoredModel {
    StoredModel {
        remote: c.remote,
        configuration: c.configuration,
        last_reconfiguration: c.last_reconfiguration,
        last_etag: c.last_etag,
        min_sleep_secs: Some(c.min_sleep_secs),
        max_sleep_secs: Some(c.max_sleep_secs),
        max_sleep_after_hours: Some(c.max_sleep_after_hours),
    }
}

/// A remote text is acceptable when it parses as a URL.
pub open spec fn remote_text_valid(remote: Option<Seq<char>>) -> bool {
    match remote {
        Some(s) => url_components(s) is Some,
        None => true,
    }
}

/// The state a record describes, absent tuning fields taking their defaults;
/// `None` when the remote does not parse or the minimum sleep exceeds the
/// maximum.
pub open spec fn loaded_from(rec: StoredModel) -> Option<ConfigModel> {
    let min = or_default(rec.min_sleep_secs, DEFAULT_MIN_SLEEP_SECS as nat);
    let max = or_default(rec.max_sleep_secs, DEFAULT_MAX_SLEEP_SECS as nat);
    let hours = or_default(rec.max_sleep_after_hours, DEFAULT_MAX_SLEEP_AFTER_HOURS as nat);
    if remote_text_valid(rec.remote) && min <= max {
        Some(
            ConfigModel {
                remote: rec.remote,
                configuration: rec.configuration,
                last_reconfiguration: rec.last_reconfiguration,
                last_etag: rec.last_etag,
                min_sleep_secs: min,
                max_sleep_secs: max,
                max_sleep_after_hours: hours,
            },
        )
    } else {
        None
    }
}

/// The state of a node that has never synced, created at `now`.
pub open spec fn fresh_model(now: int) -> ConfigModel {
    ConfigModel {
        remote: None,
        configuration: None,
        last_reconfiguration: now,
        last_etag: Seq::empty(),
        min_sleep_secs: DEFAULT_MIN_SLEEP_SECS as nat,
        max_sleep_secs: DEFAULT_MAX_SLEEP_SECS as nat,
        max_sleep_after_hours: DEFAULT_MAX_SLEEP_AFTER_HOURS as nat,
    }
}

impl Config {
    /// The remote, if any, is parsed from its own text, and the minimum
    /// sleep does not exceed the maximum.
    pub open spec fn wf(&self) -> bool {
        &&& match self.remote {
            Some(r) => r.wf(),
            None => true,
        }
        &&& self.min_sleep_secs <= self.max_sleep_secs
    }

    /// A fresh state at time `now`: no remote, no configuration, never synced,
    /// default tuning.
    pub fn new_at(now: i64) -> (r: Config)
        ensures
            r@ == fresh_model(now as int),
            r.wf(),
    {
        Config {
            remote: None,
            configuration: None,
            last_reconfiguration: now,
            last_etag: String::new(),
            min_sleep_secs: default_min_sleep_secs(),
            max_sleep_secs: default_max_sleep_secs(),
            max_sleep_after_hours: default_max_sleep_after_hours(),
        }
    }

    /// The state described by a persisted record; `InvalidState` when the
    /// record's remote does not parse or its minimum sleep exceeds its maximum.
    pub fn from_stored(rec: StoredConfig) -> (r: Result<Config, SyncError>)
        ensures
            loaded_from(rec@) is None ==> r == Err::<Config, SyncError>(SyncError::InvalidState),
            loaded_from(rec@) is Some ==> r is Ok && r->Ok_0@ == loaded_from(rec@)->Some_0
                && r->Ok_0.wf(),
    {
        let ghost model = rec@;
        let StoredConfig {
            remote,
            configuration,
            last_reconfiguration,
            last_etag,
            min_sleep_secs,
            max_sleep_secs,
            max_sleep_after_hours,
        } = rec;
        let remote = match remote {
            Some(text) => match RemoteUrl::parse(text.as_str()) {
                Ok(u) => Some(u),
                Err(_) => {
                    return Err(SyncError::InvalidState);
                },
            },
            None => None,
        };
        let min = match min_sleep_secs {
            Some(v) => v,
            None => default_min_sleep_secs(),
        };
        let max = match max_sleep_secs {
            Some(v) => v,
            None => default_max_sleep_secs(),
        };
        let hours = match max_sleep_after_hours {
            Some(v) => v,
            None => default_max_sleep_after_hours(),
        };
        if min > max {
            return Err(SyncError::InvalidState);
        }
        let c = Config {
            remote,
            configuration,
            last_reconfiguration,
            last_etag,
            min_sleep_secs: min,
            max_sleep_secs: max,
            max_sleep_after_hours: hours,
        };
        proof {
            assert(c@ == loaded_from(model)->Some_0);
        }
        Ok(c)
    }

    /// The state to work with: the persisted record where one was found,
    /// else a fresh state at `now`.
    pub fn load(found: Option<StoredConfig>, now: i64) -> (r: Result<Config, SyncError>)
        ensures
            found is None ==> r is Ok && r->Ok_0@ == fresh_model(now as int) && r->Ok_0.wf(),
            found is Some ==> match loaded_from(found->Some_0@) {
                Some(m) => r is Ok && r->Ok_0@ == m && r->Ok_0.wf(),
                None => r == Err::<Config, SyncError>(SyncError::InvalidState),
            },
    {
        match found {
            Some(rec) => Config::from_stored(rec),
            None => Ok(Config::new_at(now)),
        }
    }

    /// The full record to persist for this state.
    pub fn store(&self) -> (r: StoredConfig)
        ensures
            r@ == stored_of(self@),
    {
        let remote = match &self.remote {
            Some(u) => Some(u.source.clone()),
            None => None,
        };
        let configuration = match &self.configuration {
            Some(c) => Some(c.clone()),
            None => None,
        };
        StoredConfig {
            remote,
            configuration,
            last_reconfiguration: self.last_reconfiguration,
            last_etag: self.last_etag.clone(),
            min_sleep_secs: Some(self.min_sleep_secs),
            max_sleep_secs: Some(self.max_sleep_secs),
            max_sleep_after_hours: Some(self.max_sleep_after_hours),
        }
    }
}

/// Storing a valid state and loading the record back gives the same state,
/// field for field.
pub proof fn lemma_store_load_round_trip(c: Config)
    requires
        c.wf(),
    ensures
        loaded_from(stored_of(c@)) == Some(c@),
{
}


/// The time after the last reconfiguration at which polling reaches its idle
/// rate, in seconds: `hours * 3600`, saturated at `u64::MAX`.
pub open spec fn horizon_secs(hours: nat) -> nat {
    if hours * 3600 > u64::MAX {
        u64::MAX as nat
    } else {
        hours * 3600
    }
}

pub open spec fn spread_secs(min: nat, max: nat) -> nat {
    if max >= min {
        (max - min) as nat
    } else {
        0
    }
}

/// The unclamped average interval in milliseconds: the minimum plus the
/// spread scaled by the share of the horizon that has elapsed, capped at one.
pub open spec fn raw_average_ms(c: ConfigModel, elapsed: nat) -> int {
    let h = horizon_secs(c.max_sleep_after_hours);
    let spread = spread_secs(c.min_sleep_secs, c.max_sleep_secs);
    if elapsed >= h {
        ((c.min_sleep_secs + spread) * 1000) as int
    } else {
        c.min_sleep_secs * 1000 + ((spread * elapsed * 1000) as int) / (h as int)
    }
}

pub open spec fn clamp(x: int, lo: int, hi: int) -> int {
    if x < lo {
        lo
    } else if x > hi {
        hi
    } else {
        x
    }
}

/// The average poll interval in milliseconds after `elapsed` seconds without
/// a reconfiguration.
pub open spec fn average_ms(c: ConfigModel, elapsed: nat) -> int {
    clamp(raw_average_ms(c, elapsed), MIN_AVERAGE_MILLIS as int, MAX_AVERAGE_MILLIS as int)
}

/// Seconds since the last reconfiguration, at least one.
pub open spec fn elapsed_since(last: int, now: int) -> nat {
    if now - last < 1 {
        1
    } else {
        (now - last) as nat
    }
}

/// The range of the random draw, in milliseconds: half to one and a half
/// times the average.
pub open spec fn window_ms(c: ConfigModel, now: int) -> (int, int) {
    let avg = average_ms(c, elapsed_since(c.last_reconfiguration, now));
    (avg / 2, avg + avg / 2)
}

/// The sleep for a drawn number of milliseconds: whole seconds, never below
/// the minimum sleep.
pub open spec fn sleep_secs_of(c: ConfigModel, draw_ms: int) -> int {
    if draw_ms / 1000 > c.min_sleep_secs {
        draw_ms / 1000
    } else {
        c.min_sleep_secs as int
    }
}

proof fn lemma_scaled_share(spread: nat, elapsed: nat, h: nat)
    requires
        elapsed < h,
    ensures
        ((spread * elapsed * 1000) as int) / (h as int) <= spread * 1000,
{
    assert(spread * elapsed * 1000 <= (spread * 1000) * h) by (nonlinear_arith)
        requires
            elapsed < h,
    ;
    lemma_div_is_ordered((spread * elapsed * 1000) as int, ((spread * 1000) * h) as int, h as int);
    assert((spread * 1000) * h == h * (spread * 1000)) by (nonlinear_arith);
    lemma_div_multiples_vanish((spread * 1000) as int, h as int);
}

proof fn lemma_raw_average_monotone(c: ConfigModel, e1: nat, e2: nat)
    requires
        e1 <= e2,
    ensures
        raw_average_ms(c, e1) <= raw_average_ms(c, e2),
{
    let h = horizon_secs(c.max_sleep_after_hours);
    let spread = spread_secs(c.min_sleep_secs, c.max_sleep_secs);
    if e2 < h {
        assert(spread * e1 * 1000 <= spread * e2 * 1000) by (nonlinear_arith)
            requires
                e1 <= e2,
        ;
        lemma_div_is_ordered((spread * e1 * 1000) as int, (spread * e2 * 1000) as int, h as int);
    } else if e1 < h {
        lemma_scaled_share(spread, e1, h);
    }
}

/// With the jitter's expectation held fixed, the poll interval does not
/// shrink as time since the last reconfiguration grows, and it stays
/// constant once the horizon of `max_sleep_after_hours` has passed.
pub proof fn lemma_average_monotone(c: ConfigModel, e1: nat, e2: nat)
    ensures
        e1 <= e2 ==> average_ms(c, e1) <= average_ms(c, e2),
        horizon_secs(c.max_sleep_after_hours) <= e1 && horizon_secs(c.max_sleep_after_hours) <= e2
            ==> average_ms(c, e1) == average_ms(c, e2),
{
    if e1 <= e2 {
        lemma_raw_average_monotone(c, e1, e2);
    }
}

/// Every sleep that a draw inside the window yields lies between the minimum
/// sleep and one and a half times the maximum sleep.
pub proof fn lemma_sleep_within_bounds(c: ConfigModel, now: int, draw_ms: int)
    requires
        c.min_sleep_secs <= c.max_sleep_secs,
        window_ms(c, now).0 <= draw_ms <= window_ms(c, now).1,
    ensures
        c.min_sleep_secs <= sleep_secs_of(c, draw_ms),
        2 * sleep_secs_of(c, draw_ms) <= 3 * c.max_sleep_secs,
{
    let e = elapsed_since(c.last_reconfiguration, now);
    let h = horizon_secs(c.max_sleep_after_hours);
    let spread = spread_secs(c.min_sleep_secs, c.max_sleep_secs);
    if e < h {
        lemma_scaled_share(spread, e, h);
    }
    let raw = raw_average_ms(c, e);
    assert(raw <= c.max_sleep_secs * 1000);
    let avg = average_ms(c, e);
    let max = c.max_sleep_secs;
    if max == 0 {
        assert(avg == 10);
        assert(draw_ms <= 15);
    } else {
        assert(avg <= max * 1000);
        assert(draw_ms <= avg + avg / 2);
        assert(2 * (draw_ms / 1000) <= 3 * max) by (nonlinear_arith)
            requires
                draw_ms <= avg + avg / 2,
                avg <= max * 1000,
                0 <= avg,
        ;
    }
}

impl Config {
    /// The average poll interval in milliseconds after `elapsed_secs` seconds
    /// without a reconfiguration.
    pub fn average_sleep_millis(&self, elapsed_secs: u64) -> (r: u64)
        ensures
            r == average_ms(self@, elapsed_secs as nat),
    {
        let hours = self.max_sleep_after_hours;
        let h: u64 = if hours > u64::MAX / 3600 {
            u64::MAX
        } else {
            hours * 3600
        };
        let spread: u64 = self.max_sleep_secs.saturating_sub(self.min_sleep_secs);
        let ghost model = self@;
        assert(h as nat == horizon_secs(model.max_sleep_after_hours));
        assert(spread as nat == spread_secs(model.min_sleep_secs, model.max_sleep_secs));
        if self.min_sleep_secs >= 3600 {
            return MAX_AVERAGE_MILLIS;
        }
        let base: u128 = self.min_sleep_secs as u128 * 1000;
        let extra: u128 = if elapsed_secs >= h {
            spread as u128 * 1000
        } else {
            assert(spread as nat * elapsed_secs as nat <= u64::MAX as nat * u64::MAX as nat)
                by (nonlinear_arith)
                requires
                    spread <= u64::MAX,
                    elapsed_secs <= u64::MAX,
            ;
            let t: u128 = spread as u128 * elapsed_secs as u128;
            let q: u128 = t / (h as u128);
            let rem: u128 = t % (h as u128);
            proof {
                let hi = h as int;
                lemma_fundamental_div_mod(t as int, hi);
                assert(t as int <= spread as int * hi) by (nonlinear_arith)
                    requires
                        t == spread as int * elapsed_secs as int,
                        elapsed_secs < hi,
                        0 <= spread,
                ;
                lemma_div_is_ordered(t as int, spread as int * hi, hi);
                assert(spread as int * hi == hi * spread as int) by (nonlinear_arith);
                lemma_div_multiples_vanish(spread as int, hi);
                assert(q <= spread);
                assert(t as int * 1000 == (rem as int * 1000) + (q as int * 1000) * hi)
                    by (nonlinear_arith)
                    requires
                        t as int == hi * q as int + rem as int,
                ;
                lemma_hoist_over_denominator(rem as int * 1000, q as int * 1000, h as nat);
                assert(spread as nat * elapsed_secs as nat * 1000 == t as int * 1000);
            }
            q * 1000 + rem * 1000 / (h as u128)
        };
        let raw: u128 = base + extra;
        assert(raw == raw_average_ms(model, elapsed_secs as nat));
        if raw < MIN_AVERAGE_MILLIS as u128 {
            MIN_AVERAGE_MILLIS
        } else if raw > MAX_AVERAGE_MILLIS as u128 {
            MAX_AVERAGE_MILLIS
        } else {
            raw as u64
        }
    }

    /// The range, in milliseconds, from which the sleep before the next poll
    /// is drawn at time `now`.
    pub fn sleep_window_millis(&self, now: i64) -> (r: (u64, u64))
        ensures
            (r.0 as int, r.1 as int) == window_ms(self@, now as int),
            r.0 <= r.1,
    {
        let d: i128 = now as i128 - self.last_reconfiguration as i128;
        let elapsed: u64 = if d < 1 {
            1
        } else {
            d as u64
        };
        let avg = self.average_sleep_millis(elapsed);
        (avg / 2, avg + avg / 2)
    }

    /// The sleep, in whole seconds, for a draw of `draw_ms` milliseconds.
    pub fn sleep_secs_for_draw(&self, draw_ms: u64) -> (r: u64)
        ensures
            r == sleep_secs_of(self@, draw_ms as int),
    {
        let secs = draw_ms / 1000;
        if secs > self.min_sleep_secs {
            secs
        } else {
            self.min_sleep_secs
        }
    }

    /// The randomized sleep, in seconds, before the next poll.
    pub fn cur_rng_sleep_time(&self) -> (r: u64)
        requires
            self.wf(),
        ensures
            exists|now: int, d: int|
                #![trigger window_ms(self@, now), sleep_secs_of(self@, d)]
                window_ms(self@, now).0 <= d <= window_ms(self@, now).1 && r == sleep_secs_of(
                    self@,
                    d,
                ),
            self.min_sleep_secs <= r,
            2 * r <= 3 * self.max_sleep_secs,
    {
        let now = now_unix_secs();
        let (lo, hi) = self.sleep_window_millis(now);
        let draw = draw_millis(lo, hi);
        proof {
            lemma_sleep_within_bounds(self@, now as int, draw as int);
        }
        let r = self.sleep_secs_for_draw(draw);
        assert(window_ms(self@, now as int).0 <= draw as int <= window_ms(self@, now as int).1
            && r == sleep_secs_of(self@, draw as int));
        r
    }
}


/// `b` is `a` with at most the remote and the configuration changed.
pub open spec fn same_history_and_tuning(a: ConfigModel, b: ConfigModel) -> bool {
    &&& a.last_reconfiguration == b.last_reconfiguration
    &&& a.last_etag == b.last_etag
    &&& a.min_sleep_secs == b.min_sleep_secs
    &&& a.max_sleep_secs == b.max_sleep_secs
    &&& a.max_sleep_after_hours == b.max_sleep_after_hours
}

/// The state after a successful activation of version `etag` at time `now`.
pub open spec fn reconfigured(c: ConfigModel, etag: Seq<char>, now: int) -> ConfigModel {
    ConfigModel { last_etag: etag, last_reconfiguration: now, ..c }
}

impl Config {
    /// Sets the configuration to activate; everything else is kept.
    pub fn with_configuration(self, configuration: &str) -> (r: Config)
        ensures
            r@ == (ConfigModel { configuration: Some(configuration@), ..self@ }),
            r.remote == self.remote,
            self.wf() ==> r.wf(),
    {
        Config { configuration: Some(String::from_str(configuration)), ..self }
    }

    /// Like `with_configuration`, but with `init` set an existing
    /// configuration is kept.
    pub fn with_configuration_maybe_init(self, configuration: &str, init: bool) -> (r: Config)
        ensures
            !init || self.configuration is None ==> r@ == (ConfigModel {
                configuration: Some(configuration@),
                ..self@
            }),
            init && self.configuration is Some ==> r@ == self@,
            r.remote == self.remote,
            self.wf() ==> r.wf(),
    {
        if !init || self.configuration.is_none() {
            self.with_configuration(configuration)
        } else {
            self
        }
    }

    /// Sets the remote; everything else is kept.
    pub fn with_remote(self, remote: &RemoteUrl) -> (r: Config)
        ensures
            r.remote == Some(*remote),
            r@ == (ConfigModel { remote: Some(remote.source@), ..self@ }),
            self.wf() && remote.wf() ==> r.wf(),
    {
        Config { remote: Some(remote.duplicate()), ..self }
    }

    /// Like `with_remote`, but with `init` set an existing remote is kept.
    pub fn with_remote_maybe_init(self, remote: &RemoteUrl, init: bool) -> (r: Config)
        ensures
            !init || self.remote is None ==> r.remote == Some(*remote) && r@ == (ConfigModel {
                remote: Some(remote.source@),
                ..self@
            }),
            init && self.remote is Some ==> r@ == self@ && r.remote == self.remote,
            self.wf() && remote.wf() ==> r.wf(),
    {
        if !init || self.remote.is_none() {
            self.with_remote(remote)
        } else {
            self
        }
    }

    /// Records a successful activation of version `etag` at time `now`.
    pub fn with_reconfiguration_at(self, etag: &str, now: i64) -> (r: Config)
        ensures
            r@ == reconfigured(self@, etag@, now as int),
            r.remote == self.remote,
            self.wf() ==> r.wf(),
    {
        Config { last_etag: String::from_str(etag), last_reconfiguration: now, ..self }
    }

    /// Records a successful activation of version `etag` now.
    pub fn with_updated_last_reconfiguration(self, etag: &str) -> (r: Config)
        ensures
            exists|now: int| r@ == reconfigured(self@, etag@, now),
            r.remote == self.remote,
            self.wf() ==> r.wf(),
    {
        let now = now_unix_secs();
        self.with_reconfiguration_at(etag, now)
    }

    /// The remote; `MissingRemote` when none is set.
    pub fn remote(&self) -> (r: Result<&RemoteUrl, SyncError>)
        ensures
            match self.remote {
                Some(u) => r == Ok::<&RemoteUrl, SyncError>(&u),
                None => r == Err::<&RemoteUrl, SyncError>(SyncError::MissingRemote),
            },
    {
        match &self.remote {
            Some(u) => Ok(u),
            None => Err(SyncError::MissingRemote),
        }
    }

    /// The configuration to activate; `MissingConfiguration` when none is set.
    pub fn configuration(&self) -> (r: Result<&str, SyncError>)
        ensures
            match self.configuration {
                Some(c) => r is Ok && r->Ok_0@ == c@,
                None => r == Err::<&str, SyncError>(SyncError::MissingConfiguration),
            },
    {
        match &self.configuration {
            Some(c) => Ok(c.as_str()),
            None => Err(SyncError::MissingConfiguration),
        }
    }

    /// The version tag of the last activated remote content; empty when
    /// never synced.
    pub fn last_etag(&self) -> (r: &str)
        ensures
            r@ == self.last_etag@,
    {
        self.last_etag.as_str()
    }
}

impl Default for Config {
    /// A fresh state created now.
    fn default() -> (r: Config)
        ensures
            exists|now: int| r@ == fresh_model(now),
            r.wf(),
    {
        Config::new_at(now_unix_secs())
    }
}

} // verus!
