//! Session counters: how many reads and writes this process has served since
//! it came up, plus the startup moment itself. The counts are not persisted.

use vstd::prelude::*;

verus! {

/// State shared by every request worker: two monotone counters and the
/// startup timestamp. Workers that share one value of this type must
/// serialize access to it themselves (for instance behind a mutex); each
/// increment is then applied exactly once and none is lost.
pub struct AppState {
    read_count: u64,
    write_count: u64,
    startup_unix_seconds: i64,
}

/// A counter bumped by one, staying at the top of the range instead of
/// wrapping around.
pub open spec fn saturating_inc(c: u64) -> u64 {
    if c == u64::MAX {
        u64::MAX
    } else {
        (c + 1) as u64
    }
}

/// Relies on chrono's conversion from the system clock
/// (`DateTime<Utc>: From<SystemTime>`, then `DateTime::timestamp`), for the
/// current moment as whole seconds since the Unix epoch. The result depends
/// on the clock, so nothing is stated of it. The conversion handles a clock
/// before the epoch (a negative count) rather than panicking as
/// `chrono::Utc::now` would.
#[verifier::external_body]
fn now_unix_seconds() -> i64 {
    chrono::DateTime::<chrono::Utc>::from(std::time::SystemTime::now()).timestamp()
}

impl AppState {
    /// Reads served since startup.
    pub closed spec fn reads(&self) -> u64 {
        self.read_count
    }

    /// Writes served since startup.
    pub closed spec fn writes(&self) -> u64 {
        self.write_count
    }

    /// Whole seconds since the Unix epoch at the moment `new` ran.
    pub closed spec fn startup_seconds(&self) -> i64 {
        self.startup_unix_seconds
    }

    pub fn get_startup_unix_seconds(&self) -> (r: i64)
        ensures
            r == self.startup_seconds(),
    {
        self.startup_unix_seconds
    }

    /// Fresh state: both counters at zero, startup time taken from the clock.
    pub fn new() -> (r: AppState)
        ensures
            r.reads() == 0,
            r.writes() == 0,
    {
        let startup_unix_seconds = now_unix_seconds();
        AppState { read_count: 0, write_count: 0, startup_unix_seconds }
    }

    pub fn get_reads(&self) -> (r: u64)
        ensures
            r == self.reads(),
    {
        self.read_count
    }

    pub fn get_writes(&self) -> (r: u64)
        ensures
            r == self.writes(),
    {
        self.write_count
    }

    pub fn increment_reads(&mut self)
        ensures
            final(self).reads() == saturating_inc(old(self).reads()),
            final(self).writes() == old(self).writes(),
            final(self).startup_seconds() == old(self).startup_seconds(),
    {
        if self.read_count < u64::MAX {
            self.read_count = self.read_count + 1;
        }
    }

    pub fn increment_writes(&mut self)
        ensures
            final(self).writes() == saturating_inc(old(self).writes()),
            final(self).reads() == old(self).reads(),
            final(self).startup_seconds() == old(self).startup_seconds(),
    {
        if self.write_count < u64::MAX {
            self.write_count = self.write_count + 1;
        }
    }
}

/// The value of a counter after `n` single increments applied in turn.
pub open spec fn increments(c: u64, n: nat) -> u64
    decreases n,
{
    if n == 0 {
        c
    } else {
        saturating_inc(increments(c, (n - 1) as nat))
    }
}

/// No increment is lost: `n` increments applied one after another move a
/// counter from `c` to exactly `c + n`, as long as the range is not
/// exhausted. Callers that share one `AppState` serialize their increments,
/// so `n` serialized calls of `increment_writes` followed by `get_writes`
/// yield exactly `old + n`.
pub proof fn lemma_increments_accumulate(c: u64, n: nat)
    requires
        c + n <= u64::MAX,
    ensures
        increments(c, n) == c + n,
    decreases n,
{
    if n > 0 {
        lemma_increments_accumulate(c, (n - 1) as nat);
    }
}

} // verus!
