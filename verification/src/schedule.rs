//! When to announce this client, and when to ask the network to describe
//! itself again.
//!
//! Times are nanoseconds since an instant the caller fixes, usually when the
//! client was built; spans are nanoseconds.

use vstd::prelude::*;

use crate::error::SendError;

verus! {

/// The base announcement interval, matching the firmware's own: 2.5s.
pub const HELLO_BASE: u64 = 2_500_000_000;

/// The width of the announcement jitter, drawn afresh after each send so a
/// mesh full of clients does not fall into step: up to another 2.5s.
pub const HELLO_JITTER: u64 = 2_500_000_000;

/// Shortest gap between two discovery requests: 5s.
pub const DISCOVER_INTERVAL: u64 = 5_000_000_000;

/// How long a device that has announced itself is given to finish sending its
/// configuration before discovery is asked for again: 15s.
pub const CONFIG_GRACE: u64 = 15_000_000_000;

/// How often the background thread re-examines the network: 1s.
pub const PROBE_TICK: u64 = 1_000_000_000;

/// How often that thread looks up from waiting to see whether it should stop:
/// 50ms.
pub const SHUTDOWN_POLL: u64 = 50_000_000;

/// The time elapsed from `earlier` to `now`, or zero if `now` is before it.
pub open spec fn since(now: u64, earlier: u64) -> int {
    if now >= earlier {
        now - earlier
    } else {
        0
    }
}

/// The announcement interval a two-byte draw stands for: the base plus the
/// share of the jitter that the draw, read big-endian, is of 65536. A draw
/// that could not be made falls in the middle of the range.
pub open spec fn interval_for(draw: Option<(u8, u8)>) -> int {
    match draw {
        Some((hi, lo)) => HELLO_BASE + (HELLO_JITTER as int * (hi as int * 256 + lo as int)) / 65536,
        None => HELLO_BASE + HELLO_JITTER / 2,
    }
}

/// The interval a draw stands for, as [`interval_for`] states it.
pub fn hello_interval_from_draw(draw: Option<(u8, u8)>) -> (interval: u64)
    ensures
        interval == interval_for(draw),
        HELLO_BASE <= interval <= HELLO_BASE + HELLO_JITTER,
{
    match draw {
        Some((hi, lo)) => {
            let fraction: u64 = (hi as u64) * 256 + (lo as u64);
            assert(fraction <= 65535);
            assert(HELLO_JITTER * fraction <= HELLO_JITTER * 65535) by (nonlinear_arith)
                requires
                    fraction <= 65535,
            ;
            assert((HELLO_JITTER as int * fraction as int) / 65536 <= HELLO_JITTER) by (
            nonlinear_arith)
                requires
                    fraction <= 65535,
            ;
            HELLO_BASE + (HELLO_JITTER * fraction) / 65536
        },
        None => HELLO_BASE + HELLO_JITTER / 2,
    }
}

/// An error `getrandom` reported, by its code.
#[derive(Clone, Copy, Debug, PartialEq, Eq)]
pub struct RandomError {
    /// The code `getrandom::Error::code` reports; never zero.
    pub code: u32,
}

#[verifier::external_type_specification]
#[verifier::external_body]
pub struct ExGetrandomError(getrandom::Error);

/// Fills `dest` from the operating system's random source through
/// `getrandom::getrandom`. What the bytes are is chance; the call never
/// changes how many there are.
#[verifier::external_body]
fn fill_random(dest: &mut [u8]) -> (r: Result<(), getrandom::Error>)
    ensures
        final(dest)@.len() == old(dest)@.len(),
{
    getrandom::getrandom(dest)
}

/// The code a `getrandom` error carries, through `getrandom::Error::code`,
/// which is a non-zero integer.
#[verifier::external_body]
fn random_error_code(e: &getrandom::Error) -> (code: u32)
    ensures
        code != 0,
{
    e.code().get()
}

/// Draws `N` random bytes.
fn random_bytes<const N: usize>() -> (r: Result<[u8; N], RandomError>)
    ensures
        r matches Err(e) ==> e.code != 0,
{
    let mut bytes = [0u8; N];
    match fill_random(&mut bytes) {
        Ok(()) => Ok(bytes),
        Err(e) => Err(RandomError { code: random_error_code(&e) }),
    }
}

/// Draws the next announcement interval, in
/// `HELLO_BASE..=HELLO_BASE + HELLO_JITTER`.
///
/// A draw that cannot be made falls in the middle of the range, which still
/// announces on time and only gives up the collision avoidance.
pub fn next_hello_interval() -> (interval: u64)
    ensures
        HELLO_BASE <= interval <= HELLO_BASE + HELLO_JITTER,
        exists|draw: Option<(u8, u8)>| interval == interval_for(draw),
{
    let draw: Option<(u8, u8)> = match random_bytes::<2>() {
        Ok(b) => Some((b[0], b[1])),
        Err(_) => None,
    };
    hello_interval_from_draw(draw)
}

/// Draws a fresh client identifier.
pub fn generate_uid() -> (r: Result<crate::ident::DeviceUid, RandomError>)
    ensures
        r matches Err(e) ==> e.code != 0,
{
    match random_bytes::<16>() {
        Ok(bytes) => Ok(crate::ident::DeviceUid::from_array(bytes)),
        Err(e) => Err(e),
    }
}

/// The two timers the background thread drives.
#[derive(Debug)]
pub struct Schedule {
    /// When this client last announced itself, or `None` before it ever has.
    pub last_hello: Option<u64>,
    /// How long after the last announcement the next is due.
    pub hello_interval: u64,
    /// When discovery was last asked for, or `None` before it ever was.
    pub last_discover: Option<u64>,
}

impl Schedule {
    /// Whether the announcement interval has elapsed at `now`. A client that
    /// has never announced is always due.
    pub open spec fn spec_announce_due(&self, now: u64) -> bool {
        match self.last_hello {
            None => true,
            Some(last) => since(now, last) >= self.hello_interval,
        }
    }

    /// Whether discovery may be asked for again at `now`.
    pub open spec fn spec_discover_due(&self, now: u64) -> bool {
        match self.last_discover {
            None => true,
            Some(last) => since(now, last) >= DISCOVER_INTERVAL,
        }
    }

    /// A schedule under which nothing has happened yet.
    pub fn new() -> (s: Schedule)
        ensures
            s.last_hello is None,
            s.last_discover is None,
            HELLO_BASE <= s.hello_interval <= HELLO_BASE + HELLO_JITTER,
    {
        Schedule { last_hello: None, hello_interval: next_hello_interval(), last_discover: None }
    }

    /// Whether the announcement interval has elapsed.
    pub fn announce_due(&self, now: u64) -> (b: bool)
        ensures
            b == self.spec_announce_due(now),
    {
        match self.last_hello {
            None => true,
            Some(last) => now.saturating_sub(last) >= self.hello_interval,
        }
    }

    /// Records an announcement and draws the next interval.
    pub fn announced(&mut self, now: u64)
        ensures
            final(self).last_hello == Some(now),
            final(self).last_discover == old(self).last_discover,
            HELLO_BASE <= final(self).hello_interval <= HELLO_BASE + HELLO_JITTER,
    {
        self.last_hello = Some(now);
        self.hello_interval = next_hello_interval();
    }

    /// Whether discovery may be asked for again.
    pub fn discover_due(&self, now: u64) -> (b: bool)
        ensures
            b == self.spec_discover_due(now),
    {
        match self.last_discover {
            None => true,
            Some(last) => now.saturating_sub(last) >= DISCOVER_INTERVAL,
        }
    }

    /// Records a discovery request.
    pub fn discovered(&mut self, now: u64)
        ensures
            final(self).last_discover == Some(now),
            final(self).last_hello == old(self).last_hello,
            final(self).hello_interval == old(self).hello_interval,
    {
        self.last_discover = Some(now);
    }

    /// The announcement timer as it stands.
    pub fn hello_timer(&self) -> (t: (Option<u64>, u64))
        ensures
            t == (self.last_hello, self.hello_interval),
    {
        (self.last_hello, self.hello_interval)
    }

    /// Sets the announcement timer outright.
    pub fn set_hello_timer(&mut self, last: Option<u64>, interval: u64)
        ensures
            final(self).last_hello == last,
            final(self).hello_interval == interval,
            final(self).last_discover == old(self).last_discover,
    {
        self.last_hello = last;
        self.hello_interval = interval;
    }
}

/// What the probe thread holds between ticks: the timers, and whether the
/// client is closing.
#[derive(Debug)]
pub struct Probe {
    pub schedule: Schedule,
    pub closing: bool,
}

/// What one tick of the probe thread does.
#[derive(Clone, Copy, Debug, PartialEq, Eq)]
pub struct TickActions {
    /// Announce this client.
    pub announce: bool,
    /// Ask every device to describe itself.
    pub discover: bool,
}

/// How far along one device is in describing itself.
#[derive(Clone, Copy, Debug, PartialEq, Eq)]
pub struct DeviceProgress {
    /// Whether every part of its configuration has arrived.
    pub configuration_complete: bool,
    /// When its hello was received.
    pub hello_received: u64,
}

/// Whether the network should be asked to describe itself again: a device
/// has been silent past the grace period without finishing, or no device has
/// finished at all.
pub open spec fn spec_wants_discover(devices: Seq<DeviceProgress>, now: u64) -> bool {
    (exists|i: int|
        0 <= i < devices.len() && !devices[i].configuration_complete && since(
            now,
            devices[i].hello_received,
        ) > CONFIG_GRACE) || !(exists|i: int|
        0 <= i < devices.len() && devices[i].configuration_complete)
}

/// Whether the network should be asked to describe itself again.
pub fn wants_discover(devices: &[DeviceProgress], now: u64) -> (b: bool)
    ensures
        b == spec_wants_discover(devices@, now),
{
    let mut incomplete = false;
    let mut any_complete = false;
    let mut i: usize = 0;
    while i < devices.len()
        invariant
            i <= devices@.len(),
            incomplete == (exists|j: int|
                0 <= j < i && !devices@[j].configuration_complete && since(
                    now,
                    devices@[j].hello_received,
                ) > CONFIG_GRACE),
            any_complete == (exists|j: int| 0 <= j < i && devices@[j].configuration_complete),
        decreases devices@.len() - i,
    {
        let d = devices[i];
        if d.configuration_complete {
            any_complete = true;
        } else if now.saturating_sub(d.hello_received) > CONFIG_GRACE {
            incomplete = true;
        }
        i = i + 1;
    }
    incomplete || !any_complete
}

impl Probe {
    /// A probe that is running and has done nothing yet.
    pub fn new() -> (p: Probe)
        ensures
            !p.closing,
            p.schedule.last_hello is None,
            p.schedule.last_discover is None,
    {
        Probe { schedule: Schedule::new(), closing: false }
    }

    /// Whether it is time to announce again: never while closing, and
    /// otherwise whenever the interval has elapsed, whether or not anything
    /// has been heard in the meantime.
    pub fn announce_due(&self, now: u64) -> (b: bool)
        ensures
            b == (!self.closing && self.schedule.spec_announce_due(now)),
    {
        !self.closing && self.schedule.announce_due(now)
    }

    /// What one tick does, given whether the devices want discovery.
    pub fn tick(&self, want_discover: bool, now: u64) -> (t: TickActions)
        ensures
            t.announce == (!self.closing && self.schedule.spec_announce_due(now)),
            t.discover == (want_discover && self.schedule.spec_discover_due(now)),
    {
        let discover_due = self.schedule.discover_due(now);
        TickActions { announce: self.announce_due(now), discover: want_discover && discover_due }
    }

    /// Records the outcome of an announcement. Only a frame that got away
    /// re-arms the timer, so a failed send is retried on the next tick rather
    /// than costing a whole interval.
    pub fn announce_sent(&mut self, sent: Result<usize, SendError>, now: u64)
        ensures
            final(self).closing == old(self).closing,
            final(self).schedule.last_discover == old(self).schedule.last_discover,
            match sent {
                Ok(n) if n > 0 => final(self).schedule.last_hello == Some(now) && HELLO_BASE
                    <= final(self).schedule.hello_interval <= HELLO_BASE + HELLO_JITTER,
                _ => final(self).schedule.last_hello == old(self).schedule.last_hello
                    && final(self).schedule.hello_interval == old(self).schedule.hello_interval,
            },
    {
        match sent {
            Ok(n) => {
                if n > 0 {
                    self.schedule.announced(now);
                }
            },
            Err(_) => {},
        }
    }

    /// Records that discovery was asked for, whether or not the frame left.
    pub fn discover_sent(&mut self, now: u64)
        ensures
            final(self).closing == old(self).closing,
            final(self).schedule.last_discover == Some(now),
            final(self).schedule.last_hello == old(self).schedule.last_hello,
            final(self).schedule.hello_interval == old(self).schedule.hello_interval,
    {
        self.schedule.discovered(now);
    }
}

/// After an announcement at `at`, the next is due exactly once the interval
/// drawn for it has passed: not a moment before, and at any time after.
pub proof fn lemma_announcement_is_a_timer(s: Schedule, at: u64, now: u64)
    requires
        s.last_hello == Some(at),
        now >= at,
    ensures
        s.spec_announce_due(now) <==> now - at >= s.hello_interval,
        s.spec_announce_due(now) ==> forall|later: u64| later >= now ==> s.spec_announce_due(later),
{
}

/// Once discovery has been asked for, it is not asked for again within
/// [`DISCOVER_INTERVAL`], and is allowed again from then on.
pub proof fn lemma_discovery_is_rate_limited(s: Schedule, at: u64, now: u64)
    requires
        s.last_discover == Some(at),
        now >= at,
    ensures
        s.spec_discover_due(now) <==> now - at >= DISCOVER_INTERVAL,
{
}

} // verus!
