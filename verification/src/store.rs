//! The shared measurement/settings store.
//!
//! One long-lived record of the latest readings and the operator-tunable
//! settings, read and written concurrently by the control loop, the HTTP
//! handlers and the periodic timers. The record sits behind a verified
//! reader-writer lock whose invariant says that the stored measurement is
//! never torn: its three fields always come from one single commit. A
//! reader therefore never sees a reading paired with another iteration's
//! timestamp; writers replace the measurement wholesale, last write wins.

use vstd::prelude::*;
use vstd::rwlock::RwLock;
use vstd::rwlock::RwLockPredicate;

verus! {

/// The latest readings: CO2 in parts per million, PM2.5 in micrograms per
/// cubic meter, and the unix-seconds timestamp of the iteration that took
/// them (`None` while the clock has never synced).
///
/// The ghost `committed` field remembers the one triple the record was
/// created from, so that "all three fields stem from the same commit" is a
/// statable invariant.
#[derive(Clone, Copy)]
pub struct MeasuredData {
    pub co2: u16,
    pub pm25: u16,
    pub timestamp: Option<i64>,
    pub committed: Ghost<(u16, u16, Option<i64>)>,
}

impl MeasuredData {
    /// The record carries exactly the triple it was committed with: no
    /// field was replaced separately after the fact.
    pub open spec fn untorn(&self) -> bool {
        self.committed@ == (self.co2, self.pm25, self.timestamp)
    }

    /// A record built wholesale from one measurement triple.
    pub fn new(co2: u16, pm25: u16, timestamp: Option<i64>) -> (m: MeasuredData)
        ensures
            m.co2 == co2,
            m.pm25 == pm25,
            m.timestamp == timestamp,
            m.untorn(),
    {
        MeasuredData { co2, pm25, timestamp, committed: Ghost((co2, pm25, timestamp)) }
    }
}

impl Default for MeasuredData {
    /// Zero readings, no timestamp: what the store holds before the first
    /// control-loop iteration commits.
    fn default() -> (m: MeasuredData)
        ensures
            m.co2 == 0,
            m.pm25 == 0,
            m.timestamp is None,
            m.untorn(),
    {
        MeasuredData::new(0, 0, None)
    }
}

/// The operator-tunable settings.
#[derive(Debug, Clone, Copy)]
pub struct Settings {
    pub brightness: u8,
}

/// The whole shared record: latest measurement plus settings.
#[derive(Clone, Copy)]
pub struct State {
    pub measured_data: MeasuredData,
    pub settings: Settings,
}

impl State {
    /// Every value the store may hold: the measurement is untorn.
    pub open spec fn wf(&self) -> bool {
        self.measured_data.untorn()
    }

    /// Zero readings, no timestamp, the given initial brightness.
    pub fn new(brightness: u8) -> (s: State)
        ensures
            s.measured_data.co2 == 0,
            s.measured_data.pm25 == 0,
            s.measured_data.timestamp is None,
            s.settings.brightness == brightness,
            s.wf(),
    {
        State { measured_data: MeasuredData::default(), settings: Settings { brightness } }
    }

    /// Replaces the measurement wholesale with one new triple; the
    /// settings are untouched.
    pub fn commit_measurement(&mut self, co2: u16, pm25: u16, timestamp: Option<i64>)
        ensures
            final(self).measured_data.co2 == co2,
            final(self).measured_data.pm25 == pm25,
            final(self).measured_data.timestamp == timestamp,
            final(self).measured_data.untorn(),
            final(self).settings == old(self).settings,
    {
        self.measured_data = MeasuredData::new(co2, pm25, timestamp);
    }
}

/// The lock invariant of the shared store: only well-formed records go in.
pub struct StorePred {}

impl RwLockPredicate<State> for StorePred {
    open spec fn inv(self, s: State) -> bool {
        s.wf()
    }
}

/// The shared store itself: the record behind a verified reader-writer
/// lock. Readers may proceed concurrently; each writer operation holds the
/// lock for exactly its read-then-decide-then-write sequence.
pub struct SharedStore {
    lock: RwLock<State, StorePred>,
}

impl SharedStore {
    /// What every value stored in the lock satisfies, and so what every
    /// reader observes.
    pub open spec fn inv(&self, s: State) -> bool {
        s.wf()
    }

    /// No reader ever observes a torn measurement: any state a read of the
    /// store can return satisfies the lock invariant, so its measurement
    /// fields all stem from one single commit.
    pub proof fn lemma_no_torn_read(&self, s: State)
        requires
            self.inv(s),
        ensures
            s.measured_data.untorn(),
    {
    }

    /// A fresh store: zero readings, no timestamp, the given brightness.
    pub fn new(brightness: u8) -> (store: SharedStore) {
        SharedStore { lock: RwLock::new(State::new(brightness), Ghost(StorePred {})) }
    }

    /// Atomically commits one measurement triple, leaving the settings
    /// untouched. This is the control loop's once-per-iteration write.
    pub fn commit(&self, co2: u16, pm25: u16, timestamp: Option<i64>) {
        let (mut state, handle) = self.lock.acquire_write();
        state.commit_measurement(co2, pm25, timestamp);
        handle.release_write(state);
    }

    /// An atomic snapshot of the whole shared record, taken under a read
    /// lock: its measurement is untorn.
    pub fn snapshot(&self) -> (s: State)
        ensures
            s.wf(),
            s.measured_data.untorn(),
    {
        let handle = self.lock.acquire_read();
        let state = *handle.borrow();
        handle.release_read();
        state
    }

    /// Atomically sets the brightness setting, leaving the measurement
    /// untouched. This is the HTTP brightness operation's write.
    pub fn set_brightness(&self, brightness: u8) {
        let (mut state, handle) = self.lock.acquire_write();
        state.settings = Settings { brightness };
        handle.release_write(state);
    }

    /// The brightness setting, read under a read lock.
    pub fn get_brightness(&self) -> u8 {
        let handle = self.lock.acquire_read();
        let brightness = handle.borrow().settings.brightness;
        handle.release_read();
        brightness
    }
}

} // verus!
