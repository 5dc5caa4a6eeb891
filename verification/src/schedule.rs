//! The periodic duties of a headless run: saving the identity every 100
//! thoughts or 30 seconds, a consolidation pass (a "mini-dream") every 500
//! cycles, and a status line every 1000 cycles.
use vstd::prelude::*;

verus! {

/// Seconds between identity saves.
pub const IDENTITY_FLUSH_INTERVAL_SECS: u64 = 30;

/// Thoughts between identity saves.
pub const IDENTITY_FLUSH_THOUGHT_INTERVAL: u64 = 100;

/// Cycles between consolidation passes.
pub const CONSOLIDATION_INTERVAL_CYCLES: u64 = 500;

/// Memories replayed per consolidation pass.
pub const CONSOLIDATION_BATCH_SIZE: u32 = 10;

/// Cycles between status lines.
pub const STATUS_LOG_INTERVAL: u64 = 1000;

/// What to do after a cycle.
#[derive(Debug, Clone, Copy, PartialEq, Eq, Structural)]
pub struct CycleDuties {
    /// Save the identity (and restart the flush timer)
    pub flush_identity: bool,
    /// Run a consolidation pass
    pub consolidate: bool,
    /// Log a status line
    pub log_status: bool,
}

/// The counters of a headless run.
#[derive(Debug, Clone, Copy, PartialEq, Eq, Structural)]
pub struct HeadlessSchedule {
    /// Cycles run this session
    pub cycles: u64,
    /// Thoughts recorded since the identity was last saved
    pub thoughts_since_flush: u64,
    /// Cycles since the last consolidation pass
    pub cycles_since_consolidation: u64,
    /// Consolidation passes that consolidated something
    pub total_dream_cycles: u64,
}

impl HeadlessSchedule {
    /// A fresh schedule, continuing a lifetime count of dream cycles.
    pub fn new(total_dream_cycles: u64) -> (s: HeadlessSchedule)
        ensures
            s == (HeadlessSchedule { cycles: 0, thoughts_since_flush: 0, cycles_since_consolidation: 0, total_dream_cycles }),
    {
        HeadlessSchedule { cycles: 0, thoughts_since_flush: 0, cycles_since_consolidation: 0, total_dream_cycles }
    }

    /// Accounts for one finished cycle. With a loaded identity the thought is
    /// counted, and the identity is saved once 100 thoughts are pending or 30
    /// seconds have passed since the last save; a consolidation pass falls
    /// due every 500 cycles; a status line every 1000 cycles.
    pub fn after_cycle(&mut self, has_identity: bool, secs_since_flush: u64) -> (d: CycleDuties)
        requires
            old(self).cycles < u64::MAX,
            old(self).thoughts_since_flush < u64::MAX,
            old(self).cycles_since_consolidation < u64::MAX,
        ensures
            final(self).cycles == old(self).cycles + 1,
            d.flush_identity == (has_identity && (old(self).thoughts_since_flush + 1 >= IDENTITY_FLUSH_THOUGHT_INTERVAL
                || secs_since_flush >= IDENTITY_FLUSH_INTERVAL_SECS)),
            final(self).thoughts_since_flush == if !has_identity {
                old(self).thoughts_since_flush
            } else if d.flush_identity {
                0
            } else {
                (old(self).thoughts_since_flush + 1) as u64
            },
            d.consolidate == (old(self).cycles_since_consolidation + 1 >= CONSOLIDATION_INTERVAL_CYCLES),
            final(self).cycles_since_consolidation == if d.consolidate { 0 } else { (old(self).cycles_since_consolidation + 1) as u64 },
            d.log_status == ((old(self).cycles + 1) % STATUS_LOG_INTERVAL as int == 0),
            final(self).total_dream_cycles == old(self).total_dream_cycles,
            old(self).thoughts_since_flush < IDENTITY_FLUSH_THOUGHT_INTERVAL
                ==> final(self).thoughts_since_flush < IDENTITY_FLUSH_THOUGHT_INTERVAL,
            old(self).cycles_since_consolidation < CONSOLIDATION_INTERVAL_CYCLES
                ==> final(self).cycles_since_consolidation < CONSOLIDATION_INTERVAL_CYCLES,
    {
        self.cycles = self.cycles + 1;
        let mut flush = false;
        if has_identity {
            self.thoughts_since_flush = self.thoughts_since_flush + 1;
            flush = self.thoughts_since_flush >= IDENTITY_FLUSH_THOUGHT_INTERVAL
                || secs_since_flush >= IDENTITY_FLUSH_INTERVAL_SECS;
            if flush {
                self.thoughts_since_flush = 0;
            }
        }
        self.cycles_since_consolidation = self.cycles_since_consolidation + 1;
        let consolidate = self.cycles_since_consolidation >= CONSOLIDATION_INTERVAL_CYCLES;
        if consolidate {
            self.cycles_since_consolidation = 0;
        }
        CycleDuties { flush_identity: flush, consolidate, log_status: self.cycles % STATUS_LOG_INTERVAL == 0 }
    }

    /// Accounts for a consolidation pass that consolidated `consolidated`
    /// memories: it counts as a dream cycle when it consolidated any. Returns
    /// whether it did.
    pub fn after_consolidation(&mut self, consolidated: u32) -> (dreamt: bool)
        requires
            old(self).total_dream_cycles < u64::MAX,
        ensures
            dreamt == (consolidated > 0),
            final(self).total_dream_cycles == old(self).total_dream_cycles + if dreamt { 1int } else { 0int },
            final(self).cycles == old(self).cycles,
            final(self).thoughts_since_flush == old(self).thoughts_since_flush,
            final(self).cycles_since_consolidation == old(self).cycles_since_consolidation,
    {
        if consolidated > 0 {
            self.total_dream_cycles = self.total_dream_cycles + 1;
            true
        } else {
            false
        }
    }
}

} // verus!
