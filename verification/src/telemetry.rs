//! Aggregation of per-tick resource stats into histories and displayed
//! averages.
//!
//! Every fiftieth tick the current instantaneous values are appended to the
//! four metric histories; after the tick counter advances, a counter value
//! on the next fifty-boundary recomputes the four displayed averages over
//! the whole current windows.  CPU utilization is carried in hundredths of
//! a percent so the core stays in integers.

use vstd::prelude::*;

use crate::history::HistoryWindow;
use crate::history::mean_rounded_spec;
use crate::history::push_capped_spec;
use crate::disk::DiskSample;

verus! {

/// Ticks per history sample: one second of 20 ms ticks.
pub const TICKS_PER_SAMPLE: u32 = 50;

/// Whether a tick with this pre-increment counter value appends to the
/// histories.
pub open spec fn pushes_at(tick: u32) -> bool {
    tick % TICKS_PER_SAMPLE == 0
}

/// Whether a tick with this pre-increment counter value recomputes the
/// displayed averages; the counter wraps at its width.
pub open spec fn averages_at(tick: u32) -> bool {
    (((tick as int) + 1) % 0x1_0000_0000) % (TICKS_PER_SAMPLE as int) == 0
}

/// A metric window after one tick: grown by the instantaneous value on a
/// sample tick, untouched otherwise.
pub open spec fn window_after(w: Seq<u64>, tick: u32, v: u64) -> Seq<u64> {
    if pushes_at(tick) {
        push_capped_spec(w, v)
    } else {
        w
    }
}

/// A displayed average after one tick: the rounded mean of the given window
/// on an average tick, untouched otherwise.
pub open spec fn display_after(d: u64, w: Seq<u64>, tick: u32) -> int {
    if averages_at(tick) {
        mean_rounded_spec(w)
    } else {
        d as int
    }
}

/// On a tick that recomputes the averages, each displayed value equals the
/// rounded arithmetic mean of its whole window as it stands at that moment;
/// on any other tick the displayed value is untouched.
pub proof fn lemma_display_is_mean(d: u64, w: Seq<u64>, tick: u32)
    ensures
        averages_at(tick) ==> display_after(d, w, tick) == mean_rounded_spec(w),
        !averages_at(tick) ==> display_after(d, w, tick) == d,
{
}

/// Instantaneous resource stats read for one tick.
#[derive(Clone, Copy, Debug, PartialEq, Eq, Structural)]
pub struct TickStats {
    /// CPU utilization in hundredths of a percent.
    pub cpu_centi_percent: u64,
    /// Resident memory in bytes.
    pub memory_bytes: u64,
    /// Total system memory in bytes.
    pub memory_total: u64,
}

/// The four metric histories and their displayed averages.
pub struct Telemetry {
    /// CPU history, in hundredths of a percent.
    pub cpu_history: HistoryWindow,
    /// Resident memory history, in bytes.
    pub memory_history: HistoryWindow,
    /// Disk read delta history, in bytes.
    pub disk_read_history: HistoryWindow,
    /// Disk write delta history, in bytes.
    pub disk_write_history: HistoryWindow,
    /// Displayed CPU average, in hundredths of a percent.
    pub display_cpu_centi: u64,
    /// Displayed memory average, in bytes.
    pub display_memory: u64,
    /// Displayed disk read average, in bytes.
    pub display_disk_read: u64,
    /// Displayed disk write average, in bytes.
    pub display_disk_write: u64,
}

impl Telemetry {
    /// The four windows always move together: one sample is appended to
    /// each on the same tick, so their lengths stay equal.
    pub open spec fn windows_aligned(self) -> bool {
        &&& self.cpu_history.entries@.len() == self.memory_history.entries@.len()
        &&& self.cpu_history.entries@.len() == self.disk_read_history.entries@.len()
        &&& self.cpu_history.entries@.len() == self.disk_write_history.entries@.len()
    }

    /// All four windows are within their capacity and share one length.
    pub open spec fn wf(self) -> bool {
        &&& self.cpu_history.wf()
        &&& self.memory_history.wf()
        &&& self.disk_read_history.wf()
        &&& self.disk_write_history.wf()
        &&& self.windows_aligned()
    }

    /// Empty histories and zero displayed averages.
    pub fn new() -> (t: Telemetry)
        ensures
            t.cpu_history.entries@ == Seq::<u64>::empty(),
            t.memory_history.entries@ == Seq::<u64>::empty(),
            t.disk_read_history.entries@ == Seq::<u64>::empty(),
            t.disk_write_history.entries@ == Seq::<u64>::empty(),
            t.display_cpu_centi == 0,
            t.display_memory == 0,
            t.display_disk_read == 0,
            t.display_disk_write == 0,
            t.wf(),
    {
        Telemetry {
            cpu_history: HistoryWindow::new(),
            memory_history: HistoryWindow::new(),
            disk_read_history: HistoryWindow::new(),
            disk_write_history: HistoryWindow::new(),
            display_cpu_centi: 0,
            display_memory: 0,
            display_disk_read: 0,
            display_disk_write: 0,
        }
    }

    /// Feed one tick's stats and disk sample.  `tick` is the counter value
    /// before this tick advances it: a value on a fifty-boundary appends to
    /// the histories, and a counter landing on a fifty-boundary after the
    /// advance recomputes the displayed averages from the whole windows.
    pub fn record(&mut self, tick: u32, stats: TickStats, disk: DiskSample)
        requires
            old(self).wf(),
        ensures
            final(self).wf(),
            final(self).cpu_history.entries@
                == window_after(old(self).cpu_history.entries@, tick, stats.cpu_centi_percent),
            final(self).memory_history.entries@
                == window_after(old(self).memory_history.entries@, tick, stats.memory_bytes),
            final(self).disk_read_history.entries@
                == window_after(old(self).disk_read_history.entries@, tick, disk.read_delta),
            final(self).disk_write_history.entries@
                == window_after(old(self).disk_write_history.entries@, tick, disk.write_delta),
            final(self).display_cpu_centi
                == display_after(old(self).display_cpu_centi, final(self).cpu_history.entries@, tick),
            final(self).display_memory
                == display_after(old(self).display_memory, final(self).memory_history.entries@, tick),
            final(self).display_disk_read
                == display_after(old(self).display_disk_read, final(self).disk_read_history.entries@, tick),
            final(self).display_disk_write
                == display_after(old(self).display_disk_write, final(self).disk_write_history.entries@, tick),
    {
        if tick % TICKS_PER_SAMPLE == 0 {
            self.cpu_history.push_capped(stats.cpu_centi_percent);
            self.memory_history.push_capped(stats.memory_bytes);
            self.disk_read_history.push_capped(disk.read_delta);
            self.disk_write_history.push_capped(disk.write_delta);
        }
        let next = if tick == u32::MAX { 0 } else { tick + 1 };
        if next % TICKS_PER_SAMPLE == 0 {
            self.display_cpu_centi = self.cpu_history.mean_rounded();
            self.display_memory = self.memory_history.mean_rounded();
            self.display_disk_read = self.disk_read_history.mean_rounded();
            self.display_disk_write = self.disk_write_history.mean_rounded();
        }
    }
}

} // verus!
