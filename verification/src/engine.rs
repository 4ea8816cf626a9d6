//! The event-loop state machine of the supervisor.
//!
//! The surrounding runtime races four sources — cancellation, the next
//! output line, a child-exit check and a fixed tick — and feeds whichever
//! won as one event.  The engine holds all loop state, decides every
//! transition, and hands back what the runtime should do: keep going,
//! render a freshly built snapshot, or stop (with or without killing the
//! child).  All terminal, process and clock work stays outside.

use vstd::prelude::*;

use crate::config::Config;
use crate::disk::DiskSample;
use crate::output::OutputBuffer;
use crate::output::append_spec;
use crate::scroll::ScrollEvent;
use crate::scroll::ScrollState;
use crate::scroll::sat_sub_usize;
use crate::scroll::visible_window_start;
use crate::telemetry::TickStats;
use crate::telemetry::Telemetry;
use crate::telemetry::display_after;
use crate::telemetry::window_after;
use crate::textwrap::join_spaced;
use crate::textwrap::join_words;

verus! {

/// Frames in one cycle of the header animation.
pub const ANIMATION_CYCLE_FRAMES: u32 = 110;

/// A key event already translated for the core.
#[derive(Clone, Copy, Debug, PartialEq, Eq, Structural)]
pub enum KeyInput {
    /// Kill the child and stop.
    ForceKill,
    /// Drive the scroll state machine.
    Scroll(ScrollEvent),
}

/// One terminal input event delivered during a tick.
#[derive(Clone, Copy, Debug, PartialEq, Eq, Structural)]
pub enum UiInput {
    /// The terminal was resized to the given width and height.
    Resize(u16, u16),
    /// A key was pressed.
    Key(KeyInput),
}

/// Everything the runtime gathered for one tick.
#[derive(Clone, Copy, Debug)]
pub struct TickInput {
    /// Whether the child process has exited.
    pub child_exited: bool,
    /// At most one terminal event polled during this tick.
    pub input: Option<UiInput>,
    /// Instantaneous resource stats for this tick.
    pub stats: TickStats,
    /// At most one disk sample drained during this tick.
    pub disk: Option<DiskSample>,
    /// Time since the supervisor started.
    pub elapsed: std::time::Duration,
}

/// One event fed to the engine: whichever of the raced sources won.
#[derive(Clone, Debug)]
pub enum EngineEvent {
    /// External cancellation.
    Cancel,
    /// One decoded output line arrived.
    Line(String),
    /// The tick timer fired.
    Tick(TickInput),
}

/// Why the loop stops.
#[derive(Clone, Copy, Debug, PartialEq, Eq, Structural)]
pub enum ExitReason {
    /// External cancellation: the child is killed.
    Cancelled,
    /// A force-kill key: the child is killed.
    ForceKilled,
    /// The child already exited on its own.
    ChildExited,
}

impl ExitReason {
    /// Whether the runtime should kill the child on this exit.
    pub fn kills_child(&self) -> (k: bool)
        ensures
            k == (*self != ExitReason::ChildExited),
    {
        match self {
            ExitReason::Cancelled => true,
            ExitReason::ForceKilled => true,
            ExitReason::ChildExited => false,
        }
    }
}

/// What the runtime should do after one event.
#[derive(Clone, Debug)]
pub enum EngineStep {
    /// Keep racing the sources.
    Continue,
    /// Hand this snapshot to the renderer, then keep going.
    Render(Snapshot),
    /// Stop the loop.
    Exit(ExitReason),
}

/// An immutable view of the loop state built once per tick for the
/// renderer.
#[derive(Clone, Debug)]
pub struct Snapshot {
    /// The supervised command, joined into one line.
    pub command_text: String,
    /// Working directory at startup.
    pub pwd: String,
    /// Time since the supervisor started.
    pub elapsed: std::time::Duration,
    /// Child process id.
    pub pid: u32,
    /// The supervisor's own process id.
    pub ppid: u32,
    /// Animation frame to draw; zero whenever animation is disabled.
    pub animation_frame: u32,
    /// Number of buffered output lines.
    pub total_lines: usize,
    /// First visible output line, derived from the scroll state.
    pub visible_start: usize,
    /// Whether the view follows the newest output.
    pub follow: bool,
    /// Scroll-back offset.
    pub offset: usize,
    /// Displayed CPU average, in hundredths of a percent.
    pub display_cpu_centi: u64,
    /// Displayed memory average, in bytes.
    pub display_memory: u64,
    /// Displayed disk read average, in bytes.
    pub display_disk_read: u64,
    /// Displayed disk write average, in bytes.
    pub display_disk_write: u64,
    /// Total system memory, in bytes.
    pub memory_total: u64,
    /// CPU history, in hundredths of a percent.
    pub cpu_history: Vec<u64>,
    /// Resident memory history, in bytes.
    pub memory_history: Vec<u64>,
    /// Disk read delta history, in bytes.
    pub disk_read_history: Vec<u64>,
    /// Disk write delta history, in bytes.
    pub disk_write_history: Vec<u64>,
    /// Terminal width.
    pub width: u16,
    /// Terminal height.
    pub height: u16,
    /// Configured sidebar width.
    pub sidebar_width: u16,
    /// Configured bound on command display lines.
    pub max_command_lines: usize,
}

/// Page size for page scroll moves: the terminal height less the frame
/// rows, capped at twenty lines.
pub open spec fn page_height_spec(height: u16) -> usize {
    let uncapped = sat_sub_u16(height, 4) as usize;
    if uncapped < 20 {
        uncapped
    } else {
        20usize
    }
}

/// Lines of output visible in the main view: the terminal height less the
/// two border rows.
pub open spec fn visible_height_spec(height: u16) -> usize {
    sat_sub_u16(height, 2) as usize
}

/// Saturating subtraction on u16, at the spec level.
pub open spec fn sat_sub_u16(a: u16, b: u16) -> u16 {
    if a >= b {
        (a - b) as u16
    } else {
        0u16
    }
}

/// The tick counter after one tick; it wraps at its width.
pub open spec fn next_tick(t: u32) -> u32 {
    (((t as int) + 1) % 0x1_0000_0000) as u32
}

/// The animation frame after one tick.
pub open spec fn next_frame(f: u32) -> u32 {
    (((f as int) + 1) % (ANIMATION_CYCLE_FRAMES as int)) as u32
}

/// The disk sample for a tick: the drained one, or zero when none was
/// pending.
pub open spec fn disk_or_zero(d: Option<DiskSample>) -> DiskSample {
    match d {
        Some(s) => s,
        None => DiskSample { read_delta: 0, write_delta: 0 },
    }
}

/// The whole state of the supervision loop.
pub struct Engine {
    /// Configuration fixed at startup.
    pub config: Config,
    /// The supervised command's words.
    pub command: Vec<String>,
    /// Working directory at startup.
    pub pwd: String,
    /// Child process id (zero if unavailable).
    pub pid: u32,
    /// The supervisor's own process id.
    pub ppid: u32,
    /// Bounded buffer of output lines.
    pub buffer: OutputBuffer,
    /// Follow/scroll state of the output view.
    pub scroll: ScrollState,
    /// Metric histories and displayed averages.
    pub telemetry: Telemetry,
    /// Current terminal width.
    pub width: u16,
    /// Current terminal height.
    pub height: u16,
    /// Ticks handled so far; wraps at its width.
    pub tick_count: u32,
    /// Current animation frame, always below the cycle length.
    pub animation_frame: u32,
}

impl Engine {
    /// The state invariant: buffer within its configured bound, scroll
    /// state consistent, histories within capacity, frame within the
    /// cycle.
    pub open spec fn wf(self) -> bool {
        &&& self.buffer.wf()
        &&& self.buffer.max_lines == self.config.app.output.max_output_lines
        &&& self.scroll.wf()
        &&& self.telemetry.wf()
        &&& self.animation_frame < ANIMATION_CYCLE_FRAMES
    }

    /// The fields fixed at startup are untouched by an event.
    pub open spec fn statics_unchanged(pre: Engine, post: Engine) -> bool {
        &&& post.config == pre.config
        &&& post.command == pre.command
        &&& post.pwd == pre.pwd
        &&& post.pid == pre.pid
        &&& post.ppid == pre.ppid
    }

    /// A fresh engine: empty buffer at the configured bound, follow mode,
    /// empty histories, tick and frame at zero.
    pub fn new(config: Config, command: Vec<String>, pwd: String, pid: u32, ppid: u32, width: u16, height: u16) -> (e: Engine)
        ensures
            e.wf(),
            e.config == config,
            e.command == command,
            e.pwd == pwd,
            e.pid == pid,
            e.ppid == ppid,
            e.buffer.view_lines() == Seq::<Seq<char>>::empty(),
            e.scroll == (ScrollState { follow: true, offset: 0 }),
            e.telemetry.cpu_history.entries@ == Seq::<u64>::empty(),
            e.telemetry.memory_history.entries@ == Seq::<u64>::empty(),
            e.telemetry.disk_read_history.entries@ == Seq::<u64>::empty(),
            e.telemetry.disk_write_history.entries@ == Seq::<u64>::empty(),
            e.telemetry.display_cpu_centi == 0,
            e.telemetry.display_memory == 0,
            e.telemetry.display_disk_read == 0,
            e.telemetry.display_disk_write == 0,
            e.width == width,
            e.height == height,
            e.tick_count == 0,
            e.animation_frame == 0,
    {
        let max_lines = config.app.output.max_output_lines;
        Engine {
            config,
            command,
            pwd,
            pid,
            ppid,
            buffer: OutputBuffer::new(max_lines),
            scroll: ScrollState::new(),
            telemetry: Telemetry::new(),
            width,
            height,
            tick_count: 0,
            animation_frame: 0,
        }
    }

    /// The supervised command joined into one line for display.
    pub fn command_text(&self) -> (text: String)
        ensures
            text@ == join_spaced(self.command.deep_view()),
    {
        join_words(self.command.as_slice())
    }

    /// The scroll state after the key `ev` in the current state: page moves
    /// use the page height for the current terminal, and jumps to the top
    /// use the maximum scroll-back, the buffered lines beyond the visible
    /// height.
    pub open spec fn scroll_after(self, ev: ScrollEvent) -> ScrollState {
        let page = page_height_spec(self.height);
        let max_scroll = sat_sub_usize(self.buffer.lines.len(), visible_height_spec(self.height));
        self.scroll.step_spec(ev, page, max_scroll)
    }

    /// What one tick does to the loop state, apart from the exit checks:
    /// a resize updates the stored terminal size, a scroll key drives the
    /// scroll machine, the stats and the drained disk sample feed the
    /// telemetry at the pre-increment tick counter, and the counter and
    /// animation frame advance.
    pub open spec fn tick_transition(pre: Engine, post: Engine, t: TickInput) -> bool {
        let (w, h) = match t.input {
            Some(UiInput::Resize(rw, rh)) => (rw, rh),
            _ => (pre.width, pre.height),
        };
        let scroll = match t.input {
            Some(UiInput::Key(KeyInput::Scroll(ev))) => pre.scroll_after(ev),
            _ => pre.scroll,
        };
        let disk = disk_or_zero(t.disk);
        &&& Engine::statics_unchanged(pre, post)
        &&& post.width == w
        &&& post.height == h
        &&& post.scroll == scroll
        &&& post.buffer == pre.buffer
        &&& post.telemetry.cpu_history.entries@
            == window_after(pre.telemetry.cpu_history.entries@, pre.tick_count, t.stats.cpu_centi_percent)
        &&& post.telemetry.memory_history.entries@
            == window_after(pre.telemetry.memory_history.entries@, pre.tick_count, t.stats.memory_bytes)
        &&& post.telemetry.disk_read_history.entries@
            == window_after(pre.telemetry.disk_read_history.entries@, pre.tick_count, disk.read_delta)
        &&& post.telemetry.disk_write_history.entries@
            == window_after(pre.telemetry.disk_write_history.entries@, pre.tick_count, disk.write_delta)
        &&& post.telemetry.display_cpu_centi
            == display_after(pre.telemetry.display_cpu_centi, post.telemetry.cpu_history.entries@, pre.tick_count)
        &&& post.telemetry.display_memory
            == display_after(pre.telemetry.display_memory, post.telemetry.memory_history.entries@, pre.tick_count)
        &&& post.telemetry.display_disk_read
            == display_after(pre.telemetry.display_disk_read, post.telemetry.disk_read_history.entries@, pre.tick_count)
        &&& post.telemetry.display_disk_write
            == display_after(pre.telemetry.display_disk_write, post.telemetry.disk_write_history.entries@, pre.tick_count)
        &&& post.tick_count == next_tick(pre.tick_count)
        &&& post.animation_frame == next_frame(pre.animation_frame)
    }

    /// What the snapshot built on a tick shows of the state after the
    /// tick's updates; the animation frame shown is the one before the
    /// advance, or zero while animation is disabled.
    pub open spec fn snapshot_matches(pre: Engine, post: Engine, t: TickInput, s: Snapshot) -> bool {
        &&& s.command_text@ == join_spaced(post.command.deep_view())
        &&& s.pwd@ == post.pwd@
        &&& s.elapsed == t.elapsed
        &&& s.pid == post.pid
        &&& s.ppid == post.ppid
        &&& s.animation_frame == if post.config.app.animation.animation_enabled {
            pre.animation_frame
        } else {
            0u32
        }
        &&& s.total_lines == post.buffer.lines.len()
        &&& s.visible_start == {
            let vh = visible_height_spec(post.height);
            if post.scroll.follow {
                sat_sub_usize(post.buffer.lines.len(), vh)
            } else {
                sat_sub_usize(sat_sub_usize(post.buffer.lines.len(), vh), post.scroll.offset)
            }
        }
        &&& s.follow == post.scroll.follow
        &&& s.offset == post.scroll.offset
        &&& s.display_cpu_centi == post.telemetry.display_cpu_centi
        &&& s.display_memory == post.telemetry.display_memory
        &&& s.display_disk_read == post.telemetry.display_disk_read
        &&& s.display_disk_write == post.telemetry.display_disk_write
        &&& s.memory_total == t.stats.memory_total
        &&& s.cpu_history@ == post.telemetry.cpu_history.entries@
        &&& s.memory_history@ == post.telemetry.memory_history.entries@
        &&& s.disk_read_history@ == post.telemetry.disk_read_history.entries@
        &&& s.disk_write_history@ == post.telemetry.disk_write_history.entries@
        &&& s.width == post.width
        &&& s.height == post.height
        &&& s.sidebar_width == post.config.app.layout.sidebar_width
        &&& s.max_command_lines == post.config.app.layout.max_command_lines
    }

    /// Handle one event of the supervision loop.
    ///
    /// Cancellation stops the loop with a kill.  An output line goes into
    /// the bounded buffer.  A tick first checks for child exit (stop, no
    /// kill) and a force-kill key (stop with a kill); otherwise it applies
    /// the input event, feeds the telemetry, builds the render snapshot,
    /// and advances the counters.
    pub fn handle_event(&mut self, event: EngineEvent) -> (step: EngineStep)
        requires
            old(self).wf(),
        ensures
            final(self).wf(),
            match event {
                EngineEvent::Cancel => {
                    &&& *final(self) == *old(self)
                    &&& step matches EngineStep::Exit(r) && r == ExitReason::Cancelled
                },
                EngineEvent::Line(line) => {
                    &&& Engine::statics_unchanged(*old(self), *final(self))
                    &&& final(self).buffer.view_lines() == append_spec(
                        old(self).buffer.view_lines(),
                        old(self).config.app.output.max_output_lines,
                        line@,
                    )
                    &&& final(self).buffer.max_lines == old(self).buffer.max_lines
                    &&& final(self).scroll == old(self).scroll
                    &&& final(self).telemetry == old(self).telemetry
                    &&& final(self).width == old(self).width
                    &&& final(self).height == old(self).height
                    &&& final(self).tick_count == old(self).tick_count
                    &&& final(self).animation_frame == old(self).animation_frame
                    &&& step matches EngineStep::Continue
                },
                EngineEvent::Tick(t) => {
                    if t.child_exited {
                        &&& *final(self) == *old(self)
                        &&& step matches EngineStep::Exit(r) && r == ExitReason::ChildExited
                    } else if t.input matches Some(UiInput::Key(KeyInput::ForceKill)) {
                        &&& *final(self) == *old(self)
                        &&& step matches EngineStep::Exit(r) && r == ExitReason::ForceKilled
                    } else {
                        &&& Engine::tick_transition(*old(self), *final(self), t)
                        &&& step matches EngineStep::Render(s)
                            && Engine::snapshot_matches(*old(self), *final(self), t, s)
                    }
                },
            },
    {
        match event {
            EngineEvent::Cancel => EngineStep::Exit(ExitReason::Cancelled),
            EngineEvent::Line(line) => {
                self.buffer.append(line);
                EngineStep::Continue
            },
            EngineEvent::Tick(t) => self.handle_tick(t),
        }
    }

    /// Handle one tick: exit checks, input, telemetry, snapshot, counters.
    fn handle_tick(&mut self, t: TickInput) -> (step: EngineStep)
        requires
            old(self).wf(),
        ensures
            final(self).wf(),
            if t.child_exited {
                &&& *final(self) == *old(self)
                &&& step matches EngineStep::Exit(r) && r == ExitReason::ChildExited
            } else if t.input matches Some(UiInput::Key(KeyInput::ForceKill)) {
                &&& *final(self) == *old(self)
                &&& step matches EngineStep::Exit(r) && r == ExitReason::ForceKilled
            } else {
                &&& Engine::tick_transition(*old(self), *final(self), t)
                &&& step matches EngineStep::Render(s)
                    && Engine::snapshot_matches(*old(self), *final(self), t, s)
            },
    {
        if t.child_exited {
            return EngineStep::Exit(ExitReason::ChildExited);
        }
        match t.input {
            Some(UiInput::Key(KeyInput::ForceKill)) => {
                return EngineStep::Exit(ExitReason::ForceKilled);
            },
            Some(UiInput::Key(KeyInput::Scroll(ev))) => {
                let page = page_height(self.height);
                let total_lines = self.buffer.len();
                let visible_height = self.height.saturating_sub(2) as usize;
                let max_scroll = total_lines.saturating_sub(visible_height);
                self.scroll.apply(ev, page, max_scroll);
            },
            Some(UiInput::Resize(w, h)) => {
                self.width = w;
                self.height = h;
            },
            None => {},
        }

        let disk = match t.disk {
            Some(s) => s,
            None => DiskSample { read_delta: 0, write_delta: 0 },
        };
        self.telemetry.record(self.tick_count, t.stats, disk);

        let snapshot = self.build_snapshot(&t);

        self.tick_count = if self.tick_count == u32::MAX { 0 } else { self.tick_count + 1 };
        self.animation_frame = (self.animation_frame + 1) % ANIMATION_CYCLE_FRAMES;

        EngineStep::Render(snapshot)
    }

    /// Build the render snapshot of the current state; the animation frame
    /// recorded is the current one, or zero while animation is disabled.
    fn build_snapshot(&self, t: &TickInput) -> (s: Snapshot)
        ensures
            Engine::snapshot_matches(*self, *self, *t, s),
    {
        let total_lines = self.buffer.len();
        let visible_height = (self.height.saturating_sub(2)) as usize;
        let visible_start = visible_window_start(
            total_lines,
            visible_height,
            self.scroll.follow,
            self.scroll.offset,
        );
        Snapshot {
            command_text: self.command_text(),
            pwd: clone_string(&self.pwd),
            elapsed: t.elapsed,
            pid: self.pid,
            ppid: self.ppid,
            animation_frame: if self.config.app.animation.animation_enabled {
                self.animation_frame
            } else {
                0
            },
            total_lines,
            visible_start,
            follow: self.scroll.follow,
            offset: self.scroll.offset,
            display_cpu_centi: self.telemetry.display_cpu_centi,
            display_memory: self.telemetry.display_memory,
            display_disk_read: self.telemetry.display_disk_read,
            display_disk_write: self.telemetry.display_disk_write,
            memory_total: t.stats.memory_total,
            cpu_history: copy_samples(&self.telemetry.cpu_history.entries),
            memory_history: copy_samples(&self.telemetry.memory_history.entries),
            disk_read_history: copy_samples(&self.telemetry.disk_read_history.entries),
            disk_write_history: copy_samples(&self.telemetry.disk_write_history.entries),
            width: self.width,
            height: self.height,
            sidebar_width: self.config.app.layout.sidebar_width,
            max_command_lines: self.config.app.layout.max_command_lines,
        }
    }
}

/// Page size for page scroll moves in the current terminal.
pub fn page_height(height: u16) -> (page: usize)
    ensures
        page == page_height_spec(height),
{
    let uncapped = height.saturating_sub(4) as usize;
    if uncapped < 20 {
        uncapped
    } else {
        20
    }
}

/// An exact copy of the sample vector.
fn copy_samples(samples: &Vec<u64>) -> (out: Vec<u64>)
    ensures
        out@ == samples@,
{
    let mut out: Vec<u64> = Vec::new();
    let mut i: usize = 0;
    while i < samples.len()
        invariant
            i <= samples@.len(),
            out@ == samples@.take(i as int),
        decreases samples@.len() - i,
    {
        out.push(samples[i]);
        proof {
            assert(out@ =~= samples@.take(i + 1));
        }
        i = i + 1;
    }
    proof {
        assert(samples@.take(samples@.len() as int) =~= samples@);
    }
    out
}

/// An exact copy of the string.
fn clone_string(s: &String) -> (out: String)
    ensures
        out@ == s@,
{
    s.clone()
}

} // verus!
