use std::time::Duration;

use druns::config::Config;
use druns::disk::DiskSample;
use druns::disk::DiskSampler;
use druns::engine::Engine;
use druns::engine::EngineEvent;
use druns::engine::EngineStep;
use druns::engine::ExitReason;
use druns::engine::KeyInput;
use druns::engine::TickInput;
use druns::engine::UiInput;
use druns::history::HistoryWindow;
use druns::output::OutputBuffer;
use druns::scroll::ScrollEvent;
use druns::scroll::ScrollState;
use druns::scroll::visible_window_start;
use druns::telemetry::TickStats;

fn test_engine(max_output_lines: usize) -> Engine {
    let mut config = Config::with_defaults();
    config.app.output.max_output_lines = max_output_lines;
    Engine::new(
        config,
        vec!["echo".to_string(), "hello".to_string()],
        "/tmp".to_string(),
        4242,
        4241,
        80,
        24,
    )
}

fn quiet_tick(child_exited: bool) -> TickInput {
    TickInput {
        child_exited,
        input: None,
        stats: TickStats { cpu_centi_percent: 0, memory_bytes: 0, memory_total: 0 },
        disk: None,
        elapsed: Duration::from_secs(0),
    }
}

#[test]
fn test_scenario_echo_hello() {
    // one line arrives, then the child exits: the loop stops without a
    // kill and the buffer holds exactly that line
    let mut engine = test_engine(1000);
    let step = engine.handle_event(EngineEvent::Line("hello".to_string()));
    assert!(matches!(step, EngineStep::Continue));
    let step = engine.handle_event(EngineEvent::Tick(quiet_tick(true)));
    match step {
        EngineStep::Exit(reason) => {
            assert_eq!(reason, ExitReason::ChildExited);
            assert!(!reason.kills_child());
        },
        _ => panic!("expected the loop to stop"),
    }
    assert_eq!(engine.buffer.lines, vec!["hello".to_string()]);
}

#[test]
fn test_scenario_bounded_buffer() {
    // with a two-line bound, feeding a, b, c leaves exactly b, c
    let mut engine = test_engine(2);
    for line in ["a", "b", "c"] {
        let step = engine.handle_event(EngineEvent::Line(line.to_string()));
        assert!(matches!(step, EngineStep::Continue));
    }
    assert_eq!(engine.buffer.lines, vec!["b".to_string(), "c".to_string()]);
}

#[test]
fn test_scenario_disk_deltas() {
    // cumulative totals 100, 250, 180 emit deltas 100, 150, 0
    let mut sampler = DiskSampler::new();
    let mut deltas = Vec::new();
    for total in [100u64, 250, 180] {
        let sample = sampler.observe(total, 0);
        deltas.push(sample.read_delta);
    }
    assert_eq!(deltas, vec![100, 150, 0]);
}

#[test]
fn test_scenario_constant_cpu_average() {
    // fifty ticks at a constant 10.0% CPU leave a displayed average of 10.0%
    let mut engine = test_engine(1000);
    for _ in 0..50 {
        let tick = TickInput {
            child_exited: false,
            input: None,
            stats: TickStats { cpu_centi_percent: 1000, memory_bytes: 0, memory_total: 0 },
            disk: None,
            elapsed: Duration::from_secs(0),
        };
        let step = engine.handle_event(EngineEvent::Tick(tick));
        assert!(matches!(step, EngineStep::Render(_)));
    }
    assert_eq!(engine.telemetry.display_cpu_centi, 1000);
    assert_eq!(engine.telemetry.display_cpu_centi as f32 / 100.0, 10.0);
    // the four windows move together: one sample each so far
    assert_eq!(engine.telemetry.cpu_history.entries.len(), 1);
    assert_eq!(engine.telemetry.memory_history.entries.len(), 1);
    assert_eq!(engine.telemetry.disk_read_history.entries.len(), 1);
    assert_eq!(engine.telemetry.disk_write_history.entries.len(), 1);
}

#[test]
fn test_scroll_machine_sequence() {
    // from follow, line-up leaves follow with a one-line offset; end
    // restores follow regardless of page moves in between
    let mut scroll = ScrollState::new();
    assert!(scroll.follow);
    assert_eq!(scroll.offset, 0);

    scroll.apply(ScrollEvent::LineUp, 10, 100);
    assert!(!scroll.follow);
    assert_eq!(scroll.offset, 1);

    scroll.apply(ScrollEvent::PageUp, 10, 100);
    scroll.apply(ScrollEvent::PageDown, 10, 100);
    scroll.apply(ScrollEvent::PageUp, 10, 100);
    scroll.apply(ScrollEvent::End, 10, 100);
    assert!(scroll.follow);
    assert_eq!(scroll.offset, 0);
}

#[test]
fn test_scroll_transitions() {
    let mut scroll = ScrollState::new();
    scroll.apply(ScrollEvent::PageUp, 10, 100);
    assert!(!scroll.follow);
    assert_eq!(scroll.offset, 10);

    scroll.apply(ScrollEvent::Home, 10, 100);
    assert_eq!(scroll.offset, 100);

    scroll.apply(ScrollEvent::ToggleFollow, 10, 100);
    assert!(scroll.follow);
    assert_eq!(scroll.offset, 0);

    scroll.apply(ScrollEvent::ToggleFollow, 10, 100);
    assert!(!scroll.follow);

    scroll.apply(ScrollEvent::LineUp, 10, 100);
    scroll.apply(ScrollEvent::LineDown, 10, 100);
    assert!(scroll.follow);
    assert_eq!(scroll.offset, 0);

    scroll.apply(ScrollEvent::Escape, 10, 100);
    assert!(scroll.follow);
    assert_eq!(scroll.offset, 0);
}

#[test]
fn test_buffer_eviction_order() {
    // the buffer never exceeds its bound and keeps the newest lines in
    // arrival order
    let mut buffer = OutputBuffer::new(3);
    for line in ["1", "2", "3", "4", "5"] {
        buffer.append(line.to_string());
        assert!(buffer.lines.len() <= 3);
    }
    assert_eq!(buffer.lines, vec!["3".to_string(), "4".to_string(), "5".to_string()]);
}

#[test]
fn test_buffer_zero_capacity() {
    let mut buffer = OutputBuffer::new(0);
    buffer.append("x".to_string());
    assert!(buffer.lines.is_empty());
}

#[test]
fn test_history_window_cap_and_order() {
    // the window never exceeds 300 entries and keeps insertion order
    let mut window = HistoryWindow::new();
    for i in 0..301u64 {
        window.push_capped(i);
        assert!(window.entries.len() <= 300);
    }
    assert_eq!(window.entries.len(), 300);
    assert_eq!(window.entries[0], 1);
    assert_eq!(window.entries[299], 300);
    for i in 0..299 {
        assert!(window.entries[i] < window.entries[i + 1]);
    }
}

#[test]
fn test_mean_rounded() {
    let mut window = HistoryWindow::new();
    assert_eq!(window.mean_rounded(), 0); // empty window shows zero
    for v in [10u64, 20, 31] {
        window.push_capped(v);
    }
    // mean 61/3 = 20.33.. rounds to 20
    assert_eq!(window.mean_rounded(), 20);

    let mut window = HistoryWindow::new();
    window.push_capped(1);
    window.push_capped(2);
    // mean 1.5 rounds half up to 2
    assert_eq!(window.mean_rounded(), 2);
}

#[test]
fn test_disk_delta_clamped() {
    let mut sampler = DiskSampler::new();
    let s = sampler.observe(1000, 500);
    assert_eq!(s, DiskSample { read_delta: 1000, write_delta: 500 });
    // both counters fall: deltas clamp to zero rather than going negative
    let s = sampler.observe(900, 400);
    assert_eq!(s, DiskSample { read_delta: 0, write_delta: 0 });
    let s = sampler.observe(950, 450);
    assert_eq!(s, DiskSample { read_delta: 50, write_delta: 50 });
}

#[test]
fn test_visible_window_start() {
    assert_eq!(visible_window_start(100, 10, true, 0), 90);
    assert_eq!(visible_window_start(100, 10, false, 5), 85);
    assert_eq!(visible_window_start(5, 10, false, 3), 0);
    assert_eq!(visible_window_start(5, 10, true, 0), 0);
}

#[test]
fn test_engine_cancel_kills() {
    let mut engine = test_engine(1000);
    let step = engine.handle_event(EngineEvent::Cancel);
    match step {
        EngineStep::Exit(reason) => {
            assert_eq!(reason, ExitReason::Cancelled);
            assert!(reason.kills_child());
        },
        _ => panic!("expected the loop to stop"),
    }
}

#[test]
fn test_engine_force_kill() {
    let mut engine = test_engine(1000);
    let mut tick = quiet_tick(false);
    tick.input = Some(UiInput::Key(KeyInput::ForceKill));
    let step = engine.handle_event(EngineEvent::Tick(tick));
    match step {
        EngineStep::Exit(reason) => {
            assert_eq!(reason, ExitReason::ForceKilled);
            assert!(reason.kills_child());
        },
        _ => panic!("expected the loop to stop"),
    }
}

#[test]
fn test_engine_resize_and_scroll() {
    let mut engine = test_engine(1000);
    let mut tick = quiet_tick(false);
    tick.input = Some(UiInput::Resize(120, 40));
    let step = engine.handle_event(EngineEvent::Tick(tick));
    assert!(matches!(step, EngineStep::Render(_)));
    assert_eq!(engine.width, 120);
    assert_eq!(engine.height, 40);

    let mut tick = quiet_tick(false);
    tick.input = Some(UiInput::Key(KeyInput::Scroll(ScrollEvent::LineUp)));
    let step = engine.handle_event(EngineEvent::Tick(tick));
    assert!(matches!(step, EngineStep::Render(_)));
    assert!(!engine.scroll.follow);
    assert_eq!(engine.scroll.offset, 1);
}

#[test]
fn test_engine_snapshot_contents() {
    let mut engine = test_engine(1000);
    engine.handle_event(EngineEvent::Line("one".to_string()));
    engine.handle_event(EngineEvent::Line("two".to_string()));
    let mut tick = quiet_tick(false);
    tick.stats = TickStats { cpu_centi_percent: 500, memory_bytes: 4096, memory_total: 8192 };
    tick.disk = Some(DiskSample { read_delta: 10, write_delta: 20 });
    tick.elapsed = Duration::from_secs(3661);
    let step = engine.handle_event(EngineEvent::Tick(tick));
    match step {
        EngineStep::Render(snapshot) => {
            assert_eq!(snapshot.command_text, "echo hello");
            assert_eq!(snapshot.pwd, "/tmp");
            assert_eq!(snapshot.pid, 4242);
            assert_eq!(snapshot.ppid, 4241);
            assert_eq!(snapshot.total_lines, 2);
            assert!(snapshot.follow);
            assert_eq!(snapshot.offset, 0);
            assert_eq!(snapshot.memory_total, 8192);
            // the first tick appends one sample to each history
            assert_eq!(snapshot.cpu_history, vec![500]);
            assert_eq!(snapshot.memory_history, vec![4096]);
            assert_eq!(snapshot.disk_read_history, vec![10]);
            assert_eq!(snapshot.disk_write_history, vec![20]);
            assert_eq!(snapshot.elapsed, Duration::from_secs(3661));
            // the animation frame shown is the pre-advance one
            assert_eq!(snapshot.animation_frame, 0);
        },
        _ => panic!("expected a rendered snapshot"),
    }
    assert_eq!(engine.animation_frame, 1);
    assert_eq!(engine.tick_count, 1);
}

#[test]
fn test_animation_frame_wraps() {
    let mut engine = test_engine(1000);
    for _ in 0..110 {
        engine.handle_event(EngineEvent::Tick(quiet_tick(false)));
    }
    assert_eq!(engine.animation_frame, 0);
    assert_eq!(engine.tick_count, 110);
}
