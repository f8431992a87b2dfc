use stress_sim::config;
use stress_sim::environment::environment_name;
use stress_sim::sim::{FrameInput, Simulation};
use stress_sim::spawner::SimulationStats;
use stress_sim::telemetry::{instantaneous_fps_milli, periodic_report, FpsWindow};
use stress_sim::text_out;

#[test]
fn rolling_average_of_three_samples() {
    // Instantaneous FPS 30, 60, 90 inside one window: average 60.0.
    let mut w = FpsWindow::initial();
    w.record_sample(10, 30_000);
    w.record_sample(20, 60_000);
    w.record_sample(30, 90_000);
    assert_eq!(w.rolling_sum, 180_000);
    assert_eq!(w.sample_count, 3);

    let text = w.display_refresh(1_000);
    assert_eq!(text, Some(String::from("FPS: 60")));
}

#[test]
fn windowed_reset_starts_fresh() {
    let mut w = FpsWindow::initial();
    w.record_sample(10, 30_000);
    w.record_sample(20, 60_000);
    // Elapsed time since window_start exceeds the window duration: the
    // next sample begins a fresh window holding exactly that sample.
    w.record_sample(3_100, 45_000);
    assert_eq!(w.rolling_sum, 45_000);
    assert_eq!(w.sample_count, 1);
    assert_eq!(w.window_start_ms, 3_100);
}

#[test]
fn degenerate_dt_reports_zero_fps() {
    assert_eq!(instantaneous_fps_milli(0), 0);
    assert_eq!(instantaneous_fps_milli(16), 62_500);
    assert_eq!(instantaneous_fps_milli(1_000), 1_000);
}

#[test]
fn display_not_refreshed_before_cadence() {
    let mut w = FpsWindow::initial();
    w.record_sample(10, 60_000);
    assert_eq!(w.display_refresh(999), None);
    assert_eq!(w.display_refresh(1_000), Some(String::from("FPS: 60")));
}

#[test]
fn display_not_rewritten_when_value_unchanged() {
    let mut w = FpsWindow::initial();
    w.record_sample(10, 60_000);
    assert_eq!(w.display_refresh(1_000), Some(String::from("FPS: 60")));
    w.record_sample(1_100, 60_000);
    // Same rounded value on the next cadence: nothing is rewritten.
    assert_eq!(w.display_refresh(2_000), None);
}

#[test]
fn display_unchanged_without_samples() {
    let mut w = FpsWindow::initial();
    assert_eq!(w.display_refresh(1_000), None);
    assert_eq!(w.last_display_ms, 1_000);
}

#[test]
fn report_line_from_window_average() {
    let mut w = FpsWindow::initial();
    w.record_sample(4_990, 60_000);
    let mut stats = SimulationStats::initial();
    let line = periodic_report(&w, &mut stats, 5_000);
    assert_eq!(
        line,
        Some(String::from("[5.0s] Entities: 1, 3-sec Avg FPS: 60.0"))
    );
    assert_eq!(stats.last_report_ms, 5_000);
    // The next tick is inside the cadence: no report.
    assert_eq!(periodic_report(&w, &mut stats, 6_000), None);
}

#[test]
fn report_falls_back_to_history_then_zero() {
    // A freshly reset window has no samples: the bounded history is the
    // fallback average source.
    let w = FpsWindow {
        rolling_sum: 0,
        sample_count: 0,
        window_start_ms: 0,
        last_display_ms: 0,
        last_display_fps: None,
        history: vec![30_000, 60_000],
    };
    let mut stats = SimulationStats::initial();
    let line = periodic_report(&w, &mut stats, 5_000);
    assert_eq!(
        line,
        Some(String::from("[5.0s] Entities: 1, 3-sec Avg FPS: 45.0"))
    );

    // Both sources empty: the report still comes, reading 0.0.
    let empty = FpsWindow::initial();
    let mut stats2 = SimulationStats::initial();
    let line2 = periodic_report(&empty, &mut stats2, 5_000);
    assert_eq!(
        line2,
        Some(String::from("[5.0s] Entities: 1, 3-sec Avg FPS: 0.0"))
    );
}

#[test]
fn history_is_bounded() {
    let mut w = FpsWindow::initial();
    for k in 0..(config::HISTORY_CAPACITY as u64 + 25) {
        w.record_sample(k, 1_000 + k);
    }
    assert_eq!(w.history.len(), config::HISTORY_CAPACITY);
    // Oldest entries were evicted: the front is sample 25.
    assert_eq!(w.history[0], 1_025);
}

#[test]
fn frame_feeds_telemetry_and_reports() {
    let mut sim = Simulation::new();
    let mut out = None;
    // 1 Hz frames: by t = 5 s the report cadence has elapsed.
    for k in 1..=5u64 {
        out = Some(sim.frame(FrameInput {
            spawn_trigger: false,
            dt_ms: 1_000,
            now_ms: k * 1_000,
        }));
    }
    let out = out.unwrap();
    assert_eq!(
        out.report,
        Some(String::from("[5.0s] Entities: 1, 3-sec Avg FPS: 1.0"))
    );
}

#[test]
fn text_rendering_exact() {
    assert_eq!(text_out::udec(0), "0");
    assert_eq!(text_out::udec(10_001), "10001");
    assert_eq!(text_out::dec1(605), "60.5");
    assert_eq!(text_out::fps_text(144), "FPS: 144");
    assert_eq!(text_out::fps_placeholder_text(), "FPS: --");
    assert_eq!(text_out::entities_text(10_001), "Entities: 10001");
    assert_eq!(text_out::batch_log(3, 30_001), "Batch 3: Total Entities 30001");
    assert_eq!(
        text_out::report_line(1_234, 10_001, 595),
        "[123.4s] Entities: 10001, 3-sec Avg FPS: 59.5"
    );
}

#[test]
fn environment_names() {
    assert_eq!(environment_name(true, true, false), "Aurora DX Distrobox");
    assert_eq!(environment_name(true, false, true), "Fedora Distrobox");
    assert_eq!(environment_name(true, false, false), "Container Environment");
    assert_eq!(environment_name(false, true, false), "Aurora DX (Host)");
    assert_eq!(environment_name(false, false, true), "Fedora (Host)");
    assert_eq!(environment_name(false, false, false), "Native Environment");
}
