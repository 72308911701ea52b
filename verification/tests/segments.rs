use motd::command::{CommandError, CommandInfo, CommandInfoBuilder, CommandSegmentRenderer};
use motd::disk::{DiskInfoBuilder, DiskSegmentRenderer, Volume};
use motd::heading::{random_font, trim_newlines, FigletError, HeadingInfo, HeadingSegmentRenderer};
use motd::ip::{IpInfo, IpSegmentRenderer};
use motd::load::{LoadInfoBuilder, LoadSegmentRenderer};
use motd::memory::{MemoryInfoBuilder, MemorySegmentRenderer};
use motd::os::{OsInfo, OsSegmentRenderer};
use motd::quote::{QuoteInfo, QuoteSegmentRenderer};
use motd::render::SegmentRenderer;
use motd::temperatures::{SensorReading, TemperaturesInfoBuilder, TemperaturesSegmentRenderer};
use motd::uptime::{UptimeInfoBuilder, UptimeSegmentRenderer};
use motd::user::{UserInfo, UserSegmentRenderer};

#[test]
fn user_segment_is_one_labelled_line() {
    let renderer = UserSegmentRenderer::new(UserInfo::new(
        String::from("alice"),
        String::from("example"),
    ));
    assert_eq!(renderer.height(), 1);
    assert_eq!(renderer.render_lines(), vec!["          User  alice@example"]);
}

#[test]
fn ip_segment_label_is_left_aligned() {
    let renderer = IpSegmentRenderer::new(IpInfo::new(String::from("10.0.0.1")));
    assert_eq!(renderer.render_lines(), vec!["IP address      10.0.0.1"]);
}

#[test]
fn os_segment_shows_description() {
    let renderer = OsSegmentRenderer::new(OsInfo::new(String::from("Mac OS 13.2.1")));
    assert_eq!(renderer.render_lines(), vec!["            OS  Mac OS 13.2.1"]);
}

#[test]
fn uptime_segment_formats_and_highlights_days() {
    let builder = UptimeInfoBuilder::new();
    let long = UptimeSegmentRenderer::new(builder.build_from_seconds(90061));
    assert_eq!(
        long.render_lines(),
        vec!["        Uptime  1 day, 1 hour, 1 minute, 1 second"]
    );
    assert!(long.highlighted());
    let short = UptimeSegmentRenderer::new(builder.build_from_seconds(3600));
    assert!(!short.highlighted());
}

#[test]
fn memory_segment_summarises_raw_bytes() {
    let info = MemoryInfoBuilder::new()
        .warning_threshold_percent(80)
        .critical_threshold_percent(90)
        .build_from_readings(1_500_000_000, 3_000_000_000, 4_000_000_000);
    let renderer = MemorySegmentRenderer::new(info);
    assert_eq!(renderer.height(), 2);
    let lines = renderer.render_lines();
    assert_eq!(lines[0], "           RAM  1.40 GB used / 4 GB total (3 GB free)");
    assert_eq!(lines[1], "");
}

#[test]
fn disk_segment_excludes_and_computes_used_space() {
    let builder = DiskInfoBuilder::default()
        .exclude_mount_point(String::from("/System/Volumes/Data"));
    let info = builder.build_from_volumes(vec![
        Volume {
            name: String::from("disk1"),
            mount_point: String::from("/"),
            available_space: 2_000_000_000,
            total_space: 5_000_000_000,
        },
        Volume {
            name: String::from("disk2"),
            mount_point: String::from("/System/Volumes/Data"),
            available_space: 1,
            total_space: 2,
        },
    ]);
    assert_eq!(info.disks.len(), 1);
    assert_eq!(info.disks[0].used_space, 3_000_000_000);
    let renderer = DiskSegmentRenderer::new(info);
    assert_eq!(renderer.height(), 2);
    let lines = renderer.render_lines();
    assert_eq!(
        lines[0],
        "          Disk  disk1 (/) - 3 GB used / 5 GB total (1.86 GB free)"
    );
    assert_eq!(lines[1], "");
}

#[test]
fn second_disk_aligns_under_the_label() {
    let builder = DiskInfoBuilder::default();
    let volume = |name: &str, mount: &str| Volume {
        name: String::from(name),
        mount_point: String::from(mount),
        available_space: 1_073_741_824,
        total_space: 2_147_483_648,
    };
    let info = builder.build_from_volumes(vec![volume("a", "/"), volume("b", "/data")]);
    let renderer = DiskSegmentRenderer::new(info);
    assert_eq!(renderer.height(), 4);
    let lines = renderer.render_lines();
    assert!(lines[0].starts_with("          Disk  a (/)"));
    assert!(lines[2].starts_with("                b (/data)"));
}

#[test]
fn load_segment_formats_three_averages() {
    let info = LoadInfoBuilder::new().build_from_readings(42, 105, 200, Some(8));
    let renderer = LoadSegmentRenderer::new(info);
    assert_eq!(
        renderer.render_lines(),
        vec!["          Load  0.42, 1.05, 2.00 (across 8 cores)"]
    );
}

#[test]
fn load_without_core_count_assumes_one() {
    let info = LoadInfoBuilder::new().build_from_readings(10, 10, 10, None);
    assert_eq!(info.cores, 1);
}

#[test]
fn temperature_groups_average_and_drop_cold_groups() {
    let reading = |label: &str, tenths: u64| SensorReading {
        label: String::from(label),
        temperature_tenths: tenths,
        max_tenths: 900,
        critical_tenths: Some(1000),
    };
    let info = TemperaturesInfoBuilder::new().build_from_readings(&vec![
        reading("CPU core 1", 500),
        reading("Tdie", 600),
        reading("GPU", 700),
        reading("Battery", 0),
        reading("Ambient", 400),
    ]);
    // CPU averages 55.0, the GPU stays, the cold battery disappears,
    // and the unmatched ambient sensor belongs to no group.
    assert_eq!(info.sensors.len(), 2);
    assert_eq!(info.sensors[0].name, "CPU");
    assert_eq!(info.sensors[0].temperature_tenths, 550);
    assert_eq!(info.sensors[1].name, "GPU");
    let renderer = TemperaturesSegmentRenderer::new(info);
    assert_eq!(renderer.height(), 1);
    assert_eq!(
        renderer.render_lines(),
        vec!["Temps           CPU 55.0\u{b0}C, GPU 70.0\u{b0}C"]
    );
}

#[test]
fn sensor_without_critical_limit_takes_the_default() {
    let info = TemperaturesInfoBuilder::new().build_from_readings(&vec![SensorReading {
        label: String::from("battery pack"),
        temperature_tenths: 350,
        max_tenths: 500,
        critical_tenths: None,
    }]);
    assert_eq!(info.sensors.len(), 1);
    assert_eq!(info.sensors[0].critical_tenths, 600);
}

#[test]
fn quote_segment_pads_and_indents() {
    let renderer = QuoteSegmentRenderer::new(QuoteInfo::new(String::from("two\nlines")));
    assert_eq!(renderer.height(), 4);
    assert_eq!(
        renderer.render_lines(),
        vec!["", "    two", "    lines", ""]
    );
}

#[test]
fn heading_segment_pads_the_figure() {
    let info = HeadingInfo::new(
        String::from("hi"),
        String::from("###\n###"),
        String::from("bell"),
    );
    let renderer = HeadingSegmentRenderer::new(info);
    assert_eq!(renderer.height(), 5);
    assert_eq!(renderer.render_lines(), vec!["", "###", "###", "", ""]);
}

#[test]
fn figlet_error_messages() {
    let load = FigletError::FontLoadError {
        path: String::from("/fonts/bell.flf"),
        message: String::from("missing"),
    };
    assert_eq!(
        load.message_text(),
        "Could not load font from /fonts/bell.flf: missing"
    );
    let conversion = FigletError::ConversionError {
        message: String::from("empty heading"),
    };
    assert_eq!(
        conversion.message_text(),
        "Could not convert text to figlet: empty heading"
    );
}

#[test]
fn figure_trimming_strips_surrounding_newlines() {
    assert_eq!(trim_newlines("\n\nfigure\nrows\n"), "figure\nrows");
    assert_eq!(trim_newlines("\n\n\n"), "");
    assert_eq!(trim_newlines("plain"), "plain");
}

#[test]
fn random_font_is_a_known_font() {
    let fonts = [
        "bell",
        "slant",
        "contessa",
        "computer",
        "cricket",
        "cybermedium",
        "jazmine",
        "rectangles",
    ];
    for _ in 0..32 {
        let font = random_font();
        assert!(fonts.contains(&font.as_str()));
    }
}

#[test]
fn command_outcomes_follow_the_status() {
    let builder = CommandInfoBuilder::new().command(String::from("uname"));
    let ok = builder.outcome_from_run(true, Some(0), Some(String::from("Darwin\n")));
    assert_eq!(ok.unwrap().output, "Darwin\n");
    let failed = builder.outcome_from_run(false, Some(1), None);
    match failed.unwrap_err() {
        CommandError::CommandFailed { command_ran, status_code } => {
            assert_eq!(command_ran, "uname");
            assert_eq!(status_code, Some(1));
        }
        _ => panic!("wrong error variant"),
    }
    let undecodable = builder.outcome_from_run(true, Some(0), None);
    assert!(matches!(
        undecodable.unwrap_err(),
        CommandError::OutputParseError { .. }
    ));
}

#[test]
fn command_error_messages() {
    let failed = CommandError::CommandFailed {
        command_ran: String::from("uname"),
        status_code: Some(1),
    };
    assert_eq!(failed.message_text(), "command `uname` failed with status `1`");
    let spawn = CommandError::SpawnFailed {
        message: String::from("no such file"),
    };
    assert_eq!(spawn.message_text(), "failed to spawn command: no such file");
}

#[test]
fn command_segment_height_counts_output_lines() {
    let renderer = CommandSegmentRenderer::new(CommandInfo {
        output: String::from("one\ntwo\n"),
    });
    assert_eq!(renderer.height(), 2);
    assert_eq!(renderer.render_lines(), vec!["one", "two"]);
}
