use motd::docker::{
    status_text, ContainerEntry, ContainerState, DockerInfoBuilder, DockerSegmentRenderer,
    DockerStatus,
};
use motd::render::SegmentRenderer;

fn entry(name: &str, state: ContainerState, exit_code: i64, elapsed: u64) -> ContainerEntry {
    ContainerEntry {
        name: String::from(name),
        state,
        exit_code,
        elapsed_seconds: elapsed,
    }
}

#[test]
fn running_container_renders_up_row() {
    // Started 3661 seconds ago: the coarsest unit is one hour.
    let renderer = DockerSegmentRenderer::new(
        DockerInfoBuilder::new().running_info(vec![entry("web", ContainerState::Running, 0, 3661)]),
    );
    assert_eq!(renderer.height(), 1);
    let lines = renderer.render_lines();
    assert_eq!(lines, vec!["        Docker  web: Up 1 hour"]);
}

#[test]
fn exited_container_renders_code_and_age() {
    let renderer = DockerSegmentRenderer::new(
        DockerInfoBuilder::new().running_info(vec![entry("job", ContainerState::Exited, 1, 30)]),
    );
    assert_eq!(renderer.height(), 1);
    let lines = renderer.render_lines();
    assert_eq!(lines, vec!["        Docker  job: Exited (1) less than a minute ago"]);
}

#[test]
fn freshly_started_container_renders_sub_minute_age() {
    let renderer = DockerSegmentRenderer::new(
        DockerInfoBuilder::new().running_info(vec![entry("new", ContainerState::Running, 0, 5)]),
    );
    assert_eq!(
        renderer.render_lines(),
        vec!["        Docker  new: Up less than a minute"]
    );
}

#[test]
fn stale_exited_container_is_hidden() {
    // Exited nine hours ago: beyond the eight-hour staleness window.
    let renderer = DockerSegmentRenderer::new(DockerInfoBuilder::new().running_info(vec![
        entry("old", ContainerState::Exited, 0, 32400),
        entry("web", ContainerState::Running, 0, 60),
    ]));
    assert_eq!(renderer.height(), 1);
    let lines = renderer.render_lines();
    assert_eq!(lines, vec!["        Docker  web: Up 1 minute"]);
}

#[test]
fn exited_at_window_edge_is_still_shown() {
    let renderer = DockerSegmentRenderer::new(
        DockerInfoBuilder::new().running_info(vec![entry("edge", ContainerState::Exited, 0, 28800)]),
    );
    assert_eq!(renderer.height(), 1);
}

#[test]
fn rows_align_to_widest_name() {
    let renderer = DockerSegmentRenderer::new(DockerInfoBuilder::new().running_info(vec![
        entry("db", ContainerState::Running, 0, 60),
        entry("worker", ContainerState::Paused, 0, 0),
    ]));
    assert_eq!(renderer.height(), 2);
    let lines = renderer.render_lines();
    assert_eq!(lines[0], "        Docker      db: Up 1 minute");
    assert_eq!(lines[1], "                worker: paused");
}

#[test]
fn unreachable_daemon_is_degraded_success() {
    // The pipeline does not abort: the segment still has height one.
    let info = DockerInfoBuilder::new().connect_failure_info(String::from("socket missing"));
    assert!(matches!(info.status, DockerStatus::Unavailable(_)));
    assert!(info.containers.is_empty());
    let renderer = DockerSegmentRenderer::new(info);
    assert_eq!(renderer.height(), 1);
    let lines = renderer.render_lines();
    assert_eq!(
        lines,
        vec!["        Docker  Docker is not running or not accessible: socket missing"]
    );
}

#[test]
fn list_failure_is_degraded_success() {
    let info = DockerInfoBuilder::new().list_failure_info(String::from("timeout"));
    let renderer = DockerSegmentRenderer::new(info);
    assert_eq!(renderer.height(), 1);
    assert_eq!(
        renderer.render_lines(),
        vec!["        Docker  Unable to list containers: timeout"]
    );
}

#[test]
fn inspect_answer_becomes_entry() {
    // 2020-01-01T00:00:00Z is 1577836800 seconds after the epoch.
    let builder = DockerInfoBuilder::new();
    let e = builder.container_entry_from_inspect(
        String::from("/web"),
        ContainerState::Running,
        0,
        Some(String::from("2020-01-01T00:00:00Z")),
        None,
        1577836800 + 3661,
    );
    assert_eq!(e.name, "web");
    assert_eq!(e.elapsed_seconds, 3661);
    assert_eq!(status_text(&e), "Up 1 hour");
}

#[test]
fn exited_entry_measures_from_finish_time() {
    let builder = DockerInfoBuilder::new();
    let e = builder.container_entry_from_inspect(
        String::from("/job"),
        ContainerState::Exited,
        137,
        Some(String::from("2020-01-01T00:00:00Z")),
        Some(String::from("2020-01-01T01:00:00Z")),
        1577836800 + 3630,
    );
    assert_eq!(e.elapsed_seconds, 30);
    assert_eq!(status_text(&e), "Exited (137) less than a minute ago");
}

#[test]
fn entry_without_timestamp_has_no_elapsed_time() {
    let builder = DockerInfoBuilder::new();
    let e = builder.container_entry_from_inspect(
        String::from("idle"),
        ContainerState::Created,
        0,
        None,
        None,
        1577836800,
    );
    assert_eq!(e.elapsed_seconds, 0);
    assert_eq!(status_text(&e), "created");
}
