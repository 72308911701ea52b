use motd::ip::IpInfo;
use motd::layout::{compute_regions, Region};
use motd::pipeline::{compose_frame, reassemble, SegmentInfo, SegmentOutcome};
use motd::user::UserInfo;

fn user_outcome(name: &str) -> SegmentOutcome {
    SegmentOutcome::Ready(SegmentInfo::User(UserInfo::new(
        String::from(name),
        String::from("host"),
    )))
}

fn ip_outcome(addr: &str) -> SegmentOutcome {
    SegmentOutcome::Ready(SegmentInfo::Ip(IpInfo::new(String::from(addr))))
}

fn failed_outcome(label: &str, reason: &str) -> SegmentOutcome {
    SegmentOutcome::Failed {
        label: String::from(label),
        reason: String::from(reason),
    }
}

#[test]
fn regions_partition_gaplessly() {
    let regions = compute_regions(&vec![3u16, 1, 2]);
    assert_eq!(
        regions,
        vec![
            Region { y: 0, height: 3 },
            Region { y: 3, height: 1 },
            Region { y: 4, height: 2 },
        ]
    );
}

#[test]
fn regions_of_no_heights_are_empty() {
    assert_eq!(compute_regions(&Vec::new()), Vec::<Region>::new());
}

#[test]
fn frame_heights_sum_to_viewport() {
    let frame = compose_frame(vec![
        user_outcome("alice"),
        failed_outcome("Updates", "metadata missing"),
        ip_outcome("10.0.0.1"),
    ])
    .unwrap();
    // One region per segment, lines filling the viewport exactly.
    assert_eq!(frame.regions.len(), 3);
    assert_eq!(frame.total_height, 3);
    assert_eq!(frame.lines.len(), 3);
    assert_eq!(frame.regions[0], Region { y: 0, height: 1 });
    assert_eq!(frame.regions[1], Region { y: 1, height: 1 });
    assert_eq!(frame.regions[2], Region { y: 2, height: 1 });
    assert_eq!(frame.lines[0], "          User  alice@host");
    assert_eq!(frame.lines[1], "       Updates  unavailable: metadata missing");
    assert_eq!(frame.lines[2], "IP address      10.0.0.1");
}

#[test]
fn empty_pipeline_composes_empty_frame() {
    let frame = compose_frame(Vec::new()).unwrap();
    assert_eq!(frame.total_height, 0);
    assert!(frame.lines.is_empty());
    assert!(frame.regions.is_empty());
}

#[test]
fn completion_order_does_not_affect_output_order() {
    // Outcomes delivered in a shuffled completion order return to
    // their submission slots.
    let completed = vec![
        (2usize, failed_outcome("c", "third")),
        (0usize, failed_outcome("a", "first")),
        (1usize, failed_outcome("b", "second")),
    ];
    let ordered = reassemble(completed);
    assert_eq!(ordered.len(), 3);
    let labels: Vec<&str> = ordered
        .iter()
        .map(|o| match o {
            SegmentOutcome::Failed { label, .. } => label.as_str(),
            SegmentOutcome::Ready(_) => "ready",
        })
        .collect();
    assert_eq!(labels, vec!["a", "b", "c"]);
}

#[test]
fn reassembled_frames_match_submission_order_frames() {
    let shuffled = vec![
        (1usize, ip_outcome("10.0.0.1")),
        (0usize, user_outcome("alice")),
    ];
    let ordered = reassemble(shuffled);
    let direct = vec![user_outcome("alice"), ip_outcome("10.0.0.1")];
    let f1 = compose_frame(ordered).unwrap();
    let f2 = compose_frame(direct).unwrap();
    assert_eq!(f1.lines, f2.lines);
    assert_eq!(f1.regions, f2.regions);
}

#[test]
fn composition_is_deterministic() {
    // The same snapshots compose to a byte-identical frame.
    let make = || {
        vec![
            user_outcome("alice"),
            ip_outcome("10.0.0.1"),
            failed_outcome("Docker", "socket missing"),
        ]
    };
    let f1 = compose_frame(make()).unwrap();
    let f2 = compose_frame(make()).unwrap();
    assert_eq!(f1.lines, f2.lines);
    assert_eq!(f1.regions, f2.regions);
    assert_eq!(f1.total_height, f2.total_height);
}
