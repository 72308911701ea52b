//! The container segment.  Acquisition talks to the container daemon's
//! local socket; everything it learns arrives here as plain values.  A
//! daemon that cannot be reached is a first-class, renderable outcome —
//! the segment shows the reason instead of blanking the dashboard.

use vstd::prelude::*;
use crate::duration::spec_humanize;
use crate::outside::{parse_timestamp_seconds, timestamp_seconds_of};
use crate::render::{
    continuation_line, label_line, spec_attach_label, spec_continuation_line, spec_label_line,
    Info, SegmentRenderer,
};
use crate::text::{push_i64, push_pad_left, spec_dec_i64, spec_pad_left};
use crate::duration::humanize_seconds;

verus! {

/// How long an exited container stays visible: eight hours.
pub const STALENESS_SECONDS: u64 = 28800;

/// The closed set of container lifecycle states.
#[derive(Clone, Copy, Debug, PartialEq, Eq, Structural)]
pub enum ContainerState {
    Empty,
    Created,
    Running,
    Paused,
    Restarting,
    Removing,
    Exited,
    Dead,
}

/// One container row: its name, lifecycle state, exit code — read only
/// in the exited state — and the seconds since the state was entered.
pub struct ContainerEntry {
    pub name: String,
    pub state: ContainerState,
    pub exit_code: i64,
    pub elapsed_seconds: u64,
}

/// Whether the daemon answered, or why it did not.
pub enum DockerStatus {
    Running,
    Unavailable(String),
}

/// Snapshot of the container daemon's answer.
pub struct DockerInfo {
    pub status: DockerStatus,
    pub containers: Vec<ContainerEntry>,
}

impl Info for DockerInfo {

}

/// A name with its leading slashes removed, as the daemon reports
/// container names with one.
pub open spec fn spec_trim_slashes(s: Seq<char>) -> Seq<char>
    decreases s.len(),
{
    if s.len() > 0 && s[0] == '/' {
        spec_trim_slashes(s.drop_first())
    } else {
        s
    }
}

/// The timestamp a state's elapsed time is measured from: the start
/// for a running container, the finish for an exited one.
pub open spec fn spec_relevant_timestamp(
    state: ContainerState,
    started_at: Option<Seq<char>>,
    finished_at: Option<Seq<char>>,
) -> Option<Seq<char>> {
    match state {
        ContainerState::Running => started_at,
        ContainerState::Exited => finished_at,
        _ => Option::None,
    }
}

/// Seconds since the state was entered, never negative; zero when no
/// timestamp applies or the timestamp does not parse.
pub open spec fn spec_elapsed_seconds(
    state: ContainerState,
    started_at: Option<Seq<char>>,
    finished_at: Option<Seq<char>>,
    now_seconds: i64,
) -> u64 {
    match spec_relevant_timestamp(state, started_at, finished_at) {
        Option::None => 0u64,
        Option::Some(text) => match timestamp_seconds_of(text) {
            Option::None => 0u64,
            Option::Some(ts) => if ts <= now_seconds {
                (now_seconds - ts) as u64
            } else {
                0u64
            },
        },
    }
}

/// The view of an optional string.
pub open spec fn spec_opt_view(o: Option<String>) -> Option<Seq<char>> {
    match o {
        Option::Some(s) => Option::Some(s@),
        Option::None => Option::None,
    }
}

/// Builds the container snapshot from what acquisition learned.
pub struct DockerInfoBuilder {
}

impl DockerInfoBuilder {
    pub fn new() -> (r: Self) {
        DockerInfoBuilder {  }
    }

    /// The snapshot for a daemon that could not be reached: a degraded
    /// but successful outcome carrying the reason, never an error.
    pub fn connect_failure_info(&self, error_text: String) -> (r: DockerInfo)
        ensures
            r.status matches DockerStatus::Unavailable(m) && m@
                == "Docker is not running or not accessible: "@ + error_text@,
            r.containers@ == Seq::<ContainerEntry>::empty(),
    {
        let mut message = String::new();
        message.append("Docker is not running or not accessible: ");
        message.append(error_text.as_str());
        assert(message@ =~= "Docker is not running or not accessible: "@ + error_text@);
        DockerInfo { status: DockerStatus::Unavailable(message), containers: Vec::new() }
    }

    /// The snapshot for a daemon that answered but whose container list
    /// could not be read: degraded in the same way.
    pub fn list_failure_info(&self, error_text: String) -> (r: DockerInfo)
        ensures
            r.status matches DockerStatus::Unavailable(m) && m@
                == "Unable to list containers: "@ + error_text@,
            r.containers@ == Seq::<ContainerEntry>::empty(),
    {
        let mut message = String::new();
        message.append("Unable to list containers: ");
        message.append(error_text.as_str());
        assert(message@ =~= "Unable to list containers: "@ + error_text@);
        DockerInfo { status: DockerStatus::Unavailable(message), containers: Vec::new() }
    }

    /// The snapshot for a daemon that answered with container rows.
    pub fn running_info(&self, containers: Vec<ContainerEntry>) -> (r: DockerInfo)
        ensures
            r.status is Running,
            r.containers == containers,
    {
        DockerInfo { status: DockerStatus::Running, containers }
    }

    /// One container row from an inspect answer: the name loses its
    /// leading slashes, and the elapsed time is measured from the
    /// state's own timestamp against `now_seconds`, never negative;
    /// a missing or unreadable timestamp counts as no elapsed time.
    pub fn container_entry_from_inspect(
        &self,
        name: String,
        state: ContainerState,
        exit_code: i64,
        started_at: Option<String>,
        finished_at: Option<String>,
        now_seconds: i64,
    ) -> (r: ContainerEntry)
        ensures
            r.name@ == spec_trim_slashes(name@),
            r.state == state,
            r.exit_code == exit_code,
            r.elapsed_seconds == spec_elapsed_seconds(
                state,
                spec_opt_view(started_at),
                spec_opt_view(finished_at),
                now_seconds,
            ),
    {
        let trimmed = trim_leading_slashes(name.as_str());
        let timestamp: Option<&String> = match state {
            ContainerState::Running => started_at.as_ref(),
            ContainerState::Exited => finished_at.as_ref(),
            _ => Option::None,
        };
        let elapsed_seconds: u64 = match timestamp {
            Option::None => 0,
            Option::Some(text) => match parse_timestamp_seconds(text.as_str()) {
                Option::None => 0,
                Option::Some(ts) => if ts <= now_seconds {
                    sub_i64(now_seconds, ts)
                } else {
                    0
                },
            },
        };
        ContainerEntry { name: trimmed, state, exit_code, elapsed_seconds }
    }
}

impl Default for DockerInfoBuilder {
    fn default() -> (r: Self) {
        DockerInfoBuilder {  }
    }
}

/// The difference of two signed counters that fits the unsigned word.
fn sub_i64(a: i64, b: i64) -> (r: u64)
    requires
        b <= a,
    ensures
        r == a - b,
{
    if b >= 0 {
        (a - b) as u64
    } else if a >= 0 {
        (a as u64) + ((-(b + 1)) as u64 + 1)
    } else {
        (a - b) as u64
    }
}

/// Strips every leading slash from a name.
fn trim_leading_slashes(s: &str) -> (r: String)
    ensures
        r@ == spec_trim_slashes(s@),
{
    let len = s.unicode_len();
    let mut i: usize = 0;
    proof {
        assert(s@.subrange(0, len as int) =~= s@);
    }
    while i < len
        invariant
            len == s@.len(),
            i <= len,
            spec_trim_slashes(s@) == spec_trim_slashes(s@.subrange(i as int, len as int)),
            forall|k: int| 0 <= k < i ==> s@[k] == '/',
        ensures
            i <= len,
            spec_trim_slashes(s@) == spec_trim_slashes(s@.subrange(i as int, len as int)),
            i < len ==> s@[i as int] != '/',
        decreases len - i,
    {
        let ghost rest = s@.subrange(i as int, len as int);
        proof {
            assert(rest[0] == s@[i as int]);
            assert(rest.drop_first() =~= s@.subrange(i + 1, len as int));
        }
        if s.get_char(i) != '/' {
            break;
        }
        i = i + 1;
    }
    let kept = s.substring_char(i, len);
    proof {
        let rest = s@.subrange(i as int, len as int);
        if i < len {
            assert(spec_trim_slashes(rest) == rest);
        } else {
            assert(rest =~= Seq::<char>::empty());
        }
    }
    kept.to_owned()
}

/// Whether a container is shown: exited containers fall out of the
/// list once older than the staleness window.
pub open spec fn spec_visible(e: ContainerEntry) -> bool {
    !(e.state == ContainerState::Exited && e.elapsed_seconds > STALENESS_SECONDS)
}

/// How many of the rows are shown.
pub open spec fn spec_visible_count(cs: Seq<ContainerEntry>) -> nat
    decreases cs.len(),
{
    if cs.len() == 0 {
        0
    } else {
        spec_visible_count(cs.drop_last()) + if spec_visible(cs.last()) {
            1nat
        } else {
            0nat
        }
    }
}

/// The widest shown name; zero when nothing is shown.
pub open spec fn spec_max_visible_name_len(cs: Seq<ContainerEntry>) -> nat
    decreases cs.len(),
{
    if cs.len() == 0 {
        0
    } else {
        let rest = spec_max_visible_name_len(cs.drop_last());
        if spec_visible(cs.last()) && cs.last().name@.len() > rest {
            cs.last().name@.len()
        } else {
            rest
        }
    }
}

/// The words the other lifecycle states are shown with, as the daemon
/// spells them.
pub open spec fn spec_state_text(state: ContainerState) -> Seq<char> {
    match state {
        ContainerState::Empty => ""@,
        ContainerState::Created => "created"@,
        ContainerState::Running => "running"@,
        ContainerState::Paused => "paused"@,
        ContainerState::Restarting => "restarting"@,
        ContainerState::Removing => "removing"@,
        ContainerState::Exited => "exited"@,
        ContainerState::Dead => "dead"@,
    }
}

/// One row's status text: running containers show how long they have
/// been up, exited ones their code and how long ago they stopped,
/// anything else its state word.
pub open spec fn spec_status_text(e: ContainerEntry) -> Seq<char> {
    match e.state {
        ContainerState::Running => "Up "@ + spec_humanize(e.elapsed_seconds as nat),
        ContainerState::Exited => "Exited ("@ + spec_dec_i64(e.exit_code as int) + ") "@
            + spec_humanize(e.elapsed_seconds as nat) + " ago"@,
        _ => spec_state_text(e.state),
    }
}

/// One row's content: the name right-aligned to the widest shown name,
/// a colon, a spacer, the status text.
pub open spec fn spec_row_text(e: ContainerEntry, name_width: nat) -> Seq<char> {
    spec_pad_left(e.name@, name_width) + ": "@ + spec_status_text(e)
}

/// The contents of all shown rows, in order.
pub open spec fn spec_rows(cs: Seq<ContainerEntry>, name_width: nat) -> Seq<Seq<char>>
    decreases cs.len(),
{
    if cs.len() == 0 {
        Seq::empty()
    } else {
        spec_rows(cs.drop_last(), name_width) + if spec_visible(cs.last()) {
            seq![spec_row_text(cs.last(), name_width)]
        } else {
            Seq::<Seq<char>>::empty()
        }
    }
}

/// Renders the container snapshot: one row per shown container, or the
/// unavailability reason on a single line.
pub struct DockerSegmentRenderer {
    pub info: DockerInfo,
}

impl DockerSegmentRenderer {
    pub fn new(info: DockerInfo) -> (r: Self)
        ensures
            r.info == info,
    {
        DockerSegmentRenderer { info }
    }

    /// Whether a container is shown (the staleness rule).
    pub fn is_container_visible(&self, e: &ContainerEntry) -> (r: bool)
        ensures
            r == spec_visible(*e),
    {
        !(matches!(e.state, ContainerState::Exited) && e.elapsed_seconds > STALENESS_SECONDS)
    }

    /// The widest shown name, the row name column's width.
    fn max_visible_name_len(&self) -> (r: usize)
        ensures
            r == spec_max_visible_name_len(self.info.containers@),
    {
        let n = self.info.containers.len();
        let mut best: usize = 0;
        let mut i: usize = 0;
        proof {
            assert(self.info.containers@.subrange(0, 0) =~= Seq::<ContainerEntry>::empty());
        }
        let ghost cs = self.info.containers@;
        while i < n
            invariant
                n == cs.len(),
                cs == self.info.containers@,
                i <= n,
                best == spec_max_visible_name_len(cs.subrange(0, i as int)),
            decreases n - i,
        {
            proof {
                assert(cs.subrange(0, i + 1).drop_last() =~= cs.subrange(0, i as int));
                assert(cs.subrange(0, i + 1).last() == cs[i as int]);
            }
            let e = &self.info.containers[i];
            if self.is_container_visible(e) {
                let name_len = e.name.as_str().unicode_len();
                if name_len > best {
                    best = name_len;
                }
            }
            i = i + 1;
        }
        proof {
            assert(cs.subrange(0, n as int) =~= cs);
        }
        best
    }
}

/// The status text of one row as a string.
pub fn status_text(e: &ContainerEntry) -> (r: String)
    ensures
        r@ == spec_status_text(*e),
{
    match e.state {
        ContainerState::Running => {
            let mut s = String::new();
            s.append("Up ");
            let human = humanize_seconds(e.elapsed_seconds);
            s.append(human.as_str());
            assert(s@ =~= spec_status_text(*e));
            s
        },
        ContainerState::Exited => {
            let mut s = String::new();
            s.append("Exited (");
            push_i64(&mut s, e.exit_code);
            s.append(") ");
            let human = humanize_seconds(e.elapsed_seconds);
            s.append(human.as_str());
            s.append(" ago");
            assert(s@ =~= spec_status_text(*e));
            s
        },
        ContainerState::Empty => {
            let s = String::new();
            assert(s@ =~= spec_status_text(*e)) by {
                reveal_strlit("");
            }
            s
        },
        ContainerState::Created => String::from_str("created"),
        ContainerState::Paused => String::from_str("paused"),
        ContainerState::Restarting => String::from_str("restarting"),
        ContainerState::Removing => String::from_str("removing"),
        ContainerState::Dead => String::from_str("dead"),
    }
}

impl SegmentRenderer for DockerSegmentRenderer {
    open spec fn spec_lines(&self) -> Seq<Seq<char>> {
        match self.info.status {
            DockerStatus::Running => spec_attach_label(
                "Docker"@,
                spec_rows(
                    self.info.containers@,
                    spec_max_visible_name_len(self.info.containers@),
                ),
            ),
            DockerStatus::Unavailable(message) => seq![spec_label_line("Docker"@, message@)],
        }
    }

    fn height(&self) -> (h: usize) {
        match &self.info.status {
            DockerStatus::Running => {
                let ghost cs = self.info.containers@;
                let n = self.info.containers.len();
                let mut count: usize = 0;
                let mut i: usize = 0;
                proof {
                    assert(cs.subrange(0, 0) =~= Seq::<ContainerEntry>::empty());
                }
                while i < n
                    invariant
                        n == cs.len(),
                        cs == self.info.containers@,
                        i <= n,
                        count <= i,
                        count == spec_visible_count(cs.subrange(0, i as int)),
                    decreases n - i,
                {
                    proof {
                        assert(cs.subrange(0, i + 1).drop_last() =~= cs.subrange(0, i as int));
                        assert(cs.subrange(0, i + 1).last() == cs[i as int]);
                    }
                    if self.is_container_visible(&self.info.containers[i]) {
                        count = count + 1;
                    }
                    i = i + 1;
                }
                proof {
                    assert(cs.subrange(0, n as int) =~= cs);
                    lemma_rows_len(cs, spec_max_visible_name_len(cs));
                }
                count
            },
            DockerStatus::Unavailable(_) => 1,
        }
    }

    fn render_lines(&self) -> (r: Vec<String>) {
        match &self.info.status {
            DockerStatus::Running => {
                let ghost cs = self.info.containers@;
                let name_width = self.max_visible_name_len();
                let ghost rows = spec_rows(cs, name_width as nat);
                let n = self.info.containers.len();
                let mut v: Vec<String> = Vec::new();
                let mut i: usize = 0;
                proof {
                    assert(cs.subrange(0, 0) =~= Seq::<ContainerEntry>::empty());
                }
                while i < n
                    invariant
                        n == cs.len(),
                        cs == self.info.containers@,
                        name_width == spec_max_visible_name_len(cs),
                        rows == spec_rows(cs, name_width as nat),
                        i <= n,
                        v@.map_values(|x: String| x@) == spec_attach_label(
                            "Docker"@,
                            spec_rows(cs.subrange(0, i as int), name_width as nat),
                        ),
                    decreases n - i,
                {
                    proof {
                        assert(cs.subrange(0, i + 1).drop_last() =~= cs.subrange(0, i as int));
                        assert(cs.subrange(0, i + 1).last() == cs[i as int]);
                    }
                    let ghost prev_rows = spec_rows(cs.subrange(0, i as int), name_width as nat);
                    let ghost prev = v@.map_values(|x: String| x@);
                    let e = &self.info.containers[i];
                    if self.is_container_visible(e) {
                        let mut row = String::new();
                        push_pad_left(&mut row, e.name.as_str(), name_width);
                        row.append(": ");
                        let status = status_text(e);
                        row.append(status.as_str());
                        proof {
                            assert(row@ =~= spec_row_text(cs[i as int], name_width as nat));
                        }
                        if v.len() == 0 {
                            v.push(label_line("Docker", row.as_str()));
                        } else {
                            v.push(continuation_line(row.as_str()));
                        }
                        proof {
                            let new_rows = spec_rows(cs.subrange(0, i + 1), name_width as nat);
                            assert(new_rows =~= prev_rows.push(row@));
                            assert(prev.len() == prev_rows.len());
                            assert(v@.map_values(|x: String| x@) =~= prev.push(
                                if prev_rows.len() == 0 {
                                    spec_label_line("Docker"@, row@)
                                } else {
                                    spec_continuation_line(row@)
                                },
                            ));
                            assert(v@.map_values(|x: String| x@) =~= spec_attach_label(
                                "Docker"@,
                                new_rows,
                            ));
                        }
                    } else {
                        proof {
                            assert(spec_rows(cs.subrange(0, i + 1), name_width as nat)
                                =~= prev_rows);
                        }
                    }
                    i = i + 1;
                }
                proof {
                    assert(cs.subrange(0, n as int) =~= cs);
                }
                v
            },
            DockerStatus::Unavailable(message) => {
                let mut v: Vec<String> = Vec::new();
                v.push(label_line("Docker", message.as_str()));
                proof {
                    assert(v@.map_values(|x: String| x@) =~= self.spec_lines());
                }
                v
            },
        }
    }
}

/// The shown rows are exactly as many as the visible containers.
proof fn lemma_rows_len(cs: Seq<ContainerEntry>, name_width: nat)
    ensures
        spec_rows(cs, name_width).len() == spec_visible_count(cs),
    decreases cs.len(),
{
    if cs.len() > 0 {
        lemma_rows_len(cs.drop_last(), name_width);
    }
}

} // verus!
