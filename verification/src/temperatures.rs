//! The temperatures segment: sensor readings folded into three named
//! groups — CPU, GPU and battery — each averaged and judged against its
//! own limits, one line.  Temperatures are carried in tenths of a
//! degree, the precision they are displayed with.

use vstd::prelude::*;
use crate::render::{left_label_line, spec_left_label_line, Info, SegmentRenderer};
use crate::text::{
    push_u64, spec_contains, spec_dec, spec_digit_char, spec_lower_of, str_contains_ci,
};

verus! {

/// One raw sensor reading as acquisition reports it: its label, its
/// temperature, the limit it should stay under, and the critical limit
/// where the sensor reports one.
pub struct SensorReading {
    pub label: String,
    pub temperature_tenths: u64,
    pub max_tenths: u64,
    pub critical_tenths: Option<u64>,
}

/// The group a sensor reading is folded into.
#[derive(Clone, Copy, Debug, PartialEq, Eq, Structural)]
pub enum SensorKind {
    Cpu,
    Gpu,
    Battery,
    Other,
}

/// How a sensor temperature stands against its limits.
#[derive(Clone, Copy, Debug, PartialEq, Eq, Structural)]
pub enum TemperatureStatus {
    Normal,
    High,
    Critical,
}

/// One aggregated group shown by the segment.
pub struct SensorTemperature {
    pub name: String,
    pub temperature_tenths: u64,
    pub high_tenths: u64,
    pub critical_tenths: u64,
}

/// The mathematical shadow of an aggregated group.
pub ghost struct SensorView {
    pub name: Seq<char>,
    pub temperature_tenths: u64,
    pub high_tenths: u64,
    pub critical_tenths: u64,
}

impl View for SensorTemperature {
    type V = SensorView;

    open spec fn view(&self) -> SensorView {
        SensorView {
            name: self.name@,
            temperature_tenths: self.temperature_tenths,
            high_tenths: self.high_tenths,
            critical_tenths: self.critical_tenths,
        }
    }
}

impl SensorTemperature {
    /// Where this group's temperature stands: at or over the critical
    /// limit, at or over the high limit, or under both.
    pub open spec fn spec_status(&self) -> TemperatureStatus {
        if self.temperature_tenths >= self.critical_tenths {
            TemperatureStatus::Critical
        } else if self.temperature_tenths >= self.high_tenths {
            TemperatureStatus::High
        } else {
            TemperatureStatus::Normal
        }
    }

    pub fn status(&self) -> (r: TemperatureStatus)
        ensures
            r == self.spec_status(),
    {
        if self.temperature_tenths >= self.critical_tenths {
            TemperatureStatus::Critical
        } else if self.temperature_tenths >= self.high_tenths {
            TemperatureStatus::High
        } else {
            TemperatureStatus::Normal
        }
    }
}

/// The group a label falls in, by case-insensitive markers.
pub open spec fn spec_kind_of(label: Seq<char>) -> SensorKind {
    if spec_contains(spec_lower_of(label), spec_lower_of("cpu"@)) || spec_contains(
        spec_lower_of(label),
        spec_lower_of("tdie"@),
    ) {
        SensorKind::Cpu
    } else if spec_contains(spec_lower_of(label), spec_lower_of("gpu"@)) {
        SensorKind::Gpu
    } else if spec_contains(spec_lower_of(label), spec_lower_of("battery"@)) {
        SensorKind::Battery
    } else {
        SensorKind::Other
    }
}

/// How many readings fall in group `k`.
pub open spec fn spec_group_count(rs: Seq<SensorReading>, k: SensorKind) -> nat
    decreases rs.len(),
{
    if rs.len() == 0 {
        0
    } else {
        spec_group_count(rs.drop_last(), k) + if spec_kind_of(rs.last().label@) == k {
            1nat
        } else {
            0nat
        }
    }
}

/// The summed temperature of group `k`, in tenths.
pub open spec fn spec_group_sum(rs: Seq<SensorReading>, k: SensorKind) -> int
    decreases rs.len(),
{
    if rs.len() == 0 {
        0
    } else {
        spec_group_sum(rs.drop_last(), k) + if spec_kind_of(rs.last().label@) == k {
            rs.last().temperature_tenths as int
        } else {
            0
        }
    }
}

/// The first reading of group `k`, whose limits the group takes.
pub open spec fn spec_group_first(rs: Seq<SensorReading>, k: SensorKind) -> Option<SensorReading>
    decreases rs.len(),
{
    if rs.len() == 0 {
        Option::None
    } else {
        match spec_group_first(rs.drop_last(), k) {
            Option::Some(r) => Option::Some(r),
            Option::None => if spec_kind_of(rs.last().label@) == k {
                Option::Some(rs.last())
            } else {
                Option::None
            },
        }
    }
}

/// The aggregated group `k`: the average of its readings, truncated to
/// tenths, under the first reading's limits; a sensor that reports no
/// critical limit takes `default_critical_tenths`.
pub open spec fn spec_group_sensor(
    rs: Seq<SensorReading>,
    k: SensorKind,
    name: Seq<char>,
    default_critical_tenths: u64,
) -> SensorView {
    let count = spec_group_count(rs, k);
    SensorView {
        name: name,
        temperature_tenths: if count > 0 {
            (spec_group_sum(rs, k) / count as int) as u64
        } else {
            0u64
        },
        high_tenths: match spec_group_first(rs, k) {
            Option::Some(r) => r.max_tenths,
            Option::None => 0u64,
        },
        critical_tenths: match spec_group_first(rs, k) {
            Option::Some(r) => match r.critical_tenths {
                Option::Some(c) => c,
                Option::None => default_critical_tenths,
            },
            Option::None => 0u64,
        },
    }
}

/// The groups the segment keeps: CPU, GPU and battery in that order,
/// each only when its readings sum to a positive temperature.
pub open spec fn spec_kept_sensors(rs: Seq<SensorReading>) -> Seq<SensorView> {
    let cpu = spec_group_sensor(rs, SensorKind::Cpu, "CPU"@, 1000);
    let gpu = spec_group_sensor(rs, SensorKind::Gpu, "GPU"@, 1000);
    let battery = spec_group_sensor(rs, SensorKind::Battery, "Battery"@, 600);
    (if spec_group_sum(rs, SensorKind::Cpu) > 0 {
        seq![cpu]
    } else {
        Seq::empty()
    }) + (if spec_group_sum(rs, SensorKind::Gpu) > 0 {
        seq![gpu]
    } else {
        Seq::empty()
    }) + (if spec_group_sum(rs, SensorKind::Battery) > 0 {
        seq![battery]
    } else {
        Seq::empty()
    })
}

/// Snapshot of the aggregated sensor groups.
pub struct TemperaturesInfo {
    pub sensors: Vec<SensorTemperature>,
}

impl Info for TemperaturesInfo {

}

/// Folds raw sensor readings into the temperatures snapshot.
pub struct TemperaturesInfoBuilder {
}

/// Running totals for one group while readings are folded in.
struct GroupAccumulator {
    count: usize,
    sum: u128,
    high_tenths: u64,
    critical_tenths: u64,
}

impl TemperaturesInfoBuilder {
    pub fn new() -> (r: Self) {
        TemperaturesInfoBuilder {  }
    }

    /// Builds the snapshot: readings are folded into the CPU, GPU and
    /// battery groups, each averaged and kept only when warm at all.
    pub fn build_from_readings(&self, readings: &Vec<SensorReading>) -> (r: TemperaturesInfo)
        ensures
            r.sensors@.map_values(|s: SensorTemperature| s@) == spec_kept_sensors(readings@),
    {
        let n = readings.len();
        let mut cpu = GroupAccumulator { count: 0, sum: 0, high_tenths: 0, critical_tenths: 0 };
        let mut gpu = GroupAccumulator { count: 0, sum: 0, high_tenths: 0, critical_tenths: 0 };
        let mut battery = GroupAccumulator {
            count: 0,
            sum: 0,
            high_tenths: 0,
            critical_tenths: 0,
        };
        let mut i: usize = 0;
        proof {
            assert(readings@.subrange(0, 0) =~= Seq::<SensorReading>::empty());
        }
        while i < n
            invariant
                n == readings@.len(),
                i <= n,
                cpu.count <= i && gpu.count <= i && battery.count <= i,
                group_matches(cpu, readings@.subrange(0, i as int), SensorKind::Cpu, 1000),
                group_matches(gpu, readings@.subrange(0, i as int), SensorKind::Gpu, 1000),
                group_matches(
                    battery,
                    readings@.subrange(0, i as int),
                    SensorKind::Battery,
                    600,
                ),
            decreases n - i,
        {
            let ghost prefix = readings@.subrange(0, i as int);
            proof {
                assert(readings@.subrange(0, i + 1).drop_last() =~= prefix);
                assert(readings@.subrange(0, i + 1).last() == readings@[i as int]);
            }
            let reading = &readings[i];
            let is_cpu = str_contains_ci(reading.label.as_str(), "cpu") || str_contains_ci(
                reading.label.as_str(),
                "tdie",
            );
            let is_gpu = !is_cpu && str_contains_ci(reading.label.as_str(), "gpu");
            let is_battery = !is_cpu && !is_gpu && str_contains_ci(
                reading.label.as_str(),
                "battery",
            );
            if is_cpu {
                fold_reading(&mut cpu, reading, 1000);
            } else if is_gpu {
                fold_reading(&mut gpu, reading, 1000);
            } else if is_battery {
                fold_reading(&mut battery, reading, 600);
            }
            i = i + 1;
        }
        proof {
            assert(readings@.subrange(0, n as int) =~= readings@);
        }
        let mut sensors: Vec<SensorTemperature> = Vec::new();
        push_group(&mut sensors, &cpu, "CPU", Ghost(readings@), Ghost(SensorKind::Cpu), Ghost(1000u64));
        push_group(&mut sensors, &gpu, "GPU", Ghost(readings@), Ghost(SensorKind::Gpu), Ghost(1000u64));
        push_group(
            &mut sensors,
            &battery,
            "Battery",
            Ghost(readings@),
            Ghost(SensorKind::Battery),
            Ghost(600u64),
        );
        proof {
            assert(sensors@.map_values(|s: SensorTemperature| s@) =~= spec_kept_sensors(
                readings@,
            ));
        }
        TemperaturesInfo { sensors }
    }
}

impl Default for TemperaturesInfoBuilder {
    fn default() -> (r: Self) {
        TemperaturesInfoBuilder {  }
    }
}

/// The accumulator holds exactly the group's totals over `rs`.
spec fn group_matches(
    acc: GroupAccumulator,
    rs: Seq<SensorReading>,
    k: SensorKind,
    default_critical_tenths: u64,
) -> bool {
    &&& acc.count as nat == spec_group_count(rs, k)
    &&& acc.sum as int == spec_group_sum(rs, k)
    &&& acc.sum <= acc.count as u128 * (u64::MAX as u128)
    &&& (spec_group_first(rs, k) is None <==> spec_group_count(rs, k) == 0)
    &&& match spec_group_first(rs, k) {
        Option::Some(r) => acc.high_tenths == r.max_tenths && acc.critical_tenths == (
        match r.critical_tenths {
            Option::Some(c) => c,
            Option::None => default_critical_tenths,
        }),
        Option::None => acc.count == 0,
    }
}

/// Folds one reading of the accumulator's own group into it.
fn fold_reading(
    acc: &mut GroupAccumulator,
    reading: &SensorReading,
    default_critical_tenths: u64,
)
    requires
        old(acc).count < usize::MAX,
        old(acc).sum <= old(acc).count as u128 * (u64::MAX as u128),
    ensures
        final(acc).count == old(acc).count + 1,
        final(acc).sum == old(acc).sum + reading.temperature_tenths as u128,
        final(acc).sum <= final(acc).count as u128 * (u64::MAX as u128),
        old(acc).count == 0 ==> final(acc).high_tenths == reading.max_tenths
            && final(acc).critical_tenths == (match reading.critical_tenths {
            Option::Some(c) => c,
            Option::None => default_critical_tenths,
        }),
        old(acc).count > 0 ==> final(acc).high_tenths == old(acc).high_tenths
            && final(acc).critical_tenths == old(acc).critical_tenths,
{
    proof {
        let c = old(acc).count as int;
        assert((c + 1) * (u64::MAX as int) == c * (u64::MAX as int) + (u64::MAX as int))
            by (nonlinear_arith);
    }
    acc.sum = acc.sum + reading.temperature_tenths as u128;
    acc.count = acc.count + 1;
    if acc.count == 1 {
        acc.high_tenths = reading.max_tenths;
        acc.critical_tenths = match reading.critical_tenths {
            Some(c) => c,
            None => default_critical_tenths,
        };
    }
}

/// Pushes one aggregated group onto the kept list when it is warm.
fn push_group(
    sensors: &mut Vec<SensorTemperature>,
    acc: &GroupAccumulator,
    name: &str,
    Ghost(rs): Ghost<Seq<SensorReading>>,
    Ghost(k): Ghost<SensorKind>,
    Ghost(default_critical_tenths): Ghost<u64>,
)
    requires
        group_matches(*acc, rs, k, default_critical_tenths),
    ensures
        final(sensors)@.map_values(|s: SensorTemperature| s@) == old(sensors)@.map_values(
            |s: SensorTemperature| s@,
        ) + if spec_group_sum(rs, k) > 0 {
            seq![spec_group_sensor(rs, k, name@, default_critical_tenths)]
        } else {
            Seq::<SensorView>::empty()
        },
{
    let ghost prev = sensors@.map_values(|s: SensorTemperature| s@);
    if acc.sum > 0 {
        let average = average_tenths(acc.sum, acc.count);
        sensors.push(
            SensorTemperature {
                name: name.to_owned(),
                temperature_tenths: average,
                high_tenths: acc.high_tenths,
                critical_tenths: acc.critical_tenths,
            },
        );
        proof {
            assert(sensors@.map_values(|s: SensorTemperature| s@) =~= prev + seq![
                spec_group_sensor(rs, k, name@, default_critical_tenths),
            ]);
        }
    } else {
        proof {
            assert(sensors@.map_values(|s: SensorTemperature| s@) =~= prev
                + Seq::<SensorView>::empty());
        }
    }
}

/// The average of a positive sum over its count, truncated to tenths.
fn average_tenths(sum: u128, count: usize) -> (r: u64)
    requires
        sum > 0,
        sum <= count as u128 * (u64::MAX as u128),
    ensures
        r == sum as int / count as int,
{
    proof {
        assert(count > 0);
    }
    let q = sum / (count as u128);
    proof {
        vstd::arithmetic::div_mod::lemma_multiply_divide_le(
            sum as int,
            count as int,
            u64::MAX as int,
        );
    }
    q as u64
}

/// One sensor's span: its name and tenths-precise temperature.
pub open spec fn spec_sensor_text(s: SensorView) -> Seq<char> {
    s.name + " "@ + spec_dec(s.temperature_tenths as nat / 10) + seq!['.'] + seq![
        spec_digit_char(s.temperature_tenths as nat % 10),
    ] + "\u{b0}C"@
}

/// The whole line's content: every kept sensor, comma-separated.
pub open spec fn spec_temps_content(sensors: Seq<SensorView>) -> Seq<char>
    decreases sensors.len(),
{
    if sensors.len() == 0 {
        Seq::empty()
    } else if sensors.len() == 1 {
        spec_sensor_text(sensors[0])
    } else {
        spec_temps_content(sensors.drop_last()) + ", "@ + spec_sensor_text(sensors.last())
    }
}

/// Renders the temperatures snapshot as one labelled line.
pub struct TemperaturesSegmentRenderer {
    pub info: TemperaturesInfo,
}

impl TemperaturesSegmentRenderer {
    pub fn new(info: TemperaturesInfo) -> (r: Self)
        ensures
            r.info == info,
    {
        TemperaturesSegmentRenderer { info }
    }
}

impl SegmentRenderer for TemperaturesSegmentRenderer {
    open spec fn spec_lines(&self) -> Seq<Seq<char>> {
        seq![
            spec_left_label_line(
                "Temps"@,
                spec_temps_content(self.info.sensors@.map_values(|s: SensorTemperature| s@)),
            ),
        ]
    }

    fn height(&self) -> (h: usize) {
        1
    }

    fn render_lines(&self) -> (r: Vec<String>) {
        let ghost views = self.info.sensors@.map_values(|s: SensorTemperature| s@);
        let mut content = String::new();
        let n = self.info.sensors.len();
        let mut i: usize = 0;
        while i < n
            invariant
                n == self.info.sensors@.len(),
                views == self.info.sensors@.map_values(|s: SensorTemperature| s@),
                i <= n,
                content@ == spec_temps_content(views.subrange(0, i as int)),
            decreases n - i,
        {
            let ghost prefix = views.subrange(0, i as int);
            proof {
                assert(views.subrange(0, i + 1).drop_last() =~= prefix);
                assert(views.subrange(0, i + 1).last() == views[i as int]);
            }
            if i > 0 {
                content.append(", ");
            }
            let sensor = &self.info.sensors[i];
            content.append(sensor.name.as_str());
            content.append(" ");
            push_u64(&mut content, sensor.temperature_tenths / 10);
            proof {
                reveal_strlit(".");
                assert("."@ =~= seq!['.']);
            }
            content.append(".");
            push_u64(&mut content, sensor.temperature_tenths % 10);
            content.append("\u{b0}C");
            i = i + 1;
            proof {
                assert(content@ =~= spec_temps_content(views.subrange(0, i as int)));
            }
        }
        proof {
            assert(views.subrange(0, n as int) =~= views);
        }
        let mut v: Vec<String> = Vec::new();
        v.push(left_label_line("Temps", content.as_str()));
        proof {
            assert(v@.map_values(|x: String| x@) =~= self.spec_lines());
        }
        v
    }
}

} // verus!
