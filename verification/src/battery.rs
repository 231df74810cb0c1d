//! Battery gauge: readings of the divided battery voltage, smoothed and mapped to
//! a charge estimate of a single Li-ion cell.

use vstd::prelude::*;

verus! {

/// Readings that make one sample.
pub const SAMPLES: u32 = 8;

/// A conversion takes microseconds; give up rather than hang the main loop.
pub const MAX_POLLS_PER_SAMPLE: u32 = 100_000;

/// The pin sees half of the battery's voltage.
pub const DIVIDER_RATIO: u32 = 2;

/// The resting-voltage discharge curve: millivolts and percent, descending.
pub open spec fn discharge_curve() -> Seq<(int, int)> {
    seq![
        (4150, 100),
        (4060, 90),
        (3980, 80),
        (3920, 70),
        (3870, 60),
        (3820, 50),
        (3790, 40),
        (3770, 30),
        (3740, 20),
        (3680, 10),
        (3400, 0),
    ]
}

/// The charge on a segment of the curve that falls from `high` to `low`,
/// interpolated and rounded down.
pub open spec fn on_segment(high: (int, int), low: (int, int), millivolts: int) -> int {
    low.1 + (millivolts - low.0) * (high.1 - low.1) / (high.0 - low.0)
}

/// The charge that the curve gives from its point `from` on downwards.
pub open spec fn charge_below(curve: Seq<(int, int)>, from: int, millivolts: int) -> int
    decreases curve.len() - from,
{
    if from + 1 >= curve.len() {
        0
    } else if millivolts >= curve[from + 1].0 {
        on_segment(curve[from], curve[from + 1], millivolts)
    } else {
        charge_below(curve, from + 1, millivolts)
    }
}

/// The charge estimate: full above the curve, empty below it.
pub open spec fn charge(millivolts: int) -> int {
    if millivolts >= 4150 {
        100
    } else {
        charge_below(discharge_curve(), 0, millivolts)
    }
}

/// The charge between two points of the curve that are ten percent apart.
fn segment(high_mv: u32, low_mv: u32, low_pct: u32, millivolts: u32) -> (percent: u8)
    requires
        low_mv <= millivolts < high_mv <= 5000,
        low_pct <= 90,
    ensures
        percent == on_segment(
            (high_mv as int, low_pct + 10),
            (low_mv as int, low_pct as int),
            millivolts as int,
        ),
{
    let part: u32 = (millivolts - low_mv) * 10 / (high_mv - low_mv);
    proof {
        let rise = (millivolts - low_mv) * 10;
        let span = high_mv - low_mv;
        assert(0 <= rise / span <= 10) by (nonlinear_arith)
            requires
                0 <= rise <= span * 10,
                span > 0,
        ;
    }
    (low_pct + part) as u8
}

/// The charge estimate for a battery voltage, in percent.
pub fn percent_from_mv(millivolts: u32) -> (percent: u8)
    ensures
        percent == charge(millivolts as int),
        percent <= 100,
{
    proof {
        reveal_with_fuel(charge_below, 12);
        charge_in_range(millivolts as int);
    }
    if millivolts >= 4150 {
        100
    } else if millivolts >= 4060 {
        segment(4150, 4060, 90, millivolts)
    } else if millivolts >= 3980 {
        segment(4060, 3980, 80, millivolts)
    } else if millivolts >= 3920 {
        segment(3980, 3920, 70, millivolts)
    } else if millivolts >= 3870 {
        segment(3920, 3870, 60, millivolts)
    } else if millivolts >= 3820 {
        segment(3870, 3820, 50, millivolts)
    } else if millivolts >= 3790 {
        segment(3820, 3790, 40, millivolts)
    } else if millivolts >= 3770 {
        segment(3790, 3770, 30, millivolts)
    } else if millivolts >= 3740 {
        segment(3770, 3740, 20, millivolts)
    } else if millivolts >= 3680 {
        segment(3740, 3680, 10, millivolts)
    } else if millivolts >= 3400 {
        segment(3680, 3400, 0, millivolts)
    } else {
        0
    }
}

/// The curve written out.
pub proof fn charge_by_segment(millivolts: int)
    ensures
        charge(millivolts) == if millivolts >= 4150 {
            100
        } else if millivolts >= 4060 {
            90 + (millivolts - 4060) * 10 / 90
        } else if millivolts >= 3980 {
            80 + (millivolts - 3980) * 10 / 80
        } else if millivolts >= 3920 {
            70 + (millivolts - 3920) * 10 / 60
        } else if millivolts >= 3870 {
            60 + (millivolts - 3870) * 10 / 50
        } else if millivolts >= 3820 {
            50 + (millivolts - 3820) * 10 / 50
        } else if millivolts >= 3790 {
            40 + (millivolts - 3790) * 10 / 30
        } else if millivolts >= 3770 {
            30 + (millivolts - 3770) * 10 / 20
        } else if millivolts >= 3740 {
            20 + (millivolts - 3740) * 10 / 30
        } else if millivolts >= 3680 {
            10 + (millivolts - 3680) * 10 / 60
        } else if millivolts >= 3400 {
            (millivolts - 3400) * 10 / 280
        } else {
            0
        },
{
    reveal_with_fuel(charge_below, 12);
}

/// The charge estimate is a percentage.
pub proof fn charge_in_range(millivolts: int)
    ensures
        0 <= charge(millivolts) <= 100,
{
    charge_by_segment(millivolts);
}

/// A higher voltage never means less charge.
pub proof fn charge_grows_with_voltage(low: int, high: int)
    requires
        low <= high,
    ensures
        charge(low) <= charge(high),
{
    charge_by_segment(low);
    charge_by_segment(high);
}

/// The curve's own points are met.
pub proof fn curve_points_are_met(i: int)
    requires
        0 <= i < discharge_curve().len(),
    ensures
        charge(discharge_curve()[i].0) == discharge_curve()[i].1,
{
    reveal_with_fuel(charge_below, 12);
    assert(i == 0 || i == 1 || i == 2 || i == 3 || i == 4 || i == 5 || i == 6 || i == 7 || i == 8
        || i == 9 || i == 10);
}

// ---------------------------------------------------------------------------
// Sampling
// ---------------------------------------------------------------------------

/// What the converter says.
#[derive(Clone, Copy, Debug, PartialEq, Eq, Structural)]
pub enum AdcEvent {
    /// A reading at the pin, in millivolts.
    Value(u16),
    /// The conversion is not finished.
    WouldBlock,
    Failed,
}

/// How a sample goes on.
#[derive(Clone, Copy, Debug, PartialEq, Eq, Structural)]
pub enum SampleStep {
    /// The converter is to be asked again.
    More,
    /// There is no sample.
    Failed,
    /// The sample is complete, at this charge.
    Ready(u8),
}

/// The gauge.
#[derive(Clone, Copy, Debug, PartialEq, Eq, Structural)]
pub struct Battery {
    /// The smoothed voltage.
    pub filtered_mv: Option<u32>,
    /// The readings of the sample under way.
    pub sum: u32,
    pub taken: u32,
    /// How often the converter has been asked for the next reading.
    pub polls: u32,
}

/// The smoothed voltage after a sample: a quarter of the new one, to hide the sag
/// under the radio's load.
pub open spec fn smoothed(previous: Option<u32>, battery_mv: int) -> int {
    match previous {
        Some(previous) => (previous * 3 + battery_mv) / 4,
        None => battery_mv,
    }
}

impl Battery {
    /// What becomes of a measurement with one more answer of the converter.
    pub open spec fn sampled(self, event: AdcEvent) -> (Battery, SampleStep) {
        let dropped = Battery { sum: 0, taken: 0, polls: 0, ..self };
        match event {
            AdcEvent::Failed => (dropped, SampleStep::Failed),
            AdcEvent::WouldBlock => if self.polls + 1 == MAX_POLLS_PER_SAMPLE {
                (dropped, SampleStep::Failed)
            } else {
                (Battery { polls: (self.polls + 1) as u32, ..self }, SampleStep::More)
            },
            AdcEvent::Value(millivolts) => if self.taken + 1 < SAMPLES {
                (
                    Battery {
                        sum: (self.sum + millivolts) as u32,
                        taken: (self.taken + 1) as u32,
                        polls: 0,
                        ..self
                    },
                    SampleStep::More,
                )
            } else {
                let battery_mv = (self.sum + millivolts) / 8 * DIVIDER_RATIO;
                let filtered = smoothed(self.filtered_mv, battery_mv);
                (
                    Battery { filtered_mv: Some(filtered as u32), ..dropped },
                    SampleStep::Ready(charge(filtered) as u8),
                )
            },
        }
    }

    pub open spec fn wf(self) -> bool {
        &&& self.filtered_mv matches Some(millivolts) ==> millivolts <= 131_070
        &&& self.taken < SAMPLES
        &&& self.sum <= 65_535 * self.taken
        &&& self.polls < MAX_POLLS_PER_SAMPLE
    }

    pub fn new() -> (battery: Self)
        ensures
            battery == (Battery { filtered_mv: None, sum: 0, taken: 0, polls: 0 }),
            battery.wf(),
    {
        Battery { filtered_mv: None, sum: 0, taken: 0, polls: 0 }
    }

    /// Takes what the converter says. Eight readings make a sample; one that does
    /// not come, or an error, ends it without a result.
    pub fn sample_percent(&mut self, event: AdcEvent) -> (step: SampleStep)
        requires
            old(self).wf(),
        ensures
            final(self).wf(),
            (*final(self), step) == old(self).sampled(event),
    {
        match event {
            AdcEvent::Failed => {
                self.sum = 0;
                self.taken = 0;
                self.polls = 0;
                SampleStep::Failed
            },
            AdcEvent::WouldBlock => {
                if self.polls + 1 == MAX_POLLS_PER_SAMPLE {
                    self.sum = 0;
                    self.taken = 0;
                    self.polls = 0;
                    SampleStep::Failed
                } else {
                    self.polls += 1;
                    SampleStep::More
                }
            },
            AdcEvent::Value(millivolts) => {
                self.polls = 0;
                self.sum += millivolts as u32;
                self.taken += 1;
                if self.taken < SAMPLES {
                    return SampleStep::More;
                }
                let battery_mv: u32 = self.sum / SAMPLES * DIVIDER_RATIO;
                let filtered: u32 = match self.filtered_mv {
                    Some(previous) => (previous * 3 + battery_mv) / 4,
                    None => battery_mv,
                };
                self.filtered_mv = Some(filtered);
                self.sum = 0;
                self.taken = 0;
                SampleStep::Ready(percent_from_mv(filtered))
            },
        }
    }
}

/// The sum of some readings.
pub open spec fn total(readings: Seq<u16>) -> int
    decreases readings.len(),
{
    if readings.len() == 0 {
        0
    } else {
        total(readings.drop_last()) + readings.last()
    }
}

/// A measurement after some readings.
pub open spec fn measured(battery: Battery, readings: Seq<u16>) -> (Battery, SampleStep)
    decreases readings.len(),
{
    if readings.len() == 0 {
        (battery, SampleStep::More)
    } else {
        measured(battery, readings.drop_last()).0.sampled(AdcEvent::Value(readings.last()))
    }
}

/// Fewer than eight readings are summed up and more are asked for.
proof fn readings_are_summed(battery: Battery, readings: Seq<u16>)
    requires
        battery.taken == 0,
        battery.sum == 0,
        battery.polls == 0,
        readings.len() < 8,
    ensures
        measured(battery, readings).1 == SampleStep::More,
        measured(battery, readings).0 == (Battery {
            sum: total(readings) as u32,
            taken: readings.len() as u32,
            ..battery
        }),
        0 <= total(readings) <= 65_535 * readings.len(),
    decreases readings.len(),
{
    if readings.len() > 0 {
        readings_are_summed(battery, readings.drop_last());
    }
}

/// Eight readings make a measurement: the battery has twice their mean, which counts for a
/// quarter beside what was measured before, and the charge is that of the mix.
pub proof fn eight_readings_make_a_measurement(battery: Battery, readings: Seq<u16>)
    requires
        battery.wf(),
        battery.taken == 0,
        battery.sum == 0,
        battery.polls == 0,
        readings.len() == 8,
    ensures
        ({
            let now = 2 * (total(readings) / 8);
            let mixed = match battery.filtered_mv {
                Some(before) => (3 * before + now) / 4,
                None => now,
            };
            let (after, step) = measured(battery, readings);
            &&& step == SampleStep::Ready(charge(mixed) as u8)
            &&& after.filtered_mv matches Some(kept) && kept == mixed
            &&& after.taken == 0 && after.sum == 0 && after.polls == 0
        }),
{
    readings_are_summed(battery, readings.drop_last());
}

/// The converter is asked a hundred thousand times for a reading; then, as when it fails, the
/// readings so far are dropped and what was measured before stays.
pub proof fn stuck_converters_fail(battery: Battery)
    requires
        battery.wf(),
    ensures
        ({
            let (after, step) = battery.sampled(AdcEvent::WouldBlock);
            &&& battery.polls < 99_999 ==> step == SampleStep::More && after.polls == battery.polls
                + 1 && after.sum == battery.sum && after.taken == battery.taken
            &&& battery.polls == 99_999 ==> step == SampleStep::Failed && after.polls == 0
                && after.sum == 0 && after.taken == 0
            &&& after.filtered_mv == battery.filtered_mv
        }),
        ({
            let (after, step) = battery.sampled(AdcEvent::Failed);
            &&& step == SampleStep::Failed
            &&& after.polls == 0 && after.sum == 0 && after.taken == 0
            &&& after.filtered_mv == battery.filtered_mv
        }),
{
}

} // verus!
