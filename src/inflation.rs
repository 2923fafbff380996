use vstd::prelude::*;

verus! {

/// Era number type.
pub type EraNumber = u32;

/// Period number type.
pub type PeriodNumber = u32;

/// Block number type.
pub type BlockNumber = u32;

/// `a + b`, clamped to `u32::MAX`.
pub open spec fn sat_add(a: u32, b: u32) -> u32 {
    if a + b > u32::MAX {
        u32::MAX
    } else {
        (a + b) as u32
    }
}

/// `a * b`, clamped to `u32::MAX`.
pub open spec fn sat_mul(a: u32, b: u32) -> u32 {
    if a * b > u32::MAX {
        u32::MAX
    } else {
        (a * b) as u32
    }
}

fn saturating_add(a: u32, b: u32) -> (r: u32)
    ensures
        r == sat_add(a, b),
{
    a.saturating_add(b)
}

fn saturating_mul(a: u32, b: u32) -> (r: u32)
    ensures
        r == sat_mul(a, b),
{
    proof {
        assert((a as u64) * (b as u64) <= u32::MAX * u32::MAX) by (nonlinear_arith);
    }
    let p: u64 = (a as u64) * (b as u64);
    if p > u32::MAX as u64 {
        u32::MAX
    } else {
        p as u32
    }
}

/// Configuration for cycles, periods, subperiods and eras.
///
/// * `cycle`: a unit similar to a year; one or more periods.
/// * `period`: a voting subperiod followed by a build&earn subperiod, measured in eras.
/// * `era`: the basic time unit, measured in blocks.
///
/// Each required quantity has a spec counterpart that the derived quantities
/// are stated over; every derived quantity saturates at `u32::MAX`.
pub trait CycleConfiguration {
    spec fn spec_periods_per_cycle() -> PeriodNumber;

    spec fn spec_eras_per_voting_subperiod() -> EraNumber;

    spec fn spec_eras_per_build_and_earn_subperiod() -> EraNumber;

    spec fn spec_blocks_per_era() -> BlockNumber;

    /// How many different periods there are in a cycle; at least 1.
    fn periods_per_cycle() -> (r: PeriodNumber)
        ensures
            r == Self::spec_periods_per_cycle(),
            r >= 1,
    ;

    /// For how many standard era lengths the voting subperiod lasts; at least 1.
    fn eras_per_voting_subperiod() -> (r: EraNumber)
        ensures
            r == Self::spec_eras_per_voting_subperiod(),
            r >= 1,
    ;

    /// How many standard eras there are in the build&earn subperiod; at least 1.
    fn eras_per_build_and_earn_subperiod() -> (r: EraNumber)
        ensures
            r == Self::spec_eras_per_build_and_earn_subperiod(),
            r >= 1,
    ;

    /// How many blocks there are per standard era; at least 1.
    fn blocks_per_era() -> (r: BlockNumber)
        ensures
            r == Self::spec_blocks_per_era(),
            r >= 1,
    ;

    /// For how many standard era lengths a period lasts.
    fn period_in_era_lengths() -> (r: EraNumber)
        ensures
            r == sat_add(
                Self::spec_eras_per_voting_subperiod(),
                Self::spec_eras_per_build_and_earn_subperiod(),
            ),
    {
        saturating_add(Self::eras_per_voting_subperiod(), Self::eras_per_build_and_earn_subperiod())
    }

    /// For how many standard era lengths a cycle lasts.
    fn cycle_in_era_lengths() -> (r: EraNumber)
        ensures
            r == sat_mul(
                sat_add(
                    Self::spec_eras_per_voting_subperiod(),
                    Self::spec_eras_per_build_and_earn_subperiod(),
                ),
                Self::spec_periods_per_cycle(),
            ),
    {
        saturating_mul(Self::period_in_era_lengths(), Self::periods_per_cycle())
    }

    /// How many blocks there are per cycle.
    fn blocks_per_cycle() -> (r: BlockNumber)
        ensures
            r == sat_mul(
                Self::spec_blocks_per_era(),
                sat_mul(
                    sat_add(
                        Self::spec_eras_per_voting_subperiod(),
                        Self::spec_eras_per_build_and_earn_subperiod(),
                    ),
                    Self::spec_periods_per_cycle(),
                ),
            ),
    {
        saturating_mul(Self::blocks_per_era(), Self::cycle_in_era_lengths())
    }

    /// For how many standard era lengths all build&earn subperiods of a cycle last.
    fn build_and_earn_eras_per_cycle() -> (r: EraNumber)
        ensures
            r == sat_mul(
                Self::spec_eras_per_build_and_earn_subperiod(),
                Self::spec_periods_per_cycle(),
            ),
    {
        saturating_mul(Self::eras_per_build_and_earn_subperiod(), Self::periods_per_cycle())
    }

    /// How many distinct eras there are in a single period.
    fn eras_per_period() -> (r: EraNumber)
        ensures
            r == sat_add(Self::spec_eras_per_build_and_earn_subperiod(), 1),
    {
        saturating_add(Self::eras_per_build_and_earn_subperiod(), 1)
    }

    /// How many distinct eras there are in a cycle.
    fn eras_per_cycle() -> (r: EraNumber)
        ensures
            r == sat_mul(
                sat_add(Self::spec_eras_per_build_and_earn_subperiod(), 1),
                Self::spec_periods_per_cycle(),
            ),
    {
        saturating_mul(Self::eras_per_period(), Self::periods_per_cycle())
    }
}

} // verus!
