//! The phase-typed half of the lifecycle: a column snapshot tagged with
//! one of three phase markers. Equation derivation is only callable on a
//! `Configured` entity, simulation only on a `ReadyForSimulation` one, and
//! the profile accessors only on a `Simulated` one — a call in any other
//! phase does not compile. Every transition consumes the old entity, so a
//! phase can never be re-entered by accident.

use core::marker::PhantomData;
use vstd::prelude::*;

use crate::builder::{
    cleared, lemma_revalidate_cleared, valid_config, violation_msgs, ColumnView,
    DistillationColumn, DistillationColumnBuilder, ValidationFailure,
};
use crate::text::strings_view;

verus! {

/// Phase marker: validated configuration, no derived artifacts yet.
#[derive(Debug)]
pub struct Configured {}

/// Phase marker: equations derived, profiles not yet simulated.
#[derive(Debug)]
pub struct ReadyForSimulation {}

/// Phase marker: simulation done, profiles available.
#[derive(Debug)]
pub struct Simulated {}

/// The closed set of phases a column entity can be in.
pub trait ColumnState {

}

impl ColumnState for Configured {

}

impl ColumnState for ReadyForSimulation {

}

impl ColumnState for Simulated {

}

/// A column snapshot paired with its lifecycle phase tag.
#[derive(Debug)]
pub struct TypeStateColumn<S: ColumnState> {
    data: DistillationColumn,
    marker: PhantomData<S>,
}

/// The operations every phase with derived equations offers.
pub trait ColumnWithEquations {
    /// The equation texts this entity exposes, in derivation order.
    spec fn equations_view(&self) -> Seq<Seq<char>>;

    /// The derived equations, in derivation order.
    fn equations(&self) -> (r: &Vec<String>)
        ensures
            strings_view(r@) == self.equations_view(),
    ;

    /// A copy of each equation, in derivation order.
    fn iter_equations(&self) -> (r: Vec<String>)
        ensures
            strings_view(r@) == self.equations_view(),
    ;
}

impl<S: ColumnState> TypeStateColumn<S> {
    /// The wrapped snapshot.
    pub closed spec fn snapshot(&self) -> ColumnView {
        self.data@
    }

    /// Reconfiguration from any phase: the entity is consumed, its
    /// snapshot (artifacts cleared) is handed to `closure` as a builder,
    /// and the result is re-validated. Success restarts the lifecycle at
    /// `Configured` with all artifacts cleared; failure returns every
    /// violation — the original entity is gone either way.
    pub fn change_parameters<F: FnOnce(DistillationColumnBuilder) -> DistillationColumnBuilder>(
        self,
        closure: F,
    ) -> (r: Result<TypeStateColumn<Configured>, ValidationFailure>)
        requires
            forall|b: DistillationColumnBuilder|
                b@ == cleared(self.snapshot()) ==> #[trigger] call_requires(closure, (b,)),
        ensures
            exists|b: DistillationColumnBuilder, b2: DistillationColumnBuilder|
                {
                    &&& b@ == cleared(self.snapshot())
                    &&& #[trigger] call_ensures(closure, (b,), b2)
                    &&& (r is Ok <==> valid_config(b2@))
                    &&& (r matches Ok(col) ==> col.snapshot() == cleared(b2@))
                    &&& (r matches Err(e) ==> e@ == violation_msgs(b2@) && e@.len() > 0)
                },
    {
        let builder = DistillationColumnBuilder::adapt(self.data);
        let builder = closure(builder);
        let ghost b_out = builder;
        match builder.build() {
            Ok(col) => {
                let new_data = DistillationColumn {
                    equations: Vec::new(),
                    temperature_profile: Vec::new(),
                    pressure_profile: Vec::new(),
                    ..col
                };
                let r = TypeStateColumn::<Configured> { data: new_data, marker: PhantomData };
                proof {
                    assert(r.snapshot() =~= cleared(b_out@));
                }
                Ok(r)
            },
            Err(e) => Err(e),
        }
    }

    /// Reconfiguration that changes nothing: from any phase, a valid
    /// snapshot re-validates cleanly, and the lifecycle restarts at
    /// `Configured` with the configuration fields kept and every derived
    /// artifact cleared.
    pub fn revalidate(self) -> (r: TypeStateColumn<Configured>)
        requires
            valid_config(self.snapshot()),
        ensures
            r.snapshot() == cleared(self.snapshot()),
    {
        let ghost snap = self.snapshot();
        let noop = |b: DistillationColumnBuilder| -> (r2: DistillationColumnBuilder)
            ensures
                r2 == b,
            { b };
        match self.change_parameters(noop) {
            Ok(col) => {
                proof {
                    let (b, b2) = choose|b: DistillationColumnBuilder, b2: DistillationColumnBuilder|
                        {
                            &&& b@ == cleared(snap)
                            &&& #[trigger] call_ensures(noop, (b,), b2)
                            &&& col.snapshot() == cleared(b2@)
                        };
                    assert(cleared(b2@) =~= cleared(snap));
                }
                col
            },
            Err(e) => {
                proof {
                    let (b, b2) = choose|b: DistillationColumnBuilder, b2: DistillationColumnBuilder|
                        {
                            &&& b@ == cleared(snap)
                            &&& #[trigger] call_ensures(noop, (b,), b2)
                            &&& e@ == violation_msgs(b2@)
                            &&& e@.len() > 0
                        };
                    lemma_revalidate_cleared(snap);
                    assert(cleared(b2@) =~= cleared(snap));
                    assert(violation_msgs(b2@) =~= violation_msgs(cleared(snap)));
                    assert(false);
                }
                unreached()
            },
        }
    }
}

/// The equations the derivation stage function produces for a
/// configuration: a pure function of the configuration fields.
pub open spec fn derived_equations(c: ColumnView) -> Seq<Seq<char>> {
    seq!["m1+m2=m3+m4"@]
}

impl TypeStateColumn<Configured> {
    /// Enters the lifecycle: re-validates `data` (stale artifacts
    /// cleared) and, on success, tags the snapshot `Configured`.
    pub fn configure(data: DistillationColumn) -> (r: Result<
        TypeStateColumn<Configured>,
        ValidationFailure,
    >)
        ensures
            r is Ok <==> valid_config(data@),
            (r matches Ok(col) ==> col.snapshot() == cleared(data@)),
            (r matches Err(e) ==> e@ == violation_msgs(data@) && e@.len() > 0),
    {
        proof {
            lemma_revalidate_cleared(data@);
        }
        let builder = DistillationColumnBuilder::adapt(data);
        match builder.build() {
            Ok(col) => Ok(TypeStateColumn::<Configured> { data: col, marker: PhantomData }),
            Err(e) => Err(e),
        }
    }

    /// `Configured -> ReadyForSimulation`: derives the system of
    /// equations from the configuration fields and appends it to the
    /// artifact list. Total, and consumes the `Configured` entity, so it
    /// can never run twice on the same snapshot.
    pub fn generate_system_of_equations(self) -> (r: TypeStateColumn<ReadyForSimulation>)
        ensures
            r.snapshot() == (ColumnView {
                equations: self.snapshot().equations + derived_equations(self.snapshot()),
                ..self.snapshot()
            }),
    {
        let ghost snap = self.snapshot();
        let mut data = self.data;
        data.equations.push("m1+m2=m3+m4".to_owned());
        let r = TypeStateColumn::<ReadyForSimulation> { data, marker: PhantomData };
        proof {
            assert(r.snapshot() =~= (ColumnView {
                equations: snap.equations + derived_equations(snap),
                ..snap
            }));
        }
        r
    }
}

/// The temperature profile the simulation stage function produces: one
/// entry per stage; entry `s` is the base temperature lowered by 0.5 a
/// stage — 50 hundredths.
pub open spec fn temperature_profile_spec(base: i32, stages: u32) -> Seq<i64> {
    Seq::new(stages as nat, |s: int| (base - 50 * s) as i64)
}

/// The pressure profile the simulation stage function produces: one entry
/// per stage; entry `s` is the base pressure lowered by 0.01 a stage — 1
/// hundredth.
pub open spec fn pressure_profile_spec(base: i32, stages: u32) -> Seq<i64> {
    Seq::new(stages as nat, |s: int| (base - s) as i64)
}

/// Simulation yields one profile entry per stage, and entry `s`
/// equals the base value minus the per-stage step times `s` (50
/// hundredths for temperature, 1 hundredth for pressure).
pub proof fn lemma_profile_entries(base_temperature: i32, base_pressure: i32, stages: u32)
    ensures
        temperature_profile_spec(base_temperature, stages).len() == stages,
        pressure_profile_spec(base_pressure, stages).len() == stages,
        forall|s: int|
            0 <= s < stages ==> #[trigger] temperature_profile_spec(base_temperature, stages)[s]
                == base_temperature - 50 * s,
        forall|s: int|
            0 <= s < stages ==> #[trigger] pressure_profile_spec(base_pressure, stages)[s]
                == base_pressure - s,
{
}

impl TypeStateColumn<ReadyForSimulation> {
    /// `ReadyForSimulation -> Simulated`: runs the simulation stage
    /// function, a pure function of the base temperature, base pressure
    /// and stage count, filling both per-stage profiles. Total, and
    /// consumes the `ReadyForSimulation` entity.
    pub fn simulate(self) -> (r: TypeStateColumn<Simulated>)
        ensures
            r.snapshot() == (ColumnView {
                temperature_profile: temperature_profile_spec(
                    self.snapshot().temperature,
                    self.snapshot().stages,
                ),
                pressure_profile: pressure_profile_spec(
                    self.snapshot().pressure,
                    self.snapshot().stages,
                ),
                ..self.snapshot()
            }),
    {
        let ghost snap = self.snapshot();
        let stages = self.data.stages;
        let temp = self.data.temperature;
        let pres = self.data.pressure;
        let mut tprof: Vec<i64> = Vec::new();
        let mut pprof: Vec<i64> = Vec::new();
        let mut s: u32 = 0;
        while s < stages
            invariant
                s <= stages,
                tprof@ == temperature_profile_spec(temp, stages).take(s as int),
                pprof@ == pressure_profile_spec(pres, stages).take(s as int),
            decreases stages - s,
        {
            tprof.push((temp as i64) - 50 * (s as i64));
            pprof.push((pres as i64) - (s as i64));
            proof {
                assert(tprof@ =~= temperature_profile_spec(temp, stages).take(s as int + 1));
                assert(pprof@ =~= pressure_profile_spec(pres, stages).take(s as int + 1));
            }
            s = s + 1;
        }
        proof {
            assert(tprof@ =~= temperature_profile_spec(temp, stages));
            assert(pprof@ =~= pressure_profile_spec(pres, stages));
        }
        let mut data = self.data;
        data.temperature_profile = tprof;
        data.pressure_profile = pprof;
        let r = TypeStateColumn::<Simulated> { data, marker: PhantomData };
        proof {
            assert(r.snapshot() =~= (ColumnView {
                temperature_profile: temperature_profile_spec(snap.temperature, snap.stages),
                pressure_profile: pressure_profile_spec(snap.pressure, snap.stages),
                ..snap
            }));
        }
        r
    }
}

impl TypeStateColumn<Simulated> {
    /// The simulated temperature profile, one entry per stage, in
    /// hundredths of a unit.
    pub fn temperature_profile(&self) -> (r: &Vec<i64>)
        ensures
            r@ == self.snapshot().temperature_profile,
    {
        &self.data.temperature_profile
    }

    /// The simulated pressure profile, one entry per stage, in hundredths
    /// of a unit.
    pub fn pressure_profile(&self) -> (r: &Vec<i64>)
        ensures
            r@ == self.snapshot().pressure_profile,
    {
        &self.data.pressure_profile
    }
}

impl ColumnWithEquations for TypeStateColumn<ReadyForSimulation> {
    open spec fn equations_view(&self) -> Seq<Seq<char>> {
        self.snapshot().equations
    }

    fn equations(&self) -> (r: &Vec<String>) {
        &self.data.equations
    }

    fn iter_equations(&self) -> (r: Vec<String>) {
        crate::builder::copy_strings(&self.data.equations)
    }
}

impl ColumnWithEquations for TypeStateColumn<Simulated> {
    open spec fn equations_view(&self) -> Seq<Seq<char>> {
        self.snapshot().equations
    }

    fn equations(&self) -> (r: &Vec<String>) {
        &self.data.equations
    }

    fn iter_equations(&self) -> (r: Vec<String>) {
        crate::builder::copy_strings(&self.data.equations)
    }
}

/// The example configuration: 32 stages, feeds at 16 and 24, ratio 0.80,
/// reflux 2.25, temperature 95, pressure 1 (the latter four in
/// hundredths).
pub open spec fn example_column_view() -> ColumnView {
    ColumnView {
        stages: 32,
        feed_positions: seq![16u32, 24u32],
        distilate_to_feed_ratio: 80,
        reflux_ratio: 225,
        temperature: 9500,
        pressure: 100,
        equations: Seq::empty(),
        temperature_profile: Seq::empty(),
        pressure_profile: Seq::empty(),
    }
}

/// Builds the example configuration and proves it valid, entering the
/// lifecycle at `Configured`.
pub fn build_distillation_column_as_typestate() -> (r: TypeStateColumn<Configured>)
    ensures
        r.snapshot() == example_column_view(),
{
    let mut builder = DistillationColumnBuilder::new();
    builder
        .set_stages(32)
        .set_d2f_ratio(80)
        .set_reflux_ratio(225)
        .set_temperature(9500)
        .set_pressure(100)
        .add_feed_position(16)
        .add_feed_position(24);
    proof {
        assert(builder@ =~= example_column_view());
        assert(valid_config(builder@));
    }
    match builder.build_and_reuse() {
        Ok(col) => {
            let r = TypeStateColumn::<Configured> { data: col, marker: PhantomData };
            proof {
                assert(r.snapshot() =~= example_column_view());
            }
            r
        },
        Err(_) => unreached(),
    }
}

} // verus!
