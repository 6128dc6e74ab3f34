use distillation_column::builder::DistillationColumnBuilder;
use distillation_column::typestate::{
    build_distillation_column_as_typestate, ColumnWithEquations, TypeStateColumn,
};

#[test]
fn derive_then_simulate_fills_one_entry_per_stage() {
    let mut b = DistillationColumnBuilder::new();
    b.set_stages(32)
        .set_d2f_ratio(80)
        .set_reflux_ratio(225)
        .set_temperature(8500)
        .set_pressure(100)
        .add_feed_position(16)
        .add_feed_position(24);
    let col = TypeStateColumn::configure(b.build().unwrap()).unwrap();
    let col = col.generate_system_of_equations();
    assert_eq!(col.equations(), &vec!["m1+m2=m3+m4".to_owned()]);
    let col = col.simulate();
    assert_eq!(col.temperature_profile().len(), 32);
    assert_eq!(col.pressure_profile().len(), 32);
    // temperature drops by 0.5 a stage, pressure by 0.01 (in hundredths)
    assert_eq!(col.temperature_profile()[0], 8500);
    assert_eq!(col.temperature_profile()[31], 8500 - 1550);
    assert_eq!(col.pressure_profile()[0], 100);
    assert_eq!(col.pressure_profile()[31], 100 - 31);
    for s in 0..32u32 {
        assert_eq!(col.temperature_profile()[s as usize], 8500 - 50 * s as i64);
        assert_eq!(col.pressure_profile()[s as usize], 100 - s as i64);
    }
    // equations stay readable in the simulated phase
    assert_eq!(col.iter_equations(), vec!["m1+m2=m3+m4".to_owned()]);
}

#[test]
fn example_entity_runs_the_whole_lifecycle() {
    let col = build_distillation_column_as_typestate();
    let col = col.generate_system_of_equations();
    let eqs: Vec<String> = col.iter_equations();
    assert_eq!(eqs, vec!["m1+m2=m3+m4".to_owned()]);
    let col = col.simulate();
    assert_eq!(col.temperature_profile().len(), 32);
    assert_eq!(col.temperature_profile()[0], 9500);
    assert_eq!(col.pressure_profile()[0], 100);
}

#[test]
fn configure_rejects_an_invalid_snapshot() {
    let mut b = DistillationColumnBuilder::new();
    b.set_stages(3)
        .set_d2f_ratio(50)
        .set_reflux_ratio(1)
        .add_feed_position(2);
    let mut col = b.build().unwrap();
    col.stages = 2;
    let e = TypeStateColumn::configure(col).unwrap_err();
    assert_eq!(e.messages.len(), 2);
    assert_eq!(e.messages[0], "Stages=2 must be greater than 2");
    assert_eq!(e.messages[1], "Feed position 2 not allowed range is 2-1");
}

#[test]
fn reconfigure_with_noop_clears_artifacts_and_keeps_fields() {
    let mut b = DistillationColumnBuilder::new();
    b.set_stages(8)
        .set_d2f_ratio(60)
        .set_reflux_ratio(150)
        .set_temperature(7200)
        .set_pressure(99)
        .add_feed_position(4);
    let col = TypeStateColumn::configure(b.build().unwrap()).unwrap();
    let col = col.generate_system_of_equations().simulate();
    // no-op reconfiguration: back to Configured, artifacts cleared
    let col = col.change_parameters(|b| b).unwrap();
    // rerunning the stages shows the artifacts start from scratch and the
    // configuration fields were kept
    let col = col.generate_system_of_equations();
    assert_eq!(col.equations().len(), 1);
    let col = col.simulate();
    assert_eq!(col.temperature_profile().len(), 8);
    assert_eq!(col.temperature_profile()[0], 7200);
    assert_eq!(col.pressure_profile()[0], 99);
}

#[test]
fn revalidate_restarts_the_lifecycle_from_any_phase() {
    let col = build_distillation_column_as_typestate();
    let col = col.generate_system_of_equations().simulate();
    let col = col.revalidate();
    let col = col.generate_system_of_equations();
    assert_eq!(col.equations().len(), 1);
    let col = col.simulate();
    assert_eq!(col.temperature_profile().len(), 32);
    assert_eq!(col.temperature_profile()[0], 9500);
}

#[test]
fn reconfigure_can_change_parameters_before_revalidation() {
    let col = build_distillation_column_as_typestate();
    let col = col.generate_system_of_equations().simulate();
    let col = col
        .change_parameters(|mut b| {
            b.set_stages(40).set_d2f_ratio(50).set_reflux_ratio(220);
            b
        })
        .unwrap();
    let col = col.generate_system_of_equations().simulate();
    assert_eq!(col.temperature_profile().len(), 40);
    assert_eq!(col.temperature_profile()[39], 9500 - 39 * 50);
}

#[test]
fn reconfigure_reports_a_bad_mutation_and_consumes_the_entity() {
    let col = build_distillation_column_as_typestate();
    let e = col
        .change_parameters(|mut b| {
            b.set_stages(2);
            b
        })
        .unwrap_err();
    // feeds 16 and 24 are now out of range as well
    assert_eq!(e.messages.len(), 3);
    assert_eq!(e.messages[0], "Stages=2 must be greater than 2");
    assert_eq!(e.messages[1], "Feed position 16 not allowed range is 2-1");
    assert_eq!(e.messages[2], "Feed position 24 not allowed range is 2-1");
}
