use distillation_column::builder::{DistillationColumnBuilder, Mixture};

#[test]
fn valid_configuration_builds_snapshot_with_exact_fields() {
    let mut b = DistillationColumnBuilder::new();
    b.set_stages(32)
        .set_d2f_ratio(80)
        .set_reflux_ratio(225)
        .set_temperature(8500)
        .set_pressure(100)
        .add_feed_position(16)
        .add_feed_position(24);
    let col = b.build_and_reuse().unwrap();
    assert_eq!(col.stages, 32);
    assert_eq!(col.feed_positions, vec![16, 24]);
    assert_eq!(col.distilate_to_feed_ratio, 80);
    assert_eq!(col.reflux_ratio, 225);
    assert_eq!(col.temperature, 8500);
    assert_eq!(col.pressure, 100);
    assert!(col.equations.is_empty());
    assert!(col.temperature_profile.is_empty());
    assert!(col.pressure_profile.is_empty());
}

#[test]
fn build_and_build_and_reuse_agree() {
    let mut b = DistillationColumnBuilder::new();
    b.set_stages(5)
        .set_d2f_ratio(50)
        .set_reflux_ratio(1)
        .add_feed_position(2)
        .add_feed_position(4);
    let first = b.build_and_reuse().unwrap();
    let second = b.build().unwrap();
    assert_eq!(first.stages, second.stages);
    assert_eq!(first.feed_positions, second.feed_positions);
    assert_eq!(first.distilate_to_feed_ratio, second.distilate_to_feed_ratio);
    assert_eq!(first.reflux_ratio, second.reflux_ratio);
    assert_eq!(first.temperature, second.temperature);
    assert_eq!(first.pressure, second.pressure);
}

#[test]
fn default_builder_reports_all_four_rules() {
    let b = DistillationColumnBuilder::new();
    let e = b.build().unwrap_err();
    assert_eq!(e.messages.len(), 4);
    assert_eq!(
        e.messages[0],
        "Distilate to feed ratio must be between 0 and 1"
    );
    assert_eq!(e.messages[1], "Stages=0 must be greater than 2");
    assert_eq!(e.messages[2], "Reflux ratio must be greater than 0");
    assert_eq!(e.messages[3], "Needs at last one feed position");
}

#[test]
fn stage_count_two_reports_exactly_two_violations() {
    let mut b = DistillationColumnBuilder::new();
    b.set_stages(32)
        .set_d2f_ratio(80)
        .set_reflux_ratio(225)
        .set_temperature(8500)
        .set_pressure(100)
        .add_feed_position(16)
        .add_feed_position(24);
    b.clear_feed_positions().set_stages(2);
    let e = b.build().unwrap_err();
    assert_eq!(e.messages.len(), 2);
    assert_eq!(e.messages[0], "Stages=2 must be greater than 2");
    assert_eq!(e.messages[1], "Needs at last one feed position");
}

#[test]
fn each_bad_feed_position_is_reported_individually() {
    let mut b = DistillationColumnBuilder::new();
    b.set_stages(10)
        .set_d2f_ratio(80)
        .set_reflux_ratio(225)
        .add_feed_position(1)
        .add_feed_position(5)
        .add_feed_position(10);
    let e = b.build().unwrap_err();
    assert_eq!(e.messages.len(), 2);
    assert_eq!(e.messages[0], "Feed position 1 not allowed range is 2-9");
    assert_eq!(e.messages[1], "Feed position 10 not allowed range is 2-9");
}

#[test]
fn ratio_boundaries_are_invalid_and_interior_is_valid() {
    let mut b = DistillationColumnBuilder::new();
    b.set_stages(4)
        .set_reflux_ratio(1)
        .add_feed_position(2)
        .set_d2f_ratio(0);
    assert!(b.build_and_reuse().is_err());
    b.set_d2f_ratio(100);
    assert!(b.build_and_reuse().is_err());
    b.set_d2f_ratio(1);
    assert!(b.build_and_reuse().is_ok());
    b.set_d2f_ratio(99);
    assert!(b.build_and_reuse().is_ok());
}

#[test]
fn reflux_must_be_strictly_positive() {
    let mut b = DistillationColumnBuilder::new();
    b.set_stages(4)
        .set_d2f_ratio(50)
        .add_feed_position(2)
        .set_reflux_ratio(0);
    let e = b.build_and_reuse().unwrap_err();
    assert_eq!(e.messages, vec!["Reflux ratio must be greater than 0"]);
    b.set_reflux_ratio(-5);
    assert!(b.build_and_reuse().is_err());
    b.set_reflux_ratio(1);
    assert!(b.build_and_reuse().is_ok());
}

#[test]
fn smallest_valid_column_has_three_stages() {
    let mut b = DistillationColumnBuilder::new();
    b.set_stages(3)
        .set_d2f_ratio(50)
        .set_reflux_ratio(1)
        .add_feed_position(2);
    let col = b.build().unwrap();
    assert_eq!(col.stages, 3);
    assert_eq!(col.feed_positions, vec![2]);
}

#[test]
fn failed_validation_leaves_builder_fields_intact() {
    let mut b = DistillationColumnBuilder::new();
    b.set_stages(32)
        .set_d2f_ratio(80)
        .set_reflux_ratio(225)
        .add_feed_position(16);
    b.set_stages(2);
    assert!(b.build_and_reuse().is_err());
    // only the offending field needs correcting; the rest was kept
    b.set_stages(32);
    let col = b.build_and_reuse().unwrap();
    assert_eq!(col.stages, 32);
    assert_eq!(col.feed_positions, vec![16]);
    assert_eq!(col.distilate_to_feed_ratio, 80);
}

#[test]
fn joined_report_is_one_message_per_line() {
    let mut b = DistillationColumnBuilder::new();
    b.set_d2f_ratio(80).set_reflux_ratio(225).add_feed_position(1);
    b.set_stages(2);
    let e = b.build().unwrap_err();
    assert_eq!(e.len(), 2);
    assert_eq!(
        e.joined(),
        "Stages=2 must be greater than 2\nFeed position 1 not allowed range is 2-1"
    );
}

#[test]
fn adapt_clears_derived_artifacts_and_keeps_fields() {
    let mut b = DistillationColumnBuilder::new();
    b.set_stages(6)
        .set_d2f_ratio(40)
        .set_reflux_ratio(300)
        .set_temperature(7000)
        .set_pressure(101)
        .add_feed_position(3);
    let mut col = b.build().unwrap();
    col.equations.push("stale".to_owned());
    col.temperature_profile.push(1);
    col.pressure_profile.push(2);
    let b2 = DistillationColumnBuilder::adapt(col);
    let col2 = b2.build().unwrap();
    assert!(col2.equations.is_empty());
    assert!(col2.temperature_profile.is_empty());
    assert!(col2.pressure_profile.is_empty());
    assert_eq!(col2.stages, 6);
    assert_eq!(col2.feed_positions, vec![3]);
    assert_eq!(col2.distilate_to_feed_ratio, 40);
    assert_eq!(col2.reflux_ratio, 300);
    assert_eq!(col2.temperature, 7000);
    assert_eq!(col2.pressure, 101);
}

#[test]
fn mixture_keeps_its_components() {
    let m = Mixture(30, 50, 20);
    assert_eq!(m, Mixture(30, 50, 20));
    assert_eq!(m.0 + m.1 + m.2, 100);
}
