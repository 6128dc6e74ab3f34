//! The validating builder half of the lifecycle: configuration fields are
//! accumulated loosely, and a finalize step either produces a verified
//! immutable snapshot or the full, ordered list of rule violations.
//!
//! Real-valued quantities (the distillate-to-feed ratio, the reflux ratio,
//! temperature and pressure) are fixed-point integers in hundredths of a
//! unit: a ratio of `80` stands for 0.80.

use vstd::prelude::*;
use vstd::string::StringExecFns;

use crate::text::{dec_rep, join_newline, strings_view};
use crate::text::{join_lines, u32_string};

verus! {

/// A mixture composition (water, ethanol, benzene), each component a
/// fixed-point fraction in hundredths of a unit.
#[derive(Clone, Copy, Debug, PartialEq, Eq, Structural)]
pub struct Mixture(pub i32, pub i32, pub i32);

/// A distillation column snapshot: the configuration fields together with
/// the artifacts derived from them (equations and per-stage profiles).
///
/// Profile entries are fixed-point values in hundredths of a unit, like
/// the base temperature and pressure they are derived from.
#[derive(Debug)]
pub struct DistillationColumn {
    pub stages: u32,
    pub feed_positions: Vec<u32>,
    pub distilate_to_feed_ratio: i32,
    pub reflux_ratio: i32,
    pub temperature: i32,
    pub pressure: i32,
    pub equations: Vec<String>,
    pub temperature_profile: Vec<i64>,
    pub pressure_profile: Vec<i64>,
}

/// The mathematical image of a column: sequences in place of vectors,
/// equation texts as character sequences.
#[verifier::ext_equal]
pub ghost struct ColumnView {
    pub stages: u32,
    pub feed_positions: Seq<u32>,
    pub distilate_to_feed_ratio: i32,
    pub reflux_ratio: i32,
    pub temperature: i32,
    pub pressure: i32,
    pub equations: Seq<Seq<char>>,
    pub temperature_profile: Seq<i64>,
    pub pressure_profile: Seq<i64>,
}

impl View for DistillationColumn {
    type V = ColumnView;

    open spec fn view(&self) -> ColumnView {
        ColumnView {
            stages: self.stages,
            feed_positions: self.feed_positions@,
            distilate_to_feed_ratio: self.distilate_to_feed_ratio,
            reflux_ratio: self.reflux_ratio,
            temperature: self.temperature,
            pressure: self.pressure,
            equations: strings_view(self.equations@),
            temperature_profile: self.temperature_profile@,
            pressure_profile: self.pressure_profile@,
        }
    }
}

/// The all-zero, all-empty column every new builder starts from.
pub open spec fn empty_column_view() -> ColumnView {
    ColumnView {
        stages: 0,
        feed_positions: Seq::empty(),
        distilate_to_feed_ratio: 0,
        reflux_ratio: 0,
        temperature: 0,
        pressure: 0,
        equations: Seq::empty(),
        temperature_profile: Seq::empty(),
        pressure_profile: Seq::empty(),
    }
}

/// `c` with every derived artifact removed; the configuration fields are
/// kept as they are.
pub open spec fn cleared(c: ColumnView) -> ColumnView {
    ColumnView {
        equations: Seq::empty(),
        temperature_profile: Seq::empty(),
        pressure_profile: Seq::empty(),
        ..c
    }
}

/// The distillate-to-feed ratio must lie strictly between 0 and 1
/// (strictly between 0 and 100 hundredths).
pub open spec fn ratio_ok(c: ColumnView) -> bool {
    0 < c.distilate_to_feed_ratio < 100
}

/// The stage count must be greater than 2.
pub open spec fn stages_ok(c: ColumnView) -> bool {
    c.stages > 2
}

/// The reflux ratio must be strictly positive.
pub open spec fn reflux_ok(c: ColumnView) -> bool {
    c.reflux_ratio > 0
}

/// A feed position must satisfy `2 <= position < stage_count`.
pub open spec fn feed_position_ok(pos: u32, stages: u32) -> bool {
    2 <= pos < stages
}

/// There must be at least one feed position, and every one of them must
/// be in range for the configured stage count.
pub open spec fn feeds_ok(c: ColumnView) -> bool {
    &&& c.feed_positions.len() > 0
    &&& forall|i: int|
        0 <= i < c.feed_positions.len() ==> feed_position_ok(
            #[trigger] c.feed_positions[i],
            c.stages,
        )
}

/// All validation rules hold of the configuration fields.
pub open spec fn valid_config(c: ColumnView) -> bool {
    &&& ratio_ok(c)
    &&& stages_ok(c)
    &&& reflux_ok(c)
    &&& feeds_ok(c)
}

/// The violation message for a bad distillate-to-feed ratio.
pub open spec fn ratio_msg() -> Seq<char> {
    "Distilate to feed ratio must be between 0 and 1"@
}

/// The violation message for a stage count that is too small.
pub open spec fn stages_msg(stages: u32) -> Seq<char> {
    "Stages="@ + dec_rep(stages as nat) + " must be greater than 2"@
}

/// The violation message for a non-positive reflux ratio.
pub open spec fn reflux_msg() -> Seq<char> {
    "Reflux ratio must be greater than 0"@
}

/// The violation message for an empty feed-position set.
pub open spec fn feed_empty_msg() -> Seq<char> {
    "Needs at last one feed position"@
}

/// The upper bound quoted in a feed-position violation: `stages - 1`,
/// or 0 when there are no stages at all.
pub open spec fn quoted_upper(stages: u32) -> nat {
    if stages == 0 {
        0
    } else {
        (stages - 1) as nat
    }
}

/// The violation message for one out-of-range feed position.
pub open spec fn feed_pos_msg(pos: u32, stages: u32) -> Seq<char> {
    "Feed position "@ + dec_rep(pos as nat) + " not allowed range is 2-"@ + dec_rep(
        quoted_upper(stages),
    )
}

/// The ratio rule's contribution to the violation report.
pub open spec fn ratio_part(c: ColumnView) -> Seq<Seq<char>> {
    if ratio_ok(c) {
        Seq::empty()
    } else {
        seq![ratio_msg()]
    }
}

/// The stage-count rule's contribution to the violation report.
pub open spec fn stages_part(c: ColumnView) -> Seq<Seq<char>> {
    if stages_ok(c) {
        Seq::empty()
    } else {
        seq![stages_msg(c.stages)]
    }
}

/// The reflux rule's contribution to the violation report.
pub open spec fn reflux_part(c: ColumnView) -> Seq<Seq<char>> {
    if reflux_ok(c) {
        Seq::empty()
    } else {
        seq![reflux_msg()]
    }
}

/// One message per out-of-range feed position, in feed-position order.
pub open spec fn feed_position_msgs(ps: Seq<u32>, stages: u32) -> Seq<Seq<char>>
    decreases ps.len(),
{
    if ps.len() == 0 {
        Seq::empty()
    } else {
        feed_position_msgs(ps.drop_last(), stages) + (if feed_position_ok(ps.last(), stages) {
            Seq::<Seq<char>>::empty()
        } else {
            seq![feed_pos_msg(ps.last(), stages)]
        })
    }
}

/// The feed-position rule's contribution: one message when the set is
/// empty, else one message per out-of-range position.
pub open spec fn feed_part(c: ColumnView) -> Seq<Seq<char>> {
    if c.feed_positions.len() == 0 {
        seq![feed_empty_msg()]
    } else {
        feed_position_msgs(c.feed_positions, c.stages)
    }
}

/// Every violation of the validation rules, in rule order (ratio, stage
/// count, reflux, feed positions); no rule suppresses another.
pub open spec fn violation_msgs(c: ColumnView) -> Seq<Seq<char>> {
    ratio_part(c) + stages_part(c) + reflux_part(c) + feed_part(c)
}

/// The aggregated result of a failed validation: every violation, in the
/// order the rules produced them. This is the only error of the crate.
#[derive(Debug)]
pub struct ValidationFailure {
    pub messages: Vec<String>,
}

impl View for ValidationFailure {
    type V = Seq<Seq<char>>;

    open spec fn view(&self) -> Seq<Seq<char>> {
        strings_view(self.messages@)
    }
}

impl ValidationFailure {
    /// The number of individual violations.
    pub fn len(&self) -> (n: usize)
        ensures
            n == self@.len(),
    {
        self.messages.len()
    }

    /// The messages laid out one per line, the order preserved.
    pub fn joined(&self) -> (r: String)
        ensures
            r@ == join_newline(self@),
    {
        join_lines(&self.messages)
    }
}

/// The mutable accumulator over the column's configuration fields.
#[derive(Debug)]
pub struct DistillationColumnBuilder {
    wip: DistillationColumn,
}

impl Default for DistillationColumnBuilder {
    /// The same all-zero, all-empty starting point as `new`.
    fn default() -> (b: Self)
        ensures
            b@ == empty_column_view(),
    {
        DistillationColumnBuilder::new()
    }
}

impl View for DistillationColumnBuilder {
    type V = ColumnView;

    closed spec fn view(&self) -> ColumnView {
        self.wip@
    }
}

impl DistillationColumnBuilder {
    /// A builder over the all-zero, all-empty column.
    pub fn new() -> (b: Self)
        ensures
            b@ == empty_column_view(),
    {
        let b = DistillationColumnBuilder {
            wip: DistillationColumn {
                stages: 0,
                feed_positions: Vec::new(),
                distilate_to_feed_ratio: 0,
                reflux_ratio: 0,
                temperature: 0,
                pressure: 0,
                equations: Vec::new(),
                temperature_profile: Vec::new(),
                pressure_profile: Vec::new(),
            },
        };
        proof {
            assert(b@ =~= empty_column_view());
        }
        b
    }

    /// A builder whose configuration fields come from an existing
    /// snapshot; every derived artifact is cleared. This is the re-entry
    /// path used by reconfiguration.
    pub fn adapt(data: DistillationColumn) -> (b: Self)
        ensures
            b@ == cleared(data@),
    {
        let b = DistillationColumnBuilder {
            wip: DistillationColumn {
                equations: Vec::new(),
                temperature_profile: Vec::new(),
                pressure_profile: Vec::new(),
                ..data
            },
        };
        proof {
            assert(b@ =~= cleared(data@));
        }
        b
    }

    /// Sets the stage count.
    pub fn set_stages(&mut self, stages: u32) -> (r: &mut Self)
        ensures
            (*r)@ == (ColumnView { stages, ..old(self)@ }),
            *final(self) == *final(r),
    {
        self.wip.stages = stages;
        self
    }

    /// Sets the distillate-to-feed ratio, in hundredths.
    pub fn set_d2f_ratio(&mut self, d2f_ratio: i32) -> (r: &mut Self)
        ensures
            (*r)@ == (ColumnView { distilate_to_feed_ratio: d2f_ratio, ..old(self)@ }),
            *final(self) == *final(r),
    {
        self.wip.distilate_to_feed_ratio = d2f_ratio;
        self
    }

    /// Sets the reflux ratio, in hundredths.
    pub fn set_reflux_ratio(&mut self, reflux_ratio: i32) -> (r: &mut Self)
        ensures
            (*r)@ == (ColumnView { reflux_ratio, ..old(self)@ }),
            *final(self) == *final(r),
    {
        self.wip.reflux_ratio = reflux_ratio;
        self
    }

    /// Sets the starting temperature, in hundredths of a unit.
    pub fn set_temperature(&mut self, temp: i32) -> (r: &mut Self)
        ensures
            (*r)@ == (ColumnView { temperature: temp, ..old(self)@ }),
            *final(self) == *final(r),
    {
        self.wip.temperature = temp;
        self
    }

    /// Sets the starting pressure, in hundredths of a unit.
    pub fn set_pressure(&mut self, pres: i32) -> (r: &mut Self)
        ensures
            (*r)@ == (ColumnView { pressure: pres, ..old(self)@ }),
            *final(self) == *final(r),
    {
        self.wip.pressure = pres;
        self
    }

    /// Appends one feed position.
    pub fn add_feed_position(&mut self, feed_pos: u32) -> (r: &mut Self)
        ensures
            (*r)@ == (ColumnView {
                feed_positions: old(self)@.feed_positions.push(feed_pos),
                ..old(self)@
            }),
            *final(self) == *final(r),
    {
        self.wip.feed_positions.push(feed_pos);
        self
    }

    /// Removes every feed position.
    pub fn clear_feed_positions(&mut self) -> (r: &mut Self)
        ensures
            (*r)@ == (ColumnView { feed_positions: Seq::empty(), ..old(self)@ }),
            *final(self) == *final(r),
    {
        self.wip.feed_positions.clear();
        self
    }

    /// Runs every validation rule independently, collecting each
    /// violation; no rule short-circuits another.
    fn check_err(&self) -> (r: Result<(), ValidationFailure>)
        ensures
            r is Ok <==> violation_msgs(self@).len() == 0,
            r matches Err(e) ==> e@ == violation_msgs(self@) && e@.len() > 0,
    {
        let ghost c = self@;
        let mut errs: Vec<String> = Vec::new();

        let d2f = self.wip.distilate_to_feed_ratio;
        if d2f <= 0 || d2f >= 100 {
            errs.push("Distilate to feed ratio must be between 0 and 1".to_owned());
        }
        proof {
            assert(strings_view(errs@) =~= ratio_part(c));
        }

        if self.wip.stages <= 2 {
            let mut m = "Stages=".to_owned();
            let num = u32_string(self.wip.stages);
            m.append(num.as_str());
            m.append(" must be greater than 2");
            proof {
                assert(m@ =~= stages_msg(c.stages));
            }
            errs.push(m);
        }
        proof {
            assert(strings_view(errs@) =~= ratio_part(c) + stages_part(c));
        }

        if self.wip.reflux_ratio <= 0 {
            errs.push("Reflux ratio must be greater than 0".to_owned());
        }
        let ghost pre = ratio_part(c) + stages_part(c) + reflux_part(c);
        proof {
            assert(strings_view(errs@) =~= pre);
        }

        if self.wip.feed_positions.len() == 0 {
            errs.push("Needs at last one feed position".to_owned());
            proof {
                assert(strings_view(errs@) =~= pre + feed_part(c));
            }
        } else {
            let stages = self.wip.stages;
            let upper: u32 = if stages == 0 {
                0
            } else {
                stages - 1
            };
            let upper_s = u32_string(upper);
            let n = self.wip.feed_positions.len();
            let mut i: usize = 0;
            while i < n
                invariant
                    i <= n,
                    n == c.feed_positions.len(),
                    c == self@,
                    stages == c.stages,
                    upper_s@ == dec_rep(quoted_upper(c.stages)),
                    strings_view(errs@) == pre + feed_position_msgs(
                        c.feed_positions.take(i as int),
                        c.stages,
                    ),
                decreases n - i,
            {
                let ghost errs0 = errs@;
                let ghost msgs0 = feed_position_msgs(c.feed_positions.take(i as int), c.stages);
                let pos = self.wip.feed_positions[i];
                if pos < 2 || pos >= stages {
                    let mut m = "Feed position ".to_owned();
                    let pos_s = u32_string(pos);
                    m.append(pos_s.as_str());
                    m.append(" not allowed range is 2-");
                    m.append(upper_s.as_str());
                    proof {
                        assert(m@ =~= feed_pos_msg(pos, c.stages));
                    }
                    errs.push(m);
                    proof {
                        assert(strings_view(errs@) =~= strings_view(errs0).push(
                            feed_pos_msg(pos, c.stages),
                        ));
                    }
                }
                proof {
                    let t1 = c.feed_positions.take(i as int + 1);
                    assert(t1.drop_last() =~= c.feed_positions.take(i as int));
                    assert(t1.last() == c.feed_positions[i as int]);
                    if feed_position_ok(pos, c.stages) {
                        assert(feed_position_msgs(t1, c.stages) =~= msgs0);
                    } else {
                        assert(feed_position_msgs(t1, c.stages) =~= msgs0.push(
                            feed_pos_msg(pos, c.stages),
                        ));
                        assert(strings_view(errs0).push(feed_pos_msg(pos, c.stages)) =~= pre
                            + feed_position_msgs(t1, c.stages));
                    }
                    assert(strings_view(errs@) =~= pre + feed_position_msgs(t1, c.stages));
                }
                i = i + 1;
            }
            proof {
                assert(c.feed_positions.take(n as int) =~= c.feed_positions);
                assert(strings_view(errs@) =~= pre + feed_part(c));
            }
        }
        proof {
            assert(strings_view(errs@) =~= violation_msgs(c));
        }

        if errs.len() == 0 {
            Ok(())
        } else {
            Err(ValidationFailure { messages: errs })
        }
    }

    /// Consumes the builder. Validation succeeds exactly on valid
    /// configurations; the snapshot keeps every field as the builder had
    /// it, and a failure carries every violation in rule order.
    pub fn build(self) -> (r: Result<DistillationColumn, ValidationFailure>)
        ensures
            r is Ok <==> valid_config(self@),
            (r matches Ok(col) ==> col@ == self@),
            (r matches Err(e) ==> e@ == violation_msgs(self@) && e@.len() > 0),
    {
        proof {
            lemma_valid_iff_no_violations(self@);
        }
        match self.check_err() {
            Ok(_) => Ok(self.wip),
            Err(e) => Err(e),
        }
    }

    /// Runs the identical rule set as `build`, but leaves the builder
    /// reusable, handing out a copy of the snapshot.
    pub fn build_and_reuse(&self) -> (r: Result<DistillationColumn, ValidationFailure>)
        ensures
            r is Ok <==> valid_config(self@),
            (r matches Ok(col) ==> col@ == self@),
            (r matches Err(e) ==> e@ == violation_msgs(self@) && e@.len() > 0),
    {
        proof {
            lemma_valid_iff_no_violations(self@);
        }
        match self.check_err() {
            Ok(_) => Ok(copy_column(&self.wip)),
            Err(e) => Err(e),
        }
    }
}

/// An element-for-element copy of a `u32` vector.
fn copy_u32s(v: &Vec<u32>) -> (r: Vec<u32>)
    ensures
        r@ == v@,
{
    let mut r: Vec<u32> = Vec::new();
    let mut i: usize = 0;
    while i < v.len()
        invariant
            i <= v.len(),
            r@ == v@.take(i as int),
        decreases v.len() - i,
    {
        r.push(v[i]);
        proof {
            assert(v@.take(i as int + 1) =~= v@.take(i as int).push(v@[i as int]));
        }
        i = i + 1;
    }
    proof {
        assert(v@.take(v@.len() as int) =~= v@);
    }
    r
}

/// An element-for-element copy of an `i64` vector.
fn copy_i64s(v: &Vec<i64>) -> (r: Vec<i64>)
    ensures
        r@ == v@,
{
    let mut r: Vec<i64> = Vec::new();
    let mut i: usize = 0;
    while i < v.len()
        invariant
            i <= v.len(),
            r@ == v@.take(i as int),
        decreases v.len() - i,
    {
        r.push(v[i]);
        proof {
            assert(v@.take(i as int + 1) =~= v@.take(i as int).push(v@[i as int]));
        }
        i = i + 1;
    }
    proof {
        assert(v@.take(v@.len() as int) =~= v@);
    }
    r
}

/// An element-for-element copy of a string vector.
pub(crate) fn copy_strings(v: &Vec<String>) -> (r: Vec<String>)
    ensures
        r@ == v@,
{
    let mut r: Vec<String> = Vec::new();
    let mut i: usize = 0;
    while i < v.len()
        invariant
            i <= v.len(),
            r@ == v@.take(i as int),
        decreases v.len() - i,
    {
        let s = v[i].clone();
        r.push(s);
        proof {
            assert(v@.take(i as int + 1) =~= v@.take(i as int).push(v@[i as int]));
        }
        i = i + 1;
    }
    proof {
        assert(v@.take(v@.len() as int) =~= v@);
    }
    r
}

/// A field-for-field copy of a column snapshot.
fn copy_column(c: &DistillationColumn) -> (r: DistillationColumn)
    ensures
        r@ == c@,
{
    let r = DistillationColumn {
        stages: c.stages,
        feed_positions: copy_u32s(&c.feed_positions),
        distilate_to_feed_ratio: c.distilate_to_feed_ratio,
        reflux_ratio: c.reflux_ratio,
        temperature: c.temperature,
        pressure: c.pressure,
        equations: copy_strings(&c.equations),
        temperature_profile: copy_i64s(&c.temperature_profile),
        pressure_profile: copy_i64s(&c.pressure_profile),
    };
    proof {
        assert(r@ =~= c@);
    }
    r
}

/// How many feed positions of `ps` are out of range for `stages` stages.
pub open spec fn bad_feed_count(ps: Seq<u32>, stages: u32) -> nat
    decreases ps.len(),
{
    if ps.len() == 0 {
        0
    } else {
        bad_feed_count(ps.drop_last(), stages) + (if feed_position_ok(ps.last(), stages) {
            0nat
        } else {
            1nat
        })
    }
}

/// The feed-position report carries exactly one message per out-of-range
/// position.
pub proof fn lemma_feed_msgs_count(ps: Seq<u32>, stages: u32)
    ensures
        feed_position_msgs(ps, stages).len() == bad_feed_count(ps, stages),
    decreases ps.len(),
{
    if ps.len() > 0 {
        lemma_feed_msgs_count(ps.drop_last(), stages);
    }
}

/// No feed position is out of range exactly when each one is in range.
pub proof fn lemma_bad_feed_zero(ps: Seq<u32>, stages: u32)
    ensures
        (bad_feed_count(ps, stages) == 0) <==> (forall|i: int|
            0 <= i < ps.len() ==> feed_position_ok(#[trigger] ps[i], stages)),
    decreases ps.len(),
{
    if ps.len() > 0 {
        lemma_bad_feed_zero(ps.drop_last(), stages);
        assert(forall|i: int|
            0 <= i < ps.len() - 1 ==> ps.drop_last()[i] == #[trigger] ps[i]);
        assert(ps.last() == ps[ps.len() - 1]);
    }
}

/// A configuration satisfies every validation rule exactly when the
/// validation report is empty.
pub proof fn lemma_valid_iff_no_violations(c: ColumnView)
    ensures
        valid_config(c) <==> violation_msgs(c).len() == 0,
{
    lemma_feed_msgs_count(c.feed_positions, c.stages);
    lemma_bad_feed_zero(c.feed_positions, c.stages);
}

/// Violations aggregate independently: the report's length is the
/// sum of the four rules' own violation counts (the feed rule counts one
/// message for an empty set, else one per out-of-range position), so a
/// configuration violating exactly `k` single-message rules is reported
/// with exactly `k` messages.
pub proof fn lemma_violation_count(c: ColumnView)
    ensures
        violation_msgs(c).len() == (if ratio_ok(c) {
            0int
        } else {
            1int
        }) + (if stages_ok(c) {
            0int
        } else {
            1int
        }) + (if reflux_ok(c) {
            0int
        } else {
            1int
        }) + (if c.feed_positions.len() == 0 {
            1int
        } else {
            bad_feed_count(c.feed_positions, c.stages) as int
        }),
{
    lemma_feed_msgs_count(c.feed_positions, c.stages);
}

/// Validation reads only the configuration fields, so clearing the
/// derived artifacts (the reconfiguration re-entry path) neither adds nor
/// removes violations; a valid snapshot re-validates cleanly, with its
/// configuration fields kept and all artifacts empty.
pub proof fn lemma_revalidate_cleared(c: ColumnView)
    ensures
        violation_msgs(cleared(c)) == violation_msgs(c),
        valid_config(cleared(c)) <==> valid_config(c),
        valid_config(c) ==> violation_msgs(cleared(c)).len() == 0,
        cleared(c).stages == c.stages,
        cleared(c).feed_positions == c.feed_positions,
        cleared(c).distilate_to_feed_ratio == c.distilate_to_feed_ratio,
        cleared(c).reflux_ratio == c.reflux_ratio,
        cleared(c).temperature == c.temperature,
        cleared(c).pressure == c.pressure,
        cleared(c).equations.len() == 0,
        cleared(c).temperature_profile.len() == 0,
        cleared(c).pressure_profile.len() == 0,
{
    lemma_valid_iff_no_violations(c);
    lemma_valid_iff_no_violations(cleared(c));
}

} // verus!
