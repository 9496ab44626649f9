use value_resolution::context::{IdentityContext, ParsingContext, ResolverContext};
use value_resolution::dimension::{
    AmountOfMoneyValue, Bound, BoundedDirection, CycleValue, DatetimeKind, DatetimeValue,
    Dimension, Direction, FloatBits32, FloatBits64, Form, IntegerValue, NumberValue,
    OrdinalValue, Period, PeriodComp, Precision, TemperatureValue, DurationValue,
    UnitOfDurationValue, FloatValue, PercentageValue, check_dimension_in_range,
};
use value_resolution::interval::{check_interval_in_range, Grain, Interval, Moment,
    MAX_EPOCH_SECS, MIN_EPOCH_SECS};
use value_resolution::output::{
    DatetimeIntervalKind, DatetimeIntervalOutput, DatetimeOutput, Output, span_anomaly,
};
use value_resolution::walker::Constraint;
use chrono::TimeZone;

fn datetime_value(
    forward: Vec<Interval>,
    backward: Vec<Interval>,
    not_immediate: Option<bool>,
    direction: Option<BoundedDirection>,
    datetime_kind: DatetimeKind,
) -> DatetimeValue {
    DatetimeValue {
        constraint: Constraint { forward, backward },
        form: Form { not_immediate },
        direction,
        precision: Precision::Exact,
        latent: false,
        datetime_kind,
    }
}

fn day_interval(start: i64) -> Interval {
    Interval { start: Moment(start), end: None, grain: Grain::Day }
}

fn second_interval(start: i64) -> Interval {
    Interval { start: Moment(start), end: None, grain: Grain::Second }
}

#[test]
fn from_secs_builds_second_reference() {
    let ctx = ResolverContext::from_secs(0);
    assert_eq!(ctx.reference, second_interval(0));
    let later = ResolverContext::from_secs(1234567);
    assert_eq!(later.reference, second_interval(1234567));
    // The window is the one for_reference derives from the same reference.
    let derived = ResolverContext::for_reference(second_interval(1234567));
    assert_eq!(later.min, derived.min);
    assert_eq!(later.max, derived.max);
    assert_eq!(later.min, second_interval(MIN_EPOCH_SECS));
    assert_eq!(later.max, second_interval(MAX_EPOCH_SECS));
}

#[test]
fn for_reference_keeps_now_and_derives_window() {
    let now = day_interval(86400);
    let ctx = ResolverContext::for_reference(now);
    assert_eq!(ctx.reference, now);
    assert_eq!(ctx.min.grain, Grain::Day);
    assert_eq!(ctx.max.grain, Grain::Day);
    assert!(ctx.min.start.0 <= now.start.0 && now.start.0 <= ctx.max.start.0);
}

#[test]
fn new_keeps_all_three_intervals() {
    let now = second_interval(10);
    let min = second_interval(0);
    let max = second_interval(100);
    let ctx = ResolverContext::new(now, min, max);
    assert_eq!(ctx.reference, now);
    assert_eq!(ctx.min, min);
    assert_eq!(ctx.max, max);
}

#[test]
fn identity_context_returns_the_value() {
    let ctx: IdentityContext<i64> = IdentityContext::new();
    assert_eq!(ctx.resolve(&42i64), Some(42i64));
}

#[test]
fn next_monday_resolves_to_plain_datetime() {
    // Reference at 1970-01-01T00:00:00 (a Thursday); the Mondays on or after
    // it start at 1970-01-05, then weekly.
    let ctx = ResolverContext::from_secs(0);
    let dv = datetime_value(
        vec![day_interval(345600), day_interval(345600 + 7 * 86400)],
        vec![],
        Some(false),
        None,
        DatetimeKind::Date,
    );
    let out = ctx.resolve(&Dimension::Datetime(dv));
    let expected = Output::Datetime(DatetimeOutput {
        moment: Moment(345600),
        grain: Grain::Day,
        precision: Precision::Exact,
        latent: false,
        datetime_kind: DatetimeKind::Date,
    });
    assert_eq!(out, Some(expected));
}

#[test]
fn resolve_is_deterministic() {
    let ctx = ResolverContext::from_secs(0);
    let dv = datetime_value(
        vec![second_interval(0), second_interval(99)],
        vec![second_interval(-50)],
        Some(true),
        None,
        DatetimeKind::DateTime,
    );
    let first = ctx.resolve(&Dimension::Datetime(dv.clone()));
    let second = ctx.resolve(&Dimension::Datetime(dv));
    assert_eq!(first, second);
    assert!(first.is_some());
}

#[test]
fn not_immediate_skips_the_current_candidate() {
    // The first forward candidate is the reference second itself.
    let ctx = ResolverContext::from_secs(0);
    let dv = datetime_value(
        vec![second_interval(0), second_interval(10)],
        vec![],
        Some(true),
        None,
        DatetimeKind::DateTime,
    );
    let out = ctx.resolve(&Dimension::Datetime(dv));
    match out {
        Some(Output::Datetime(o)) => assert_eq!(o.moment, Moment(10)),
        other => panic!("expected a plain datetime, got {:?}", other),
    }
}

#[test]
fn immediate_candidate_kept_without_flag() {
    let ctx = ResolverContext::from_secs(0);
    let dv = datetime_value(
        vec![second_interval(0), second_interval(10)],
        vec![],
        Some(false),
        None,
        DatetimeKind::DateTime,
    );
    let out = ctx.resolve(&Dimension::Datetime(dv));
    match out {
        Some(Output::Datetime(o)) => assert_eq!(o.moment, Moment(0)),
        other => panic!("expected a plain datetime, got {:?}", other),
    }
}

#[test]
fn not_immediate_keeps_non_intersecting_first() {
    // The first forward candidate starts well after the reference second.
    let ctx = ResolverContext::from_secs(0);
    let dv = datetime_value(
        vec![second_interval(100), second_interval(200)],
        vec![],
        Some(true),
        None,
        DatetimeKind::DateTime,
    );
    let out = ctx.resolve(&Dimension::Datetime(dv));
    match out {
        Some(Output::Datetime(o)) => assert_eq!(o.moment, Moment(100)),
        other => panic!("expected a plain datetime, got {:?}", other),
    }
}

#[test]
fn forward_wins_over_backward() {
    let ctx = ResolverContext::from_secs(0);
    let dv = datetime_value(
        vec![second_interval(100)],
        vec![second_interval(-100)],
        Some(false),
        None,
        DatetimeKind::DateTime,
    );
    let out = ctx.resolve(&Dimension::Datetime(dv));
    match out {
        Some(Output::Datetime(o)) => assert_eq!(o.moment, Moment(100)),
        other => panic!("expected a plain datetime, got {:?}", other),
    }
}

#[test]
fn backward_fallback_on_empty_forward() {
    let ctx = ResolverContext::from_secs(0);
    let dv = datetime_value(
        vec![],
        vec![second_interval(-100), second_interval(-200)],
        Some(false),
        None,
        DatetimeKind::DateTime,
    );
    let out = ctx.resolve(&Dimension::Datetime(dv));
    match out {
        Some(Output::Datetime(o)) => assert_eq!(o.moment, Moment(-100)),
        other => panic!("expected a plain datetime, got {:?}", other),
    }
}

#[test]
fn skip_falls_back_to_backward() {
    // Not-immediate discards the only forward candidate; backward takes over.
    let ctx = ResolverContext::from_secs(0);
    let dv = datetime_value(
        vec![second_interval(0)],
        vec![second_interval(-5)],
        Some(true),
        None,
        DatetimeKind::DateTime,
    );
    let out = ctx.resolve(&Dimension::Datetime(dv));
    match out {
        Some(Output::Datetime(o)) => assert_eq!(o.moment, Moment(-5)),
        other => panic!("expected a plain datetime, got {:?}", other),
    }
}

#[test]
fn skip_with_nothing_left_resolves_to_none() {
    let ctx = ResolverContext::from_secs(0);
    let dv = datetime_value(
        vec![second_interval(0)],
        vec![],
        Some(true),
        None,
        DatetimeKind::DateTime,
    );
    assert_eq!(ctx.resolve(&Dimension::Datetime(dv)), None);
}

#[test]
fn exhaustion_resolves_to_none() {
    let ctx = ResolverContext::from_secs(0);
    let dv = datetime_value(vec![], vec![], Some(false), None, DatetimeKind::DateTime);
    assert_eq!(ctx.resolve(&Dimension::Datetime(dv)), None);
}

#[test]
fn start_bound_after_wraps_the_start_moment() {
    let ctx = ResolverContext::from_secs(0);
    let direction = Some(BoundedDirection { bound: Bound::Start, direction: Direction::After });
    let dv = datetime_value(
        vec![day_interval(345600)],
        vec![],
        Some(false),
        direction,
        DatetimeKind::Date,
    );
    let out = ctx.resolve(&Dimension::Datetime(dv));
    match out {
        Some(Output::DatetimeInterval(DatetimeIntervalOutput {
            interval_kind: DatetimeIntervalKind::After(p),
            datetime_kind,
        })) => {
            assert_eq!(p.moment, Moment(345600));
            assert_eq!(p.grain, Grain::Day);
            assert_eq!(datetime_kind, DatetimeKind::Date);
        },
        other => panic!("expected an open-ended range after, got {:?}", other),
    }
}

#[test]
fn before_direction_wraps_backwards() {
    let ctx = ResolverContext::from_secs(0);
    let direction = Some(BoundedDirection { bound: Bound::Start, direction: Direction::Before });
    let dv = datetime_value(
        vec![day_interval(345600)],
        vec![],
        Some(false),
        direction,
        DatetimeKind::Date,
    );
    let out = ctx.resolve(&Dimension::Datetime(dv));
    match out {
        Some(Output::DatetimeInterval(DatetimeIntervalOutput {
            interval_kind: DatetimeIntervalKind::Before(p),
            ..
        })) => assert_eq!(p.moment, Moment(345600)),
        other => panic!("expected an open-ended range before, got {:?}", other),
    }
}

#[test]
fn end_bound_only_interval_anchors_at_start() {
    let ctx = ResolverContext::from_secs(0);
    let direction = Some(BoundedDirection {
        bound: Bound::End { only_interval: true },
        direction: Direction::After,
    });
    let dv = datetime_value(
        vec![day_interval(345600)],
        vec![],
        Some(false),
        direction,
        DatetimeKind::Date,
    );
    let out = ctx.resolve(&Dimension::Datetime(dv));
    match out {
        Some(Output::DatetimeInterval(DatetimeIntervalOutput {
            interval_kind: DatetimeIntervalKind::After(p),
            ..
        })) => assert_eq!(p.moment, Moment(345600)),
        other => panic!("expected an open-ended range, got {:?}", other),
    }
}

#[test]
fn end_bound_uses_explicit_end() {
    let ctx = ResolverContext::from_secs(0);
    let direction = Some(BoundedDirection {
        bound: Bound::End { only_interval: false },
        direction: Direction::After,
    });
    let chosen = Interval { start: Moment(0), end: Some(Moment(7200)), grain: Grain::Hour };
    let dv = datetime_value(vec![chosen], vec![], Some(false), direction, DatetimeKind::Time);
    let out = ctx.resolve(&Dimension::Datetime(dv));
    match out {
        Some(Output::DatetimeInterval(DatetimeIntervalOutput {
            interval_kind: DatetimeIntervalKind::After(p),
            ..
        })) => assert_eq!(p.moment, Moment(7200)),
        other => panic!("expected an open-ended range, got {:?}", other),
    }
}

#[test]
fn end_bound_defaults_to_grain_end() {
    let ctx = ResolverContext::from_secs(0);
    let direction = Some(BoundedDirection {
        bound: Bound::End { only_interval: false },
        direction: Direction::After,
    });
    let dv = datetime_value(
        vec![day_interval(345600)],
        vec![],
        Some(false),
        direction,
        DatetimeKind::Date,
    );
    let out = ctx.resolve(&Dimension::Datetime(dv));
    match out {
        Some(Output::DatetimeInterval(DatetimeIntervalOutput {
            interval_kind: DatetimeIntervalKind::After(p),
            ..
        })) => assert_eq!(p.moment, Moment(345600 + 86400)),
        other => panic!("expected an open-ended range, got {:?}", other),
    }
}

#[test]
fn end_bound_month_grain_follows_the_civil_calendar() {
    let ctx = ResolverContext::from_secs(0);
    let direction = Some(BoundedDirection {
        bound: Bound::End { only_interval: false },
        direction: Direction::After,
    });
    // 1970-01-15T00:00:00Z; one civil month later is 1970-02-15T00:00:00Z.
    let start = 14 * 86400;
    let chosen = Interval { start: Moment(start), end: None, grain: Grain::Month };
    let dv = datetime_value(vec![chosen], vec![], Some(false), direction, DatetimeKind::Date);
    let expected = chrono::Utc
        .timestamp_opt(start, 0)
        .unwrap()
        .checked_add_months(chrono::Months::new(1))
        .unwrap()
        .timestamp();
    assert_eq!(expected, 45 * 86400);
    let out = ctx.resolve(&Dimension::Datetime(dv));
    match out {
        Some(Output::DatetimeInterval(DatetimeIntervalOutput {
            interval_kind: DatetimeIntervalKind::After(p),
            ..
        })) => assert_eq!(p.moment, Moment(expected)),
        other => panic!("expected an open-ended range, got {:?}", other),
    }
}

#[test]
fn spanning_interval_resolves_to_between() {
    let ctx = ResolverContext::from_secs(0);
    let chosen = Interval { start: Moment(3600), end: Some(Moment(7200)), grain: Grain::Hour };
    let dv = datetime_value(vec![chosen], vec![], Some(false), None, DatetimeKind::DateTime);
    let out = ctx.resolve(&Dimension::Datetime(dv)).expect("a span must resolve");
    match &out {
        Output::DatetimeInterval(DatetimeIntervalOutput {
            interval_kind: DatetimeIntervalKind::Between { start, end, .. },
            datetime_kind,
        }) => {
            assert_eq!(*start, Moment(3600));
            assert_eq!(*end, Moment(7200));
            assert_eq!(*datetime_kind, DatetimeKind::DateTime);
        },
        other => panic!("expected a closed span, got {:?}", other),
    }
    assert!(!span_anomaly(&out));
}

#[test]
fn time_kind_span_still_resolves_and_shows_anomaly() {
    let ctx = ResolverContext::from_secs(0);
    let chosen = Interval { start: Moment(3600), end: Some(Moment(7200)), grain: Grain::Hour };
    let dv = datetime_value(vec![chosen], vec![], Some(false), None, DatetimeKind::Time);
    let out = ctx.resolve(&Dimension::Datetime(dv)).expect("the anomaly must not drop the value");
    match &out {
        Output::DatetimeInterval(DatetimeIntervalOutput {
            interval_kind: DatetimeIntervalKind::Between { start, end, .. },
            datetime_kind,
        }) => {
            assert_eq!(*start, Moment(3600));
            assert_eq!(*end, Moment(7200));
            assert_eq!(*datetime_kind, DatetimeKind::Time);
        },
        other => panic!("expected a closed span, got {:?}", other),
    }
    assert!(span_anomaly(&out));
}

#[test]
fn money_passthrough_ignores_context() {
    let dim = Dimension::AmountOfMoney(AmountOfMoneyValue {
        value: FloatBits32(42.5f32.to_bits()),
        precision: Precision::Approximate,
        unit: Some(String::from("USD")),
    });
    let ctx_a = ResolverContext::from_secs(0);
    let ctx_b = ResolverContext::from_secs(1234567890);
    let out_a = ctx_a.resolve(&dim);
    let out_b = ctx_b.resolve(&dim);
    assert_eq!(out_a, out_b);
    match out_a {
        Some(Output::AmountOfMoney(o)) => {
            assert_eq!(f32::from_bits(o.value.0), 42.5f32);
            assert_eq!(o.precision, Precision::Approximate);
            assert_eq!(o.unit.as_deref(), Some("USD"));
        },
        other => panic!("expected an amount of money, got {:?}", other),
    }
}

#[test]
fn scalar_kinds_pass_through() {
    let ctx = ResolverContext::from_secs(0);
    let integer = Dimension::Number(NumberValue::Integer(IntegerValue { value: -7 }));
    match ctx.resolve(&integer) {
        Some(Output::Integer(o)) => assert_eq!(o.0, -7),
        other => panic!("expected an integer, got {:?}", other),
    }
    let float = Dimension::Number(NumberValue::Float(FloatValue {
        value: FloatBits64(2.75f64.to_bits()),
    }));
    match ctx.resolve(&float) {
        Some(Output::Float(o)) => assert_eq!(f64::from_bits(o.0.0), 2.75f64),
        other => panic!("expected a float, got {:?}", other),
    }
    let ordinal = Dimension::Ordinal(OrdinalValue { value: 3 });
    match ctx.resolve(&ordinal) {
        Some(Output::Ordinal(o)) => assert_eq!(o.0, 3),
        other => panic!("expected an ordinal, got {:?}", other),
    }
    let percentage = Dimension::Percentage(PercentageValue(FloatBits64(15.0f64.to_bits())));
    match ctx.resolve(&percentage) {
        Some(Output::Percentage(o)) => assert_eq!(f64::from_bits(o.0.0), 15.0f64),
        other => panic!("expected a percentage, got {:?}", other),
    }
}

#[test]
fn temperature_passthrough_keeps_all_fields() {
    let ctx = ResolverContext::from_secs(0);
    let dim = Dimension::Temperature(TemperatureValue {
        value: FloatBits32(21.5f32.to_bits()),
        unit: Some(String::from("celsius")),
        latent: true,
    });
    match ctx.resolve(&dim) {
        Some(Output::Temperature(o)) => {
            assert_eq!(f32::from_bits(o.value.0), 21.5f32);
            assert_eq!(o.unit.as_deref(), Some("celsius"));
            assert!(o.latent);
        },
        other => panic!("expected a temperature, got {:?}", other),
    }
}

#[test]
fn duration_passthrough_copies_the_period() {
    let ctx = ResolverContext::from_secs(0);
    let period = Period {
        comps: vec![
            PeriodComp { grain: Grain::Hour, quantity: 2 },
            PeriodComp { grain: Grain::Minute, quantity: 30 },
        ],
    };
    let dim = Dimension::Duration(DurationValue {
        period: period.clone(),
        precision: Precision::Exact,
    });
    match ctx.resolve(&dim) {
        Some(Output::Duration(o)) => {
            assert_eq!(o.period, period);
            assert_eq!(o.precision, Precision::Exact);
        },
        other => panic!("expected a duration, got {:?}", other),
    }
}

#[test]
fn unrecognized_kinds_resolve_to_none() {
    let ctx = ResolverContext::from_secs(0);
    assert_eq!(ctx.resolve(&Dimension::Cycle(CycleValue { grain: Grain::Week })), None);
    assert_eq!(
        ctx.resolve(&Dimension::UnitOfDuration(UnitOfDurationValue { grain: Grain::Hour })),
        None,
    );
}

#[test]
fn walker_hands_candidates_out_in_order() {
    let constraint = Constraint {
        forward: vec![second_interval(1), second_interval(2)],
        backward: vec![second_interval(-1)],
    };
    let reference = second_interval(0);
    let ctx = ResolverContext::from_secs(0);
    let mut walker = constraint.to_walker(&reference, &ctx);
    assert_eq!(walker.forward.next(), Some(second_interval(1)));
    assert_eq!(walker.forward.next(), Some(second_interval(2)));
    assert_eq!(walker.forward.next(), None);
    assert_eq!(walker.forward.next(), None);
    assert_eq!(walker.backward.next(), Some(second_interval(-1)));
    assert_eq!(walker.backward.next(), None);
}

#[test]
fn range_checks_accept_and_refuse() {
    assert!(check_interval_in_range(&second_interval(0)));
    assert!(!check_interval_in_range(&second_interval(i64::MAX)));
    let bad = Interval { start: Moment(0), end: Some(Moment(i64::MIN)), grain: Grain::Day };
    assert!(!check_interval_in_range(&bad));
    let good_dim = Dimension::Datetime(datetime_value(
        vec![second_interval(5)],
        vec![],
        None,
        None,
        DatetimeKind::DateTime,
    ));
    assert!(check_dimension_in_range(&good_dim));
    let bad_dim = Dimension::Datetime(datetime_value(
        vec![second_interval(i64::MAX)],
        vec![],
        None,
        None,
        DatetimeKind::DateTime,
    ));
    assert!(!check_dimension_in_range(&bad_dim));
    assert!(check_dimension_in_range(&Dimension::Ordinal(OrdinalValue { value: 1 })));
}

#[test]
fn absent_not_immediate_means_immediate_allowed() {
    let ctx = ResolverContext::from_secs(0);
    let dv = datetime_value(
        vec![second_interval(0), second_interval(10)],
        vec![],
        None,
        None,
        DatetimeKind::DateTime,
    );
    match ctx.resolve(&Dimension::Datetime(dv)) {
        Some(Output::Datetime(o)) => assert_eq!(o.moment, Moment(0)),
        other => panic!("expected a plain datetime, got {:?}", other),
    }
}
