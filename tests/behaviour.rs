use pretty_duration::bins::{DAY_MS, HOUR_MS, YEAR_MS};
use pretty_duration::extract_bins;
use pretty_duration::pretty_duration;
use pretty_duration::render::decimal_string;
use pretty_duration::render_bins;
use pretty_duration::set_default_options;
use pretty_duration::try_adding;
use pretty_duration::PrettyDurationLabels;
use pretty_duration::PrettyDurationOptions;
use pretty_duration::PrettyDurationOptionsWithDefault;
use pretty_duration::PrettyDurationOutputFormat;

fn with_format(f: PrettyDurationOutputFormat) -> Option<PrettyDurationOptions> {
    Some(PrettyDurationOptions {
        output_format: Some(f),
        compact_labels: None,
        expanded_labels: None,
    })
}

#[test]
fn sub_day_bins_stay_in_range() {
    for ms in [0u128, 999, 1000, 59_999, 86_399_999, 86_400_000, 31556956789, u128::MAX] {
        let b = extract_bins(&ms);
        assert!(b.hours < 24);
        assert!(b.minutes < 60);
        assert!(b.seconds < 60);
        assert!(b.milliseconds < 1000);
    }
    let b = extract_bins(&86_399_999);
    assert_eq!((b.days, b.hours, b.minutes, b.seconds, b.milliseconds), (0, 23, 59, 59, 999));
}

#[test]
fn long_durations_wrap_in_their_bins() {
    let b = extract_bins(&(400 * DAY_MS));
    assert_eq!(b.days, 144);
    assert_eq!(b.months, 13);
    assert_eq!(b.years, 1);
    let b = extract_bins(&(255 * DAY_MS));
    assert_eq!(b.days, 255);
    let b = extract_bins(&(256 * DAY_MS));
    assert_eq!(b.days, 0);
    assert_eq!(pretty_duration(256 * DAY_MS, None), "8mon");
    let b = extract_bins(&(70_000 * YEAR_MS));
    assert_eq!(b.years, 4464);
}

#[test]
fn no_option_zero_is_zero_ms() {
    assert_eq!(pretty_duration(0, None), "0ms");
}

#[test]
fn one_ms_without_options() {
    assert_eq!(pretty_duration(1, None), "1ms");
}

#[test]
fn zero_bins_are_left_out() {
    assert_eq!(pretty_duration(HOUR_MS, None), "1h");
    assert_eq!(pretty_duration(3_600_005, with_format(PrettyDurationOutputFormat::Expanded)), "1 hour 5 milliseconds");
    assert_eq!(pretty_duration(DAY_MS, None), "1d");
    assert!(!pretty_duration(3_600_005, None).contains("0"));
}

#[test]
fn one_is_singular_two_is_plural() {
    let expanded = with_format(PrettyDurationOutputFormat::Expanded);
    assert_eq!(pretty_duration(60_000, expanded), "1 minute");
    assert_eq!(pretty_duration(120_000, expanded), "2 minutes");
    assert_eq!(pretty_duration(2 * DAY_MS, expanded), "2 days");
    assert_eq!(pretty_duration(DAY_MS + 1000, expanded), "1 day 1 second");
}

#[test]
fn colon_renders_as_expanded() {
    let colon = with_format(PrettyDurationOutputFormat::Colon);
    assert_eq!(pretty_duration(301000, colon), "5 minutes 1 second");
    assert_eq!(pretty_duration(0, colon), "0 millisecond");
}

#[test]
fn resolving_twice_gives_the_same_configuration() {
    let options = with_format(PrettyDurationOutputFormat::Expanded);
    let a = set_default_options(options);
    let b = set_default_options(options);
    assert_eq!(a.output_format, b.output_format);
    assert_eq!(a.singular_labels, b.singular_labels);
    assert_eq!(a.plural_labels, b.plural_labels);
    assert_eq!(a.plural_labels[0], "years");
    assert_eq!(a.singular_labels[6], "millisecond");
}

#[test]
fn resolved_configuration_resolves_to_itself() {
    let labels = PrettyDurationLabels {
        year: "an",
        month: "mois",
        day: "jour",
        hour: "heure",
        minute: "minute",
        second: "seconde",
        millisecond: "milliseconde",
    };
    let first = set_default_options(Some(PrettyDurationOptions {
        output_format: Some(PrettyDurationOutputFormat::Expanded),
        compact_labels: None,
        expanded_labels: Some(labels),
    }));
    let again = set_default_options(Some(PrettyDurationOptions {
        output_format: Some(first.output_format),
        compact_labels: None,
        expanded_labels: Some(labels),
    }));
    assert_eq!(first.singular_labels, again.singular_labels);
    assert_eq!(first.plural_labels, again.plural_labels);
    assert_eq!(first.plural_labels[1], "moiss");
}

#[test]
fn defaults_are_compact() {
    let c = set_default_options(None);
    assert_eq!(c.output_format, PrettyDurationOutputFormat::Compact);
    assert_eq!(c.singular_labels, vec!["y", "mon", "d", "h", "m", "s", "ms"]);
    assert_eq!(c.plural_labels, c.singular_labels);
}

#[test]
fn compact_labels_are_used_in_compact_format() {
    let labels = PrettyDurationLabels {
        year: "a",
        month: "M",
        day: "j",
        hour: "h",
        minute: "min",
        second: "s",
        millisecond: "ms",
    };
    let r = pretty_duration(
        3 * DAY_MS + 120_000,
        Some(PrettyDurationOptions {
            output_format: None,
            compact_labels: Some(labels),
            expanded_labels: None,
        }),
    );
    assert_eq!(r, "3j 2min");
}

#[test]
fn irregular_plurals_through_explicit_tables() {
    let singular = PrettyDurationLabels {
        year: "an",
        month: "mois",
        day: "jour",
        hour: "heure",
        minute: "minute",
        second: "seconde",
        millisecond: "milliseconde",
    };
    let plural = PrettyDurationLabels {
        year: "ans",
        month: "mois",
        day: "jours",
        hour: "heures",
        minute: "minutes",
        second: "secondes",
        millisecond: "millisecondes",
    };
    let config = PrettyDurationOptionsWithDefault::from_labels(
        PrettyDurationOutputFormat::Expanded,
        &singular,
        &plural,
    );
    let r = render_bins(&extract_bins(&31556956789), &config);
    assert_eq!(r, "1 an 11 mois 109 jours 5 heures 49 minutes 16 secondes 789 millisecondes");
    let z = render_bins(&extract_bins(&0), &config);
    assert_eq!(z, "0 milliseconde");
}

#[test]
fn try_adding_skips_zero() {
    let mut parts: Vec<String> = Vec::new();
    try_adding(&mut parts, "0".to_string(), "h", false);
    assert!(parts.is_empty());
    try_adding(&mut parts, "10".to_string(), "h", false);
    try_adding(&mut parts, "3".to_string(), "minutes", true);
    assert_eq!(parts, vec!["10h", "3 minutes"]);
}

#[test]
fn decimal_digits() {
    assert_eq!(decimal_string(0), "0");
    assert_eq!(decimal_string(7), "7");
    assert_eq!(decimal_string(10), "10");
    assert_eq!(decimal_string(31556956789), "31556956789");
    assert_eq!(decimal_string(u128::MAX), u128::MAX.to_string());
}

#[test]
fn largest_duration_renders() {
    let r = pretty_duration(u128::MAX, None);
    let b = extract_bins(&u128::MAX);
    assert!(r.starts_with(&format!("{}y {}mon {}d", b.years, b.months, b.days)));
    assert!(r.ends_with("455ms"));
}
