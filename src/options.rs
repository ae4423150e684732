//! Rendering options, and how unset options take their defaults.
use vstd::prelude::*;

verus! {

/// How a duration is written out.
#[derive(Copy, Clone, Debug, PartialEq, Eq, Structural)]
pub enum PrettyDurationOutputFormat {
    /// Short symbols glued to their count: `"5m 1s"`.
    Compact,
    /// Full words after a space, pluralized: `"5 minutes 1 second"`.
    Expanded,
    /// Rendered as `Expanded`.
    Colon,
}

/// One label for each of the seven units.
#[derive(Copy, Clone, Debug)]
pub struct PrettyDurationLabels {
    pub year: &'static str,
    pub month: &'static str,
    pub day: &'static str,
    pub hour: &'static str,
    pub minute: &'static str,
    pub second: &'static str,
    pub millisecond: &'static str,
}

impl PrettyDurationLabels {
    /// The seven labels, from year down to millisecond.
    pub open spec fn view(&self) -> Seq<Seq<char>> {
        seq![
            self.year@,
            self.month@,
            self.day@,
            self.hour@,
            self.minute@,
            self.second@,
            self.millisecond@,
        ]
    }

    /// The labels as owned strings, from year down to millisecond.
    pub fn to_vec(&self) -> (r: Vec<String>)
        ensures
            r@.len() == 7,
            string_views(r@) == self@,
    {
        let mut r: Vec<String> = Vec::new();
        r.push(String::from_str(self.year));
        r.push(String::from_str(self.month));
        r.push(String::from_str(self.day));
        r.push(String::from_str(self.hour));
        r.push(String::from_str(self.minute));
        r.push(String::from_str(self.second));
        r.push(String::from_str(self.millisecond));
        assert(string_views(r@) =~= self@);
        r
    }
}

/// The contents of a sequence of strings.
pub open spec fn string_views(v: Seq<String>) -> Seq<Seq<char>> {
    v.map_values(|s: String| s@)
}

/// A label with an `s` appended.
pub open spec fn with_s(w: Seq<char>) -> Seq<char> {
    w + seq!['s']
}

/// Every label with an `s` appended.
pub open spec fn pluralized(labels: Seq<Seq<char>>) -> Seq<Seq<char>> {
    labels.map_values(|w: Seq<char>| with_s(w))
}

/// Options chosen by a caller; whatever is left `None` takes its default.
///
/// `compact_labels` are used in the compact format, as they are for any count.
/// `expanded_labels` are used in the other formats, with an `s` appended for
/// counts above one. For words whose plural is not formed that way, build a
/// [`PrettyDurationOptionsWithDefault`] from singular and plural labels.
#[derive(Copy, Clone, Debug)]
pub struct PrettyDurationOptions {
    pub output_format: Option<PrettyDurationOutputFormat>,
    pub compact_labels: Option<PrettyDurationLabels>,
    pub expanded_labels: Option<PrettyDurationLabels>,
}

/// The contents of a label table that may be unset.
pub open spec fn optional_labels(l: Option<PrettyDurationLabels>) -> Option<Seq<Seq<char>>> {
    match l {
        Some(l) => Some(l@),
        None => None,
    }
}

impl PrettyDurationOptions {
    pub open spec fn view(&self) -> (
        Option<PrettyDurationOutputFormat>,
        Option<Seq<Seq<char>>>,
        Option<Seq<Seq<char>>>,
    ) {
        (self.output_format, optional_labels(self.compact_labels), optional_labels(self.expanded_labels))
    }
}

/// What a caller chose: format, compact labels and expanded labels, each
/// possibly unset.
pub type OptionsModel = (
    Option<PrettyDurationOutputFormat>,
    Option<Seq<Seq<char>>>,
    Option<Seq<Seq<char>>>,
);

/// The choices made by `options`, all unset where there are none.
pub open spec fn options_model(options: Option<PrettyDurationOptions>) -> OptionsModel {
    match options {
        Some(o) => o@,
        None => (None, None, None),
    }
}

/// A complete configuration: format, singular labels, plural labels.
pub type ResolvedModel = (PrettyDurationOutputFormat, Seq<Seq<char>>, Seq<Seq<char>>);

pub open spec fn compact_default() -> Seq<Seq<char>> {
    seq!["y"@, "mon"@, "d"@, "h"@, "m"@, "s"@, "ms"@]
}

pub open spec fn expanded_default() -> Seq<Seq<char>> {
    seq!["year"@, "month"@, "day"@, "hour"@, "minute"@, "second"@, "millisecond"@]
}

/// The format in effect: the chosen one, else compact.
pub open spec fn resolved_format(m: OptionsModel) -> PrettyDurationOutputFormat {
    match m.0 {
        Some(f) => f,
        None => PrettyDurationOutputFormat::Compact,
    }
}

/// The singular labels in effect: the caller's table for the format in
/// effect, else the built-in one.
pub open spec fn resolved_singular(m: OptionsModel) -> Seq<Seq<char>> {
    if resolved_format(m) == PrettyDurationOutputFormat::Compact {
        match m.1 {
            Some(l) => l,
            None => compact_default(),
        }
    } else {
        match m.2 {
            Some(l) => l,
            None => expanded_default(),
        }
    }
}

/// The plural labels in effect: compact symbols do not change, words take
/// an `s`.
pub open spec fn resolved_plural(m: OptionsModel) -> Seq<Seq<char>> {
    if resolved_format(m) == PrettyDurationOutputFormat::Compact {
        resolved_singular(m)
    } else {
        pluralized(resolved_singular(m))
    }
}

/// The complete configuration that the choices `m` stand for.
pub open spec fn resolve(m: OptionsModel) -> ResolvedModel {
    (resolved_format(m), resolved_singular(m), resolved_plural(m))
}

/// A complete configuration, with the labels for a count of one and those
/// for larger counts, each from year down to millisecond.
#[derive(Debug)]
pub struct PrettyDurationOptionsWithDefault {
    pub output_format: PrettyDurationOutputFormat,
    pub singular_labels: Vec<String>,
    pub plural_labels: Vec<String>,
}

impl PrettyDurationOptionsWithDefault {
    pub open spec fn view(&self) -> ResolvedModel {
        (self.output_format, string_views(self.singular_labels@), string_views(self.plural_labels@))
    }

    /// Both label tables hold one label per unit.
    pub open spec fn wf(&self) -> bool {
        &&& self.singular_labels@.len() == 7
        &&& self.plural_labels@.len() == 7
    }

    /// A configuration with labels given for both grammatical numbers, for
    /// words that do not form their plural with an `s`.
    pub fn from_labels(
        output_format: PrettyDurationOutputFormat,
        singular_labels: &PrettyDurationLabels,
        plural_labels: &PrettyDurationLabels,
    ) -> (r: Self)
        ensures
            r.wf(),
            r@ == (output_format, singular_labels@, plural_labels@),
    {
        PrettyDurationOptionsWithDefault {
            output_format,
            singular_labels: singular_labels.to_vec(),
            plural_labels: plural_labels.to_vec(),
        }
    }
}

fn compact_default_labels() -> (r: PrettyDurationLabels)
    ensures
        r@ == compact_default(),
{
    PrettyDurationLabels {
        year: "y",
        month: "mon",
        day: "d",
        hour: "h",
        minute: "m",
        second: "s",
        millisecond: "ms",
    }
}

fn expanded_default_labels() -> (r: PrettyDurationLabels)
    ensures
        r@ == expanded_default(),
{
    PrettyDurationLabels {
        year: "year",
        month: "month",
        day: "day",
        hour: "hour",
        minute: "minute",
        second: "second",
        millisecond: "millisecond",
    }
}

/// Each label with an `s` appended, from year down to millisecond.
fn pluralize(labels: &PrettyDurationLabels) -> (r: Vec<String>)
    ensures
        r@.len() == 7,
        string_views(r@) == pluralized(labels@),
{
    let singular = labels.to_vec();
    let mut r: Vec<String> = Vec::new();
    let mut i: usize = 0;
    while i < singular.len()
        invariant
            i <= singular@.len(),
            singular@.len() == 7,
            r@.len() == i,
            string_views(singular@) == labels@,
            string_views(r@) == pluralized(labels@).take(i as int),
        decreases singular@.len() - i,
    {
        let w = singular[i].clone().concat("s");
        proof {
            reveal_strlit("s");
        }
        assert(w@ == with_s(labels@[i as int]));
        r.push(w);
        assert(string_views(r@) =~= pluralized(labels@).take(i + 1));
        i = i + 1;
    }
    assert(pluralized(labels@).take(i as int) =~= pluralized(labels@));
    r
}

/// Completes the caller's options with the defaults.
pub fn set_default_options(user_options: Option<PrettyDurationOptions>) -> (r:
    PrettyDurationOptionsWithDefault)
    ensures
        r.wf(),
        r@ == resolve(options_model(user_options)),
{
    let user = match user_options {
        Some(o) => o,
        None => PrettyDurationOptions {
            output_format: None,
            compact_labels: None,
            expanded_labels: None,
        },
    };
    let output_format = match user.output_format {
        Some(f) => f,
        None => PrettyDurationOutputFormat::Compact,
    };
    match output_format {
        PrettyDurationOutputFormat::Compact => {
            let labels = match user.compact_labels {
                Some(l) => l,
                None => compact_default_labels(),
            };
            PrettyDurationOptionsWithDefault {
                output_format,
                singular_labels: labels.to_vec(),
                plural_labels: labels.to_vec(),
            }
        },
        _ => {
            let labels = match user.expanded_labels {
                Some(l) => l,
                None => expanded_default_labels(),
            };
            PrettyDurationOptionsWithDefault {
                output_format,
                singular_labels: labels.to_vec(),
                plural_labels: pluralize(&labels),
            }
        },
    }
}

/// A complete configuration stated again as a caller's choices: its format,
/// and its singular labels as the table of that format.
pub open spec fn as_choices(r: ResolvedModel) -> OptionsModel {
    if r.0 == PrettyDurationOutputFormat::Compact {
        (Some(r.0), Some(r.1), None)
    } else {
        (Some(r.0), None, Some(r.1))
    }
}

/// Resolution depends on nothing but the choices made: two option values
/// with the same contents resolve to the same configuration.
pub proof fn lemma_resolve_deterministic(a: Option<PrettyDurationOptions>, b: Option<PrettyDurationOptions>)
    requires
        options_model(a) == options_model(b),
    ensures
        resolve(options_model(a)) == resolve(options_model(b)),
{
}

/// Resolving twice changes nothing: a configuration obtained by resolution,
/// stated again as choices, resolves to itself.
pub proof fn lemma_resolve_idempotent(m: OptionsModel)
    ensures
        resolve(as_choices(resolve(m))) == resolve(m),
{
}

} // verus!
