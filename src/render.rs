//! Rendering of unit bins into text.
use vstd::prelude::*;

use crate::bins::DurationBins;
use crate::options::{string_views, PrettyDurationOptionsWithDefault, PrettyDurationOutputFormat, ResolvedModel};

verus! {

/// The decimal digits, indexed by their value.
pub open spec fn digit_chars() -> Seq<char> {
    seq!['0', '1', '2', '3', '4', '5', '6', '7', '8', '9']
}

/// The decimal representation of `n`, without leading zeros.
pub open spec fn decimal(n: nat) -> Seq<char>
    decreases n,
{
    if n < 10 {
        seq![digit_chars()[n as int]]
    } else {
        decimal(n / 10) + seq![digit_chars()[(n % 10) as int]]
    }
}

/// Writes `n` in decimal.
pub fn decimal_string(n: u128) -> (r: String)
    ensures
        r@ == decimal(n as nat),
    decreases n,
{
    let table: &str = "0123456789";
    proof {
        reveal_strlit("0123456789");
        assert(table@ =~= digit_chars());
    }
    let d: usize = (n % 10) as usize;
    let digit: &str = table.substring_char(d, d + 1);
    assert(digit@ =~= seq![digit_chars()[d as int]]);
    if n < 10 {
        String::from_str(digit)
    } else {
        let prefix = decimal_string(n / 10);
        prefix.concat(digit)
    }
}

/// `decimal(n)` reads `"0"` exactly when `n` is zero.
proof fn lemma_decimal_zero(n: nat)
    ensures
        (decimal(n) == seq!['0']) <==> n == 0,
{
    if n < 10 {
        assert(decimal(n) == seq![digit_chars()[n as int]]);
        if n != 0 {
            assert(decimal(n)[0] != '0');
        }
    } else {
        assert(decimal(n) == decimal(n / 10) + seq![digit_chars()[(n % 10) as int]]);
        assert(decimal(n / 10).len() >= 1) by {
            if n / 10 >= 10 {
                assert(decimal(n / 10) == decimal(n / 10 / 10) + seq![digit_chars()[(n / 10 % 10) as int]]);
            }
        }
        assert(decimal(n).len() >= 2);
    }
}

/// What stands between a count and its label: nothing in compact output,
/// one space between words.
pub open spec fn spacing(is_full_word: bool) -> Seq<char> {
    if is_full_word {
        seq![' ']
    } else {
        seq![]
    }
}

/// The spacing of a format: only the compact format glues label to count.
pub open spec fn separator(format: PrettyDurationOutputFormat) -> Seq<char> {
    spacing(format != PrettyDurationOutputFormat::Compact)
}

/// The label of a count: the plural one above one, else the singular one.
pub open spec fn unit_label(v: nat, singular: Seq<char>, plural: Seq<char>) -> Seq<char> {
    if v > 1 {
        plural
    } else {
        singular
    }
}

/// A count written with its label.
pub open spec fn fragment(v: nat, sep: Seq<char>, singular: Seq<char>, plural: Seq<char>) -> Seq<
    char,
> {
    decimal(v) + sep + unit_label(v, singular, plural)
}

/// The fragments of the first `n` units, skipping those with a count of zero.
pub open spec fn fragments(
    values: Seq<nat>,
    sep: Seq<char>,
    singular: Seq<Seq<char>>,
    plural: Seq<Seq<char>>,
    n: nat,
) -> Seq<Seq<char>>
    decreases n,
{
    if n == 0 {
        seq![]
    } else {
        let i = n - 1;
        let before = fragments(values, sep, singular, plural, i as nat);
        if values[i] == 0 {
            before
        } else {
            before.push(fragment(values[i], sep, singular[i], plural[i]))
        }
    }
}

/// The parts in order, one space between each two.
pub open spec fn joined(parts: Seq<Seq<char>>) -> Seq<char>
    decreases parts.len(),
{
    if parts.len() == 0 {
        seq![]
    } else if parts.len() == 1 {
        parts[0]
    } else {
        joined(parts.drop_last()) + seq![' '] + parts.last()
    }
}

/// The text for unit counts `values` under the configuration `config`: the
/// non-zero counts with their labels, or a zero count of milliseconds when
/// every count is zero.
pub open spec fn rendered(values: Seq<nat>, config: ResolvedModel) -> Seq<char> {
    let sep = separator(config.0);
    let parts = fragments(values, sep, config.1, config.2, 7);
    if parts.len() == 0 {
        seq!['0'] + sep + config.1[6]
    } else {
        joined(parts)
    }
}

/// The plural label when `is_plural` holds, else the singular one.
pub fn get_unit(singular_string: &str, plural_string: &str, is_plural: bool) -> (r: String)
    ensures
        r@ == (if is_plural {
            plural_string@
        } else {
            singular_string@
        }),
{
    if is_plural {
        plural_string.to_owned()
    } else {
        singular_string.to_owned()
    }
}

/// Appends `value` followed by `unit` to `result`, unless `value` reads `"0"`.
pub fn try_adding(result: &mut Vec<String>, value: String, unit: &str, is_full_word: bool)
    ensures
        value@ == seq!['0'] ==> final(result)@ == old(result)@,
        value@ != seq!['0'] ==> string_views(final(result)@) == string_views(old(result)@).push(
            value@ + spacing(is_full_word) + unit@,
        ),
{
    let separator: &str = if is_full_word {
        " "
    } else {
        ""
    };
    let zero = String::from_str("0");
    proof {
        reveal_strlit(" ");
        reveal_strlit("");
        reveal_strlit("0");
        assert(separator@ =~= spacing(is_full_word));
        assert(zero@ =~= seq!['0']);
    }
    if !(value == zero) {
        let text = value.concat(separator).concat(unit);
        let ghost before = result@;
        result.push(text);
        assert(string_views(result@) =~= string_views(before).push(text@));
    }
}

/// The parts in order, one space between each two.
fn join_fragments(parts: &Vec<String>) -> (r: String)
    requires
        parts@.len() > 0,
    ensures
        r@ == joined(string_views(parts@)),
{
    let ghost views = string_views(parts@);
    let mut r = parts[0].clone();
    assert(views.take(1).drop_last() =~= seq![]);
    let mut i: usize = 1;
    while i < parts.len()
        invariant
            1 <= i <= parts@.len(),
            views == string_views(parts@),
            r@ == joined(views.take(i as int)),
        decreases parts@.len() - i,
    {
        r.append(" ");
        r.append(parts[i].as_str());
        proof {
            reveal_strlit(" ");
            assert(views.take(i + 1).drop_last() =~= views.take(i as int));
        }
        i = i + 1;
    }
    assert(views.take(i as int) =~= views);
    r
}

/// Writes out unit counts under a complete configuration.
pub fn render_bins(bins: &DurationBins, config: &PrettyDurationOptionsWithDefault) -> (r: String)
    requires
        config.wf(),
    ensures
        r@ == rendered(bins.values(), config@),
{
    let is_full_word = match config.output_format {
        PrettyDurationOutputFormat::Compact => false,
        _ => true,
    };
    let mut values: Vec<u128> = Vec::new();
    values.push(bins.years as u128);
    values.push(bins.months as u128);
    values.push(bins.days as u128);
    values.push(bins.hours as u128);
    values.push(bins.minutes as u128);
    values.push(bins.seconds as u128);
    values.push(bins.milliseconds as u128);
    let ghost counts = bins.values();
    let ghost sep = separator(config.output_format);
    let ghost singular = string_views(config.singular_labels@);
    let ghost plural = string_views(config.plural_labels@);
    assert(values@.map_values(|v: u128| v as nat) =~= counts);
    let mut parts: Vec<String> = Vec::new();
    let mut i: usize = 0;
    while i < 7
        invariant
            i <= 7,
            config.wf(),
            values@.len() == 7,
            values@.map_values(|v: u128| v as nat) == counts,
            sep == spacing(is_full_word),
            singular == string_views(config.singular_labels@),
            plural == string_views(config.plural_labels@),
            string_views(parts@) == fragments(counts, sep, singular, plural, i as nat),
        decreases 7 - i,
    {
        let v = values[i];
        assert(counts[i as int] == v as nat);
        let value = decimal_string(v);
        let unit = get_unit(
            config.singular_labels[i].as_str(),
            config.plural_labels[i].as_str(),
            v > 1,
        );
        proof {
            lemma_decimal_zero(v as nat);
        }
        try_adding(&mut parts, value, unit.as_str(), is_full_word);
        i = i + 1;
    }
    if parts.len() == 0 {
        let separator: &str = if is_full_word {
            " "
        } else {
            ""
        };
        proof {
            reveal_strlit(" ");
            reveal_strlit("");
            reveal_strlit("0");
        }
        String::from_str("0").concat(separator).concat(config.singular_labels[6].as_str())
    } else {
        join_fragments(&parts)
    }
}

/// Every fragment of the first `n` units belongs to a unit whose count is
/// not zero.
proof fn lemma_fragments_nonzero(
    values: Seq<nat>,
    sep: Seq<char>,
    singular: Seq<Seq<char>>,
    plural: Seq<Seq<char>>,
    n: nat,
)
    requires
        n <= values.len(),
    ensures
        forall|k: int|
            0 <= k < fragments(values, sep, singular, plural, n).len() ==> exists|i: int|
                0 <= i < n && values[i] != 0 && #[trigger] fragments(
                    values,
                    sep,
                    singular,
                    plural,
                    n,
                )[k] == fragment(values[i], sep, singular[i], plural[i]),
    decreases n,
{
    if n > 0 {
        lemma_fragments_nonzero(values, sep, singular, plural, (n - 1) as nat);
        let before = fragments(values, sep, singular, plural, (n - 1) as nat);
        let parts = fragments(values, sep, singular, plural, n);
        assert forall|k: int| 0 <= k < parts.len() implies exists|i: int|
            0 <= i < n && values[i] != 0 && #[trigger] parts[k] == fragment(
                values[i],
                sep,
                singular[i],
                plural[i],
            ) by {
            if k < before.len() {
                assert(parts[k] == before[k]);
                let i = choose|i: int|
                    0 <= i < n - 1 && values[i] != 0 && before[k] == fragment(
                        values[i],
                        sep,
                        singular[i],
                        plural[i],
                    );
                assert(0 <= i < n && values[i] != 0);
            } else {
                let i = n - 1;
                assert(values[i] != 0 && parts[k] == fragment(values[i], sep, singular[i], plural[i]));
            }
        }
    }
}

/// Zero counts are left out: unless every count is zero, the output is the
/// fragments joined by spaces, and each fragment is the count and label of a
/// unit whose count is not zero.
pub proof fn lemma_zero_bins_omitted(values: Seq<nat>, config: ResolvedModel)
    requires
        values.len() == 7,
        exists|j: int| 0 <= j < 7 && values[j] != 0,
    ensures
        ({
            let sep = separator(config.0);
            let parts = fragments(values, sep, config.1, config.2, 7);
            &&& rendered(values, config) == joined(parts)
            &&& forall|k: int|
                0 <= k < parts.len() ==> exists|i: int|
                    0 <= i < 7 && values[i] != 0 && #[trigger] parts[k] == fragment(
                        values[i],
                        sep,
                        config.1[i],
                        config.2[i],
                    )
        }),
{
    let sep = separator(config.0);
    lemma_fragments_present(values, sep, config.1, config.2, 7);
    lemma_fragments_nonzero(values, sep, config.1, config.2, 7);
}

/// The first `n` units yield at least one fragment when one of their counts
/// is not zero.
proof fn lemma_fragments_present(
    values: Seq<nat>,
    sep: Seq<char>,
    singular: Seq<Seq<char>>,
    plural: Seq<Seq<char>>,
    n: nat,
)
    requires
        n <= values.len(),
    ensures
        (exists|j: int| 0 <= j < n && values[j] != 0) ==> fragments(
            values,
            sep,
            singular,
            plural,
            n,
        ).len() > 0,
    decreases n,
{
    if n > 0 {
        lemma_fragments_present(values, sep, singular, plural, (n - 1) as nat);
        if exists|j: int| 0 <= j < n && values[j] != 0 {
            let j = choose|j: int| 0 <= j < n && values[j] != 0;
            if j < n - 1 {
                assert(exists|j: int| 0 <= j < n - 1 && values[j] != 0);
            }
        }
    }
}

/// A count of exactly one takes the singular label, any larger count the
/// plural label.
pub proof fn lemma_singular_plural_boundary(
    v: nat,
    sep: Seq<char>,
    singular: Seq<char>,
    plural: Seq<char>,
)
    ensures
        v == 1 ==> fragment(v, sep, singular, plural) == decimal(v) + sep + singular,
        v >= 2 ==> fragment(v, sep, singular, plural) == decimal(v) + sep + plural,
{
}

} // verus!
