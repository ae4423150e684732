//! Human-readable rendering of a duration given in milliseconds.
//!
//! A duration is split into seven unit bins (years, months, days, hours,
//! minutes, seconds, milliseconds) and rendered either in a compact form
//! (`"5m 1s"`) or with full words (`"5 minutes 1 second"`).
use vstd::prelude::*;

pub mod bins;
pub mod options;
pub mod render;

pub use crate::bins::{extract_bins, DurationBins};
pub use crate::options::{
    set_default_options, PrettyDurationLabels, PrettyDurationOptions,
    PrettyDurationOptionsWithDefault, PrettyDurationOutputFormat,
};
pub use crate::render::{get_unit, render_bins, try_adding};

use crate::bins::bin_values;
use crate::options::{options_model, resolve};
use crate::render::rendered;

verus! {

/// Writes out a duration of `duration_ms` milliseconds.
///
/// Without options the output is compact and in English: `"1h 1m 1s 1ms"`.
pub fn pretty_duration(duration_ms: u128, options: Option<PrettyDurationOptions>) -> (r: String)
    ensures
        r@ == rendered(bin_values(duration_ms as nat), resolve(options_model(options))),
{
    let config = set_default_options(options);
    let bins = extract_bins(&duration_ms);
    render_bins(&bins, &config)
}

} // verus!
