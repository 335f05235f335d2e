//! The runs of the Braess scenario that read the original Java experiments: which
//! folder a replanning variant's plans come from, and the files and output directory
//! of a run.

use crate::config::{common_pattern_replaced, GlobalConfig};
use crate::bash_utils::text_result;
use crate::text::{decimal, u64_text};
use crate::utils::{placeholders_replaced, replace_placeholders};
use vstd::prelude::*;

verus! {

/// The replanning variant of the original Java experiment.
#[derive(Clone, Copy, Debug, PartialEq, Eq, Structural)]
pub enum ReplanningVariant {
    /// selection exponent ("preference for higher scores") of 1, rerouting until 0.5,
    /// msa from 0.5
    SelExp1SwitchAt50,
    /// selection exponent of 1, rerouting until 0.8, msa from 0.8
    SelExp1SwitchAt80,
    /// selection exponent of 10, rerouting until 0.8, msa from 0.8
    SelExp10SwitchAt80,
}

/// The folder of the variant's original runs.
pub open spec fn folder_name(v: ReplanningVariant) -> Seq<char> {
    match v {
        ReplanningVariant::SelExp1SwitchAt50 => "2026-05-8-12-16-8_500it_reRouteProba0.1until0.5it_selExpBeta1proba0.9_msaFrom0.5it"@,
        ReplanningVariant::SelExp1SwitchAt80 => "2026-05-10-10-2-21_500it_reRouteProba0.1until0.8it_selExpBeta1proba0.9_msaFrom0.8it"@,
        ReplanningVariant::SelExp10SwitchAt80 => "2026-05-12-8-42-24_500it_reRouteProba0.1until0.8it_selExpBeta10proba0.9_msaFrom0.8it"@,
    }
}

/// The short name of the variant.
pub open spec fn short_name(v: ReplanningVariant) -> Seq<char> {
    match v {
        ReplanningVariant::SelExp1SwitchAt50 => "sel-exp1-switch-at50"@,
        ReplanningVariant::SelExp1SwitchAt80 => "sel-exp1-switch-at80"@,
        ReplanningVariant::SelExp10SwitchAt80 => "sel-exp10-switch-at80"@,
    }
}

impl ReplanningVariant {
    /// The folder of the variant's original runs.
    pub fn get_folder_name(&self) -> (r: &'static str)
        ensures
            r@ == folder_name(*self),
    {
        match self {
            ReplanningVariant::SelExp1SwitchAt50 => "2026-05-8-12-16-8_500it_reRouteProba0.1until0.5it_selExpBeta1proba0.9_msaFrom0.5it",
            ReplanningVariant::SelExp1SwitchAt80 => "2026-05-10-10-2-21_500it_reRouteProba0.1until0.8it_selExpBeta1proba0.9_msaFrom0.8it",
            ReplanningVariant::SelExp10SwitchAt80 => "2026-05-12-8-42-24_500it_reRouteProba0.1until0.8it_selExpBeta10proba0.9_msaFrom0.8it",
        }
    }

    /// The short name of the variant, as shown to users (its `Display`).
    pub fn to_string(&self) -> (r: String)
        ensures
            r@ == short_name(*self),
    {
        match self {
            ReplanningVariant::SelExp1SwitchAt50 => String::from_str("sel-exp1-switch-at50"),
            ReplanningVariant::SelExp1SwitchAt80 => String::from_str("sel-exp1-switch-at80"),
            ReplanningVariant::SelExp10SwitchAt80 => String::from_str("sel-exp10-switch-at80"),
        }
    }
}

/// The vehicles file of the scenario with the given beta.
pub open spec fn vehicles_file(beta: u64) -> Seq<char> {
    "no_spillback_beta"@ + decimal(beta as nat) + "_vehicles.xml"@
}

/// The vehicles file of the scenario with the given beta,
/// `no_spillback_beta{beta}_vehicles.xml`.
pub fn vehicles_file_name(beta: u64) -> (r: String)
    ensures
        r@ == vehicles_file(beta),
{
    let mut r = String::from_str("no_spillback_beta");
    r.append(u64_text(beta).as_str());
    r.append("_vehicles.xml");
    r
}

/// The plans of the original run: `{folder}/beta{beta}/random{random}/beta{beta}random{random}.output_plans.xml.gz`.
pub open spec fn original_plans(variant: ReplanningVariant, beta: u64, random: u64) -> Seq<char> {
    folder_name(variant) + "/beta"@ + decimal(beta as nat) + "/random"@ + decimal(random as nat) + "/beta"@
        + decimal(beta as nat) + "random"@ + decimal(random as nat) + ".output_plans.xml.gz"@
}

/// The plans of the original run with the given beta and random seed index.
pub fn original_plans_file(variant: ReplanningVariant, beta: u64, random: u64) -> (r: String)
    ensures
        r@ == original_plans(variant, beta, random),
{
    let b = u64_text(beta);
    let rnd = u64_text(random);
    let mut r = String::from_str(variant.get_folder_name());
    r.append("/beta");
    r.append(b.as_str());
    r.append("/random");
    r.append(rnd.as_str());
    r.append("/beta");
    r.append(b.as_str());
    r.append("random");
    r.append(rnd.as_str());
    r.append(".output_plans.xml.gz");
    r
}

/// The output directory of a single-iteration run: the pattern with base output
/// directory, experiment set, variant, beta, read seed and Rust seed filled in.
pub fn experiment_output_dir(
    pattern: &str,
    base_output_dir: &str,
    experiment_set_name: &str,
    variant: ReplanningVariant,
    beta: u64,
    read_from_random: u64,
    use_random_seed: u64,
) -> (r: String)
    ensures
        r@ == placeholders_replaced(
            pattern@,
            Some(base_output_dir@),
            Some(experiment_set_name@),
            Some(short_name(variant)),
            Some(beta),
            Some(read_from_random),
            Some(use_random_seed),
        ),
{
    let name = variant.to_string();
    replace_placeholders(
        pattern,
        Some(base_output_dir),
        Some(experiment_set_name),
        Some(name.as_str()),
        Some(beta),
        Some(read_from_random),
        Some(use_random_seed),
    )
}

/// The population with corrected activity times that a single-iteration run reads:
/// the pattern with its common placeholder replaced from the global configuration, then
/// base output directory, experiment set, variant, beta and read seed filled in.
pub fn corrected_population_path(
    global_config: &GlobalConfig,
    pattern: &str,
    base_output_dir: &str,
    experiment_set_name: &str,
    variant: ReplanningVariant,
    beta: u64,
    read_from_random: u64,
) -> (r: Result<String, String>)
    ensures
        text_result(r) == match common_pattern_replaced(global_config.global_parameters@, pattern@) {
            Err(e) => Err(e),
            Ok(p) => Ok(
                placeholders_replaced(
                    p,
                    Some(base_output_dir@),
                    Some(experiment_set_name@),
                    Some(short_name(variant)),
                    Some(beta),
                    Some(read_from_random),
                    None,
                ),
            ),
        },
{
    match global_config.replace_common_pattern(pattern) {
        Err(e) => Err(e),
        Ok(p) => {
            let name = variant.to_string();
            Ok(
                replace_placeholders(
                    p.as_str(),
                    Some(base_output_dir),
                    Some(experiment_set_name),
                    Some(name.as_str()),
                    Some(beta),
                    Some(read_from_random),
                    None,
                ),
            )
        },
    }
}

} // verus!
