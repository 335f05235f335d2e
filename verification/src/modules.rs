//! The modules an experiment set can run, and what each hands its bash function.

use crate::bash_utils::{
    law_cartprod_script_layout, laid_out_script, overwrite_or_global, swept_values_text, cartprod_run, join, shell_atoms, shell_escape_single_quoted, single_quoted, string_param,
    sweep_overwrites_view, text_result, texts, yaml_values_as_shell_atoms, join_strings, BashFunction,
};
use crate::config::{
    common_pattern_replaced, expset_parameter_or_overwrite, overwrites_result, run_result, BashRun,
    Config, GlobalConfig, Module,
};
use crate::str_map::StrMap;
use crate::text::{decimal, u64_text};
use crate::yaml::{as_str_spec, YamlValue};
use vstd::prelude::*;

verus! {

/// Whether an existing output directory is deleted before a run.
#[derive(Clone, Copy, Debug, PartialEq, Eq, Structural)]
pub enum OverwriteFiles {
    DeleteDirectoryIfExists,
    /// any other mode: the output directory is kept
    Other,
}

/// Which seeds a plot averages over.
#[derive(Clone, Copy, Debug, PartialEq, Eq, Structural)]
pub enum SeedsToAvgOver {
    RustSeeds,
    JavaSeedIndices,
}

/// The overwrites of a module, taken by their view.
pub open spec fn overwrites_of(o: Option<StrMap<YamlValue>>) -> Option<Map<Seq<char>, YamlValue>> {
    match o {
        Some(m) => Some(m@),
        None => None,
    }
}

fn overwrites_ref(o: &Option<StrMap<YamlValue>>) -> (r: Option<&StrMap<YamlValue>>)
    ensures
        overwrites_result(r) == overwrites_of(*o),
{
    match o {
        Some(m) => Some(m),
        None => None,
    }
}

/// A path pattern parameter: the string parameter `name` (an overwrite, else the
/// experiment set's global) with its common placeholder replaced from the global
/// configuration.
pub open spec fn pattern_param(
    overwrites: Option<Map<Seq<char>, YamlValue>>,
    config: Config,
    global_config: GlobalConfig,
    name: Seq<char>,
    type_error: Seq<char>,
) -> Result<Seq<char>, Seq<char>> {
    match string_param(overwrites, config, name, type_error) {
        Err(e) => Err(e),
        Ok(s) => common_pattern_replaced(global_config.global_parameters@, s),
    }
}

/// The travel time and summed departures csv path patterns.
pub open spec fn tt_and_sd_patterns(
    overwrites: Option<Map<Seq<char>, YamlValue>>,
    config: Config,
    global_config: GlobalConfig,
) -> Result<(Seq<char>, Seq<char>), Seq<char>> {
    match pattern_param(
        overwrites,
        config,
        global_config,
        "tt_csv_path_pattern"@,
        "tt_csv_path_pattern must be a string"@,
    ) {
        Err(e) => Err(e),
        Ok(tt) => match pattern_param(
            overwrites,
            config,
            global_config,
            "sd_csv_path_pattern"@,
            "sd_csv_path_pattern must be a string"@,
        ) {
            Err(e) => Err(e),
            Ok(sd) => Ok((tt, sd)),
        },
    }
}

/// A path pattern the module must set, with its common placeholder replaced.
pub open spec fn required_pattern(
    global_config: GlobalConfig,
    field: Option<String>,
    missing_error: Seq<char>,
) -> Result<Seq<char>, Seq<char>> {
    match field {
        None => Err(missing_error),
        Some(p) => common_pattern_replaced(global_config.global_parameters@, p@),
    }
}

/// The swept values of `key` as shell arguments separated by spaces, with the
/// declaration that replaces the swept array by the single value `label`; or the error.
pub open spec fn seeds_of(config: Config, key: Seq<char>, label: Seq<char>, missing_error: Seq<char>) -> Result<
    (Seq<char>, Map<Seq<char>, Seq<char>>),
    Seq<char>,
> {
    if config.param_sweep@.contains_key(key) {
        match shell_atoms(config.param_sweep@[key]@) {
            Err(e) => Err(e),
            Ok(parts) => Ok(
                (
                    join(parts, " "@),
                    map![key => key + "=("@ + single_quoted(label) + ")"@],
                ),
            ),
        }
    } else {
        Err(missing_error)
    }
}

/// The seeds a plot averages over, and the sweep overwrite that runs the plot once
/// for all of them.
pub open spec fn seeds_selection(
    config: Config,
    which: SeedsToAvgOver,
    label: Seq<char>,
    rust_error: Seq<char>,
    java_error: Seq<char>,
) -> Result<(Seq<char>, Map<Seq<char>, Seq<char>>), Seq<char>> {
    match which {
        SeedsToAvgOver::RustSeeds => seeds_of(config, "rust_seeds"@, label, rust_error),
        SeedsToAvgOver::JavaSeedIndices => seeds_of(config, "java_seed_indices"@, label, java_error),
    }
}

/// The swept betas as shell arguments separated by spaces, or the error.
pub open spec fn betas_list(config: Config, missing_error: Seq<char>) -> Result<Seq<char>, Seq<char>> {
    if config.param_sweep@.contains_key("betas"@) {
        match shell_atoms(config.param_sweep@["betas"@]@) {
            Err(e) => Err(e),
            Ok(parts) => Ok(join(parts, " "@)),
        }
    } else {
        Err(missing_error)
    }
}

/// The travel time and summed departures csv path patterns of a module: its overwrites
/// or the experiment set's globals, with common placeholders replaced from the global
/// configuration.
fn get_tt_and_sd_csv_path_patterns(config: &Config, global_config: &GlobalConfig, module_overwrites: Option<&StrMap<YamlValue>>) -> (r: Result<
    (String, String),
    String,
>)
    ensures
        match r {
            Ok((tt, sd)) => tt_and_sd_patterns(overwrites_result(module_overwrites), *config, *global_config)
                == Ok::<(Seq<char>, Seq<char>), Seq<char>>((tt@, sd@)),
            Err(e) => tt_and_sd_patterns(overwrites_result(module_overwrites), *config, *global_config)
                == Err::<(Seq<char>, Seq<char>), Seq<char>>(e@),
        },
{
    let tt = match pattern_of(config, global_config, module_overwrites, "tt_csv_path_pattern", "tt_csv_path_pattern must be a string") {
        Ok(p) => p,
        Err(e) => return Err(e),
    };
    let sd = match pattern_of(config, global_config, module_overwrites, "sd_csv_path_pattern", "sd_csv_path_pattern must be a string") {
        Ok(p) => p,
        Err(e) => return Err(e),
    };
    Ok((tt, sd))
}

fn pattern_of(config: &Config, global_config: &GlobalConfig, module_overwrites: Option<&StrMap<YamlValue>>, name: &str, type_error: &str) -> (r: Result<String, String>)
    ensures
        text_result(r) == pattern_param(overwrites_result(module_overwrites), *config, *global_config, name@, type_error@),
{
    match expset_parameter_or_overwrite(module_overwrites, config, name) {
        Err(e) => Err(e),
        Ok(v) => match v.as_str() {
            None => Err(String::from_str(type_error)),
            Some(s) => global_config.replace_common_pattern(s.as_str()),
        },
    }
}

fn required_pattern_of(global_config: &GlobalConfig, field: &Option<String>, missing_error: &str) -> (r: Result<String, String>)
    ensures
        text_result(r) == required_pattern(*global_config, *field, missing_error@),
{
    match field {
        None => Err(String::from_str(missing_error)),
        Some(p) => global_config.replace_common_pattern(p.as_str()),
    }
}

fn seeds_from(config: &Config, key: &str, label: &str, missing_error: &str) -> (r: Result<(String, StrMap<String>), String>)
    ensures
        match r {
            Ok((seeds, ov)) => seeds_of(*config, key@, label@, missing_error@)
                == Ok::<(Seq<char>, Map<Seq<char>, Seq<char>>), Seq<char>>((seeds@, sweep_overwrites_view(Some(ov))->0)),
            Err(e) => seeds_of(*config, key@, label@, missing_error@)
                == Err::<(Seq<char>, Map<Seq<char>, Seq<char>>), Seq<char>>(e@),
        },
{
    match config.param_sweep.get(key) {
        None => Err(String::from_str(missing_error)),
        Some(vals) => match yaml_values_as_shell_atoms(vals) {
            Err(e) => Err(e),
            Ok(atoms) => {
                let seeds = join_strings(&atoms, " ");
                let mut decl = String::from_str(key);
                decl.append("=(");
                decl.append(shell_escape_single_quoted(label).as_str());
                decl.append(")");
                let ghost d = decl@;
                let mut ov: StrMap<String> = StrMap::new();
                ov.insert(String::from_str(key), decl);
                proof {
                    assert(ov@.map_values(|s: String| s@) =~= map![key@ => d]);
                }
                Ok((seeds, ov))
            },
        },
    }
}

fn seeds_selected(config: &Config, which: SeedsToAvgOver, label: &str, rust_error: &str, java_error: &str) -> (r: Result<(String, StrMap<String>), String>)
    ensures
        match r {
            Ok((seeds, ov)) => seeds_selection(*config, which, label@, rust_error@, java_error@)
                == Ok::<(Seq<char>, Map<Seq<char>, Seq<char>>), Seq<char>>((seeds@, sweep_overwrites_view(Some(ov))->0)),
            Err(e) => seeds_selection(*config, which, label@, rust_error@, java_error@)
                == Err::<(Seq<char>, Map<Seq<char>, Seq<char>>), Seq<char>>(e@),
        },
{
    match which {
        SeedsToAvgOver::RustSeeds => seeds_from(config, "rust_seeds", label, rust_error),
        SeedsToAvgOver::JavaSeedIndices => seeds_from(config, "java_seed_indices", label, java_error),
    }
}

fn betas_of(config: &Config, missing_error: &str) -> (r: Result<String, String>)
    ensures
        text_result(r) == betas_list(*config, missing_error@),
{
    match config.param_sweep.get("betas") {
        None => Err(String::from_str(missing_error)),
        Some(vals) => match yaml_values_as_shell_atoms(vals) {
            Err(e) => Err(e),
            Ok(atoms) => Ok(join_strings(&atoms, " ")),
        },
    }
}

/// `"true"` when an existing output directory is deleted, else `"false"`.
pub open spec fn delete_flag(mode: OverwriteFiles) -> Seq<char> {
    match mode {
        OverwriteFiles::DeleteDirectoryIfExists => "true"@,
        OverwriteFiles::Other => "false"@,
    }
}

fn delete_flag_of(mode: OverwriteFiles) -> (r: String)
    ensures
        r@ == delete_flag(mode),
{
    match mode {
        OverwriteFiles::DeleteDirectoryIfExists => String::from_str("true"),
        OverwriteFiles::Other => String::from_str("false"),
    }
}

/// Runs the Rust simulation on the Java output.
pub struct RunRustBasedOnJavaOutput {
    pub overwrite_mode: OverwriteFiles,
    pub overwrites: Option<StrMap<YamlValue>>,
}

impl Module for RunRustBasedOnJavaOutput {
    open spec fn overwrites_view(&self) -> Option<Map<Seq<char>, YamlValue>> {
        overwrites_of(self.overwrites)
    }

    open spec fn planned_run(&self, config: Config, global_config: GlobalConfig) -> Result<(Seq<char>, Seq<char>), Seq<char>> {
        cartprod_run(
            "run_experiment_case"@,
            "./experiments/compare_braess_to_java/runnable_modules/run_rust_based_on_java_output.sh"@,
            config,
            self.overwrites_view(),
            Some(seq![delete_flag(self.overwrite_mode)]),
            None,
        )
    }

    fn get_overwrites(&self) -> (r: Option<&StrMap<YamlValue>>) {
        overwrites_ref(&self.overwrites)
    }

    fn run(&self, config: &Config, global_config: &GlobalConfig) -> (r: Result<BashRun, String>) {
        let bash_function = BashFunction::new(
            "run_experiment_case",
            "./experiments/compare_braess_to_java/runnable_modules/run_rust_based_on_java_output.sh",
        );
        let flag = delete_flag_of(self.overwrite_mode);
        let ghost args = seq![flag@];
        let extra = vec![flag];
        proof {
            assert(texts(extra@) =~= args);
        }
        bash_function.script_for_cartprod(config, overwrites_ref(&self.overwrites), Some(extra), None)
    }
}

/// Runs one iteration of the Java simulation on the Java output.
pub struct RunJavaSingleIterBasedOnJavaOutput {
    pub overwrite_mode: OverwriteFiles,
    pub overwrites: Option<StrMap<YamlValue>>,
}

impl Module for RunJavaSingleIterBasedOnJavaOutput {
    open spec fn overwrites_view(&self) -> Option<Map<Seq<char>, YamlValue>> {
        overwrites_of(self.overwrites)
    }

    open spec fn planned_run(&self, config: Config, global_config: GlobalConfig) -> Result<(Seq<char>, Seq<char>), Seq<char>> {
        cartprod_run(
            "run_java_single_iter_case"@,
            "./experiments/compare_braess_to_java/runnable_modules/run_java_single_iter_based_on_java_output.sh"@,
            config,
            self.overwrites_view(),
            Some(seq![delete_flag(self.overwrite_mode)]),
            None,
        )
    }

    fn get_overwrites(&self) -> (r: Option<&StrMap<YamlValue>>) {
        overwrites_ref(&self.overwrites)
    }

    fn run(&self, config: &Config, global_config: &GlobalConfig) -> (r: Result<BashRun, String>) {
        let bash_function = BashFunction::new(
            "run_java_single_iter_case",
            "./experiments/compare_braess_to_java/runnable_modules/run_java_single_iter_based_on_java_output.sh",
        );
        let flag = delete_flag_of(self.overwrite_mode);
        let ghost args = seq![flag@];
        let extra = vec![flag];
        proof {
            assert(texts(extra@) =~= args);
        }
        bash_function.script_for_cartprod(config, overwrites_ref(&self.overwrites), Some(extra), None)
    }
}

/// Extracts travel times and summed departures from the event files.
pub struct ExtractMeasurementsFromEvents {
    pub input_file_stem_pattern: Option<String>,
    pub input_file_format: Option<String>,
    pub overwrites: Option<StrMap<YamlValue>>,
    pub num_parts: Option<usize>,
}

impl Module for ExtractMeasurementsFromEvents {
    open spec fn overwrites_view(&self) -> Option<Map<Seq<char>, YamlValue>> {
        overwrites_of(self.overwrites)
    }

    open spec fn planned_run(&self, config: Config, global_config: GlobalConfig) -> Result<(Seq<char>, Seq<char>), Seq<char>> {
        match tt_and_sd_patterns(self.overwrites_view(), config, global_config) {
            Err(e) => Err(e),
            Ok((tt, sd)) => match required_pattern(global_config, self.input_file_stem_pattern, "input_file_stem_pattern must be set"@) {
                Err(e) => Err(e),
                Ok(stem) => match self.input_file_format {
                    None => Err("input_file_format must be set"@),
                    Some(format) => match self.num_parts {
                        None => Err("num_parts must be set"@),
                        Some(n) =>
                            cartprod_run(
                                "extract_travel_time_sum_dep_case"@,
                                "./experiments/compare_braess_to_java/runnable_modules/extract_tt_and_sd_from_events.sh"@,
                                config,
                                self.overwrites_view(),
                                Some(seq![stem, format@, tt, sd, decimal(n as nat)]),
                                None,
                            ),
                    },
                },
            },
        }
    }

    fn get_overwrites(&self) -> (r: Option<&StrMap<YamlValue>>) {
        overwrites_ref(&self.overwrites)
    }

    fn run(&self, config: &Config, global_config: &GlobalConfig) -> (r: Result<BashRun, String>) {
        let (tt, sd) = match get_tt_and_sd_csv_path_patterns(config, global_config, overwrites_ref(&self.overwrites)) {
            Ok(p) => p,
            Err(e) => return Err(e),
        };
        let stem = match required_pattern_of(global_config, &self.input_file_stem_pattern, "input_file_stem_pattern must be set") {
            Ok(p) => p,
            Err(e) => return Err(e),
        };
        let format = match &self.input_file_format {
            Some(f) => f.clone(),
            None => return Err(String::from_str("input_file_format must be set")),
        };
        let parts = match self.num_parts {
            Some(n) => u64_text(n as u64),
            None => return Err(String::from_str("num_parts must be set")),
        };
        let bash_function = BashFunction::new(
            "extract_travel_time_sum_dep_case",
            "./experiments/compare_braess_to_java/runnable_modules/extract_tt_and_sd_from_events.sh",
        );
        let ghost args = seq![stem@, format@, tt@, sd@, parts@];
        let extra = vec![stem, format, tt, sd, parts];
        proof {
            assert(texts(extra@) =~= args);
        }
        bash_function.script_for_cartprod(config, overwrites_ref(&self.overwrites), Some(extra), None)
    }
}

/// Adds dummy coordinates to the activity events of event files.
pub struct AddDummyCoordinatesToEvents {
    pub input_file_pattern: Option<String>,
    pub output_file_pattern: Option<String>,
    pub overwrites: Option<StrMap<YamlValue>>,
}

impl Module for AddDummyCoordinatesToEvents {
    open spec fn overwrites_view(&self) -> Option<Map<Seq<char>, YamlValue>> {
        overwrites_of(self.overwrites)
    }

    open spec fn planned_run(&self, config: Config, global_config: GlobalConfig) -> Result<(Seq<char>, Seq<char>), Seq<char>> {
        match required_pattern(global_config, self.input_file_pattern, "input_file_stem_pattern must be set"@) {
            Err(e) => Err(e),
            Ok(input) => match required_pattern(global_config, self.output_file_pattern, "output_file_stem_pattern must be set"@) {
                Err(e) => Err(e),
                Ok(output) =>
                    cartprod_run(
                        "add_dummy_coordinates_case"@,
                        "./experiments/compare_braess_to_java/runnable_modules/add_dummy_coordinates_to_events.sh"@,
                        config,
                        self.overwrites_view(),
                        Some(seq![input, output]),
                        None,
                    ),
            },
        }
    }

    fn get_overwrites(&self) -> (r: Option<&StrMap<YamlValue>>) {
        overwrites_ref(&self.overwrites)
    }

    fn run(&self, config: &Config, global_config: &GlobalConfig) -> (r: Result<BashRun, String>) {
        let input = match required_pattern_of(global_config, &self.input_file_pattern, "input_file_stem_pattern must be set") {
            Ok(p) => p,
            Err(e) => return Err(e),
        };
        let output = match required_pattern_of(global_config, &self.output_file_pattern, "output_file_stem_pattern must be set") {
            Ok(p) => p,
            Err(e) => return Err(e),
        };
        let bash_function = BashFunction::new(
            "add_dummy_coordinates_case",
            "./experiments/compare_braess_to_java/runnable_modules/add_dummy_coordinates_to_events.sh",
        );
        let ghost args = seq![input@, output@];
        let extra = vec![input, output];
        proof {
            assert(texts(extra@) =~= args);
        }
        bash_function.script_for_cartprod(config, overwrites_ref(&self.overwrites), Some(extra), None)
    }
}

/// Replaces the activity times in the populations; runs once per combination of the
/// other parameters, whatever the Rust seeds.
pub struct ReplaceActivityTimesInPopulation {
    pub overwrites: Option<StrMap<YamlValue>>,
}

impl Module for ReplaceActivityTimesInPopulation {
    open spec fn overwrites_view(&self) -> Option<Map<Seq<char>, YamlValue>> {
        overwrites_of(self.overwrites)
    }

    open spec fn planned_run(&self, config: Config, global_config: GlobalConfig) -> Result<(Seq<char>, Seq<char>), Seq<char>> {
        cartprod_run(
            "replace_activity_times_case"@,
            "./experiments/compare_braess_to_java/runnable_modules/replace_activity_times.sh"@,
            config,
            self.overwrites_view(),
            None,
            Some(map!["rust_seeds"@ => "rust_seeds=(None)"@]),
        )
    }

    fn get_overwrites(&self) -> (r: Option<&StrMap<YamlValue>>) {
        overwrites_ref(&self.overwrites)
    }

    fn run(&self, config: &Config, global_config: &GlobalConfig) -> (r: Result<BashRun, String>) {
        let mut sweep_overwrites: StrMap<String> = StrMap::new();
        sweep_overwrites.insert(String::from_str("rust_seeds"), String::from_str("rust_seeds=(None)"));
        proof {
            assert(sweep_overwrites@.map_values(|s: String| s@) =~= map!["rust_seeds"@ => "rust_seeds=(None)"@]);
        }
        let bash_function = BashFunction::new(
            "replace_activity_times_case",
            "./experiments/compare_braess_to_java/runnable_modules/replace_activity_times.sh",
        );
        bash_function.script_for_cartprod(config, overwrites_ref(&self.overwrites), None, Some(sweep_overwrites))
    }
}

/// Plots travel times and summed departures per seed.
pub struct PlotTtAndSdPerSeed {
    pub overwrites: Option<StrMap<YamlValue>>,
}

impl Module for PlotTtAndSdPerSeed {
    open spec fn overwrites_view(&self) -> Option<Map<Seq<char>, YamlValue>> {
        overwrites_of(self.overwrites)
    }

    open spec fn planned_run(&self, config: Config, global_config: GlobalConfig) -> Result<(Seq<char>, Seq<char>), Seq<char>> {
        match tt_and_sd_patterns(self.overwrites_view(), config, global_config) {
            Err(e) => Err(e),
            Ok((tt, sd)) =>
                cartprod_run(
                    "plot_per_seed_case"@,
                    "./experiments/compare_braess_to_java/runnable_modules/plot_tt_and_sd_per_seed.sh"@,
                    config,
                    self.overwrites_view(),
                    Some(seq![tt, sd]),
                    None,
                ),
        }
    }

    fn get_overwrites(&self) -> (r: Option<&StrMap<YamlValue>>) {
        overwrites_ref(&self.overwrites)
    }

    fn run(&self, config: &Config, global_config: &GlobalConfig) -> (r: Result<BashRun, String>) {
        let (tt, sd) = match get_tt_and_sd_csv_path_patterns(config, global_config, overwrites_ref(&self.overwrites)) {
            Ok(p) => p,
            Err(e) => return Err(e),
        };
        let bash_function = BashFunction::new(
            "plot_per_seed_case",
            "./experiments/compare_braess_to_java/runnable_modules/plot_tt_and_sd_per_seed.sh",
        );
        let ghost args = seq![tt@, sd@];
        let extra = vec![tt, sd];
        proof {
            assert(texts(extra@) =~= args);
        }
        bash_function.script_for_cartprod(config, overwrites_ref(&self.overwrites), Some(extra), None)
    }
}

/// Plots the differences of travel times and summed departures to a second run, per
/// seed.
pub struct PlotTtAndSdDiffPerSeed {
    pub overwrites: Option<StrMap<YamlValue>>,
    pub secondary_input_tt_csv_path_pattern: Option<String>,
    pub secondary_input_sd_csv_path_pattern: Option<String>,
    pub minus_what: String,
}

impl Module for PlotTtAndSdDiffPerSeed {
    open spec fn overwrites_view(&self) -> Option<Map<Seq<char>, YamlValue>> {
        overwrites_of(self.overwrites)
    }

    open spec fn planned_run(&self, config: Config, global_config: GlobalConfig) -> Result<(Seq<char>, Seq<char>), Seq<char>> {
        match tt_and_sd_patterns(self.overwrites_view(), config, global_config) {
            Err(e) => Err(e),
            Ok((tt, sd)) => match required_pattern(global_config, self.secondary_input_tt_csv_path_pattern, "secondary_input_tt_csv_path_pattern must be set"@) {
                Err(e) => Err(e),
                Ok(sec_tt) => match required_pattern(global_config, self.secondary_input_sd_csv_path_pattern, "secondary_input_sd_csv_path_pattern must be set"@) {
                    Err(e) => Err(e),
                    Ok(sec_sd) =>
                        cartprod_run(
                            "plot_diff_per_seed_case"@,
                            "./experiments/compare_braess_to_java/runnable_modules/plot_tt_and_sd_diff_per_seed.sh"@,
                            config,
                            self.overwrites_view(),
                            Some(seq![tt, sd, sec_tt, sec_sd, self.minus_what@]),
                            None,
                        ),
                },
            },
        }
    }

    fn get_overwrites(&self) -> (r: Option<&StrMap<YamlValue>>) {
        overwrites_ref(&self.overwrites)
    }

    fn run(&self, config: &Config, global_config: &GlobalConfig) -> (r: Result<BashRun, String>) {
        let (tt, sd) = match get_tt_and_sd_csv_path_patterns(config, global_config, overwrites_ref(&self.overwrites)) {
            Ok(p) => p,
            Err(e) => return Err(e),
        };
        let sec_tt = match required_pattern_of(global_config, &self.secondary_input_tt_csv_path_pattern, "secondary_input_tt_csv_path_pattern must be set") {
            Ok(p) => p,
            Err(e) => return Err(e),
        };
        let sec_sd = match required_pattern_of(global_config, &self.secondary_input_sd_csv_path_pattern, "secondary_input_sd_csv_path_pattern must be set") {
            Ok(p) => p,
            Err(e) => return Err(e),
        };
        let bash_function = BashFunction::new(
            "plot_diff_per_seed_case",
            "./experiments/compare_braess_to_java/runnable_modules/plot_tt_and_sd_diff_per_seed.sh",
        );
        let ghost args = seq![tt@, sd@, sec_tt@, sec_sd@, self.minus_what@];
        let extra = vec![tt, sd, sec_tt, sec_sd, self.minus_what.clone()];
        proof {
            assert(texts(extra@) =~= args);
        }
        bash_function.script_for_cartprod(config, overwrites_ref(&self.overwrites), Some(extra), None)
    }
}

/// Plots travel times and summed departures averaged over seeds.
pub struct PlotTtAndSdAvgdOverSeeds {
    pub overwrites: Option<StrMap<YamlValue>>,
    pub seeds_to_avg_over: SeedsToAvgOver,
}

impl Module for PlotTtAndSdAvgdOverSeeds {
    open spec fn overwrites_view(&self) -> Option<Map<Seq<char>, YamlValue>> {
        overwrites_of(self.overwrites)
    }

    open spec fn planned_run(&self, config: Config, global_config: GlobalConfig) -> Result<(Seq<char>, Seq<char>), Seq<char>> {
        match tt_and_sd_patterns(self.overwrites_view(), config, global_config) {
            Err(e) => Err(e),
            Ok((tt, sd)) =>
                match seeds_selection(config, self.seeds_to_avg_over, "avg_over_all"@, "rust_seeds must be set in param_sweep for PlotTtAndSdAvgdOverSeeds module when averaging over rust seeds"@, "java_seed_indices must be set in param_sweep for PlotTtAndSdAvgdOverSeeds module when averaging over java seed indices"@) {
                    Err(e) => Err(e),
                    Ok((seeds, sweep)) =>
                        cartprod_run(
                            "plot_avgd_over_seeds_case"@,
                            "./experiments/compare_braess_to_java/runnable_modules/plot_tt_and_sd_avgd_over_seeds.sh"@,
                            config,
                            self.overwrites_view(),
                            Some(seq![tt, sd, seeds]),
                            Some(sweep),
                        ),
                },
        }
    }

    fn get_overwrites(&self) -> (r: Option<&StrMap<YamlValue>>) {
        overwrites_ref(&self.overwrites)
    }

    fn run(&self, config: &Config, global_config: &GlobalConfig) -> (r: Result<BashRun, String>) {
        let (tt, sd) = match get_tt_and_sd_csv_path_patterns(config, global_config, overwrites_ref(&self.overwrites)) {
            Ok(p) => p,
            Err(e) => return Err(e),
        };
        let (seeds, sweep_overwrites) = match seeds_selected(
            config,
            self.seeds_to_avg_over,
            "avg_over_all",
            "rust_seeds must be set in param_sweep for PlotTtAndSdAvgdOverSeeds module when averaging over rust seeds",
            "java_seed_indices must be set in param_sweep for PlotTtAndSdAvgdOverSeeds module when averaging over java seed indices",
        ) {
            Ok(x) => x,
            Err(e) => return Err(e),
        };
        let bash_function = BashFunction::new(
            "plot_avgd_over_seeds_case",
            "./experiments/compare_braess_to_java/runnable_modules/plot_tt_and_sd_avgd_over_seeds.sh",
        );
        let ghost args = seq![tt@, sd@, seeds@];
        let extra = vec![tt, sd, seeds];
        proof {
            assert(texts(extra@) =~= args);
        }
        bash_function.script_for_cartprod(config, overwrites_ref(&self.overwrites), Some(extra), Some(sweep_overwrites))
    }
}

/// Plots the differences of seed-averaged travel times and summed departures to a
/// second run.
pub struct PlotTtAndSdAvgdOverSeedsDiff {
    pub overwrites: Option<StrMap<YamlValue>>,
    pub secondary_input_tt_csv_path_pattern: Option<String>,
    pub secondary_input_sd_csv_path_pattern: Option<String>,
    pub seeds_to_avg_over: SeedsToAvgOver,
    pub minus_what: String,
}

impl Module for PlotTtAndSdAvgdOverSeedsDiff {
    open spec fn overwrites_view(&self) -> Option<Map<Seq<char>, YamlValue>> {
        overwrites_of(self.overwrites)
    }

    open spec fn planned_run(&self, config: Config, global_config: GlobalConfig) -> Result<(Seq<char>, Seq<char>), Seq<char>> {
        match tt_and_sd_patterns(self.overwrites_view(), config, global_config) {
            Err(e) => Err(e),
            Ok((tt, sd)) =>
                match required_pattern(global_config, self.secondary_input_tt_csv_path_pattern, "secondary_input_tt_csv_path_pattern must be set"@) {
                    Err(e) => Err(e),
                    Ok(sec_tt) =>
                        match required_pattern(global_config, self.secondary_input_sd_csv_path_pattern, "secondary_input_sd_csv_path_pattern must be set"@) {
                            Err(e) => Err(e),
                            Ok(sec_sd) =>
                                match seeds_selection(config, self.seeds_to_avg_over, "avg_over_all"@, "rust_seeds must be set in param_sweep for PlotTtAndSdAvgdOverSeeds module when averaging over rust seeds"@, "java_seed_indices must be set in param_sweep for PlotTtAndSdAvgdOverSeeds module when averaging over java seed indices"@) {
                                    Err(e) => Err(e),
                                    Ok((seeds, sweep)) =>
                                        cartprod_run(
                                            "plot_avgd_over_seeds_diff_case"@,
                                            "./experiments/compare_braess_to_java/runnable_modules/plot_tt_and_sd_avgd_over_seeds_diff.sh"@,
                                            config,
                                            self.overwrites_view(),
                                            Some(seq![tt, sd, sec_tt, sec_sd, seeds, self.minus_what@]),
                                            Some(sweep),
                                        ),
                                },
                        },
                },
        }
    }

    fn get_overwrites(&self) -> (r: Option<&StrMap<YamlValue>>) {
        overwrites_ref(&self.overwrites)
    }

    fn run(&self, config: &Config, global_config: &GlobalConfig) -> (r: Result<BashRun, String>) {
        let (tt, sd) = match get_tt_and_sd_csv_path_patterns(config, global_config, overwrites_ref(&self.overwrites)) {
            Ok(p) => p,
            Err(e) => return Err(e),
        };
        let sec_tt = match required_pattern_of(global_config, &self.secondary_input_tt_csv_path_pattern, "secondary_input_tt_csv_path_pattern must be set") {
            Ok(p) => p,
            Err(e) => return Err(e),
        };
        let sec_sd = match required_pattern_of(global_config, &self.secondary_input_sd_csv_path_pattern, "secondary_input_sd_csv_path_pattern must be set") {
            Ok(p) => p,
            Err(e) => return Err(e),
        };
        let (seeds, sweep_overwrites) = match seeds_selected(
            config,
            self.seeds_to_avg_over,
            "avg_over_all",
            "rust_seeds must be set in param_sweep for PlotTtAndSdAvgdOverSeeds module when averaging over rust seeds",
            "java_seed_indices must be set in param_sweep for PlotTtAndSdAvgdOverSeeds module when averaging over java seed indices",
        ) {
            Ok(x) => x,
            Err(e) => return Err(e),
        };
        let bash_function = BashFunction::new(
            "plot_avgd_over_seeds_diff_case",
            "./experiments/compare_braess_to_java/runnable_modules/plot_tt_and_sd_avgd_over_seeds_diff.sh",
        );
        let ghost args = seq![tt@, sd@, sec_tt@, sec_sd@, seeds@, self.minus_what@];
        let extra = vec![tt, sd, sec_tt, sec_sd, seeds, self.minus_what.clone()];
        proof {
            assert(texts(extra@) =~= args);
        }
        bash_function.script_for_cartprod(config, overwrites_ref(&self.overwrites), Some(extra), Some(sweep_overwrites))
    }
}

/// Box plots over beta of the deviations of travel times and summed departures from
/// the Nash equilibrium.
pub struct PlotTtAndSdDeviationToNashBoxplotsOverBeta {
    pub overwrites: Option<StrMap<YamlValue>>,
    pub seeds_to_avg_over: SeedsToAvgOver,
}

impl Module for PlotTtAndSdDeviationToNashBoxplotsOverBeta {
    open spec fn overwrites_view(&self) -> Option<Map<Seq<char>, YamlValue>> {
        overwrites_of(self.overwrites)
    }

    open spec fn planned_run(&self, config: Config, global_config: GlobalConfig) -> Result<(Seq<char>, Seq<char>), Seq<char>> {
        match tt_and_sd_patterns(self.overwrites_view(), config, global_config) {
            Err(e) => Err(e),
            Ok((tt, sd)) =>
                match seeds_selection(config, self.seeds_to_avg_over, "avg_over_all"@, "rust_seeds must be set in param_sweep for PlotTtAndSdAvgdOverSeeds module when averaging over rust seeds"@, "java_seed_indices must be set in param_sweep for PlotTtAndSdAvgdOverSeeds module when averaging over java seed indices"@) {
                    Err(e) => Err(e),
                    Ok((seeds, sweep)) =>
                        match betas_list(config, "betas must be set in param_sweep for PlotTtAndSdDeviationScatterplotsOverBeta module"@) {
                            Err(e) => Err(e),
                            Ok(betas) =>
                                cartprod_run(
                                    "plot_deviation_boxplots_over_beta_case"@,
                                    "./experiments/compare_braess_to_java/runnable_modules/plot_tt_and_sd_avg_deviations_to_nash_over_beta.sh"@,
                                    config,
                                    self.overwrites_view(),
                                    Some(seq![tt, sd, seeds, betas]),
                                    Some(sweep.insert("betas"@, "betas=(use_all)"@)),
                                ),
                        },
                },
        }
    }

    fn get_overwrites(&self) -> (r: Option<&StrMap<YamlValue>>) {
        overwrites_ref(&self.overwrites)
    }

    fn run(&self, config: &Config, global_config: &GlobalConfig) -> (r: Result<BashRun, String>) {
        let (tt, sd) = match get_tt_and_sd_csv_path_patterns(config, global_config, overwrites_ref(&self.overwrites)) {
            Ok(p) => p,
            Err(e) => return Err(e),
        };
        let (seeds, mut sweep_overwrites) = match seeds_selected(
            config,
            self.seeds_to_avg_over,
            "avg_over_all",
            "rust_seeds must be set in param_sweep for PlotTtAndSdAvgdOverSeeds module when averaging over rust seeds",
            "java_seed_indices must be set in param_sweep for PlotTtAndSdAvgdOverSeeds module when averaging over java seed indices",
        ) {
            Ok(x) => x,
            Err(e) => return Err(e),
        };
        sweep_overwrites.insert(String::from_str("betas"), String::from_str("betas=(use_all)"));
        let betas = match betas_of(config, "betas must be set in param_sweep for PlotTtAndSdDeviationScatterplotsOverBeta module") {
            Ok(b) => b,
            Err(e) => return Err(e),
        };
        let bash_function = BashFunction::new(
            "plot_deviation_boxplots_over_beta_case",
            "./experiments/compare_braess_to_java/runnable_modules/plot_tt_and_sd_avg_deviations_to_nash_over_beta.sh",
        );
        let ghost args = seq![tt@, sd@, seeds@, betas@];
        let extra = vec![tt, sd, seeds, betas];
        proof {
            assert(texts(extra@) =~= args);
        }
        bash_function.script_for_cartprod(config, overwrites_ref(&self.overwrites), Some(extra), Some(sweep_overwrites))
    }
}

/// Scatter plots over beta of the deviations of travel times and summed departures
/// from the Nash equilibrium.
pub struct PlotTtAndSdDeviationToNashScatterplotsOverBeta {
    pub overwrites: Option<StrMap<YamlValue>>,
    pub seeds_to_avg_over: SeedsToAvgOver,
}

impl Module for PlotTtAndSdDeviationToNashScatterplotsOverBeta {
    open spec fn overwrites_view(&self) -> Option<Map<Seq<char>, YamlValue>> {
        overwrites_of(self.overwrites)
    }

    open spec fn planned_run(&self, config: Config, global_config: GlobalConfig) -> Result<(Seq<char>, Seq<char>), Seq<char>> {
        match tt_and_sd_patterns(self.overwrites_view(), config, global_config) {
            Err(e) => Err(e),
            Ok((tt, sd)) =>
                match seeds_selection(config, self.seeds_to_avg_over, "avg_over_all"@, "rust_seeds must be set in param_sweep for PlotTtAndSdAvgdOverSeeds module when averaging over rust seeds"@, "java_seed_indices must be set in param_sweep for PlotTtAndSdAvgdOverSeeds module when averaging over java seed indices"@) {
                    Err(e) => Err(e),
                    Ok((seeds, sweep)) =>
                        match betas_list(config, "betas must be set in param_sweep for PlotTtAndSdDeviationScatterplotsOverBeta module"@) {
                            Err(e) => Err(e),
                            Ok(betas) =>
                                cartprod_run(
                                    "plot_deviation_scatterplots_over_beta_case"@,
                                    "./experiments/compare_braess_to_java/runnable_modules/plot_tt_and_sd_avg_deviations_to_nash_over_beta.sh"@,
                                    config,
                                    self.overwrites_view(),
                                    Some(seq![tt, sd, seeds, betas]),
                                    Some(sweep.insert("betas"@, "betas=(use_all)"@)),
                                ),
                        },
                },
        }
    }

    fn get_overwrites(&self) -> (r: Option<&StrMap<YamlValue>>) {
        overwrites_ref(&self.overwrites)
    }

    fn run(&self, config: &Config, global_config: &GlobalConfig) -> (r: Result<BashRun, String>) {
        let (tt, sd) = match get_tt_and_sd_csv_path_patterns(config, global_config, overwrites_ref(&self.overwrites)) {
            Ok(p) => p,
            Err(e) => return Err(e),
        };
        let (seeds, mut sweep_overwrites) = match seeds_selected(
            config,
            self.seeds_to_avg_over,
            "avg_over_all",
            "rust_seeds must be set in param_sweep for PlotTtAndSdAvgdOverSeeds module when averaging over rust seeds",
            "java_seed_indices must be set in param_sweep for PlotTtAndSdAvgdOverSeeds module when averaging over java seed indices",
        ) {
            Ok(x) => x,
            Err(e) => return Err(e),
        };
        sweep_overwrites.insert(String::from_str("betas"), String::from_str("betas=(use_all)"));
        let betas = match betas_of(config, "betas must be set in param_sweep for PlotTtAndSdDeviationScatterplotsOverBeta module") {
            Ok(b) => b,
            Err(e) => return Err(e),
        };
        let bash_function = BashFunction::new(
            "plot_deviation_scatterplots_over_beta_case",
            "./experiments/compare_braess_to_java/runnable_modules/plot_tt_and_sd_avg_deviations_to_nash_over_beta.sh",
        );
        let ghost args = seq![tt@, sd@, seeds@, betas@];
        let extra = vec![tt, sd, seeds, betas];
        proof {
            assert(texts(extra@) =~= args);
        }
        bash_function.script_for_cartprod(config, overwrites_ref(&self.overwrites), Some(extra), Some(sweep_overwrites))
    }
}

/// Box plots over beta of the deviations of travel times and summed departures from
/// a second run.
pub struct PlotTtAndSdDeviationToDiffRunBoxplotsOverBeta {
    pub overwrites: Option<StrMap<YamlValue>>,
    pub secondary_input_tt_csv_path_pattern: Option<String>,
    pub secondary_input_sd_csv_path_pattern: Option<String>,
    pub seeds_to_avg_over: SeedsToAvgOver,
    pub which_deviation: String,
}

impl Module for PlotTtAndSdDeviationToDiffRunBoxplotsOverBeta {
    open spec fn overwrites_view(&self) -> Option<Map<Seq<char>, YamlValue>> {
        overwrites_of(self.overwrites)
    }

    open spec fn planned_run(&self, config: Config, global_config: GlobalConfig) -> Result<(Seq<char>, Seq<char>), Seq<char>> {
        match tt_and_sd_patterns(self.overwrites_view(), config, global_config) {
            Err(e) => Err(e),
            Ok((tt, sd)) =>
                match required_pattern(global_config, self.secondary_input_tt_csv_path_pattern, "secondary_input_tt_csv_path_pattern must be set"@) {
                    Err(e) => Err(e),
                    Ok(sec_tt) =>
                        match required_pattern(global_config, self.secondary_input_sd_csv_path_pattern, "secondary_input_sd_csv_path_pattern must be set"@) {
                            Err(e) => Err(e),
                            Ok(sec_sd) =>
                                match seeds_selection(config, self.seeds_to_avg_over, "use_all"@, "rust_seeds must be set in param_sweep for PlotTtAndSdDeviationToDiffRunBoxplotsOverBeta module when averaging over rust seeds"@, "java_seed_indices must be set in param_sweep for PlotTtAndSdDeviationToDiffRunBoxplotsOverBeta module when averaging over java seed indices"@) {
                                    Err(e) => Err(e),
                                    Ok((seeds, sweep)) =>
                                        match betas_list(config, "betas must be set in param_sweep for PlotTtAndSdDeviationToDiffRUnBoxplotsOverBeta module"@) {
                                            Err(e) => Err(e),
                                            Ok(betas) =>
                                                cartprod_run(
                                                    "plot_deviation_boxplots_to_diff_run_over_beta_case"@,
                                                    "./experiments/compare_braess_to_java/runnable_modules/plot_tt_and_sd_avg_deviations_to_diff_run_over_beta.sh"@,
                                                    config,
                                                    self.overwrites_view(),
                                                    Some(seq![tt, sd, sec_tt, sec_sd, seeds, betas, self.which_deviation@]),
                                                    Some(sweep.insert("betas"@, "betas=(use_all)"@)),
                                                ),
                                        },
                                },
                        },
                },
        }
    }

    fn get_overwrites(&self) -> (r: Option<&StrMap<YamlValue>>) {
        overwrites_ref(&self.overwrites)
    }

    fn run(&self, config: &Config, global_config: &GlobalConfig) -> (r: Result<BashRun, String>) {
        let (tt, sd) = match get_tt_and_sd_csv_path_patterns(config, global_config, overwrites_ref(&self.overwrites)) {
            Ok(p) => p,
            Err(e) => return Err(e),
        };
        let sec_tt = match required_pattern_of(global_config, &self.secondary_input_tt_csv_path_pattern, "secondary_input_tt_csv_path_pattern must be set") {
            Ok(p) => p,
            Err(e) => return Err(e),
        };
        let sec_sd = match required_pattern_of(global_config, &self.secondary_input_sd_csv_path_pattern, "secondary_input_sd_csv_path_pattern must be set") {
            Ok(p) => p,
            Err(e) => return Err(e),
        };
        let (seeds, mut sweep_overwrites) = match seeds_selected(
            config,
            self.seeds_to_avg_over,
            "use_all",
            "rust_seeds must be set in param_sweep for PlotTtAndSdDeviationToDiffRunBoxplotsOverBeta module when averaging over rust seeds",
            "java_seed_indices must be set in param_sweep for PlotTtAndSdDeviationToDiffRunBoxplotsOverBeta module when averaging over java seed indices",
        ) {
            Ok(x) => x,
            Err(e) => return Err(e),
        };
        sweep_overwrites.insert(String::from_str("betas"), String::from_str("betas=(use_all)"));
        let betas = match betas_of(config, "betas must be set in param_sweep for PlotTtAndSdDeviationToDiffRUnBoxplotsOverBeta module") {
            Ok(b) => b,
            Err(e) => return Err(e),
        };
        let bash_function = BashFunction::new(
            "plot_deviation_boxplots_to_diff_run_over_beta_case",
            "./experiments/compare_braess_to_java/runnable_modules/plot_tt_and_sd_avg_deviations_to_diff_run_over_beta.sh",
        );
        let ghost args = seq![tt@, sd@, sec_tt@, sec_sd@, seeds@, betas@, self.which_deviation@];
        let extra = vec![tt, sd, sec_tt, sec_sd, seeds, betas, self.which_deviation.clone()];
        proof {
            assert(texts(extra@) =~= args);
        }
        bash_function.script_for_cartprod(config, overwrites_ref(&self.overwrites), Some(extra), Some(sweep_overwrites))
    }
}

/// Scatter plots over beta of the deviations of travel times and summed departures
/// from a second run.
pub struct PlotTtAndSdDeviationToDiffRunScatterplotsOverBeta {
    pub overwrites: Option<StrMap<YamlValue>>,
    pub secondary_input_tt_csv_path_pattern: Option<String>,
    pub secondary_input_sd_csv_path_pattern: Option<String>,
    pub seeds_to_avg_over: SeedsToAvgOver,
    pub which_deviation: String,
}

impl Module for PlotTtAndSdDeviationToDiffRunScatterplotsOverBeta {
    open spec fn overwrites_view(&self) -> Option<Map<Seq<char>, YamlValue>> {
        overwrites_of(self.overwrites)
    }

    open spec fn planned_run(&self, config: Config, global_config: GlobalConfig) -> Result<(Seq<char>, Seq<char>), Seq<char>> {
        match tt_and_sd_patterns(self.overwrites_view(), config, global_config) {
            Err(e) => Err(e),
            Ok((tt, sd)) =>
                match required_pattern(global_config, self.secondary_input_tt_csv_path_pattern, "secondary_input_tt_csv_path_pattern must be set"@) {
                    Err(e) => Err(e),
                    Ok(sec_tt) =>
                        match required_pattern(global_config, self.secondary_input_sd_csv_path_pattern, "secondary_input_sd_csv_path_pattern must be set"@) {
                            Err(e) => Err(e),
                            Ok(sec_sd) =>
                                match seeds_selection(config, self.seeds_to_avg_over, "use_all"@, "rust_seeds must be set in param_sweep for PlotTtAndSdDeviationToDiffRunScatterplotsOverBeta module when averaging over rust seeds"@, "java_seed_indices must be set in param_sweep for PlotTtAndSdDeviationToDiffRunScatterplotsOverBeta module when averaging over java seed indices"@) {
                                    Err(e) => Err(e),
                                    Ok((seeds, sweep)) =>
                                        match betas_list(config, "betas must be set in param_sweep for PlotTtAndSdDeviationToDiffRunScatterplotsOverBeta module"@) {
                                            Err(e) => Err(e),
                                            Ok(betas) =>
                                                cartprod_run(
                                                    "plot_deviation_scatterplots_to_diff_run_over_beta_case"@,
                                                    "./experiments/compare_braess_to_java/runnable_modules/plot_tt_and_sd_avg_deviations_to_diff_run_over_beta.sh"@,
                                                    config,
                                                    self.overwrites_view(),
                                                    Some(seq![tt, sd, sec_tt, sec_sd, seeds, betas, self.which_deviation@]),
                                                    Some(sweep.insert("betas"@, "betas=(use_all)"@)),
                                                ),
                                        },
                                },
                        },
                },
        }
    }

    fn get_overwrites(&self) -> (r: Option<&StrMap<YamlValue>>) {
        overwrites_ref(&self.overwrites)
    }

    fn run(&self, config: &Config, global_config: &GlobalConfig) -> (r: Result<BashRun, String>) {
        let (tt, sd) = match get_tt_and_sd_csv_path_patterns(config, global_config, overwrites_ref(&self.overwrites)) {
            Ok(p) => p,
            Err(e) => return Err(e),
        };
        let sec_tt = match required_pattern_of(global_config, &self.secondary_input_tt_csv_path_pattern, "secondary_input_tt_csv_path_pattern must be set") {
            Ok(p) => p,
            Err(e) => return Err(e),
        };
        let sec_sd = match required_pattern_of(global_config, &self.secondary_input_sd_csv_path_pattern, "secondary_input_sd_csv_path_pattern must be set") {
            Ok(p) => p,
            Err(e) => return Err(e),
        };
        let (seeds, mut sweep_overwrites) = match seeds_selected(
            config,
            self.seeds_to_avg_over,
            "use_all",
            "rust_seeds must be set in param_sweep for PlotTtAndSdDeviationToDiffRunScatterplotsOverBeta module when averaging over rust seeds",
            "java_seed_indices must be set in param_sweep for PlotTtAndSdDeviationToDiffRunScatterplotsOverBeta module when averaging over java seed indices",
        ) {
            Ok(x) => x,
            Err(e) => return Err(e),
        };
        sweep_overwrites.insert(String::from_str("betas"), String::from_str("betas=(use_all)"));
        let betas = match betas_of(config, "betas must be set in param_sweep for PlotTtAndSdDeviationToDiffRunScatterplotsOverBeta module") {
            Ok(b) => b,
            Err(e) => return Err(e),
        };
        let bash_function = BashFunction::new(
            "plot_deviation_scatterplots_to_diff_run_over_beta_case",
            "./experiments/compare_braess_to_java/runnable_modules/plot_tt_and_sd_avg_deviations_to_diff_run_over_beta.sh",
        );
        let ghost args = seq![tt@, sd@, sec_tt@, sec_sd@, seeds@, betas@, self.which_deviation@];
        let extra = vec![tt, sd, sec_tt, sec_sd, seeds, betas, self.which_deviation.clone()];
        proof {
            assert(texts(extra@) =~= args);
        }
        bash_function.script_for_cartprod(config, overwrites_ref(&self.overwrites), Some(extra), Some(sweep_overwrites))
    }
}

/// Reformats the measurements extracted in the original Java runs into the csv files
/// of this project; runs once per combination of the other parameters, whatever the
/// Rust seeds.
pub struct ReformatOriginalExtractedMeasurements {
    pub original_tt_tsv_file_pattern: Option<String>,
    pub original_sd_tsv_file_pattern: Option<String>,
    pub overwrites: Option<StrMap<YamlValue>>,
}

impl Module for ReformatOriginalExtractedMeasurements {
    open spec fn overwrites_view(&self) -> Option<Map<Seq<char>, YamlValue>> {
        overwrites_of(self.overwrites)
    }

    open spec fn planned_run(&self, config: Config, global_config: GlobalConfig) -> Result<(Seq<char>, Seq<char>), Seq<char>> {
        match tt_and_sd_patterns(self.overwrites_view(), config, global_config) {
            Err(e) => Err(e),
            Ok((tt, sd)) =>
                match required_pattern(global_config, self.original_tt_tsv_file_pattern, "original_tt_tsv_file_pattern must be set"@) {
                    Err(e) => Err(e),
                    Ok(orig_tt) =>
                        match required_pattern(global_config, self.original_sd_tsv_file_pattern, "original_sd_tsv_file_pattern must be set"@) {
                            Err(e) => Err(e),
                            Ok(orig_sd) =>
                                cartprod_run(
                                    "reformat_original_java_extracted_measurements_case"@,
                                    "./experiments/compare_braess_to_java/runnable_modules/reformat_original_measurements.sh"@,
                                    config,
                                    self.overwrites_view(),
                                    Some(seq![orig_tt, orig_sd, tt, sd]),
                                    Some(map!["rust_seeds"@ => "rust_seeds=(None)"@]),
                                ),
                        },
                },
        }
    }

    fn get_overwrites(&self) -> (r: Option<&StrMap<YamlValue>>) {
        overwrites_ref(&self.overwrites)
    }

    fn run(&self, config: &Config, global_config: &GlobalConfig) -> (r: Result<BashRun, String>) {
        let (tt, sd) = match get_tt_and_sd_csv_path_patterns(config, global_config, overwrites_ref(&self.overwrites)) {
            Ok(p) => p,
            Err(e) => return Err(e),
        };
        let orig_tt = match required_pattern_of(global_config, &self.original_tt_tsv_file_pattern, "original_tt_tsv_file_pattern must be set") {
            Ok(p) => p,
            Err(e) => return Err(e),
        };
        let orig_sd = match required_pattern_of(global_config, &self.original_sd_tsv_file_pattern, "original_sd_tsv_file_pattern must be set") {
            Ok(p) => p,
            Err(e) => return Err(e),
        };
        let mut sweep_overwrites: StrMap<String> = StrMap::new();
        sweep_overwrites.insert(String::from_str("rust_seeds"), String::from_str("rust_seeds=(None)"));
        proof {
            assert(sweep_overwrites@.map_values(|s: String| s@) =~= map!["rust_seeds"@ => "rust_seeds=(None)"@]);
        }
        let bash_function = BashFunction::new(
            "reformat_original_java_extracted_measurements_case",
            "./experiments/compare_braess_to_java/runnable_modules/reformat_original_measurements.sh",
        );
        let ghost args = seq![orig_tt@, orig_sd@, tt@, sd@];
        let extra = vec![orig_tt, orig_sd, tt, sd];
        proof {
            assert(texts(extra@) =~= args);
        }
        bash_function.script_for_cartprod(config, overwrites_ref(&self.overwrites), Some(extra), Some(sweep_overwrites))
    }
}

/// The experiment set's modules, in the order they run.
pub enum ModuleConfig {
    RunRustBasedOnJavaOutput(RunRustBasedOnJavaOutput),
    RunJavaSingleIterBasedOnJavaOutput(RunJavaSingleIterBasedOnJavaOutput),
    ExtractMeasurementsFromEvents(ExtractMeasurementsFromEvents),
    AddDummyCoordinatesToEvents(AddDummyCoordinatesToEvents),
    ReplaceActivityTimesInPopulation(ReplaceActivityTimesInPopulation),
    PlotTtAndSdPerSeed(PlotTtAndSdPerSeed),
    PlotTtAndSdDiffPerSeed(PlotTtAndSdDiffPerSeed),
    PlotTtAndSdAvgdOverSeeds(PlotTtAndSdAvgdOverSeeds),
    PlotTtAndSdAvgdOverSeedsDiff(PlotTtAndSdAvgdOverSeedsDiff),
    PlotTtAndSdDeviationToNashBoxplotsOverBeta(PlotTtAndSdDeviationToNashBoxplotsOverBeta),
    PlotTtAndSdDeviationToNashScatterplotsOverBeta(PlotTtAndSdDeviationToNashScatterplotsOverBeta),
    PlotTtAndSdDeviationToDiffRunBoxplotsOverBeta(PlotTtAndSdDeviationToDiffRunBoxplotsOverBeta),
    PlotTtAndSdDeviationToDiffRunScatterplotsOverBeta(PlotTtAndSdDeviationToDiffRunScatterplotsOverBeta),
    ReformatOriginalExtractedMeasurements(ReformatOriginalExtractedMeasurements),
}

impl ModuleConfig {
    /// The function and script the module runs for the given configuration, or the
    /// error that stops it.
    pub open spec fn planned_run(self, config: Config, global_config: GlobalConfig) -> Result<
        (Seq<char>, Seq<char>),
        Seq<char>,
    > {
        match self {
            ModuleConfig::RunRustBasedOnJavaOutput(m) => m.planned_run(config, global_config),
            ModuleConfig::RunJavaSingleIterBasedOnJavaOutput(m) => m.planned_run(config, global_config),
            ModuleConfig::ExtractMeasurementsFromEvents(m) => m.planned_run(config, global_config),
            ModuleConfig::AddDummyCoordinatesToEvents(m) => m.planned_run(config, global_config),
            ModuleConfig::ReplaceActivityTimesInPopulation(m) => m.planned_run(config, global_config),
            ModuleConfig::PlotTtAndSdPerSeed(m) => m.planned_run(config, global_config),
            ModuleConfig::PlotTtAndSdDiffPerSeed(m) => m.planned_run(config, global_config),
            ModuleConfig::PlotTtAndSdAvgdOverSeeds(m) => m.planned_run(config, global_config),
            ModuleConfig::PlotTtAndSdAvgdOverSeedsDiff(m) => m.planned_run(config, global_config),
            ModuleConfig::PlotTtAndSdDeviationToNashBoxplotsOverBeta(m) => m.planned_run(config, global_config),
            ModuleConfig::PlotTtAndSdDeviationToNashScatterplotsOverBeta(m) => m.planned_run(config, global_config),
            ModuleConfig::PlotTtAndSdDeviationToDiffRunBoxplotsOverBeta(m) => m.planned_run(config, global_config),
            ModuleConfig::PlotTtAndSdDeviationToDiffRunScatterplotsOverBeta(m) => m.planned_run(config, global_config),
            ModuleConfig::ReformatOriginalExtractedMeasurements(m) => m.planned_run(config, global_config),
        }
    }

    /// The module's overwrites of the experiment set's global parameters.
    pub open spec fn overwrites_view(self) -> Option<Map<Seq<char>, YamlValue>> {
        match self {
            ModuleConfig::RunRustBasedOnJavaOutput(m) => m.overwrites_view(),
            ModuleConfig::RunJavaSingleIterBasedOnJavaOutput(m) => m.overwrites_view(),
            ModuleConfig::ExtractMeasurementsFromEvents(m) => m.overwrites_view(),
            ModuleConfig::AddDummyCoordinatesToEvents(m) => m.overwrites_view(),
            ModuleConfig::ReplaceActivityTimesInPopulation(m) => m.overwrites_view(),
            ModuleConfig::PlotTtAndSdPerSeed(m) => m.overwrites_view(),
            ModuleConfig::PlotTtAndSdDiffPerSeed(m) => m.overwrites_view(),
            ModuleConfig::PlotTtAndSdAvgdOverSeeds(m) => m.overwrites_view(),
            ModuleConfig::PlotTtAndSdAvgdOverSeedsDiff(m) => m.overwrites_view(),
            ModuleConfig::PlotTtAndSdDeviationToNashBoxplotsOverBeta(m) => m.overwrites_view(),
            ModuleConfig::PlotTtAndSdDeviationToNashScatterplotsOverBeta(m) => m.overwrites_view(),
            ModuleConfig::PlotTtAndSdDeviationToDiffRunBoxplotsOverBeta(m) => m.overwrites_view(),
            ModuleConfig::PlotTtAndSdDeviationToDiffRunScatterplotsOverBeta(m) => m.overwrites_view(),
            ModuleConfig::ReformatOriginalExtractedMeasurements(m) => m.overwrites_view(),
        }
    }

    /// The function and script the module runs.
    pub fn run(&self, config: &Config, global_config: &GlobalConfig) -> (r: Result<BashRun, String>)
        ensures
            run_result(r) == self.planned_run(*config, *global_config),
    {
        match self {
            ModuleConfig::RunRustBasedOnJavaOutput(m) => m.run(config, global_config),
            ModuleConfig::RunJavaSingleIterBasedOnJavaOutput(m) => m.run(config, global_config),
            ModuleConfig::ExtractMeasurementsFromEvents(m) => m.run(config, global_config),
            ModuleConfig::AddDummyCoordinatesToEvents(m) => m.run(config, global_config),
            ModuleConfig::ReplaceActivityTimesInPopulation(m) => m.run(config, global_config),
            ModuleConfig::PlotTtAndSdPerSeed(m) => m.run(config, global_config),
            ModuleConfig::PlotTtAndSdDiffPerSeed(m) => m.run(config, global_config),
            ModuleConfig::PlotTtAndSdAvgdOverSeeds(m) => m.run(config, global_config),
            ModuleConfig::PlotTtAndSdAvgdOverSeedsDiff(m) => m.run(config, global_config),
            ModuleConfig::PlotTtAndSdDeviationToNashBoxplotsOverBeta(m) => m.run(config, global_config),
            ModuleConfig::PlotTtAndSdDeviationToNashScatterplotsOverBeta(m) => m.run(config, global_config),
            ModuleConfig::PlotTtAndSdDeviationToDiffRunBoxplotsOverBeta(m) => m.run(config, global_config),
            ModuleConfig::PlotTtAndSdDeviationToDiffRunScatterplotsOverBeta(m) => m.run(config, global_config),
            ModuleConfig::ReformatOriginalExtractedMeasurements(m) => m.run(config, global_config),
        }
    }

    /// The module's overwrites of the experiment set's global parameters.
    pub fn get_overwrites(&self) -> (r: Option<&StrMap<YamlValue>>)
        ensures
            overwrites_result(r) == self.overwrites_view(),
    {
        match self {
            ModuleConfig::RunRustBasedOnJavaOutput(m) => m.get_overwrites(),
            ModuleConfig::RunJavaSingleIterBasedOnJavaOutput(m) => m.get_overwrites(),
            ModuleConfig::ExtractMeasurementsFromEvents(m) => m.get_overwrites(),
            ModuleConfig::AddDummyCoordinatesToEvents(m) => m.get_overwrites(),
            ModuleConfig::ReplaceActivityTimesInPopulation(m) => m.get_overwrites(),
            ModuleConfig::PlotTtAndSdPerSeed(m) => m.get_overwrites(),
            ModuleConfig::PlotTtAndSdDiffPerSeed(m) => m.get_overwrites(),
            ModuleConfig::PlotTtAndSdAvgdOverSeeds(m) => m.get_overwrites(),
            ModuleConfig::PlotTtAndSdAvgdOverSeedsDiff(m) => m.get_overwrites(),
            ModuleConfig::PlotTtAndSdDeviationToNashBoxplotsOverBeta(m) => m.get_overwrites(),
            ModuleConfig::PlotTtAndSdDeviationToNashScatterplotsOverBeta(m) => m.get_overwrites(),
            ModuleConfig::PlotTtAndSdDeviationToDiffRunBoxplotsOverBeta(m) => m.get_overwrites(),
            ModuleConfig::PlotTtAndSdDeviationToDiffRunScatterplotsOverBeta(m) => m.get_overwrites(),
            ModuleConfig::ReformatOriginalExtractedMeasurements(m) => m.get_overwrites(),
        }
    }
}

impl ModuleConfig {
    /// The name under which the module announces its run.
    pub open spec fn announced_name(self) -> Seq<char> {
        match self {
            ModuleConfig::RunRustBasedOnJavaOutput(_) => "RunRustBasedOnJavaOutput"@,
            ModuleConfig::RunJavaSingleIterBasedOnJavaOutput(_) => "RunJavaSingleIterBasedOnJavaOutput"@,
            ModuleConfig::ExtractMeasurementsFromEvents(_) => "ExtractMeasurementsFromEvents"@,
            ModuleConfig::AddDummyCoordinatesToEvents(_) => "AddDummyCoordinatesToEvents"@,
            ModuleConfig::ReplaceActivityTimesInPopulation(_) => "ReplaceActivityTimesInPopulation"@,
            ModuleConfig::PlotTtAndSdPerSeed(_) => "PlotTtAndSdPerSeed"@,
            ModuleConfig::PlotTtAndSdDiffPerSeed(_) => "PlotTtAndSdDiffPerSeed"@,
            ModuleConfig::PlotTtAndSdAvgdOverSeeds(_) => "PlotTtAndSdAvgdOverSeeds"@,
            ModuleConfig::PlotTtAndSdAvgdOverSeedsDiff(_) => "PlotTtAndSdAvgdOverSeedsDiff"@,
            ModuleConfig::PlotTtAndSdDeviationToNashBoxplotsOverBeta(_) => "PlotTtAndSdDeviationBoxplotsOverBeta"@,
            ModuleConfig::PlotTtAndSdDeviationToNashScatterplotsOverBeta(_) => "PlotTtAndSdDeviationScatterplotsOverBeta"@,
            ModuleConfig::PlotTtAndSdDeviationToDiffRunBoxplotsOverBeta(_) => "PlotTtAndSdDeviationToDiffRunBoxplotsOverBeta"@,
            ModuleConfig::PlotTtAndSdDeviationToDiffRunScatterplotsOverBeta(_) => "PlotTtAndSdDeviationToDiffRunScatterplotsOverBeta"@,
            ModuleConfig::ReformatOriginalExtractedMeasurements(_) => "ReformatOriginalExtractedMeasurements"@,
        }
    }

    /// The name under which the module announces its run ("Running <name> module.").
    pub fn run_announcement_name(&self) -> (r: &'static str)
        ensures
            r@ == self.announced_name(),
    {
        match self {
            ModuleConfig::RunRustBasedOnJavaOutput(_) => "RunRustBasedOnJavaOutput",
            ModuleConfig::RunJavaSingleIterBasedOnJavaOutput(_) => "RunJavaSingleIterBasedOnJavaOutput",
            ModuleConfig::ExtractMeasurementsFromEvents(_) => "ExtractMeasurementsFromEvents",
            ModuleConfig::AddDummyCoordinatesToEvents(_) => "AddDummyCoordinatesToEvents",
            ModuleConfig::ReplaceActivityTimesInPopulation(_) => "ReplaceActivityTimesInPopulation",
            ModuleConfig::PlotTtAndSdPerSeed(_) => "PlotTtAndSdPerSeed",
            ModuleConfig::PlotTtAndSdDiffPerSeed(_) => "PlotTtAndSdDiffPerSeed",
            ModuleConfig::PlotTtAndSdAvgdOverSeeds(_) => "PlotTtAndSdAvgdOverSeeds",
            ModuleConfig::PlotTtAndSdAvgdOverSeedsDiff(_) => "PlotTtAndSdAvgdOverSeedsDiff",
            ModuleConfig::PlotTtAndSdDeviationToNashBoxplotsOverBeta(_) => "PlotTtAndSdDeviationBoxplotsOverBeta",
            ModuleConfig::PlotTtAndSdDeviationToNashScatterplotsOverBeta(_) => "PlotTtAndSdDeviationScatterplotsOverBeta",
            ModuleConfig::PlotTtAndSdDeviationToDiffRunBoxplotsOverBeta(_) => "PlotTtAndSdDeviationToDiffRunBoxplotsOverBeta",
            ModuleConfig::PlotTtAndSdDeviationToDiffRunScatterplotsOverBeta(_) => "PlotTtAndSdDeviationToDiffRunScatterplotsOverBeta",
            ModuleConfig::ReformatOriginalExtractedMeasurements(_) => "ReformatOriginalExtractedMeasurements",
        }
    }
}

/// A path pattern parameter as a module hands it on: the module's overwrite of `name`
/// if it has one, else the experiment set's global; it must be a string, and its common
/// placeholders are resolved from the global configuration.
pub open spec fn resolved_parameter(
    overwrites: Option<Map<Seq<char>, YamlValue>>,
    config: Config,
    global_config: GlobalConfig,
    name: Seq<char>,
) -> Option<Seq<char>> {
    match overwrite_or_global(overwrites, config, name) {
        Some(v) => match as_str_spec(v) {
            Some(p) => match common_pattern_replaced(global_config.global_parameters@, p) {
                Ok(r) => Some(r),
                Err(_) => None,
            },
            None => None,
        },
        None => None,
    }
}

/// A path pattern field of a module, with its common placeholders resolved from the
/// global configuration.
pub open spec fn resolved_field(global_config: GlobalConfig, field: Option<String>) -> Option<Seq<char>> {
    match field {
        Some(p) => match common_pattern_replaced(global_config.global_parameters@, p@) {
            Ok(r) => Some(r),
            Err(_) => None,
        },
        None => None,
    }
}

/// The name of the swept array a plot averages over.
pub open spec fn averaged_key(which: SeedsToAvgOver) -> Seq<char> {
    match which {
        SeedsToAvgOver::RustSeeds => "rust_seeds"@,
        SeedsToAvgOver::JavaSeedIndices => "java_seed_indices"@,
    }
}

/// Choosing the seeds to average over takes the swept values of the chosen array (Rust
/// seeds or Java seed indices) and replaces that array, and only that one, by the single
/// value `label`.
pub proof fn law_seeds_selection_takes_the_chosen_array(
    config: Config,
    which: SeedsToAvgOver,
    label: Seq<char>,
    rust_error: Seq<char>,
    java_error: Seq<char>,
)
    requires
        seeds_selection(config, which, label, rust_error, java_error) is Ok,
    ensures
        ({
            let (seeds, sweep) = seeds_selection(config, which, label, rust_error, java_error)->Ok_0;
            let key = averaged_key(which);
            &&& config.param_sweep@.contains_key(key)
            &&& seeds == swept_values_text(config, key)
            &&& sweep == map![key => key + "=("@ + single_quoted(label) + ")"@]
        }),
{
}

/// Running the Rust simulation calls `run_experiment_case` with one argument: `true`
/// when an existing output directory is to be deleted, else `false`.
pub proof fn law_run_rust_plan(m: RunRustBasedOnJavaOutput, config: Config, global_config: GlobalConfig)
    requires
        m.planned_run(config, global_config) is Ok,
    ensures
        ({
            let ov = overwrites_of(m.overwrites);
            &&& m.planned_run(config, global_config) == Ok::<(Seq<char>, Seq<char>), Seq<char>>(
                (
                    "run_experiment_case"@,
                    laid_out_script(
                        config,
                        ov,
                        Map::<Seq<char>, Seq<char>>::empty(),
                        "./experiments/compare_braess_to_java/runnable_modules/run_rust_based_on_java_output.sh"@,
                        "run_experiment_case"@,
                        seq![(if m.overwrite_mode == OverwriteFiles::DeleteDirectoryIfExists { "true"@ } else { "false"@ })],
                    ),
                ),
            )
        }),
{
    let ov = overwrites_of(m.overwrites);
    law_cartprod_script_layout(
        "run_experiment_case"@,
        "./experiments/compare_braess_to_java/runnable_modules/run_rust_based_on_java_output.sh"@,
        config,
        ov,
        Some(seq![(if m.overwrite_mode == OverwriteFiles::DeleteDirectoryIfExists { "true"@ } else { "false"@ })]),
        None,
    );
}

/// Running one Java iteration calls `run_java_single_iter_case` with one argument:
/// `true` when an existing output directory is to be deleted, else `false`.
pub proof fn law_run_java_single_iter_plan(m: RunJavaSingleIterBasedOnJavaOutput, config: Config, global_config: GlobalConfig)
    requires
        m.planned_run(config, global_config) is Ok,
    ensures
        ({
            let ov = overwrites_of(m.overwrites);
            &&& m.planned_run(config, global_config) == Ok::<(Seq<char>, Seq<char>), Seq<char>>(
                (
                    "run_java_single_iter_case"@,
                    laid_out_script(
                        config,
                        ov,
                        Map::<Seq<char>, Seq<char>>::empty(),
                        "./experiments/compare_braess_to_java/runnable_modules/run_java_single_iter_based_on_java_output.sh"@,
                        "run_java_single_iter_case"@,
                        seq![(if m.overwrite_mode == OverwriteFiles::DeleteDirectoryIfExists { "true"@ } else { "false"@ })],
                    ),
                ),
            )
        }),
{
    let ov = overwrites_of(m.overwrites);
    law_cartprod_script_layout(
        "run_java_single_iter_case"@,
        "./experiments/compare_braess_to_java/runnable_modules/run_java_single_iter_based_on_java_output.sh"@,
        config,
        ov,
        Some(seq![(if m.overwrite_mode == OverwriteFiles::DeleteDirectoryIfExists { "true"@ } else { "false"@ })]),
        None,
    );
}

/// Extracting measurements calls `extract_travel_time_sum_dep_case` with, in this order,
/// the resolved input file stem, the input file format, the resolved travel time csv
/// pattern, the resolved summed departures csv pattern and the number of parts.
pub proof fn law_extract_measurements_plan(m: ExtractMeasurementsFromEvents, config: Config, global_config: GlobalConfig)
    requires
        m.planned_run(config, global_config) is Ok,
    ensures
        ({
            let ov = overwrites_of(m.overwrites);
            &&& resolved_field(global_config, m.input_file_stem_pattern) is Some
            &&& m.input_file_format is Some
            &&& resolved_parameter(ov, config, global_config, "tt_csv_path_pattern"@) is Some
            &&& resolved_parameter(ov, config, global_config, "sd_csv_path_pattern"@) is Some
            &&& m.num_parts is Some
            &&& m.planned_run(config, global_config) == Ok::<(Seq<char>, Seq<char>), Seq<char>>(
                (
                    "extract_travel_time_sum_dep_case"@,
                    laid_out_script(
                        config,
                        ov,
                        Map::<Seq<char>, Seq<char>>::empty(),
                        "./experiments/compare_braess_to_java/runnable_modules/extract_tt_and_sd_from_events.sh"@,
                        "extract_travel_time_sum_dep_case"@,
                        seq![resolved_field(global_config, m.input_file_stem_pattern)->0, m.input_file_format->0@, resolved_parameter(ov, config, global_config, "tt_csv_path_pattern"@)->0, resolved_parameter(ov, config, global_config, "sd_csv_path_pattern"@)->0, decimal(m.num_parts->0 as nat)],
                    ),
                ),
            )
        }),
{
    let ov = overwrites_of(m.overwrites);
    law_cartprod_script_layout(
        "extract_travel_time_sum_dep_case"@,
        "./experiments/compare_braess_to_java/runnable_modules/extract_tt_and_sd_from_events.sh"@,
        config,
        ov,
        Some(seq![resolved_field(global_config, m.input_file_stem_pattern)->0, m.input_file_format->0@, resolved_parameter(ov, config, global_config, "tt_csv_path_pattern"@)->0, resolved_parameter(ov, config, global_config, "sd_csv_path_pattern"@)->0, decimal(m.num_parts->0 as nat)]),
        None,
    );
}

/// Adding dummy coordinates calls `add_dummy_coordinates_case` with the resolved input
/// file pattern first and the resolved output file pattern second.
pub proof fn law_add_dummy_coordinates_plan(m: AddDummyCoordinatesToEvents, config: Config, global_config: GlobalConfig)
    requires
        m.planned_run(config, global_config) is Ok,
    ensures
        ({
            let ov = overwrites_of(m.overwrites);
            &&& resolved_field(global_config, m.input_file_pattern) is Some
            &&& resolved_field(global_config, m.output_file_pattern) is Some
            &&& m.planned_run(config, global_config) == Ok::<(Seq<char>, Seq<char>), Seq<char>>(
                (
                    "add_dummy_coordinates_case"@,
                    laid_out_script(
                        config,
                        ov,
                        Map::<Seq<char>, Seq<char>>::empty(),
                        "./experiments/compare_braess_to_java/runnable_modules/add_dummy_coordinates_to_events.sh"@,
                        "add_dummy_coordinates_case"@,
                        seq![resolved_field(global_config, m.input_file_pattern)->0, resolved_field(global_config, m.output_file_pattern)->0],
                    ),
                ),
            )
        }),
{
    let ov = overwrites_of(m.overwrites);
    law_cartprod_script_layout(
        "add_dummy_coordinates_case"@,
        "./experiments/compare_braess_to_java/runnable_modules/add_dummy_coordinates_to_events.sh"@,
        config,
        ov,
        Some(seq![resolved_field(global_config, m.input_file_pattern)->0, resolved_field(global_config, m.output_file_pattern)->0]),
        None,
    );
}

/// Replacing activity times calls `replace_activity_times_case` without extra arguments,
/// once for all Rust seeds (their array is declared as `(None)`).
pub proof fn law_replace_activity_times_plan(m: ReplaceActivityTimesInPopulation, config: Config, global_config: GlobalConfig)
    requires
        m.planned_run(config, global_config) is Ok,
    ensures
        ({
            let ov = overwrites_of(m.overwrites);
            &&& m.planned_run(config, global_config) == Ok::<(Seq<char>, Seq<char>), Seq<char>>(
                (
                    "replace_activity_times_case"@,
                    laid_out_script(
                        config,
                        ov,
                        map!["rust_seeds"@ => "rust_seeds=(None)"@],
                        "./experiments/compare_braess_to_java/runnable_modules/replace_activity_times.sh"@,
                        "replace_activity_times_case"@,
                        Seq::<Seq<char>>::empty(),
                    ),
                ),
            )
        }),
{
    let ov = overwrites_of(m.overwrites);
    law_cartprod_script_layout(
        "replace_activity_times_case"@,
        "./experiments/compare_braess_to_java/runnable_modules/replace_activity_times.sh"@,
        config,
        ov,
        None,
        Some(map!["rust_seeds"@ => "rust_seeds=(None)"@]),
    );
}

/// Plotting per seed calls `plot_per_seed_case` with the resolved travel time and summed
/// departures csv patterns, in this order.
pub proof fn law_plot_per_seed_plan(m: PlotTtAndSdPerSeed, config: Config, global_config: GlobalConfig)
    requires
        m.planned_run(config, global_config) is Ok,
    ensures
        ({
            let ov = overwrites_of(m.overwrites);
            &&& resolved_parameter(ov, config, global_config, "tt_csv_path_pattern"@) is Some
            &&& resolved_parameter(ov, config, global_config, "sd_csv_path_pattern"@) is Some
            &&& m.planned_run(config, global_config) == Ok::<(Seq<char>, Seq<char>), Seq<char>>(
                (
                    "plot_per_seed_case"@,
                    laid_out_script(
                        config,
                        ov,
                        Map::<Seq<char>, Seq<char>>::empty(),
                        "./experiments/compare_braess_to_java/runnable_modules/plot_tt_and_sd_per_seed.sh"@,
                        "plot_per_seed_case"@,
                        seq![resolved_parameter(ov, config, global_config, "tt_csv_path_pattern"@)->0, resolved_parameter(ov, config, global_config, "sd_csv_path_pattern"@)->0],
                    ),
                ),
            )
        }),
{
    let ov = overwrites_of(m.overwrites);
    law_cartprod_script_layout(
        "plot_per_seed_case"@,
        "./experiments/compare_braess_to_java/runnable_modules/plot_tt_and_sd_per_seed.sh"@,
        config,
        ov,
        Some(seq![resolved_parameter(ov, config, global_config, "tt_csv_path_pattern"@)->0, resolved_parameter(ov, config, global_config, "sd_csv_path_pattern"@)->0]),
        None,
    );
}

/// Plotting differences per seed calls `plot_diff_per_seed_case` with, in this order,
/// the resolved travel time and summed departures csv patterns, the resolved secondary
/// ones, and what is subtracted.
pub proof fn law_plot_diff_per_seed_plan(m: PlotTtAndSdDiffPerSeed, config: Config, global_config: GlobalConfig)
    requires
        m.planned_run(config, global_config) is Ok,
    ensures
        ({
            let ov = overwrites_of(m.overwrites);
            &&& resolved_parameter(ov, config, global_config, "tt_csv_path_pattern"@) is Some
            &&& resolved_parameter(ov, config, global_config, "sd_csv_path_pattern"@) is Some
            &&& resolved_field(global_config, m.secondary_input_tt_csv_path_pattern) is Some
            &&& resolved_field(global_config, m.secondary_input_sd_csv_path_pattern) is Some
            &&& m.planned_run(config, global_config) == Ok::<(Seq<char>, Seq<char>), Seq<char>>(
                (
                    "plot_diff_per_seed_case"@,
                    laid_out_script(
                        config,
                        ov,
                        Map::<Seq<char>, Seq<char>>::empty(),
                        "./experiments/compare_braess_to_java/runnable_modules/plot_tt_and_sd_diff_per_seed.sh"@,
                        "plot_diff_per_seed_case"@,
                        seq![resolved_parameter(ov, config, global_config, "tt_csv_path_pattern"@)->0, resolved_parameter(ov, config, global_config, "sd_csv_path_pattern"@)->0, resolved_field(global_config, m.secondary_input_tt_csv_path_pattern)->0, resolved_field(global_config, m.secondary_input_sd_csv_path_pattern)->0, m.minus_what@],
                    ),
                ),
            )
        }),
{
    let ov = overwrites_of(m.overwrites);
    law_cartprod_script_layout(
        "plot_diff_per_seed_case"@,
        "./experiments/compare_braess_to_java/runnable_modules/plot_tt_and_sd_diff_per_seed.sh"@,
        config,
        ov,
        Some(seq![resolved_parameter(ov, config, global_config, "tt_csv_path_pattern"@)->0, resolved_parameter(ov, config, global_config, "sd_csv_path_pattern"@)->0, resolved_field(global_config, m.secondary_input_tt_csv_path_pattern)->0, resolved_field(global_config, m.secondary_input_sd_csv_path_pattern)->0, m.minus_what@]),
        None,
    );
}

/// Plotting averaged over seeds calls `plot_avgd_over_seeds_case` once for all seeds of
/// the chosen array, which is declared as `('avg_over_all')` (the other arrays as
/// swept), with the resolved travel time and summed departures csv patterns and the
/// swept values of the chosen array, in this order.
pub proof fn law_averaged_over_seeds_plan(m: PlotTtAndSdAvgdOverSeeds, config: Config, global_config: GlobalConfig)
    requires
        m.planned_run(config, global_config) is Ok,
    ensures
        ({
            let ov = overwrites_of(m.overwrites);
            &&& resolved_parameter(ov, config, global_config, "tt_csv_path_pattern"@) is Some
            &&& resolved_parameter(ov, config, global_config, "sd_csv_path_pattern"@) is Some
            &&& m.planned_run(config, global_config) == Ok::<(Seq<char>, Seq<char>), Seq<char>>(
                (
                    "plot_avgd_over_seeds_case"@,
                    laid_out_script(
                        config,
                        ov,
                        map![averaged_key(m.seeds_to_avg_over) => averaged_key(m.seeds_to_avg_over) + "=("@ + single_quoted("avg_over_all"@) + ")"@],
                        "./experiments/compare_braess_to_java/runnable_modules/plot_tt_and_sd_avgd_over_seeds.sh"@,
                        "plot_avgd_over_seeds_case"@,
                        seq![resolved_parameter(ov, config, global_config, "tt_csv_path_pattern"@)->0, resolved_parameter(ov, config, global_config, "sd_csv_path_pattern"@)->0, swept_values_text(config, averaged_key(m.seeds_to_avg_over))],
                    ),
                ),
            )
        }),
{
    let ov = overwrites_of(m.overwrites);
    law_seeds_selection_takes_the_chosen_array(
        config,
        m.seeds_to_avg_over,
        "avg_over_all"@,
        "rust_seeds must be set in param_sweep for PlotTtAndSdAvgdOverSeeds module when averaging over rust seeds"@,
        "java_seed_indices must be set in param_sweep for PlotTtAndSdAvgdOverSeeds module when averaging over java seed indices"@,
    );
    law_cartprod_script_layout(
        "plot_avgd_over_seeds_case"@,
        "./experiments/compare_braess_to_java/runnable_modules/plot_tt_and_sd_avgd_over_seeds.sh"@,
        config,
        ov,
        Some(seq![resolved_parameter(ov, config, global_config, "tt_csv_path_pattern"@)->0, resolved_parameter(ov, config, global_config, "sd_csv_path_pattern"@)->0, swept_values_text(config, averaged_key(m.seeds_to_avg_over))]),
        Some(map![averaged_key(m.seeds_to_avg_over) => averaged_key(m.seeds_to_avg_over) + "=("@ + single_quoted("avg_over_all"@) + ")"@]),
    );
}

/// Plotting seed-averaged differences calls `plot_avgd_over_seeds_diff_case` once for
/// all seeds of the chosen array (declared as `('avg_over_all')`), with the resolved
/// travel time and summed departures csv patterns, the resolved secondary ones, the
/// swept values of the chosen array and what is subtracted, in this order.
pub proof fn law_averaged_over_seeds_diff_plan(m: PlotTtAndSdAvgdOverSeedsDiff, config: Config, global_config: GlobalConfig)
    requires
        m.planned_run(config, global_config) is Ok,
    ensures
        ({
            let ov = overwrites_of(m.overwrites);
            &&& resolved_parameter(ov, config, global_config, "tt_csv_path_pattern"@) is Some
            &&& resolved_parameter(ov, config, global_config, "sd_csv_path_pattern"@) is Some
            &&& resolved_field(global_config, m.secondary_input_tt_csv_path_pattern) is Some
            &&& resolved_field(global_config, m.secondary_input_sd_csv_path_pattern) is Some
            &&& m.planned_run(config, global_config) == Ok::<(Seq<char>, Seq<char>), Seq<char>>(
                (
                    "plot_avgd_over_seeds_diff_case"@,
                    laid_out_script(
                        config,
                        ov,
                        map![averaged_key(m.seeds_to_avg_over) => averaged_key(m.seeds_to_avg_over) + "=("@ + single_quoted("avg_over_all"@) + ")"@],
                        "./experiments/compare_braess_to_java/runnable_modules/plot_tt_and_sd_avgd_over_seeds_diff.sh"@,
                        "plot_avgd_over_seeds_diff_case"@,
                        seq![resolved_parameter(ov, config, global_config, "tt_csv_path_pattern"@)->0, resolved_parameter(ov, config, global_config, "sd_csv_path_pattern"@)->0, resolved_field(global_config, m.secondary_input_tt_csv_path_pattern)->0, resolved_field(global_config, m.secondary_input_sd_csv_path_pattern)->0, swept_values_text(config, averaged_key(m.seeds_to_avg_over)), m.minus_what@],
                    ),
                ),
            )
        }),
{
    let ov = overwrites_of(m.overwrites);
    law_seeds_selection_takes_the_chosen_array(
        config,
        m.seeds_to_avg_over,
        "avg_over_all"@,
        "rust_seeds must be set in param_sweep for PlotTtAndSdAvgdOverSeeds module when averaging over rust seeds"@,
        "java_seed_indices must be set in param_sweep for PlotTtAndSdAvgdOverSeeds module when averaging over java seed indices"@,
    );
    law_cartprod_script_layout(
        "plot_avgd_over_seeds_diff_case"@,
        "./experiments/compare_braess_to_java/runnable_modules/plot_tt_and_sd_avgd_over_seeds_diff.sh"@,
        config,
        ov,
        Some(seq![resolved_parameter(ov, config, global_config, "tt_csv_path_pattern"@)->0, resolved_parameter(ov, config, global_config, "sd_csv_path_pattern"@)->0, resolved_field(global_config, m.secondary_input_tt_csv_path_pattern)->0, resolved_field(global_config, m.secondary_input_sd_csv_path_pattern)->0, swept_values_text(config, averaged_key(m.seeds_to_avg_over)), m.minus_what@]),
        Some(map![averaged_key(m.seeds_to_avg_over) => averaged_key(m.seeds_to_avg_over) + "=("@ + single_quoted("avg_over_all"@) + ")"@]),
    );
}

/// Box plots of deviations to Nash call `plot_deviation_boxplots_over_beta_case` once
/// for all seeds of the chosen array (declared as `('avg_over_all')`) and all betas
/// (declared as `(use_all)`), with the resolved travel time and summed departures csv
/// patterns, the swept values of the chosen array and the swept betas, in this order.
pub proof fn law_nash_boxplots_plan(m: PlotTtAndSdDeviationToNashBoxplotsOverBeta, config: Config, global_config: GlobalConfig)
    requires
        m.planned_run(config, global_config) is Ok,
    ensures
        ({
            let ov = overwrites_of(m.overwrites);
            &&& resolved_parameter(ov, config, global_config, "tt_csv_path_pattern"@) is Some
            &&& resolved_parameter(ov, config, global_config, "sd_csv_path_pattern"@) is Some
            &&& m.planned_run(config, global_config) == Ok::<(Seq<char>, Seq<char>), Seq<char>>(
                (
                    "plot_deviation_boxplots_over_beta_case"@,
                    laid_out_script(
                        config,
                        ov,
                        map![averaged_key(m.seeds_to_avg_over) => averaged_key(m.seeds_to_avg_over) + "=("@ + single_quoted("avg_over_all"@) + ")"@].insert("betas"@, "betas=(use_all)"@),
                        "./experiments/compare_braess_to_java/runnable_modules/plot_tt_and_sd_avg_deviations_to_nash_over_beta.sh"@,
                        "plot_deviation_boxplots_over_beta_case"@,
                        seq![resolved_parameter(ov, config, global_config, "tt_csv_path_pattern"@)->0, resolved_parameter(ov, config, global_config, "sd_csv_path_pattern"@)->0, swept_values_text(config, averaged_key(m.seeds_to_avg_over)), swept_values_text(config, "betas"@)],
                    ),
                ),
            )
        }),
{
    let ov = overwrites_of(m.overwrites);
    law_seeds_selection_takes_the_chosen_array(
        config,
        m.seeds_to_avg_over,
        "avg_over_all"@,
        "rust_seeds must be set in param_sweep for PlotTtAndSdAvgdOverSeeds module when averaging over rust seeds"@,
        "java_seed_indices must be set in param_sweep for PlotTtAndSdAvgdOverSeeds module when averaging over java seed indices"@,
    );
    law_cartprod_script_layout(
        "plot_deviation_boxplots_over_beta_case"@,
        "./experiments/compare_braess_to_java/runnable_modules/plot_tt_and_sd_avg_deviations_to_nash_over_beta.sh"@,
        config,
        ov,
        Some(seq![resolved_parameter(ov, config, global_config, "tt_csv_path_pattern"@)->0, resolved_parameter(ov, config, global_config, "sd_csv_path_pattern"@)->0, swept_values_text(config, averaged_key(m.seeds_to_avg_over)), swept_values_text(config, "betas"@)]),
        Some(map![averaged_key(m.seeds_to_avg_over) => averaged_key(m.seeds_to_avg_over) + "=("@ + single_quoted("avg_over_all"@) + ")"@].insert("betas"@, "betas=(use_all)"@)),
    );
}

/// Scatter plots of deviations to Nash call `plot_deviation_scatterplots_over_beta_case`
/// once for all seeds of the chosen array (declared as `('avg_over_all')`) and all betas
/// (declared as `(use_all)`), with the resolved travel time and summed departures csv
/// patterns, the swept values of the chosen array and the swept betas, in this order.
pub proof fn law_nash_scatterplots_plan(m: PlotTtAndSdDeviationToNashScatterplotsOverBeta, config: Config, global_config: GlobalConfig)
    requires
        m.planned_run(config, global_config) is Ok,
    ensures
        ({
            let ov = overwrites_of(m.overwrites);
            &&& resolved_parameter(ov, config, global_config, "tt_csv_path_pattern"@) is Some
            &&& resolved_parameter(ov, config, global_config, "sd_csv_path_pattern"@) is Some
            &&& m.planned_run(config, global_config) == Ok::<(Seq<char>, Seq<char>), Seq<char>>(
                (
                    "plot_deviation_scatterplots_over_beta_case"@,
                    laid_out_script(
                        config,
                        ov,
                        map![averaged_key(m.seeds_to_avg_over) => averaged_key(m.seeds_to_avg_over) + "=("@ + single_quoted("avg_over_all"@) + ")"@].insert("betas"@, "betas=(use_all)"@),
                        "./experiments/compare_braess_to_java/runnable_modules/plot_tt_and_sd_avg_deviations_to_nash_over_beta.sh"@,
                        "plot_deviation_scatterplots_over_beta_case"@,
                        seq![resolved_parameter(ov, config, global_config, "tt_csv_path_pattern"@)->0, resolved_parameter(ov, config, global_config, "sd_csv_path_pattern"@)->0, swept_values_text(config, averaged_key(m.seeds_to_avg_over)), swept_values_text(config, "betas"@)],
                    ),
                ),
            )
        }),
{
    let ov = overwrites_of(m.overwrites);
    law_seeds_selection_takes_the_chosen_array(
        config,
        m.seeds_to_avg_over,
        "avg_over_all"@,
        "rust_seeds must be set in param_sweep for PlotTtAndSdAvgdOverSeeds module when averaging over rust seeds"@,
        "java_seed_indices must be set in param_sweep for PlotTtAndSdAvgdOverSeeds module when averaging over java seed indices"@,
    );
    law_cartprod_script_layout(
        "plot_deviation_scatterplots_over_beta_case"@,
        "./experiments/compare_braess_to_java/runnable_modules/plot_tt_and_sd_avg_deviations_to_nash_over_beta.sh"@,
        config,
        ov,
        Some(seq![resolved_parameter(ov, config, global_config, "tt_csv_path_pattern"@)->0, resolved_parameter(ov, config, global_config, "sd_csv_path_pattern"@)->0, swept_values_text(config, averaged_key(m.seeds_to_avg_over)), swept_values_text(config, "betas"@)]),
        Some(map![averaged_key(m.seeds_to_avg_over) => averaged_key(m.seeds_to_avg_over) + "=("@ + single_quoted("avg_over_all"@) + ")"@].insert("betas"@, "betas=(use_all)"@)),
    );
}

/// Box plots of deviations to a second run call
/// `plot_deviation_boxplots_to_diff_run_over_beta_case` once for all seeds of the chosen
/// array (declared as `('use_all')`) and all betas (declared as `(use_all)`), with the
/// resolved travel time and summed departures csv patterns, the resolved secondary ones,
/// the swept values of the chosen array, the swept betas and which deviation, in this
/// order.
pub proof fn law_diff_run_boxplots_plan(m: PlotTtAndSdDeviationToDiffRunBoxplotsOverBeta, config: Config, global_config: GlobalConfig)
    requires
        m.planned_run(config, global_config) is Ok,
    ensures
        ({
            let ov = overwrites_of(m.overwrites);
            &&& resolved_parameter(ov, config, global_config, "tt_csv_path_pattern"@) is Some
            &&& resolved_parameter(ov, config, global_config, "sd_csv_path_pattern"@) is Some
            &&& resolved_field(global_config, m.secondary_input_tt_csv_path_pattern) is Some
            &&& resolved_field(global_config, m.secondary_input_sd_csv_path_pattern) is Some
            &&& m.planned_run(config, global_config) == Ok::<(Seq<char>, Seq<char>), Seq<char>>(
                (
                    "plot_deviation_boxplots_to_diff_run_over_beta_case"@,
                    laid_out_script(
                        config,
                        ov,
                        map![averaged_key(m.seeds_to_avg_over) => averaged_key(m.seeds_to_avg_over) + "=("@ + single_quoted("use_all"@) + ")"@].insert("betas"@, "betas=(use_all)"@),
                        "./experiments/compare_braess_to_java/runnable_modules/plot_tt_and_sd_avg_deviations_to_diff_run_over_beta.sh"@,
                        "plot_deviation_boxplots_to_diff_run_over_beta_case"@,
                        seq![resolved_parameter(ov, config, global_config, "tt_csv_path_pattern"@)->0, resolved_parameter(ov, config, global_config, "sd_csv_path_pattern"@)->0, resolved_field(global_config, m.secondary_input_tt_csv_path_pattern)->0, resolved_field(global_config, m.secondary_input_sd_csv_path_pattern)->0, swept_values_text(config, averaged_key(m.seeds_to_avg_over)), swept_values_text(config, "betas"@), m.which_deviation@],
                    ),
                ),
            )
        }),
{
    let ov = overwrites_of(m.overwrites);
    law_seeds_selection_takes_the_chosen_array(
        config,
        m.seeds_to_avg_over,
        "use_all"@,
        "rust_seeds must be set in param_sweep for PlotTtAndSdDeviationToDiffRunBoxplotsOverBeta module when averaging over rust seeds"@,
        "java_seed_indices must be set in param_sweep for PlotTtAndSdDeviationToDiffRunBoxplotsOverBeta module when averaging over java seed indices"@,
    );
    law_cartprod_script_layout(
        "plot_deviation_boxplots_to_diff_run_over_beta_case"@,
        "./experiments/compare_braess_to_java/runnable_modules/plot_tt_and_sd_avg_deviations_to_diff_run_over_beta.sh"@,
        config,
        ov,
        Some(seq![resolved_parameter(ov, config, global_config, "tt_csv_path_pattern"@)->0, resolved_parameter(ov, config, global_config, "sd_csv_path_pattern"@)->0, resolved_field(global_config, m.secondary_input_tt_csv_path_pattern)->0, resolved_field(global_config, m.secondary_input_sd_csv_path_pattern)->0, swept_values_text(config, averaged_key(m.seeds_to_avg_over)), swept_values_text(config, "betas"@), m.which_deviation@]),
        Some(map![averaged_key(m.seeds_to_avg_over) => averaged_key(m.seeds_to_avg_over) + "=("@ + single_quoted("use_all"@) + ")"@].insert("betas"@, "betas=(use_all)"@)),
    );
}

/// Scatter plots of deviations to a second run call
/// `plot_deviation_scatterplots_to_diff_run_over_beta_case` once for all seeds of the
/// chosen array (declared as `('use_all')`) and all betas (declared as `(use_all)`),
/// with the resolved travel time and summed departures csv patterns, the resolved
/// secondary ones, the swept values of the chosen array, the swept betas and which
/// deviation, in this order.
pub proof fn law_diff_run_scatterplots_plan(m: PlotTtAndSdDeviationToDiffRunScatterplotsOverBeta, config: Config, global_config: GlobalConfig)
    requires
        m.planned_run(config, global_config) is Ok,
    ensures
        ({
            let ov = overwrites_of(m.overwrites);
            &&& resolved_parameter(ov, config, global_config, "tt_csv_path_pattern"@) is Some
            &&& resolved_parameter(ov, config, global_config, "sd_csv_path_pattern"@) is Some
            &&& resolved_field(global_config, m.secondary_input_tt_csv_path_pattern) is Some
            &&& resolved_field(global_config, m.secondary_input_sd_csv_path_pattern) is Some
            &&& m.planned_run(config, global_config) == Ok::<(Seq<char>, Seq<char>), Seq<char>>(
                (
                    "plot_deviation_scatterplots_to_diff_run_over_beta_case"@,
                    laid_out_script(
                        config,
                        ov,
                        map![averaged_key(m.seeds_to_avg_over) => averaged_key(m.seeds_to_avg_over) + "=("@ + single_quoted("use_all"@) + ")"@].insert("betas"@, "betas=(use_all)"@),
                        "./experiments/compare_braess_to_java/runnable_modules/plot_tt_and_sd_avg_deviations_to_diff_run_over_beta.sh"@,
                        "plot_deviation_scatterplots_to_diff_run_over_beta_case"@,
                        seq![resolved_parameter(ov, config, global_config, "tt_csv_path_pattern"@)->0, resolved_parameter(ov, config, global_config, "sd_csv_path_pattern"@)->0, resolved_field(global_config, m.secondary_input_tt_csv_path_pattern)->0, resolved_field(global_config, m.secondary_input_sd_csv_path_pattern)->0, swept_values_text(config, averaged_key(m.seeds_to_avg_over)), swept_values_text(config, "betas"@), m.which_deviation@],
                    ),
                ),
            )
        }),
{
    let ov = overwrites_of(m.overwrites);
    law_seeds_selection_takes_the_chosen_array(
        config,
        m.seeds_to_avg_over,
        "use_all"@,
        "rust_seeds must be set in param_sweep for PlotTtAndSdDeviationToDiffRunScatterplotsOverBeta module when averaging over rust seeds"@,
        "java_seed_indices must be set in param_sweep for PlotTtAndSdDeviationToDiffRunScatterplotsOverBeta module when averaging over java seed indices"@,
    );
    law_cartprod_script_layout(
        "plot_deviation_scatterplots_to_diff_run_over_beta_case"@,
        "./experiments/compare_braess_to_java/runnable_modules/plot_tt_and_sd_avg_deviations_to_diff_run_over_beta.sh"@,
        config,
        ov,
        Some(seq![resolved_parameter(ov, config, global_config, "tt_csv_path_pattern"@)->0, resolved_parameter(ov, config, global_config, "sd_csv_path_pattern"@)->0, resolved_field(global_config, m.secondary_input_tt_csv_path_pattern)->0, resolved_field(global_config, m.secondary_input_sd_csv_path_pattern)->0, swept_values_text(config, averaged_key(m.seeds_to_avg_over)), swept_values_text(config, "betas"@), m.which_deviation@]),
        Some(map![averaged_key(m.seeds_to_avg_over) => averaged_key(m.seeds_to_avg_over) + "=("@ + single_quoted("use_all"@) + ")"@].insert("betas"@, "betas=(use_all)"@)),
    );
}

/// Reformatting the original measurements calls
/// `reformat_original_java_extracted_measurements_case` once for all Rust seeds
/// (declared as `(None)`), with, in this order, the resolved original travel time tsv,
/// the resolved original summed departures tsv, and the resolved travel time and summed
/// departures csv patterns.
pub proof fn law_reformat_measurements_plan(m: ReformatOriginalExtractedMeasurements, config: Config, global_config: GlobalConfig)
    requires
        m.planned_run(config, global_config) is Ok,
    ensures
        ({
            let ov = overwrites_of(m.overwrites);
            &&& resolved_field(global_config, m.original_tt_tsv_file_pattern) is Some
            &&& resolved_field(global_config, m.original_sd_tsv_file_pattern) is Some
            &&& resolved_parameter(ov, config, global_config, "tt_csv_path_pattern"@) is Some
            &&& resolved_parameter(ov, config, global_config, "sd_csv_path_pattern"@) is Some
            &&& m.planned_run(config, global_config) == Ok::<(Seq<char>, Seq<char>), Seq<char>>(
                (
                    "reformat_original_java_extracted_measurements_case"@,
                    laid_out_script(
                        config,
                        ov,
                        map!["rust_seeds"@ => "rust_seeds=(None)"@],
                        "./experiments/compare_braess_to_java/runnable_modules/reformat_original_measurements.sh"@,
                        "reformat_original_java_extracted_measurements_case"@,
                        seq![resolved_field(global_config, m.original_tt_tsv_file_pattern)->0, resolved_field(global_config, m.original_sd_tsv_file_pattern)->0, resolved_parameter(ov, config, global_config, "tt_csv_path_pattern"@)->0, resolved_parameter(ov, config, global_config, "sd_csv_path_pattern"@)->0],
                    ),
                ),
            )
        }),
{
    let ov = overwrites_of(m.overwrites);
    law_cartprod_script_layout(
        "reformat_original_java_extracted_measurements_case"@,
        "./experiments/compare_braess_to_java/runnable_modules/reformat_original_measurements.sh"@,
        config,
        ov,
        Some(seq![resolved_field(global_config, m.original_tt_tsv_file_pattern)->0, resolved_field(global_config, m.original_sd_tsv_file_pattern)->0, resolved_parameter(ov, config, global_config, "tt_csv_path_pattern"@)->0, resolved_parameter(ov, config, global_config, "sd_csv_path_pattern"@)->0]),
        Some(map!["rust_seeds"@ => "rust_seeds=(None)"@]),
    );
}
} // verus!
