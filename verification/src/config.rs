//! The experiment configuration: global parameters, the experiment set's parameter
//! sweep, and the modules that each run one bash function for every combination of
//! the swept parameters.

use crate::bash_utils::{
    failed_run_message, unstarted_run_message, join, shell_atoms, single_quoted, text_result, texts, yaml_values_as_shell_atoms, join_strings,
};
use crate::str_map::StrMap;
use crate::text::{contains_seq, contains_str, replace_all, replace_str};
use crate::modules::ModuleConfig;
use crate::yaml::{as_str_spec, YamlValue};
use vstd::prelude::*;

verus! {

/// The global configuration: parameters shared by all experiment sets.
pub struct GlobalConfig {
    pub global_parameters: StrMap<YamlValue>,
}

/// A lookup result whose value is taken as is.
pub open spec fn value_result(r: Result<&YamlValue, String>) -> Result<YamlValue, Seq<char>> {
    match r {
        Ok(v) => Ok(*v),
        Err(e) => Err(e@),
    }
}

/// A lookup result whose value is owned.
pub open spec fn owned_value_result(r: Result<YamlValue, String>) -> Result<YamlValue, Seq<char>> {
    match r {
        Ok(v) => Ok(v),
        Err(e) => Err(e@),
    }
}

/// The global parameter `key`, or the error naming it.
pub open spec fn global_lookup(params: Map<Seq<char>, YamlValue>, key: Seq<char>) -> Result<
    YamlValue,
    Seq<char>,
> {
    if params.contains_key(key) {
        Ok(params[key])
    } else {
        Err("Global parameter '"@ + key + "' not found in global config."@)
    }
}

/// `pattern` with the placeholder replaced by the string global parameter `key`, or the
/// error for a missing or non-string parameter.
pub open spec fn replaced_from_global(
    params: Map<Seq<char>, YamlValue>,
    pattern: Seq<char>,
    key: Seq<char>,
    placeholder: Seq<char>,
    type_error: Seq<char>,
) -> Result<Seq<char>, Seq<char>> {
    match global_lookup(params, key) {
        Err(e) => Err(e),
        Ok(v) => match as_str_spec(v) {
            None => Err(type_error),
            Some(s) => Ok(replace_all(pattern, placeholder, s)),
        },
    }
}

/// The first of the common placeholders that occurs in `pattern` replaced everywhere
/// by its global parameter; a pattern with none of them is returned as it is.
pub open spec fn common_pattern_replaced(params: Map<Seq<char>, YamlValue>, pattern: Seq<char>) -> Result<
    Seq<char>,
    Seq<char>,
> {
    if contains_seq(pattern, "{common_output_from_runs_pattern}"@) {
        replaced_from_global(
            params,
            pattern,
            "common_output_from_runs_pattern"@,
            "{common_output_from_runs_pattern}"@,
            "common_output_from_runs_pattern must be a string"@,
        )
    } else if contains_seq(pattern, "{common_extracted_data_pattern}"@) {
        replaced_from_global(
            params,
            pattern,
            "common_extracted_data_pattern"@,
            "{common_extracted_data_pattern}"@,
            "common_extracted_data_pattern must be a string"@,
        )
    } else if contains_seq(pattern, "{common_plots_pattern}"@) {
        replaced_from_global(
            params,
            pattern,
            "common_plots_pattern"@,
            "{common_plots_pattern}"@,
            "common_plots_pattern must be a string"@,
        )
    } else if contains_seq(pattern, "{original_dir_to_read_from}"@) {
        replaced_from_global(
            params,
            pattern,
            "original_dir_to_read_from"@,
            "{original_dir_to_read_from}"@,
            "original_dir_to_read_from must be a string"@,
        )
    } else {
        Ok(pattern)
    }
}

/// The global parameter `key` as a string, if it is one.
pub open spec fn string_global(params: Map<Seq<char>, YamlValue>, key: Seq<char>) -> Option<Seq<char>> {
    if params.contains_key(key) {
        as_str_spec(params[key])
    } else {
        None
    }
}

/// Resolving common placeholders replaces the first of `{common_output_from_runs_pattern}`,
/// `{common_extracted_data_pattern}`, `{common_plots_pattern}` and
/// `{original_dir_to_read_from}` that occurs in the pattern, everywhere, by the string
/// global parameter of the same name; a pattern with none of them comes back as it is.
pub proof fn law_common_pattern_resolution(params: Map<Seq<char>, YamlValue>, pattern: Seq<char>)
    ensures
        ({
            let out = "{common_output_from_runs_pattern}"@;
            let ext = "{common_extracted_data_pattern}"@;
            let plots = "{common_plots_pattern}"@;
            let orig = "{original_dir_to_read_from}"@;
            let r = common_pattern_replaced(params, pattern);
            &&& (contains_seq(pattern, out) && string_global(params, "common_output_from_runs_pattern"@) is Some)
                ==> r == Ok::<Seq<char>, Seq<char>>(
                replace_all(pattern, out, string_global(params, "common_output_from_runs_pattern"@)->0),
            )
            &&& (!contains_seq(pattern, out) && contains_seq(pattern, ext) && string_global(
                params,
                "common_extracted_data_pattern"@,
            ) is Some) ==> r == Ok::<Seq<char>, Seq<char>>(
                replace_all(pattern, ext, string_global(params, "common_extracted_data_pattern"@)->0),
            )
            &&& (!contains_seq(pattern, out) && !contains_seq(pattern, ext) && contains_seq(pattern, plots)
                && string_global(params, "common_plots_pattern"@) is Some) ==> r == Ok::<Seq<char>, Seq<char>>(
                replace_all(pattern, plots, string_global(params, "common_plots_pattern"@)->0),
            )
            &&& (!contains_seq(pattern, out) && !contains_seq(pattern, ext) && !contains_seq(pattern, plots)
                && contains_seq(pattern, orig) && string_global(params, "original_dir_to_read_from"@) is Some)
                ==> r == Ok::<Seq<char>, Seq<char>>(
                replace_all(pattern, orig, string_global(params, "original_dir_to_read_from"@)->0),
            )
            &&& (!contains_seq(pattern, out) && !contains_seq(pattern, ext) && !contains_seq(pattern, plots)
                && !contains_seq(pattern, orig)) ==> r == Ok::<Seq<char>, Seq<char>>(pattern)
        }),
{
}

impl GlobalConfig {
    /// The global parameter `key`.
    pub fn get_global_config_parameter(&self, key: &str) -> (r: Result<&YamlValue, String>)
        ensures
            value_result(r) == global_lookup(self.global_parameters@, key@),
    {
        match self.global_parameters.get(key) {
            Some(v) => Ok(v),
            None => {
                let mut e = String::from_str("Global parameter '");
                e.append(key);
                e.append("' not found in global config.");
                Err(e)
            },
        }
    }

    fn replace_from_global(
        &self,
        pattern: &str,
        key: &str,
        placeholder: &str,
        type_error: &str,
    ) -> (r: Result<String, String>)
        ensures
            text_result(r) == replaced_from_global(
                self.global_parameters@,
                pattern@,
                key@,
                placeholder@,
                type_error@,
            ),
    {
        match self.get_global_config_parameter(key) {
            Err(e) => Err(e),
            Ok(v) => match v.as_str() {
                None => Err(String::from_str(type_error)),
                Some(s) => Ok(replace_str(pattern, placeholder, s.as_str())),
            },
        }
    }

    /// Replaces the first common placeholder found in `pattern` (in the order
    /// `{common_output_from_runs_pattern}`, `{common_extracted_data_pattern}`,
    /// `{common_plots_pattern}`, `{original_dir_to_read_from}`) by the global parameter of
    /// that name, everywhere in the pattern.
    pub fn replace_common_pattern(&self, pattern: &str) -> (r: Result<String, String>)
        ensures
            text_result(r) == common_pattern_replaced(self.global_parameters@, pattern@),
    {
        proof {
            reveal_strlit("{common_output_from_runs_pattern}");
            reveal_strlit("{common_extracted_data_pattern}");
            reveal_strlit("{common_plots_pattern}");
            reveal_strlit("{original_dir_to_read_from}");
        }
        if contains_str(pattern, "{common_output_from_runs_pattern}") {
            self.replace_from_global(
                pattern,
                "common_output_from_runs_pattern",
                "{common_output_from_runs_pattern}",
                "common_output_from_runs_pattern must be a string",
            )
        } else if contains_str(pattern, "{common_extracted_data_pattern}") {
            self.replace_from_global(
                pattern,
                "common_extracted_data_pattern",
                "{common_extracted_data_pattern}",
                "common_extracted_data_pattern must be a string",
            )
        } else if contains_str(pattern, "{common_plots_pattern}") {
            self.replace_from_global(
                pattern,
                "common_plots_pattern",
                "{common_plots_pattern}",
                "common_plots_pattern must be a string",
            )
        } else if contains_str(pattern, "{original_dir_to_read_from}") {
            self.replace_from_global(
                pattern,
                "original_dir_to_read_from",
                "{original_dir_to_read_from}",
                "original_dir_to_read_from must be a string",
            )
        } else {
            Ok(String::from_str(pattern))
        }
    }
}


/// The global log file's path: the pattern with `{base_output_dir}`, then
/// `{replanning_variant}` (always `sel-exp10-switch-at80`), then `{experiment_set_name}`
/// replaced.
pub open spec fn log_file_path(pattern: Seq<char>, base_output_dir: Seq<char>, experiment_set_name: Seq<char>) -> Seq<char> {
    replace_all(
        replace_all(
            replace_all(pattern, "{base_output_dir}"@, base_output_dir),
            "{replanning_variant}"@,
            "sel-exp10-switch-at80"@,
        ),
        "{experiment_set_name}"@,
        experiment_set_name,
    )
}

/// The global log file's path for the experiment set, from the global log file pattern.
pub fn global_log_file_path(pattern: &str, base_output_dir: &str, experiment_set_name: &str) -> (r: String)
    ensures
        r@ == log_file_path(pattern@, base_output_dir@, experiment_set_name@),
{
    proof {
        reveal_strlit("{base_output_dir}");
        reveal_strlit("{replanning_variant}");
        reveal_strlit("{experiment_set_name}");
    }
    let a = replace_str(pattern, "{base_output_dir}", base_output_dir);
    let b = replace_str(a.as_str(), "{replanning_variant}", "sel-exp10-switch-at80");
    replace_str(b.as_str(), "{experiment_set_name}", experiment_set_name)
}

/// The directory of an experiment set's output for one replanning variant, before its
/// common placeholders are replaced.
pub open spec fn experiment_set_dir(base_output_dir: Seq<char>, replanning_variant: Seq<char>, experiment_set_name: Seq<char>) -> Seq<char> {
    replace_all(
        replace_all(
            replace_all(
                "{base_output_dir}/{replanning_variant}/{experiment_set_name}"@,
                "{base_output_dir}"@,
                base_output_dir,
            ),
            "{replanning_variant}"@,
            replanning_variant,
        ),
        "{experiment_set_name}"@,
        experiment_set_name,
    )
}

/// The directory of an experiment set's output for one replanning variant, where the
/// copies of the configurations are saved (before common placeholders are replaced).
pub fn experiment_set_dir_pattern(base_output_dir: &str, replanning_variant: &str, experiment_set_name: &str) -> (r: String)
    ensures
        r@ == experiment_set_dir(base_output_dir@, replanning_variant@, experiment_set_name@),
{
    proof {
        reveal_strlit("{base_output_dir}");
        reveal_strlit("{replanning_variant}");
        reveal_strlit("{experiment_set_name}");
    }
    let a = replace_str(
        "{base_output_dir}/{replanning_variant}/{experiment_set_name}",
        "{base_output_dir}",
        base_output_dir,
    );
    let b = replace_str(a.as_str(), "{replanning_variant}", replanning_variant);
    replace_str(b.as_str(), "{experiment_set_name}", experiment_set_name)
}

/// The configuration of one experiment set: its global parameters, the parameter sweep
/// and the modules to run, in order.
pub struct Config {
    pub globals: Option<StrMap<YamlValue>>,
    pub param_sweep: StrMap<Vec<YamlValue>>,
    pub modules: Vec<ModuleConfig>,
}

/// The experiment set's global parameters, if it has any.
pub open spec fn globals_view(c: Config) -> Option<Map<Seq<char>, YamlValue>> {
    match c.globals {
        Some(g) => Some(g@),
        None => None,
    }
}

/// The experiment set's global parameter `key`, or the error naming it.
pub open spec fn expset_global(globals: Option<Map<Seq<char>, YamlValue>>, key: Seq<char>) -> Result<
    YamlValue,
    Seq<char>,
> {
    match globals {
        Some(g) => if g.contains_key(key) {
            Ok(g[key])
        } else {
            Err("Global parameter '"@ + key + "' not found in config."@)
        },
        None => Err("Global parameter '"@ + key + "' not found in config."@),
    }
}

/// The swept values of `key`, or the error naming it.
pub open spec fn sweep_values(sweep: Map<Seq<char>, Vec<YamlValue>>, key: Seq<char>) -> Result<
    Seq<YamlValue>,
    Seq<char>,
> {
    if sweep.contains_key(key) {
        Ok(sweep[key]@)
    } else {
        Err("Missing param_sweep key: "@ + key)
    }
}

/// The bash array declaration `var=(v1 v2 ...)` of the swept values of `key`, each
/// value as a shell argument.
pub open spec fn sweep_array_decl(sweep: Map<Seq<char>, Vec<YamlValue>>, key: Seq<char>, var: Seq<char>) -> Result<
    Seq<char>,
    Seq<char>,
> {
    match sweep_values(sweep, key) {
        Err(e) => Err(e),
        Ok(vals) => if vals.len() == 0 {
            Err("param_sweep."@ + key + " must not be empty"@)
        } else {
            match shell_atoms(vals) {
                Err(e) => Err(e),
                Ok(parts) => Ok(var + "=("@ + join(parts, " "@) + ")"@),
            }
        },
    }
}

impl Config {
    /// The experiment set's global parameter `key`.
    pub fn get_expset_config_globals_parameter(&self, key: &str) -> (r: Result<&YamlValue, String>)
        ensures
            value_result(r) == expset_global(globals_view(*self), key@),
    {
        match &self.globals {
            Some(g) => match g.get(key) {
                Some(v) => return Ok(v),
                None => {},
            },
            None => {},
        }
        let mut e = String::from_str("Global parameter '");
        e.append(key);
        e.append("' not found in config.");
        Err(e)
    }

    /// The swept values of `key`.
    pub fn get_expset_config_param_sweep_parameter(&self, key: &str) -> (r: Result<&Vec<YamlValue>, String>)
        ensures
            match r {
                Ok(v) => sweep_values(self.param_sweep@, key@) == Ok::<Seq<YamlValue>, Seq<char>>(v@),
                Err(e) => sweep_values(self.param_sweep@, key@) == Err::<Seq<YamlValue>, Seq<char>>(e@),
            },
    {
        match self.param_sweep.get(key) {
            Some(v) => Ok(v),
            None => {
                let mut e = String::from_str("Missing param_sweep key: ");
                e.append(key);
                Err(e)
            },
        }
    }

    /// The bash array declaration `var_name=(v1 v2 ...)` of the swept values of `key`.
    pub fn get_sweep_array_decl(&self, key: &str, var_name: &str) -> (r: Result<String, String>)
        ensures
            text_result(r) == sweep_array_decl(self.param_sweep@, key@, var_name@),
    {
        let values = match self.get_expset_config_param_sweep_parameter(key) {
            Ok(v) => v,
            Err(e) => return Err(e),
        };
        if values.len() == 0 {
            let mut e = String::from_str("param_sweep.");
            e.append(key);
            e.append(" must not be empty");
            return Err(e);
        }
        match yaml_values_as_shell_atoms(values) {
            Err(e) => Err(e),
            Ok(atoms) => {
                let joined = join_strings(&atoms, " ");
                let mut r = String::from_str(var_name);
                r.append("=(");
                r.append(joined.as_str());
                r.append(")");
                Ok(r)
            },
        }
    }
}


impl Config {
    /// What each module runs, in the modules' order: its function and script, or the
    /// error that stops it. Running them in order, and stopping at the first error or
    /// failed run, runs the experiment set.
    pub fn run_all_modules(&self, global_config: &GlobalConfig) -> (r: Vec<Result<BashRun, String>>)
        ensures
            r@.len() == self.modules@.len(),
            forall|i: int|
                0 <= i < r@.len() ==> run_result(#[trigger] r@[i]) == self.modules@[i].planned_run(
                    *self,
                    *global_config,
                ),
    {
        let mut runs: Vec<Result<BashRun, String>> = Vec::new();
        let mut i: usize = 0;
        while i < self.modules.len()
            invariant
                i <= self.modules@.len(),
                runs@.len() == i,
                forall|k: int|
                    0 <= k < i ==> run_result(#[trigger] runs@[k]) == self.modules@[k].planned_run(
                        *self,
                        *global_config,
                    ),
            decreases self.modules@.len() - i,
        {
            runs.push(self.modules[i].run(self, global_config));
            i = i + 1;
        }
        runs
    }
}

/// The overwrites a module has, taken by their view.
pub open spec fn overwrites_result(r: Option<&StrMap<YamlValue>>) -> Option<Map<Seq<char>, YamlValue>> {
    match r {
        Some(m) => Some(m@),
        None => None,
    }
}

/// A module's overwrite of the parameter `name` if it has one, else the experiment
/// set's global parameter `name`.
pub open spec fn param_or_overwrite(
    overwrites: Option<Map<Seq<char>, YamlValue>>,
    globals: Option<Map<Seq<char>, YamlValue>>,
    name: Seq<char>,
) -> Result<YamlValue, Seq<char>> {
    match overwrites {
        Some(m) => if m.contains_key(name) {
            Ok(m[name])
        } else {
            expset_global(globals, name)
        },
        None => expset_global(globals, name),
    }
}

/// The overwrite of the parameter `param_name` if there is one, else the experiment
/// set's global parameter.
pub fn expset_parameter_or_overwrite(
    overwrites: Option<&StrMap<YamlValue>>,
    config: &Config,
    param_name: &str,
) -> (r: Result<YamlValue, String>)
    ensures
        owned_value_result(r) == param_or_overwrite(
            overwrites_result(overwrites),
            globals_view(*config),
            param_name@,
        ),
{
    match overwrites {
        Some(overwrites) => match overwrites.get(param_name) {
            Some(value) => return Ok(value.clone()),
            None => {},
        },
        None => {},
    }
    match config.get_expset_config_globals_parameter(param_name) {
        Ok(v) => Ok(v.clone()),
        Err(e) => Err(e),
    }
}

/// The bash function to run and the script that runs it.
pub struct BashRun {
    pub function_name: String,
    pub script: String,
}

impl BashRun {
    /// The outcome of running the function: `Ok` when the run succeeded; else the
    /// error naming the function and the exit status, or, when it could not be started,
    /// the error naming the function and why.
    pub fn run_outcome(&self, run: Result<(bool, String), String>) -> (r: Result<(), String>)
        ensures
            match run {
                Err(e) => r is Err && r->Err_0@ == unstarted_run_message(self.function_name@, e@),
                Ok((success, status)) => if success {
                    r is Ok
                } else {
                    r is Err && r->Err_0@ == failed_run_message(self.function_name@, status@)
                },
            },
    {
        match run {
            Err(e) => {
                let mut m = String::from_str("Failed to run bash function ");
                m.append(self.function_name.as_str());
                m.append(" in parallel: ");
                m.append(e.as_str());
                Err(m)
            },
            Ok((success, status)) => if success {
                Ok(())
            } else {
                let mut m = String::from_str("Bash function ");
                m.append(self.function_name.as_str());
                m.append(" failed with status ");
                m.append(status.as_str());
                m.append(".");
                Err(m)
            },
        }
    }
}

/// A planned run taken by its view: function name and script.
pub open spec fn run_result(r: Result<BashRun, String>) -> Result<(Seq<char>, Seq<char>), Seq<char>> {
    match r {
        Ok(b) => Ok((b.function_name@, b.script@)),
        Err(e) => Err(e@),
    }
}

/// A module of an experiment set: it runs one bash function for every combination of
/// the swept parameters.
pub trait Module {
    /// The module's overwrites of the experiment set's global parameters.
    spec fn overwrites_view(&self) -> Option<Map<Seq<char>, YamlValue>>;

    /// The function and script the module runs for the given configuration, or the
    /// error that stops it.
    spec fn planned_run(&self, config: Config, global_config: GlobalConfig) -> Result<
        (Seq<char>, Seq<char>),
        Seq<char>,
    >;

    /// The module's overwrites of the experiment set's global parameters.
    fn get_overwrites(&self) -> (r: Option<&StrMap<YamlValue>>)
        ensures
            overwrites_result(r) == self.overwrites_view(),
    ;

    /// The module's overwrite of the parameter `param_name` if it has one, else the
    /// experiment set's global parameter (the global configuration is not read).
    fn get_expset_config_global_parameter_or_overwrite(&self, config: &Config, param_name: &str) -> (r: Result<
        YamlValue,
        String,
    >)
        ensures
            owned_value_result(r) == param_or_overwrite(
                self.overwrites_view(),
                globals_view(*config),
                param_name@,
            ),
    {
        expset_parameter_or_overwrite(self.get_overwrites(), config, param_name)
    }

    /// The function and script the module runs.
    fn run(&self, config: &Config, global_config: &GlobalConfig) -> (r: Result<BashRun, String>)
        ensures
            run_result(r) == self.planned_run(*config, *global_config),
    ;
}

} // verus!
