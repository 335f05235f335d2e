use braess_experiments::bash_utils::{
    is_parallel_progress_line, join_strings, number_string, shell_escape_single_quoted,
    yaml_value_as_shell_atom, yaml_values_as_shell_atoms, BashFunction, COMMON_CODE_PATH,
};
use braess_experiments::config::{
    experiment_set_dir_pattern, expset_parameter_or_overwrite, global_log_file_path, BashRun,
    Config, GlobalConfig, Module,
};
use braess_experiments::modules::{
    ModuleConfig, OverwriteFiles, PlotTtAndSdAvgdOverSeeds,
    PlotTtAndSdDeviationToNashScatterplotsOverBeta, ReplaceActivityTimesInPopulation,
    RunRustBasedOnJavaOutput, SeedsToAvgOver,
};
use braess_experiments::str_map::StrMap;
use braess_experiments::yaml::{YamlNumber, YamlValue};

fn s(v: &str) -> YamlValue {
    YamlValue::String(v.to_string())
}

fn n(v: u64) -> YamlValue {
    YamlValue::Number(YamlNumber::PosInt(v))
}

fn params(entries: Vec<(&str, YamlValue)>) -> StrMap<YamlValue> {
    let mut m = StrMap::new();
    for (k, v) in entries {
        m.insert(k.to_string(), v);
    }
    m
}

fn test_config(modules: Vec<ModuleConfig>) -> Config {
    let mut sweep: StrMap<Vec<YamlValue>> = StrMap::new();
    sweep.insert("replanning_variants".to_string(), vec![s("sel-exp10-switch-at80")]);
    sweep.insert("betas".to_string(), vec![n(1), n(2)]);
    sweep.insert("java_seed_indices".to_string(), vec![n(0)]);
    sweep.insert("rust_seeds".to_string(), vec![n(42), n(43)]);
    Config {
        globals: Some(params(vec![
            ("experiment_set_name", s("test_set")),
            ("base_output_dir", s("/tmp/output")),
            ("max_parallel_jobs", n(20)),
        ])),
        param_sweep: sweep,
        modules,
    }
}

fn global_config() -> GlobalConfig {
    GlobalConfig {
        global_parameters: params(vec![
            ("common_output_from_runs_pattern", s("/runs/{experiment_set_name}")),
            ("common_plots_pattern", s("/plots")),
            ("original_dir_to_read_from", YamlValue::Number(YamlNumber::PosInt(3))),
        ]),
    }
}

fn expected_script(
    decls: [&str; 4],
    module: &str,
    name: &str,
    base: &str,
    jobs: &str,
    function: &str,
    extra: &str,
) -> String {
    format!(
        "\nset -uo pipefail\n{}\n{}\n{}\n{}\n\nsource '{}'\nsource '{}'\n\nrun_callback_for_parameter_arrays_parallel \\\n  replanning_variants \\\n  betas \\\n  java_seed_indices \\\n  rust_seeds \\\n  '{}' \\\n  '{}' \\\n  {} \\\n  {} \\\n  {}\n\nprintf \"\\n\\nAll experiments completed.\\n\"\nprint_failure_summary\n",
        decls[0], decls[1], decls[2], decls[3], COMMON_CODE_PATH, module, name, base, jobs, function, extra
    )
}

const SWEEP_DECLS: [&str; 4] = [
    "replanning_variants=('sel-exp10-switch-at80')",
    "betas=(1 2)",
    "java_seed_indices=(0)",
    "rust_seeds=(42 43)",
];

#[test]
fn shell_escape_wraps_in_single_quotes() {
    assert_eq!(shell_escape_single_quoted("abc"), "'abc'");
    assert_eq!(shell_escape_single_quoted("a'b"), "'a'\"'\"'b'");
    assert_eq!(shell_escape_single_quoted(""), "''");
}

#[test]
fn shell_quoting_can_be_undone() {
    for s in ["", "abc", "it's", "''", "a'b'c", "$HOME `x` \"q\""] {
        let q = shell_escape_single_quoted(s);
        assert_eq!(q.len(), s.len() + 2 + 4 * s.matches('\'').count());
        assert!(q.starts_with('\'') && q.ends_with('\''));
        assert_eq!(q[1..q.len() - 1].replace("'\"'\"'", "'"), s);
    }
}

#[test]
fn yaml_values_as_shell_atoms_by_kind() {
    assert_eq!(yaml_value_as_shell_atom(&s("x y")), Ok("'x y'".to_string()));
    assert_eq!(yaml_value_as_shell_atom(&n(42)), Ok("42".to_string()));
    assert_eq!(
        yaml_value_as_shell_atom(&YamlValue::Number(YamlNumber::NegInt(-3))),
        Ok("-3".to_string())
    );
    assert_eq!(
        yaml_value_as_shell_atom(&YamlValue::Number(YamlNumber::Float("0.5".to_string()))),
        Ok("0.5".to_string())
    );
    assert_eq!(yaml_value_as_shell_atom(&YamlValue::Bool(true)), Ok("true".to_string()));
    assert_eq!(yaml_value_as_shell_atom(&YamlValue::Bool(false)), Ok("false".to_string()));
    assert_eq!(
        yaml_value_as_shell_atom(&YamlValue::Null),
        Err("Unsupported YAML value for shell arg: Null".to_string())
    );
    assert_eq!(
        yaml_value_as_shell_atom(&YamlValue::Collection("Sequence [Number(1)]".to_string())),
        Err("Unsupported YAML value for shell arg: Sequence [Number(1)]".to_string())
    );
    assert_eq!(
        yaml_values_as_shell_atoms(&vec![n(1), s("a")]),
        Ok(vec!["1".to_string(), "'a'".to_string()])
    );
    assert!(yaml_values_as_shell_atoms(&vec![n(1), YamlValue::Null]).is_err());
}

#[test]
fn numbers_and_joins_as_text() {
    assert_eq!(number_string(&YamlNumber::PosInt(0)), "0");
    assert_eq!(number_string(&YamlNumber::PosInt(18446744073709551615)), "18446744073709551615");
    assert_eq!(number_string(&YamlNumber::NegInt(-9223372036854775808)), "-9223372036854775808");
    assert_eq!(join_strings(&vec!["a".to_string(), "b".to_string(), "c".to_string()], ", "), "a, b, c");
    assert_eq!(join_strings(&vec![], " "), "");
}

#[test]
fn progress_lines_of_parallel_are_recognised() {
    assert!(is_parallel_progress_line("\r#  50% 1:1=0s 2"));
    assert!(!is_parallel_progress_line("#  50% 1:1=0s 2"));
    assert!(!is_parallel_progress_line("\rfailed: 50%"));
    assert!(!is_parallel_progress_line("\r# done"));
    assert!(!is_parallel_progress_line(""));
}

#[test]
fn global_parameter_lookup() {
    let gc = global_config();
    assert_eq!(gc.get_global_config_parameter("common_plots_pattern"), Ok(&s("/plots")));
    assert_eq!(
        gc.get_global_config_parameter("nope"),
        Err("Global parameter 'nope' not found in global config.".to_string())
    );
}

#[test]
fn common_patterns_are_replaced_from_the_global_config() {
    let gc = global_config();
    assert_eq!(
        gc.replace_common_pattern("{common_output_from_runs_pattern}/tt.csv"),
        Ok("/runs/{experiment_set_name}/tt.csv".to_string())
    );
    assert_eq!(
        gc.replace_common_pattern("{common_plots_pattern}/a/{common_plots_pattern}"),
        Ok("/plots/a//plots".to_string())
    );
    assert_eq!(gc.replace_common_pattern("/plain/path"), Ok("/plain/path".to_string()));
    assert_eq!(
        gc.replace_common_pattern("{common_extracted_data_pattern}/x"),
        Err("Global parameter 'common_extracted_data_pattern' not found in global config.".to_string())
    );
    assert_eq!(
        gc.replace_common_pattern("{original_dir_to_read_from}/x"),
        Err("original_dir_to_read_from must be a string".to_string())
    );
    // only the first placeholder found (in the fixed order) is replaced
    assert_eq!(
        gc.replace_common_pattern("{common_plots_pattern}{common_output_from_runs_pattern}"),
        Ok("{common_plots_pattern}/runs/{experiment_set_name}".to_string())
    );
}

#[test]
fn experiment_set_lookups() {
    let c = test_config(vec![]);
    assert_eq!(c.get_expset_config_globals_parameter("max_parallel_jobs"), Ok(&n(20)));
    assert_eq!(
        c.get_expset_config_globals_parameter("x"),
        Err("Global parameter 'x' not found in config.".to_string())
    );
    assert_eq!(c.get_expset_config_param_sweep_parameter("betas"), Ok(&vec![n(1), n(2)]));
    assert_eq!(
        c.get_expset_config_param_sweep_parameter("gammas"),
        Err("Missing param_sweep key: gammas".to_string())
    );
    let no_globals = Config { globals: None, param_sweep: StrMap::new(), modules: vec![] };
    assert_eq!(
        no_globals.get_expset_config_globals_parameter("a"),
        Err("Global parameter 'a' not found in config.".to_string())
    );
}

#[test]
fn sweep_array_declarations() {
    let mut c = test_config(vec![]);
    assert_eq!(c.get_sweep_array_decl("rust_seeds", "seeds"), Ok("seeds=(42 43)".to_string()));
    assert_eq!(
        c.get_sweep_array_decl("replanning_variants", "replanning_variants"),
        Ok("replanning_variants=('sel-exp10-switch-at80')".to_string())
    );
    assert_eq!(
        c.get_sweep_array_decl("gammas", "g"),
        Err("Missing param_sweep key: gammas".to_string())
    );
    c.param_sweep.insert("empty".to_string(), vec![]);
    assert_eq!(
        c.get_sweep_array_decl("empty", "e"),
        Err("param_sweep.empty must not be empty".to_string())
    );
}

#[test]
fn overwrites_win_over_experiment_set_globals() {
    let c = test_config(vec![]);
    let ov = params(vec![("base_output_dir", s("/elsewhere"))]);
    assert_eq!(expset_parameter_or_overwrite(Some(&ov), &c, "base_output_dir"), Ok(s("/elsewhere")));
    assert_eq!(expset_parameter_or_overwrite(Some(&ov), &c, "max_parallel_jobs"), Ok(n(20)));
    assert_eq!(expset_parameter_or_overwrite(None, &c, "base_output_dir"), Ok(s("/tmp/output")));
    let m = ReplaceActivityTimesInPopulation { overwrites: Some(ov) };
    assert_eq!(
        m.get_expset_config_global_parameter_or_overwrite(&c, "base_output_dir"),
        Ok(s("/elsewhere"))
    );
    assert_eq!(
        m.get_expset_config_global_parameter_or_overwrite(&c, "nope"),
        Err("Global parameter 'nope' not found in config.".to_string())
    );
}

#[test]
fn script_for_all_parameter_combinations() {
    let c = test_config(vec![]);
    let f = BashFunction::new("my_fn", "./modules/my.sh");
    let run = f
        .script_for_cartprod(&c, None, Some(vec!["a b".to_string(), "it's".to_string()]), None)
        .unwrap();
    assert_eq!(run.function_name, "my_fn");
    assert_eq!(
        run.script,
        expected_script(
            SWEEP_DECLS,
            "./modules/my.sh",
            "test_set",
            "/tmp/output",
            "20",
            "my_fn",
            "'a b' 'it'\"'\"'s'"
        )
    );
}

#[test]
fn script_uses_sweep_overwrites_and_module_overwrites() {
    let c = test_config(vec![]);
    let f = BashFunction::new("g", "m.sh");
    let mut sweep_ov: StrMap<String> = StrMap::new();
    sweep_ov.insert("rust_seeds".to_string(), "rust_seeds=('avg')".to_string());
    let ov = params(vec![("max_parallel_jobs", YamlValue::Number(YamlNumber::NegInt(-1)))]);
    let run = f.script_for_cartprod(&c, Some(&ov), None, Some(sweep_ov)).unwrap();
    let decls = [SWEEP_DECLS[0], SWEEP_DECLS[1], SWEEP_DECLS[2], "rust_seeds=('avg')"];
    assert_eq!(run.script, expected_script(decls, "m.sh", "test_set", "/tmp/output", "-1", "g", ""));
}

#[test]
fn script_errors_name_the_missing_or_mistyped_parameter() {
    let f = BashFunction::new("g", "m.sh");
    let mut c = test_config(vec![]);
    let ov = params(vec![("experiment_set_name", n(1))]);
    assert_eq!(
        f.script_for_cartprod(&c, Some(&ov), None, None).err(),
        Some("experiment_set_name must be string".to_string())
    );
    let ov = params(vec![("max_parallel_jobs", s("many"))]);
    assert_eq!(
        f.script_for_cartprod(&c, Some(&ov), None, None).err(),
        Some("max_parallel_jobs must be integer".to_string())
    );
    c.globals = None;
    assert_eq!(
        f.script_for_cartprod(&c, None, None, None).err(),
        Some("Global parameter 'experiment_set_name' not found in config.".to_string())
    );
    let empty = Config { globals: None, param_sweep: StrMap::new(), modules: vec![] };
    assert_eq!(
        f.script_for_cartprod(&empty, None, None, None).err(),
        Some("Missing param_sweep key: replanning_variants".to_string())
    );
}

#[test]
fn run_outcomes() {
    let f = BashRun { function_name: "g".to_string(), script: String::new() };
    assert_eq!(f.run_outcome(Ok((true, "exit status: 0".to_string()))), Ok(()));
    assert_eq!(
        f.run_outcome(Ok((false, "exit status: 2".to_string()))),
        Err("Bash function g failed with status exit status: 2.".to_string())
    );
    assert_eq!(
        f.run_outcome(Err("No such file".to_string())),
        Err("Failed to run bash function g in parallel: No such file".to_string())
    );
}

#[test]
fn all_modules_are_planned_in_order() {
    let c = test_config(vec![
        ModuleConfig::RunRustBasedOnJavaOutput(RunRustBasedOnJavaOutput {
            overwrite_mode: OverwriteFiles::DeleteDirectoryIfExists,
            overwrites: None,
        }),
        ModuleConfig::PlotTtAndSdAvgdOverSeeds(PlotTtAndSdAvgdOverSeeds {
            overwrites: None,
            seeds_to_avg_over: SeedsToAvgOver::RustSeeds,
        }),
    ]);
    let gc = global_config();
    let runs = c.run_all_modules(&gc);
    assert_eq!(runs.len(), 2);
    let first = runs[0].as_ref().unwrap();
    assert_eq!(first.function_name, "run_experiment_case");
    assert_eq!(
        first.script,
        expected_script(
            SWEEP_DECLS,
            "./experiments/compare_braess_to_java/runnable_modules/run_rust_based_on_java_output.sh",
            "test_set",
            "/tmp/output",
            "20",
            "run_experiment_case",
            "'true'"
        )
    );
    // the plot module needs the csv path patterns, which this experiment set lacks
    assert_eq!(
        runs[1].as_ref().err(),
        Some(&"Global parameter 'tt_csv_path_pattern' not found in config.".to_string())
    );
    assert!(c.modules[0].get_overwrites().is_none());
    assert_eq!(c.modules[0].run_announcement_name(), "RunRustBasedOnJavaOutput");
    assert_eq!(c.modules[1].run_announcement_name(), "PlotTtAndSdAvgdOverSeeds");
    let nash = ModuleConfig::PlotTtAndSdDeviationToNashScatterplotsOverBeta(
        PlotTtAndSdDeviationToNashScatterplotsOverBeta { overwrites: None, seeds_to_avg_over: SeedsToAvgOver::RustSeeds },
    );
    assert_eq!(nash.run_announcement_name(), "PlotTtAndSdDeviationScatterplotsOverBeta");
}

#[test]
fn plot_averaged_over_seeds_runs_once_for_all_seeds() {
    let c = test_config(vec![]);
    let m = ModuleConfig::PlotTtAndSdAvgdOverSeeds(PlotTtAndSdAvgdOverSeeds {
        overwrites: Some(params(vec![
            ("tt_csv_path_pattern", s("{common_plots_pattern}/tt.csv")),
            ("sd_csv_path_pattern", s("sd.csv")),
        ])),
        seeds_to_avg_over: SeedsToAvgOver::RustSeeds,
    });
    let run = m.run(&c, &global_config()).unwrap();
    assert_eq!(run.function_name, "plot_avgd_over_seeds_case");
    let decls = [SWEEP_DECLS[0], SWEEP_DECLS[1], SWEEP_DECLS[2], "rust_seeds=('avg_over_all')"];
    assert_eq!(
        run.script,
        expected_script(
            decls,
            "./experiments/compare_braess_to_java/runnable_modules/plot_tt_and_sd_avgd_over_seeds.sh",
            "test_set",
            "/tmp/output",
            "20",
            "plot_avgd_over_seeds_case",
            "'/plots/tt.csv' 'sd.csv' '42 43'"
        )
    );
}

#[test]
fn log_file_and_experiment_set_dir_paths() {
    assert_eq!(
        global_log_file_path("{base_output_dir}/{replanning_variant}/{experiment_set_name}/log.txt", "/o", "s"),
        "/o/sel-exp10-switch-at80/s/log.txt"
    );
    assert_eq!(global_log_file_path("run.log", "/o", "s"), "run.log");
    assert_eq!(experiment_set_dir_pattern("/o", "sel-exp1-switch-at50", "s"), "/o/sel-exp1-switch-at50/s");
}
