use braess_experiments::config::GlobalConfig;
use braess_experiments::runners::{
    corrected_population_path, experiment_output_dir, original_plans_file, vehicles_file_name,
    ReplanningVariant,
};
use braess_experiments::str_map::StrMap;
use braess_experiments::utils::{
    file_name_end_pattern, replace_file_name_end_placeholder_in_path_pattern, replace_placeholders,
    replace_placeholders_in_path_pattern,
};
use braess_experiments::yaml::YamlValue;

fn gc(entries: Vec<(&str, &str)>) -> GlobalConfig {
    let mut m = StrMap::new();
    for (k, v) in entries {
        m.insert(k.to_string(), YamlValue::String(v.to_string()));
    }
    GlobalConfig { global_parameters: m }
}

#[test]
fn all_placeholders_are_replaced() {
    let r = replace_placeholders_in_path_pattern(
        "{base_output_dir}/{experiment_set_name}/{replanning_variant}/beta{beta}/r{read_from_random}/u{use_random_seed}/b{beta}",
        Some("/out"),
        Some("set"),
        Some("sel-exp1-switch-at50"),
        Some(2),
        Some(7),
        Some(42),
    );
    assert_eq!(r, "/out/set/sel-exp1-switch-at50/beta2/r7/u42/b2");
}

#[test]
fn placeholders_without_value_stay() {
    let r = replace_placeholders_in_path_pattern(
        "{base_output_dir}/beta{beta}/{use_random_seed}",
        None,
        None,
        None,
        Some(10),
        None,
        None,
    );
    assert_eq!(r, "{base_output_dir}/beta10/{use_random_seed}");
}

#[test]
fn pattern_without_placeholders_is_unchanged() {
    let p = "/data/plain_file.csv";
    assert_eq!(
        replace_placeholders_in_path_pattern(p, Some("a"), Some("b"), Some("c"), Some(1), Some(2), Some(3)),
        p
    );
}

#[test]
fn values_are_inserted_in_order() {
    // a value that itself holds a later placeholder gets that one replaced too
    let r = replace_placeholders("{base_output_dir}", Some("x{beta}"), None, None, Some(5), None, None);
    assert_eq!(r, "x5");
    // an earlier placeholder inserted by a later value stays
    let r = replace_placeholders("{beta}", Some("o"), None, None, None, None, None);
    assert_eq!(r, "{beta}");
    let r = replace_placeholders("{read_from_random}", Some("o"), None, None, None, Some(0), None);
    assert_eq!(r, "0");
}

#[test]
fn file_name_end_from_global_config() {
    let g = gc(vec![
        ("file_name_end_pattern_with_beta_rr", "beta{beta}_rr{read_from_random}"),
        ("file_name_end_pattern_with_beta_rr_ur", "beta{beta}_rr{read_from_random}_ur{use_random_seed}"),
    ]);
    assert_eq!(
        replace_file_name_end_placeholder_in_path_pattern("out/{file_name_end}.csv", &g, None),
        "out/beta{beta}_rr{read_from_random}.csv"
    );
    assert_eq!(
        replace_file_name_end_placeholder_in_path_pattern("out/{file_name_end}.csv", &g, Some(3)),
        "out/beta{beta}_rr{read_from_random}_ur{use_random_seed}.csv"
    );
}

#[test]
fn replanning_variant_names() {
    assert_eq!(
        ReplanningVariant::SelExp1SwitchAt50.get_folder_name(),
        "2026-05-8-12-16-8_500it_reRouteProba0.1until0.5it_selExpBeta1proba0.9_msaFrom0.5it"
    );
    assert_eq!(
        ReplanningVariant::SelExp10SwitchAt80.get_folder_name(),
        "2026-05-12-8-42-24_500it_reRouteProba0.1until0.8it_selExpBeta10proba0.9_msaFrom0.8it"
    );
    assert_eq!(ReplanningVariant::SelExp1SwitchAt80.to_string(), "sel-exp1-switch-at80");
    assert_eq!(ReplanningVariant::SelExp10SwitchAt80.to_string(), "sel-exp10-switch-at80");
}

#[test]
fn runner_file_names() {
    assert_eq!(vehicles_file_name(8), "no_spillback_beta8_vehicles.xml");
    assert_eq!(
        original_plans_file(ReplanningVariant::SelExp1SwitchAt80, 2, 13),
        "2026-05-10-10-2-21_500it_reRouteProba0.1until0.8it_selExpBeta1proba0.9_msaFrom0.8it/beta2/random13/beta2random13.output_plans.xml.gz"
    );
    assert_eq!(
        experiment_output_dir(
            "{base_output_dir}/{experiment_set_name}/{replanning_variant}/b{beta}/r{read_from_random}/u{use_random_seed}",
            "/o",
            "s",
            ReplanningVariant::SelExp1SwitchAt50,
            4,
            5,
            6,
        ),
        "/o/s/sel-exp1-switch-at50/b4/r5/u6"
    );
}

#[test]
fn corrected_population_paths() {
    let g = gc(vec![("common_output_from_runs_pattern", "{base_output_dir}/{experiment_set_name}")]);
    assert_eq!(
        corrected_population_path(
            &g,
            "{common_output_from_runs_pattern}/{replanning_variant}/beta{beta}_r{read_from_random}.xml",
            "/base",
            "set",
            ReplanningVariant::SelExp10SwitchAt80,
            1,
            2,
        ),
        Ok("/base/set/sel-exp10-switch-at80/beta1_r2.xml".to_string())
    );
    assert_eq!(
        corrected_population_path(
            &g,
            "{common_plots_pattern}/x",
            "/base",
            "set",
            ReplanningVariant::SelExp10SwitchAt80,
            1,
            2,
        ),
        Err("Global parameter 'common_plots_pattern' not found in global config.".to_string())
    );
}

#[test]
fn file_name_end_pattern_lookup() {
    let g = gc(vec![("file_name_end_pattern_with_beta_rr", "b{beta}")]);
    assert_eq!(file_name_end_pattern(&g, None), Ok(&"b{beta}".to_string()));
    assert_eq!(
        file_name_end_pattern(&g, Some(1)),
        Err("Failed to get file_name_end_pattern_with_beta_rr_ur from global config".to_string())
    );
    let mut params = StrMap::new();
    params.insert("file_name_end_pattern_with_beta_rr".to_string(), YamlValue::Bool(true));
    let g = GlobalConfig { global_parameters: params };
    assert_eq!(
        file_name_end_pattern(&g, None),
        Err("file_name_end_pattern_with_beta_rr must be a string".to_string())
    );
}
