//! Placeholders in path patterns: `{base_output_dir}`, `{experiment_set_name}`,
//! `{replanning_variant}`, `{beta}`, `{read_from_random}`, `{use_random_seed}` and
//! `{file_name_end}`.

use crate::config::GlobalConfig;
use crate::text::{contains_seq, decimal, law_replace_absent_pattern, occurs_at, replace_all, replace_str, u64_text};
use crate::yaml::as_str_spec;
use vstd::prelude::*;

verus! {

/// `s` with `placeholder` replaced by the value, if there is one.
pub open spec fn replace_if_given(s: Seq<char>, placeholder: Seq<char>, value: Option<Seq<char>>) -> Seq<char> {
    match value {
        Some(v) => replace_all(s, placeholder, v),
        None => s,
    }
}

/// An optional text, taken by its view.
pub open spec fn opt_text(o: Option<&str>) -> Option<Seq<char>> {
    match o {
        Some(s) => Some(s@),
        None => None,
    }
}

/// An optional number, as decimal text.
pub open spec fn opt_decimal(o: Option<u64>) -> Option<Seq<char>> {
    match o {
        Some(n) => Some(decimal(n as nat)),
        None => None,
    }
}

/// An optional `usize`, widened.
pub open spec fn widen(o: Option<usize>) -> Option<u64> {
    match o {
        Some(n) => Some(n as u64),
        None => None,
    }
}

/// The path pattern with each placeholder that has a value replaced, in the order
/// `{base_output_dir}`, `{experiment_set_name}`, `{replanning_variant}`, `{beta}`,
/// `{read_from_random}`, `{use_random_seed}`.
pub open spec fn placeholders_replaced(
    pattern: Seq<char>,
    base_output_dir: Option<Seq<char>>,
    experiment_set_name: Option<Seq<char>>,
    replanning_variant: Option<Seq<char>>,
    beta: Option<u64>,
    read_from_random: Option<u64>,
    use_random_seed: Option<u64>,
) -> Seq<char> {
    let s = replace_if_given(pattern, "{base_output_dir}"@, base_output_dir);
    let s = replace_if_given(s, "{experiment_set_name}"@, experiment_set_name);
    let s = replace_if_given(s, "{replanning_variant}"@, replanning_variant);
    let s = replace_if_given(s, "{beta}"@, opt_decimal(beta));
    let s = replace_if_given(s, "{read_from_random}"@, opt_decimal(read_from_random));
    replace_if_given(s, "{use_random_seed}"@, opt_decimal(use_random_seed))
}

fn replace_text_if_given(s: String, placeholder: &str, value: Option<&str>) -> (r: String)
    ensures
        r@ == replace_if_given(s@, placeholder@, opt_text(value)),
{
    match value {
        Some(v) => replace_str(s.as_str(), placeholder, v),
        None => s,
    }
}

fn replace_number_if_given(s: String, placeholder: &str, value: Option<u64>) -> (r: String)
    ensures
        r@ == replace_if_given(s@, placeholder@, opt_decimal(value)),
{
    match value {
        Some(v) => {
            let text = u64_text(v);
            replace_str(s.as_str(), placeholder, text.as_str())
        },
        None => s,
    }
}

/// The path pattern with each placeholder that has a value replaced; numbers are
/// written in decimal.
pub fn replace_placeholders(
    path_pattern: &str,
    base_output_dir: Option<&str>,
    experiment_set_name: Option<&str>,
    replanning_variant: Option<&str>,
    beta: Option<u64>,
    read_from_random: Option<u64>,
    use_random_seed: Option<u64>,
) -> (r: String)
    ensures
        r@ == placeholders_replaced(
            path_pattern@,
            opt_text(base_output_dir),
            opt_text(experiment_set_name),
            opt_text(replanning_variant),
            beta,
            read_from_random,
            use_random_seed,
        ),
{
    proof {
        reveal_strlit("{base_output_dir}");
        reveal_strlit("{experiment_set_name}");
        reveal_strlit("{replanning_variant}");
        reveal_strlit("{beta}");
        reveal_strlit("{read_from_random}");
        reveal_strlit("{use_random_seed}");
    }
    let result = String::from_str(path_pattern);
    let result = replace_text_if_given(result, "{base_output_dir}", base_output_dir);
    let result = replace_text_if_given(result, "{experiment_set_name}", experiment_set_name);
    let result = replace_text_if_given(result, "{replanning_variant}", replanning_variant);
    let result = replace_number_if_given(result, "{beta}", beta);
    let result = replace_number_if_given(result, "{read_from_random}", read_from_random);
    replace_number_if_given(result, "{use_random_seed}", use_random_seed)
}

fn widen_exec(o: Option<usize>) -> (r: Option<u64>)
    ensures
        r == widen(o),
{
    match o {
        Some(n) => Some(n as u64),
        None => None,
    }
}

/// The path pattern with each placeholder that has a value replaced, in the order
/// `{base_output_dir}`, `{experiment_set_name}`, `{replanning_variant}`, `{beta}`,
/// `{read_from_random}`, `{use_random_seed}`; numbers are written in decimal.
pub fn replace_placeholders_in_path_pattern(
    path_pattern: &str,
    base_output_dir: Option<&str>,
    experiment_set_name: Option<&str>,
    replanning_variant: Option<&str>,
    beta: Option<usize>,
    read_from_random: Option<usize>,
    use_random_seed: Option<usize>,
) -> (r: String)
    ensures
        r@ == placeholders_replaced(
            path_pattern@,
            opt_text(base_output_dir),
            opt_text(experiment_set_name),
            opt_text(replanning_variant),
            widen(beta),
            widen(read_from_random),
            widen(use_random_seed),
        ),
{
    replace_placeholders(
        path_pattern,
        base_output_dir,
        experiment_set_name,
        replanning_variant,
        widen_exec(beta),
        widen_exec(read_from_random),
        widen_exec(use_random_seed),
    )
}

/// A placeholder (which starts with `{`) does not occur in a text without `{`.
proof fn lemma_no_brace_no_placeholder(s: Seq<char>, placeholder: Seq<char>)
    requires
        !s.contains('{'),
        placeholder.len() > 0,
        placeholder[0] == '{',
    ensures
        !contains_seq(s, placeholder),
{
    assert forall|i: int| !occurs_at(s, placeholder, i) by {
        if occurs_at(s, placeholder, i) {
            assert(s.subrange(i, i + placeholder.len())[0] == s[i]);
            assert(s[i] == '{');
        }
    }
}

/// `replace_if_given` leaves a text without `{` unchanged when the placeholder starts
/// with `{`.
proof fn lemma_no_brace_unchanged(s: Seq<char>, placeholder: Seq<char>, value: Option<Seq<char>>)
    requires
        !s.contains('{'),
        placeholder.len() > 0,
        placeholder[0] == '{',
    ensures
        replace_if_given(s, placeholder, value) == s,
{
    if let Some(v) = value {
        lemma_no_brace_no_placeholder(s, placeholder);
        law_replace_absent_pattern(s, placeholder, v);
    }
}

/// A path pattern without `{` holds no placeholder: it comes back unchanged, whatever
/// values are given.
pub proof fn law_pattern_without_placeholders_unchanged(
    pattern: Seq<char>,
    base_output_dir: Option<Seq<char>>,
    experiment_set_name: Option<Seq<char>>,
    replanning_variant: Option<Seq<char>>,
    beta: Option<u64>,
    read_from_random: Option<u64>,
    use_random_seed: Option<u64>,
)
    requires
        !pattern.contains('{'),
    ensures
        placeholders_replaced(
            pattern,
            base_output_dir,
            experiment_set_name,
            replanning_variant,
            beta,
            read_from_random,
            use_random_seed,
        ) == pattern,
{
    reveal_strlit("{base_output_dir}");
    reveal_strlit("{experiment_set_name}");
    reveal_strlit("{replanning_variant}");
    reveal_strlit("{beta}");
    reveal_strlit("{read_from_random}");
    reveal_strlit("{use_random_seed}");
    lemma_no_brace_unchanged(pattern, "{base_output_dir}"@, base_output_dir);
    lemma_no_brace_unchanged(pattern, "{experiment_set_name}"@, experiment_set_name);
    lemma_no_brace_unchanged(pattern, "{replanning_variant}"@, replanning_variant);
    lemma_no_brace_unchanged(pattern, "{beta}"@, opt_decimal(beta));
    lemma_no_brace_unchanged(pattern, "{read_from_random}"@, opt_decimal(read_from_random));
    lemma_no_brace_unchanged(pattern, "{use_random_seed}"@, opt_decimal(use_random_seed));
}

/// The global parameter that gives the file name end: the pattern with beta, read
/// seed and Rust seed when a Rust seed is used, else the one with beta and read seed.
pub open spec fn file_name_end_key(use_random_seed: Option<usize>) -> Seq<char> {
    if use_random_seed is Some {
        "file_name_end_pattern_with_beta_rr_ur"@
    } else {
        "file_name_end_pattern_with_beta_rr"@
    }
}

/// The global configuration has the file name end pattern as a string.
pub open spec fn has_file_name_end(global_config: GlobalConfig, use_random_seed: Option<usize>) -> bool {
    let params = global_config.global_parameters@;
    let key = file_name_end_key(use_random_seed);
    params.contains_key(key) && as_str_spec(params[key]) is Some
}

/// The file name end pattern of the global configuration, or why there is none: the
/// parameter is missing, or is not a string.
pub open spec fn file_name_end_lookup(global_config: GlobalConfig, use_random_seed: Option<usize>) -> Result<Seq<char>, Seq<char>> {
    let params = global_config.global_parameters@;
    let key = file_name_end_key(use_random_seed);
    if !params.contains_key(key) {
        Err("Failed to get "@ + key + " from global config"@)
    } else {
        match as_str_spec(params[key]) {
            None => Err(key + " must be a string"@),
            Some(s) => Ok(s),
        }
    }
}

/// The file name end pattern of the global configuration (the one with the Rust seed
/// when `use_random_seed` is given), or why there is none.
pub fn file_name_end_pattern(global_config: &GlobalConfig, use_random_seed: Option<usize>) -> (r: Result<&String, String>)
    ensures
        match r {
            Ok(s) => file_name_end_lookup(*global_config, use_random_seed) == Ok::<Seq<char>, Seq<char>>(s@),
            Err(e) => file_name_end_lookup(*global_config, use_random_seed) == Err::<Seq<char>, Seq<char>>(e@),
        },
        r is Ok <==> has_file_name_end(*global_config, use_random_seed),
{
    proof {
        reveal_strlit("file_name_end_pattern_with_beta_rr_ur");
        reveal_strlit("file_name_end_pattern_with_beta_rr");
    }
    let key = if use_random_seed.is_some() {
        "file_name_end_pattern_with_beta_rr_ur"
    } else {
        "file_name_end_pattern_with_beta_rr"
    };
    match global_config.global_parameters.get(key) {
        None => {
            let mut e = String::from_str("Failed to get ");
            e.append(key);
            e.append(" from global config");
            Err(e)
        },
        Some(v) => match v.as_str() {
            None => {
                let mut e = String::from_str(key);
                e.append(" must be a string");
                Err(e)
            },
            Some(s) => Ok(s),
        },
    }
}

/// The path pattern with `{file_name_end}` replaced by the file name end pattern of the
/// global configuration (the one with the Rust seed when `use_random_seed` is given).
pub fn replace_file_name_end_placeholder_in_path_pattern(
    path_pattern: &str,
    global_config: &GlobalConfig,
    use_random_seed: Option<usize>,
) -> (r: String)
    requires
        has_file_name_end(*global_config, use_random_seed),
    ensures
        r@ == replace_all(
            path_pattern@,
            "{file_name_end}"@,
            as_str_spec(global_config.global_parameters@[file_name_end_key(use_random_seed)])->0,
        ),
{
    proof {
        reveal_strlit("{file_name_end}");
    }
    let replace_with = match file_name_end_pattern(global_config, use_random_seed) {
        Ok(s) => s,
        Err(_) => unreached(),
    };
    replace_str(path_pattern, "{file_name_end}", replace_with.as_str())
}

} // verus!
