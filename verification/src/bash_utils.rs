//! Shell quoting of values and the bash script that runs one bash function for every
//! combination of the swept parameters.

use crate::text::{chars_of, contains_seq, law_replace_absent_pattern, contains_str, replace_all, replace_str, i64_text, u64_text, decimal, int_text};
use crate::config::{
    expset_parameter_or_overwrite, globals_view, overwrites_result, param_or_overwrite, run_result,
    sweep_array_decl, BashRun, Config,
};
use crate::str_map::StrMap;
use crate::yaml::{as_i64_spec, as_str_spec, debug_text, number_text, YamlNumber, YamlValue};
use vstd::prelude::*;

verus! {

/// A result whose texts are taken by their view.
pub open spec fn text_result(r: Result<String, String>) -> Result<Seq<char>, Seq<char>> {
    match r {
        Ok(s) => Ok(s@),
        Err(e) => Err(e@),
    }
}

/// `s` quoted for a shell: in single quotes, each `'` written as `'"'"'`.
pub open spec fn single_quoted(s: Seq<char>) -> Seq<char> {
    "'"@ + replace_all(s, "'"@, "'\"'\"'"@) + "'"@
}

/// `s` quoted for a shell: in single quotes, each `'` written as `'"'"'`
/// (`'abc'` for `abc`, `'a'"'"'b'` for `a'b`).
pub fn shell_escape_single_quoted(s: &str) -> (r: String)
    ensures
        r@ == single_quoted(s@),
{
    proof {
        reveal_strlit("'");
    }
    let inner = replace_str(s, "'", "'\"'\"'");
    let mut r = String::from_str("'");
    r.append(inner.as_str());
    r.append("'");
    r
}

/// A text without `'` is quoted by putting it between single quotes, as it is.
pub proof fn law_quoting_without_quotes(s: Seq<char>)
    requires
        !contains_seq(s, "'"@),
    ensures
        single_quoted(s) == "'"@ + s + "'"@,
{
    law_replace_absent_pattern(s, "'"@, "'\"'\"'"@);
}

/// The number of single quotes in `s`.
pub open spec fn quote_count(s: Seq<char>) -> nat
    decreases s.len(),
{
    if s.len() == 0 {
        0
    } else {
        (if s[0] == '\'' {
            1nat
        } else {
            0nat
        }) + quote_count(s.skip(1))
    }
}

/// How a single quote is written inside single quotes: close the quotes, a quote in
/// double quotes, open them again.
pub open spec fn escaped_quote() -> Seq<char> {
    "'\"'\"'"@
}

proof fn lemma_escaped_quote_chars()
    ensures
        escaped_quote() =~= seq!['\'', '"', '\'', '"', '\''],
        "'"@ =~= seq!['\''],
{
    reveal_strlit("'\"'\"'");
    reveal_strlit("'");
}

/// Escaping adds four characters per quote.
proof fn lemma_escape_len(s: Seq<char>)
    ensures
        replace_all(s, "'"@, escaped_quote()).len() == s.len() + 4 * quote_count(s),
    decreases s.len(),
{
    lemma_escaped_quote_chars();
    if s.len() > 0 {
        lemma_escape_len(s.skip(1));
        if s[0] == '\'' {
            assert(s.subrange(0, 1) =~= "'"@);
        } else {
            assert(s.subrange(0, 1) != "'"@) by {
                assert(s.subrange(0, 1)[0] == s[0]);
            }
        }
    }
}

/// Unescaping a text that starts with an escaped quote gives a quote, then the rest
/// unescaped.
proof fn lemma_unescape_escaped_quote(t: Seq<char>)
    ensures
        replace_all(escaped_quote() + t, escaped_quote(), "'"@) == "'"@ + replace_all(t, escaped_quote(), "'"@),
{
    lemma_escaped_quote_chars();
    let u = escaped_quote() + t;
    assert(u.subrange(0, 5) =~= escaped_quote());
    assert(u.skip(5) =~= t);
}

/// Unescaping a text that starts with another character keeps that character.
proof fn lemma_unescape_other(c: char, t: Seq<char>)
    requires
        c != '\'',
    ensures
        replace_all(seq![c] + t, escaped_quote(), "'"@) == seq![c] + replace_all(t, escaped_quote(), "'"@),
{
    lemma_escaped_quote_chars();
    let u = seq![c] + t;
    assert(u.skip(1) =~= t);
    if u.len() >= 5 {
        assert(u.subrange(0, 5)[0] == c);
        assert(u.subrange(0, 5) != escaped_quote());
        assert(u[0] == c);
    } else {
        assert(t.len() < 5);
        assert(replace_all(t, escaped_quote(), "'"@) == t);
    }
}

/// Unescaping undoes escaping.
proof fn lemma_unescape_escape(s: Seq<char>)
    ensures
        replace_all(replace_all(s, "'"@, escaped_quote()), escaped_quote(), "'"@) == s,
    decreases s.len(),
{
    lemma_escaped_quote_chars();
    if s.len() == 0 {
        assert(replace_all(s, "'"@, escaped_quote()) == s);
    } else {
        let rest = replace_all(s.skip(1), "'"@, escaped_quote());
        lemma_unescape_escape(s.skip(1));
        if s[0] == '\'' {
            assert(s.subrange(0, 1) =~= "'"@);
            assert(replace_all(s, "'"@, escaped_quote()) == escaped_quote() + rest);
            lemma_unescape_escaped_quote(rest);
            assert(seq!['\''] + s.skip(1) =~= s);
        } else {
            assert(s.subrange(0, 1) != "'"@) by {
                assert(s.subrange(0, 1)[0] == s[0]);
            }
            assert(replace_all(s, "'"@, escaped_quote()) == seq![s[0]] + rest);
            lemma_unescape_other(s[0], rest);
            assert(seq![s[0]] + s.skip(1) =~= s);
        }
    }
}

/// Quoting for the shell can be undone: the quoted text starts and ends with a single
/// quote, is two characters plus four per quote longer than the text, and between its
/// outer quotes, with each `'"'"'` read back as `'`, it is the text again.
pub proof fn law_quoting_round_trip(s: Seq<char>)
    ensures
        single_quoted(s).len() == s.len() + 2 + 4 * quote_count(s),
        single_quoted(s)[0] == '\'',
        single_quoted(s).last() == '\'',
        replace_all(single_quoted(s).subrange(1, single_quoted(s).len() - 1), escaped_quote(), "'"@) == s,
{
    lemma_escaped_quote_chars();
    lemma_escape_len(s);
    lemma_unescape_escape(s);
    let inner = replace_all(s, "'"@, escaped_quote());
    let q = single_quoted(s);
    assert(q == "'"@ + inner + "'"@);
    assert(q.subrange(1, q.len() - 1) =~= inner);
}

/// The shell argument a YAML value stands for: a string quoted, a number or a boolean
/// as printed; anything else is an error.
pub open spec fn shell_atom(v: YamlValue) -> Result<Seq<char>, Seq<char>> {
    match v {
        YamlValue::String(s) => Ok(single_quoted(s@)),
        YamlValue::Number(n) => Ok(number_text(n)),
        YamlValue::Bool(b) => Ok(if b {
            "true"@
        } else {
            "false"@
        }),
        _ => Err("Unsupported YAML value for shell arg: "@ + debug_text(v)),
    }
}

/// The shell argument a YAML value stands for: a string quoted, a number or a boolean
/// as printed; anything else is an error.
pub fn yaml_value_as_shell_atom(v: &YamlValue) -> (r: Result<String, String>)
    ensures
        text_result(r) == shell_atom(*v),
{
    match v {
        YamlValue::String(s) => Ok(shell_escape_single_quoted(s.as_str())),
        YamlValue::Number(n) => Ok(number_string(n)),
        YamlValue::Bool(b) => Ok(if *b {
            String::from_str("true")
        } else {
            String::from_str("false")
        }),
        YamlValue::Null => {
            let mut e = String::from_str("Unsupported YAML value for shell arg: ");
            e.append("Null");
            Err(e)
        },
        YamlValue::Collection(t) => {
            let mut e = String::from_str("Unsupported YAML value for shell arg: ");
            e.append(t.as_str());
            Err(e)
        },
        YamlValue::Tagged(_, t) => {
            let mut e = String::from_str("Unsupported YAML value for shell arg: ");
            e.append(t.as_str());
            Err(e)
        },
    }
}

/// How serde_yaml prints a number.
pub fn number_string(n: &YamlNumber) -> (r: String)
    ensures
        r@ == number_text(*n),
{
    match n {
        YamlNumber::PosInt(u) => u64_text(*u),
        YamlNumber::NegInt(i) => i64_text(*i),
        YamlNumber::Float(s) => s.clone(),
    }
}

/// The parts joined with `sep` between them (`[String]::join`).
pub open spec fn join(parts: Seq<Seq<char>>, sep: Seq<char>) -> Seq<char>
    decreases parts.len(),
{
    if parts.len() == 0 {
        Seq::empty()
    } else if parts.len() == 1 {
        parts[0]
    } else {
        join(parts.drop_last(), sep) + sep + parts.last()
    }
}

/// The views of a list of strings.
pub open spec fn texts(v: Seq<String>) -> Seq<Seq<char>> {
    v.map_values(|s: String| s@)
}

/// The parts joined with `sep` between them (`[String]::join`).
pub fn join_strings(parts: &Vec<String>, sep: &str) -> (r: String)
    ensures
        r@ == join(texts(parts@), sep@),
{
    let mut r = String::new();
    let mut i: usize = 0;
    while i < parts.len()
        invariant
            i <= parts@.len(),
            r@ == join(texts(parts@).take(i as int), sep@),
        decreases parts@.len() - i,
    {
        proof {
            assert(texts(parts@).take(i + 1).drop_last() =~= texts(parts@).take(i as int));
        }
        if i > 0 {
            r.append(sep);
        } else {
            assert(texts(parts@).take(1) =~= seq![parts@[0]@]);
        }
        r.append(parts[i].as_str());
        i = i + 1;
    }
    assert(texts(parts@).take(parts@.len() as int) =~= texts(parts@));
    r
}

/// The shell arguments of a list of YAML values, or the error of the first one that
/// has none (`iter().map(yaml_value_as_shell_atom).collect::<Result<Vec<_>, _>>()`).
pub open spec fn shell_atoms(vals: Seq<YamlValue>) -> Result<Seq<Seq<char>>, Seq<char>>
    decreases vals.len(),
{
    if vals.len() == 0 {
        Ok(Seq::empty())
    } else {
        match shell_atoms(vals.drop_last()) {
            Err(e) => Err(e),
            Ok(parts) => match shell_atom(vals.last()) {
                Err(e) => Err(e),
                Ok(a) => Ok(parts.push(a)),
            },
        }
    }
}

proof fn lemma_shell_atoms_prefix_err(vals: Seq<YamlValue>, i: int)
    requires
        0 <= i <= vals.len(),
        shell_atoms(vals.take(i)) is Err,
    ensures
        shell_atoms(vals) == shell_atoms(vals.take(i)),
    decreases vals.len() - i,
{
    if i < vals.len() {
        assert(vals.take(i + 1).drop_last() =~= vals.take(i));
        lemma_shell_atoms_prefix_err(vals, i + 1);
    } else {
        assert(vals.take(i) =~= vals);
    }
}

/// The shell arguments of a list of YAML values, or the error of the first one that has
/// none.
pub fn yaml_values_as_shell_atoms(vals: &Vec<YamlValue>) -> (r: Result<Vec<String>, String>)
    ensures
        match r {
            Ok(parts) => shell_atoms(vals@) == Ok::<Seq<Seq<char>>, Seq<char>>(texts(parts@)),
            Err(e) => shell_atoms(vals@) == Err::<Seq<Seq<char>>, Seq<char>>(e@),
        },
{
    let mut parts: Vec<String> = Vec::new();
    let mut i: usize = 0;
    assert(vals@.take(0) =~= Seq::<YamlValue>::empty());
    assert(texts(parts@) =~= Seq::<Seq<char>>::empty());
    while i < vals.len()
        invariant
            i <= vals@.len(),
            shell_atoms(vals@.take(i as int)) == Ok::<Seq<Seq<char>>, Seq<char>>(texts(parts@)),
        decreases vals@.len() - i,
    {
        proof {
            assert(vals@.take(i + 1).drop_last() =~= vals@.take(i as int));
            assert(vals@.take(i + 1).last() == vals@[i as int]);
        }
        match yaml_value_as_shell_atom(&vals[i]) {
            Ok(a) => {
                let ghost old_parts = parts@;
                parts.push(a);
                proof {
                    assert(texts(parts@) =~= texts(old_parts).push(a@));
                }
            },
            Err(e) => {
                proof {
                    lemma_shell_atoms_prefix_err(vals@, i + 1);
                }
                return Err(e);
            },
        }
        i = i + 1;
    }
    assert(vals@.take(vals@.len() as int) =~= vals@);
    Ok(parts)
}


/// The file of shell functions that every module's script sources first.
pub const COMMON_CODE_PATH: &'static str =
    "./experiments/compare_braess_to_java/runnable_modules/common_code_for_modules.sh";

/// A bash function, and the file that defines it.
pub struct BashFunction {
    function_name: String,
    path_to_function_def: String,
}

/// Replacements of the bash array declarations of the swept parameters, by parameter.
pub open spec fn sweep_overwrites_view(o: Option<StrMap<String>>) -> Option<Map<Seq<char>, Seq<char>>> {
    match o {
        Some(m) => Some(m@.map_values(|s: String| s@)),
        None => None,
    }
}

/// The extra arguments, taken by their view.
pub open spec fn extra_args_view(o: Option<Vec<String>>) -> Option<Seq<Seq<char>>> {
    match o {
        Some(v) => Some(texts(v@)),
        None => None,
    }
}

/// The bash array declaration of the swept parameter `key`: its replacement if there is
/// one, else the declaration built from the parameter sweep.
pub open spec fn sweep_decl_or_overwrite(
    config: Config,
    sweep_overwrites: Option<Map<Seq<char>, Seq<char>>>,
    key: Seq<char>,
) -> Result<Seq<char>, Seq<char>> {
    match sweep_overwrites {
        Some(m) => if m.contains_key(key) {
            Ok(m[key])
        } else {
            sweep_array_decl(config.param_sweep@, key, key)
        },
        None => sweep_array_decl(config.param_sweep@, key, key),
    }
}

/// The string parameter `name` (an overwrite, else the experiment set's global), or
/// the error.
pub open spec fn string_param(
    overwrites: Option<Map<Seq<char>, YamlValue>>,
    config: Config,
    name: Seq<char>,
    type_error: Seq<char>,
) -> Result<Seq<char>, Seq<char>> {
    match param_or_overwrite(overwrites, globals_view(config), name) {
        Err(e) => Err(e),
        Ok(v) => match as_str_spec(v) {
            None => Err(type_error),
            Some(s) => Ok(s),
        },
    }
}

/// The integer parameter `name` (an overwrite, else the experiment set's global), or
/// the error.
pub open spec fn int_param(
    overwrites: Option<Map<Seq<char>, YamlValue>>,
    config: Config,
    name: Seq<char>,
    type_error: Seq<char>,
) -> Result<i64, Seq<char>> {
    match param_or_overwrite(overwrites, globals_view(config), name) {
        Err(e) => Err(e),
        Ok(v) => match as_i64_spec(v) {
            None => Err(type_error),
            Some(n) => Ok(n),
        },
    }
}

/// The extra arguments, each quoted, separated by spaces; empty without any.
pub open spec fn extra_args_text(extra: Option<Seq<Seq<char>>>) -> Seq<char> {
    match extra {
        Some(args) => join(args.map_values(|a: Seq<char>| single_quoted(a)), " "@),
        None => Seq::empty(),
    }
}

/// The bash script: declare the four swept arrays, source the common code and the
/// module's file, and call `run_callback_for_parameter_arrays_parallel` with the arrays'
/// names, the experiment set, output directory, job limit, function and extra arguments.
pub open spec fn script_text(
    replanning_decl: Seq<char>,
    betas_decl: Seq<char>,
    java_seed_decl: Seq<char>,
    rust_seed_decl: Seq<char>,
    common: Seq<char>,
    module: Seq<char>,
    experiment_set_name: Seq<char>,
    base_output_dir: Seq<char>,
    max_parallel_jobs: Seq<char>,
    function_name: Seq<char>,
    extra_args: Seq<char>,
) -> Seq<char> {
    "\nset -uo pipefail\n"@ + replanning_decl + "\n"@ + betas_decl + "\n"@ + java_seed_decl + "\n"@
        + rust_seed_decl + "\n\nsource "@ + common + "\nsource "@ + module
        + "\n\nrun_callback_for_parameter_arrays_parallel \\\n  replanning_variants \\\n  betas \\\n  java_seed_indices \\\n  rust_seeds \\\n  "@
        + experiment_set_name + " \\\n  "@ + base_output_dir + " \\\n  "@ + max_parallel_jobs
        + " \\\n  "@ + function_name + " \\\n  "@ + extra_args
        + "\n\nprintf \"\\n\\nAll experiments completed.\\n\"\nprint_failure_summary\n"@
}

/// The script that runs `function_name` (defined in `module_file`) for all combinations
/// of the swept parameters, or the first error met while building it.
pub open spec fn cartprod_script(
    function_name: Seq<char>,
    module_file: Seq<char>,
    config: Config,
    overwrites: Option<Map<Seq<char>, YamlValue>>,
    extra: Option<Seq<Seq<char>>>,
    sweep_overwrites: Option<Map<Seq<char>, Seq<char>>>,
) -> Result<Seq<char>, Seq<char>> {
    match sweep_decl_or_overwrite(config, sweep_overwrites, "replanning_variants"@) {
        Err(e) => Err(e),
        Ok(rd) => match sweep_decl_or_overwrite(config, sweep_overwrites, "betas"@) {
            Err(e) => Err(e),
            Ok(bd) => match sweep_decl_or_overwrite(config, sweep_overwrites, "java_seed_indices"@) {
                Err(e) => Err(e),
                Ok(jd) => match sweep_decl_or_overwrite(config, sweep_overwrites, "rust_seeds"@) {
                    Err(e) => Err(e),
                    Ok(sd) => match string_param(
                        overwrites,
                        config,
                        "experiment_set_name"@,
                        "experiment_set_name must be string"@,
                    ) {
                        Err(e) => Err(e),
                        Ok(name) => match string_param(
                            overwrites,
                            config,
                            "base_output_dir"@,
                            "base_output_dir must be string"@,
                        ) {
                            Err(e) => Err(e),
                            Ok(base) => match int_param(
                                overwrites,
                                config,
                                "max_parallel_jobs"@,
                                "max_parallel_jobs must be integer"@,
                            ) {
                                Err(e) => Err(e),
                                Ok(jobs) => Ok(
                                    script_text(
                                        rd,
                                        bd,
                                        jd,
                                        sd,
                                        single_quoted(COMMON_CODE_PATH@),
                                        single_quoted(module_file),
                                        single_quoted(name),
                                        single_quoted(base),
                                        int_text(jobs as int),
                                        function_name,
                                        extra_args_text(extra),
                                    ),
                                ),
                            },
                        },
                    },
                },
            },
        },
    }
}

/// The parameter `name` a module reads: its overwrite if it has one, else the
/// experiment set's global, if any.
pub open spec fn overwrite_or_global(
    overwrites: Option<Map<Seq<char>, YamlValue>>,
    config: Config,
    name: Seq<char>,
) -> Option<YamlValue> {
    if overwrites is Some && overwrites->0.contains_key(name) {
        Some(overwrites->0[name])
    } else if config.globals is Some && config.globals->0@.contains_key(name) {
        Some(config.globals->0@[name])
    } else {
        None
    }
}

/// The swept values of `key`, each as a shell argument, separated by spaces.
pub open spec fn swept_values_text(config: Config, key: Seq<char>) -> Seq<char> {
    join(shell_atoms(config.param_sweep@[key]@)->Ok_0, " "@)
}

/// The declaration of the swept array `key` in a script: its replacement if there is
/// one, else `key=(v1 v2 ...)` with the swept values.
pub open spec fn planned_decl(config: Config, sweep_overwrites: Map<Seq<char>, Seq<char>>, key: Seq<char>) -> Seq<char> {
    if sweep_overwrites.contains_key(key) {
        sweep_overwrites[key]
    } else {
        key + "=("@ + swept_values_text(config, key) + ")"@
    }
}

/// The start of a script: the declarations of the four swept arrays, in the order
/// replanning variants, betas, Java seed indices, Rust seeds.
pub open spec fn script_head(config: Config, sweep_overwrites: Map<Seq<char>, Seq<char>>) -> Seq<char> {
    "\nset -uo pipefail\n"@ + planned_decl(config, sweep_overwrites, "replanning_variants"@) + "\n"@
        + planned_decl(config, sweep_overwrites, "betas"@) + "\n"@ + planned_decl(
        config,
        sweep_overwrites,
        "java_seed_indices"@,
    ) + "\n"@ + planned_decl(config, sweep_overwrites, "rust_seeds"@) + "\n\nsource "@
}

/// The middle of a script: the common code and the module's file are sourced, and the
/// parallel runner gets the names of the four arrays, the experiment set's name, the
/// output directory and the job limit.
pub open spec fn script_middle(
    module_file: Seq<char>,
    overwrites: Option<Map<Seq<char>, YamlValue>>,
    config: Config,
) -> Seq<char> {
    single_quoted(COMMON_CODE_PATH@) + "\nsource "@ + single_quoted(module_file)
        + "\n\nrun_callback_for_parameter_arrays_parallel \\\n  replanning_variants \\\n  betas \\\n  java_seed_indices \\\n  rust_seeds \\\n  "@
        + single_quoted(as_str_spec(overwrite_or_global(overwrites, config, "experiment_set_name"@)->0)->0)
        + " \\\n  "@ + single_quoted(as_str_spec(overwrite_or_global(overwrites, config, "base_output_dir"@)->0)->0)
        + " \\\n  "@ + int_text(as_i64_spec(overwrite_or_global(overwrites, config, "max_parallel_jobs"@)->0)->0 as int)
}

/// The end of a script: the module's bash function, then its extra arguments, each
/// quoted, in the given order.
pub open spec fn script_tail(function_name: Seq<char>, args: Seq<Seq<char>>) -> Seq<char> {
    " \\\n  "@ + function_name + " \\\n  "@ + extra_args_text(Some(args))
        + "\n\nprintf \"\\n\\nAll experiments completed.\\n\"\nprint_failure_summary\n"@
}

/// The script that runs `function_name` from `module_file` with the extra arguments
/// `args` for every combination of the swept parameters.
pub open spec fn laid_out_script(
    config: Config,
    overwrites: Option<Map<Seq<char>, YamlValue>>,
    sweep_overwrites: Map<Seq<char>, Seq<char>>,
    module_file: Seq<char>,
    function_name: Seq<char>,
    args: Seq<Seq<char>>,
) -> Seq<char> {
    script_head(config, sweep_overwrites) + script_middle(module_file, overwrites, config) + script_tail(
        function_name,
        args,
    )
}

/// The sweep overwrites as a map, empty where there are none.
pub open spec fn sweep_map(sweep_overwrites: Option<Map<Seq<char>, Seq<char>>>) -> Map<Seq<char>, Seq<char>> {
    match sweep_overwrites {
        Some(m) => m,
        None => Map::empty(),
    }
}

/// A planned run calls the named function, and its script declares the four swept
/// arrays (replaced ones as given, the others from the sweep), sources the common code
/// and the module's file, hands the runner the experiment set's name, output directory
/// and job limit (each an overwrite, else the experiment set's global), and ends with the
/// function and its extra arguments, in their order.
pub proof fn law_cartprod_script_layout(
    function_name: Seq<char>,
    module_file: Seq<char>,
    config: Config,
    overwrites: Option<Map<Seq<char>, YamlValue>>,
    extra: Option<Seq<Seq<char>>>,
    sweep_overwrites: Option<Map<Seq<char>, Seq<char>>>,
)
    requires
        cartprod_run(function_name, module_file, config, overwrites, extra, sweep_overwrites) is Ok,
    ensures
        cartprod_run(function_name, module_file, config, overwrites, extra, sweep_overwrites) == Ok::<
            (Seq<char>, Seq<char>),
            Seq<char>,
        >(
            (
                function_name,
                laid_out_script(
                    config,
                    overwrites,
                    sweep_map(sweep_overwrites),
                    module_file,
                    function_name,
                    match extra {
                        Some(args) => args,
                        None => Seq::empty(),
                    },
                ),
            ),
        ),
{
    let args = match extra {
        Some(args) => args,
        None => Seq::<Seq<char>>::empty(),
    };
    let sm = sweep_map(sweep_overwrites);
    let rd = sweep_decl_or_overwrite(config, sweep_overwrites, "replanning_variants"@)->Ok_0;
    let bd = sweep_decl_or_overwrite(config, sweep_overwrites, "betas"@)->Ok_0;
    let jd = sweep_decl_or_overwrite(config, sweep_overwrites, "java_seed_indices"@)->Ok_0;
    let sd = sweep_decl_or_overwrite(config, sweep_overwrites, "rust_seeds"@)->Ok_0;
    assert(rd == planned_decl(config, sm, "replanning_variants"@));
    assert(bd == planned_decl(config, sm, "betas"@));
    assert(jd == planned_decl(config, sm, "java_seed_indices"@));
    assert(sd == planned_decl(config, sm, "rust_seeds"@));
    let name = string_param(overwrites, config, "experiment_set_name"@, "experiment_set_name must be string"@)->Ok_0;
    let base = string_param(overwrites, config, "base_output_dir"@, "base_output_dir must be string"@)->Ok_0;
    let jobs = int_param(overwrites, config, "max_parallel_jobs"@, "max_parallel_jobs must be integer"@)->Ok_0;
    assert(name == as_str_spec(overwrite_or_global(overwrites, config, "experiment_set_name"@)->0)->0);
    assert(base == as_str_spec(overwrite_or_global(overwrites, config, "base_output_dir"@)->0)->0);
    assert(jobs == as_i64_spec(overwrite_or_global(overwrites, config, "max_parallel_jobs"@)->0)->0);
    assert(extra_args_text(extra) == extra_args_text(Some(args)));
    let script = cartprod_script(function_name, module_file, config, overwrites, extra, sweep_overwrites)->Ok_0;
    assert(script == script_text(
        rd,
        bd,
        jd,
        sd,
        single_quoted(COMMON_CODE_PATH@),
        single_quoted(module_file),
        single_quoted(name),
        single_quoted(base),
        int_text(jobs as int),
        function_name,
        extra_args_text(extra),
    ));
    assert(script =~= laid_out_script(config, overwrites, sm, module_file, function_name, args));
}

/// The run of `function_name` for all combinations of the swept parameters.
pub open spec fn cartprod_run(
    function_name: Seq<char>,
    module_file: Seq<char>,
    config: Config,
    overwrites: Option<Map<Seq<char>, YamlValue>>,
    extra: Option<Seq<Seq<char>>>,
    sweep_overwrites: Option<Map<Seq<char>, Seq<char>>>,
) -> Result<(Seq<char>, Seq<char>), Seq<char>> {
    match cartprod_script(function_name, module_file, config, overwrites, extra, sweep_overwrites) {
        Err(e) => Err(e),
        Ok(script) => Ok((function_name, script)),
    }
}

/// The message of a bash function that ended with a failure status.
pub open spec fn failed_run_message(function_name: Seq<char>, status: Seq<char>) -> Seq<char> {
    "Bash function "@ + function_name + " failed with status "@ + status + "."@
}

/// The message of a bash function that could not be started.
pub open spec fn unstarted_run_message(function_name: Seq<char>, error: Seq<char>) -> Seq<char> {
    "Failed to run bash function "@ + function_name + " in parallel: "@ + error
}

impl BashFunction {
    /// The function's name.
    pub closed spec fn name(&self) -> Seq<char> {
        self.function_name@
    }

    /// The file that defines the function.
    pub closed spec fn path(&self) -> Seq<char> {
        self.path_to_function_def@
    }

    /// The function `function_name` defined in the file `path_to_function_def`.
    pub fn new(function_name: &str, path_to_function_def: &str) -> (b: Self)
        ensures
            b.name() == function_name@,
            b.path() == path_to_function_def@,
    {
        BashFunction {
            function_name: String::from_str(function_name),
            path_to_function_def: String::from_str(path_to_function_def),
        }
    }

    fn sweep_decl(config: &Config, sweep_overwrites: &Option<StrMap<String>>, key: &str) -> (r: Result<String, String>)
        ensures
            text_result(r) == sweep_decl_or_overwrite(*config, sweep_overwrites_view(*sweep_overwrites), key@),
    {
        match sweep_overwrites {
            Some(m) => match m.get(key) {
                Some(decl) => return Ok(decl.clone()),
                None => {},
            },
            None => {},
        }
        config.get_sweep_array_decl(key, key)
    }

    /// The script that runs this function for all combinations of the swept parameters:
    /// the swept arrays are declared (from `param_sweep_overwrites` where it has a
    /// declaration), the experiment set name, output directory and job limit are the
    /// module's overwrites (`module_overwrites`) or the experiment set's globals, and the extra arguments are
    /// passed quoted.
    pub fn script_for_cartprod(
        &self,
        config: &Config,
        module_overwrites: Option<&StrMap<YamlValue>>,
        extra_str_args: Option<Vec<String>>,
        param_sweep_overwrites: Option<StrMap<String>>,
    ) -> (r: Result<BashRun, String>)
        ensures
            run_result(r) == cartprod_run(
                self.name(),
                self.path(),
                *config,
                overwrites_result(module_overwrites),
                extra_args_view(extra_str_args),
                sweep_overwrites_view(param_sweep_overwrites),
            ),
    {
        let replanning_decl = match Self::sweep_decl(config, &param_sweep_overwrites, "replanning_variants") {
            Ok(d) => d,
            Err(e) => return Err(e),
        };
        let betas_decl = match Self::sweep_decl(config, &param_sweep_overwrites, "betas") {
            Ok(d) => d,
            Err(e) => return Err(e),
        };
        let java_seed_decl = match Self::sweep_decl(config, &param_sweep_overwrites, "java_seed_indices") {
            Ok(d) => d,
            Err(e) => return Err(e),
        };
        let rust_seed_decl = match Self::sweep_decl(config, &param_sweep_overwrites, "rust_seeds") {
            Ok(d) => d,
            Err(e) => return Err(e),
        };
        let experiment_set_name = match expset_parameter_or_overwrite(
            module_overwrites,
            config,
            "experiment_set_name",
        ) {
            Err(e) => return Err(e),
            Ok(v) => match v.as_str() {
                None => return Err(String::from_str("experiment_set_name must be string")),
                Some(s) => s.clone(),
            },
        };
        let base_output_dir = match expset_parameter_or_overwrite(
            module_overwrites,
            config,
            "base_output_dir",
        ) {
            Err(e) => return Err(e),
            Ok(v) => match v.as_str() {
                None => return Err(String::from_str("base_output_dir must be string")),
                Some(s) => s.clone(),
            },
        };
        let max_parallel_jobs = match expset_parameter_or_overwrite(
            module_overwrites,
            config,
            "max_parallel_jobs",
        ) {
            Err(e) => return Err(e),
            Ok(v) => match v.as_i64() {
                None => return Err(String::from_str("max_parallel_jobs must be integer")),
                Some(n) => n,
            },
        };
        let extra_args_escaped = match &extra_str_args {
            Some(args) => {
                let mut quoted: Vec<String> = Vec::new();
                let mut i: usize = 0;
                while i < args.len()
                    invariant
                        i <= args@.len(),
                        quoted@.len() == i,
                        forall|k: int| 0 <= k < i ==> #[trigger] quoted@[k]@ == single_quoted(args@[k]@),
                    decreases args@.len() - i,
                {
                    quoted.push(shell_escape_single_quoted(args[i].as_str()));
                    i = i + 1;
                }
                proof {
                    assert(texts(quoted@) =~= texts(args@).map_values(|a: Seq<char>| single_quoted(a)));
                }
                join_strings(&quoted, " ")
            },
            None => String::new(),
        };
        let mut script = String::from_str("\nset -uo pipefail\n");
        script.append(replanning_decl.as_str());
        script.append("\n");
        script.append(betas_decl.as_str());
        script.append("\n");
        script.append(java_seed_decl.as_str());
        script.append("\n");
        script.append(rust_seed_decl.as_str());
        script.append("\n\nsource ");
        script.append(shell_escape_single_quoted(COMMON_CODE_PATH).as_str());
        script.append("\nsource ");
        script.append(shell_escape_single_quoted(self.path_to_function_def.as_str()).as_str());
        script.append(
            "\n\nrun_callback_for_parameter_arrays_parallel \\\n  replanning_variants \\\n  betas \\\n  java_seed_indices \\\n  rust_seeds \\\n  ",
        );
        script.append(shell_escape_single_quoted(experiment_set_name.as_str()).as_str());
        script.append(" \\\n  ");
        script.append(shell_escape_single_quoted(base_output_dir.as_str()).as_str());
        script.append(" \\\n  ");
        script.append(i64_text(max_parallel_jobs).as_str());
        script.append(" \\\n  ");
        script.append(self.function_name.as_str());
        script.append(" \\\n  ");
        script.append(extra_args_escaped.as_str());
        script.append("\n\nprintf \"\\n\\nAll experiments completed.\\n\"\nprint_failure_summary\n");
        Ok(BashRun { function_name: self.function_name.clone(), script })
    }
}

/// A line of GNU parallel's progress bar: it starts with a carriage return and holds
/// both `#` and `%`.
pub open spec fn progress_line(line: Seq<char>) -> bool {
    &&& line.len() > 0
    &&& line[0] == '\r'
    &&& contains_seq(line, "#"@)
    &&& contains_seq(line, "%"@)
}

/// Whether a line that a step wrote to its error stream is a line of GNU parallel's
/// progress bar, which is shown but not logged.
pub fn is_parallel_progress_line(line: &str) -> (b: bool)
    ensures
        b == progress_line(line@),
{
    let chars = chars_of(line);
    if chars.len() == 0 || chars[0] != '\r' {
        return false;
    }
    contains_str(line, "#") && contains_str(line, "%")
}

} // verus!
