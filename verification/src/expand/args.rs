//! `from_args()`: CLI arguments over the environment.

use vstd::prelude::*;

use crate::expand::env::{dotenv_load_of, generate_dotenv_load, DotenvLoad};
use crate::expand::sources::{source_tracking_of, SourceTracking};
use crate::expand::{
    each_of, env_var_names, env_vars_of, generate_assignments, lemma_each_of_push, ErrorReturn,
    lemma_select_all, lemma_select_satisfies, lemma_select_step, lemma_take_push, local_name,
    local_var, select,
};
use crate::field::{
    assignment_rel, generator_matches, law_field_format_is_known, parse_field_error, Assignment,
    FieldGenerator,
};
use crate::parse::{EnvConfigAttr, FieldModel};
use crate::parse::is_known_format;
use crate::loader::{base_loader_of, format_label, format_upper, missing_of, Loader, Missing};
use crate::text::cat;

verus! {

/// A clap argument: `Arg::new(name).long(long).short(short).value_name(name)`.
pub struct ClapArg {
    pub name: String,
    pub long: String,
    pub short: Option<char>,
}

/// The field has a CLI argument with a long name.
pub open spec fn has_long_arg(g: FieldGenerator) -> bool {
    g.spec_cli() matches Some(c) && c.long is Some
}

/// Fields with a CLI argument.
pub open spec fn has_long_arg_p() -> spec_fn(FieldGenerator) -> bool {
    |g: FieldGenerator| has_long_arg(g)
}

/// `a` is the clap argument of field `g`.
pub open spec fn clap_arg_of(a: ClapArg, g: FieldGenerator) -> bool {
    a.name == g.spec_name() && Some(a.long) == g.spec_cli()->0.long && a.short == g.spec_cli()->0.short
}

/// The relation of a field to its clap argument.
pub open spec fn clap_arg_rel() -> spec_fn(ClapArg, FieldGenerator) -> bool {
    |a: ClapArg, g: FieldGenerator| clap_arg_of(a, g)
}

impl FieldGenerator {
    /// The field's clap argument, when it has one.
    pub fn generate_clap_arg(&self) -> (r: Option<ClapArg>)
        ensures
            r is Some <==> has_long_arg(*self),
            r matches Some(a) ==> clap_arg_of(a, *self),
    {
        let cli = self.cli_config()?;
        let long = match &cli.long {
            Some(l) => l.clone(),
            None => return None,
        };
        Some(ClapArg { name: self.name().clone(), long, short: cli.short })
    }
}

/// Reading a field's CLI value into `cli_var` (`__<name>_cli`).
pub struct CliExtraction {
    pub name: String,
    pub cli_var: String,
}

/// `x` is the CLI value extraction of field `g`.
pub open spec fn cli_extraction_of(x: CliExtraction, g: FieldGenerator) -> bool {
    x.name == g.spec_name() && x.cli_var@ == local_name(g.spec_name()@, "_cli"@)
}

/// The relation of a field to its CLI value extraction.
pub open spec fn cli_extraction_rel() -> spec_fn(CliExtraction, FieldGenerator) -> bool {
    |x: CliExtraction, g: FieldGenerator| cli_extraction_of(x, g)
}

impl FieldGenerator {
    /// The field's CLI value extraction, when it has an argument.
    pub fn generate_cli_extraction(&self) -> (r: Option<CliExtraction>)
        ensures
            r is Some <==> has_long_arg(*self),
            r matches Some(x) ==> cli_extraction_of(x, *self),
    {
        let cli = self.cli_config()?;
        if cli.long.is_none() {
            return None;
        }
        let name = self.name();
        Some(CliExtraction { name: name.clone(), cli_var: local_var(name.as_str(), "_cli") })
    }
}

/// The loader of a field in `from_args()`.
pub enum CliLoader {
    /// A field without argument: its environment loader.
    Env(Loader),
    /// A field with an argument: the CLI value when given (parsed by format
    /// or `FromStr`, errors naming `arg_name` and `error_label`), else its
    /// environment loader.
    Cli {
        base: Loader,
        cli_var: String,
        from_cli_var: String,
        arg_name: String,
        format: Option<String>,
        error_label: String,
        secret: bool,
    },
}

/// The formats a field can carry.
pub open spec fn format_ok(g: FieldGenerator) -> bool {
    g.spec_format() matches Some(f) ==> is_known_format(f@)
}

/// A field whose CLI loader can be generated: an argument has a long name,
/// and a format is one of the known ones.
pub open spec fn args_ready(g: FieldGenerator) -> bool {
    &&& g.spec_cli() matches Some(c) ==> c.long is Some
    &&& format_ok(g)
}

/// Every classified field can take part in `from_args()`: an argument
/// always has a long name (`short` needs `arg`), and a format is always
/// `json`, `toml` or `yaml`.
pub proof fn law_fields_args_ready(g: FieldGenerator, f: FieldModel, prefix: Option<Seq<char>>)
    requires
        parse_field_error(f) is None,
        generator_matches(g, f, prefix),
    ensures
        args_ready(g),
{
    law_field_format_is_known(g, f, prefix);
}

/// `r` is the loader of field `g` in `from_args()`: without an argument,
/// its environment loader; with one, the CLI value when given (parsed by
/// format or `FromStr`), else the environment loader.
pub open spec fn cli_loader_of(r: CliLoader, g: FieldGenerator) -> bool {
    &&& g.spec_cli() is None ==> (r matches CliLoader::Env(b) && base_loader_of(b, g))
    &&& g.spec_cli() matches Some(c) ==> (r matches CliLoader::Cli {
        base,
        cli_var,
        from_cli_var,
        arg_name,
        format,
        error_label,
        secret,
    } && base_loader_of(base, g) && cli_var@ == local_name(g.spec_name()@, "_cli"@)
        && from_cli_var@ == local_name(g.spec_name()@, "_from_cli"@) && arg_name@ == "--"@
        + c.long->0@ && format == g.spec_format() && error_label@ == match g.spec_format() {
        Some(f) => format_label(f@),
        None => g.spec_type_name(),
    } && secret == g.spec_is_secret())
}

/// The relation of a field to its loader in `from_args()`.
pub open spec fn cli_loader_rel() -> spec_fn(CliLoader, FieldGenerator) -> bool {
    |l: CliLoader, g: FieldGenerator| cli_loader_of(l, g)
}

/// The loader of field `field` in `from_args()`.
pub fn generate_cli_aware_loader(field: &FieldGenerator) -> (r: CliLoader)
    requires
        args_ready(*field),
    ensures
        cli_loader_of(r, *field),
{
    let base = match field.format_config() {
        Some(f) => field.generate_format_loader(f),
        None => field.generate_loader(),
    };
    let cli = match field.cli_config() {
        Some(c) => c,
        None => return CliLoader::Env(base),
    };
    let long: &String = match &cli.long {
        Some(l) => l,
        None => return CliLoader::Env(base),
    };
    let name = field.name();
    let (format, error_label) = match field.format_config() {
        Some(f) => (Some(f.clone()), String::from_str(format_upper(f.as_str()))),
        None => (None, field.type_label()),
    };
    CliLoader::Cli {
        base,
        cli_var: local_var(name.as_str(), "_cli"),
        from_cli_var: local_var(name.as_str(), "_from_cli"),
        arg_name: cat("--", long.as_str()),
        format,
        error_label,
        secret: field.is_secret(),
    }
}

/// A field with a CLI argument is read from the argument first; without
/// it, from the environment; without that, by its rule for a missing
/// variable, which for a field with a default is the default: CLI arguments
/// over environment variables over defaults.
pub proof fn law_cli_over_environment_over_default(l: CliLoader, g: FieldGenerator)
    requires
        cli_loader_of(l, g),
        g.spec_cli() is Some,
    ensures
        l matches CliLoader::Cli { base, .. } && base matches Loader::Var(v) && missing_of(
            v.missing,
            g,
        ) && (g is Default ==> (v.missing matches Missing::Default { value, .. } && Some(value)
            == g.spec_default())),
{
}

/// Source attribution of a field in `from_args()`.
pub enum CliSource {
    /// CLI when the value came from the argument, else environment or
    /// `.env` file when set, else not set.
    Cli { name: String, env_var: String, source_var: String, from_cli_var: String },
    /// The field's attribution in `from_env_with_sources()`.
    Standard(SourceTracking),
}

/// `r` is the source attribution of field `g` in `from_args()`: the CLI-aware
/// one for a field with a variable and an argument, else its standard one.
pub open spec fn cli_source_of(r: CliSource, g: FieldGenerator) -> bool {
    &&& (g.spec_env_var() is Some && g.spec_cli() is Some) ==> (r matches CliSource::Cli {
        name,
        env_var,
        source_var,
        from_cli_var,
    } && name == g.spec_name() && Some(env_var) == g.spec_env_var() && source_var@ == local_name(
        g.spec_name()@,
        "_source"@,
    ) && from_cli_var@ == local_name(g.spec_name()@, "_from_cli"@))
    &&& !(g.spec_env_var() is Some && g.spec_cli() is Some) ==> (r matches CliSource::Standard(t)
        && source_tracking_of(t, g))
}

/// The relation of a field to its source attribution in `from_args()`.
pub open spec fn cli_source_rel() -> spec_fn(CliSource, FieldGenerator) -> bool {
    |x: CliSource, g: FieldGenerator| cli_source_of(x, g)
}

/// The source attribution of field `field` in `from_args()`.
pub fn generate_cli_aware_source_tracking(field: &FieldGenerator) -> (r: CliSource)
    ensures
        cli_source_of(r, *field),
{
    let env_var = match field.env_var_name() {
        Some(v) => v,
        None => return CliSource::Standard(field.generate_source_tracking()),
    };
    if field.cli_config().is_none() {
        return CliSource::Standard(field.generate_source_tracking());
    }
    let name = field.name();
    CliSource::Cli {
        name: name.clone(),
        env_var: env_var.clone(),
        source_var: local_var(name.as_str(), "_source"),
        from_cli_var: local_var(name.as_str(), "_from_cli"),
    }
}

// ============================================================================
// The whole method
// ============================================================================

/// `from_args()` and its forms: build the clap command from the fields'
/// arguments, read each CLI value, load `.env` files, then load every field
/// CLI first and environment second, recording each field's source.
pub struct FromArgsPlan {
    /// The clap arguments, one per field with an argument, in field order.
    pub clap_args: Vec<ClapArg>,
    /// The CLI value reads, one per field with an argument, in field order.
    pub cli_extractions: Vec<CliExtraction>,
    /// The variables checked before `.env` loading, in field order.
    pub pre_dotenv_vars: Vec<String>,
    pub dotenv: DotenvLoad,
    /// A `.env` file is configured.
    pub dotenv_loaded: bool,
    /// One loader per field, in order.
    pub loaders: Vec<CliLoader>,
    /// One source attribution per field, in order.
    pub sources: Vec<CliSource>,
    /// One assignment per field, in order.
    pub assignments: Vec<Assignment>,
    /// How the accumulated errors are returned.
    pub errors: ErrorReturn,
}

/// `r` is the plan of `from_args()` for the fields `gs` under `config`.
pub open spec fn from_args_plan_of(r: FromArgsPlan, gs: Seq<FieldGenerator>, config: EnvConfigAttr) -> bool {
    &&& each_of(r.clap_args@, select(gs, has_long_arg_p()), clap_arg_rel())
    &&& each_of(r.cli_extractions@, select(gs, has_long_arg_p()), cli_extraction_rel())
    &&& env_vars_of(r.pre_dotenv_vars@, gs)
    &&& dotenv_load_of(r.dotenv, config.dotenv)
    &&& r.dotenv_loaded == (config.dotenv is Some)
    &&& each_of(r.loaders@, gs, cli_loader_rel())
    &&& each_of(r.sources@, gs, cli_source_rel())
    &&& each_of(r.assignments@, gs, assignment_rel())
    &&& r.errors == ErrorReturn::OneOrMultiple
}

/// The plan of `from_args()` for the fields `generators` under `config`.
pub fn generate_from_args_impl(generators: &Vec<FieldGenerator>, config: &EnvConfigAttr) -> (r:
    FromArgsPlan)
    requires
        forall|i: int| 0 <= i < generators@.len() ==> args_ready(#[trigger] generators@[i]),
    ensures
        from_args_plan_of(r, generators@, *config),
{
    let ghost p = has_long_arg_p();
    let mut clap_args: Vec<ClapArg> = Vec::new();
    let mut cli_extractions: Vec<CliExtraction> = Vec::new();
    let mut loaders: Vec<CliLoader> = Vec::new();
    let mut sources: Vec<CliSource> = Vec::new();
    let mut i: usize = 0;
    while i < generators.len()
        invariant
            i <= generators.len(),
            p == has_long_arg_p(),
            forall|j: int| 0 <= j < generators@.len() ==> args_ready(#[trigger] generators@[j]),
            each_of(clap_args@, select(generators@.take(i as int), p), clap_arg_rel()),
            each_of(cli_extractions@, select(generators@.take(i as int), p), cli_extraction_rel()),
            each_of(loaders@, generators@.take(i as int), cli_loader_rel()),
            each_of(sources@, generators@.take(i as int), cli_source_rel()),
        decreases generators.len() - i,
    {
        let g = &generators[i];
        proof {
            lemma_select_step(generators@, p, i as int);
            lemma_take_push(generators@, i as int);
        }
        let ghost sel = select(generators@.take(i as int), p);
        match g.generate_clap_arg() {
            Some(a) => {
                proof {
                    lemma_each_of_push(clap_args@, sel, clap_arg_rel(), a, *g);
                }
                clap_args.push(a);
            },
            None => {},
        }
        match g.generate_cli_extraction() {
            Some(x) => {
                proof {
                    lemma_each_of_push(cli_extractions@, sel, cli_extraction_rel(), x, *g);
                }
                cli_extractions.push(x);
            },
            None => {},
        }
        let l = generate_cli_aware_loader(g);
        let t = generate_cli_aware_source_tracking(g);
        proof {
            lemma_each_of_push(loaders@, generators@.take(i as int), cli_loader_rel(), l, *g);
            lemma_each_of_push(sources@, generators@.take(i as int), cli_source_rel(), t, *g);
        }
        loaders.push(l);
        sources.push(t);
        i = i + 1;
    }
    proof {
        lemma_select_all(generators@, p);
        assert(generators@.take(generators.len() as int) =~= generators@);
    }
    FromArgsPlan {
        clap_args,
        cli_extractions,
        pre_dotenv_vars: env_var_names(generators),
        dotenv: generate_dotenv_load(&config.dotenv),
        dotenv_loaded: config.dotenv.is_some(),
        loaders,
        sources,
        assignments: generate_assignments(generators),
        errors: ErrorReturn::OneOrMultiple,
    }
}

/// Every clap argument of `from_args()` is the argument of one field with a
/// long name, in field order: its id is the field's name, its long flag the
/// field's `arg`, and its short flag exactly the field's `short`, present
/// when the field gives one.
pub proof fn law_clap_args_carry_long_and_short(
    r: FromArgsPlan,
    gs: Seq<FieldGenerator>,
    config: EnvConfigAttr,
    i: int,
)
    requires
        from_args_plan_of(r, gs, config),
        0 <= i < r.clap_args@.len(),
    ensures
        ({
            let g = select(gs, has_long_arg_p())[i];
            let a = r.clap_args@[i];
            &&& a.name == g.spec_name()
            &&& g.spec_cli() matches Some(c) && c.long == Some(a.long) && a.short == c.short
            &&& (g.spec_cli()->0.short matches Some(s) ==> a.short == Some(s))
        }),
{
    lemma_select_satisfies(gs, has_long_arg_p());
    assert(clap_arg_rel()(r.clap_args@[i], select(gs, has_long_arg_p())[i]));
}

/// A field's own clap argument carries its long flag and exactly its short
/// flag.
pub proof fn law_clap_arg_short_flag(a: ClapArg, g: FieldGenerator)
    requires
        has_long_arg(g),
        clap_arg_of(a, g),
    ensures
        g.spec_cli()->0.long == Some(a.long),
        g.spec_cli()->0.short is Some ==> a.short == g.spec_cli()->0.short,
        g.spec_cli()->0.short is None ==> a.short is None,
{
}

} // verus!
