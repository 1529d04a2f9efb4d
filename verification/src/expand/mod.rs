//! Orchestration of the derive: checks the input's shape, parses the
//! struct-level attribute, classifies every field, and plans every
//! generated method. The submodules hold the plans of the methods (which
//! fields take part, and how) that the generated code follows.

use vstd::prelude::*;

use crate::field::{
    assignment_rel, generator_matches, opt_str, parse_field_error, Assignment, ExampleFragment,
    FieldFactory, FieldGenerator,
};
use crate::expand::args::{args_ready, cli_loader_rel, CliLoader};
use crate::expand::config::{
    config_defaults_plan_of, from_config_plan_of, from_json_plan_of, ConfigDefaultsPlan,
    FromConfigPlan, FromJsonPlan,
};
use crate::expand::debug::{debug_entries_of, DebugEntry, DebugValue};
use crate::expand::env::{
    field_loader_rel, from_env_plan_of, prefixed_env_plan_of, prefixed_loader_rel, FieldLoader,
    FromEnvPlan, PrefixedEnvPlan,
};
use crate::loader::Loader;
use crate::expand::example::fragments_of;
use crate::expand::runtime::{runtime_access_of, RuntimeAccess};
use crate::expand::sources::{sources_plan_of, SourcesPlan};
use crate::expand::validation::{validations_of, CustomValidation};
use crate::parse::{
    env_config_result, error_at, AttrModel, EnvConfigAttr, EnvConfigSpec, ErrorSpan, ErrorSpec,
    FieldModel, MacroError,
};

pub mod args;
pub mod config;
pub mod debug;
pub mod env;
pub mod example;
pub mod runtime;
pub mod sources;
pub mod validation;

verus! {

// ============================================================================
// Selecting fields
// ============================================================================

/// The elements of `gs` that satisfy `p`, in order.
pub open spec fn select(gs: Seq<FieldGenerator>, p: spec_fn(FieldGenerator) -> bool) -> Seq<
    FieldGenerator,
>
    decreases gs.len(),
{
    if gs.len() == 0 {
        Seq::empty()
    } else if p(gs.last()) {
        select(gs.drop_last(), p).push(gs.last())
    } else {
        select(gs.drop_last(), p)
    }
}

/// Selecting among the first `i + 1` elements adds element `i` when it
/// satisfies `p`.
pub proof fn lemma_select_step(gs: Seq<FieldGenerator>, p: spec_fn(FieldGenerator) -> bool, i: int)
    requires
        0 <= i < gs.len(),
    ensures
        select(gs.take(i + 1), p) == if p(gs[i]) {
            select(gs.take(i), p).push(gs[i])
        } else {
            select(gs.take(i), p)
        },
{
    assert(gs.take(i + 1).drop_last() =~= gs.take(i));
    assert(gs.take(i + 1).last() == gs[i]);
}

/// Selecting among all elements.
pub proof fn lemma_select_all(gs: Seq<FieldGenerator>, p: spec_fn(FieldGenerator) -> bool)
    ensures
        select(gs.take(gs.len() as int), p) == select(gs, p),
{
    assert(gs.take(gs.len() as int) =~= gs);
}

/// Every element of a selection satisfies the predicate.
pub proof fn lemma_select_satisfies(gs: Seq<FieldGenerator>, p: spec_fn(FieldGenerator) -> bool)
    ensures
        forall|k: int| 0 <= k < select(gs, p).len() ==> p(#[trigger] select(gs, p)[k]),
    decreases gs.len(),
{
    if gs.len() > 0 {
        lemma_select_satisfies(gs.drop_last(), p);
        let r = select(gs.drop_last(), p);
        if p(gs.last()) {
            assert forall|k: int| 0 <= k < r.push(gs.last()).len() implies p(
                #[trigger] r.push(gs.last())[k],
            ) by {
                if k < r.len() {
                    assert(r.push(gs.last())[k] == r[k]);
                }
            }
        }
    }
}

/// What holds of every field holds of every selected one.
pub proof fn lemma_select_keeps(
    gs: Seq<FieldGenerator>,
    p: spec_fn(FieldGenerator) -> bool,
    q: spec_fn(FieldGenerator) -> bool,
)
    requires
        forall|i: int| 0 <= i < gs.len() ==> q(#[trigger] gs[i]),
    ensures
        forall|k: int| 0 <= k < select(gs, p).len() ==> q(#[trigger] select(gs, p)[k]),
    decreases gs.len(),
{
    if gs.len() > 0 {
        let d = gs.drop_last();
        assert forall|i: int| 0 <= i < d.len() implies q(#[trigger] d[i]) by {
            assert(d[i] == gs[i]);
        }
        lemma_select_keeps(d, p, q);
        let r = select(d, p);
        if p(gs.last()) {
            assert(q(gs[gs.len() - 1]));
            assert forall|k: int| 0 <= k < r.push(gs.last()).len() implies q(
                #[trigger] r.push(gs.last())[k],
            ) by {
                if k < r.len() {
                    assert(r.push(gs.last())[k] == r[k]);
                }
            }
        }
    }
}

/// `r` holds one element per field of `gs`, in order, each related by
/// `rel` to its field.
pub open spec fn each_of<T>(r: Seq<T>, gs: Seq<FieldGenerator>, rel: spec_fn(T, FieldGenerator) -> bool) -> bool {
    &&& r.len() == gs.len()
    &&& forall|i: int| #![trigger r[i]] 0 <= i < r.len() ==> rel(r[i], gs[i])
}

/// Appending a related element for an appended field keeps `each_of`.
pub proof fn lemma_each_of_push<T>(
    r: Seq<T>,
    gs: Seq<FieldGenerator>,
    rel: spec_fn(T, FieldGenerator) -> bool,
    x: T,
    g: FieldGenerator,
)
    requires
        each_of(r, gs, rel),
        rel(x, g),
    ensures
        each_of(r.push(x), gs.push(g), rel),
{
    assert forall|i: int| #![trigger r.push(x)[i]] 0 <= i < r.push(x).len() implies rel(
        r.push(x)[i],
        gs.push(g)[i],
    ) by {
        if i < r.len() {
            assert(r.push(x)[i] == r[i]);
            assert(gs.push(g)[i] == gs[i]);
        }
    }
}

/// The first `i + 1` fields are the first `i` and field `i`.
pub proof fn lemma_take_push(gs: Seq<FieldGenerator>, i: int)
    requires
        0 <= i < gs.len(),
    ensures
        gs.take(i + 1) == gs.take(i).push(gs[i]),
{
    assert(gs.take(i + 1) =~= gs.take(i).push(gs[i]));
}

/// The name of a generated local: `__<name><suffix>`.
pub open spec fn local_name(name: Seq<char>, suffix: Seq<char>) -> Seq<char> {
    "__"@ + name + suffix
}

/// The name of a generated local: `__<name><suffix>`.
pub fn local_var(name: &str, suffix: &str) -> (r: String)
    ensures
        r@ == local_name(name@, suffix@),
{
    crate::text::cat3("__", name, suffix)
}

/// The locals the generated code keeps for one field.
pub struct LoaderNames {
    /// `__<name>_effective_var`: the variable with the external prefix.
    pub effective_var: String,
    /// `__<name>_used_default`: the default was used.
    pub used_default: String,
    /// `__<name>_from_profile`: the profile's value was used.
    pub from_profile: String,
    /// `__<name>_source`: the field's source.
    pub source: String,
    /// `__<name>_nested_sources`: a nested struct's sources.
    pub nested_sources: String,
}

/// The locals the generated code keeps for field `name`.
pub fn loader_names(name: &str) -> (r: LoaderNames)
    ensures
        r.effective_var@ == local_name(name@, "_effective_var"@),
        r.used_default@ == local_name(name@, "_used_default"@),
        r.from_profile@ == local_name(name@, "_from_profile"@),
        r.source@ == local_name(name@, "_source"@),
        r.nested_sources@ == local_name(name@, "_nested_sources"@),
{
    LoaderNames {
        effective_var: local_var(name, "_effective_var"),
        used_default: local_var(name, "_used_default"),
        from_profile: local_var(name, "_from_profile"),
        source: local_var(name, "_source"),
        nested_sources: local_var(name, "_nested_sources"),
    }
}

/// The variables of the fields that read one, in field order.
pub open spec fn reads_var() -> spec_fn(FieldGenerator) -> bool {
    |g: FieldGenerator| g.spec_env_var() is Some
}

/// A variable and the field that reads it.
pub open spec fn var_rel() -> spec_fn(String, FieldGenerator) -> bool {
    |v: String, g: FieldGenerator| Some(v) == g.spec_env_var()
}

/// `r` is the variables the fields of `gs` read, in field order.
pub open spec fn env_vars_of(r: Seq<String>, gs: Seq<FieldGenerator>) -> bool {
    each_of(r, select(gs, reads_var()), var_rel())
}

/// The environment variables the fields read, in field order (checked
/// before a `.env` file is loaded, to tell where each value came from).
pub fn env_var_names(generators: &Vec<FieldGenerator>) -> (r: Vec<String>)
    ensures
        env_vars_of(r@, generators@),
{
    let ghost p = reads_var();
    let mut r: Vec<String> = Vec::new();
    let mut i: usize = 0;
    while i < generators.len()
        invariant
            i <= generators.len(),
            p == reads_var(),
            each_of(r@, select(generators@.take(i as int), p), var_rel()),
        decreases generators.len() - i,
    {
        proof {
            lemma_select_step(generators@, p, i as int);
        }
        let g = &generators[i];
        if let Some(v) = g.env_var_name() {
            let v = v.clone();
            proof {
                lemma_each_of_push(r@, select(generators@.take(i as int), p), var_rel(), v, *g);
            }
            r.push(v);
        }
        i = i + 1;
    }
    proof {
        lemma_select_all(generators@, p);
    }
    r
}

/// How a load returns the errors its field loaders accumulated. Every
/// loader runs whatever the earlier ones gave, so the errors come in field
/// order.
pub enum ErrorReturn {
    /// No error: the struct is built. One error: it is returned as it is.
    /// Several: one `Multiple` error holding all of them, in order (the
    /// failure `gathered_failure` describes).
    OneOrMultiple,
    /// The errors go to the runtime's `Error::multiple`, and the error it
    /// gives back, if any, is returned; without one the struct is built.
    RuntimeMultiple,
}

/// The assignments of the fields in the constructed struct, in order.
pub fn generate_assignments(generators: &Vec<FieldGenerator>) -> (r: Vec<Assignment>)
    ensures
        each_of(r@, generators@, assignment_rel()),
{
    let mut r: Vec<Assignment> = Vec::new();
    let mut i: usize = 0;
    while i < generators.len()
        invariant
            i <= generators.len(),
            each_of(r@, generators@.take(i as int), assignment_rel()),
        decreases generators.len() - i,
    {
        let a = generators[i].generate_assignment();
        proof {
            lemma_take_push(generators@, i as int);
            lemma_each_of_push(r@, generators@.take(i as int), assignment_rel(), a, generators@[i as int]);
        }
        r.push(a);
        i = i + 1;
    }
    proof {
        assert(generators@.take(generators.len() as int) =~= generators@);
    }
    r
}

// ============================================================================
// Derive input
// ============================================================================

/// The fields of a struct.
pub enum StructFields {
    /// `struct S { a: A, ... }`.
    Named(Vec<FieldModel>),
    /// `struct S(A, ...)`.
    Unnamed,
    /// `struct S;`.
    Unit,
}

/// The item the derive is applied to.
pub enum DataModel {
    Struct(StructFields),
    Enum,
    Union,
}

/// The derive input.
pub struct DeriveModel {
    /// The struct's name.
    pub ident: String,
    /// The struct's attributes.
    pub attrs: Vec<AttrModel>,
    /// The struct's shape and fields.
    pub data: DataModel,
}

/// What the derive generates for a struct: its parsed configuration, its
/// classified fields, and the plan of every generated method.
pub struct Expansion {
    /// The struct's parsed `#[env_config(...)]`.
    pub config: EnvConfigAttr,
    /// Its fields, classified, in order.
    pub generators: Vec<FieldGenerator>,
    /// `from_env()`.
    pub from_env: FromEnvPlan,
    /// The masking `Debug` implementation.
    pub debug: Vec<DebugEntry>,
    /// `env_example()` and `env_example_entries()`.
    pub env_example: Vec<ExampleFragment>,
    /// `from_env_with_sources()`, `sources()`, and `from_args()` when a field
    /// has a CLI argument.
    pub sources: SourcesPlan,
    /// `__config_defaults()`, `__config_profile_defaults()`, `__env_mappings()`.
    pub config_defaults: ConfigDefaultsPlan,
    /// `from_config()` and `from_config_with_sources()`, when files are
    /// configured.
    pub from_config: Option<FromConfigPlan>,
    /// `__from_json_value()`.
    pub from_json: FromJsonPlan,
    /// The validating loaders, when `validate` is set.
    pub validated: Option<Vec<CustomValidation>>,
    /// `__from_env_with_external_prefix()`.
    pub external_prefix: PrefixedEnvPlan,
    /// `keys()`, `get_str()`, `has_key()`.
    pub runtime: RuntimeAccess,
}

/// `x` holds the plan of every method generated for the fields
/// `x.generators` under `x.config`.
pub open spec fn plans_of(x: Expansion) -> bool {
    let gs = x.generators@;
    let c = x.config;
    &&& from_env_plan_of(x.from_env, gs, c)
    &&& debug_entries_of(x.debug@, gs)
    &&& fragments_of(x.env_example@, gs)
    &&& sources_plan_of(x.sources, gs, c)
    &&& config_defaults_plan_of(x.config_defaults, gs)
    &&& x.from_config is Some <==> c.files@.len() > 0
    &&& x.from_config matches Some(p) ==> from_config_plan_of(p, gs, c)
    &&& from_json_plan_of(x.from_json, gs)
    &&& x.validated is Some <==> c.validate
    &&& x.validated matches Some(v) ==> validations_of(v@, gs)
    &&& prefixed_env_plan_of(x.external_prefix, gs, c)
    &&& runtime_access_of(x.runtime, gs)
}

/// Errors are accumulated, not stopped at: every loading method loads every
/// field (one loader, one assignment per field, in field order), so that
/// all the problems of a configuration are reported together.
pub proof fn law_every_field_is_loaded(x: Expansion)
    requires
        plans_of(x),
    ensures
        x.from_env.loaders@.len() == x.generators@.len(),
        x.from_env.assignments@.len() == x.generators@.len(),
        x.sources.loaders@.len() == x.generators@.len(),
        x.sources.sources@.len() == x.generators@.len(),
        x.external_prefix.loaders@.len() == x.generators@.len(),
        x.external_prefix.sources@.len() == x.generators@.len(),
        x.sources.from_args matches Some(a) ==> a.loaders@.len() == x.generators@.len(),
        x.from_json.extractions@.len() == x.generators@.len(),
        x.from_config matches Some(c) ==> c.sources@.len() == x.generators@.len(),
        x.debug@.len() == x.generators@.len(),
{
}

/// A secret field is masked wherever its value could show: `Debug` prints a
/// placeholder (a secrecy type redacts itself), and its loaders mask its
/// value in their parse errors.
pub proof fn law_secret_fields_masked(x: Expansion, i: int)
    requires
        plans_of(x),
        0 <= i < x.generators@.len(),
        x.generators@[i].spec_is_secret(),
    ensures
        x.debug@[i].value == DebugValue::Redacted || x.generators@[i].spec_is_secrecy_type(),
        x.from_env.loaders@[i] matches FieldLoader::Profile(l) ==> l.secret,
        x.from_env.loaders@[i] matches FieldLoader::Base(Loader::Var(v)) ==> v.secret,
        x.sources.loaders@[i] matches FieldLoader::Profile(l) ==> l.secret,
        x.external_prefix.loaders@[i] matches Loader::Var(v) ==> v.secret,
        x.sources.from_args matches Some(a) ==> (a.loaders@[i] matches CliLoader::Cli {
            secret,
            ..
        } ==> secret),
{
    let g = x.generators@[i];
    assert(field_loader_rel()(x.from_env.loaders@[i], g));
    assert(field_loader_rel()(x.sources.loaders@[i], g));
    assert(prefixed_loader_rel()(x.external_prefix.loaders@[i], g));
    if let Some(a) = x.sources.from_args {
        assert(cli_loader_rel()(a.loaders@[i], g));
    }
}

/// The error for an input that is not a struct with named fields.
pub open spec fn shape_error(d: DataModel) -> Option<Seq<char>> {
    match d {
        DataModel::Struct(StructFields::Named(_)) => None,
        DataModel::Struct(StructFields::Unnamed) => Some(
            "EnvConfig does not support tuple structs"@,
        ),
        DataModel::Struct(StructFields::Unit) => Some("EnvConfig does not support unit structs"@),
        DataModel::Enum => Some("EnvConfig can only be derived for structs, not enums"@),
        DataModel::Union => Some("EnvConfig can only be derived for structs, not unions"@),
    }
}

/// The fields of a struct with named fields.
pub open spec fn named_fields(d: DataModel) -> Seq<FieldModel> {
    match d {
        DataModel::Struct(StructFields::Named(v)) => v@,
        _ => Seq::empty(),
    }
}

/// Named fields have names.
pub open spec fn well_formed(input: DeriveModel) -> bool {
    forall|i: int|
        0 <= i < named_fields(input.data).len() ==> (#[trigger] named_fields(input.data)[i]).ident is Some
}

/// A field that cannot be classified.
pub open spec fn bad_field() -> spec_fn(FieldModel) -> bool {
    |f: FieldModel| parse_field_error(f) is Some
}

/// The index of the first field that cannot be classified.
pub open spec fn first_bad_field(fields: Seq<FieldModel>) -> Option<int> {
    crate::text::first_index(fields, bad_field())
}

/// Adding a field adds its CLI argument.
pub proof fn lemma_has_cli_push(gs: Seq<FieldGenerator>, g: FieldGenerator)
    ensures
        has_cli(gs.push(g)) == (has_cli(gs) || g.spec_cli() is Some),
{
    let t = gs.push(g);
    if has_cli(gs) {
        let i = choose|i: int| 0 <= i < gs.len() && (#[trigger] gs[i]).spec_cli() is Some;
        assert(t[i] == gs[i]);
    }
    if g.spec_cli() is Some {
        assert(t[gs.len() as int] == g);
    }
    if has_cli(t) {
        let i = choose|i: int| 0 <= i < t.len() && (#[trigger] t[i]).spec_cli() is Some;
        if i < gs.len() {
            assert(t[i] == gs[i]);
        }
    }
}

/// The error of the derive on `input`, with the index of the field it
/// belongs to: the struct attribute's error first, then a shape error, then
/// the first field's error.
pub open spec fn expand_error(input: DeriveModel) -> Option<(ErrorSpec, Option<int>)> {
    match env_config_result(input.attrs@) {
        Err(e) => Some((e, None)),
        Ok(_) => match shape_error(input.data) {
            Some(m) => Some(((m, ErrorSpan::Input), None)),
            None => match first_bad_field(named_fields(input.data)) {
                Some(i) => Some((parse_field_error(named_fields(input.data)[i])->0, Some(i))),
                None => None,
            },
        },
    }
}

/// Some field has a CLI argument.
pub open spec fn has_cli(gs: Seq<FieldGenerator>) -> bool {
    exists|i: int| 0 <= i < gs.len() && (#[trigger] gs[i]).spec_cli() is Some
}

impl Expander {
    /// Checks that the input is a struct with named fields.
    pub fn extract_struct_fields(input: &DeriveModel) -> (r: Result<&Vec<FieldModel>, MacroError>)
        ensures
            r is Err <==> shape_error(input.data) is Some,
            r matches Err(e) ==> e.message@ == shape_error(input.data)->0 && e.span
                == ErrorSpan::Input && e.field is None,
            r matches Ok(v) ==> v@ == named_fields(input.data),
    {
        match &input.data {
            DataModel::Struct(StructFields::Named(v)) => Ok(v),
            DataModel::Struct(StructFields::Unnamed) => Err(
                error_at(
                    String::from_str("EnvConfig does not support tuple structs"),
                    ErrorSpan::Input,
                ),
            ),
            DataModel::Struct(StructFields::Unit) => Err(
                error_at(String::from_str("EnvConfig does not support unit structs"), ErrorSpan::Input),
            ),
            DataModel::Enum => Err(
                error_at(
                    String::from_str("EnvConfig can only be derived for structs, not enums"),
                    ErrorSpan::Input,
                ),
            ),
            DataModel::Union => Err(
                error_at(
                    String::from_str("EnvConfig can only be derived for structs, not unions"),
                    ErrorSpan::Input,
                ),
            ),
        }
    }

    /// The derive: the struct attribute, the shape, every field in order;
    /// then which optional methods are generated. The first error stops it.
    pub fn expand(input: &DeriveModel) -> (r: Result<Expansion, MacroError>)
        requires
            well_formed(*input),
        ensures
            r is Err <==> expand_error(*input) is Some,
            r matches Err(e) ==> ({
                let (s, f) = expand_error(*input)->0;
                e.message@ == s.0 && e.span == s.1 && (match f {
                    Some(i) => e.field == Some(i as usize),
                    None => e.field is None,
                })
            }),
            r matches Ok(x) ==> ({
                let fields = named_fields(input.data);
                &&& x.config@ == env_config_result(input.attrs@)->Ok_0
                &&& x.generators@.len() == fields.len()
                &&& forall|i: int|
                    0 <= i < fields.len() ==> generator_matches(
                        #[trigger] x.generators@[i],
                        fields[i],
                        opt_string(x.config.prefix),
                    )
                &&& forall|i: int| 0 <= i < fields.len() ==> args_ready(#[trigger] x.generators@[i])
                &&& plans_of(x)
            }),
    {
        let config = EnvConfigAttr::parse_from_struct(&input.attrs)?;
        let fields = Self::extract_struct_fields(input)?;
        let ghost fs = fields@;
        let ghost bad = bad_field();
        let mut generators: Vec<FieldGenerator> = Vec::new();
        let mut i: usize = 0;
        while i < fields.len()
            invariant
                i <= fields.len(),
                fs == fields@,
                fs == named_fields(input.data),
                well_formed(*input),
                env_config_result(input.attrs@) == Ok::<EnvConfigSpec, ErrorSpec>(config@),
                shape_error(input.data) is None,
                bad == bad_field(),
                forall|j: int| 0 <= j < i ==> !bad(#[trigger] fs[j]),
                generators@.len() == i,
                forall|j: int|
                    0 <= j < i ==> generator_matches(
                        #[trigger] generators@[j],
                        fs[j],
                        opt_string(config.prefix),
                    ),
                forall|j: int| 0 <= j < i ==> args_ready(#[trigger] generators@[j]),
            decreases fields.len() - i,
        {
            assert(fs[i as int].ident is Some);
            let prefix: Option<&str> = match &config.prefix {
                Some(p) => Some(p.as_str()),
                None => None,
            };
            assert(opt_str(prefix) == opt_string(config.prefix));
            match FieldFactory::parse_field(&fields[i], prefix) {
                Ok(g) => {
                    proof {
                        args::law_fields_args_ready(g, fs[i as int], opt_string(config.prefix));
                    }
                    generators.push(g);
                },
                Err(mut e) => {
                    proof {
                        assert(bad(fs[i as int]));
                        crate::text::lemma_first_index(fs, bad, i as int);
                        assert(first_bad_field(fs) == Some(i as int));
                        assert(env_config_result(input.attrs@) is Ok);
                        assert(shape_error(input.data) is None);
                        assert(expand_error(*input) == Some(
                            (parse_field_error(fs[i as int])->0, Some(i as int)),
                        ));
                    }
                    e.field = Some(i);
                    return Err(e);
                },
            }
            i = i + 1;
        }
        proof {
            crate::text::lemma_first_index(fs, bad, i as int);
        }
        let from_env = env::generate_from_env_impl(&generators, &config);
        let debug = debug::generate_debug_impl(&generators);
        let env_example = example::generate_env_example_impl(&generators);
        let sources = sources::generate_from_env_with_sources_impl(&generators, &config);
        let config_defaults = config::generate_config_defaults_impl(&generators);
        let from_config = if config.files.len() > 0 {
            Some(config::generate_from_config_impl(&generators, &config))
        } else {
            None
        };
        let from_json = config::generate_from_json_value_impl(&generators);
        let validated = if config.validate {
            Some(validation::generate_validated_impl(&generators))
        } else {
            None
        };
        let external_prefix = env::generate_from_env_with_external_prefix_impl(&generators, &config);
        let runtime = runtime::generate_runtime_access_impl(&generators);
        Ok(
            Expansion {
                config,
                generators,
                from_env,
                debug,
                env_example,
                sources,
                config_defaults,
                from_config,
                from_json,
                validated,
                external_prefix,
                runtime,
            },
        )
    }
}

/// The characters of an optional string.
pub open spec fn opt_string(p: Option<String>) -> Option<Seq<char>> {
    crate::field::opt_string(p)
}

/// Orchestrates the derive.
pub struct Expander;

} // verus!
