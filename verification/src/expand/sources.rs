//! `from_env_with_sources()`: where each field's value came from.

use vstd::prelude::*;

use crate::expand::args::{args_ready, from_args_plan_of, generate_from_args_impl, FromArgsPlan};
use crate::expand::env::{
    dotenv_load_of, field_loader_rel, generate_dotenv_load, generate_field_loaders,
    generate_profile_setup, profile_setup_of, DotenvLoad, FieldLoader, ProfileSetup,
};
use crate::expand::{
    each_of, env_var_names, env_vars_of, generate_assignments, has_cli, ErrorReturn, lemma_each_of_push,
    lemma_take_push, local_name, local_var,
};
use crate::field::{assignment_rel, Assignment, FieldGenerator};
use crate::parse::EnvConfigAttr;

verus! {

/// How a field's source is told after `from_env_with_sources()` loads it.
pub enum SourceTracking {
    /// A flattened field: the nested struct's sources, under its name.
    Nested { name: String, nested_sources_var: String },
    /// A field that is set or not: profile (when it has profile values and
    /// the profile's value was used), then environment or `.env` file when
    /// it has a value, else not set.
    Presence {
        name: String,
        env_var: String,
        source_var: String,
        profile_used_var: Option<String>,
    },
    /// A field with a default: profile (as above), then default when it was
    /// used, then `.env` file or environment.
    WithDefault {
        name: String,
        env_var: String,
        source_var: String,
        used_default_var: String,
        profile_used_var: Option<String>,
    },
}

/// `o` is the profile flag of field `g`: `__<name>_from_profile` when it
/// has profile values, none otherwise.
pub open spec fn profile_flag(o: Option<String>, g: FieldGenerator) -> bool {
    match g.spec_profile() {
        Some(_) => o matches Some(v) && v@ == local_name(g.spec_name()@, "_from_profile"@),
        None => o is None,
    }
}

/// `r` is the source attribution of field `g` in `from_env_with_sources()`.
pub open spec fn source_tracking_of(r: SourceTracking, g: FieldGenerator) -> bool {
    match g {
        FieldGenerator::Flatten(x) => r matches SourceTracking::Nested { name, nested_sources_var }
            && name == x.name && nested_sources_var@ == local_name(x.name@, "_nested_sources"@),
        FieldGenerator::Default(x) => r matches SourceTracking::WithDefault {
            name,
            env_var,
            source_var,
            used_default_var,
            profile_used_var,
        } && name == x.name && env_var == x.env_var && source_var@ == local_name(
            x.name@,
            "_source"@,
        ) && used_default_var@ == local_name(x.name@, "_used_default"@) && profile_flag(
            profile_used_var,
            g,
        ),
        _ => r matches SourceTracking::Presence { name, env_var, source_var, profile_used_var }
            && name == g.spec_name() && Some(env_var) == g.spec_env_var() && source_var@
            == local_name(g.spec_name()@, "_source"@) && profile_flag(profile_used_var, g),
    }
}

/// The relation of a field to its source attribution.
pub open spec fn source_tracking_rel() -> spec_fn(SourceTracking, FieldGenerator) -> bool {
    |x: SourceTracking, g: FieldGenerator| source_tracking_of(x, g)
}

impl FieldGenerator {
    /// The field's source attribution in `from_env_with_sources()`.
    pub fn generate_source_tracking(&self) -> (r: SourceTracking)
        ensures
            source_tracking_of(r, *self),
    {
        let name = self.name();
        let profile_used_var = match self.profile_config() {
            Some(_) => Some(local_var(name.as_str(), "_from_profile")),
            None => None,
        };
        match self {
            FieldGenerator::Flatten(x) => SourceTracking::Nested {
                name: x.name.clone(),
                nested_sources_var: local_var(x.name.as_str(), "_nested_sources"),
            },
            FieldGenerator::Default(x) => SourceTracking::WithDefault {
                name: x.name.clone(),
                env_var: x.env_var.clone(),
                source_var: local_var(x.name.as_str(), "_source"),
                used_default_var: local_var(x.name.as_str(), "_used_default"),
                profile_used_var,
            },
            _ => {
                let env_var = match self.env_var_name() {
                    Some(v) => v.clone(),
                    None => String::new(),
                };
                SourceTracking::Presence {
                    name: name.clone(),
                    env_var,
                    source_var: local_var(name.as_str(), "_source"),
                    profile_used_var,
                }
            },
        }
    }
}

// ============================================================================
// The whole method
// ============================================================================

/// `from_env_with_sources()` and `sources()`: as `from_env()`, recording
/// where each value came from; `from_args()` too when a field has a CLI
/// argument.
pub struct SourcesPlan {
    /// The variables checked before `.env` loading, in field order.
    pub pre_dotenv_vars: Vec<String>,
    pub dotenv: DotenvLoad,
    /// A `.env` file is configured.
    pub dotenv_loaded: bool,
    pub profile: ProfileSetup,
    /// One loader per field, in order.
    pub loaders: Vec<FieldLoader>,
    /// One source attribution per field, in order.
    pub sources: Vec<SourceTracking>,
    /// One assignment per field, in order.
    pub assignments: Vec<Assignment>,
    /// `from_args()`, when some field has a CLI argument.
    pub from_args: Option<FromArgsPlan>,
    /// How the accumulated errors are returned.
    pub errors: ErrorReturn,
}

/// `r` is the plan of `from_env_with_sources()` for the fields `gs` under
/// `config`.
pub open spec fn sources_plan_of(r: SourcesPlan, gs: Seq<FieldGenerator>, config: EnvConfigAttr) -> bool {
    &&& env_vars_of(r.pre_dotenv_vars@, gs)
    &&& dotenv_load_of(r.dotenv, config.dotenv)
    &&& r.dotenv_loaded == (config.dotenv is Some)
    &&& profile_setup_of(r.profile, config)
    &&& each_of(r.loaders@, gs, field_loader_rel())
    &&& each_of(r.sources@, gs, source_tracking_rel())
    &&& each_of(r.assignments@, gs, assignment_rel())
    &&& r.from_args is Some <==> has_cli(gs)
    &&& r.from_args matches Some(a) ==> from_args_plan_of(a, gs, config)
    &&& r.errors == ErrorReturn::OneOrMultiple
}

/// The plan of `from_env_with_sources()` for the fields `generators` under
/// `config`.
pub fn generate_from_env_with_sources_impl(
    generators: &Vec<FieldGenerator>,
    config: &EnvConfigAttr,
) -> (r: SourcesPlan)
    requires
        has_cli(generators@) ==> forall|i: int|
            0 <= i < generators@.len() ==> args_ready(#[trigger] generators@[i]),
    ensures
        sources_plan_of(r, generators@, *config),
{
    let mut sources: Vec<SourceTracking> = Vec::new();
    let mut any_cli = false;
    let mut i: usize = 0;
    while i < generators.len()
        invariant
            i <= generators.len(),
            each_of(sources@, generators@.take(i as int), source_tracking_rel()),
            any_cli == has_cli(generators@.take(i as int)),
        decreases generators.len() - i,
    {
        let g = &generators[i];
        let t = g.generate_source_tracking();
        proof {
            lemma_take_push(generators@, i as int);
            lemma_each_of_push(sources@, generators@.take(i as int), source_tracking_rel(), t, *g);
            crate::expand::lemma_has_cli_push(generators@.take(i as int), *g);
        }
        sources.push(t);
        any_cli = any_cli || g.cli_config().is_some();
        i = i + 1;
    }
    proof {
        assert(generators@.take(generators.len() as int) =~= generators@);
    }
    let from_args = if any_cli {
        Some(generate_from_args_impl(generators, config))
    } else {
        None
    };
    SourcesPlan {
        pre_dotenv_vars: env_var_names(generators),
        dotenv: generate_dotenv_load(&config.dotenv),
        dotenv_loaded: config.dotenv.is_some(),
        profile: generate_profile_setup(config),
        loaders: generate_field_loaders(generators),
        sources,
        assignments: generate_assignments(generators),
        from_args,
        errors: ErrorReturn::OneOrMultiple,
    }
}

} // verus!
