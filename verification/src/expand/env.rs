//! `from_env()` and `__from_env_with_external_prefix()`: `.env` loading,
//! profile selection, and the loader each field gets.

use vstd::prelude::*;

use crate::expand::{
    each_of, env_var_names, ErrorReturn, env_vars_of, generate_assignments, lemma_each_of_push,
    lemma_take_push, local_name, local_var,
};
use crate::field::{assignment_rel, Assignment, FieldGenerator};
use crate::loader::{
    base_loader_of, format_loader_of, missing_of, prefixed_var_loader_of, profile_value,
    read_outcome, EnvRead, Loader, Missing, ReadError,
};
use crate::parse::{DotenvConfig, EnvConfigAttr};

verus! {

/// The `.env` loading that precedes reading the environment. Every file is
/// loaded without overriding a variable that is already set, so a file
/// loaded earlier wins over one loaded later, and the process environment
/// over both.
pub struct DotenvLoad {
    /// Run the default `.env` search.
    pub default_search: bool,
    /// Load these files, in this order.
    pub files: Vec<String>,
}

/// `r` is the `.env` loading for the configuration `d`: nothing without
/// `dotenv`, the default search for a bare `dotenv`, else the named files
/// from the last listed to the first, so that a later file overrides an
/// earlier one.
pub open spec fn dotenv_load_of(r: DotenvLoad, d: Option<DotenvConfig>) -> bool {
    match d {
        None => !r.default_search && r.files@.len() == 0,
        Some(DotenvConfig::Default) => r.default_search && r.files@.len() == 0,
        Some(DotenvConfig::Custom(p)) => !r.default_search && r.files@ == seq![p],
        Some(DotenvConfig::Multiple(ps)) => !r.default_search && r.files@ == ps@.reverse(),
    }
}

/// `.env` loading for the configuration `d`.
pub fn generate_dotenv_load(d: &Option<DotenvConfig>) -> (r: DotenvLoad)
    ensures
        dotenv_load_of(r, *d),
{
    match d {
        None => DotenvLoad { default_search: false, files: Vec::new() },
        Some(DotenvConfig::Default) => DotenvLoad { default_search: true, files: Vec::new() },
        Some(DotenvConfig::Custom(p)) => {
            let mut files = Vec::new();
            files.push(p.clone());
            assert(files@ =~= seq![*p]);
            DotenvLoad { default_search: false, files }
        },
        Some(DotenvConfig::Multiple(ps)) => {
            let mut files: Vec<String> = Vec::new();
            let n = ps.len();
            let mut i: usize = 0;
            while i < n
                invariant
                    n == ps.len(),
                    i <= n,
                    files@ == ps@.reverse().take(i as int),
                decreases n - i,
            {
                files.push(ps[n - 1 - i].clone());
                assert(files@ =~= ps@.reverse().take(i + 1));
                i = i + 1;
            }
            assert(ps@.reverse().take(n as int) =~= ps@.reverse());
            DotenvLoad { default_search: false, files }
        },
    }
}

/// Later `.env` files override earlier ones: the file listed at `j` is
/// loaded at `n - 1 - j`, before every file listed before it, and a loaded
/// file does not override what an earlier one set.
pub proof fn law_later_dotenv_file_wins(r: DotenvLoad, ps: Vec<String>)
    requires
        dotenv_load_of(r, Some(DotenvConfig::Multiple(ps))),
    ensures
        r.files@.len() == ps@.len(),
        forall|j: int| 0 <= j < ps@.len() ==> r.files@[ps@.len() - 1 - j] == #[trigger] ps@[j],
{
    assert forall|j: int| 0 <= j < ps@.len() implies r.files@[ps@.len() - 1 - j] == #[trigger] ps@[j] by {
        assert(ps@.reverse()[ps@.len() - 1 - j] == ps@[j]);
    }
}

/// What becomes of an active profile outside the allowed list.
#[derive(PartialEq, Eq, Structural, Clone, Copy)]
pub enum InvalidProfile {
    /// An invalid-profile error joins the others; loading goes on.
    Accumulate,
    /// The load returns that error at once, before anything else is read.
    Return,
}

/// How the active profile is read.
pub enum ProfileSetup {
    /// No profile: `__profile` is `None`.
    Disabled,
    /// Read `var`; when `allowed` is given, any other value is an error,
    /// handled as `on_invalid` says.
    Read { var: String, allowed: Option<Vec<String>>, on_invalid: InvalidProfile },
}

/// `r` is the profile setup for configuration `c`, an invalid profile
/// handled as `mode` says: disabled without `profile_env`, else reading
/// that variable, checked against `profiles` when they are listed.
pub open spec fn profile_setup_in(r: ProfileSetup, c: EnvConfigAttr, mode: InvalidProfile) -> bool {
    match c.profile_env {
        None => r is Disabled,
        Some(v) => r matches ProfileSetup::Read { var, allowed, on_invalid } && var == v
            && on_invalid == mode && match c.profiles {
            None => allowed is None,
            Some(ps) => allowed matches Some(a) && a@ == ps@,
        },
    }
}

/// `r` is the profile setup of the environment loaders for configuration
/// `c`: an invalid profile is one more accumulated error.
pub open spec fn profile_setup_of(r: ProfileSetup, c: EnvConfigAttr) -> bool {
    profile_setup_in(r, c, InvalidProfile::Accumulate)
}

/// The profile setup for configuration `c`, an invalid profile handled as
/// `mode` says.
pub fn profile_setup_with(c: &EnvConfigAttr, mode: InvalidProfile) -> (r: ProfileSetup)
    ensures
        profile_setup_in(r, *c, mode),
{
    match &c.profile_env {
        None => ProfileSetup::Disabled,
        Some(v) => {
            let allowed = match &c.profiles {
                None => None,
                Some(ps) => {
                    let mut a: Vec<String> = Vec::new();
                    let mut i: usize = 0;
                    while i < ps.len()
                        invariant
                            i <= ps.len(),
                            a@ == ps@.take(i as int),
                        decreases ps.len() - i,
                    {
                        a.push(ps[i].clone());
                        assert(a@ =~= ps@.take(i + 1));
                        i = i + 1;
                    }
                    assert(ps@.take(ps.len() as int) =~= ps@);
                    Some(a)
                },
            };
            ProfileSetup::Read { var: v.clone(), allowed, on_invalid: mode }
        },
    }
}

/// The profile setup of the environment loaders for configuration `c`.
pub fn generate_profile_setup(c: &EnvConfigAttr) -> (r: ProfileSetup)
    ensures
        profile_setup_of(r, *c),
{
    profile_setup_with(c, InvalidProfile::Accumulate)
}

/// The loader of a field with profile-specific defaults: the variable,
/// else the active profile's value, else the field's rule for a missing
/// variable (its default, an error, or no value), as `read_outcome` says.
pub struct ProfileLoader {
    /// Profile name and value, one per profile.
    pub arms: Vec<(String, String)>,
    /// The variable read.
    pub env_var: String,
    /// The type named in parse errors.
    pub type_label: String,
    /// Mask the value in parse errors: the error then carries the secret
    /// flag and `redacted_text()` in place of the text read.
    pub secret: bool,
    /// What a missing variable gives when the profile gives no value.
    pub missing: Missing,
    /// `__<name>_from_profile`: the profile's value was used.
    pub profile_used_var: String,
}

/// The loader of a field in `from_env()`.
pub enum FieldLoader {
    /// The field's own loader.
    Base(Loader),
    /// The profile-aware loader.
    Profile(ProfileLoader),
}

/// Copies a table of profile values.
pub fn copy_pairs(v: &Vec<(String, String)>) -> (r: Vec<(String, String)>)
    ensures
        r@ == v@,
{
    let mut r: Vec<(String, String)> = Vec::new();
    let mut i: usize = 0;
    while i < v.len()
        invariant
            i <= v.len(),
            r@ == v@.take(i as int),
        decreases v.len() - i,
    {
        let (a, b) = &v[i];
        r.push((a.clone(), b.clone()));
        assert(r@ =~= v@.take(i + 1));
        i = i + 1;
    }
    assert(v@.take(v.len() as int) =~= v@);
    r
}

/// `r` is the loader of field `g` in `from_env()`: with profile values, the
/// profile-aware loader (env var, then profile, then default, then missing);
/// otherwise the field's own loader, by format or by parsing.
pub open spec fn field_loader_of(r: FieldLoader, g: FieldGenerator) -> bool {
    match g.spec_profile() {
        None => r matches FieldLoader::Base(b) && base_loader_of(b, g),
        Some(p) => r matches FieldLoader::Profile(l) && l.arms@ == p.values@ && Some(l.env_var)
            == g.spec_env_var() && l.type_label@ == g.spec_type_name() && l.secret
            == g.spec_is_secret() && missing_of(l.missing, g) && l.profile_used_var@ == local_name(
            g.spec_name()@,
            "_from_profile"@,
        ),
    }
}

/// A field with profile values reads its variable, then the active
/// profile's value, then its own rule for a missing variable: an optional
/// field is then left without value and without error, a required one
/// records one missing-variable error; data that is not valid UTF-8 is
/// reported once.
pub proof fn law_profile_loader_follows_field_rule(
    l: ProfileLoader,
    g: FieldGenerator,
    var: String,
    read: EnvRead,
    active: Option<String>,
)
    requires
        field_loader_of(FieldLoader::Profile(l), g),
    ensures
        ({
            let pv = profile_value(l.arms@, active);
            let out = read_outcome(l.missing, var, read, pv);
            &&& read is NotUnicode ==> (out.0 is None && out.1 == seq![ReadError::InvalidUtf8(var)])
            &&& (read is NotPresent && pv is Some) ==> (out.0 == pv && out.1.len() == 0)
            &&& (read is NotPresent && pv is None && g is Optional) ==> (out.0 is None && out.1.len()
                == 0)
            &&& (read is NotPresent && pv is None && g is Required) ==> (out.0 is None && out.1
                == seq![ReadError::Missing(var)])
            &&& (read is NotPresent && pv is None && g is Default) ==> (out.0 == g.spec_default()
                && out.1.len() == 0)
        }),
{
}

/// The relation of a field to its loader in `from_env()`.
pub open spec fn field_loader_rel() -> spec_fn(FieldLoader, FieldGenerator) -> bool {
    |l: FieldLoader, g: FieldGenerator| field_loader_of(l, g)
}

/// The loader of field `field` in `from_env()`.
pub fn generate_field_loader(field: &FieldGenerator) -> (r: FieldLoader)
    ensures
        field_loader_of(r, *field),
{
    match field.profile_config() {
        None => {
            let b = match field.format_config() {
                Some(f) => field.generate_format_loader(f),
                None => field.generate_loader(),
            };
            FieldLoader::Base(b)
        },
        Some(p) => {
            let env_var = match field.env_var_name() {
                Some(v) => v.clone(),
                None => String::new(),
            };
            FieldLoader::Profile(
                ProfileLoader {
                    arms: copy_pairs(&p.values),
                    env_var,
                    type_label: field.type_label(),
                    secret: field.is_secret(),
                    missing: field.missing(),
                    profile_used_var: local_var(field.name().as_str(), "_from_profile"),
                },
            )
        },
    }
}

/// `r` is the loader of field `g` in `__from_env_with_external_prefix()`:
/// by its format (under its own variable), else under the prefixed variable.
pub open spec fn prefixed_loader_of(r: Loader, g: FieldGenerator) -> bool {
    match g.spec_format() {
        Some(f) => format_loader_of(r, g, f),
        None => prefixed_var_loader_of(r, g),
    }
}

/// The relation of a field to its loader in `__from_env_with_external_prefix()`.
pub open spec fn prefixed_loader_rel() -> spec_fn(Loader, FieldGenerator) -> bool {
    |l: Loader, g: FieldGenerator| prefixed_loader_of(l, g)
}

/// The loader of field `field` in `__from_env_with_external_prefix()`.
pub fn generate_prefixed_loader(field: &FieldGenerator) -> (r: Loader)
    ensures
        prefixed_loader_of(r, *field),
{
    match field.format_config() {
        Some(f) => field.generate_format_loader(f),
        None => field.generate_loader_with_external_prefix(),
    }
}

/// Source attribution of a field in `__from_env_with_external_prefix()`.
pub enum SimpleSource {
    /// A flattened field: the nested struct's sources, under its name.
    Nested { name: String, nested_sources_var: String },
    /// A regular field: environment (or `.env`) when its variable is set,
    /// else its default, else not set.
    Var { name: String, env_var: String, source_var: String, has_default: bool },
}

/// `r` is the source attribution of field `g` in
/// `__from_env_with_external_prefix()`.
pub open spec fn simple_source_of(r: SimpleSource, g: FieldGenerator) -> bool {
    &&& g is Flatten ==> (r matches SimpleSource::Nested { name, nested_sources_var } && name
        == g.spec_name() && nested_sources_var@ == local_name(g.spec_name()@, "_nested_sources"@))
    &&& !(g is Flatten) ==> (r matches SimpleSource::Var { name, env_var, source_var, has_default }
        && name == g.spec_name() && Some(env_var) == g.spec_env_var() && source_var@ == local_name(
        g.spec_name()@,
        "_source"@,
    ) && has_default == (g.spec_default() is Some))
}

/// The relation of a field to its source attribution in
/// `__from_env_with_external_prefix()`.
pub open spec fn simple_source_rel() -> spec_fn(SimpleSource, FieldGenerator) -> bool {
    |x: SimpleSource, g: FieldGenerator| simple_source_of(x, g)
}

/// The source attribution of field `field`.
pub fn generate_simple_source_tracking(field: &FieldGenerator) -> (r: SimpleSource)
    ensures
        simple_source_of(r, *field),
{
    let name = field.name();
    match field.env_var_name() {
        None => SimpleSource::Nested {
            name: name.clone(),
            nested_sources_var: local_var(name.as_str(), "_nested_sources"),
        },
        Some(v) => SimpleSource::Var {
            name: name.clone(),
            env_var: v.clone(),
            source_var: local_var(name.as_str(), "_source"),
            has_default: field.default_value().is_some(),
        },
    }
}

// ============================================================================
// Whole methods
// ============================================================================

/// The loaders of the fields in `from_env()`, in order.
pub fn generate_field_loaders(generators: &Vec<FieldGenerator>) -> (r: Vec<FieldLoader>)
    ensures
        each_of(r@, generators@, field_loader_rel()),
{
    let mut r: Vec<FieldLoader> = Vec::new();
    let mut i: usize = 0;
    while i < generators.len()
        invariant
            i <= generators.len(),
            each_of(r@, generators@.take(i as int), field_loader_rel()),
        decreases generators.len() - i,
    {
        let l = generate_field_loader(&generators[i]);
        proof {
            lemma_take_push(generators@, i as int);
            lemma_each_of_push(r@, generators@.take(i as int), field_loader_rel(), l, generators@[i as int]);
        }
        r.push(l);
        i = i + 1;
    }
    proof {
        assert(generators@.take(generators.len() as int) =~= generators@);
    }
    r
}

/// `from_env()`: load `.env` files, read the profile, run every field's
/// loader (errors are accumulated), then construct the struct.
pub struct FromEnvPlan {
    pub dotenv: DotenvLoad,
    pub profile: ProfileSetup,
    /// One loader per field, in order.
    pub loaders: Vec<FieldLoader>,
    /// One assignment per field, in order.
    pub assignments: Vec<Assignment>,
    /// How the accumulated errors are returned.
    pub errors: ErrorReturn,
}

/// `r` is the plan of `from_env()` for the fields `gs` under `config`.
pub open spec fn from_env_plan_of(r: FromEnvPlan, gs: Seq<FieldGenerator>, config: EnvConfigAttr) -> bool {
    &&& dotenv_load_of(r.dotenv, config.dotenv)
    &&& profile_setup_of(r.profile, config)
    &&& each_of(r.loaders@, gs, field_loader_rel())
    &&& each_of(r.assignments@, gs, assignment_rel())
    &&& r.errors == ErrorReturn::OneOrMultiple
}

/// The plan of `from_env()` for the fields `generators` under `config`.
pub fn generate_from_env_impl(generators: &Vec<FieldGenerator>, config: &EnvConfigAttr) -> (r:
    FromEnvPlan)
    ensures
        from_env_plan_of(r, generators@, *config),
{
    FromEnvPlan {
        dotenv: generate_dotenv_load(&config.dotenv),
        profile: generate_profile_setup(config),
        loaders: generate_field_loaders(generators),
        assignments: generate_assignments(generators),
        errors: ErrorReturn::OneOrMultiple,
    }
}

/// `__from_env_with_external_prefix()`: as `from_env()`, every variable
/// read under the caller's prefix, and each field's source recorded.
pub struct PrefixedEnvPlan {
    /// The variables checked before `.env` loading, in field order.
    pub pre_dotenv_vars: Vec<String>,
    pub dotenv: DotenvLoad,
    /// A `.env` file is configured.
    pub dotenv_loaded: bool,
    pub profile: ProfileSetup,
    /// One loader per field, in order.
    pub loaders: Vec<Loader>,
    /// One source attribution per field, in order.
    pub sources: Vec<SimpleSource>,
    /// One assignment per field, in order.
    pub assignments: Vec<Assignment>,
    /// How the accumulated errors are returned.
    pub errors: ErrorReturn,
}

/// `r` is the plan of `__from_env_with_external_prefix()` for the fields
/// `gs` under `config`.
pub open spec fn prefixed_env_plan_of(
    r: PrefixedEnvPlan,
    gs: Seq<FieldGenerator>,
    config: EnvConfigAttr,
) -> bool {
    &&& env_vars_of(r.pre_dotenv_vars@, gs)
    &&& dotenv_load_of(r.dotenv, config.dotenv)
    &&& r.dotenv_loaded == (config.dotenv is Some)
    &&& profile_setup_of(r.profile, config)
    &&& each_of(r.loaders@, gs, prefixed_loader_rel())
    &&& each_of(r.sources@, gs, simple_source_rel())
    &&& each_of(r.assignments@, gs, assignment_rel())
    &&& r.errors == ErrorReturn::OneOrMultiple
}

/// The plan of `__from_env_with_external_prefix()`.
pub fn generate_from_env_with_external_prefix_impl(
    generators: &Vec<FieldGenerator>,
    config: &EnvConfigAttr,
) -> (r: PrefixedEnvPlan)
    ensures
        prefixed_env_plan_of(r, generators@, *config),
{
    let mut loaders: Vec<Loader> = Vec::new();
    let mut sources: Vec<SimpleSource> = Vec::new();
    let mut i: usize = 0;
    while i < generators.len()
        invariant
            i <= generators.len(),
            each_of(loaders@, generators@.take(i as int), prefixed_loader_rel()),
            each_of(sources@, generators@.take(i as int), simple_source_rel()),
        decreases generators.len() - i,
    {
        let g = &generators[i];
        let l = generate_prefixed_loader(g);
        let x = generate_simple_source_tracking(g);
        proof {
            lemma_take_push(generators@, i as int);
            lemma_each_of_push(loaders@, generators@.take(i as int), prefixed_loader_rel(), l, *g);
            lemma_each_of_push(sources@, generators@.take(i as int), simple_source_rel(), x, *g);
        }
        loaders.push(l);
        sources.push(x);
        i = i + 1;
    }
    proof {
        assert(generators@.take(generators.len() as int) =~= generators@);
    }
    PrefixedEnvPlan {
        pre_dotenv_vars: env_var_names(generators),
        dotenv: generate_dotenv_load(&config.dotenv),
        dotenv_loaded: config.dotenv.is_some(),
        profile: generate_profile_setup(config),
        loaders,
        sources,
        assignments: generate_assignments(generators),
        errors: ErrorReturn::OneOrMultiple,
    }
}

/// Whether the profile setup `r` lets the active profile `p` through.
pub open spec fn profile_accepted(r: ProfileSetup, p: String) -> bool {
    match r {
        ProfileSetup::Disabled => true,
        ProfileSetup::Read { allowed, .. } => match allowed {
            None => true,
            Some(a) => a@.contains(p),
        },
    }
}

/// With `profile_env` configured the profile is read from that variable,
/// and when `profiles` are listed the setup checks against exactly that
/// list: an active profile passes if and only if the list names it.
pub proof fn law_profile_setup_checks_listed_profiles(
    r: ProfileSetup,
    c: EnvConfigAttr,
    mode: InvalidProfile,
    p: String,
)
    requires
        profile_setup_in(r, c, mode),
        c.profile_env is Some,
    ensures
        r matches ProfileSetup::Read { var, on_invalid, .. } && var == c.profile_env->0
            && on_invalid == mode,
        c.profiles matches Some(ps) ==> (r matches ProfileSetup::Read { allowed, .. } && allowed
            matches Some(a) && a@ == ps@),
        profile_accepted(r, p) <==> (c.profiles matches Some(ps) ==> ps@.contains(p)),
{
}

} // verus!
