//! `from_config()`, `__config_defaults()`, `__env_mappings()` and
//! `__from_json_value()`: layered loading from defaults, files and the
//! environment.

use vstd::prelude::*;

use crate::expand::env::{
    copy_pairs, dotenv_load_of, generate_dotenv_load, profile_setup_in, profile_setup_with,
    DotenvLoad, InvalidProfile, ProfileSetup,
};
use crate::expand::runtime::is_flatten_field;
use crate::expand::{
    each_of, env_var_names, env_vars_of, lemma_each_of_push, lemma_select_all, lemma_select_step,
    lemma_select_keeps, lemma_select_satisfies, lemma_take_push, local_name, local_var, select,
    ErrorReturn,
};
use crate::loader::profile_value;
use crate::field::{FieldGenerator, TypeModel};
use crate::parse::{EnvConfigAttr, FileConfig};

verus! {

/// How a field's value is found by its variable in `from_config()`.
pub enum EnvMapping {
    /// A flattened field: the nested struct's mappings, each under
    /// `<field_name>.<nested field>` with `prefix` before its variable.
    Nested { field_name: String, ty: TypeModel, prefix: String },
    /// A regular field: `field_name` is read from `env_var`.
    Direct { field_name: String, env_var: String },
}

/// `r` is the variable mapping of field `g`.
pub open spec fn env_mapping_of(r: EnvMapping, g: FieldGenerator) -> bool {
    match g {
        FieldGenerator::Flatten(x) => r matches EnvMapping::Nested { field_name, ty, prefix }
            && field_name == x.name && ty == x.ty && prefix@ == match x.prefix {
            Some(p) => p@,
            None => Seq::empty(),
        },
        _ => r matches EnvMapping::Direct { field_name, env_var } && field_name == g.spec_name()
            && Some(env_var) == g.spec_env_var(),
    }
}

/// The relation of a field to its variable mapping.
pub open spec fn env_mapping_rel() -> spec_fn(EnvMapping, FieldGenerator) -> bool {
    |r: EnvMapping, g: FieldGenerator| env_mapping_of(r, g)
}

/// Fields with a variable mapping: flattened ones and those that read a
/// variable.
pub open spec fn maps_env() -> spec_fn(FieldGenerator) -> bool {
    |g: FieldGenerator| g is Flatten || g.spec_env_var() is Some
}

/// The variable mapping of field `field`.
pub fn generate_env_mapping(field: &FieldGenerator) -> (r: EnvMapping)
    ensures
        env_mapping_of(r, *field),
{
    match field {
        FieldGenerator::Flatten(x) => EnvMapping::Nested {
            field_name: x.name.clone(),
            ty: x.ty.copy(),
            prefix: match &x.prefix {
                Some(p) => p.clone(),
                None => String::new(),
            },
        },
        _ => EnvMapping::Direct {
            field_name: field.name().clone(),
            env_var: match field.env_var_name() {
                Some(v) => v.clone(),
                None => String::new(),
            },
        },
    }
}

/// A field's macro default in the defaults layer.
pub struct DefaultEntry {
    pub field_name: String,
    pub value: String,
}

/// `e` is the macro default of field `g`.
pub open spec fn default_entry_of(e: DefaultEntry, g: FieldGenerator) -> bool {
    e.field_name == g.spec_name() && Some(e.value) == g.spec_default()
}

/// The relation of a field to its macro default.
pub open spec fn default_entry_rel() -> spec_fn(DefaultEntry, FieldGenerator) -> bool {
    |e: DefaultEntry, g: FieldGenerator| default_entry_of(e, g)
}

/// A regular field with a default.
pub open spec fn has_own_default() -> spec_fn(FieldGenerator) -> bool {
    |g: FieldGenerator| !(g is Flatten) && g.spec_default() is Some
}

/// The macro default of field `field`: a regular field with a default.
pub fn generate_default_entry(field: &FieldGenerator) -> (r: Option<DefaultEntry>)
    ensures
        r is Some <==> (!(field is Flatten) && field.spec_default() is Some),
        r matches Some(e) ==> default_entry_of(e, *field),
{
    if field.is_flatten() {
        return None;
    }
    match field.default_value() {
        Some(d) => Some(DefaultEntry { field_name: field.name().clone(), value: d.clone() }),
        None => None,
    }
}

/// A flattened field's nested defaults, placed under its name.
pub struct NestedDefaults {
    pub field_name: String,
    pub ty: TypeModel,
}

/// `n` is the nested defaults of field `g`.
pub open spec fn nested_defaults_of(n: NestedDefaults, g: FieldGenerator) -> bool {
    n.field_name == g.spec_name() && Some(n.ty) == g.spec_field_type()
}

/// The relation of a flattened field to its nested defaults.
pub open spec fn nested_defaults_rel() -> spec_fn(NestedDefaults, FieldGenerator) -> bool {
    |n: NestedDefaults, g: FieldGenerator| nested_defaults_of(n, g)
}

/// The nested defaults of field `field`, when it is flattened.
pub fn generate_nested_defaults(field: &FieldGenerator) -> (r: Option<NestedDefaults>)
    ensures
        r is Some <==> field is Flatten,
        r matches Some(n) ==> nested_defaults_of(n, *field),
{
    match field {
        FieldGenerator::Flatten(x) => Some(NestedDefaults { field_name: x.name.clone(), ty: x.ty.copy() }),
        _ => None,
    }
}

/// Whether `from_config()` sets up a defaults layer: some regular field
/// has a default, some field is flattened, or profiles are configured.
pub open spec fn spec_needs_defaults(gs: Seq<FieldGenerator>, profile_env: Option<String>) -> bool {
    (exists|i: int|
        0 <= i < gs.len() && !(#[trigger] gs[i] is Flatten) && gs[i].spec_default() is Some)
        || (exists|i: int| 0 <= i < gs.len() && #[trigger] gs[i] is Flatten) || profile_env is Some
}

/// Whether `from_config()` sets up a defaults layer.
pub fn needs_defaults_setup(generators: &Vec<FieldGenerator>, config: &EnvConfigAttr) -> (r: bool)
    ensures
        r == spec_needs_defaults(generators@, config.profile_env),
{
    if config.profile_env.is_some() {
        return true;
    }
    let mut i: usize = 0;
    while i < generators.len()
        invariant
            i <= generators.len(),
            config.profile_env is None,
            forall|j: int|
                0 <= j < i ==> !(#[trigger] generators@[j] is Flatten) && generators@[j].spec_default() is None,
        decreases generators.len() - i,
    {
        let g = &generators[i];
        if g.is_flatten() {
            assert(generators@[i as int] is Flatten);
            return true;
        }
        if g.default_value().is_some() {
            assert(!(generators@[i as int] is Flatten) && generators@[i as int].spec_default() is Some);
            return true;
        }
        i = i + 1;
    }
    false
}

/// A field's profile-specific defaults in the defaults layer.
pub enum ProfileDefault {
    /// A flattened field: the nested struct's profile-aware defaults.
    Nested { field_name: String, ty: TypeModel },
    /// A field with profile values: the active profile's value.
    Arms { field_name: String, arms: Vec<(String, String)> },
}

/// `r` is the profile defaults of field `g`: the nested struct's for a
/// flattened field, the arms of its profile values for another.
pub open spec fn profile_default_of(r: ProfileDefault, g: FieldGenerator) -> bool {
    &&& g is Flatten ==> (r matches ProfileDefault::Nested { field_name, ty } && field_name
        == g.spec_name() && Some(ty) == g.spec_field_type())
    &&& !(g is Flatten) ==> (r matches ProfileDefault::Arms { field_name, arms } && field_name
        == g.spec_name() && g.spec_profile() is Some && arms@ == g.spec_profile()->0.values@)
}

/// The relation of a field to its profile defaults.
pub open spec fn profile_default_rel() -> spec_fn(ProfileDefault, FieldGenerator) -> bool {
    |r: ProfileDefault, g: FieldGenerator| profile_default_of(r, g)
}

/// Fields with profile defaults in `from_config()`: flattened ones and
/// those with profile values.
pub open spec fn has_profile_default() -> spec_fn(FieldGenerator) -> bool {
    |g: FieldGenerator| g is Flatten || g.spec_profile() is Some
}

/// Regular fields with profile values.
pub open spec fn has_own_profile() -> spec_fn(FieldGenerator) -> bool {
    |g: FieldGenerator| !(g is Flatten) && g.spec_profile() is Some
}

/// The profile defaults of field `field` in `from_config()`: the nested
/// ones for a flattened field, its own for a field with profile values.
pub fn generate_profile_default(field: &FieldGenerator) -> (r: Option<ProfileDefault>)
    ensures
        r is Some <==> has_profile_default()(*field),
        r matches Some(d) ==> profile_default_of(d, *field),
{
    if let FieldGenerator::Flatten(x) = field {
        return Some(ProfileDefault::Nested { field_name: x.name.clone(), ty: x.ty.copy() });
    }
    match field.profile_config() {
        Some(p) => Some(
            ProfileDefault::Arms { field_name: field.name().clone(), arms: copy_pairs(&p.values) },
        ),
        None => None,
    }
}

/// The profile defaults of field `field` in `__config_profile_defaults()`:
/// only a regular field's own profile values.
pub fn generate_own_profile_default(field: &FieldGenerator) -> (r: Option<ProfileDefault>)
    ensures
        r is Some <==> has_own_profile()(*field),
        r matches Some(d) ==> profile_default_of(d, *field),
{
    if field.is_flatten() {
        return None;
    }
    generate_profile_default(field)
}

/// How `from_config_with_sources()` tells a field's source.
pub enum ConfigSource {
    /// A flattened field: every tracked path under `<field_name>.`, each
    /// from file, else environment (the variable guessed as `prefix` and
    /// the upper-cased path), else not set.
    Nested { field_name: String, prefix: String },
    /// A regular field: environment (or `.env` file) when `env_var` is set,
    /// else the file it came from, else default when it has one, else not set.
    Field { field_name: String, env_var: String, has_default: bool },
}

/// `r` is the source attribution of field `g` in `from_config_with_sources()`.
pub open spec fn config_source_of(r: ConfigSource, g: FieldGenerator) -> bool {
    match g {
        FieldGenerator::Flatten(x) => r matches ConfigSource::Nested { field_name, prefix }
            && field_name == x.name && prefix@ == match x.prefix {
            Some(p) => p@,
            None => Seq::empty(),
        },
        _ => r matches ConfigSource::Field { field_name, env_var, has_default } && field_name
            == g.spec_name() && Some(env_var) == g.spec_env_var() && has_default == (
        g.spec_default() is Some),
    }
}

/// A source that `from_config_with_sources()` reports for a value.
pub enum ReportedSource {
    /// The process environment.
    Environment,
    /// A `.env` file.
    DotenvFile,
    /// The configuration file at this path.
    ConfigFile(String),
    /// The macro default.
    Default,
    /// No source gave a value.
    NotSet,
}

/// What `from_config_with_sources()` reports for a regular field that has a
/// default when `has_default`: when its variable is set, a `.env` file if
/// the variable was set by one (`from_dotenv`), else the environment;
/// otherwise the file its key came from, when `file` names one; otherwise
/// the default when it has one; otherwise not set.
pub open spec fn field_report(
    has_default: bool,
    var_set: bool,
    from_dotenv: bool,
    file: Option<String>,
) -> ReportedSource {
    if var_set {
        if from_dotenv {
            ReportedSource::DotenvFile
        } else {
            ReportedSource::Environment
        }
    } else if file is Some {
        ReportedSource::ConfigFile(file->0)
    } else if has_default {
        ReportedSource::Default
    } else {
        ReportedSource::NotSet
    }
}

/// The source reported for a regular field names the layer whose value the
/// field took: the environment when its variable sets it, else the last
/// listed file that sets its key, else the default.
pub proof fn law_reported_source_follows_layers(
    r: FromConfigPlan,
    gs: Seq<FieldGenerator>,
    config: EnvConfigAttr,
    sets: spec_fn(ConfigLayer) -> bool,
    i: int,
    from_dotenv: bool,
)
    requires
        from_config_plan_of(r, gs, config),
        0 <= i < r.sources@.len(),
        r.sources@[i] is Field,
    ensures
        ({
            let d = deciding_layer(r.layers@, sets);
            let file = match deciding_layer(file_layers(config.files@), sets) {
                Some(ConfigLayer::File(f)) => Some(f.path),
                _ => None,
            };
            let rep = field_report(
                r.sources@[i]->Field_has_default,
                sets(ConfigLayer::Environment),
                from_dotenv,
                file,
            );
            &&& d == Some(ConfigLayer::Environment) ==> (rep is Environment || rep is DotenvFile)
            &&& d matches Some(ConfigLayer::File(f)) ==> rep == ReportedSource::ConfigFile(f.path)
            &&& (!sets(ConfigLayer::Environment) && file is None) ==> (rep is Default <==> gs[i].spec_default() is Some)
        }),
{
    law_config_layer_priority(r, gs, config, sets);
    lemma_file_layers_decide_file(config.files@, sets);
}

/// What the file layers decide is a file layer.
proof fn lemma_file_layers_decide_file(files: Seq<FileConfig>, sets: spec_fn(ConfigLayer) -> bool)
    ensures
        deciding_layer(file_layers(files), sets) matches Some(l) ==> l is File,
    decreases files.len(),
{
    let fl = file_layers(files);
    if files.len() > 0 {
        assert(fl.drop_last() =~= file_layers(files.drop_last()));
        lemma_file_layers_decide_file(files.drop_last(), sets);
    }
}

/// The relation of a field to its source attribution in
/// `from_config_with_sources()`.
pub open spec fn config_source_rel() -> spec_fn(ConfigSource, FieldGenerator) -> bool {
    |r: ConfigSource, g: FieldGenerator| config_source_of(r, g)
}

/// The source attribution of field `field` in `from_config_with_sources()`.
pub fn generate_config_source(field: &FieldGenerator) -> (r: ConfigSource)
    ensures
        config_source_of(r, *field),
{
    match field {
        FieldGenerator::Flatten(x) => ConfigSource::Nested {
            field_name: x.name.clone(),
            prefix: match &x.prefix {
                Some(p) => p.clone(),
                None => String::new(),
            },
        },
        _ => ConfigSource::Field {
            field_name: field.name().clone(),
            env_var: match field.env_var_name() {
                Some(v) => v.clone(),
                None => String::new(),
            },
            has_default: field.default_value().is_some(),
        },
    }
}

/// How `__from_json_value()` extracts a field from the merged JSON object.
pub enum JsonExtraction {
    /// A flattened field: the nested object (empty when absent), by the
    /// nested struct's own extraction.
    Nested { ty: TypeModel },
    /// An optional field deserialized by serde; `None` when absent or null.
    OptionalSerde { inner: TypeModel, type_label: String },
    /// An optional field extracted by `FromStr`; `None` when absent or null.
    OptionalParse { inner: TypeModel, type_label: String },
    /// A `SecretString` field: a string value; missing is an error.
    SecretString,
    /// A `SecretBox<T>` field: `T` extracted and boxed; missing is an error.
    SecretBox { inner: TypeModel, type_label: String },
    /// A field deserialized by serde (its default, when used, parsed as JSON).
    Serde { ty: TypeModel, type_label: String },
    /// A field extracted by `FromStr` (its default, when used, parsed).
    Parse { ty: TypeModel, type_label: String },
}

/// What a field's extraction does when its key is absent from the object
/// (or, where `null_is_absent`, holds `null`).
pub enum JsonAbsent {
    /// The nested struct is extracted from an empty object.
    EmptyObject,
    /// The field is `None`, with no error.
    NoValue,
    /// `Error::missing(name)` is recorded (`name` is the field's name, not a
    /// variable); the field has no value.
    MissingError { name: String },
    /// The default is converted as the field's kind says; when that fails,
    /// `Error::extraction(field, type_label, <error_prefix><error>)` is
    /// recorded and the field has no value.
    Default { value: String, error_prefix: String },
}

/// One field's extraction into local `local_var` (`__<name>`).
pub struct FieldExtraction {
    pub name: String,
    pub local_var: String,
    pub kind: JsonExtraction,
    /// A `null` value is treated exactly as an absent key.
    pub null_is_absent: bool,
    pub on_absent: JsonAbsent,
}

/// The text put before the error of a default that fails to convert.
pub open spec fn default_error_prefix() -> Seq<char> {
    "failed to parse default: "@
}

/// `a` is what field `g`'s extraction does with an absent key: a nested
/// struct gets an empty object, an optional field no value, a field with a
/// default its default, any other field a missing-field error naming it.
pub open spec fn absent_of(a: JsonAbsent, g: FieldGenerator) -> bool {
    match g {
        FieldGenerator::Flatten(_) => a is EmptyObject,
        FieldGenerator::Optional(_) => a is NoValue,
        FieldGenerator::Default(x) => a matches JsonAbsent::Default { value, error_prefix } && value
            == x.default && error_prefix@ == default_error_prefix(),
        _ => a matches JsonAbsent::MissingError { name } && name == g.spec_name(),
    }
}

/// `k` is the extraction of field `g`.
pub open spec fn extraction_of(k: JsonExtraction, g: FieldGenerator) -> bool {
    match g {
        FieldGenerator::Flatten(x) => k == JsonExtraction::Nested { ty: x.ty },
        FieldGenerator::Optional(x) => if x.format is Some {
            k matches JsonExtraction::OptionalSerde { inner, type_label } && inner == x.inner_type
                && type_label@ == g.spec_type_name()
        } else {
            k matches JsonExtraction::OptionalParse { inner, type_label } && inner == x.inner_type
                && type_label@ == g.spec_type_name()
        },
        FieldGenerator::SecretString(_) => k is SecretString,
        FieldGenerator::SecretBox(x) => k matches JsonExtraction::SecretBox { inner, type_label }
            && inner == x.inner_type && type_label@ == g.spec_type_name(),
        FieldGenerator::Required(x) => if x.format is Some {
            k matches JsonExtraction::Serde { ty, type_label } && ty == x.ty && type_label@
                == g.spec_type_name()
        } else {
            k matches JsonExtraction::Parse { ty, type_label } && ty == x.ty && type_label@
                == g.spec_type_name()
        },
        FieldGenerator::Default(x) => if x.format is Some {
            k matches JsonExtraction::Serde { ty, type_label } && ty == x.ty && type_label@
                == g.spec_type_name()
        } else {
            k matches JsonExtraction::Parse { ty, type_label } && ty == x.ty && type_label@
                == g.spec_type_name()
        },
    }
}

/// `r` is the extraction of field `g` into its local `__<name>`.
pub open spec fn field_extraction_of(r: FieldExtraction, g: FieldGenerator) -> bool {
    &&& r.name == g.spec_name()
    &&& r.local_var@ == local_name(g.spec_name()@, ""@)
    &&& extraction_of(r.kind, g)
    &&& r.null_is_absent == !(g is Flatten)
    &&& absent_of(r.on_absent, g)
}

/// The relation of a field to its extraction.
pub open spec fn field_extraction_rel() -> spec_fn(FieldExtraction, FieldGenerator) -> bool {
    |r: FieldExtraction, g: FieldGenerator| field_extraction_of(r, g)
}

/// The extraction of field `field` in `__from_json_value()`.
pub fn generate_field_extraction(field: &FieldGenerator) -> (r: FieldExtraction)
    ensures
        field_extraction_of(r, *field),
{
    let name = field.name().clone();
    let local = local_var(name.as_str(), "");
    let kind = match field {
        FieldGenerator::Flatten(x) => JsonExtraction::Nested { ty: x.ty.copy() },
        FieldGenerator::Optional(x) => {
            if x.format.is_some() {
                JsonExtraction::OptionalSerde { inner: x.inner_type.copy(), type_label: field.type_label() }
            } else {
                JsonExtraction::OptionalParse { inner: x.inner_type.copy(), type_label: field.type_label() }
            }
        },
        FieldGenerator::SecretString(_) => JsonExtraction::SecretString,
        FieldGenerator::SecretBox(x) => JsonExtraction::SecretBox {
            inner: x.inner_type.copy(),
            type_label: field.type_label(),
        },
        FieldGenerator::Required(x) => {
            if x.format.is_some() {
                JsonExtraction::Serde { ty: x.ty.copy(), type_label: field.type_label() }
            } else {
                JsonExtraction::Parse { ty: x.ty.copy(), type_label: field.type_label() }
            }
        },
        FieldGenerator::Default(x) => {
            if x.format.is_some() {
                JsonExtraction::Serde { ty: x.ty.copy(), type_label: field.type_label() }
            } else {
                JsonExtraction::Parse { ty: x.ty.copy(), type_label: field.type_label() }
            }
        },
    };
    let on_absent = match field {
        FieldGenerator::Flatten(_) => JsonAbsent::EmptyObject,
        FieldGenerator::Optional(_) => JsonAbsent::NoValue,
        FieldGenerator::Default(x) => JsonAbsent::Default {
            value: x.default.clone(),
            error_prefix: String::from_str("failed to parse default: "),
        },
        _ => JsonAbsent::MissingError { name: name.clone() },
    };
    let null_is_absent = !field.is_flatten();
    FieldExtraction { name, local_var: local, kind, null_is_absent, on_absent }
}

/// How a field is assigned from its extracted local.
#[derive(PartialEq, Eq, Structural, Clone, Copy)]
pub enum JsonAssignment {
    /// `Option<Option<T>>` flattened to `Option<T>` (optional fields).
    Flatten,
    /// The extracted value (checked present before construction).
    Unwrap,
}

/// `r` is the assignment of field `g` in `__from_json_value()`.
pub open spec fn json_assignment_of(r: JsonAssignment, g: FieldGenerator) -> bool {
    r == if g is Optional {
        JsonAssignment::Flatten
    } else {
        JsonAssignment::Unwrap
    }
}

/// The relation of a field to its assignment in `__from_json_value()`.
pub open spec fn json_assignment_rel() -> spec_fn(JsonAssignment, FieldGenerator) -> bool {
    |r: JsonAssignment, g: FieldGenerator| json_assignment_of(r, g)
}

/// The assignment of field `field` in `__from_json_value()`.
pub fn generate_field_assignment_from_json(field: &FieldGenerator) -> (r: JsonAssignment)
    ensures
        json_assignment_of(r, *field),
{
    if field.is_optional() {
        JsonAssignment::Flatten
    } else {
        JsonAssignment::Unwrap
    }
}

// ============================================================================
// Whole methods
// ============================================================================

/// The variable mapping of one field, when it has one.
fn env_mapping_if_any(field: &FieldGenerator) -> (r: Option<EnvMapping>)
    ensures
        r is Some <==> maps_env()(*field),
        r matches Some(m) ==> env_mapping_of(m, *field),
{
    if field.is_flatten() || field.env_var_name().is_some() {
        Some(generate_env_mapping(field))
    } else {
        None
    }
}

/// The variable mappings of the fields, in field order.
fn env_mappings(generators: &Vec<FieldGenerator>) -> (r: Vec<EnvMapping>)
    ensures
        each_of(r@, select(generators@, maps_env()), env_mapping_rel()),
{
    let ghost p = maps_env();
    let mut r: Vec<EnvMapping> = Vec::new();
    let mut i: usize = 0;
    while i < generators.len()
        invariant
            i <= generators.len(),
            p == maps_env(),
            each_of(r@, select(generators@.take(i as int), p), env_mapping_rel()),
        decreases generators.len() - i,
    {
        proof {
            lemma_select_step(generators@, p, i as int);
        }
        let g = &generators[i];
        if let Some(x) = env_mapping_if_any(g) {
            proof {
                lemma_each_of_push(r@, select(generators@.take(i as int), p), env_mapping_rel(), x, *g);
            }
            r.push(x);
        }
        i = i + 1;
    }
    proof {
        lemma_select_all(generators@, p);
    }
    r
}

/// The macro defaults of the regular fields that have one, in field order.
fn default_entries(generators: &Vec<FieldGenerator>) -> (r: Vec<DefaultEntry>)
    ensures
        each_of(r@, select(generators@, has_own_default()), default_entry_rel()),
{
    let ghost p = has_own_default();
    let mut r: Vec<DefaultEntry> = Vec::new();
    let mut i: usize = 0;
    while i < generators.len()
        invariant
            i <= generators.len(),
            p == has_own_default(),
            each_of(r@, select(generators@.take(i as int), p), default_entry_rel()),
        decreases generators.len() - i,
    {
        proof {
            lemma_select_step(generators@, p, i as int);
        }
        let g = &generators[i];
        if let Some(x) = generate_default_entry(g) {
            proof {
                lemma_each_of_push(r@, select(generators@.take(i as int), p), default_entry_rel(), x, *g);
            }
            r.push(x);
        }
        i = i + 1;
    }
    proof {
        lemma_select_all(generators@, p);
    }
    r
}

/// The nested defaults of the flattened fields, in field order.
fn nested_defaults(generators: &Vec<FieldGenerator>) -> (r: Vec<NestedDefaults>)
    ensures
        each_of(r@, select(generators@, is_flatten_field()), nested_defaults_rel()),
{
    let ghost p = is_flatten_field();
    let mut r: Vec<NestedDefaults> = Vec::new();
    let mut i: usize = 0;
    while i < generators.len()
        invariant
            i <= generators.len(),
            p == is_flatten_field(),
            each_of(r@, select(generators@.take(i as int), p), nested_defaults_rel()),
        decreases generators.len() - i,
    {
        proof {
            lemma_select_step(generators@, p, i as int);
        }
        let g = &generators[i];
        if let Some(x) = generate_nested_defaults(g) {
            proof {
                lemma_each_of_push(r@, select(generators@.take(i as int), p), nested_defaults_rel(), x, *g);
            }
            r.push(x);
        }
        i = i + 1;
    }
    proof {
        lemma_select_all(generators@, p);
    }
    r
}

/// The profile defaults of the fields in `from_config()`, in field order.
fn profile_defaults(generators: &Vec<FieldGenerator>) -> (r: Vec<ProfileDefault>)
    ensures
        each_of(r@, select(generators@, has_profile_default()), profile_default_rel()),
{
    let ghost p = has_profile_default();
    let mut r: Vec<ProfileDefault> = Vec::new();
    let mut i: usize = 0;
    while i < generators.len()
        invariant
            i <= generators.len(),
            p == has_profile_default(),
            each_of(r@, select(generators@.take(i as int), p), profile_default_rel()),
        decreases generators.len() - i,
    {
        proof {
            lemma_select_step(generators@, p, i as int);
        }
        let g = &generators[i];
        if let Some(x) = generate_profile_default(g) {
            proof {
                lemma_each_of_push(r@, select(generators@.take(i as int), p), profile_default_rel(), x, *g);
            }
            r.push(x);
        }
        i = i + 1;
    }
    proof {
        lemma_select_all(generators@, p);
    }
    r
}

/// The profile defaults of the regular fields, in field order.
fn own_profile_defaults(generators: &Vec<FieldGenerator>) -> (r: Vec<ProfileDefault>)
    ensures
        each_of(r@, select(generators@, has_own_profile()), profile_default_rel()),
{
    let ghost p = has_own_profile();
    let mut r: Vec<ProfileDefault> = Vec::new();
    let mut i: usize = 0;
    while i < generators.len()
        invariant
            i <= generators.len(),
            p == has_own_profile(),
            each_of(r@, select(generators@.take(i as int), p), profile_default_rel()),
        decreases generators.len() - i,
    {
        proof {
            lemma_select_step(generators@, p, i as int);
        }
        let g = &generators[i];
        if let Some(x) = generate_own_profile_default(g) {
            proof {
                lemma_each_of_push(r@, select(generators@.take(i as int), p), profile_default_rel(), x, *g);
            }
            r.push(x);
        }
        i = i + 1;
    }
    proof {
        lemma_select_all(generators@, p);
    }
    r
}

/// The source attributions of the fields in `from_config_with_sources()`.
fn config_sources(generators: &Vec<FieldGenerator>) -> (r: Vec<ConfigSource>)
    ensures
        each_of(r@, generators@, config_source_rel()),
{
    let mut r: Vec<ConfigSource> = Vec::new();
    let mut i: usize = 0;
    while i < generators.len()
        invariant
            i <= generators.len(),
            each_of(r@, generators@.take(i as int), config_source_rel()),
        decreases generators.len() - i,
    {
        let x = generate_config_source(&generators[i]);
        proof {
            lemma_take_push(generators@, i as int);
            lemma_each_of_push(r@, generators@.take(i as int), config_source_rel(), x, generators@[i as int]);
        }
        r.push(x);
        i = i + 1;
    }
    proof {
        assert(generators@.take(generators.len() as int) =~= generators@);
    }
    r
}

/// The extractions of the fields in `__from_json_value()`, in order.
pub fn generate_field_extractions(generators: &Vec<FieldGenerator>) -> (r: Vec<FieldExtraction>)
    ensures
        each_of(r@, generators@, field_extraction_rel()),
{
    let mut r: Vec<FieldExtraction> = Vec::new();
    let mut i: usize = 0;
    while i < generators.len()
        invariant
            i <= generators.len(),
            each_of(r@, generators@.take(i as int), field_extraction_rel()),
        decreases generators.len() - i,
    {
        let x = generate_field_extraction(&generators[i]);
        proof {
            lemma_take_push(generators@, i as int);
            lemma_each_of_push(r@, generators@.take(i as int), field_extraction_rel(), x, generators@[i as int]);
        }
        r.push(x);
        i = i + 1;
    }
    proof {
        assert(generators@.take(generators.len() as int) =~= generators@);
    }
    r
}

/// The assignments of the fields in `__from_json_value()`, in order.
pub fn generate_field_assignments_from_json(generators: &Vec<FieldGenerator>) -> (r: Vec<JsonAssignment>)
    ensures
        each_of(r@, generators@, json_assignment_rel()),
{
    let mut r: Vec<JsonAssignment> = Vec::new();
    let mut i: usize = 0;
    while i < generators.len()
        invariant
            i <= generators.len(),
            each_of(r@, generators@.take(i as int), json_assignment_rel()),
        decreases generators.len() - i,
    {
        let x = generate_field_assignment_from_json(&generators[i]);
        proof {
            lemma_take_push(generators@, i as int);
            lemma_each_of_push(r@, generators@.take(i as int), json_assignment_rel(), x, generators@[i as int]);
        }
        r.push(x);
        i = i + 1;
    }
    proof {
        assert(generators@.take(generators.len() as int) =~= generators@);
    }
    r
}

/// The profile part of `from_config()`: how the profile is read (a profile
/// outside `profiles` fails the load), and the profile defaults layered
/// over the macro defaults.
pub struct ConfigProfilePlan {
    pub setup: ProfileSetup,
    /// One entry per flattened field or field with profile values, in order.
    pub defaults: Vec<ProfileDefault>,
}

/// The profile part of `from_config()` for the fields `generators` under
/// `config`: nothing without `profile_env`.
pub fn generate_profile_defaults_for_config(
    config: &EnvConfigAttr,
    generators: &Vec<FieldGenerator>,
) -> (r: ConfigProfilePlan)
    ensures
        config_profile_plan_of(r, generators@, *config),
{
    if config.profile_env.is_none() {
        return ConfigProfilePlan { setup: ProfileSetup::Disabled, defaults: Vec::new() };
    }
    ConfigProfilePlan {
        setup: profile_setup_with(config, InvalidProfile::Return),
        defaults: profile_defaults(generators),
    }
}

/// A part of the defaults object of `from_config()`.
pub enum DefaultPart {
    /// The macro defaults of the regular fields.
    Macro,
    /// The nested structs' defaults, each under its field's name.
    Nested,
    /// The active profile's values (the profile defaults of the plan).
    Profile,
}

/// The defaults layer of `from_config()`.
pub struct DefaultsLayer {
    /// One entry per regular field with a default, in field order.
    pub entries: Vec<DefaultEntry>,
    /// One entry per flattened field, in field order.
    pub nested: Vec<NestedDefaults>,
    /// The parts, in the order they are put into the object; a later part
    /// replaces what an earlier one put under the same key.
    pub order: Vec<DefaultPart>,
}

/// The order in which the defaults object is filled: macro defaults, then
/// the nested structs' defaults, then the profile's values.
pub open spec fn default_part_order() -> Seq<DefaultPart> {
    seq![DefaultPart::Macro, DefaultPart::Nested, DefaultPart::Profile]
}

/// A layer of `from_config()`'s builder.
pub enum ConfigLayer {
    /// The defaults object.
    Defaults,
    /// A configuration file.
    File(FileConfig),
    /// The environment, under the prefix and the variable mappings.
    Environment,
}

/// The file layers of the files `files`, in the order listed.
pub open spec fn file_layers(files: Seq<FileConfig>) -> Seq<ConfigLayer> {
    files.map_values(|f: FileConfig| ConfigLayer::File(f))
}

/// The layers of `from_config()`, lowest priority first: the defaults when
/// there are any, then the files in the order listed, then the environment.
pub open spec fn config_layers(has_defaults: bool, files: Seq<FileConfig>) -> Seq<ConfigLayer> {
    let d = if has_defaults {
        seq![ConfigLayer::Defaults]
    } else {
        Seq::empty()
    };
    d + file_layers(files) + seq![ConfigLayer::Environment]
}

/// Of the layers `layers`, lowest priority first, the one whose value a key
/// takes: the last one that `sets` the key; none when no layer sets it.
pub open spec fn deciding_layer<T>(layers: Seq<T>, sets: spec_fn(T) -> bool) -> Option<T>
    decreases layers.len(),
{
    if layers.len() == 0 {
        None
    } else if sets(layers.last()) {
        Some(layers.last())
    } else {
        deciding_layer(layers.drop_last(), sets)
    }
}

/// Layers put over others decide a key whenever one of them sets it.
pub proof fn lemma_deciding_layer_append<T>(a: Seq<T>, b: Seq<T>, sets: spec_fn(T) -> bool)
    ensures
        deciding_layer(a + b, sets) == match deciding_layer(b, sets) {
            Some(x) => Some(x),
            None => deciding_layer(a, sets),
        },
    decreases b.len(),
{
    if b.len() == 0 {
        assert(a + b =~= a);
    } else {
        assert((a + b).last() == b.last());
        assert((a + b).drop_last() =~= a + b.drop_last());
        lemma_deciding_layer_append(a, b.drop_last(), sets);
    }
}

/// The deciding layer is the last one that sets the key.
pub proof fn lemma_deciding_layer_is_last<T>(layers: Seq<T>, sets: spec_fn(T) -> bool, j: int)
    requires
        0 <= j < layers.len(),
        sets(layers[j]),
        forall|k: int| j < k < layers.len() ==> !sets(#[trigger] layers[k]),
    ensures
        deciding_layer(layers, sets) == Some(layers[j]),
    decreases layers.len(),
{
    if j < layers.len() - 1 {
        assert(!sets(layers[layers.len() - 1]));
        let s = layers.drop_last();
        assert forall|k: int| j < k < s.len() implies !sets(#[trigger] s[k]) by {
            assert(s[k] == layers[k]);
        }
        lemma_deciding_layer_is_last(s, sets, j);
    }
}

/// `from_config()` and `from_config_with_sources()`: the builder's layers,
/// each over the one before, then `__from_json_value()` on the merged
/// value.
pub struct FromConfigPlan {
    /// The builder's layers, lowest priority first.
    pub layers: Vec<ConfigLayer>,
    /// The configuration files, in order.
    pub files: Vec<FileConfig>,
    /// The prefix of environment variables.
    pub env_prefix: Option<String>,
    /// The explicit variable mappings, in field order.
    pub env_mappings: Vec<EnvMapping>,
    pub dotenv: DotenvLoad,
    pub profile: ConfigProfilePlan,
    /// The variables checked before `.env` loading, in field order.
    pub pre_dotenv_vars: Vec<String>,
    /// A `.env` file is configured.
    pub dotenv_loaded: bool,
    /// The defaults layer, when there is anything to put in it.
    pub defaults: Option<DefaultsLayer>,
    /// One source attribution per field, in order.
    pub sources: Vec<ConfigSource>,
}

/// Copies the configuration files.
fn copy_files(files: &Vec<FileConfig>) -> (r: Vec<FileConfig>)
    ensures
        r@ == files@,
{
    let mut r: Vec<FileConfig> = Vec::new();
    let mut i: usize = 0;
    while i < files.len()
        invariant
            i <= files.len(),
            r@ == files@.take(i as int),
        decreases files.len() - i,
    {
        let f = &files[i];
        r.push(FileConfig { path: f.path.clone(), required: f.required });
        assert(r@ =~= files@.take(i + 1));
        i = i + 1;
    }
    assert(files@.take(files.len() as int) =~= files@);
    r
}

/// The layers of `from_config()` for the files `files`.
fn config_layer_list(has_defaults: bool, files: &Vec<FileConfig>) -> (r: Vec<ConfigLayer>)
    ensures
        r@ == config_layers(has_defaults, files@),
{
    let mut r: Vec<ConfigLayer> = Vec::new();
    if has_defaults {
        r.push(ConfigLayer::Defaults);
    }
    let ghost d = r@;
    let mut i: usize = 0;
    while i < files.len()
        invariant
            i <= files.len(),
            d == (if has_defaults {
                seq![ConfigLayer::Defaults]
            } else {
                Seq::<ConfigLayer>::empty()
            }),
            r@ == d + file_layers(files@.take(i as int)),
        decreases files.len() - i,
    {
        let f = &files[i];
        r.push(ConfigLayer::File(FileConfig { path: f.path.clone(), required: f.required }));
        assert(file_layers(files@.take(i + 1)) =~= file_layers(files@.take(i as int)).push(
            ConfigLayer::File(files@[i as int]),
        ));
        i = i + 1;
    }
    assert(files@.take(files.len() as int) =~= files@);
    r.push(ConfigLayer::Environment);
    r
}

/// `r` is the profile part of `from_config()` for the fields `gs` under
/// `config`.
pub open spec fn config_profile_plan_of(
    r: ConfigProfilePlan,
    gs: Seq<FieldGenerator>,
    config: EnvConfigAttr,
) -> bool {
    &&& profile_setup_in(r.setup, config, InvalidProfile::Return)
    &&& config.profile_env is None ==> r.defaults@.len() == 0
    &&& config.profile_env is Some ==> each_of(
        r.defaults@,
        select(gs, has_profile_default()),
        profile_default_rel(),
    )
}

/// `r` is the plan of `from_config()` for the fields `gs` under `config`.
pub open spec fn from_config_plan_of(r: FromConfigPlan, gs: Seq<FieldGenerator>, config: EnvConfigAttr) -> bool {
    &&& r.files@ == config.files@
    &&& r.env_prefix == config.prefix
    &&& each_of(r.env_mappings@, select(gs, maps_env()), env_mapping_rel())
    &&& dotenv_load_of(r.dotenv, config.dotenv)
    &&& config_profile_plan_of(r.profile, gs, config)
    &&& env_vars_of(r.pre_dotenv_vars@, gs)
    &&& r.dotenv_loaded == (config.dotenv is Some)
    &&& r.defaults is Some <==> spec_needs_defaults(gs, config.profile_env)
    &&& r.defaults matches Some(d) ==> each_of(
        d.entries@,
        select(gs, has_own_default()),
        default_entry_rel(),
    )
    &&& r.defaults matches Some(d) ==> each_of(
        d.nested@,
        select(gs, is_flatten_field()),
        nested_defaults_rel(),
    )
    &&& r.defaults matches Some(d) ==> d.order@ == default_part_order()
    &&& r.layers@ == config_layers(r.defaults is Some, config.files@)
    &&& each_of(r.sources@, gs, config_source_rel())
}

/// In `from_config()` a key takes the environment's value when the
/// environment sets it; otherwise that of the last listed file that sets
/// it; otherwise the defaults' value, when there are defaults that set it.
pub proof fn law_config_layer_priority(
    r: FromConfigPlan,
    gs: Seq<FieldGenerator>,
    config: EnvConfigAttr,
    sets: spec_fn(ConfigLayer) -> bool,
)
    requires
        from_config_plan_of(r, gs, config),
    ensures
        ({
            let d = deciding_layer(r.layers@, sets);
            let f = deciding_layer(file_layers(config.files@), sets);
            &&& sets(ConfigLayer::Environment) ==> d == Some(ConfigLayer::Environment)
            &&& (!sets(ConfigLayer::Environment) && f is Some) ==> d == f
            &&& (!sets(ConfigLayer::Environment) && f is None) ==> d == (if r.defaults is Some
                && sets(ConfigLayer::Defaults) {
                Some(ConfigLayer::Defaults)
            } else {
                None
            })
        }),
{
    let dl: Seq<ConfigLayer> = if r.defaults is Some {
        seq![ConfigLayer::Defaults]
    } else {
        Seq::empty()
    };
    let fl = file_layers(config.files@);
    let env: Seq<ConfigLayer> = seq![ConfigLayer::Environment];
    lemma_deciding_layer_append(dl + fl, env, sets);
    lemma_deciding_layer_append(dl, fl, sets);
    assert(env.drop_last() =~= Seq::<ConfigLayer>::empty());
    if r.defaults is Some {
        assert(dl.drop_last() =~= Seq::<ConfigLayer>::empty());
    }
}

/// Among the files of `from_config()`, the last listed one that sets a key
/// gives its value.
pub proof fn law_later_config_file_wins(
    files: Seq<FileConfig>,
    sets: spec_fn(ConfigLayer) -> bool,
    j: int,
)
    requires
        0 <= j < files.len(),
        sets(ConfigLayer::File(files[j])),
        forall|k: int| j < k < files.len() ==> !sets(ConfigLayer::File(#[trigger] files[k])),
    ensures
        deciding_layer(file_layers(files), sets) == Some(ConfigLayer::File(files[j])),
{
    let fl = file_layers(files);
    assert forall|k: int| j < k < fl.len() implies !sets(#[trigger] fl[k]) by {
        assert(fl[k] == ConfigLayer::File(files[k]));
    }
    lemma_deciding_layer_is_last(fl, sets, j);
}

/// In the defaults object the active profile's value for a key replaces the
/// nested and the macro defaults; without one the nested default, then the
/// macro default, stays.
pub proof fn law_profile_value_over_defaults(
    r: FromConfigPlan,
    gs: Seq<FieldGenerator>,
    config: EnvConfigAttr,
    sets: spec_fn(DefaultPart) -> bool,
)
    requires
        from_config_plan_of(r, gs, config),
        r.defaults is Some,
    ensures
        ({
            let d = deciding_layer(r.defaults->0.order@, sets);
            &&& sets(DefaultPart::Profile) ==> d == Some(DefaultPart::Profile)
            &&& (!sets(DefaultPart::Profile) && sets(DefaultPart::Nested)) ==> d == Some(
                DefaultPart::Nested,
            )
            &&& (!sets(DefaultPart::Profile) && !sets(DefaultPart::Nested)) ==> d == (if sets(
                DefaultPart::Macro,
            ) {
                Some(DefaultPart::Macro)
            } else {
                None
            })
        }),
{
    reveal_with_fuel(deciding_layer, 4);
    let o = default_part_order();
    assert(o.drop_last() =~= seq![DefaultPart::Macro, DefaultPart::Nested]);
    assert(o.drop_last().drop_last() =~= seq![DefaultPart::Macro]);
    assert(o.drop_last().drop_last().drop_last() =~= Seq::<DefaultPart>::empty());
}

/// The plan of `from_config()` for the fields `generators` under `config`.
pub fn generate_from_config_impl(generators: &Vec<FieldGenerator>, config: &EnvConfigAttr) -> (r:
    FromConfigPlan)
    ensures
        from_config_plan_of(r, generators@, *config),
{
    let defaults = if needs_defaults_setup(generators, config) {
        Some(
            DefaultsLayer {
                entries: default_entries(generators),
                nested: nested_defaults(generators),
                order: vec![DefaultPart::Macro, DefaultPart::Nested, DefaultPart::Profile],
            },
        )
    } else {
        None
    };
    let layers = config_layer_list(defaults.is_some(), &config.files);
    let env_prefix = match &config.prefix {
        Some(p) => Some(p.clone()),
        None => None,
    };
    FromConfigPlan {
        layers,
        files: copy_files(&config.files),
        env_prefix,
        env_mappings: env_mappings(generators),
        dotenv: generate_dotenv_load(&config.dotenv),
        profile: generate_profile_defaults_for_config(config, generators),
        pre_dotenv_vars: env_var_names(generators),
        dotenv_loaded: config.dotenv.is_some(),
        defaults,
        sources: config_sources(generators),
    }
}

/// `__config_defaults()`, `__config_profile_defaults()` and
/// `__env_mappings()`: what a parent struct reads of a nested one. The first
/// fills its object as `config_defaults_inserts` says, the second as
/// `config_profile_defaults_inserts` says.
pub struct ConfigDefaultsPlan {
    /// The macro defaults of the regular fields, in field order.
    pub defaults: Vec<DefaultEntry>,
    /// The nested defaults of the flattened fields, in field order (with
    /// and without the profile).
    pub nested: Vec<NestedDefaults>,
    /// The profile values of the regular fields, in field order.
    pub profile_entries: Vec<ProfileDefault>,
    /// The variable mappings, in field order.
    pub mappings: Vec<EnvMapping>,
}

/// `r` is the plan of `__config_defaults()` and its companions for the
/// fields `gs`.
pub open spec fn config_defaults_plan_of(r: ConfigDefaultsPlan, gs: Seq<FieldGenerator>) -> bool {
    &&& each_of(r.defaults@, select(gs, has_own_default()), default_entry_rel())
    &&& each_of(r.nested@, select(gs, is_flatten_field()), nested_defaults_rel())
    &&& each_of(r.profile_entries@, select(gs, has_own_profile()), profile_default_rel())
    &&& each_of(r.mappings@, select(gs, maps_env()), env_mapping_rel())
}

/// The plan of `__config_defaults()` and its companions for the fields
/// `generators`.
pub fn generate_config_defaults_impl(generators: &Vec<FieldGenerator>) -> (r: ConfigDefaultsPlan)
    ensures
        config_defaults_plan_of(r, generators@),
{
    ConfigDefaultsPlan {
        defaults: default_entries(generators),
        nested: nested_defaults(generators),
        profile_entries: own_profile_defaults(generators),
        mappings: env_mappings(generators),
    }
}

/// A value put into a defaults object: a default's text (coerced at run
/// time), or a nested struct's defaults object `V`.
pub enum DefaultValue<V> {
    Text(String),
    Object(V),
}

/// The insertions of the macro defaults `ds`, in order.
pub open spec fn value_inserts<V>(ds: Seq<DefaultEntry>) -> Seq<(String, DefaultValue<V>)> {
    ds.map_values(|d: DefaultEntry| (d.field_name, DefaultValue::<V>::Text(d.value)))
}

/// The insertions of the nested defaults `ns`, in order: each nested
/// struct's object under its field's name, when `nested` gives its type an
/// object.
pub open spec fn nested_inserts<V>(
    ns: Seq<NestedDefaults>,
    nested: spec_fn(TypeModel) -> Option<V>,
) -> Seq<(String, DefaultValue<V>)>
    decreases ns.len(),
{
    if ns.len() == 0 {
        Seq::empty()
    } else {
        let r = nested_inserts(ns.drop_last(), nested);
        match nested(ns.last().ty) {
            Some(v) => r.push((ns.last().field_name, DefaultValue::Object(v))),
            None => r,
        }
    }
}

/// The insertions of the profile values among `ps` for the profile
/// `profile`, in order: a field's value when one of its arms names the
/// profile.
pub open spec fn arm_inserts<V>(ps: Seq<ProfileDefault>, profile: Option<String>) -> Seq<
    (String, DefaultValue<V>),
>
    decreases ps.len(),
{
    if ps.len() == 0 {
        Seq::empty()
    } else {
        let r = arm_inserts(ps.drop_last(), profile);
        match ps.last() {
            ProfileDefault::Arms { field_name, arms } => match profile_value(arms@, profile) {
                Some(v) => r.push((field_name, DefaultValue::Text(v))),
                None => r,
            },
            ProfileDefault::Nested { .. } => r,
        }
    }
}

/// The insertions that build `__config_defaults()`'s object: the macro
/// defaults, then each nested struct's `__config_defaults()` (`plain`).
pub open spec fn config_defaults_inserts<V>(
    r: ConfigDefaultsPlan,
    plain: spec_fn(TypeModel) -> Option<V>,
) -> Seq<(String, DefaultValue<V>)> {
    value_inserts(r.defaults@) + nested_inserts(r.nested@, plain)
}

/// The insertions that build `__config_profile_defaults(profile)`'s object:
/// the macro defaults, then the fields' values for the profile, then each
/// nested struct's `__config_profile_defaults(profile)` (`with_profile`).
pub open spec fn config_profile_defaults_inserts<V>(
    r: ConfigDefaultsPlan,
    with_profile: spec_fn(TypeModel, Option<String>) -> Option<V>,
    profile: Option<String>,
) -> Seq<(String, DefaultValue<V>)> {
    value_inserts(r.defaults@) + arm_inserts(r.profile_entries@, profile) + nested_inserts(
        r.nested@,
        |t: TypeModel| with_profile(t, profile),
    )
}

/// Field `g` has a profile value for the profile `p`.
pub open spec fn field_names_profile(g: FieldGenerator, p: String) -> bool {
    g.spec_profile() matches Some(pc) && exists|k: int|
        0 <= k < pc.values@.len() && #[trigger] pc.values@[k].0 == p
}

/// A profile named by no arm has no value among them.
proof fn lemma_profile_value_unnamed(arms: Seq<(String, String)>, p: String)
    requires
        forall|k: int| 0 <= k < arms.len() ==> #[trigger] arms[k].0 != p,
    ensures
        profile_value(arms, Some(p)) is None,
    decreases arms.len(),
{
    if arms.len() > 0 {
        assert(arms[0].0 != p);
        assert forall|k: int| 0 <= k < arms.drop_first().len() implies #[trigger] arms.drop_first()[k].0
            != p by {
            assert(arms.drop_first()[k] == arms[k + 1]);
        }
        lemma_profile_value_unnamed(arms.drop_first(), p);
    }
}

/// Profile values that give nothing for a profile insert nothing.
proof fn lemma_arm_inserts_empty<V>(ps: Seq<ProfileDefault>, profile: Option<String>)
    requires
        forall|i: int| 0 <= i < ps.len() ==> (#[trigger] ps[i] matches ProfileDefault::Arms { arms, .. }
            ==> profile_value(arms@, profile) is None),
    ensures
        arm_inserts::<V>(ps, profile) == Seq::<(String, DefaultValue<V>)>::empty(),
    decreases ps.len(),
{
    if ps.len() > 0 {
        let d = ps.drop_last();
        assert forall|i: int| 0 <= i < d.len() implies (#[trigger] d[i] matches ProfileDefault::Arms {
            arms,
            ..
        } ==> profile_value(arms@, profile) is None) by {
            assert(d[i] == ps[i]);
        }
        lemma_arm_inserts_empty::<V>(d, profile);
        assert(ps.last() == ps[ps.len() - 1]);
    }
}

/// Nested objects that agree give the same insertions.
proof fn lemma_nested_inserts_agree<V>(
    ns: Seq<NestedDefaults>,
    a: spec_fn(TypeModel) -> Option<V>,
    b: spec_fn(TypeModel) -> Option<V>,
)
    requires
        forall|i: int| 0 <= i < ns.len() ==> a(#[trigger] ns[i].ty) == b(ns[i].ty),
    ensures
        nested_inserts(ns, a) == nested_inserts(ns, b),
    decreases ns.len(),
{
    if ns.len() > 0 {
        let d = ns.drop_last();
        assert forall|i: int| 0 <= i < d.len() implies a(#[trigger] d[i].ty) == b(d[i].ty) by {
            assert(d[i] == ns[i]);
        }
        lemma_nested_inserts_agree(d, a, b);
        assert(a(ns[ns.len() - 1].ty) == b(ns[ns.len() - 1].ty));
    }
}

/// For no profile, or a profile that no field names, the profile-aware
/// defaults are the plain defaults: `__config_profile_defaults` fills its
/// object exactly as `__config_defaults` does, provided the nested structs'
/// own profile-aware defaults are their plain ones for that profile (this
/// law, for each nested struct).
pub proof fn law_unnamed_profile_gives_plain_defaults<V>(
    r: ConfigDefaultsPlan,
    gs: Seq<FieldGenerator>,
    plain: spec_fn(TypeModel) -> Option<V>,
    with_profile: spec_fn(TypeModel, Option<String>) -> Option<V>,
    profile: Option<String>,
)
    requires
        config_defaults_plan_of(r, gs),
        profile matches Some(p) ==> forall|i: int|
            0 <= i < gs.len() ==> !field_names_profile(#[trigger] gs[i], p),
        forall|i: int|
            0 <= i < r.nested@.len() ==> with_profile(#[trigger] r.nested@[i].ty, profile) == plain(
                r.nested@[i].ty,
            ),
    ensures
        config_profile_defaults_inserts(r, with_profile, profile) == config_defaults_inserts(
            r,
            plain,
        ),
{
    let ps = r.profile_entries@;
    let sel = select(gs, has_own_profile());
    lemma_select_satisfies(gs, has_own_profile());
    if profile is Some {
        let p = profile->0;
        let q = |g: FieldGenerator| !field_names_profile(g, p);
        assert forall|i: int| 0 <= i < gs.len() implies q(#[trigger] gs[i]) by {}
        lemma_select_keeps(gs, has_own_profile(), q);
    }
    assert forall|i: int| 0 <= i < ps.len() implies (#[trigger] ps[i] matches ProfileDefault::Arms {
        arms,
        ..
    } ==> profile_value(arms@, profile) is None) by {
        assert(profile_default_rel()(ps[i], sel[i]));
        if let ProfileDefault::Arms { arms, .. } = ps[i] {
            if profile is Some {
                let p = profile->0;
                let g = sel[i];
                assert(has_own_profile()(g));
                assert(!field_names_profile(g, p));
                assert forall|k: int| 0 <= k < arms@.len() implies #[trigger] arms@[k].0 != p by {
                    assert(arms@[k] == g.spec_profile()->0.values@[k]);
                }
                lemma_profile_value_unnamed(arms@, p);
            }
        }
    }
    lemma_arm_inserts_empty::<V>(ps, profile);
    let wp = |t: TypeModel| with_profile(t, profile);
    assert forall|i: int| 0 <= i < r.nested@.len() implies wp(#[trigger] r.nested@[i].ty) == plain(
        r.nested@[i].ty,
    ) by {}
    lemma_nested_inserts_agree(r.nested@, wp, plain);
    let vi = value_inserts::<V>(r.defaults@);
    assert(vi + Seq::<(String, DefaultValue<V>)>::empty() =~= vi);
}

/// `__from_json_value()`: every field extracted from the merged JSON object
/// (errors are accumulated), then the struct constructed.
pub struct FromJsonPlan {
    /// One extraction per field, in order.
    pub extractions: Vec<FieldExtraction>,
    /// One assignment per field, in order.
    pub assignments: Vec<JsonAssignment>,
    /// How the accumulated errors are returned.
    pub errors: ErrorReturn,
}

/// `r` is the plan of `__from_json_value()` for the fields `gs`.
pub open spec fn from_json_plan_of(r: FromJsonPlan, gs: Seq<FieldGenerator>) -> bool {
    &&& each_of(r.extractions@, gs, field_extraction_rel())
    &&& each_of(r.assignments@, gs, json_assignment_rel())
    &&& r.errors == ErrorReturn::RuntimeMultiple
}

/// The plan of `__from_json_value()` for the fields `generators`.
pub fn generate_from_json_value_impl(generators: &Vec<FieldGenerator>) -> (r: FromJsonPlan)
    ensures
        from_json_plan_of(r, generators@),
{
    FromJsonPlan {
        extractions: generate_field_extractions(generators),
        assignments: generate_field_assignments_from_json(generators),
        errors: ErrorReturn::RuntimeMultiple,
    }
}

/// `from_config()` has a defaults layer whenever there is anything to put in
/// it: a regular field's default, a flattened field's nested defaults, or,
/// with `profile_env` configured, the active profile's values; without
/// any of these it has none.
pub proof fn law_defaults_layer_when_needed(
    r: FromConfigPlan,
    gs: Seq<FieldGenerator>,
    config: EnvConfigAttr,
)
    requires
        from_config_plan_of(r, gs, config),
    ensures
        config.profile_env is Some ==> r.defaults is Some,
        (exists|i: int| 0 <= i < gs.len() && #[trigger] gs[i] is Flatten) ==> r.defaults is Some,
        (exists|i: int|
            0 <= i < gs.len() && !(#[trigger] gs[i] is Flatten) && gs[i].spec_default() is Some)
            ==> r.defaults is Some,
        (config.profile_env is None && forall|i: int|
            0 <= i < gs.len() ==> !(#[trigger] gs[i] is Flatten) && gs[i].spec_default() is None)
            ==> r.defaults is None,
        config.profile_env is Some ==> r.layers@[0] == ConfigLayer::Defaults,
        config.profile_env is Some ==> r.defaults->0.order@.contains(DefaultPart::Profile),
{
    if config.profile_env is Some {
        assert(default_part_order()[2] == DefaultPart::Profile);
    }
}

} // verus!
