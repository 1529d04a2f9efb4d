//! What the loader of a field does: where it reads its value, how the text
//! becomes the field's value, what it does when the variable is not set or
//! not valid UTF-8, and whether the value is masked in parse errors.
//!
//! Every loading method of the derive loads each field with one of three
//! loaders: by `FromStr`, by deserialization in the field's format, or
//! (for a nested struct) under a prefix the parent hands down.

use vstd::prelude::*;

use crate::expand::local_name;
use crate::field::{FieldGenerator, TypeModel};
use crate::expand::env::copy_pairs;
use crate::text::{cat3, str_eq};

verus! {

/// Where a loader reads its value.
pub enum VarRef {
    /// The variable, named when the derive runs.
    Named(String),
    /// The caller's prefix followed by `base`, built at run time into the
    /// local `effective_var`.
    Prefixed { base: String, effective_var: String },
}

/// The type named in a parse error.
pub enum ErrorLabel {
    /// The type's tokens as written (`Vec < String >`).
    Text(String),
    /// The type's name as `std::any::type_name` gives it at run time.
    RuntimeName,
    /// `<FORMAT> data`, for a deserialized value.
    FormatData(String),
}

/// How the text of a variable becomes the field's value.
pub enum Conversion {
    /// `FromStr` into `ty`.
    Parse { ty: TypeModel, label: ErrorLabel },
    /// Deserialization of `ty` in `format` (`json`, `toml` or `yaml`).
    Deserialize { ty: TypeModel, format: String, label: ErrorLabel },
    /// The text itself, kept as a `SecretString`.
    SecretText,
    /// `FromStr` into `ty`, kept in a `SecretBox`.
    SecretParse { ty: TypeModel, label: ErrorLabel },
}

/// What a loader does when its variable is not set (and no profile value
/// applies).
pub enum Missing {
    /// A missing-variable error; the field has no value.
    Error,
    /// The default, converted like a value from the environment;
    /// `used_default_var` records that it was used.
    Default { value: String, used_default_var: String },
    /// No value and no error.
    Absent,
}

/// The profile values a loader falls back on after its variable.
pub struct ProfileFallback {
    /// Profile name and value, one per profile.
    pub arms: Vec<(String, String)>,
}

/// The loader of a field that reads a variable.
pub struct VarLoader {
    /// The field's name (the local that holds its value).
    pub field: String,
    pub var: VarRef,
    pub conversion: Conversion,
    /// Mask the value in parse errors.
    pub secret: bool,
    /// A parse error carries `[REDACTED]` in place of the text read (a
    /// secret field loaded by format); otherwise it carries the text.
    pub redact_value: bool,
    pub missing: Missing,
    /// Profile values tried after the variable and before `missing`.
    pub profile: Option<ProfileFallback>,
    /// `__<name>_from_profile`, declared by the loader when it has one.
    pub profile_flag: Option<String>,
}

/// The loader of a flattened field: the nested struct's own loading. When
/// that fails, the field has no value and the nested errors join the
/// parent's as `merge_nested` says.
pub struct NestedLoader {
    /// The field's name.
    pub field: String,
    /// The nested struct's type.
    pub ty: TypeModel,
    /// The prefix handed to the nested struct (after the caller's prefix);
    /// without one, the nested struct loads with its own names.
    pub prefix: Option<String>,
    /// `__<name>_nested_sources`: the nested struct's sources.
    pub nested_sources_var: String,
}

/// What a failed nested load hands back: its one error, or one `Multiple`
/// error gathering several.
pub enum NestedFailure<E> {
    Single(E),
    Gathered(Seq<E>),
}

/// The parent's errors `errors` after a nested load failed with `f`: the
/// errors of a gathered failure are appended one by one, in order; a single
/// error is appended as it is.
pub open spec fn merge_nested<E>(errors: Seq<E>, f: NestedFailure<E>) -> Seq<E> {
    match f {
        NestedFailure::Single(e) => errors.push(e),
        NestedFailure::Gathered(es) => errors + es,
    }
}

/// The failure that a load returning one error as it is and several as one
/// `Multiple` hands back for its errors `es`.
pub open spec fn gathered_failure<E>(es: Seq<E>) -> NestedFailure<E> {
    if es.len() == 1 {
        NestedFailure::Single(es[0])
    } else {
        NestedFailure::Gathered(es)
    }
}

/// The errors of a failed nested load reach the parent whole and in order,
/// after the parent's own, whether there was one or several.
pub proof fn law_nested_errors_reach_parent<E>(errors: Seq<E>, es: Seq<E>)
    requires
        es.len() > 0,
    ensures
        merge_nested(errors, gathered_failure(es)) == errors + es,
{
    if es.len() == 1 {
        assert(errors.push(es[0]) =~= errors + es);
    }
}

/// The loader of a field.
pub enum Loader {
    Var(VarLoader),
    Nested(NestedLoader),
}

/// The upper-case name of a format (`JSON`, `TOML`, `YAML`).
pub open spec fn format_label(f: Seq<char>) -> Seq<char> {
    if f == "json"@ {
        "JSON"@
    } else if f == "toml"@ {
        "TOML"@
    } else {
        "YAML"@
    }
}

/// The upper-case name of a format.
pub fn format_upper(f: &str) -> (r: &'static str)
    ensures
        r@ == format_label(f@),
{
    if str_eq(f, "json") {
        "JSON"
    } else if str_eq(f, "toml") {
        "TOML"
    } else {
        "YAML"
    }
}

/// `c` deserializes `ty` in format `f`, its errors naming `<F> data`.
pub open spec fn deserializes(c: Conversion, ty: TypeModel, f: String) -> bool {
    match c {
        Conversion::Deserialize { ty: t2, format: f2, label } => t2 == ty && f2 == f && match label {
            ErrorLabel::FormatData(l) => l@ == format_label(f@),
            _ => false,
        },
        _ => false,
    }
}

/// The type a field's value is read as, and how its parse errors name it:
/// the field's type by its tokens (a default field's by its run-time
/// name), `T` of `Option<T>` / `SecretBox<T>` by its tokens.
pub open spec fn conversion_of(c: Conversion, g: FieldGenerator, format: Option<String>) -> bool {
    match g {
        FieldGenerator::Required(x) => match format {
            Some(f) => deserializes(c, x.ty, f),
            None => c == Conversion::Parse { ty: x.ty, label: ErrorLabel::Text(x.ty.spec_text()) },
        },
        FieldGenerator::Default(x) => match format {
            Some(f) => deserializes(c, x.ty, f),
            None => c == Conversion::Parse { ty: x.ty, label: ErrorLabel::RuntimeName },
        },
        FieldGenerator::Optional(x) => match format {
            Some(f) => deserializes(c, x.inner_type, f),
            None => c == Conversion::Parse {
                ty: x.inner_type,
                label: ErrorLabel::Text(x.inner_type.spec_text()),
            },
        },
        FieldGenerator::SecretString(_) => c is SecretText,
        FieldGenerator::SecretBox(x) => c == Conversion::SecretParse {
            ty: x.inner_type,
            label: ErrorLabel::Text(x.inner_type.spec_text()),
        },
        FieldGenerator::Flatten(_) => false,
    }
}

/// What field `g`'s loader does when its variable is not set: a required
/// or secret field reports it, a field with a default uses the default,
/// an optional field has no value.
pub open spec fn missing_of(m: Missing, g: FieldGenerator) -> bool {
    match g {
        FieldGenerator::Default(x) => m matches Missing::Default { value, used_default_var } && value
            == x.default && used_default_var@ == local_name(x.name@, "_used_default"@),
        FieldGenerator::Optional(_) => m is Absent,
        _ => m is Error,
    }
}

/// `l` is the loader of flattened field `g`.
pub open spec fn nested_loader_of(l: Loader, g: FieldGenerator) -> bool {
    match g {
        FieldGenerator::Flatten(x) => l matches Loader::Nested(n) && n.field == x.name && n.ty == x.ty
            && n.prefix == x.prefix && n.nested_sources_var@ == local_name(
            x.name@,
            "_nested_sources"@,
        ),
        _ => false,
    }
}

/// `v` reads field `g`'s own variable, converted by `conversion_of` with
/// `format`, without profile values.
pub open spec fn named_var_loader_of(v: VarLoader, g: FieldGenerator, format: Option<String>) -> bool {
    &&& v.field == g.spec_name()
    &&& Some(v.var) == (match g.spec_env_var() {
        Some(e) => Some(VarRef::Named(e)),
        None => None,
    })
    &&& conversion_of(v.conversion, g, format)
    &&& v.secret == g.spec_is_secret()
    &&& v.redact_value == (format is Some && g.spec_is_secret())
    &&& missing_of(v.missing, g)
    &&& v.profile is None
    &&& v.profile_flag is None
}

/// The text placed in a parse error in place of a masked value.
pub open spec fn redacted_text() -> Seq<char> {
    "[REDACTED]"@
}

/// The text placed in a parse error in place of a masked value.
pub fn redacted_value() -> (r: String)
    ensures
        r@ == redacted_text(),
{
    String::from_str("[REDACTED]")
}

/// The value that a parse error of loader `v` carries when it read `text`.
pub open spec fn parse_error_value(v: VarLoader, text: Seq<char>) -> Seq<char> {
    if v.redact_value {
        redacted_text()
    } else {
        text
    }
}

/// `l` is field `g`'s loader by `FromStr` (a secret string is kept as is).
pub open spec fn plain_loader_of(l: Loader, g: FieldGenerator) -> bool {
    if g is Flatten {
        nested_loader_of(l, g)
    } else {
        l matches Loader::Var(v) && named_var_loader_of(v, g, None)
    }
}

/// `l` is field `g`'s loader by deserialization in `f` (for a field that
/// cannot carry a format, its loader by `FromStr`).
pub open spec fn format_loader_of(l: Loader, g: FieldGenerator, f: String) -> bool {
    if g is Required || g is Default || g is Optional {
        l matches Loader::Var(v) && named_var_loader_of(v, g, Some(f))
    } else {
        plain_loader_of(l, g)
    }
}

/// `l` is field `g`'s loader by format when it has one, by `FromStr` otherwise.
pub open spec fn base_loader_of(l: Loader, g: FieldGenerator) -> bool {
    match g.spec_format() {
        Some(f) => format_loader_of(l, g, f),
        None => plain_loader_of(l, g),
    }
}

/// `l` is field `g`'s loader under the caller's prefix: the variable is the
/// prefix followed by the field's; a regular field falls back on its
/// profile values (when it has some) before its own rule for a missing
/// variable, and records whether the profile's value was used.
pub open spec fn prefixed_var_loader_of(l: Loader, g: FieldGenerator) -> bool {
    if g is Flatten {
        nested_loader_of(l, g)
    } else {
        l matches Loader::Var(v) && {
            let regular = g is Required || g is Default || g is Optional;
            &&& v.field == g.spec_name()
            &&& v.var matches VarRef::Prefixed { base, effective_var } && Some(base)
                == g.spec_env_var() && effective_var@ == local_name(
                g.spec_name()@,
                "_effective_var"@,
            )
            &&& conversion_of(v.conversion, g, None)
            &&& v.secret == g.spec_is_secret()
            &&& !v.redact_value
            &&& missing_of(v.missing, g)
            &&& match g.spec_profile() {
                None => v.profile is None,
                Some(p) => v.profile matches Some(pf) && pf.arms@ == p.values@,
            }
            &&& regular ==> (v.profile_flag matches Some(fl) && fl@ == local_name(
                g.spec_name()@,
                "_from_profile"@,
            ))
            &&& !regular ==> v.profile_flag is None
        }
    }
}

/// Deserialization of `ty` in format `f`.
fn deserialize_conversion(ty: &TypeModel, f: &String) -> (c: Conversion)
    ensures
        deserializes(c, *ty, *f),
{
    Conversion::Deserialize {
        ty: ty.copy(),
        format: f.clone(),
        label: ErrorLabel::FormatData(String::from_str(format_upper(f.as_str()))),
    }
}

impl FieldGenerator {
    /// How the field's text becomes its value, deserialized in `format`
    /// when one is given.
    fn conversion(&self, format: Option<&String>) -> (r: Conversion)
        requires
            !(self is Flatten),
            format is Some ==> (self is Required || self is Default || self is Optional),
        ensures
            conversion_of(
                r,
                *self,
                match format {
                    Some(f) => Some(*f),
                    None => None,
                },
            ),
    {
        match self {
            FieldGenerator::Required(x) => match format {
                Some(f) => deserialize_conversion(&x.ty, f),
                None => Conversion::Parse { ty: x.ty.copy(), label: ErrorLabel::Text(x.ty.text().clone()) },
            },
            FieldGenerator::Default(x) => match format {
                Some(f) => deserialize_conversion(&x.ty, f),
                None => Conversion::Parse { ty: x.ty.copy(), label: ErrorLabel::RuntimeName },
            },
            FieldGenerator::Optional(x) => match format {
                Some(f) => deserialize_conversion(&x.inner_type, f),
                None => Conversion::Parse {
                    ty: x.inner_type.copy(),
                    label: ErrorLabel::Text(x.inner_type.text().clone()),
                },
            },
            FieldGenerator::SecretString(_) => Conversion::SecretText,
            FieldGenerator::SecretBox(x) => Conversion::SecretParse {
                ty: x.inner_type.copy(),
                label: ErrorLabel::Text(x.inner_type.text().clone()),
            },
            FieldGenerator::Flatten(_) => Conversion::SecretText,
        }
    }

    /// What the loader does when the field's variable is not set.
    pub(crate) fn missing(&self) -> (r: Missing)
        ensures
            missing_of(r, *self),
    {
        match self {
            FieldGenerator::Default(x) => Missing::Default {
                value: x.default.clone(),
                used_default_var: cat3("__", x.name.as_str(), "_used_default"),
            },
            FieldGenerator::Optional(_) => Missing::Absent,
            _ => Missing::Error,
        }
    }

    /// The loader of a flattened field.
    fn nested_loader(&self) -> (r: Loader)
        requires
            self is Flatten,
        ensures
            nested_loader_of(r, *self),
    {
        match self {
            FieldGenerator::Flatten(x) => Loader::Nested(
                NestedLoader {
                    field: x.name.clone(),
                    ty: x.ty.copy(),
                    prefix: match &x.prefix {
                        Some(p) => Some(p.clone()),
                        None => None,
                    },
                    nested_sources_var: cat3("__", x.name.as_str(), "_nested_sources"),
                },
            ),
            _ => Loader::Nested(
                NestedLoader {
                    field: String::new(),
                    ty: TypeModel::Other { text: String::new() },
                    prefix: None,
                    nested_sources_var: String::new(),
                },
            ),
        }
    }

    /// The loader of the field's own variable, by `format` when given.
    fn named_var_loader(&self, format: Option<&String>) -> (r: VarLoader)
        requires
            !(self is Flatten),
            format is Some ==> (self is Required || self is Default || self is Optional),
        ensures
            named_var_loader_of(
                r,
                *self,
                match format {
                    Some(f) => Some(*f),
                    None => None,
                },
            ),
    {
        let var = match self.env_var_name() {
            Some(e) => VarRef::Named(e.clone()),
            None => VarRef::Named(String::new()),
        };
        VarLoader {
            field: self.name().clone(),
            var,
            conversion: self.conversion(format),
            secret: self.is_secret(),
            redact_value: format.is_some() && self.is_secret(),
            missing: self.missing(),
            profile: None,
            profile_flag: None,
        }
    }

    /// The field's loader by `FromStr`: its variable parsed into its type
    /// (a `SecretString` keeps the text); a flattened field loads the nested
    /// struct.
    pub fn generate_loader(&self) -> (r: Loader)
        ensures
            plain_loader_of(r, *self),
    {
        if self.is_flatten() {
            self.nested_loader()
        } else {
            Loader::Var(self.named_var_loader(None))
        }
    }

    /// The field's loader by deserialization in `format`; a field that
    /// cannot carry a format keeps its loader by `FromStr`.
    pub fn generate_format_loader(&self, format: &String) -> (r: Loader)
        ensures
            format_loader_of(r, *self, *format),
    {
        match self {
            FieldGenerator::Required(_) | FieldGenerator::Default(_) | FieldGenerator::Optional(_) => {
                Loader::Var(self.named_var_loader(Some(format)))
            },
            _ => self.generate_loader(),
        }
    }

    /// The field's loader under the caller's prefix.
    pub fn generate_loader_with_external_prefix(&self) -> (r: Loader)
        ensures
            prefixed_var_loader_of(r, *self),
    {
        if self.is_flatten() {
            return self.nested_loader();
        }
        let name = self.name();
        let base = match self.env_var_name() {
            Some(e) => e.clone(),
            None => String::new(),
        };
        let regular = match self {
            FieldGenerator::Required(_) | FieldGenerator::Default(_) | FieldGenerator::Optional(_) => true,
            _ => false,
        };
        let profile = match self.profile_config() {
            Some(p) => Some(ProfileFallback { arms: copy_pairs(&p.values) }),
            None => None,
        };
        let profile_flag = if regular {
            Some(cat3("__", name.as_str(), "_from_profile"))
        } else {
            None
        };
        Loader::Var(
            VarLoader {
                field: name.clone(),
                var: VarRef::Prefixed {
                    base,
                    effective_var: cat3("__", name.as_str(), "_effective_var"),
                },
                conversion: self.conversion(None),
                secret: self.is_secret(),
                redact_value: false,
                missing: self.missing(),
                profile,
                profile_flag,
            },
        )
    }
}

// ============================================================================
// What a loader does at run time
// ============================================================================

/// What reading a variable gave at run time.
pub enum EnvRead {
    /// The variable is set to this text.
    Present(String),
    /// The variable is not set.
    NotPresent,
    /// The variable is set to data that is not valid UTF-8.
    NotUnicode,
}

/// An error a loader records while reading its variable (a failed
/// conversion of the text is recorded by the conversion, as a parse error).
pub enum ReadError {
    /// The variable, required, is not set.
    Missing(String),
    /// The variable holds data that is not valid UTF-8.
    InvalidUtf8(String),
}

/// The value of the active profile among `arms`: the value of the first arm
/// named after it; none without an active profile or without such an arm.
pub open spec fn profile_value(arms: Seq<(String, String)>, active: Option<String>) -> Option<String>
    decreases arms.len(),
{
    match active {
        None => None,
        Some(p) => if arms.len() == 0 {
            None
        } else if arms[0].0 == p {
            Some(arms[0].1)
        } else {
            profile_value(arms.drop_first(), active)
        },
    }
}

/// What a loader with rule `missing`, reading variable `var`, ends with:
/// the text it goes on to convert (none: the field has no value), the
/// errors it records, whether the text is the profile's value, and whether
/// it is the default. The variable comes first, then the profile's value,
/// then the rule for a missing variable; data that is not valid UTF-8 is
/// reported once and leaves the field without a value.
pub open spec fn read_outcome(
    missing: Missing,
    var: String,
    read: EnvRead,
    profile: Option<String>,
) -> (Option<String>, Seq<ReadError>, bool, bool) {
    match read {
        EnvRead::Present(t) => (Some(t), Seq::empty(), false, false),
        EnvRead::NotUnicode => (None, seq![ReadError::InvalidUtf8(var)], false, false),
        EnvRead::NotPresent => match profile {
            Some(p) => (Some(p), Seq::empty(), true, false),
            None => match missing {
                Missing::Error => (None, seq![ReadError::Missing(var)], false, false),
                Missing::Default { value, .. } => (Some(value), Seq::empty(), false, true),
                Missing::Absent => (None, Seq::empty(), false, false),
            },
        },
    }
}

/// What loader `v` ends with when its variable, named `var` at run time,
/// reads as `read` and `active` is the active profile.
pub open spec fn var_outcome(v: VarLoader, var: String, read: EnvRead, active: Option<String>) -> (
    Option<String>,
    Seq<ReadError>,
    bool,
    bool,
) {
    let profile = match v.profile {
        Some(pf) => profile_value(pf.arms@, active),
        None => None,
    };
    read_outcome(v.missing, var, read, profile)
}

// ============================================================================
// Laws
// ============================================================================

/// A required field and a secret field report a missing variable; a field
/// with a default uses it; an optional field becomes `None` — by every
/// loader of the field.
pub proof fn law_missing_variable(l: Loader, g: FieldGenerator)
    requires
        !(g is Flatten),
        plain_loader_of(l, g) || base_loader_of(l, g) || prefixed_var_loader_of(l, g),
    ensures
        l matches Loader::Var(v) && {
            &&& (g is Required || g is SecretString || g is SecretBox) ==> v.missing is Error
            &&& g is Default ==> (v.missing matches Missing::Default { value, .. } && Some(value)
                == g.spec_default())
            &&& g is Optional ==> v.missing is Absent
        },
{
}

/// A secret field's value is masked in parse errors by every loader.
pub proof fn law_loader_masks_secrets(l: Loader, g: FieldGenerator)
    requires
        !(g is Flatten),
        g.spec_is_secret(),
        plain_loader_of(l, g) || base_loader_of(l, g) || prefixed_var_loader_of(l, g),
    ensures
        l matches Loader::Var(v) && v.secret,
{
}

/// Under a prefix, a field reads the prefix followed by its own variable,
/// and its profile values, when it has some, come before its fallback.
pub proof fn law_prefixed_loader_reads_prefixed_variable(l: Loader, g: FieldGenerator)
    requires
        !(g is Flatten),
        prefixed_var_loader_of(l, g),
    ensures
        l matches Loader::Var(v) && v.var matches VarRef::Prefixed { base, .. } && Some(base)
            == g.spec_env_var() && (v.profile is Some <==> g.spec_profile() is Some),
{
}

/// Data that is not valid UTF-8 is reported once, as such, and leaves the
/// field without a value, whatever the field's kind or profile.
pub proof fn law_invalid_utf8_reported_once(v: VarLoader, var: String, active: Option<String>)
    ensures
        var_outcome(v, var, EnvRead::NotUnicode, active).0 is None,
        var_outcome(v, var, EnvRead::NotUnicode, active).1 == seq![ReadError::InvalidUtf8(var)],
{
}

/// The variable comes first, then the active profile's value, then the
/// field's rule for a missing variable: a required field records one
/// missing-variable error, a field with a default takes it, an optional
/// field is left without value and without error. An active profile that
/// gives the field no value leaves the rule as it is.
pub proof fn law_variable_over_profile_over_rule(
    l: Loader,
    g: FieldGenerator,
    var: String,
    read: EnvRead,
    active: Option<String>,
)
    requires
        !(g is Flatten),
        plain_loader_of(l, g) || base_loader_of(l, g) || prefixed_var_loader_of(l, g),
    ensures
        l matches Loader::Var(v) && {
            let out = var_outcome(v, var, read, active);
            let pv = match v.profile {
                Some(pf) => profile_value(pf.arms@, active),
                None => None,
            };
            &&& read matches EnvRead::Present(t) ==> out.0 == Some(t) && out.1.len() == 0
            &&& (read is NotPresent && pv is Some) ==> out.0 == pv && out.1.len() == 0 && out.2
            &&& (read is NotPresent && pv is None) ==> {
                &&& (g is Required || g is SecretString || g is SecretBox) ==> (out.0 is None
                    && out.1 == seq![ReadError::Missing(var)])
                &&& g is Default ==> (out.0 == g.spec_default() && out.1.len() == 0 && out.3)
                &&& g is Optional ==> (out.0 is None && out.1.len() == 0)
            }
        },
{
}

} // verus!
