//! Field classification and `.env.example` entries.

use vstd::prelude::*;

use crate::parse::{
    configured, env_attr_result, first_named, fold_items, is_known_format,
    law_parsed_format_is_known, spec_profile as field_profile_spec, doc_text, error_at, extract_doc_comment, field_config_result, is_error, profile_is,
    spec_profile, CliAttr, EnvAttr, ErrorSpan, ErrorSpec, FieldConfig, FieldModel, MacroError,
    Parser, ProfileAttr,
};
use crate::text::{
    cat, cat3, join, join_strings, push_owned, remove_spaces, str_eq, views, without_spaces,
};

verus! {

/// A field's type as the derive reads it.
pub enum TypeModel {
    /// A path type such as `u16`, `Option<String>` or `secrecy::SecretBox<u32>`.
    Path {
        /// The last segment of the path, when the path has one.
        last: Option<PathSegmentModel>,
        /// The type's tokens as text (`Option < String >`).
        text: String,
    },
    /// Any other type (reference, slice, tuple, ...).
    Other {
        /// The type's tokens as text.
        text: String,
    },
}

/// The last segment of a path type.
pub struct PathSegmentModel {
    /// The segment's identifier (`Option`, `SecretBox`, ...).
    pub ident: String,
    /// The first generic argument of the segment.
    pub first_arg: GenericArgModel,
}

/// The first generic argument of a path segment.
pub enum GenericArgModel {
    /// The segment has no angle-bracketed arguments.
    NotAngleBracketed,
    /// `<>` with no argument.
    Empty,
    /// The first argument is a type.
    Type(Box<TypeModel>),
    /// The first argument is a lifetime, constant or binding.
    NotType,
}


impl TypeModel {
    /// The type's tokens as text.
    pub open spec fn spec_text(self) -> String {
        match self {
            TypeModel::Path { text, .. } => text,
            TypeModel::Other { text } => text,
        }
    }

    /// The type's tokens as text.
    pub fn text(&self) -> (r: &String)
        ensures
            *r == self.spec_text(),
    {
        match self {
            TypeModel::Path { text, .. } => text,
            TypeModel::Other { text } => text,
        }
    }

    /// The type's name with the spaces of its token text removed (`Vec<String>`).
    pub open spec fn spec_type_name(self) -> Seq<char> {
        without_spaces(self.spec_text()@)
    }

    /// An identical copy of the type.
    pub fn copy(&self) -> (r: TypeModel)
        ensures
            r == *self,
        decreases self,
    {
        match self {
            TypeModel::Path { last, text } => {
                let last2 = match last {
                    Some(seg) => {
                        let arg = match &seg.first_arg {
                            GenericArgModel::NotAngleBracketed => GenericArgModel::NotAngleBracketed,
                            GenericArgModel::Empty => GenericArgModel::Empty,
                            GenericArgModel::Type(b) => GenericArgModel::Type(Box::new((**b).copy())),
                            GenericArgModel::NotType => GenericArgModel::NotType,
                        };
                        Some(PathSegmentModel { ident: seg.ident.clone(), first_arg: arg })
                    },
                    None => None,
                };
                TypeModel::Path { last: last2, text: text.clone() }
            },
            TypeModel::Other { text } => TypeModel::Other { text: text.clone() },
        }
    }
}

// ============================================================================
// Field generators
// ============================================================================

/// A required field: an error when the variable is missing.
pub struct RequiredField {
    /// The struct field's name.
    pub name: String,
    /// The field's type.
    pub ty: TypeModel,
    /// The environment variable (prefix applied).
    pub env_var: String,
    /// Mask the value in error output.
    pub secret: bool,
    /// Doc comment of the field.
    pub doc: Option<String>,
    /// CLI argument configuration.
    pub cli: Option<CliAttr>,
    /// Profile-specific defaults.
    pub profile: Option<ProfileAttr>,
    /// Deserialization format.
    pub format: Option<String>,
    /// Custom validation function.
    pub validate: Option<String>,
}

/// A field with a default used when the variable is missing.
pub struct DefaultField {
    pub name: String,
    pub ty: TypeModel,
    pub env_var: String,
    /// The default, parsed at run time like a value from the environment.
    pub default: String,
    pub secret: bool,
    pub doc: Option<String>,
    pub cli: Option<CliAttr>,
    pub profile: Option<ProfileAttr>,
    pub format: Option<String>,
    pub validate: Option<String>,
}

/// An `Option<T>` field that is `None` when the variable is missing.
pub struct OptionalField {
    pub name: String,
    /// `T` of `Option<T>`.
    pub inner_type: TypeModel,
    pub env_var: String,
    pub secret: bool,
    pub doc: Option<String>,
    pub cli: Option<CliAttr>,
    pub profile: Option<ProfileAttr>,
    pub format: Option<String>,
    pub validate: Option<String>,
}

/// A nested configuration struct loaded by its own derive.
pub struct FlattenField {
    pub name: String,
    /// The nested struct's type.
    pub ty: TypeModel,
    /// Prefix prepended to the nested variable names.
    pub prefix: Option<String>,
}

/// A `SecretString` field.
pub struct SecretStringField {
    pub name: String,
    pub env_var: String,
    pub doc: Option<String>,
}

/// A `SecretBox<T>` field.
pub struct SecretBoxField {
    pub name: String,
    /// `T` of `SecretBox<T>`.
    pub inner_type: TypeModel,
    pub env_var: String,
    pub doc: Option<String>,
}

/// The kind of secrecy type of a field.
pub enum SecretKind {
    /// `SecretString`.
    String,
    /// `SecretBox<T>` with its `T`.
    Box(Box<TypeModel>),
}

/// A classified field, with everything its generated code depends on.
pub enum FieldGenerator {
    Required(RequiredField),
    Default(DefaultField),
    Optional(OptionalField),
    Flatten(FlattenField),
    SecretString(SecretStringField),
    SecretBox(SecretBoxField),
}

/// Factory that classifies struct fields.
pub struct FieldFactory;

/// `T` when `ty` is `Option<T>` (the last path segment is `Option` and its
/// first generic argument is a type).
pub open spec fn option_inner(ty: TypeModel) -> Option<TypeModel> {
    match ty {
        TypeModel::Path { last: Some(seg), .. } => if seg.ident@ == "Option"@ {
            match seg.first_arg {
                GenericArgModel::Type(b) => Some(*b),
                _ => None,
            }
        } else {
            None
        },
        _ => None,
    }
}

/// The secrecy type of `ty`: `SecretString`, or `SecretBox<T>` with its `T`.
pub open spec fn secret_kind(ty: TypeModel) -> Option<SecretKind> {
    match ty {
        TypeModel::Path { last: Some(seg), .. } => if seg.ident@ == "SecretString"@ {
            Some(SecretKind::String)
        } else if seg.ident@ == "SecretBox"@ {
            match seg.first_arg {
                GenericArgModel::Type(b) => Some(SecretKind::Box(b)),
                _ => None,
            }
        } else {
            None
        },
        _ => None,
    }
}

impl FieldFactory {
    /// `T` when `ty` is `Option<T>`.
    pub fn extract_option_inner(ty: &TypeModel) -> (r: Option<&TypeModel>)
        ensures
            r matches Some(t) ==> option_inner(*ty) == Some(*t),
            r is None ==> option_inner(*ty) is None,
    {
        match ty {
            TypeModel::Path { last: Some(seg), .. } => {
                if !str_eq(seg.ident.as_str(), "Option") {
                    return None;
                }
                match &seg.first_arg {
                    GenericArgModel::Type(b) => Some(&**b),
                    _ => None,
                }
            },
            _ => None,
        }
    }

    /// Whether `ty` is `SecretString` or `SecretBox<T>` (by its last segment).
    pub fn extract_secret_kind(ty: &TypeModel) -> (r: Option<SecretKind>)
        ensures
            r == secret_kind(*ty),
    {
        match ty {
            TypeModel::Path { last: Some(seg), .. } => {
                if str_eq(seg.ident.as_str(), "SecretString") {
                    return Some(SecretKind::String);
                }
                if str_eq(seg.ident.as_str(), "SecretBox") {
                    return match &seg.first_arg {
                        GenericArgModel::Type(b) => Some(SecretKind::Box(Box::new((**b).copy()))),
                        _ => None,
                    };
                }
                None
            },
            _ => None,
        }
    }
}


/// The prefix as a sequence of characters.
pub open spec fn opt_str(p: Option<&str>) -> Option<Seq<char>> {
    match p {
        Some(s) => Some(s@),
        None => None,
    }
}

/// The variable a regular field reads: the struct prefix followed by its
/// `var`, unless `no_prefix` is set or there is no prefix.
pub open spec fn effective_var(a: EnvAttr, prefix: Option<Seq<char>>) -> Seq<char> {
    if !a.no_prefix && prefix is Some {
        prefix->0 + a.var_name@
    } else {
        a.var_name@
    }
}

/// The prefix a flattened field hands to the nested struct: none without
/// its own `prefix`; with one, the struct prefix (if any) followed by it.
pub open spec fn nested_prefix(own: Option<String>, prefix: Option<Seq<char>>) -> Option<Seq<char>> {
    match own {
        None => None,
        Some(p) => match prefix {
            Some(sp) => Some(sp + p@),
            None => Some(p@),
        },
    }
}

/// `d` is the doc comment of a field with attributes `f`.
pub open spec fn doc_is(d: Option<String>, f: FieldModel) -> bool {
    match d {
        None => doc_text(f.attrs@).len() == 0,
        Some(s) => doc_text(f.attrs@).len() > 0 && s@ == doc_text(f.attrs@),
    }
}

/// The message for `optional` on a type that is not `Option<T>`.
pub open spec fn optional_type_message() -> Seq<char> {
    "Field marked `optional` must have type `Option<T>`"@
}

/// The error of classifying field `f`, if any.
pub open spec fn parse_field_error(f: FieldModel) -> Option<ErrorSpec> {
    match field_config_result(f) {
        Err(e) => Some(e),
        Ok(FieldConfig::Flatten { .. }) => None,
        Ok(FieldConfig::Env(a)) => if secret_kind(f.ty) is None && a.optional && option_inner(
            f.ty,
        ) is None {
            Some((optional_type_message(), ErrorSpan::FieldType))
        } else {
            None
        },
    }
}

/// `g` is what field `f` of a struct with prefix `prefix` becomes.
///
/// - `flatten` gives a flattened field with the combined nested prefix;
/// - otherwise a `SecretString` or `SecretBox<T>` type gives a secret field;
/// - otherwise `optional` gives an optional field of the `T` of `Option<T>`;
/// - otherwise `default` gives a field with that default;
/// - otherwise the field is required.
///
/// Every regular field reads the variable `effective_var` names and keeps
/// its doc comment and the options of its attribute.
pub open spec fn generator_matches(g: FieldGenerator, f: FieldModel, prefix: Option<Seq<char>>) -> bool {
    let cfg = field_config_result(f)->Ok_0;
    let prof = spec_profile(f.attrs@)->Ok_0;
    match g {
        FieldGenerator::Flatten(x) => {
            &&& cfg matches FieldConfig::Flatten { prefix: own }
            &&& Some(x.name) == f.ident
            &&& x.ty == f.ty
            &&& opt_string(x.prefix) == nested_prefix(own, prefix)
        },
        FieldGenerator::SecretString(x) => {
            &&& cfg matches FieldConfig::Env(a)
            &&& secret_kind(f.ty) == Some(SecretKind::String)
            &&& Some(x.name) == f.ident
            &&& x.env_var@ == effective_var(a, prefix)
            &&& doc_is(x.doc, f)
        },
        FieldGenerator::SecretBox(x) => {
            &&& cfg matches FieldConfig::Env(a)
            &&& secret_kind(f.ty) == Some(SecretKind::Box(Box::new(x.inner_type)))
            &&& Some(x.name) == f.ident
            &&& x.env_var@ == effective_var(a, prefix)
            &&& doc_is(x.doc, f)
        },
        FieldGenerator::Optional(x) => {
            &&& cfg matches FieldConfig::Env(a)
            &&& secret_kind(f.ty) is None
            &&& a.optional
            &&& option_inner(f.ty) == Some(x.inner_type)
            &&& Some(x.name) == f.ident
            &&& x.env_var@ == effective_var(a, prefix)
            &&& x.secret == a.secret
            &&& doc_is(x.doc, f)
            &&& x.cli == a.cli
            &&& profile_is(x.profile, prof)
            &&& x.format == a.format
            &&& x.validate == a.validate
        },
        FieldGenerator::Default(x) => {
            &&& cfg matches FieldConfig::Env(a)
            &&& secret_kind(f.ty) is None
            &&& !a.optional
            &&& a.default == Some(x.default)
            &&& x.ty == f.ty
            &&& Some(x.name) == f.ident
            &&& x.env_var@ == effective_var(a, prefix)
            &&& x.secret == a.secret
            &&& doc_is(x.doc, f)
            &&& x.cli == a.cli
            &&& profile_is(x.profile, prof)
            &&& x.format == a.format
            &&& x.validate == a.validate
        },
        FieldGenerator::Required(x) => {
            &&& cfg matches FieldConfig::Env(a)
            &&& secret_kind(f.ty) is None
            &&& !a.optional
            &&& a.default is None
            &&& x.ty == f.ty
            &&& Some(x.name) == f.ident
            &&& x.env_var@ == effective_var(a, prefix)
            &&& x.secret == a.secret
            &&& doc_is(x.doc, f)
            &&& x.cli == a.cli
            &&& profile_is(x.profile, prof)
            &&& x.format == a.format
            &&& x.validate == a.validate
        },
    }
}

/// The characters of an optional string.
pub open spec fn opt_string(p: Option<String>) -> Option<Seq<char>> {
    match p {
        Some(s) => Some(s@),
        None => None,
    }
}

impl FieldFactory {
    /// Classifies a named field of a struct whose prefix is `prefix` and
    /// gathers what its generated code needs.
    pub fn parse_field(field: &FieldModel, prefix: Option<&str>) -> (r: Result<
        FieldGenerator,
        MacroError,
    >)
        requires
            field.ident is Some,
        ensures
            r is Err <==> parse_field_error(*field) is Some,
            r matches Err(e) ==> is_error(e, parse_field_error(*field)->0),
            r matches Ok(g) ==> generator_matches(g, *field, opt_str(prefix)),
    {
        let name = match &field.ident {
            Some(n) => n.clone(),
            None => String::new(),
        };
        let ty = field.ty.copy();
        let doc = extract_doc_comment(field);
        let field_config = Parser::parse_field_config(field)?;
        let env_attr = match field_config {
            FieldConfig::Flatten { prefix: flatten_prefix } => {
                let effective_prefix = match flatten_prefix {
                    Some(field_prefix) => match prefix {
                        Some(struct_prefix) => Some(cat(struct_prefix, field_prefix.as_str())),
                        None => Some(field_prefix),
                    },
                    None => None,
                };
                return Ok(FieldGenerator::Flatten(FlattenField { name, ty, prefix: effective_prefix }));
            },
            FieldConfig::Env(a) => a,
        };
        let env_var = match prefix {
            Some(prefix_val) => if !env_attr.no_prefix {
                cat(prefix_val, env_attr.var_name.as_str())
            } else {
                env_attr.var_name
            },
            None => env_attr.var_name,
        };
        if let Some(kind) = Self::extract_secret_kind(&ty) {
            return match kind {
                SecretKind::String => Ok(
                    FieldGenerator::SecretString(SecretStringField { name, env_var, doc }),
                ),
                SecretKind::Box(inner) => Ok(
                    FieldGenerator::SecretBox(
                        SecretBoxField { name, inner_type: *inner, env_var, doc },
                    ),
                ),
            };
        }
        if env_attr.optional {
            let inner_type = match Self::extract_option_inner(&ty) {
                Some(t) => t.copy(),
                None => {
                    return Err(
                        error_at(
                            String::from_str("Field marked `optional` must have type `Option<T>`"),
                            ErrorSpan::FieldType,
                        ),
                    );
                },
            };
            Ok(
                FieldGenerator::Optional(
                    OptionalField {
                        name,
                        inner_type,
                        env_var,
                        secret: env_attr.secret,
                        doc,
                        cli: env_attr.cli,
                        profile: env_attr.profile,
                        format: env_attr.format,
                        validate: env_attr.validate,
                    },
                ),
            )
        } else if let Some(default) = env_attr.default {
            Ok(
                FieldGenerator::Default(
                    DefaultField {
                        name,
                        ty,
                        env_var,
                        default,
                        secret: env_attr.secret,
                        doc,
                        cli: env_attr.cli,
                        profile: env_attr.profile,
                        format: env_attr.format,
                        validate: env_attr.validate,
                    },
                ),
            )
        } else {
            Ok(
                FieldGenerator::Required(
                    RequiredField {
                        name,
                        ty,
                        env_var,
                        secret: env_attr.secret,
                        doc,
                        cli: env_attr.cli,
                        profile: env_attr.profile,
                        format: env_attr.format,
                        validate: env_attr.validate,
                    },
                ),
            )
        }
    }
}


// ============================================================================
// .env.example entries
// ============================================================================

/// What one environment variable contributes to a `.env.example` file.
pub struct EnvExampleEntry {
    /// The variable (prefix applied).
    pub var_name: String,
    /// The field's doc comment.
    pub doc: Option<String>,
    /// No default and not optional.
    pub required: bool,
    /// The default, if the field has one.
    pub default: Option<String>,
    /// The field is secret.
    pub secret: bool,
    /// Type name for the hint (`u16`, `Option<String>`, ...).
    pub type_hint: String,
}

/// The items of an entry's parenthesized note: `required`, `secret`
/// (each when it applies) and `type: <hint>`.
pub open spec fn notes_of(required: bool, secret: bool, hint: Seq<char>) -> Seq<Seq<char>> {
    let s0 = Seq::<Seq<char>>::empty();
    let s1 = if required { s0.push("required"@) } else { s0 };
    let s2 = if secret { s1.push("secret"@) } else { s1 };
    s2.push("type: "@ + hint)
}

/// The variable line of an entry: `VAR=` for a required variable; commented
/// out otherwise, with its default when it has one (`# VAR=default`,
/// `# VAR=`).
pub open spec fn variable_line(var: Seq<char>, required: bool, default: Option<String>) -> Seq<char> {
    match default {
        Some(d) => "# "@ + var + "="@ + d@,
        None => if required {
            var + "="@
        } else {
            "# "@ + var + "="@
        },
    }
}

/// The text of an entry: a comment line with the doc comment and the
/// note, then its variable line.
pub open spec fn text_of_entry(
    var: Seq<char>,
    doc: Option<String>,
    required: bool,
    default: Option<String>,
    secret: bool,
    hint: Seq<char>,
) -> Seq<char> {
    "# "@ + (match doc {
        Some(d) => d@ + " "@,
        None => Seq::empty(),
    }) + "("@ + join(notes_of(required, secret, hint), ", "@) + ")"@ + "\n"@ + variable_line(
        var,
        required,
        default,
    )
}

/// The notes of entry `e`.
pub open spec fn entry_notes(e: EnvExampleEntry) -> Seq<Seq<char>> {
    notes_of(e.required, e.secret, e.type_hint@)
}

/// The text of entry `e`.
pub open spec fn entry_text(e: EnvExampleEntry) -> Seq<char> {
    text_of_entry(e.var_name@, e.doc, e.required, e.default, e.secret, e.type_hint@)
}

impl EnvExampleEntry {
    /// Formats this entry for a `.env.example` file.
    pub fn format(&self) -> (r: String)
        ensures
            r@ == entry_text(*self),
    {
        let mut meta: Vec<String> = Vec::new();
        if self.required {
            push_owned(&mut meta, "required");
        }
        if self.secret {
            push_owned(&mut meta, "secret");
        }
        let hint = cat("type: ", self.type_hint.as_str());
        push_owned(&mut meta, hint.as_str());
        assert(views(meta@) == entry_notes(*self));
        let notes = join_strings(&meta, ", ");
        let mut out = String::from_str("# ");
        if let Some(doc) = &self.doc {
            out.append(doc.as_str());
            out.append(" ");
        }
        out.append("(");
        out.append(notes.as_str());
        out.append(")");
        out.append("\n");
        match &self.default {
            Some(d) => {
                out.append("# ");
                out.append(self.var_name.as_str());
                out.append("=");
                out.append(d.as_str());
            },
            None => {
                if !self.required {
                    out.append("# ");
                }
                out.append(self.var_name.as_str());
                out.append("=");
            },
        }
        assert(out@ =~= entry_text(*self));
        out
    }
}

/// Copies an optional string.
fn copy_opt(s: &Option<String>) -> (r: Option<String>)
    ensures
        r == *s,
{
    match s {
        Some(x) => Some(x.clone()),
        None => None,
    }
}

/// `e` is the entry with the given parts.
pub open spec fn entry_is(
    e: EnvExampleEntry,
    var: String,
    doc: Option<String>,
    required: bool,
    default: Option<String>,
    secret: bool,
    hint: Seq<char>,
) -> bool {
    e.var_name == var && e.doc == doc && e.required == required && e.default == default
        && e.secret == secret && e.type_hint@ == hint
}

/// `r` is the `.env.example` entries of `g`: none for a flattened field
/// (the nested struct provides its own), one for every other field.
pub open spec fn entries_of(r: Seq<EnvExampleEntry>, g: FieldGenerator) -> bool {
    match g {
        FieldGenerator::Flatten(_) => r.len() == 0,
        FieldGenerator::Required(x) => r.len() == 1 && entry_is(
            r[0],
            x.env_var,
            x.doc,
            true,
            None,
            x.secret,
            x.ty.spec_type_name(),
        ),
        FieldGenerator::Default(x) => r.len() == 1 && entry_is(
            r[0],
            x.env_var,
            x.doc,
            false,
            Some(x.default),
            x.secret,
            x.ty.spec_type_name(),
        ),
        FieldGenerator::Optional(x) => r.len() == 1 && entry_is(
            r[0],
            x.env_var,
            x.doc,
            false,
            None,
            x.secret,
            "Option<"@ + x.inner_type.spec_type_name() + ">"@,
        ),
        FieldGenerator::SecretString(x) => r.len() == 1 && entry_is(
            r[0],
            x.env_var,
            x.doc,
            true,
            None,
            true,
            "SecretString"@,
        ),
        FieldGenerator::SecretBox(x) => r.len() == 1 && entry_is(
            r[0],
            x.env_var,
            x.doc,
            true,
            None,
            true,
            "SecretBox<"@ + x.inner_type.spec_type_name() + ">"@,
        ),
    }
}

impl RequiredField {
    /// The `.env.example` entry of this field.
    pub fn example_entries(&self) -> (r: Vec<EnvExampleEntry>)
        ensures
            entries_of(r@, FieldGenerator::Required(*self)),
    {
        let hint = remove_spaces(self.ty.text().as_str());
        vec![
            EnvExampleEntry {
                var_name: self.env_var.clone(),
                doc: copy_opt(&self.doc),
                required: true,
                default: None,
                secret: self.secret,
                type_hint: hint,
            },
        ]
    }
}

impl DefaultField {
    /// The `.env.example` entry of this field.
    pub fn example_entries(&self) -> (r: Vec<EnvExampleEntry>)
        ensures
            entries_of(r@, FieldGenerator::Default(*self)),
    {
        let hint = remove_spaces(self.ty.text().as_str());
        vec![
            EnvExampleEntry {
                var_name: self.env_var.clone(),
                doc: copy_opt(&self.doc),
                required: false,
                default: Some(self.default.clone()),
                secret: self.secret,
                type_hint: hint,
            },
        ]
    }
}

impl OptionalField {
    /// The `.env.example` entry of this field.
    pub fn example_entries(&self) -> (r: Vec<EnvExampleEntry>)
        ensures
            entries_of(r@, FieldGenerator::Optional(*self)),
    {
        let inner = remove_spaces(self.inner_type.text().as_str());
        let hint = cat3("Option<", inner.as_str(), ">");
        vec![
            EnvExampleEntry {
                var_name: self.env_var.clone(),
                doc: copy_opt(&self.doc),
                required: false,
                default: None,
                secret: self.secret,
                type_hint: hint,
            },
        ]
    }
}

impl SecretStringField {
    /// The `.env.example` entry of this field.
    pub fn example_entries(&self) -> (r: Vec<EnvExampleEntry>)
        ensures
            entries_of(r@, FieldGenerator::SecretString(*self)),
    {
        vec![
            EnvExampleEntry {
                var_name: self.env_var.clone(),
                doc: copy_opt(&self.doc),
                required: true,
                default: None,
                secret: true,
                type_hint: String::from_str("SecretString"),
            },
        ]
    }
}

impl SecretBoxField {
    /// The `.env.example` entry of this field.
    pub fn example_entries(&self) -> (r: Vec<EnvExampleEntry>)
        ensures
            entries_of(r@, FieldGenerator::SecretBox(*self)),
    {
        let inner = remove_spaces(self.inner_type.text().as_str());
        let hint = cat3("SecretBox<", inner.as_str(), ">");
        vec![
            EnvExampleEntry {
                var_name: self.env_var.clone(),
                doc: copy_opt(&self.doc),
                required: true,
                default: None,
                secret: true,
                type_hint: hint,
            },
        ]
    }
}

impl FlattenField {
    /// A flattened field has no entry of its own.
    pub fn example_entries(&self) -> (r: Vec<EnvExampleEntry>)
        ensures
            entries_of(r@, FieldGenerator::Flatten(*self)),
    {
        Vec::new()
    }
}


// ============================================================================
// What the generators of every method read from a field
// ============================================================================

/// How a field is assigned from its local in the constructed struct.
#[derive(PartialEq, Eq, Structural, Clone, Copy)]
pub enum Assignment {
    /// `name` (the local is already the field's `Option<T>`).
    Direct,
    /// `name: name.unwrap()` (construction happens only without errors).
    Unwrap,
}

/// `a` is how field `g` is assigned: an optional field takes its local as
/// is, every other field its checked value.
pub open spec fn assignment_of(a: Assignment, g: FieldGenerator) -> bool {
    a == if g is Optional {
        Assignment::Direct
    } else {
        Assignment::Unwrap
    }
}

/// The relation of a field to its assignment.
pub open spec fn assignment_rel() -> spec_fn(Assignment, FieldGenerator) -> bool {
    |a: Assignment, g: FieldGenerator| assignment_of(a, g)
}

/// What a field's part of `env_example()` is.
pub enum ExampleFragment {
    /// Nothing (a field without entries).
    Empty,
    /// Literal text: the field's formatted entries.
    Text(String),
    /// The nested struct's own entries (a flattened field).
    Nested(TypeModel),
}

/// The text of a regular field's `.env.example` entry.
pub open spec fn fragment_text(g: FieldGenerator) -> Seq<char> {
    match g {
        FieldGenerator::Required(x) => text_of_entry(
            x.env_var@,
            x.doc,
            true,
            None,
            x.secret,
            x.ty.spec_type_name(),
        ),
        FieldGenerator::Default(x) => text_of_entry(
            x.env_var@,
            x.doc,
            false,
            Some(x.default),
            x.secret,
            x.ty.spec_type_name(),
        ),
        FieldGenerator::Optional(x) => text_of_entry(
            x.env_var@,
            x.doc,
            false,
            None,
            x.secret,
            "Option<"@ + x.inner_type.spec_type_name() + ">"@,
        ),
        FieldGenerator::SecretString(x) => text_of_entry(
            x.env_var@,
            x.doc,
            true,
            None,
            true,
            "SecretString"@,
        ),
        FieldGenerator::SecretBox(x) => text_of_entry(
            x.env_var@,
            x.doc,
            true,
            None,
            true,
            "SecretBox<"@ + x.inner_type.spec_type_name() + ">"@,
        ),
        FieldGenerator::Flatten(_) => Seq::empty(),
    }
}

impl FieldGenerator {
    /// The struct field's name.
    pub open spec fn spec_name(self) -> String {
        match self {
            FieldGenerator::Required(x) => x.name,
            FieldGenerator::Default(x) => x.name,
            FieldGenerator::Optional(x) => x.name,
            FieldGenerator::Flatten(x) => x.name,
            FieldGenerator::SecretString(x) => x.name,
            FieldGenerator::SecretBox(x) => x.name,
        }
    }

    /// The type name shown in parse errors (spaces removed): the field's
    /// type, `T` of `Option<T>` / `SecretBox<T>`, or `SecretString`.
    pub open spec fn spec_type_name(self) -> Seq<char> {
        match self {
            FieldGenerator::Required(x) => x.ty.spec_type_name(),
            FieldGenerator::Default(x) => x.ty.spec_type_name(),
            FieldGenerator::Optional(x) => x.inner_type.spec_type_name(),
            FieldGenerator::Flatten(x) => x.ty.spec_type_name(),
            FieldGenerator::SecretString(_) => "SecretString"@,
            FieldGenerator::SecretBox(x) => x.inner_type.spec_type_name(),
        }
    }

    /// The field is masked: a secret field, or a secrecy type.
    pub open spec fn spec_is_secret(self) -> bool {
        match self {
            FieldGenerator::Required(x) => x.secret,
            FieldGenerator::Default(x) => x.secret,
            FieldGenerator::Optional(x) => x.secret,
            FieldGenerator::Flatten(_) => false,
            FieldGenerator::SecretString(_) => true,
            FieldGenerator::SecretBox(_) => true,
        }
    }

    /// The field's type redacts itself (`SecretString`, `SecretBox<T>`).
    pub open spec fn spec_is_secrecy_type(self) -> bool {
        self is SecretString || self is SecretBox
    }

    /// The environment variable the field reads; none for a flattened field.
    pub open spec fn spec_env_var(self) -> Option<String> {
        match self {
            FieldGenerator::Required(x) => Some(x.env_var),
            FieldGenerator::Default(x) => Some(x.env_var),
            FieldGenerator::Optional(x) => Some(x.env_var),
            FieldGenerator::Flatten(_) => None,
            FieldGenerator::SecretString(x) => Some(x.env_var),
            FieldGenerator::SecretBox(x) => Some(x.env_var),
        }
    }

    /// CLI argument configuration.
    pub open spec fn spec_cli(self) -> Option<CliAttr> {
        match self {
            FieldGenerator::Required(x) => x.cli,
            FieldGenerator::Default(x) => x.cli,
            FieldGenerator::Optional(x) => x.cli,
            _ => None,
        }
    }

    /// Profile-specific defaults.
    pub open spec fn spec_profile(self) -> Option<ProfileAttr> {
        match self {
            FieldGenerator::Required(x) => x.profile,
            FieldGenerator::Default(x) => x.profile,
            FieldGenerator::Optional(x) => x.profile,
            _ => None,
        }
    }

    /// The default value.
    pub open spec fn spec_default(self) -> Option<String> {
        match self {
            FieldGenerator::Default(x) => Some(x.default),
            _ => None,
        }
    }

    /// The deserialization format.
    pub open spec fn spec_format(self) -> Option<String> {
        match self {
            FieldGenerator::Required(x) => x.format,
            FieldGenerator::Default(x) => x.format,
            FieldGenerator::Optional(x) => x.format,
            _ => None,
        }
    }

    /// The type the field's value is read as: the field's type, `T` of
    /// `Option<T>` / `SecretBox<T>`; none for `SecretString`.
    pub open spec fn spec_field_type(self) -> Option<TypeModel> {
        match self {
            FieldGenerator::Required(x) => Some(x.ty),
            FieldGenerator::Default(x) => Some(x.ty),
            FieldGenerator::Optional(x) => Some(x.inner_type),
            FieldGenerator::Flatten(x) => Some(x.ty),
            FieldGenerator::SecretString(_) => None,
            FieldGenerator::SecretBox(x) => Some(x.inner_type),
        }
    }

    /// The prefix a flattened field hands to the nested struct.
    pub open spec fn spec_flatten_prefix(self) -> Option<String> {
        match self {
            FieldGenerator::Flatten(x) => x.prefix,
            _ => None,
        }
    }

    /// The custom validation function.
    pub open spec fn spec_validate(self) -> Option<String> {
        match self {
            FieldGenerator::Required(x) => x.validate,
            FieldGenerator::Default(x) => x.validate,
            FieldGenerator::Optional(x) => x.validate,
            _ => None,
        }
    }

    /// The struct field's name.
    pub fn name(&self) -> (r: &String)
        ensures
            *r == self.spec_name(),
    {
        match self {
            FieldGenerator::Required(x) => &x.name,
            FieldGenerator::Default(x) => &x.name,
            FieldGenerator::Optional(x) => &x.name,
            FieldGenerator::Flatten(x) => &x.name,
            FieldGenerator::SecretString(x) => &x.name,
            FieldGenerator::SecretBox(x) => &x.name,
        }
    }

    /// The type name shown in parse errors.
    pub fn type_label(&self) -> (r: String)
        ensures
            r@ == self.spec_type_name(),
    {
        match self {
            FieldGenerator::Required(x) => remove_spaces(x.ty.text().as_str()),
            FieldGenerator::Default(x) => remove_spaces(x.ty.text().as_str()),
            FieldGenerator::Optional(x) => remove_spaces(x.inner_type.text().as_str()),
            FieldGenerator::Flatten(x) => remove_spaces(x.ty.text().as_str()),
            FieldGenerator::SecretString(_) => String::from_str("SecretString"),
            FieldGenerator::SecretBox(x) => remove_spaces(x.inner_type.text().as_str()),
        }
    }

    /// The field is masked in `Debug` output and error messages.
    pub fn is_secret(&self) -> (r: bool)
        ensures
            r == self.spec_is_secret(),
    {
        match self {
            FieldGenerator::Required(x) => x.secret,
            FieldGenerator::Default(x) => x.secret,
            FieldGenerator::Optional(x) => x.secret,
            FieldGenerator::Flatten(_) => false,
            FieldGenerator::SecretString(_) => true,
            FieldGenerator::SecretBox(_) => true,
        }
    }

    /// The field's type redacts itself.
    pub fn is_secrecy_type(&self) -> (r: bool)
        ensures
            r == self.spec_is_secrecy_type(),
    {
        match self {
            FieldGenerator::SecretString(_) | FieldGenerator::SecretBox(_) => true,
            _ => false,
        }
    }

    /// The field is a flattened nested struct.
    pub fn is_flatten(&self) -> (r: bool)
        ensures
            r == self is Flatten,
    {
        match self {
            FieldGenerator::Flatten(_) => true,
            _ => false,
        }
    }

    /// The field is `Option<T>` marked `optional`.
    pub fn is_optional(&self) -> (r: bool)
        ensures
            r == self is Optional,
    {
        match self {
            FieldGenerator::Optional(_) => true,
            _ => false,
        }
    }

    /// The environment variable the field reads.
    pub fn env_var_name(&self) -> (r: Option<&String>)
        ensures
            r == match self.spec_env_var() {
                Some(v) => Some(&v),
                None => None::<&String>,
            },
    {
        match self {
            FieldGenerator::Required(x) => Some(&x.env_var),
            FieldGenerator::Default(x) => Some(&x.env_var),
            FieldGenerator::Optional(x) => Some(&x.env_var),
            FieldGenerator::Flatten(_) => None,
            FieldGenerator::SecretString(x) => Some(&x.env_var),
            FieldGenerator::SecretBox(x) => Some(&x.env_var),
        }
    }

    /// CLI argument configuration.
    pub fn cli_config(&self) -> (r: Option<&CliAttr>)
        ensures
            r == match self.spec_cli() {
                Some(v) => Some(&v),
                None => None::<&CliAttr>,
            },
    {
        match self {
            FieldGenerator::Required(x) => x.cli.as_ref(),
            FieldGenerator::Default(x) => x.cli.as_ref(),
            FieldGenerator::Optional(x) => x.cli.as_ref(),
            _ => None,
        }
    }

    /// Profile-specific defaults.
    pub fn profile_config(&self) -> (r: Option<&ProfileAttr>)
        ensures
            r == match self.spec_profile() {
                Some(v) => Some(&v),
                None => None::<&ProfileAttr>,
            },
    {
        match self {
            FieldGenerator::Required(x) => x.profile.as_ref(),
            FieldGenerator::Default(x) => x.profile.as_ref(),
            FieldGenerator::Optional(x) => x.profile.as_ref(),
            _ => None,
        }
    }

    /// The default value.
    pub fn default_value(&self) -> (r: Option<&String>)
        ensures
            r == match self.spec_default() {
                Some(v) => Some(&v),
                None => None::<&String>,
            },
    {
        match self {
            FieldGenerator::Default(x) => Some(&x.default),
            _ => None,
        }
    }

    /// The deserialization format.
    pub fn format_config(&self) -> (r: Option<&String>)
        ensures
            r == match self.spec_format() {
                Some(v) => Some(&v),
                None => None::<&String>,
            },
    {
        match self {
            FieldGenerator::Required(x) => x.format.as_ref(),
            FieldGenerator::Default(x) => x.format.as_ref(),
            FieldGenerator::Optional(x) => x.format.as_ref(),
            _ => None,
        }
    }

    /// The type the field's value is read as.
    pub fn field_type(&self) -> (r: Option<&TypeModel>)
        ensures
            r == match self.spec_field_type() {
                Some(v) => Some(&v),
                None => None::<&TypeModel>,
            },
    {
        match self {
            FieldGenerator::Required(x) => Some(&x.ty),
            FieldGenerator::Default(x) => Some(&x.ty),
            FieldGenerator::Optional(x) => Some(&x.inner_type),
            FieldGenerator::Flatten(x) => Some(&x.ty),
            FieldGenerator::SecretString(_) => None,
            FieldGenerator::SecretBox(x) => Some(&x.inner_type),
        }
    }

    /// The prefix a flattened field hands to the nested struct.
    pub fn flatten_prefix(&self) -> (r: Option<&String>)
        ensures
            r == match self.spec_flatten_prefix() {
                Some(v) => Some(&v),
                None => None::<&String>,
            },
    {
        match self {
            FieldGenerator::Flatten(x) => x.prefix.as_ref(),
            _ => None,
        }
    }

    /// The custom validation function.
    pub fn validate_fn(&self) -> (r: Option<&String>)
        ensures
            r == match self.spec_validate() {
                Some(v) => Some(&v),
                None => None::<&String>,
            },
    {
        match self {
            FieldGenerator::Required(x) => x.validate.as_ref(),
            FieldGenerator::Default(x) => x.validate.as_ref(),
            FieldGenerator::Optional(x) => x.validate.as_ref(),
            _ => None,
        }
    }

    /// The `.env.example` entries of the field.
    pub fn example_entries(&self) -> (r: Vec<EnvExampleEntry>)
        ensures
            entries_of(r@, *self),
    {
        match self {
            FieldGenerator::Required(x) => x.example_entries(),
            FieldGenerator::Default(x) => x.example_entries(),
            FieldGenerator::Optional(x) => x.example_entries(),
            FieldGenerator::Flatten(x) => x.example_entries(),
            FieldGenerator::SecretString(x) => x.example_entries(),
            FieldGenerator::SecretBox(x) => x.example_entries(),
        }
    }

    /// How the field is assigned in the constructed struct: an optional
    /// field takes its local as is, every other field its checked value.
    pub fn generate_assignment(&self) -> (r: Assignment)
        ensures
            assignment_of(r, *self),
    {
        if self.is_optional() {
            Assignment::Direct
        } else {
            Assignment::Unwrap
        }
    }

    /// The field's part of `env_example()`: the nested struct's entries for
    /// a flattened field, else its formatted entries.
    pub fn generate_example_fragment(&self) -> (r: ExampleFragment)
        ensures
            self is Flatten ==> r == ExampleFragment::Nested(self.spec_field_type()->0),
            !(self is Flatten) ==> (r matches ExampleFragment::Text(t) && t@ == fragment_text(*self)),
    {
        if let FieldGenerator::Flatten(x) = self {
            return ExampleFragment::Nested(x.ty.copy());
        }
        let entries = self.example_entries();
        let text = entries[0].format();
        assert(entries_of(entries@, *self));
        ExampleFragment::Text(text)
    }
}


// ============================================================================
// Laws of field classification and .env.example text
// ============================================================================

/// The struct prefix is prepended to a regular field's variable unless the
/// field sets `no_prefix`: with `prefix = "APP_"`, `var = "PORT"` reads
/// `APP_PORT`.
pub proof fn law_prefix_applied(g: FieldGenerator, f: FieldModel, prefix: Seq<char>)
    requires
        parse_field_error(f) is None,
        generator_matches(g, f, Some(prefix)),
        field_config_result(f) matches Ok(FieldConfig::Env(a)),
    ensures
        ({
            let a = field_config_result(f)->Ok_0->Env_0;
            g.spec_env_var() matches Some(v) && v@ == if a.no_prefix {
                a.var_name@
            } else {
                prefix + a.var_name@
            }
        }),
{
}

/// A flattened field with its own prefix hands the nested struct the
/// struct prefix followed by its own (`APP_` and `DB_` give `APP_DB_`);
/// without its own prefix it hands none.
pub proof fn law_nested_prefix(g: FieldGenerator, f: FieldModel, prefix: Option<Seq<char>>)
    requires
        parse_field_error(f) is None,
        generator_matches(g, f, prefix),
        field_config_result(f) matches Ok(FieldConfig::Flatten { prefix: own }),
    ensures
        ({
            let own = field_config_result(f)->Ok_0->prefix;
            &&& g is Flatten
            &&& own is None ==> g.spec_flatten_prefix() is None
            &&& own matches Some(o) ==> g.spec_flatten_prefix() matches Some(q) && q@ == match prefix {
                Some(sp) => sp + o@,
                None => o@,
            }
        }),
{
}

/// `SecretString` and `SecretBox<T>` fields are secret without the
/// `secret` option.
pub proof fn law_secrecy_types_are_secret(g: FieldGenerator, f: FieldModel, prefix: Option<Seq<char>>)
    requires
        parse_field_error(f) is None,
        generator_matches(g, f, prefix),
        field_config_result(f) is Ok,
        field_config_result(f)->Ok_0 is Env,
        secret_kind(f.ty) is Some,
    ensures
        g.spec_is_secret(),
        g.spec_is_secrecy_type(),
{
}

/// The kind of a field follows its attribute and type, in this order:
/// `flatten`; a secrecy type; `optional`; `default`; otherwise required.
pub proof fn law_field_kind(g: FieldGenerator, f: FieldModel, prefix: Option<Seq<char>>)
    requires
        parse_field_error(f) is None,
        generator_matches(g, f, prefix),
    ensures
        ({
            let cfg = field_config_result(f)->Ok_0;
            &&& g is Flatten <==> cfg is Flatten
            &&& (g is SecretString || g is SecretBox) <==> (cfg is Env && secret_kind(f.ty) is Some)
            &&& g is Optional <==> (cfg matches FieldConfig::Env(a) && secret_kind(f.ty) is None
                && a.optional)
            &&& g is Default <==> (cfg matches FieldConfig::Env(a) && secret_kind(f.ty) is None
                && !a.optional && a.default is Some)
            &&& g is Required <==> (cfg matches FieldConfig::Env(a) && secret_kind(f.ty) is None
                && !a.optional && a.default is None)
        }),
{
}

/// A field's deserialization format is always `json`, `toml` or `yaml`.
pub proof fn law_field_format_is_known(g: FieldGenerator, f: FieldModel, prefix: Option<Seq<char>>)
    requires
        parse_field_error(f) is None,
        generator_matches(g, f, prefix),
    ensures
        g.spec_format() matches Some(fmt) ==> is_known_format(fmt@),
{
    let i = first_named(f.attrs@, "env"@)->0;
    law_parsed_format_is_known(f.attrs@[i].items@, i as usize);
}

/// In `.env.example`, a required variable is shown as `VAR=`; any other is
/// commented out, with its default when it has one (`# VAR=default`,
/// `# VAR=`).
pub proof fn law_example_variable_line(e: EnvExampleEntry)
    ensures
        ({
            let line = variable_line(e.var_name@, e.required, e.default);
            let t = entry_text(e);
            &&& t.len() >= line.len()
            &&& t.subrange(t.len() - line.len(), t.len() as int) == line
        }),
{
    lemma_entry_ends_with_variable(e.var_name@, e.doc, e.required, e.default, e.secret, e.type_hint@);
}

/// The text of an entry ends with its variable line.
pub proof fn lemma_entry_ends_with_variable(
    var: Seq<char>,
    doc: Option<String>,
    required: bool,
    default: Option<String>,
    secret: bool,
    hint: Seq<char>,
)
    ensures
        ({
            let line = variable_line(var, required, default);
            let t = text_of_entry(var, doc, required, default, secret, hint);
            &&& t.len() >= line.len()
            &&& t.subrange(t.len() - line.len(), t.len() as int) == line
        }),
{
    let line = variable_line(var, required, default);
    let head = "# "@ + (match doc {
        Some(d) => d@ + " "@,
        None => Seq::empty(),
    }) + "("@ + join(notes_of(required, secret, hint), ", "@) + ")"@ + "\n"@;
    let t = text_of_entry(var, doc, required, default, secret, hint);
    assert(t == head + line);
    assert(t.subrange(head.len() as int, t.len() as int) =~= line);
}

/// A required entry says so in its note; every note names the type.
pub proof fn law_example_notes(e: EnvExampleEntry)
    ensures
        e.required ==> entry_notes(e)[0] == "required"@,
        entry_notes(e).last() == "type: "@ + e.type_hint@,
        entry_notes(e).contains("secret"@) <== e.secret,
{
    let n = entry_notes(e);
    if e.secret {
        let i = if e.required { 1int } else { 0int };
        assert(n[i] == "secret"@);
    }
}

} // verus!
