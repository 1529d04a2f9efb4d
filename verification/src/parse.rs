//! Attribute parsing for `#[env(...)]`, `#[env_config(...)]` and
//! `#[profile(...)]`.
//!
//! The attributes reach this module as plain values: each attribute is an
//! [`AttrModel`], whose argument list is a sequence of [`NestedMeta`] items
//! (an option name and what follows it). Parsing happens in two phases:
//! [`Parser::parse_meta`] accumulates options one at a time and rejects
//! unknown and duplicate options; [`Parser::build_config`] then checks the
//! combinations and builds a [`FieldConfig`].

use vstd::prelude::*;

use crate::field::TypeModel;
use crate::text::{
    cat, cat3, first_index, join, join_strings, lemma_first_index, lemma_first_index_found, push_owned, str_eq,
    trim, trim_str, views,
};

verus! {

// ============================================================================
// Input model
// ============================================================================

/// What follows an option's name inside an attribute's argument list.
pub enum MetaValue {
    /// Nothing follows the name (a flag such as `optional`).
    Absent,
    /// `= "text"`.
    Str(String),
    /// `= 'c'`.
    Char(char),
    /// `= ["a", "b"]`, every element a string literal.
    StrList(Vec<String>),
    /// `= [...]` with an element that is not a string literal.
    BadList,
    /// `=` followed by an expression of another kind.
    OtherExpr,
    /// A parenthesized group follows the name, with no `=`.
    Parenthesized,
}

/// One item of an attribute's argument list: `name`, `name = value`, ...
pub struct NestedMeta {
    /// The item's path when it is a single identifier.
    pub ident: Option<String>,
    /// What follows the path.
    pub value: MetaValue,
}

/// An attribute on a struct or field.
pub struct AttrModel {
    /// The attribute's path when it is a single identifier (`env`, `doc`, ...).
    pub ident: Option<String>,
    /// For `#[doc = "..."]` (a doc comment): the string.
    pub doc: Option<String>,
    /// The items of the argument list, in order, as far as they could be read.
    pub items: Vec<NestedMeta>,
    /// The syntax error that stopped reading the argument list, if any.
    pub syntax_error: Option<String>,
}

/// The attributes whose argument lists the derive reads: those named
/// `env`, `env_config` and `profile`.
pub open spec fn spec_reads_items(name: Option<String>) -> bool {
    name matches Some(n) && (n@ == "env"@ || n@ == "env_config"@ || n@ == "profile"@)
}

/// Whether the argument list of an attribute named `name` is read.
pub fn reads_items(name: &Option<String>) -> (r: bool)
    ensures
        r == spec_reads_items(*name),
{
    match name {
        Some(n) => str_eq(n.as_str(), "env") || str_eq(n.as_str(), "env_config") || str_eq(
            n.as_str(),
            "profile",
        ),
        None => false,
    }
}

/// A struct field as the parser sees it.
pub struct FieldModel {
    /// The field's name (named fields have one).
    pub ident: Option<String>,
    /// The field's type.
    pub ty: TypeModel,
    /// The field's attributes, in order.
    pub attrs: Vec<AttrModel>,
}

/// Where an error points in the derive input.
#[derive(Debug)]
pub enum ErrorSpan {
    /// Item `item` of attribute `attr`.
    Item { attr: usize, item: usize },
    /// The whole attribute `attr`.
    Attr { attr: usize },
    /// The syntax error recorded for attribute `attr`.
    Syntax { attr: usize },
    /// The field.
    Field,
    /// The field's type.
    FieldType,
    /// The struct's name.
    StructIdent,
    /// The whole derive input.
    Input,
}

/// An error of the derive, with its message and location.
#[derive(Debug)]
pub struct MacroError {
    pub message: String,
    pub span: ErrorSpan,
    /// The index of the field the error belongs to, when it belongs to one.
    pub field: Option<usize>,
}

/// An error at `span` with message `msg`, belonging to no field yet.
pub fn error_at(msg: String, span: ErrorSpan) -> (e: MacroError)
    ensures
        e == (MacroError { message: msg, span: span, field: None }),
{
    MacroError { message: msg, span: span, field: None }
}

// ============================================================================
// Option keys
// ============================================================================

/// The options that `#[env(...)]` accepts.
#[derive(PartialEq, Eq, Structural, Clone, Copy)]
pub enum OptionKey {
    Var,
    Default,
    Optional,
    Secret,
    NoPrefix,
    Flatten,
    Prefix,
    Arg,
    Short,
    Format,
    Validate,
}

/// The option that `name` names, if any.
pub open spec fn spec_option_key(name: Seq<char>) -> Option<OptionKey> {
    if name == "var"@ {
        Some(OptionKey::Var)
    } else if name == "default"@ {
        Some(OptionKey::Default)
    } else if name == "optional"@ {
        Some(OptionKey::Optional)
    } else if name == "secret"@ {
        Some(OptionKey::Secret)
    } else if name == "no_prefix"@ {
        Some(OptionKey::NoPrefix)
    } else if name == "flatten"@ {
        Some(OptionKey::Flatten)
    } else if name == "prefix"@ {
        Some(OptionKey::Prefix)
    } else if name == "arg"@ {
        Some(OptionKey::Arg)
    } else if name == "short"@ {
        Some(OptionKey::Short)
    } else if name == "format"@ {
        Some(OptionKey::Format)
    } else if name == "validate"@ {
        Some(OptionKey::Validate)
    } else {
        None
    }
}

/// The spelling of an option.
pub open spec fn spec_key_name(k: OptionKey) -> Seq<char> {
    match k {
        OptionKey::Var => "var"@,
        OptionKey::Default => "default"@,
        OptionKey::Optional => "optional"@,
        OptionKey::Secret => "secret"@,
        OptionKey::NoPrefix => "no_prefix"@,
        OptionKey::Flatten => "flatten"@,
        OptionKey::Prefix => "prefix"@,
        OptionKey::Arg => "arg"@,
        OptionKey::Short => "short"@,
        OptionKey::Format => "format"@,
        OptionKey::Validate => "validate"@,
    }
}

/// The option that `name` names, if any.
pub fn option_key(name: &str) -> (r: Option<OptionKey>)
    ensures
        r == spec_option_key(name@),
{
    if str_eq(name, "var") {
        Some(OptionKey::Var)
    } else if str_eq(name, "default") {
        Some(OptionKey::Default)
    } else if str_eq(name, "optional") {
        Some(OptionKey::Optional)
    } else if str_eq(name, "secret") {
        Some(OptionKey::Secret)
    } else if str_eq(name, "no_prefix") {
        Some(OptionKey::NoPrefix)
    } else if str_eq(name, "flatten") {
        Some(OptionKey::Flatten)
    } else if str_eq(name, "prefix") {
        Some(OptionKey::Prefix)
    } else if str_eq(name, "arg") {
        Some(OptionKey::Arg)
    } else if str_eq(name, "short") {
        Some(OptionKey::Short)
    } else if str_eq(name, "format") {
        Some(OptionKey::Format)
    } else if str_eq(name, "validate") {
        Some(OptionKey::Validate)
    } else {
        None
    }
}

/// The spelling of an option.
pub fn key_name(k: OptionKey) -> (r: &'static str)
    ensures
        r@ == spec_key_name(k),
{
    match k {
        OptionKey::Var => "var",
        OptionKey::Default => "default",
        OptionKey::Optional => "optional",
        OptionKey::Secret => "secret",
        OptionKey::NoPrefix => "no_prefix",
        OptionKey::Flatten => "flatten",
        OptionKey::Prefix => "prefix",
        OptionKey::Arg => "arg",
        OptionKey::Short => "short",
        OptionKey::Format => "format",
        OptionKey::Validate => "validate",
    }
}

/// The set of options already seen in one attribute.
#[derive(PartialEq, Eq, Structural, Clone, Copy)]
pub struct SeenOptions {
    pub var: bool,
    pub default: bool,
    pub optional: bool,
    pub secret: bool,
    pub no_prefix: bool,
    pub flatten: bool,
    pub prefix: bool,
    pub arg: bool,
    pub short: bool,
    pub format: bool,
    pub validate: bool,
}

impl SeenOptions {
    /// No option seen.
    pub open spec fn spec_none() -> SeenOptions {
        SeenOptions {
            var: false,
            default: false,
            optional: false,
            secret: false,
            no_prefix: false,
            flatten: false,
            prefix: false,
            arg: false,
            short: false,
            format: false,
            validate: false,
        }
    }

    /// Whether `k` was seen.
    pub open spec fn has(self, k: OptionKey) -> bool {
        match k {
            OptionKey::Var => self.var,
            OptionKey::Default => self.default,
            OptionKey::Optional => self.optional,
            OptionKey::Secret => self.secret,
            OptionKey::NoPrefix => self.no_prefix,
            OptionKey::Flatten => self.flatten,
            OptionKey::Prefix => self.prefix,
            OptionKey::Arg => self.arg,
            OptionKey::Short => self.short,
            OptionKey::Format => self.format,
            OptionKey::Validate => self.validate,
        }
    }

    /// `self` with `k` added.
    pub open spec fn with(self, k: OptionKey) -> SeenOptions {
        match k {
            OptionKey::Var => SeenOptions { var: true, ..self },
            OptionKey::Default => SeenOptions { default: true, ..self },
            OptionKey::Optional => SeenOptions { optional: true, ..self },
            OptionKey::Secret => SeenOptions { secret: true, ..self },
            OptionKey::NoPrefix => SeenOptions { no_prefix: true, ..self },
            OptionKey::Flatten => SeenOptions { flatten: true, ..self },
            OptionKey::Prefix => SeenOptions { prefix: true, ..self },
            OptionKey::Arg => SeenOptions { arg: true, ..self },
            OptionKey::Short => SeenOptions { short: true, ..self },
            OptionKey::Format => SeenOptions { format: true, ..self },
            OptionKey::Validate => SeenOptions { validate: true, ..self },
        }
    }

    /// No option seen.
    pub fn none() -> (r: SeenOptions)
        ensures
            r == SeenOptions::spec_none(),
    {
        SeenOptions {
            var: false,
            default: false,
            optional: false,
            secret: false,
            no_prefix: false,
            flatten: false,
            prefix: false,
            arg: false,
            short: false,
            format: false,
            validate: false,
        }
    }

    /// Whether `k` was seen.
    pub fn contains(&self, k: OptionKey) -> (r: bool)
        ensures
            r == self.has(k),
    {
        match k {
            OptionKey::Var => self.var,
            OptionKey::Default => self.default,
            OptionKey::Optional => self.optional,
            OptionKey::Secret => self.secret,
            OptionKey::NoPrefix => self.no_prefix,
            OptionKey::Flatten => self.flatten,
            OptionKey::Prefix => self.prefix,
            OptionKey::Arg => self.arg,
            OptionKey::Short => self.short,
            OptionKey::Format => self.format,
            OptionKey::Validate => self.validate,
        }
    }

    /// Record `k` as seen.
    #[verifier::rlimit(40)]
    pub fn insert(&mut self, k: OptionKey)
        ensures
            *final(self) == old(self).with(k),
    {
        match k {
            OptionKey::Var => self.var = true,
            OptionKey::Default => self.default = true,
            OptionKey::Optional => self.optional = true,
            OptionKey::Secret => self.secret = true,
            OptionKey::NoPrefix => self.no_prefix = true,
            OptionKey::Flatten => self.flatten = true,
            OptionKey::Prefix => self.prefix = true,
            OptionKey::Arg => self.arg = true,
            OptionKey::Short => self.short = true,
            OptionKey::Format => self.format = true,
            OptionKey::Validate => self.validate = true,
        }
    }
}

// ============================================================================
// Parsed results
// ============================================================================

/// CLI argument configuration for a field (`arg = "port", short = 'p'`).
pub struct CliAttr {
    /// The long argument name (`"port"` for `--port`).
    pub long: Option<String>,
    /// The short flag (`'p'` for `-p`).
    pub short: Option<char>,
}

/// Profile-specific default values of a field (`#[profile(dev = "...")]`):
/// pairs of profile name and value, each profile name once, in the order
/// in which the names first appeared.
pub struct ProfileAttr {
    pub values: Vec<(String, String)>,
}

/// The parsed result of an `#[env(...)]` attribute on a regular field.
pub struct EnvAttr {
    /// The environment variable to read.
    pub var_name: String,
    /// Value used when the variable is not set.
    pub default: Option<String>,
    /// The field is `Option<T>` and becomes `None` when the variable is not set.
    pub optional: bool,
    /// The value is masked in `Debug` output and error messages.
    pub secret: bool,
    /// The struct-level prefix is not applied.
    pub no_prefix: bool,
    /// CLI argument configuration.
    pub cli: Option<CliAttr>,
    /// Profile-specific defaults, from a separate `#[profile(...)]`.
    pub profile: Option<ProfileAttr>,
    /// Deserialization format (`json`, `toml` or `yaml`).
    pub format: Option<String>,
    /// Custom validation function name.
    pub validate: Option<String>,
}

/// A regular field or a flattened nested configuration.
pub enum FieldConfig {
    Env(EnvAttr),
    Flatten {
        /// Prefix prepended to the nested fields' variable names.
        prefix: Option<String>,
    },
}

// ============================================================================
// Field-level attribute parser
// ============================================================================

/// Accumulates the options of one `#[env(...)]` attribute, then checks
/// their combination.
pub struct Parser {
    pub var_name: Option<String>,
    pub default: Option<String>,
    pub optional: bool,
    pub secret: bool,
    pub format: Option<String>,
    pub seen: SeenOptions,
    pub no_prefix: bool,
    pub flatten: bool,
    pub flatten_prefix: Option<String>,
    pub arg_long: Option<String>,
    pub arg_short: Option<char>,
    pub validate: Option<String>,
}

/// The error for a value that must be a string literal, if `v` is not one.
pub open spec fn string_value_error(v: MetaValue) -> Option<Seq<char>> {
    match v {
        MetaValue::Str(_) => None,
        MetaValue::Absent | MetaValue::Parenthesized => Some("expected `=`"@),
        _ => Some("expected string literal"@),
    }
}

/// The error for a value that must be a character literal, if `v` is not one.
pub open spec fn char_value_error(v: MetaValue) -> Option<Seq<char>> {
    match v {
        MetaValue::Char(_) => None,
        MetaValue::Absent | MetaValue::Parenthesized => Some("expected `=`"@),
        _ => Some("expected character literal"@),
    }
}

/// The error for a flag that is given a value.
pub open spec fn flag_value_error(v: MetaValue) -> Option<Seq<char>> {
    match v {
        MetaValue::Absent => None,
        _ => Some("expected `,`"@),
    }
}

/// Whether an option is a flag (takes no value).
pub open spec fn is_flag(k: OptionKey) -> bool {
    k == OptionKey::Optional || k == OptionKey::Secret || k == OptionKey::NoPrefix || k
        == OptionKey::Flatten
}

/// The error for the value given to option `k`, if it has the wrong shape.
pub open spec fn value_error(k: OptionKey, v: MetaValue) -> Option<Seq<char>> {
    if is_flag(k) {
        flag_value_error(v)
    } else if k == OptionKey::Short {
        char_value_error(v)
    } else {
        string_value_error(v)
    }
}

/// The supported deserialization formats.
pub open spec fn is_known_format(s: Seq<char>) -> bool {
    s == "json"@ || s == "toml"@ || s == "yaml"@
}

/// The message for an unsupported format.
pub open spec fn unknown_format_message(s: Seq<char>) -> Seq<char> {
    "Unknown format '"@ + s + "'. Supported: json, toml, yaml"@
}

/// The error that item `m` of an `#[env(...)]` attribute raises when the
/// parser is in state `p`, if any.
pub open spec fn meta_error(p: Parser, m: NestedMeta) -> Option<Seq<char>> {
    match m.ident {
        None => Some("Expected Identifier"@),
        Some(n) => match spec_option_key(n@) {
            None => Some("Unknown option `"@ + n@ + "`"@),
            Some(k) => if p.seen.has(k) {
                Some("Duplicate option: `"@ + spec_key_name(k) + "`"@)
            } else if value_error(k, m.value) is Some {
                value_error(k, m.value)
            } else if k == OptionKey::Format && !is_known_format(m.value->Str_0@) {
                Some(unknown_format_message(m.value->Str_0@))
            } else {
                None
            },
        },
    }
}

/// The parser state after accepting option `k` with value `v` in state `p`.
pub open spec fn applied(p: Parser, k: OptionKey, v: MetaValue) -> Parser {
    let q = Parser { seen: p.seen.with(k), ..p };
    match k {
        OptionKey::Var => Parser { var_name: Some(v->Str_0), ..q },
        OptionKey::Default => Parser { default: Some(v->Str_0), ..q },
        OptionKey::Optional => Parser { optional: true, ..q },
        OptionKey::Secret => Parser { secret: true, ..q },
        OptionKey::NoPrefix => Parser { no_prefix: true, ..q },
        OptionKey::Flatten => Parser { flatten: true, ..q },
        OptionKey::Prefix => Parser { flatten_prefix: Some(v->Str_0), ..q },
        OptionKey::Arg => Parser { arg_long: Some(v->Str_0), ..q },
        OptionKey::Short => Parser { arg_short: Some(v->Char_0), ..q },
        OptionKey::Format => Parser { format: Some(v->Str_0), ..q },
        OptionKey::Validate => Parser { validate: Some(v->Str_0), ..q },
    }
}

/// The option that item `m` names (meaningful when it names one).
pub open spec fn item_key(m: NestedMeta) -> OptionKey {
    spec_option_key(m.ident->0@)->0
}

/// The state of a parser that has seen nothing.
pub open spec fn empty_parser() -> Parser {
    Parser {
        var_name: None,
        default: None,
        optional: false,
        secret: false,
        format: None,
        seen: SeenOptions::spec_none(),
        no_prefix: false,
        flatten: false,
        flatten_prefix: None,
        arg_long: None,
        arg_short: None,
        validate: None,
    }
}

/// The string of a value that must be a string literal.
fn string_value(v: &MetaValue, attr: usize, item: usize) -> (r: Result<String, MacroError>)
    ensures
        r is Err <==> string_value_error(*v) is Some,
        r matches Ok(s) ==> *v == MetaValue::Str(s),
        r matches Err(e) ==> e.message@ == string_value_error(*v)->0 && e.span == (ErrorSpan::Item {
            attr,
            item,
        }) && e.field is None,
{
    match v {
        MetaValue::Str(s) => Ok(s.clone()),
        MetaValue::Absent | MetaValue::Parenthesized => Err(
            error_at(String::from_str("expected `=`"), ErrorSpan::Item { attr, item }),
        ),
        _ => Err(error_at(String::from_str("expected string literal"), ErrorSpan::Item { attr, item })),
    }
}

/// The character of a value that must be a character literal.
fn char_value(v: &MetaValue, attr: usize, item: usize) -> (r: Result<char, MacroError>)
    ensures
        r is Err <==> char_value_error(*v) is Some,
        r matches Ok(c) ==> *v == MetaValue::Char(c),
        r matches Err(e) ==> e.message@ == char_value_error(*v)->0 && e.span == (ErrorSpan::Item {
            attr,
            item,
        }) && e.field is None,
{
    match v {
        MetaValue::Char(c) => Ok(*c),
        MetaValue::Absent | MetaValue::Parenthesized => Err(
            error_at(String::from_str("expected `=`"), ErrorSpan::Item { attr, item }),
        ),
        _ => Err(
            error_at(String::from_str("expected character literal"), ErrorSpan::Item { attr, item }),
        ),
    }
}

/// Checks that a flag is given no value.
fn flag_value(v: &MetaValue, attr: usize, item: usize) -> (r: Result<(), MacroError>)
    ensures
        r is Err <==> flag_value_error(*v) is Some,
        r matches Err(e) ==> e.message@ == flag_value_error(*v)->0 && e.span == (ErrorSpan::Item {
            attr,
            item,
        }) && e.field is None,
{
    match v {
        MetaValue::Absent => Ok(()),
        _ => Err(error_at(String::from_str("expected `,`"), ErrorSpan::Item { attr, item })),
    }
}

impl Parser {
    /// A parser that has seen nothing.
    pub fn new() -> (r: Parser)
        ensures
            r == empty_parser(),
    {
        Parser {
            var_name: None,
            default: None,
            optional: false,
            secret: false,
            format: None,
            seen: SeenOptions::none(),
            no_prefix: false,
            flatten: false,
            flatten_prefix: None,
            arg_long: None,
            arg_short: None,
            validate: None,
        }
    }

    /// Accept one item (`item` of attribute `attr`) of an `#[env(...)]`
    /// attribute: reject an unknown or repeated option or a value of the
    /// wrong shape, else record the option.
    #[verifier::rlimit(60)]
    #[verifier::spinoff_prover]
    pub fn parse_meta(&mut self, meta: &NestedMeta, attr: usize, item: usize) -> (r: Result<
        (),
        MacroError,
    >)
        ensures
            r is Err <==> meta_error(*old(self), *meta) is Some,
            r matches Err(e) ==> e.message@ == meta_error(*old(self), *meta)->0 && e.span
                == (ErrorSpan::Item { attr, item }) && e.field is None,
            r is Err ==> *final(self) == *old(self),
            r is Ok ==> *final(self) == applied(*old(self), item_key(*meta), meta.value),
    {
        let name = match &meta.ident {
            Some(n) => n,
            None => {
                return Err(
                    error_at(String::from_str("Expected Identifier"), ErrorSpan::Item { attr, item }),
                );
            },
        };
        let key = match option_key(name.as_str()) {
            Some(k) => k,
            None => {
                return Err(
                    error_at(
                        cat3("Unknown option `", name.as_str(), "`"),
                        ErrorSpan::Item { attr, item },
                    ),
                );
            },
        };
        if self.seen.contains(key) {
            return Err(
                error_at(
                    cat3("Duplicate option: `", key_name(key), "`"),
                    ErrorSpan::Item { attr, item },
                ),
            );
        }
        match key {
            OptionKey::Optional | OptionKey::Secret | OptionKey::NoPrefix | OptionKey::Flatten => {
                flag_value(&meta.value, attr, item)?;
                self.seen.insert(key);
                match key {
                    OptionKey::Optional => self.optional = true,
                    OptionKey::Secret => self.secret = true,
                    OptionKey::NoPrefix => self.no_prefix = true,
                    _ => self.flatten = true,
                }
            },
            OptionKey::Short => {
                let c = char_value(&meta.value, attr, item)?;
                self.seen.insert(key);
                self.arg_short = Some(c);
            },
            _ => {
                let s = string_value(&meta.value, attr, item)?;
                if key == OptionKey::Format {
                    if !(str_eq(s.as_str(), "json") || str_eq(s.as_str(), "toml") || str_eq(
                        s.as_str(),
                        "yaml",
                    )) {
                        return Err(
                            error_at(
                                cat3(
                                    "Unknown format '",
                                    s.as_str(),
                                    "'. Supported: json, toml, yaml",
                                ),
                                ErrorSpan::Item { attr, item },
                            ),
                        );
                    }
                }
                self.seen.insert(key);
                match key {
                    OptionKey::Var => self.var_name = Some(s),
                    OptionKey::Default => self.default = Some(s),
                    OptionKey::Prefix => self.flatten_prefix = Some(s),
                    OptionKey::Arg => self.arg_long = Some(s),
                    OptionKey::Format => self.format = Some(s),
                    _ => self.validate = Some(s),
                }
            },
        }
        Ok(())
    }
}


/// The error of `build` for state `p`, if any.
pub open spec fn build_error(p: Parser) -> Option<Seq<char>> {
    if p.var_name is None {
        Some("Missing required `var` option"@)
    } else if p.default is Some && p.optional {
        Some("Cannot use both `default` and `optional` on the same field"@)
    } else if p.arg_short is Some && p.arg_long is None {
        Some("`short` requires `arg` to be set"@)
    } else {
        None
    }
}

/// The attribute `build` makes of state `p` (when `build_error(p)` is `None`).
pub open spec fn built(p: Parser) -> EnvAttr {
    EnvAttr {
        var_name: p.var_name->0,
        default: p.default,
        optional: p.optional,
        secret: p.secret,
        no_prefix: p.no_prefix,
        cli: match p.arg_long {
            Some(l) => Some(CliAttr { long: Some(l), short: p.arg_short }),
            None => None,
        },
        profile: None,
        format: p.format,
        validate: p.validate,
    }
}

/// The options of state `p` that cannot stand beside `flatten`, in the
/// order in which the error lists them.
pub open spec fn flatten_conflicts(p: Parser) -> Seq<Seq<char>> {
    let s0 = Seq::<Seq<char>>::empty();
    let s1 = if p.var_name is Some { s0.push("var"@) } else { s0 };
    let s2 = if p.default is Some { s1.push("default"@) } else { s1 };
    let s3 = if p.optional { s2.push("optional"@) } else { s2 };
    let s4 = if p.secret { s3.push("secret"@) } else { s3 };
    let s5 = if p.no_prefix { s4.push("no_prefix"@) } else { s4 };
    let s6 = if p.arg_long is Some || p.arg_short is Some { s5.push("arg/short"@) } else { s5 };
    let s7 = if p.format is Some { s6.push("format"@) } else { s6 };
    if p.validate is Some { s7.push("validate"@) } else { s7 }
}

/// The error of `build_config` for state `p`, if any.
pub open spec fn config_error(p: Parser) -> Option<Seq<char>> {
    if p.flatten {
        if flatten_conflicts(p).len() > 0 {
            Some("Cannot use `"@ + join(flatten_conflicts(p), "`, `"@) + "` with `flatten`"@)
        } else {
            None
        }
    } else if p.flatten_prefix is Some {
        Some("`prefix` can only be used with `flatten`"@)
    } else {
        build_error(p)
    }
}

/// The configuration `build_config` makes of state `p` (when
/// `config_error(p)` is `None`).
pub open spec fn configured(p: Parser) -> FieldConfig {
    if p.flatten {
        FieldConfig::Flatten { prefix: p.flatten_prefix }
    } else {
        FieldConfig::Env(built(p))
    }
}


impl Parser {
    /// Check the accumulated options of attribute `attr` and build the
    /// attribute of a regular field: `var` is required, `default` and
    /// `optional` exclude each other, `short` needs `arg`.
    pub fn build(self, attr: usize) -> (r: Result<EnvAttr, MacroError>)
        ensures
            r is Err <==> build_error(self) is Some,
            r matches Err(e) ==> e.message@ == build_error(self)->0 && e.span == (ErrorSpan::Attr {
                attr,
            }) && e.field is None,
            r matches Ok(a) ==> a == built(self),
    {
        let var_name = match self.var_name {
            Some(v) => v,
            None => {
                return Err(
                    error_at(
                        String::from_str("Missing required `var` option"),
                        ErrorSpan::Attr { attr },
                    ),
                );
            },
        };
        if self.default.is_some() && self.optional {
            return Err(
                error_at(
                    String::from_str("Cannot use both `default` and `optional` on the same field"),
                    ErrorSpan::Attr { attr },
                ),
            );
        }
        if self.arg_short.is_some() && self.arg_long.is_none() {
            return Err(
                error_at(
                    String::from_str("`short` requires `arg` to be set"),
                    ErrorSpan::Attr { attr },
                ),
            );
        }
        let cli = match self.arg_long {
            Some(long) => Some(CliAttr { long: Some(long), short: self.arg_short }),
            None => None,
        };
        Ok(
            EnvAttr {
                var_name,
                default: self.default,
                optional: self.optional,
                secret: self.secret,
                no_prefix: self.no_prefix,
                cli,
                profile: None,
                format: self.format,
                validate: self.validate,
            },
        )
    }

    /// Build a flattened or regular field configuration from the options of
    /// attribute `attr`. With `flatten`, every other option but `prefix` is
    /// reported, all together; without it, `prefix` is refused.
    #[verifier::rlimit(60)]
    #[verifier::spinoff_prover]
    pub fn build_config(self, attr: usize) -> (r: Result<FieldConfig, MacroError>)
        ensures
            r is Err <==> config_error(self) is Some,
            r matches Err(e) ==> e.message@ == config_error(self)->0 && e.span == (ErrorSpan::Attr {
                attr,
            }) && e.field is None,
            r matches Ok(c) ==> c == configured(self),
    {
        if self.flatten {
            let mut names: Vec<String> = Vec::new();
            if self.var_name.is_some() {
                push_owned(&mut names, "var");
            }
            if self.default.is_some() {
                push_owned(&mut names, "default");
            }
            if self.optional {
                push_owned(&mut names, "optional");
            }
            if self.secret {
                push_owned(&mut names, "secret");
            }
            if self.no_prefix {
                push_owned(&mut names, "no_prefix");
            }
            if self.arg_long.is_some() || self.arg_short.is_some() {
                push_owned(&mut names, "arg/short");
            }
            if self.format.is_some() {
                push_owned(&mut names, "format");
            }
            if self.validate.is_some() {
                push_owned(&mut names, "validate");
            }
            assert(views(names@) == flatten_conflicts(self));
            if names.len() > 0 {
                let listed = join_strings(&names, "`, `");
                return Err(
                    error_at(cat3("Cannot use `", listed.as_str(), "` with `flatten`"), ErrorSpan::Attr { attr }),
                );
            }
            return Ok(FieldConfig::Flatten { prefix: self.flatten_prefix });
        }
        if self.flatten_prefix.is_some() {
            return Err(
                error_at(
                    String::from_str("`prefix` can only be used with `flatten`"),
                    ErrorSpan::Attr { attr },
                ),
            );
        }
        let e = self.build(attr)?;
        Ok(FieldConfig::Env(e))
    }
}


// ============================================================================
// Whole attributes
// ============================================================================

/// An error as the specifications state it: message and location.
pub type ErrorSpec = (Seq<char>, ErrorSpan);

/// `e` is the error `s`, not yet attributed to a field.
pub open spec fn is_error(e: MacroError, s: ErrorSpec) -> bool {
    e.message@ == s.0 && e.span == s.1 && e.field is None
}

/// Attribute `a` has the single-identifier path `name`.
pub open spec fn is_named(a: AttrModel, name: Seq<char>) -> bool {
    a.ident matches Some(n) && n@ == name
}

/// The index of the first attribute named `name`.
pub open spec fn first_named(attrs: Seq<AttrModel>, name: Seq<char>) -> Option<int> {
    first_index(attrs, |a: AttrModel| is_named(a, name))
}

/// The parser state after the items of attribute `attr`, read left to
/// right, or the first error.
pub open spec fn fold_items(items: Seq<NestedMeta>, attr: usize) -> Result<Parser, ErrorSpec>
    decreases items.len(),
{
    if items.len() == 0 {
        Ok(empty_parser())
    } else {
        match fold_items(items.drop_last(), attr) {
            Err(e) => Err(e),
            Ok(p) => match meta_error(p, items.last()) {
                Some(m) => Err((m, ErrorSpan::Item { attr, item: (items.len() - 1) as usize })),
                None => Ok(applied(p, item_key(items.last()), items.last().value)),
            },
        }
    }
}

/// The configuration that `#[env(...)]` attribute `a`, the `attr`-th of
/// its field, gives, or its error.
pub open spec fn env_attr_result(a: AttrModel, attr: usize) -> Result<FieldConfig, ErrorSpec> {
    match fold_items(a.items@, attr) {
        Err(e) => Err(e),
        Ok(p) => if a.syntax_error is Some {
            Err((a.syntax_error->0@, ErrorSpan::Syntax { attr }))
        } else if config_error(p) is Some {
            Err((config_error(p)->0, ErrorSpan::Attr { attr }))
        } else {
            Ok(configured(p))
        },
    }
}

/// Finds the first attribute of `attrs` named `name`.
pub fn find_attr(attrs: &Vec<AttrModel>, name: &str) -> (r: Option<usize>)
    ensures
        r matches Some(i) ==> first_named(attrs@, name@) == Some(i as int),
        r is None ==> first_named(attrs@, name@) is None,
{
    let ghost p = |a: AttrModel| is_named(a, name@);
    let mut i: usize = 0;
    while i < attrs.len()
        invariant
            i <= attrs.len(),
            p == (|a: AttrModel| is_named(a, name@)),
            forall|j: int| 0 <= j < i ==> !p(#[trigger] attrs@[j]),
        decreases attrs.len() - i,
    {
        let hit = match &attrs[i].ident {
            Some(n) => str_eq(n.as_str(), name),
            None => false,
        };
        if hit {
            proof {
                lemma_first_index(attrs@, p, i as int);
            }
            return Some(i);
        }
        i = i + 1;
    }
    proof {
        lemma_first_index(attrs@, p, i as int);
    }
    None
}

/// An error among the first `k` items is the error of them all.
pub proof fn lemma_fold_items_prefix(items: Seq<NestedMeta>, attr: usize, k: int)
    requires
        0 <= k <= items.len(),
        fold_items(items.take(k), attr) is Err,
    ensures
        fold_items(items, attr) == fold_items(items.take(k), attr),
    decreases items.len(),
{
    if k < items.len() {
        assert(items.drop_last().take(k) =~= items.take(k));
        lemma_fold_items_prefix(items.drop_last(), attr, k);
    } else {
        assert(items.take(k) =~= items);
    }
}

/// An error among the first `k` items is the error of them all.
pub proof fn lemma_fold_profile_prefix(items: Seq<NestedMeta>, attr: usize, k: int)
    requires
        0 <= k <= items.len(),
        fold_profile(items.take(k), attr) is Err,
    ensures
        fold_profile(items, attr) == fold_profile(items.take(k), attr),
    decreases items.len(),
{
    if k < items.len() {
        assert(items.drop_last().take(k) =~= items.take(k));
        lemma_fold_profile_prefix(items.drop_last(), attr, k);
    } else {
        assert(items.take(k) =~= items);
    }
}

/// Reads the items of `#[env(...)]` attribute `attr` into a parser.
pub fn parse_env_items(items: &Vec<NestedMeta>, attr: usize) -> (r: Result<Parser, MacroError>)
    ensures
        r is Err <==> fold_items(items@, attr) is Err,
        r matches Err(e) ==> is_error(e, fold_items(items@, attr)->Err_0),
        r matches Ok(p) ==> fold_items(items@, attr) == Ok::<Parser, ErrorSpec>(p),
{
    let mut parser = Parser::new();
    let mut j: usize = 0;
    while j < items.len()
        invariant
            j <= items.len(),
            fold_items(items@.take(j as int), attr) == Ok::<Parser, ErrorSpec>(parser),
        decreases items.len() - j,
    {
        assert(items@.take(j + 1).drop_last() =~= items@.take(j as int));
        assert(items@.take(j + 1).last() == items@[j as int]);
        match parser.parse_meta(&items[j], attr, j) {
            Ok(()) => {},
            Err(e) => {
                proof {
                    lemma_fold_items_prefix(items@, attr, j + 1);
                }
                return Err(e);
            },
        }
        j = j + 1;
    }
    assert(items@.take(items.len() as int) =~= items@);
    Ok(parser)
}

/// Parses `#[env(...)]` attribute `a`, the `attr`-th of its field.
pub fn parse_env_attr(a: &AttrModel, attr: usize) -> (r: Result<FieldConfig, MacroError>)
    ensures
        r is Err <==> env_attr_result(*a, attr) is Err,
        r matches Err(e) ==> is_error(e, env_attr_result(*a, attr)->Err_0),
        r matches Ok(c) ==> env_attr_result(*a, attr) == Ok::<FieldConfig, ErrorSpec>(c),
{
    let parser = parse_env_items(&a.items, attr)?;
    if let Some(msg) = &a.syntax_error {
        return Err(error_at(msg.clone(), ErrorSpan::Syntax { attr }));
    }
    parser.build_config(attr)
}

// ============================================================================
// #[profile(...)]
// ============================================================================

/// The entry for profile name `k`.
pub open spec fn key_is(k: Seq<char>) -> spec_fn((String, String)) -> bool {
    |e: (String, String)| e.0@ == k
}

/// `values` with `k` mapped to `v`: an existing entry for `k` keeps its
/// place and takes the new value, else the pair is appended.
pub open spec fn insert_entry(values: Seq<(String, String)>, k: String, v: String) -> Seq<
    (String, String),
> {
    match first_index(values, key_is(k@)) {
        Some(i) => values.update(i, (values[i].0, v)),
        None => values.push((k, v)),
    }
}

/// No profile name occurs twice.
pub open spec fn distinct_keys(values: Seq<(String, String)>) -> bool {
    forall|i: int, j: int| 0 <= i < j < values.len() ==> values[i].0@ != values[j].0@
}

/// The profile values of the items of attribute `attr`, or the first error.
pub open spec fn fold_profile(items: Seq<NestedMeta>, attr: usize) -> Result<
    Seq<(String, String)>,
    ErrorSpec,
>
    decreases items.len(),
{
    if items.len() == 0 {
        Ok(Seq::empty())
    } else {
        match fold_profile(items.drop_last(), attr) {
            Err(e) => Err(e),
            Ok(vals) => {
                let m = items.last();
                let at = ErrorSpan::Item { attr, item: (items.len() - 1) as usize };
                match m.ident {
                    None => Err(("Expected profile name identifier"@, at)),
                    Some(n) => match string_value_error(m.value) {
                        Some(msg) => Err((msg, at)),
                        None => Ok(insert_entry(vals, n, m.value->Str_0)),
                    },
                }
            },
        }
    }
}

/// The values that `#[profile(...)]` attribute `a`, the `attr`-th of its
/// field, gives, or its error.
pub open spec fn profile_attr_result(a: AttrModel, attr: usize) -> Result<
    Seq<(String, String)>,
    ErrorSpec,
> {
    match fold_profile(a.items@, attr) {
        Err(e) => Err(e),
        Ok(vals) => if a.syntax_error is Some {
            Err((a.syntax_error->0@, ErrorSpan::Syntax { attr }))
        } else if vals.len() == 0 {
            Err(("#[profile(...)] requires at least one profile value"@, ErrorSpan::Attr { attr }))
        } else {
            Ok(vals)
        },
    }
}

/// The profile values of a field with attributes `attrs`: those of its
/// first `#[profile(...)]`, none without one, or that attribute's error.
pub open spec fn spec_profile(attrs: Seq<AttrModel>) -> Result<
    Option<Seq<(String, String)>>,
    ErrorSpec,
> {
    match first_named(attrs, "profile"@) {
        None => Ok(None),
        Some(i) => match profile_attr_result(attrs[i], i as usize) {
            Err(e) => Err(e),
            Ok(vals) => Ok(Some(vals)),
        },
    }
}

/// `o` holds the profile values `s`.
pub open spec fn profile_is(o: Option<ProfileAttr>, s: Option<Seq<(String, String)>>) -> bool {
    match o {
        None => s is None,
        Some(p) => s matches Some(v) && p.values@ == v,
    }
}

/// Inserting into a table without repeated names leaves none.
pub proof fn lemma_insert_distinct(values: Seq<(String, String)>, k: String, v: String)
    requires
        distinct_keys(values),
    ensures
        distinct_keys(insert_entry(values, k, v)),
        insert_entry(values, k, v).len() > 0,
{
    lemma_first_index_found(values, key_is(k@));
    let r = insert_entry(values, k, v);
    match first_index(values, key_is(k@)) {
        Some(i) => {
            assert forall|a: int, b: int| 0 <= a < b < r.len() implies r[a].0@ != r[b].0@ by {
                assert(r[a].0 == values[a].0);
                assert(r[b].0 == values[b].0);
            }
        },
        None => {
            assert forall|a: int, b: int| 0 <= a < b < r.len() implies r[a].0@ != r[b].0@ by {
                if b == values.len() {
                    assert(!key_is(k@)(values[a]));
                }
            }
        },
    }
}

/// Maps profile name `k` to `v` in `values`.
pub fn insert_profile_value(values: &mut Vec<(String, String)>, k: String, v: String)
    ensures
        final(values)@ == insert_entry(old(values)@, k, v),
{
    let ghost p = key_is(k@);
    let mut i: usize = 0;
    while i < values.len()
        invariant
            i <= values.len(),
            values@ == old(values)@,
            p == key_is(k@),
            forall|j: int| 0 <= j < i ==> !p(#[trigger] values@[j]),
        decreases values.len() - i,
    {
        if values[i].0 == k {
            proof {
                lemma_first_index(values@, p, i as int);
            }
            let key = values[i].0.clone();
            values.set(i, (key, v));
            return;
        }
        i = i + 1;
    }
    proof {
        lemma_first_index(values@, p, i as int);
    }
    values.push((k, v));
}

/// Reads the items of `#[profile(...)]` attribute `attr`.
fn parse_profile_items(items: &Vec<NestedMeta>, attr: usize) -> (r: Result<
    Vec<(String, String)>,
    MacroError,
>)
    ensures
        r is Err <==> fold_profile(items@, attr) is Err,
        r matches Err(e) ==> is_error(e, fold_profile(items@, attr)->Err_0),
        r matches Ok(v) ==> fold_profile(items@, attr) == Ok::<Seq<(String, String)>, ErrorSpec>(
            v@,
        ),
{
    let mut values: Vec<(String, String)> = Vec::new();
    let mut j: usize = 0;
    while j < items.len()
        invariant
            j <= items.len(),
            fold_profile(items@.take(j as int), attr) == Ok::<Seq<(String, String)>, ErrorSpec>(
                values@,
            ),
        decreases items.len() - j,
    {
        assert(items@.take(j + 1).drop_last() =~= items@.take(j as int));
        assert(items@.take(j + 1).last() == items@[j as int]);
        let m = &items[j];
        let name = match &m.ident {
            Some(n) => n.clone(),
            None => {
                proof {
                    lemma_fold_profile_prefix(items@, attr, j + 1);
                }
                return Err(
                    error_at(
                        String::from_str("Expected profile name identifier"),
                        ErrorSpan::Item { attr, item: j },
                    ),
                );
            },
        };
        let val = match string_value(&m.value, attr, j) {
            Ok(v) => v,
            Err(e) => {
                proof {
                    lemma_fold_profile_prefix(items@, attr, j + 1);
                }
                return Err(e);
            },
        };
        insert_profile_value(&mut values, name, val);
        j = j + 1;
    }
    assert(items@.take(items.len() as int) =~= items@);
    Ok(values)
}

impl Parser {
    /// The `#[profile(...)]` attribute of a field: profile name to value,
    /// each name once; `None` when the field has no such attribute. An
    /// item without an identifier or string value is refused, and so is an
    /// attribute that names no profile.
    pub fn parse_profile_attr(field: &FieldModel) -> (r: Result<Option<ProfileAttr>, MacroError>)
        ensures
            r is Err <==> spec_profile(field.attrs@) is Err,
            r matches Err(e) ==> is_error(e, spec_profile(field.attrs@)->Err_0),
            r matches Ok(o) ==> profile_is(o, spec_profile(field.attrs@)->Ok_0),
    {
        let i = match find_attr(&field.attrs, "profile") {
            Some(i) => i,
            None => return Ok(None),
        };
        proof {
            lemma_first_index_found(field.attrs@, |a: AttrModel| is_named(a, "profile"@));
        }
        let a = &field.attrs[i];
        let values = parse_profile_items(&a.items, i)?;
        if let Some(msg) = &a.syntax_error {
            return Err(error_at(msg.clone(), ErrorSpan::Syntax { attr: i }));
        }
        if values.len() == 0 {
            return Err(
                error_at(
                    String::from_str("#[profile(...)] requires at least one profile value"),
                    ErrorSpan::Attr { attr: i },
                ),
            );
        }
        Ok(Some(ProfileAttr { values }))
    }
}

/// Profile values read from items never repeat a profile name.
pub proof fn lemma_profile_distinct(items: Seq<NestedMeta>, attr: usize)
    ensures
        fold_profile(items, attr) matches Ok(v) ==> distinct_keys(v),
    decreases items.len(),
{
    if items.len() > 0 {
        lemma_profile_distinct(items.drop_last(), attr);
        if let Ok(vals) = fold_profile(items.drop_last(), attr) {
            let m = items.last();
            if m.ident is Some && string_value_error(m.value) is None {
                lemma_insert_distinct(vals, m.ident->0, m.value->Str_0);
            }
        }
    }
}


// ============================================================================
// Field-level entry points
// ============================================================================

/// The message for a field without `#[env(...)]`.
pub open spec fn missing_env_message(ident: Option<String>) -> Seq<char> {
    "Field `"@ + (match ident {
        Some(n) => n@,
        None => "unnamed"@,
    }) + "` is missing #[env(...)] attribute"@
}

/// The configuration of field `f` (without its profile values), or its error.
pub open spec fn field_config_result(f: FieldModel) -> Result<FieldConfig, ErrorSpec> {
    match first_named(f.attrs@, "env"@) {
        None => Err((missing_env_message(f.ident), ErrorSpan::Field)),
        Some(i) => match env_attr_result(f.attrs@[i], i as usize) {
            Err(e) => Err(e),
            Ok(FieldConfig::Flatten { prefix }) => Ok(FieldConfig::Flatten { prefix }),
            Ok(FieldConfig::Env(a)) => match spec_profile(f.attrs@) {
                Err(e) => Err(e),
                Ok(_) => Ok(FieldConfig::Env(a)),
            },
        },
    }
}

/// `b` is `a` with profile values `prof`.
pub open spec fn env_attr_with_profile(
    b: EnvAttr,
    a: EnvAttr,
    prof: Option<Seq<(String, String)>>,
) -> bool {
    &&& b.var_name == a.var_name
    &&& b.default == a.default
    &&& b.optional == a.optional
    &&& b.secret == a.secret
    &&& b.no_prefix == a.no_prefix
    &&& b.cli == a.cli
    &&& b.format == a.format
    &&& b.validate == a.validate
    &&& profile_is(b.profile, prof)
}

/// `c` is the configuration `s` with the field's profile values `prof`.
pub open spec fn config_is(c: FieldConfig, s: FieldConfig, prof: Option<Seq<(String, String)>>) -> bool {
    match s {
        FieldConfig::Flatten { prefix } => c == FieldConfig::Flatten { prefix },
        FieldConfig::Env(a) => c matches FieldConfig::Env(b) && env_attr_with_profile(b, a, prof),
    }
}

impl Parser {
    /// The configuration of a field: from its first `#[env(...)]`, with the
    /// values of its `#[profile(...)]` for a regular field. A field without
    /// `#[env(...)]` is refused.
    pub fn parse_field_config(field: &FieldModel) -> (r: Result<FieldConfig, MacroError>)
        ensures
            r is Err <==> field_config_result(*field) is Err,
            r matches Err(e) ==> is_error(e, field_config_result(*field)->Err_0),
            r matches Ok(c) ==> config_is(
                c,
                field_config_result(*field)->Ok_0,
                spec_profile(field.attrs@)->Ok_0,
            ),
    {
        let i = match find_attr(&field.attrs, "env") {
            Some(i) => i,
            None => {
                let name = match &field.ident {
                    Some(n) => n.clone(),
                    None => String::from_str("unnamed"),
                };
                return Err(
                    error_at(
                        cat3("Field `", name.as_str(), "` is missing #[env(...)] attribute"),
                        ErrorSpan::Field,
                    ),
                );
            },
        };
        proof {
            lemma_first_index_found(field.attrs@, |a: AttrModel| is_named(a, "env"@));
        }
        let config = parse_env_attr(&field.attrs[i], i)?;
        match config {
            FieldConfig::Env(env_attr) => {
                let profile = Self::parse_profile_attr(field)?;
                Ok(
                    FieldConfig::Env(
                        EnvAttr {
                            var_name: env_attr.var_name,
                            default: env_attr.default,
                            optional: env_attr.optional,
                            secret: env_attr.secret,
                            no_prefix: env_attr.no_prefix,
                            cli: env_attr.cli,
                            profile,
                            format: env_attr.format,
                            validate: env_attr.validate,
                        },
                    ),
                )
            },
            other => Ok(other),
        }
    }
}

// ============================================================================
// Doc comments
// ============================================================================

/// Attribute `a` is a doc comment (`#[doc = "..."]`).
pub open spec fn is_doc(a: AttrModel) -> bool {
    is_named(a, "doc"@) && a.doc is Some
}

/// The doc comment lines of `attrs`, each trimmed, joined with single spaces.
pub open spec fn doc_text(attrs: Seq<AttrModel>) -> Seq<char>
    decreases attrs.len(),
{
    if attrs.len() == 0 {
        Seq::empty()
    } else {
        let r = doc_text(attrs.drop_last());
        let a = attrs.last();
        if is_doc(a) {
            if r.len() == 0 {
                trim(a.doc->0@)
            } else {
                r + " "@ + trim(a.doc->0@)
            }
        } else {
            r
        }
    }
}

/// The trimmed texts of the doc comments among `attrs`, in order.
pub open spec fn doc_lines(attrs: Seq<AttrModel>) -> Seq<Seq<char>>
    decreases attrs.len(),
{
    if attrs.len() == 0 {
        Seq::empty()
    } else if is_doc(attrs.last()) {
        doc_lines(attrs.drop_last()).push(trim(attrs.last().doc->0@))
    } else {
        doc_lines(attrs.drop_last())
    }
}

/// The lines `ls` joined with single spaces.
pub open spec fn join_lines(ls: Seq<Seq<char>>) -> Seq<char>
    decreases ls.len(),
{
    if ls.len() == 0 {
        Seq::empty()
    } else if ls.len() == 1 {
        ls[0]
    } else {
        join_lines(ls.drop_last()) + " "@ + ls.last()
    }
}

/// Joins the lines `ls` the way `doc_text` does: a line is added after a
/// space once the text is not empty.
pub open spec fn gather_lines(ls: Seq<Seq<char>>) -> Seq<char>
    decreases ls.len(),
{
    if ls.len() == 0 {
        Seq::empty()
    } else {
        let r = gather_lines(ls.drop_last());
        if r.len() == 0 {
            ls.last()
        } else {
            r + " "@ + ls.last()
        }
    }
}

/// `doc_text` gathers the trimmed doc lines.
proof fn lemma_doc_text_gathers(attrs: Seq<AttrModel>)
    ensures
        doc_text(attrs) == gather_lines(doc_lines(attrs)),
    decreases attrs.len(),
{
    if attrs.len() > 0 {
        lemma_doc_text_gathers(attrs.drop_last());
        if is_doc(attrs.last()) {
            let ls = doc_lines(attrs);
            assert(ls.drop_last() =~= doc_lines(attrs.drop_last()));
        }
    }
}

/// Gathered lines are empty exactly when every line is, and otherwise are
/// the lines from the first non-empty one on, joined with spaces.
proof fn lemma_gather_lines(ls: Seq<Seq<char>>, k: int)
    ensures
        gather_lines(ls).len() == 0 <==> forall|i: int| 0 <= i < ls.len() ==> #[trigger] ls[i].len()
            == 0,
        (0 <= k < ls.len() && ls[k].len() > 0 && forall|i: int| 0 <= i < k ==> #[trigger] ls[i].len()
            == 0) ==> gather_lines(ls) == join_lines(ls.skip(k)),
    decreases ls.len(),
{
    if ls.len() > 0 {
        let d = ls.drop_last();
        let m = ls.len() - 1;
        lemma_gather_lines(d, k);
        assert forall|i: int| 0 <= i < d.len() implies d[i] == ls[i] by {}
        if gather_lines(d).len() == 0 {
            assert(forall|i: int| 0 <= i < d.len() ==> #[trigger] ls[i].len() == 0 ==> d[i].len() == 0);
        } else {
            assert(!(forall|i: int| 0 <= i < d.len() ==> #[trigger] d[i].len() == 0));
            let w = choose|i: int| 0 <= i < d.len() && #[trigger] d[i].len() != 0;
            assert(ls[w].len() != 0);
        }
        if 0 <= k < ls.len() && ls[k].len() > 0 && forall|i: int| 0 <= i < k ==> #[trigger] ls[i].len()
            == 0 {
            if k == m {
                assert forall|i: int| 0 <= i < d.len() implies #[trigger] d[i].len() == 0 by {
                    assert(ls[i].len() == 0);
                }
                assert(ls.skip(k) =~= seq![ls[m]]);
            } else {
                assert forall|i: int| 0 <= i < k implies #[trigger] d[i].len() == 0 by {
                    assert(ls[i].len() == 0);
                }
                assert(d[k].len() > 0);
                assert(ls.skip(k).drop_last() =~= d.skip(k));
                assert(ls.skip(k).last() == ls.last());
            }
        }
    }
}

/// A field's doc comment is absent exactly when every doc line is empty
/// once trimmed; otherwise it is the trimmed lines from the first non-empty
/// one on, joined with single spaces.
pub proof fn law_doc_comment_joins_from_first_line(attrs: Seq<AttrModel>, k: int)
    ensures
        doc_text(attrs).len() == 0 <==> forall|i: int| 0 <= i < doc_lines(attrs).len()
            ==> #[trigger] doc_lines(attrs)[i].len() == 0,
        (0 <= k < doc_lines(attrs).len() && doc_lines(attrs)[k].len() > 0 && forall|i: int|
            0 <= i < k ==> #[trigger] doc_lines(attrs)[i].len() == 0) ==> doc_text(attrs)
            == join_lines(doc_lines(attrs).skip(k)),
{
    lemma_doc_text_gathers(attrs);
    lemma_gather_lines(doc_lines(attrs), k);
}

/// The doc comment of a field: its doc lines, each trimmed, joined with
/// single spaces; `None` when that text is empty.
pub fn extract_doc_comment(field: &FieldModel) -> (r: Option<String>)
    ensures
        r is None <==> doc_text(field.attrs@).len() == 0,
        r matches Some(s) ==> s@ == doc_text(field.attrs@),
{
    let mut result = String::new();
    let mut i: usize = 0;
    while i < field.attrs.len()
        invariant
            i <= field.attrs.len(),
            result@ == doc_text(field.attrs@.take(i as int)),
        decreases field.attrs.len() - i,
    {
        assert(field.attrs@.take(i + 1).drop_last() =~= field.attrs@.take(i as int));
        assert(field.attrs@.take(i + 1).last() == field.attrs@[i as int]);
        let a = &field.attrs[i];
        let is_doc_attr = match &a.ident {
            Some(n) => str_eq(n.as_str(), "doc"),
            None => false,
        };
        if is_doc_attr {
            if let Some(d) = &a.doc {
                if result.unicode_len() != 0 {
                    result.append(" ");
                }
                let t = trim_str(d.as_str());
                result.append(t.as_str());
            }
        }
        i = i + 1;
    }
    assert(field.attrs@.take(field.attrs.len() as int) =~= field.attrs@);
    if result.unicode_len() == 0 {
        None
    } else {
        Some(result)
    }
}


// ============================================================================
// Struct-level attribute (#[env_config(...)])
// ============================================================================

/// How `.env` files are loaded.
pub enum DotenvConfig {
    /// The default `.env` search (`dotenv`).
    Default,
    /// One file (`dotenv = ".env.local"`).
    Custom(String),
    /// Several files, in order (`dotenv = [".env", ".env.local"]`).
    Multiple(Vec<String>),
}

/// A configuration file source.
pub struct FileConfig {
    /// Path of the file.
    pub path: String,
    /// A missing required file is an error; a missing optional one is not.
    pub required: bool,
}

impl FileConfig {
    /// A required file.
    pub fn required(path: String) -> (r: FileConfig)
        ensures
            r == (FileConfig { path, required: true }),
    {
        FileConfig { path, required: true }
    }

    /// An optional file.
    pub fn optional(path: String) -> (r: FileConfig)
        ensures
            r == (FileConfig { path, required: false }),
    {
        FileConfig { path, required: false }
    }
}

/// The parsed `#[env_config(...)]` attributes of a struct.
pub struct EnvConfigAttr {
    /// How `.env` files are loaded; `None` when they are not.
    pub dotenv: Option<DotenvConfig>,
    /// Prefix prepended to every field's variable name.
    pub prefix: Option<String>,
    /// Configuration files, in order (later ones override earlier ones).
    pub files: Vec<FileConfig>,
    /// Variable that selects the active profile.
    pub profile_env: Option<String>,
    /// Valid profile names.
    pub profiles: Option<Vec<String>>,
    /// Generate the validating loaders.
    pub validate: bool,
}

/// The mathematical value of a [`DotenvConfig`].
pub enum DotenvSpec {
    Default,
    Custom(String),
    Multiple(Seq<String>),
}

/// The mathematical value of an [`EnvConfigAttr`].
pub struct EnvConfigSpec {
    pub dotenv: Option<DotenvSpec>,
    pub prefix: Option<String>,
    pub files: Seq<FileConfig>,
    pub profile_env: Option<String>,
    pub profiles: Option<Seq<String>>,
    pub validate: bool,
}

impl View for DotenvConfig {
    type V = DotenvSpec;

    open spec fn view(&self) -> DotenvSpec {
        match self {
            DotenvConfig::Default => DotenvSpec::Default,
            DotenvConfig::Custom(p) => DotenvSpec::Custom(*p),
            DotenvConfig::Multiple(v) => DotenvSpec::Multiple(v@),
        }
    }
}

/// The value of an optional dotenv configuration.
pub open spec fn dotenv_view(d: Option<DotenvConfig>) -> Option<DotenvSpec> {
    match d {
        Some(c) => Some(c@),
        None => None,
    }
}

impl View for EnvConfigAttr {
    type V = EnvConfigSpec;

    open spec fn view(&self) -> EnvConfigSpec {
        EnvConfigSpec {
            dotenv: dotenv_view(self.dotenv),
            prefix: self.prefix,
            files: self.files@,
            profile_env: self.profile_env,
            profiles: match self.profiles {
                Some(v) => Some(v@),
                None => None,
            },
            validate: self.validate,
        }
    }
}

/// Nothing configured.
pub open spec fn empty_env_config() -> EnvConfigSpec {
    EnvConfigSpec {
        dotenv: None,
        prefix: None,
        files: Seq::empty(),
        profile_env: None,
        profiles: None,
        validate: false,
    }
}

/// The files that `file` / `file_optional` adds for the given paths.
pub open spec fn file_entries(paths: Seq<String>, required: bool) -> Seq<FileConfig> {
    paths.map_values(|p: String| FileConfig { path: p, required })
}

/// The configuration after `file`/`file_optional` item with value `v`, or
/// its error.
pub open spec fn file_step(st: EnvConfigSpec, v: MetaValue, required: bool, at: ErrorSpan) -> Result<
    EnvConfigSpec,
    ErrorSpec,
> {
    match v {
        MetaValue::Absent | MetaValue::Parenthesized => Err(("expected `=`"@, at)),
        MetaValue::Str(p) => Ok(
            EnvConfigSpec { files: st.files.push(FileConfig { path: p, required }), ..st },
        ),
        MetaValue::StrList(l) => Ok(
            EnvConfigSpec { files: st.files + file_entries(l@, required), ..st },
        ),
        _ => Err(("expected string literal"@, at)),
    }
}

/// The message for `profiles` given something other than an array.
pub open spec fn profiles_not_array_message() -> Seq<char> {
    "profiles must be an array, e.g., profiles = [\"dev\", \"prod\"]"@
}

/// The configuration after item `m` of an `#[env_config(...)]` attribute
/// (located at `at`) in state `st`, or its error.
pub open spec fn env_config_step(st: EnvConfigSpec, m: NestedMeta, at: ErrorSpan) -> Result<
    EnvConfigSpec,
    ErrorSpec,
> {
    let named = |s: Seq<char>| m.ident matches Some(n) && n@ == s;
    if named("dotenv"@) {
        match m.value {
            MetaValue::Absent => Ok(EnvConfigSpec { dotenv: Some(DotenvSpec::Default), ..st }),
            MetaValue::Str(p) => Ok(EnvConfigSpec { dotenv: Some(DotenvSpec::Custom(p)), ..st }),
            MetaValue::StrList(l) => Ok(
                EnvConfigSpec { dotenv: Some(DotenvSpec::Multiple(l@)), ..st },
            ),
            MetaValue::Parenthesized => Err(("expected `,`"@, at)),
            _ => Err(("expected string literal"@, at)),
        }
    } else if named("validate"@) {
        match m.value {
            MetaValue::Absent => Ok(EnvConfigSpec { validate: true, ..st }),
            _ => Err(("expected `,`"@, at)),
        }
    } else if named("prefix"@) {
        match string_value_error(m.value) {
            Some(msg) => Err((msg, at)),
            None => Ok(EnvConfigSpec { prefix: Some(m.value->Str_0), ..st }),
        }
    } else if named("file"@) {
        file_step(st, m.value, true, at)
    } else if named("file_optional"@) {
        file_step(st, m.value, false, at)
    } else if named("profile_env"@) {
        match string_value_error(m.value) {
            Some(msg) => Err((msg, at)),
            None => Ok(EnvConfigSpec { profile_env: Some(m.value->Str_0), ..st }),
        }
    } else if named("profiles"@) {
        match m.value {
            MetaValue::Absent | MetaValue::Parenthesized => Err(("expected `=`"@, at)),
            MetaValue::BadList => Err(("expected string literal"@, at)),
            MetaValue::StrList(l) => if l@.len() == 0 {
                Err(("profiles array cannot be empty"@, at))
            } else {
                Ok(EnvConfigSpec { profiles: Some(l@), ..st })
            },
            _ => Err((profiles_not_array_message(), at)),
        }
    } else {
        Err(("unknown env_config option"@, at))
    }
}

/// The configuration after the items of attribute `attr`, from state `st`.
pub open spec fn fold_env_config_items(
    st: EnvConfigSpec,
    items: Seq<NestedMeta>,
    attr: usize,
) -> Result<EnvConfigSpec, ErrorSpec>
    decreases items.len(),
{
    if items.len() == 0 {
        Ok(st)
    } else {
        match fold_env_config_items(st, items.drop_last(), attr) {
            Err(e) => Err(e),
            Ok(s2) => env_config_step(
                s2,
                items.last(),
                ErrorSpan::Item { attr, item: (items.len() - 1) as usize },
            ),
        }
    }
}

/// The configuration after the `#[env_config(...)]` attributes among `attrs`.
pub open spec fn fold_env_config_attrs(attrs: Seq<AttrModel>) -> Result<EnvConfigSpec, ErrorSpec>
    decreases attrs.len(),
{
    if attrs.len() == 0 {
        Ok(empty_env_config())
    } else {
        match fold_env_config_attrs(attrs.drop_last()) {
            Err(e) => Err(e),
            Ok(st) => {
                let a = attrs.last();
                let i = (attrs.len() - 1) as usize;
                if is_named(a, "env_config"@) {
                    match fold_env_config_items(st, a.items@, i) {
                        Err(e) => Err(e),
                        Ok(s2) => if a.syntax_error is Some {
                            Err((a.syntax_error->0@, ErrorSpan::Syntax { attr: i }))
                        } else {
                            Ok(s2)
                        },
                    }
                } else {
                    Ok(st)
                }
            },
        }
    }
}

/// The struct-level configuration of a struct with attributes `attrs`, or
/// its error.
pub open spec fn env_config_result(attrs: Seq<AttrModel>) -> Result<EnvConfigSpec, ErrorSpec> {
    match fold_env_config_attrs(attrs) {
        Err(e) => Err(e),
        Ok(st) => if st.profiles is Some && st.profile_env is None {
            Err(("profiles requires profile_env to be set"@, ErrorSpan::StructIdent))
        } else {
            Ok(st)
        },
    }
}

/// Copies a list of strings.
fn copy_strings(v: &Vec<String>) -> (r: Vec<String>)
    ensures
        r@ == v@,
{
    let mut r: Vec<String> = Vec::new();
    let mut i: usize = 0;
    while i < v.len()
        invariant
            i <= v.len(),
            r@ == v@.take(i as int),
        decreases v.len() - i,
    {
        r.push(v[i].clone());
        assert(r@ =~= v@.take(i + 1));
        i = i + 1;
    }
    assert(v@.take(v.len() as int) =~= v@);
    r
}

/// An error among the first `k` items is the error of them all.
pub proof fn lemma_fold_env_config_items_prefix(
    st: EnvConfigSpec,
    items: Seq<NestedMeta>,
    attr: usize,
    k: int,
)
    requires
        0 <= k <= items.len(),
        fold_env_config_items(st, items.take(k), attr) is Err,
    ensures
        fold_env_config_items(st, items, attr) == fold_env_config_items(st, items.take(k), attr),
    decreases items.len(),
{
    if k < items.len() {
        assert(items.drop_last().take(k) =~= items.take(k));
        lemma_fold_env_config_items_prefix(st, items.drop_last(), attr, k);
    } else {
        assert(items.take(k) =~= items);
    }
}

/// An error among the first `k` attributes is the error of them all.
pub proof fn lemma_fold_env_config_attrs_prefix(attrs: Seq<AttrModel>, k: int)
    requires
        0 <= k <= attrs.len(),
        fold_env_config_attrs(attrs.take(k)) is Err,
    ensures
        fold_env_config_attrs(attrs) == fold_env_config_attrs(attrs.take(k)),
    decreases attrs.len(),
{
    if k < attrs.len() {
        assert(attrs.drop_last().take(k) =~= attrs.take(k));
        lemma_fold_env_config_attrs_prefix(attrs.drop_last(), k);
    } else {
        assert(attrs.take(k) =~= attrs);
    }
}

/// The attributes of a struct are refused with the error of their first
/// refused `#[env_config(...)]` item: when every attribute before attribute
/// `j`, and every item of it before item `k`, is accepted and item `k` is
/// refused, that refusal is the result.
pub proof fn law_env_config_first_refusal(
    attrs: Seq<AttrModel>,
    j: int,
    k: int,
    before: EnvConfigSpec,
    within: EnvConfigSpec,
)
    requires
        0 <= j < attrs.len(),
        is_named(attrs[j], "env_config"@),
        0 <= k < attrs[j].items@.len(),
        fold_env_config_attrs(attrs.take(j)) == Ok::<EnvConfigSpec, ErrorSpec>(before),
        fold_env_config_items(before, attrs[j].items@.take(k), j as usize) == Ok::<
            EnvConfigSpec,
            ErrorSpec,
        >(within),
        env_config_step(
            within,
            attrs[j].items@[k],
            ErrorSpan::Item { attr: j as usize, item: k as usize },
        ) is Err,
    ensures
        env_config_result(attrs) == Err::<EnvConfigSpec, ErrorSpec>(
            env_config_step(
                within,
                attrs[j].items@[k],
                ErrorSpan::Item { attr: j as usize, item: k as usize },
            )->Err_0,
        ),
{
    let items = attrs[j].items@;
    assert(items.take(k + 1).drop_last() =~= items.take(k));
    assert(items.take(k + 1).last() == items[k]);
    lemma_fold_env_config_items_prefix(before, items, j as usize, k + 1);
    assert(attrs.take(j + 1).drop_last() =~= attrs.take(j));
    assert(attrs.take(j + 1).last() == attrs[j]);
    lemma_fold_env_config_attrs_prefix(attrs, j + 1);
}

/// What an `#[env_config(...)]` item is refused with, in whatever state it
/// comes: `profiles = []` as an empty array, `profiles` given a single
/// value as not an array, and a name outside the options as unknown.
pub proof fn law_env_config_item_refusals(st: EnvConfigSpec, m: NestedMeta, at: ErrorSpan)
    ensures
        (m.ident is Some && m.ident->0@ == "profiles"@ && m.value is StrList
            && m.value->StrList_0@.len() == 0) ==> env_config_step(st, m, at) == Err::<
            EnvConfigSpec,
            ErrorSpec,
        >(("profiles array cannot be empty"@, at)),
        (m.ident is Some && m.ident->0@ == "profiles"@ && (m.value is Str || m.value is Char
            || m.value is OtherExpr)) ==> env_config_step(st, m, at) == Err::<
            EnvConfigSpec,
            ErrorSpec,
        >((profiles_not_array_message(), at)),
        (m.ident is Some ==> !({
            let n = m.ident->0@;
            n == "dotenv"@ || n == "validate"@ || n == "prefix"@ || n == "file"@ || n
                == "file_optional"@ || n == "profile_env"@ || n == "profiles"@
        })) ==> env_config_step(st, m, at) == Err::<EnvConfigSpec, ErrorSpec>(
            ("unknown env_config option"@, at),
        ),
{
    reveal_strlit("dotenv");
    reveal_strlit("validate");
    reveal_strlit("prefix");
    reveal_strlit("file");
    reveal_strlit("file_optional");
    reveal_strlit("profile_env");
    reveal_strlit("profiles");
    assert("profiles"@ != "dotenv"@) by {
        assert("profiles"@[0] != "dotenv"@[0]);
    }
    assert("profiles"@ != "validate"@) by {
        assert("profiles"@[0] != "validate"@[0]);
    }
    assert("profiles"@ != "prefix"@) by {
        assert("profiles"@[2] != "prefix"@[2]);
    }
    assert("profiles"@ != "file"@) by {
        assert("profiles"@[0] != "file"@[0]);
    }
    assert("profiles"@ != "file_optional"@) by {
        assert("profiles"@[0] != "file_optional"@[0]);
    }
    assert("profiles"@ != "profile_env"@) by {
        assert("profiles"@[7] != "profile_env"@[7]);
    }
}

/// Accepted attributes that give `profiles` without `profile_env` are
/// refused, pointing at the struct's name.
pub proof fn law_profiles_without_profile_env_refused(attrs: Seq<AttrModel>)
    requires
        fold_env_config_attrs(attrs) is Ok,
        fold_env_config_attrs(attrs)->Ok_0.profiles is Some,
        fold_env_config_attrs(attrs)->Ok_0.profile_env is None,
    ensures
        env_config_result(attrs) == Err::<EnvConfigSpec, ErrorSpec>(
            ("profiles requires profile_env to be set"@, ErrorSpan::StructIdent),
        ),
{
}

impl EnvConfigAttr {
    /// Adds the files of a `file` (`required`) or `file_optional` item.
    pub fn parse_file_config(
        value: &MetaValue,
        files: &mut Vec<FileConfig>,
        required: bool,
        attr: usize,
        item: usize,
    ) -> (r: Result<(), MacroError>)
        ensures
            ({
                let st = EnvConfigSpec { files: old(files)@, ..empty_env_config() };
                let at = ErrorSpan::Item { attr, item };
                &&& r is Err <==> file_step(st, *value, required, at) is Err
                &&& r matches Err(e) ==> is_error(e, file_step(st, *value, required, at)->Err_0)
                &&& r is Ok ==> final(files)@ == file_step(st, *value, required, at)->Ok_0.files
            }),
    {
        match value {
            MetaValue::Str(p) => {
                files.push(FileConfig { path: p.clone(), required });
                Ok(())
            },
            MetaValue::StrList(paths) => {
                let mut i: usize = 0;
                assert(old(files)@ + file_entries(paths@.take(0), required) =~= old(files)@);
                while i < paths.len()
                    invariant
                        i <= paths.len(),
                        files@ == old(files)@ + file_entries(paths@.take(i as int), required),
                    decreases paths.len() - i,
                {
                    files.push(FileConfig { path: paths[i].clone(), required });
                    assert(files@ =~= old(files)@ + file_entries(
                        paths@.take(i + 1),
                        required,
                    ));
                    i = i + 1;
                }
                assert(paths@.take(paths.len() as int) =~= paths@);
                Ok(())
            },
            MetaValue::Absent | MetaValue::Parenthesized => Err(
                error_at(String::from_str("expected `=`"), ErrorSpan::Item { attr, item }),
            ),
            _ => Err(
                error_at(String::from_str("expected string literal"), ErrorSpan::Item { attr, item }),
            ),
        }
    }

    /// Applies item `item` of `#[env_config(...)]` attribute `attr`.
    fn apply_item(&mut self, m: &NestedMeta, attr: usize, item: usize) -> (r: Result<(), MacroError>)
        ensures
            r is Err <==> env_config_step(old(self)@, *m, ErrorSpan::Item { attr, item }) is Err,
            r matches Err(e) ==> is_error(
                e,
                env_config_step(old(self)@, *m, ErrorSpan::Item { attr, item })->Err_0,
            ),
            r is Ok ==> final(self)@ == env_config_step(
                old(self)@,
                *m,
                ErrorSpan::Item { attr, item },
            )->Ok_0,
    {
        let at = ErrorSpan::Item { attr, item };
        let name: &str = match &m.ident {
            Some(n) => n.as_str(),
            None => "",
        };
        let has_ident = m.ident.is_some();
        if has_ident && str_eq(name, "dotenv") {
            match &m.value {
                MetaValue::Absent => {
                    self.dotenv = Some(DotenvConfig::Default);
                },
                MetaValue::Str(p) => {
                    self.dotenv = Some(DotenvConfig::Custom(p.clone()));
                },
                MetaValue::StrList(l) => {
                    self.dotenv = Some(DotenvConfig::Multiple(copy_strings(l)));
                },
                MetaValue::Parenthesized => {
                    return Err(error_at(String::from_str("expected `,`"), at));
                },
                _ => {
                    return Err(error_at(String::from_str("expected string literal"), at));
                },
            }
            Ok(())
        } else if has_ident && str_eq(name, "validate") {
            match &m.value {
                MetaValue::Absent => {
                    self.validate = true;
                    Ok(())
                },
                _ => Err(error_at(String::from_str("expected `,`"), at)),
            }
        } else if has_ident && str_eq(name, "prefix") {
            let v = string_value(&m.value, attr, item)?;
            self.prefix = Some(v);
            Ok(())
        } else if has_ident && str_eq(name, "file") {
            Self::parse_file_config(&m.value, &mut self.files, true, attr, item)
        } else if has_ident && str_eq(name, "file_optional") {
            Self::parse_file_config(&m.value, &mut self.files, false, attr, item)
        } else if has_ident && str_eq(name, "profile_env") {
            let v = string_value(&m.value, attr, item)?;
            self.profile_env = Some(v);
            Ok(())
        } else if has_ident && str_eq(name, "profiles") {
            match &m.value {
                MetaValue::Absent | MetaValue::Parenthesized => Err(
                    error_at(String::from_str("expected `=`"), at),
                ),
                MetaValue::BadList => Err(error_at(String::from_str("expected string literal"), at)),
                MetaValue::StrList(l) => {
                    if l.len() == 0 {
                        return Err(error_at(String::from_str("profiles array cannot be empty"), at));
                    }
                    self.profiles = Some(copy_strings(l));
                    Ok(())
                },
                _ => Err(
                    error_at(
                        String::from_str(
                            "profiles must be an array, e.g., profiles = [\"dev\", \"prod\"]",
                        ),
                        at,
                    ),
                ),
            }
        } else {
            Err(error_at(String::from_str("unknown env_config option"), at))
        }
    }

    /// Reads the `#[env_config(...)]` attributes of a struct, in order.
    /// `profiles` without `profile_env` is refused.
    pub fn parse_from_struct(attrs: &Vec<AttrModel>) -> (r: Result<EnvConfigAttr, MacroError>)
        ensures
            r is Err <==> env_config_result(attrs@) is Err,
            r matches Err(e) ==> is_error(e, env_config_result(attrs@)->Err_0),
            r matches Ok(c) ==> c@ == env_config_result(attrs@)->Ok_0,
    {
        let mut result = EnvConfigAttr {
            dotenv: None,
            prefix: None,
            files: Vec::new(),
            profile_env: None,
            profiles: None,
            validate: false,
        };
        assert(result@ =~= empty_env_config());
        let mut i: usize = 0;
        while i < attrs.len()
            invariant
                i <= attrs.len(),
                fold_env_config_attrs(attrs@.take(i as int)) == Ok::<EnvConfigSpec, ErrorSpec>(
                    result@,
                ),
            decreases attrs.len() - i,
        {
            assert(attrs@.take(i + 1).drop_last() =~= attrs@.take(i as int));
            assert(attrs@.take(i + 1).last() == attrs@[i as int]);
            let a = &attrs[i];
            let is_cfg = match &a.ident {
                Some(n) => str_eq(n.as_str(), "env_config"),
                None => false,
            };
            if is_cfg {
                assert(is_named(*a, "env_config"@));
                let ghost start = result@;
                let mut j: usize = 0;
                while j < a.items.len()
                    invariant
                        j <= a.items.len(),
                        i < attrs.len(),
                        a == attrs@[i as int],
                        is_named(*a, "env_config"@),
                        fold_env_config_attrs(attrs@.take(i as int)) == Ok::<
                            EnvConfigSpec,
                            ErrorSpec,
                        >(start),
                        fold_env_config_items(start, a.items@.take(j as int), i) == Ok::<
                            EnvConfigSpec,
                            ErrorSpec,
                        >(result@),
                    decreases a.items.len() - j,
                {
                    assert(a.items@.take(j + 1).drop_last() =~= a.items@.take(j as int));
                    assert(a.items@.take(j + 1).last() == a.items@[j as int]);
                    match result.apply_item(&a.items[j], i, j) {
                        Ok(()) => {},
                        Err(e) => {
                            proof {
                                lemma_fold_env_config_items_prefix(start, a.items@, i, j + 1);
                                let t = attrs@.take(i + 1);
                                assert(t.drop_last() =~= attrs@.take(i as int));
                                assert(t.last() == *a);
                                assert(is_named(*a, "env_config"@));
                                assert(fold_env_config_items(start, a.items@, i) is Err);
                                assert(fold_env_config_attrs(t) is Err);
                                lemma_fold_env_config_attrs_prefix(attrs@, i + 1);
                            }
                            return Err(e);
                        },
                    }
                    j = j + 1;
                }
                assert(a.items@.take(a.items.len() as int) =~= a.items@);
                if let Some(msg) = &a.syntax_error {
                    proof {
                        lemma_fold_env_config_attrs_prefix(attrs@, i + 1);
                    }
                    return Err(error_at(msg.clone(), ErrorSpan::Syntax { attr: i }));
                }
            }
            i = i + 1;
        }
        assert(attrs@.take(attrs.len() as int) =~= attrs@);
        if result.profiles.is_some() && result.profile_env.is_none() {
            return Err(
                error_at(
                    String::from_str("profiles requires profile_env to be set"),
                    ErrorSpan::StructIdent,
                ),
            );
        }
        Ok(result)
    }
}


// ============================================================================
// Laws of attribute parsing
// ============================================================================

/// An option may appear once per attribute: once an item naming option `k`
/// has been accepted, a later item naming `k` is refused as a duplicate.
pub proof fn law_duplicate_option_refused(p: Parser, m1: NestedMeta, m2: NestedMeta)
    requires
        meta_error(p, m1) is None,
        m2.ident is Some,
        spec_option_key(m2.ident->0@) == Some(item_key(m1)),
    ensures
        meta_error(applied(p, item_key(m1), m1.value), m2) == Some(
            "Duplicate option: `"@ + spec_key_name(item_key(m1)) + "`"@,
        ),
{
    let k = item_key(m1);
    let q = applied(p, k, m1.value);
    assert(q.seen == p.seen.with(k));
    assert(q.seen.has(k));
}

/// Every option the parser holds came with a value of the right shape:
/// a parsed format is always `json`, `toml` or `yaml`.
pub proof fn law_parsed_format_is_known(items: Seq<NestedMeta>, attr: usize)
    ensures
        fold_items(items, attr) matches Ok(p) ==> (p.format matches Some(f) ==> is_known_format(f@)),
    decreases items.len(),
{
    if items.len() > 0 {
        law_parsed_format_is_known(items.drop_last(), attr);
    }
}

/// `default` and `optional` exclude each other; `short` needs `arg`; `var`
/// is required: a regular field's configuration satisfies all three.
pub proof fn law_regular_field_options(p: Parser)
    requires
        !p.flatten,
        config_error(p) is None,
    ensures
        configured(p) matches FieldConfig::Env(a) && !(a.default is Some && a.optional) && (
        a.cli matches Some(c) ==> c.long is Some),
        p.var_name is Some,
        p.arg_short is Some ==> p.arg_long is Some,
        p.flatten_prefix is None,
{
}

/// `flatten` stands with `prefix` alone: with any other option set, the
/// error names every such option, in one message.
pub proof fn law_flatten_reports_every_conflict(p: Parser)
    requires
        p.flatten,
    ensures
        flatten_conflicts(p).contains("var"@) <== p.var_name is Some,
        flatten_conflicts(p).contains("default"@) <== p.default is Some,
        flatten_conflicts(p).contains("optional"@) <== p.optional,
        flatten_conflicts(p).contains("secret"@) <== p.secret,
        flatten_conflicts(p).contains("no_prefix"@) <== p.no_prefix,
        flatten_conflicts(p).contains("arg/short"@) <== (p.arg_long is Some || p.arg_short is Some),
        flatten_conflicts(p).contains("format"@) <== p.format is Some,
        flatten_conflicts(p).contains("validate"@) <== p.validate is Some,
        config_error(p) is None <==> flatten_conflicts(p).len() == 0,
{
    let s0 = Seq::<Seq<char>>::empty();
    let s1 = if p.var_name is Some { s0.push("var"@) } else { s0 };
    let s2 = if p.default is Some { s1.push("default"@) } else { s1 };
    let s3 = if p.optional { s2.push("optional"@) } else { s2 };
    let s4 = if p.secret { s3.push("secret"@) } else { s3 };
    let s5 = if p.no_prefix { s4.push("no_prefix"@) } else { s4 };
    let s6 = if p.arg_long is Some || p.arg_short is Some { s5.push("arg/short"@) } else { s5 };
    let s7 = if p.format is Some { s6.push("format"@) } else { s6 };
    let s8 = if p.validate is Some { s7.push("validate"@) } else { s7 };
    assert(flatten_conflicts(p) == s8);
    assert forall|s: Seq<Seq<char>>, t: Seq<char>, x: Seq<char>| s.contains(x) implies #[trigger] s.push(t).contains(x) by {
        let i = choose|i: int| 0 <= i < s.len() && s[i] == x;
        assert(s.push(t)[i] == x);
    }
    assert forall|s: Seq<Seq<char>>, x: Seq<char>| true implies #[trigger] s.push(x).contains(x) by {
        assert(s.push(x)[s.len() as int] == x);
    }
}

/// A `#[profile(...)]` attribute maps each profile name once.
pub proof fn law_profile_names_distinct(attrs: Seq<AttrModel>)
    ensures
        spec_profile(attrs) matches Ok(Some(v)) ==> distinct_keys(v),
{
    if let Some(i) = first_named(attrs, "profile"@) {
        lemma_profile_distinct(attrs[i].items@, i as usize);
    }
}

/// `profiles` needs `profile_env`: a struct configuration that parses
/// with a list of profiles names the variable that selects one.
pub proof fn law_profiles_need_profile_env(attrs: Seq<AttrModel>)
    ensures
        env_config_result(attrs) matches Ok(c) ==> (c.profiles is Some ==> c.profile_env is Some),
{
}

} // verus!
