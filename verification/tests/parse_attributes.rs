use procenv_macro::field::{GenericArgModel, PathSegmentModel, TypeModel};
use procenv_macro::parse::{
    extract_doc_comment, AttrModel, DotenvConfig, EnvConfigAttr, ErrorSpan, FieldConfig,
    FieldModel, FileConfig, MacroError, MetaValue, NestedMeta, Parser,
};
use procenv_macro::text::{remove_spaces, str_eq, trim_str};

fn s(x: &str) -> String {
    x.to_string()
}

fn item(name: &str, value: MetaValue) -> NestedMeta {
    NestedMeta { ident: Some(s(name)), value }
}

fn flag(name: &str) -> NestedMeta {
    item(name, MetaValue::Absent)
}

fn text(name: &str, v: &str) -> NestedMeta {
    item(name, MetaValue::Str(s(v)))
}

fn attr(name: &str, items: Vec<NestedMeta>) -> AttrModel {
    AttrModel { ident: Some(s(name)), doc: None, items, syntax_error: None }
}

fn doc(line: &str) -> AttrModel {
    AttrModel { ident: Some(s("doc")), doc: Some(s(line)), items: vec![], syntax_error: None }
}

fn plain_type(name: &str) -> TypeModel {
    TypeModel::Path {
        last: Some(PathSegmentModel { ident: s(name), first_arg: GenericArgModel::NotAngleBracketed }),
        text: s(name),
    }
}

fn field(name: &str, attrs: Vec<AttrModel>) -> FieldModel {
    FieldModel { ident: Some(s(name)), ty: plain_type("String"), attrs }
}

fn config_of(items: Vec<NestedMeta>) -> Result<FieldConfig, MacroError> {
    Parser::parse_field_config(&field("f", vec![attr("env", items)]))
}

fn message(r: Result<FieldConfig, MacroError>) -> String {
    match r {
        Err(e) => e.message,
        Ok(_) => panic!("expected an error"),
    }
}

#[test]
fn required_field_attribute_is_parsed() {
    let c = config_of(vec![text("var", "DATABASE_URL")]).unwrap();
    match c {
        FieldConfig::Env(a) => {
            assert_eq!(a.var_name, "DATABASE_URL");
            assert!(a.default.is_none());
            assert!(!a.optional && !a.secret && !a.no_prefix);
            assert!(a.cli.is_none() && a.profile.is_none() && a.format.is_none());
        }
        FieldConfig::Flatten { .. } => panic!("expected a regular field"),
    }
}

#[test]
fn every_option_is_recorded() {
    let c = config_of(vec![
        text("var", "PORT"),
        text("default", "8080"),
        flag("secret"),
        flag("no_prefix"),
        text("arg", "port"),
        item("short", MetaValue::Char('p')),
        text("format", "json"),
        text("validate", "check_port"),
    ])
    .unwrap();
    let FieldConfig::Env(a) = c else { panic!("expected a regular field") };
    assert_eq!(a.default.as_deref(), Some("8080"));
    assert!(a.secret && a.no_prefix && !a.optional);
    let cli = a.cli.unwrap();
    assert_eq!(cli.long.as_deref(), Some("port"));
    assert_eq!(cli.short, Some('p'));
    assert_eq!(a.format.as_deref(), Some("json"));
    assert_eq!(a.validate.as_deref(), Some("check_port"));
}

#[test]
fn unknown_option_is_refused() {
    let r = config_of(vec![text("var", "X"), flag("bogus")]);
    let Err(e) = r else { panic!("expected an error") };
    assert_eq!(e.message, "Unknown option `bogus`");
    assert!(matches!(e.span, ErrorSpan::Item { attr: 0, item: 1 }));
}

#[test]
fn duplicate_option_is_refused() {
    let r = config_of(vec![text("var", "X"), text("var", "Y")]);
    assert_eq!(message(r), "Duplicate option: `var`");
    let r = config_of(vec![text("var", "X"), flag("secret"), flag("secret")]);
    assert_eq!(message(r), "Duplicate option: `secret`");
}

#[test]
fn path_that_is_not_an_identifier_is_refused() {
    let r = config_of(vec![NestedMeta { ident: None, value: MetaValue::Absent }]);
    assert_eq!(message(r), "Expected Identifier");
}

#[test]
fn value_shapes_are_checked() {
    assert_eq!(message(config_of(vec![flag("var")])), "expected `=`");
    assert_eq!(message(config_of(vec![item("var", MetaValue::Char('x'))])), "expected string literal");
    assert_eq!(message(config_of(vec![text("var", "X"), text("optional", "yes")])), "expected `,`");
    assert_eq!(
        message(config_of(vec![text("var", "X"), text("arg", "a"), text("short", "p")])),
        "expected character literal"
    );
}

#[test]
fn unknown_format_is_refused() {
    let r = config_of(vec![text("var", "X"), text("format", "xml")]);
    assert_eq!(message(r), "Unknown format 'xml'. Supported: json, toml, yaml");
    for f in ["json", "toml", "yaml"] {
        assert!(config_of(vec![text("var", "X"), text("format", f)]).is_ok());
    }
}

#[test]
fn missing_var_is_refused() {
    let r = config_of(vec![flag("secret")]);
    let Err(e) = r else { panic!("expected an error") };
    assert_eq!(e.message, "Missing required `var` option");
    assert!(matches!(e.span, ErrorSpan::Attr { attr: 0 }));
}

#[test]
fn default_and_optional_exclude_each_other() {
    let r = config_of(vec![text("var", "X"), text("default", "1"), flag("optional")]);
    assert_eq!(message(r), "Cannot use both `default` and `optional` on the same field");
}

#[test]
fn short_requires_arg() {
    let r = config_of(vec![text("var", "X"), item("short", MetaValue::Char('x'))]);
    assert_eq!(message(r), "`short` requires `arg` to be set");
}

#[test]
fn flatten_reports_all_incompatible_options() {
    let r = config_of(vec![flag("flatten"), text("var", "X"), text("default", "d"), flag("secret")]);
    assert_eq!(message(r), "Cannot use `var`, `default`, `secret` with `flatten`");
    let r = config_of(vec![flag("flatten"), text("arg", "a"), text("format", "json"), text("validate", "v")]);
    assert_eq!(message(r), "Cannot use `arg/short`, `format`, `validate` with `flatten`");
}

#[test]
fn flatten_accepts_prefix() {
    match config_of(vec![flag("flatten"), text("prefix", "DB_")]).unwrap() {
        FieldConfig::Flatten { prefix } => assert_eq!(prefix.as_deref(), Some("DB_")),
        FieldConfig::Env(_) => panic!("expected a flattened field"),
    }
    match config_of(vec![flag("flatten")]).unwrap() {
        FieldConfig::Flatten { prefix } => assert!(prefix.is_none()),
        FieldConfig::Env(_) => panic!("expected a flattened field"),
    }
}

#[test]
fn prefix_requires_flatten() {
    let r = config_of(vec![text("var", "X"), text("prefix", "DB_")]);
    assert_eq!(message(r), "`prefix` can only be used with `flatten`");
}

#[test]
fn missing_env_attribute_names_the_field() {
    let r = Parser::parse_field_config(&field("port", vec![doc("A port")]));
    let Err(e) = r else { panic!("expected an error") };
    assert_eq!(e.message, "Field `port` is missing #[env(...)] attribute");
    assert!(matches!(e.span, ErrorSpan::Field));
    let unnamed = FieldModel { ident: None, ty: plain_type("u8"), attrs: vec![] };
    assert_eq!(message(Parser::parse_field_config(&unnamed)), "Field `unnamed` is missing #[env(...)] attribute");
}

#[test]
fn syntax_error_of_attribute_is_reported() {
    let mut a = attr("env", vec![text("var", "X")]);
    a.syntax_error = Some(s("expected `,`"));
    let r = Parser::parse_field_config(&field("f", vec![a]));
    let Err(e) = r else { panic!("expected an error") };
    assert_eq!(e.message, "expected `,`");
    assert!(matches!(e.span, ErrorSpan::Syntax { attr: 0 }));
}

#[test]
fn profile_values_are_attached() {
    let f = field(
        "database_url",
        vec![
            attr("env", vec![text("var", "DATABASE_URL")]),
            attr("profile", vec![text("dev", "postgres://localhost/dev"), text("prod", "postgres://prod/app")]),
        ],
    );
    let FieldConfig::Env(a) = Parser::parse_field_config(&f).unwrap() else { panic!() };
    let p = a.profile.unwrap();
    assert_eq!(p.values.len(), 2);
    assert_eq!(p.values[0], (s("dev"), s("postgres://localhost/dev")));
    assert_eq!(p.values[1], (s("prod"), s("postgres://prod/app")));
}

#[test]
fn repeated_profile_name_keeps_last_value() {
    let f = field("x", vec![attr("profile", vec![text("dev", "a"), text("prod", "b"), text("dev", "c")])]);
    let p = Parser::parse_profile_attr(&f).unwrap().unwrap();
    assert_eq!(p.values, vec![(s("dev"), s("c")), (s("prod"), s("b"))]);
}

#[test]
fn empty_profile_attribute_is_refused() {
    let f = field("x", vec![attr("env", vec![text("var", "X")]), attr("profile", vec![])]);
    let Err(e) = Parser::parse_field_config(&f) else { panic!("expected an error") };
    assert_eq!(e.message, "#[profile(...)] requires at least one profile value");
    assert!(matches!(e.span, ErrorSpan::Attr { attr: 1 }));
}

#[test]
fn profile_items_are_checked() {
    let f = field("x", vec![attr("profile", vec![NestedMeta { ident: None, value: MetaValue::Absent }])]);
    let Err(e) = Parser::parse_profile_attr(&f) else { panic!("expected an error") };
    assert_eq!(e.message, "Expected profile name identifier");
    let f = field("x", vec![attr("profile", vec![item("dev", MetaValue::OtherExpr)])]);
    let Err(e) = Parser::parse_profile_attr(&f) else { panic!("expected an error") };
    assert_eq!(e.message, "expected string literal");
    assert!(Parser::parse_profile_attr(&field("x", vec![])).unwrap().is_none());
}

#[test]
fn doc_comments_are_trimmed_and_joined() {
    let f = field("x", vec![doc("  Database  "), attr("env", vec![]), doc(" connection URL")]);
    assert_eq!(extract_doc_comment(&f).as_deref(), Some("Database connection URL"));
    let f = field("x", vec![doc("   ")]);
    assert!(extract_doc_comment(&f).is_none());
    let f = field("x", vec![doc("First"), doc("  "), doc("Third")]);
    assert_eq!(extract_doc_comment(&f).as_deref(), Some("First  Third"));
    let f = field("x", vec![doc(" "), doc(""), doc(" Second "), doc("Third")]);
    assert_eq!(extract_doc_comment(&f).as_deref(), Some("Second Third"));
}

#[test]
fn struct_attribute_options_are_parsed() {
    let attrs = vec![
        attr("derive", vec![]),
        attr(
            "env_config",
            vec![
                text("prefix", "APP_"),
                flag("dotenv"),
                text("file_optional", "config.toml"),
                item("file", MetaValue::StrList(vec![s("a.toml"), s("b.toml")])),
                text("profile_env", "APP_ENV"),
                item("profiles", MetaValue::StrList(vec![s("dev"), s("prod")])),
                flag("validate"),
            ],
        ),
    ];
    let c = EnvConfigAttr::parse_from_struct(&attrs).unwrap();
    assert_eq!(c.prefix.as_deref(), Some("APP_"));
    assert!(matches!(c.dotenv, Some(DotenvConfig::Default)));
    assert_eq!(c.files.len(), 3);
    assert_eq!(c.files[0].path, "config.toml");
    assert!(!c.files[0].required);
    assert_eq!(c.files[1].path, "a.toml");
    assert!(c.files[1].required && c.files[2].required);
    assert_eq!(c.profile_env.as_deref(), Some("APP_ENV"));
    assert_eq!(c.profiles, Some(vec![s("dev"), s("prod")]));
    assert!(c.validate);
}

#[test]
fn dotenv_forms_are_parsed() {
    let c = EnvConfigAttr::parse_from_struct(&vec![attr("env_config", vec![text("dotenv", ".env.local")])]).unwrap();
    assert!(matches!(c.dotenv, Some(DotenvConfig::Custom(ref p)) if p == ".env.local"));
    let c = EnvConfigAttr::parse_from_struct(&vec![attr(
        "env_config",
        vec![item("dotenv", MetaValue::StrList(vec![s(".env"), s(".env.local")]))],
    )])
    .unwrap();
    assert!(matches!(c.dotenv, Some(DotenvConfig::Multiple(ref v)) if v.len() == 2));
    let c = EnvConfigAttr::parse_from_struct(&vec![]).unwrap();
    assert!(c.dotenv.is_none() && c.prefix.is_none() && c.files.is_empty() && !c.validate);
}

#[test]
fn struct_attribute_errors() {
    let e = |items: Vec<NestedMeta>| match EnvConfigAttr::parse_from_struct(&vec![attr("env_config", items)]) {
        Err(e) => e.message,
        Ok(_) => panic!("expected an error"),
    };
    assert_eq!(e(vec![flag("bogus")]), "unknown env_config option");
    assert_eq!(e(vec![text("profile_env", "E"), text("profiles", "dev")]), "profiles must be an array, e.g., profiles = [\"dev\", \"prod\"]");
    assert_eq!(e(vec![text("profile_env", "E"), item("profiles", MetaValue::StrList(vec![]))]), "profiles array cannot be empty");
    assert_eq!(e(vec![item("profiles", MetaValue::BadList)]), "expected string literal");
    assert_eq!(e(vec![flag("file")]), "expected `=`");
    assert_eq!(e(vec![item("prefix", MetaValue::Char('a'))]), "expected string literal");
    assert_eq!(e(vec![text("validate", "yes")]), "expected `,`");
    let r = EnvConfigAttr::parse_from_struct(&vec![attr("env_config", vec![item("profiles", MetaValue::StrList(vec![s("dev")]))])]);
    let Err(err) = r else { panic!("expected an error") };
    assert_eq!(err.message, "profiles requires profile_env to be set");
    assert!(matches!(err.span, ErrorSpan::StructIdent));
}

#[test]
fn file_config_constructors() {
    let r = FileConfig::required(s("config.toml"));
    assert_eq!(r.path, "config.toml");
    assert!(r.required);
    let o = FileConfig::optional(s("local.toml"));
    assert_eq!(o.path, "local.toml");
    assert!(!o.required);
}

#[test]
fn text_helpers() {
    assert_eq!(trim_str("\t  hello world \n"), "hello world");
    assert_eq!(trim_str("\u{3000}x\u{a0}"), "x");
    assert_eq!(trim_str("   "), "");
    assert_eq!(remove_spaces("Vec < String >"), "Vec<String>");
    assert!(str_eq("abc", "abc"));
    assert!(!str_eq("abc", "abd"));
    assert!(!str_eq("ab", "abc"));
}
