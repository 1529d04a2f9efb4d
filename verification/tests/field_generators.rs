use procenv_macro::field::{
    Assignment, EnvExampleEntry, ExampleFragment, FieldFactory, FieldGenerator, GenericArgModel,
    PathSegmentModel, SecretKind, TypeModel,
};
use procenv_macro::parse::{AttrModel, ErrorSpan, FieldModel, MetaValue, NestedMeta};

fn s(x: &str) -> String {
    x.to_string()
}

fn text(name: &str, v: &str) -> NestedMeta {
    NestedMeta { ident: Some(s(name)), value: MetaValue::Str(s(v)) }
}

fn flag(name: &str) -> NestedMeta {
    NestedMeta { ident: Some(s(name)), value: MetaValue::Absent }
}

fn env(items: Vec<NestedMeta>) -> AttrModel {
    AttrModel { ident: Some(s("env")), doc: None, items, syntax_error: None }
}

fn doc(line: &str) -> AttrModel {
    AttrModel { ident: Some(s("doc")), doc: Some(s(line)), items: vec![], syntax_error: None }
}

fn plain(name: &str) -> TypeModel {
    TypeModel::Path {
        last: Some(PathSegmentModel { ident: s(name), first_arg: GenericArgModel::NotAngleBracketed }),
        text: s(name),
    }
}

fn generic(outer: &str, inner: TypeModel, text: &str) -> TypeModel {
    TypeModel::Path {
        last: Some(PathSegmentModel { ident: s(outer), first_arg: GenericArgModel::Type(Box::new(inner)) }),
        text: s(text),
    }
}

fn field(name: &str, ty: TypeModel, attrs: Vec<AttrModel>) -> FieldModel {
    FieldModel { ident: Some(s(name)), ty, attrs }
}

#[test]
fn option_inner_type_is_extracted() {
    let t = generic("Option", plain("u16"), "Option < u16 >");
    let inner = FieldFactory::extract_option_inner(&t).unwrap();
    assert_eq!(inner.text(), "u16");
    assert!(FieldFactory::extract_option_inner(&plain("String")).is_none());
    let v = generic("Vec", plain("String"), "Vec < String >");
    assert!(FieldFactory::extract_option_inner(&v).is_none());
    assert!(FieldFactory::extract_option_inner(&TypeModel::Other { text: s("& str") }).is_none());
}

#[test]
fn secret_kinds_are_recognised() {
    assert!(matches!(FieldFactory::extract_secret_kind(&plain("SecretString")), Some(SecretKind::String)));
    let b = generic("SecretBox", plain("u32"), "SecretBox < u32 >");
    match FieldFactory::extract_secret_kind(&b) {
        Some(SecretKind::Box(inner)) => assert_eq!(inner.text(), "u32"),
        _ => panic!("expected SecretBox"),
    }
    assert!(FieldFactory::extract_secret_kind(&plain("String")).is_none());
}

#[test]
fn required_field_with_prefix() {
    let f = field("db_url", plain("String"), vec![doc("Database URL"), env(vec![text("var", "DATABASE_URL")])]);
    let g = FieldFactory::parse_field(&f, Some("APP_")).unwrap();
    let FieldGenerator::Required(r) = &g else { panic!("expected required") };
    assert_eq!(r.env_var, "APP_DATABASE_URL");
    assert_eq!(r.doc.as_deref(), Some("Database URL"));
    assert_eq!(g.name(), "db_url");
    assert_eq!(g.env_var_name().map(|v| v.as_str()), Some("APP_DATABASE_URL"));
    assert!(!g.is_secret() && !g.is_flatten() && !g.is_optional());
    assert!(matches!(g.generate_assignment(), Assignment::Unwrap));
}

#[test]
fn no_prefix_keeps_the_variable() {
    let f = field("global", plain("String"), vec![env(vec![text("var", "GLOBAL_VAR"), flag("no_prefix")])]);
    let g = FieldFactory::parse_field(&f, Some("APP_")).unwrap();
    assert_eq!(g.env_var_name().map(|v| v.as_str()), Some("GLOBAL_VAR"));
}

#[test]
fn default_field_is_classified() {
    let f = field("port", plain("u16"), vec![env(vec![text("var", "PORT"), text("default", "8080")])]);
    let g = FieldFactory::parse_field(&f, None).unwrap();
    assert!(matches!(g, FieldGenerator::Default(_)));
    assert_eq!(g.default_value().map(|d| d.as_str()), Some("8080"));
    assert_eq!(g.type_label(), "u16");
}

#[test]
fn optional_field_needs_option_type() {
    let f = field("api_key", generic("Option", plain("String"), "Option < String >"), vec![env(vec![text("var", "API_KEY"), flag("optional")])]);
    let g = FieldFactory::parse_field(&f, None).unwrap();
    let FieldGenerator::Optional(o) = &g else { panic!("expected optional") };
    assert_eq!(o.inner_type.text(), "String");
    assert!(matches!(g.generate_assignment(), Assignment::Direct));
    let bad = field("api_key", plain("String"), vec![env(vec![text("var", "API_KEY"), flag("optional")])]);
    let Err(e) = FieldFactory::parse_field(&bad, None) else { panic!("expected an error") };
    assert_eq!(e.message, "Field marked `optional` must have type `Option<T>`");
    assert!(matches!(e.span, ErrorSpan::FieldType));
}

#[test]
fn secrecy_types_are_secret_without_the_option() {
    let f = field("token", plain("SecretString"), vec![env(vec![text("var", "TOKEN"), flag("optional")])]);
    let g = FieldFactory::parse_field(&f, Some("APP_")).unwrap();
    let FieldGenerator::SecretString(x) = &g else { panic!("expected SecretString") };
    assert_eq!(x.env_var, "APP_TOKEN");
    assert!(g.is_secret() && g.is_secrecy_type());
    assert_eq!(g.type_label(), "SecretString");
    let f = field("pin", generic("SecretBox", plain("u32"), "SecretBox < u32 >"), vec![env(vec![text("var", "PIN")])]);
    let g = FieldFactory::parse_field(&f, None).unwrap();
    assert!(matches!(g, FieldGenerator::SecretBox(_)));
    assert!(g.is_secret());
    assert_eq!(g.type_label(), "u32");
}

#[test]
fn flatten_prefix_combines_with_struct_prefix() {
    let f = field("database", plain("DatabaseConfig"), vec![env(vec![flag("flatten"), text("prefix", "DB_")])]);
    let g = FieldFactory::parse_field(&f, Some("APP_")).unwrap();
    assert_eq!(g.flatten_prefix().map(|p| p.as_str()), Some("APP_DB_"));
    let g = FieldFactory::parse_field(&f, None).unwrap();
    assert_eq!(g.flatten_prefix().map(|p| p.as_str()), Some("DB_"));
    let f = field("database", plain("DatabaseConfig"), vec![env(vec![flag("flatten")])]);
    let g = FieldFactory::parse_field(&f, Some("APP_")).unwrap();
    assert!(g.flatten_prefix().is_none());
    assert!(g.is_flatten());
    assert!(g.env_var_name().is_none());
    assert!(g.example_entries().is_empty());
    assert!(matches!(g.generate_example_fragment(), ExampleFragment::Nested(_)));
}

#[test]
fn example_entry_formats() {
    let e = EnvExampleEntry {
        var_name: s("DATABASE_URL"),
        doc: Some(s("Database connection URL")),
        required: true,
        default: None,
        secret: false,
        type_hint: s("String"),
    };
    assert_eq!(e.format(), "# Database connection URL (required, type: String)\nDATABASE_URL=");
    let e = EnvExampleEntry {
        var_name: s("PORT"),
        doc: Some(s("Server port")),
        required: false,
        default: Some(s("8080")),
        secret: false,
        type_hint: s("u16"),
    };
    assert_eq!(e.format(), "# Server port (type: u16)\n# PORT=8080");
    let e = EnvExampleEntry {
        var_name: s("TOKEN"),
        doc: None,
        required: true,
        default: None,
        secret: true,
        type_hint: s("SecretString"),
    };
    assert_eq!(e.format(), "# (required, secret, type: SecretString)\nTOKEN=");
    let e = EnvExampleEntry {
        var_name: s("API_KEY"),
        doc: None,
        required: false,
        default: None,
        secret: false,
        type_hint: s("Option<String>"),
    };
    assert!(e.format().ends_with("\n# API_KEY="));
}

#[test]
fn example_entries_per_kind() {
    let f = field("hosts", generic("Option", generic("Vec", plain("String"), "Vec < String >"), "Option < Vec < String > >"), vec![env(vec![text("var", "HOSTS"), flag("optional"), flag("secret")])]);
    let g = FieldFactory::parse_field(&f, None).unwrap();
    let es = g.example_entries();
    assert_eq!(es.len(), 1);
    assert_eq!(es[0].type_hint, "Option<Vec<String>>");
    assert!(!es[0].required && es[0].secret);
    match g.generate_example_fragment() {
        ExampleFragment::Text(t) => assert_eq!(t, "# (secret, type: Option<Vec<String>>)\n# HOSTS="),
        _ => panic!("expected text"),
    }
    let f = field("pin", generic("SecretBox", plain("u32"), "SecretBox < u32 >"), vec![env(vec![text("var", "PIN")])]);
    let es = FieldFactory::parse_field(&f, None).unwrap().example_entries();
    assert_eq!(es[0].type_hint, "SecretBox<u32>");
    assert!(es[0].required && es[0].secret);
}

#[test]
fn accessors_expose_options() {
    let f = field(
        "port",
        plain("u16"),
        vec![
            env(vec![
                text("var", "PORT"),
                text("default", "8080"),
                text("arg", "port"),
                NestedMeta { ident: Some(s("short")), value: MetaValue::Char('p') },
                text("validate", "check"),
            ]),
            AttrModel { ident: Some(s("profile")), doc: None, items: vec![text("dev", "3000")], syntax_error: None },
        ],
    );
    let g = FieldFactory::parse_field(&f, None).unwrap();
    let cli = g.cli_config().unwrap();
    assert_eq!(cli.long.as_deref(), Some("port"));
    assert_eq!(cli.short, Some('p'));
    assert_eq!(g.profile_config().unwrap().values, vec![(s("dev"), s("3000"))]);
    assert_eq!(g.validate_fn().map(|v| v.as_str()), Some("check"));
    assert!(g.format_config().is_none());
    assert_eq!(g.field_type().unwrap().text(), "u16");
}
