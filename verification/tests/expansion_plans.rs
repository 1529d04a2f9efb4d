use procenv_macro::expand::args::{
    generate_cli_aware_loader, generate_cli_aware_source_tracking, CliLoader, CliSource,
};
use procenv_macro::expand::config::{
    generate_config_defaults_impl, generate_profile_defaults_for_config, generate_config_source, generate_default_entry, generate_env_mapping,
    generate_field_assignment_from_json, generate_field_extraction, generate_nested_defaults,
    generate_own_profile_default, generate_profile_default, needs_defaults_setup, ConfigSource,
    ConfigLayer, DefaultPart, EnvMapping, JsonAbsent, JsonAssignment, JsonExtraction, ProfileDefault,
};
use procenv_macro::expand::debug::{generate_debug_impl, DebugValue};
use procenv_macro::expand::env::{
    generate_from_env_impl, generate_dotenv_load, generate_field_loader, generate_prefixed_loader, generate_profile_setup,
    generate_simple_source_tracking, FieldLoader, InvalidProfile, ProfileSetup,
    SimpleSource,
};
use procenv_macro::expand::example::{env_example_header, generate_env_example_impl};
use procenv_macro::expand::runtime::{generate_runtime_access_impl, GetStrKind};
use procenv_macro::expand::sources::SourceTracking;
use procenv_macro::expand::validation::{generate_from_config_validated_impl, generate_validated_impl};
use procenv_macro::expand::{
    env_var_names, loader_names, DataModel, DeriveModel, ErrorReturn, Expander, Expansion, StructFields,
};
use procenv_macro::loader::{redacted_value, Conversion, ErrorLabel, Loader, Missing, VarRef};
use procenv_macro::field::{Assignment, ExampleFragment, FieldGenerator, GenericArgModel, PathSegmentModel, TypeModel};
use procenv_macro::parse::{reads_items, AttrModel, DotenvConfig, ErrorSpan, FieldModel, MetaValue, NestedMeta};

fn s(x: &str) -> String {
    x.to_string()
}

fn text(name: &str, v: &str) -> NestedMeta {
    NestedMeta { ident: Some(s(name)), value: MetaValue::Str(s(v)) }
}

fn flag(name: &str) -> NestedMeta {
    NestedMeta { ident: Some(s(name)), value: MetaValue::Absent }
}

fn attr(name: &str, items: Vec<NestedMeta>) -> AttrModel {
    AttrModel { ident: Some(s(name)), doc: None, items, syntax_error: None }
}

fn plain(name: &str) -> TypeModel {
    TypeModel::Path {
        last: Some(PathSegmentModel { ident: s(name), first_arg: GenericArgModel::NotAngleBracketed }),
        text: s(name),
    }
}

fn option_of(inner: &str) -> TypeModel {
    TypeModel::Path {
        last: Some(PathSegmentModel { ident: s("Option"), first_arg: GenericArgModel::Type(Box::new(plain(inner))) }),
        text: format!("Option < {} >", inner),
    }
}

fn field(name: &str, ty: TypeModel, items: Vec<NestedMeta>) -> FieldModel {
    FieldModel { ident: Some(s(name)), ty, attrs: vec![attr("env", items)] }
}

fn sample_fields() -> Vec<FieldModel> {
    vec![
        field("database_url", plain("String"), vec![text("var", "DATABASE_URL")]),
        field("port", plain("u16"), vec![text("var", "PORT"), text("default", "8080"), text("arg", "port")]),
        field("api_key", option_of("String"), vec![text("var", "API_KEY"), flag("optional"), flag("secret")]),
        field("token", plain("SecretString"), vec![text("var", "TOKEN")]),
        field("hosts", plain("Vec"), vec![text("var", "HOSTS"), text("format", "json"), text("validate", "check_hosts")]),
        field("database", plain("DatabaseConfig"), vec![flag("flatten"), text("prefix", "DB_")]),
    ]
}

fn sample_input() -> DeriveModel {
    DeriveModel {
        ident: s("Config"),
        attrs: vec![attr(
            "env_config",
            vec![text("prefix", "APP_"), text("file_optional", "config.toml"), text("profile_env", "APP_ENV"), flag("validate")],
        )],
        data: DataModel::Struct(StructFields::Named(sample_fields())),
    }
}

fn expansion() -> Expansion {
    match Expander::expand(&sample_input()) {
        Ok(x) => x,
        Err(e) => panic!("unexpected error: {}", e.message),
    }
}

#[test]
fn expansion_decides_generated_methods() {
    let x = expansion();
    assert_eq!(x.generators.len(), 6);
    assert!(x.from_config.is_some() && x.validated.is_some() && x.sources.from_args.is_some());
    assert_eq!(x.config.prefix.as_deref(), Some("APP_"));
    assert_eq!(x.generators[0].env_var_name().map(|v| v.as_str()), Some("APP_DATABASE_URL"));
    assert_eq!(x.generators[5].flatten_prefix().map(|v| v.as_str()), Some("APP_DB_"));
}

#[test]
fn non_struct_inputs_are_refused() {
    let cases = [
        (DataModel::Enum, "EnvConfig can only be derived for structs, not enums"),
        (DataModel::Union, "EnvConfig can only be derived for structs, not unions"),
        (DataModel::Struct(StructFields::Unnamed), "EnvConfig does not support tuple structs"),
        (DataModel::Struct(StructFields::Unit), "EnvConfig does not support unit structs"),
    ];
    for (data, msg) in cases {
        let input = DeriveModel { ident: s("C"), attrs: vec![], data };
        let Err(e) = Expander::expand(&input) else { panic!("expected an error") };
        assert_eq!(e.message, msg);
        assert!(matches!(e.span, ErrorSpan::Input));
        assert!(e.field.is_none());
    }
}

#[test]
fn field_error_names_its_field() {
    let fields = vec![
        field("a", plain("String"), vec![text("var", "A")]),
        field("b", plain("String"), vec![text("var", "B"), flag("bogus")]),
        field("c", plain("String"), vec![flag("bogus2")]),
    ];
    let input = DeriveModel { ident: s("C"), attrs: vec![], data: DataModel::Struct(StructFields::Named(fields)) };
    let Err(e) = Expander::expand(&input) else { panic!("expected an error") };
    assert_eq!(e.message, "Unknown option `bogus`");
    assert_eq!(e.field, Some(1));
}

#[test]
fn struct_attribute_error_comes_first() {
    let input = DeriveModel {
        ident: s("C"),
        attrs: vec![attr("env_config", vec![flag("nope")])],
        data: DataModel::Enum,
    };
    let Err(e) = Expander::expand(&input) else { panic!("expected an error") };
    assert_eq!(e.message, "unknown env_config option");
}

#[test]
fn debug_masks_manual_secrets_only() {
    let x = expansion();
    let d = generate_debug_impl(&x.generators);
    assert_eq!(d.len(), 6);
    assert_eq!(d[2].name, "api_key");
    assert!(d[2].value == DebugValue::Redacted);
    assert!(d[3].value == DebugValue::Field);
    assert!(d[0].value == DebugValue::Field);
}

#[test]
fn runtime_keys_skip_flatten_and_format_fields() {
    let x = expansion();
    let r = generate_runtime_access_impl(&x.generators);
    assert_eq!(r.keys, vec![s("database_url"), s("port"), s("api_key"), s("token")]);
    assert!(r.get_str_arms[0].kind == GetStrKind::Display);
    assert!(r.get_str_arms[2].kind == GetStrKind::Redacted);
    assert!(r.get_str_arms[3].kind == GetStrKind::Redacted);
    assert_eq!(r.nested.len(), 1);
    assert_eq!(r.nested[0].prefix, "database.");
}

#[test]
fn optional_value_is_shown_when_present() {
    let g = vec![field("level", option_of("u8"), vec![text("var", "LEVEL"), flag("optional")])];
    let input = DeriveModel { ident: s("C"), attrs: vec![], data: DataModel::Struct(StructFields::Named(g)) };
    let x = Expander::expand(&input).ok().unwrap();
    let r = generate_runtime_access_impl(&x.generators);
    assert!(r.get_str_arms[0].kind == GetStrKind::OptionalDisplay);
    assert!(x.from_config.is_none() && x.validated.is_none() && x.sources.from_args.is_none());
}

#[test]
fn env_example_fragments_follow_fields() {
    let x = expansion();
    let parts = generate_env_example_impl(&x.generators);
    assert_eq!(parts.len(), 6);
    match &parts[1] {
        ExampleFragment::Text(t) => assert_eq!(t, "# (type: u16)\n# APP_PORT=8080"),
        _ => panic!("expected text"),
    }
    assert!(matches!(parts[5], ExampleFragment::Nested(_)));
    assert_eq!(env_example_header(), "# Auto-generated by procenv");
}

#[test]
fn custom_validations_are_listed() {
    let x = expansion();
    let v = generate_validated_impl(&x.generators);
    assert_eq!(v.len(), 1);
    assert_eq!(v[0].field, "hosts");
    assert_eq!(v[0].function, "check_hosts");
}

#[test]
fn env_var_names_skip_flatten() {
    let x = expansion();
    assert_eq!(
        env_var_names(&x.generators),
        vec![s("APP_DATABASE_URL"), s("APP_PORT"), s("APP_API_KEY"), s("APP_TOKEN"), s("APP_HOSTS")]
    );
}

#[test]
fn dotenv_loading_plans() {
    let d = generate_dotenv_load(&None);
    assert!(!d.default_search && d.files.is_empty());
    let d = generate_dotenv_load(&Some(DotenvConfig::Default));
    assert!(d.default_search && d.files.is_empty());
    let d = generate_dotenv_load(&Some(DotenvConfig::Custom(s(".env.local"))));
    assert_eq!(d.files, vec![s(".env.local")]);
    let d = generate_dotenv_load(&Some(DotenvConfig::Multiple(vec![s(".env"), s(".env.local")])));
    assert_eq!(d.files, vec![s(".env.local"), s(".env")]);
}

#[test]
fn profile_setup_plans() {
    let x = expansion();
    match generate_profile_setup(&x.config) {
        ProfileSetup::Read { var, allowed, on_invalid } => {
            assert_eq!(var, "APP_ENV");
            assert!(allowed.is_none());
            assert!(on_invalid == InvalidProfile::Accumulate);
        }
        ProfileSetup::Disabled => panic!("expected a profile"),
    }
    let plain_input = DeriveModel { ident: s("C"), attrs: vec![], data: DataModel::Struct(StructFields::Named(vec![])) };
    let y = Expander::expand(&plain_input).ok().unwrap();
    assert!(matches!(generate_profile_setup(&y.config), ProfileSetup::Disabled));
}

#[test]
fn loaders_follow_format_and_profile() {
    let x = expansion();
    match generate_field_loader(&x.generators[0]) {
        FieldLoader::Base(Loader::Var(v)) => {
            assert!(matches!(v.var, VarRef::Named(ref e) if e == "APP_DATABASE_URL"));
            assert!(matches!(v.conversion, Conversion::Parse { label: ErrorLabel::Text(ref t), .. } if t == "String"));
            assert!(matches!(v.missing, Missing::Error));
            assert!(!v.secret);
        }
        _ => panic!("expected a variable loader"),
    }
    match generate_field_loader(&x.generators[4]) {
        FieldLoader::Base(Loader::Var(v)) => match v.conversion {
            Conversion::Deserialize { format, label: ErrorLabel::FormatData(l), .. } => {
                assert_eq!(format, "json");
                assert_eq!(l, "JSON");
            }
            _ => panic!("expected deserialization"),
        },
        _ => panic!("expected a format loader"),
    }
    match generate_prefixed_loader(&x.generators[0]) {
        Loader::Var(v) => {
            match &v.var {
                VarRef::Prefixed { base, effective_var } => {
                    assert_eq!(base, "APP_DATABASE_URL");
                    assert_eq!(effective_var, "__database_url_effective_var");
                }
                VarRef::Named(_) => panic!("expected a prefixed variable"),
            }
            assert_eq!(v.profile_flag.as_deref(), Some("__database_url_from_profile"));
            assert!(v.profile.is_none());
        }
        Loader::Nested(_) => panic!("expected a variable loader"),
    }
    match generate_prefixed_loader(&x.generators[4]) {
        Loader::Var(v) => assert!(matches!(v.var, VarRef::Named(_))),
        Loader::Nested(_) => panic!("expected a variable loader"),
    }
    match generate_prefixed_loader(&x.generators[5]) {
        Loader::Nested(n) => {
            assert_eq!(n.prefix.as_deref(), Some("APP_DB_"));
            assert_eq!(n.nested_sources_var, "__database_nested_sources");
        }
        Loader::Var(_) => panic!("expected a nested loader"),
    }
    let f = FieldModel {
        ident: Some(s("url")),
        ty: plain("String"),
        attrs: vec![attr("env", vec![text("var", "URL"), text("default", "x")]), attr("profile", vec![text("dev", "d")])],
    };
    let g = procenv_macro::field::FieldFactory::parse_field(&f, None).ok().unwrap();
    match generate_prefixed_loader(&g) {
        Loader::Var(v) => {
            assert_eq!(v.profile.as_ref().map(|p| p.arms.clone()), Some(vec![(s("dev"), s("d"))]));
            match &v.missing {
                Missing::Default { value, used_default_var } => {
                    assert_eq!(value, "x");
                    assert_eq!(used_default_var, "__url_used_default");
                }
                _ => panic!("expected the default"),
            }
            assert!(matches!(v.conversion, Conversion::Parse { label: ErrorLabel::RuntimeName, .. }));
        }
        Loader::Nested(_) => panic!("expected a variable loader"),
    }
    match generate_field_loader(&g) {
        FieldLoader::Profile(p) => {
            assert_eq!(p.arms, vec![(s("dev"), s("d"))]);
            assert_eq!(p.env_var, "URL");
            match &p.missing {
                Missing::Default { value, used_default_var } => {
                    assert_eq!(value, "x");
                    assert_eq!(used_default_var, "__url_used_default");
                }
                _ => panic!("expected the default"),
            }
            assert_eq!(p.profile_used_var, "__url_from_profile");
        }
        _ => panic!("expected a profile loader"),
    }
}

#[test]
fn missing_variable_rule_follows_the_field_kind() {
    let x = expansion();
    let rule = |i: usize| match x.generators[i].generate_loader() {
        Loader::Var(v) => v.missing,
        Loader::Nested(_) => panic!("expected a variable loader"),
    };
    assert!(matches!(rule(0), Missing::Error));
    assert!(matches!(rule(1), Missing::Default { ref value, .. } if value == "8080"));
    assert!(matches!(rule(2), Missing::Absent));
    assert!(matches!(rule(3), Missing::Error));
    match x.generators[3].generate_loader() {
        Loader::Var(v) => {
            assert!(v.secret);
            assert!(matches!(v.conversion, Conversion::SecretText));
        }
        Loader::Nested(_) => panic!("expected a variable loader"),
    }
    match x.generators[2].generate_loader() {
        Loader::Var(v) => assert!(v.secret),
        Loader::Nested(_) => panic!("expected a variable loader"),
    }
}

#[test]
fn source_tracking_plans() {
    let x = expansion();
    match x.generators[1].generate_source_tracking() {
        SourceTracking::WithDefault { name, env_var, source_var, used_default_var, profile_used_var } => {
            assert_eq!(name, "port");
            assert_eq!(env_var, "APP_PORT");
            assert_eq!(source_var, "__port_source");
            assert_eq!(used_default_var, "__port_used_default");
            assert!(profile_used_var.is_none());
        }
        _ => panic!("expected default tracking"),
    }
    assert!(matches!(x.generators[0].generate_source_tracking(), SourceTracking::Presence { .. }));
    match x.generators[5].generate_source_tracking() {
        SourceTracking::Nested { nested_sources_var, .. } => assert_eq!(nested_sources_var, "__database_nested_sources"),
        _ => panic!("expected nested tracking"),
    }
    match generate_simple_source_tracking(&x.generators[1]) {
        SimpleSource::Var { has_default, .. } => assert!(has_default),
        _ => panic!("expected a variable"),
    }
    assert!(matches!(generate_simple_source_tracking(&x.generators[5]), SimpleSource::Nested { .. }));
    let n = loader_names("port");
    assert_eq!(n.effective_var, "__port_effective_var");
    assert_eq!(n.source, "__port_source");
}

#[test]
fn cli_plans() {
    let x = expansion();
    let a = x.generators[1].generate_clap_arg().unwrap();
    assert_eq!(a.name, "port");
    assert_eq!(a.long, "port");
    assert!(a.short.is_none());
    assert!(x.generators[0].generate_clap_arg().is_none());
    assert_eq!(x.generators[1].generate_cli_extraction().unwrap().cli_var, "__port_cli");
    match generate_cli_aware_loader(&x.generators[1]) {
        CliLoader::Cli { arg_name, error_label, from_cli_var, base, .. } => {
            match base {
                Loader::Var(v) => assert!(matches!(v.missing, Missing::Default { ref value, .. } if value == "8080")),
                Loader::Nested(_) => panic!("expected a variable loader"),
            }
            assert_eq!(arg_name, "--port");
            assert_eq!(error_label, "u16");
            assert_eq!(from_cli_var, "__port_from_cli");
        }
        CliLoader::Env(_) => panic!("expected a CLI loader"),
    }
    assert!(matches!(generate_cli_aware_loader(&x.generators[0]), CliLoader::Env(Loader::Var(_))));
    assert!(matches!(generate_cli_aware_source_tracking(&x.generators[1]), CliSource::Cli { .. }));
    assert!(matches!(generate_cli_aware_source_tracking(&x.generators[0]), CliSource::Standard(_)));
}

#[test]
fn config_plans() {
    let x = expansion();
    match generate_env_mapping(&x.generators[0]) {
        EnvMapping::Direct { field_name, env_var } => {
            assert_eq!(field_name, "database_url");
            assert_eq!(env_var, "APP_DATABASE_URL");
        }
        _ => panic!("expected a direct mapping"),
    }
    match generate_env_mapping(&x.generators[5]) {
        EnvMapping::Nested { prefix, .. } => assert_eq!(prefix, "APP_DB_"),
        _ => panic!("expected a nested mapping"),
    }
    let d = generate_default_entry(&x.generators[1]).unwrap();
    assert_eq!(d.field_name, "port");
    assert_eq!(d.value, "8080");
    assert!(generate_default_entry(&x.generators[0]).is_none());
    assert!(generate_nested_defaults(&x.generators[5]).is_some());
    assert!(generate_nested_defaults(&x.generators[0]).is_none());
    assert!(needs_defaults_setup(&x.generators, &x.config));
    assert!(matches!(generate_profile_default(&x.generators[5]), Some(ProfileDefault::Nested { .. })));
    assert!(generate_profile_default(&x.generators[0]).is_none());
    assert!(generate_own_profile_default(&x.generators[5]).is_none());
    match generate_config_source(&x.generators[1]) {
        ConfigSource::Field { has_default, env_var, .. } => {
            assert!(has_default);
            assert_eq!(env_var, "APP_PORT");
        }
        _ => panic!("expected a field source"),
    }
    let e = generate_field_extraction(&x.generators[4]);
    assert_eq!(e.local_var, "__hosts");
    assert!(matches!(e.kind, JsonExtraction::Serde { .. }));
    assert!(e.null_is_absent);
    assert!(matches!(e.on_absent, JsonAbsent::MissingError { ref name } if name == "hosts"));
    let d = generate_field_extraction(&x.generators[1]);
    assert!(matches!(d.kind, JsonExtraction::Parse { .. }));
    match &d.on_absent {
        JsonAbsent::Default { value, error_prefix } => {
            assert_eq!(value, "8080");
            assert_eq!(error_prefix, "failed to parse default: ");
        }
        _ => panic!("expected the default"),
    }
    assert!(matches!(generate_field_extraction(&x.generators[2]).on_absent, JsonAbsent::NoValue));
    let n = generate_field_extraction(&x.generators[5]);
    assert!(!n.null_is_absent);
    assert!(matches!(n.on_absent, JsonAbsent::EmptyObject));
    assert!(matches!(generate_field_extraction(&x.generators[2]).kind, JsonExtraction::OptionalParse { .. }));
    assert!(matches!(generate_field_extraction(&x.generators[3]).kind, JsonExtraction::SecretString));
    assert!(matches!(generate_field_extraction(&x.generators[5]).kind, JsonExtraction::Nested { .. }));
    assert!(generate_field_assignment_from_json(&x.generators[2]) == JsonAssignment::Flatten);
    assert!(generate_field_assignment_from_json(&x.generators[0]) == JsonAssignment::Unwrap);
}

#[test]
fn defaults_layer_not_needed_without_defaults() {
    let fields = vec![field("a", plain("String"), vec![text("var", "A")])];
    let input = DeriveModel { ident: s("C"), attrs: vec![], data: DataModel::Struct(StructFields::Named(fields)) };
    let x = Expander::expand(&input).ok().unwrap();
    assert!(!needs_defaults_setup(&x.generators, &x.config));
    let _: &FieldGenerator = &x.generators[0];
}

#[test]
fn whole_method_plans_cover_every_field() {
    let x = expansion();
    assert_eq!(x.from_env.loaders.len(), 6);
    assert_eq!(x.from_env.assignments.len(), 6);
    assert!(matches!(x.from_env.assignments[2], Assignment::Direct));
    assert!(matches!(x.from_env.assignments[0], Assignment::Unwrap));
    assert_eq!(x.debug.len(), 6);
    assert_eq!(x.env_example.len(), 6);
    assert_eq!(x.external_prefix.loaders.len(), 6);
    assert_eq!(x.external_prefix.sources.len(), 6);
    assert!(!x.external_prefix.dotenv_loaded);
    assert_eq!(x.external_prefix.pre_dotenv_vars.len(), 5);
    assert_eq!(x.sources.sources.len(), 6);
    assert_eq!(x.runtime.keys.len(), 4);
    assert_eq!(x.from_json.extractions.len(), 6);
    assert!(x.from_json.assignments[2] == JsonAssignment::Flatten);
    assert_eq!(x.validated.as_ref().map(|v| v.len()), Some(1));
}

#[test]
fn from_args_plan_lists_cli_fields_only() {
    let x = expansion();
    let a = x.sources.from_args.as_ref().unwrap();
    assert_eq!(a.clap_args.len(), 1);
    assert_eq!(a.clap_args[0].name, "port");
    assert_eq!(a.cli_extractions.len(), 1);
    assert_eq!(a.cli_extractions[0].cli_var, "__port_cli");
    assert_eq!(a.loaders.len(), 6);
    assert!(matches!(a.loaders[1], CliLoader::Cli { .. }));
    assert!(matches!(a.loaders[0], CliLoader::Env(_)));
    assert_eq!(a.sources.len(), 6);
    assert!(matches!(a.sources[5], CliSource::Standard(SourceTracking::Nested { .. })));
    assert_eq!(a.pre_dotenv_vars.len(), 5);
}

#[test]
fn from_config_plan_layers_defaults_files_and_environment() {
    let x = expansion();
    let c = x.from_config.as_ref().unwrap();
    assert_eq!(c.files.len(), 1);
    assert_eq!(c.files[0].path, "config.toml");
    assert!(!c.files[0].required);
    assert_eq!(c.env_prefix.as_deref(), Some("APP_"));
    assert_eq!(c.env_mappings.len(), 6);
    let d = c.defaults.as_ref().unwrap();
    assert_eq!(d.entries.len(), 1);
    assert_eq!(d.entries[0].field_name, "port");
    assert_eq!(d.entries[0].value, "8080");
    assert_eq!(d.nested.len(), 1);
    assert_eq!(d.nested[0].field_name, "database");
    assert!(matches!(c.profile.setup, ProfileSetup::Read { on_invalid: InvalidProfile::Return, .. }));
    assert_eq!(c.profile.defaults.len(), 1);
    assert!(matches!(c.profile.defaults[0], ProfileDefault::Nested { .. }));
    assert_eq!(c.sources.len(), 6);
    assert!(!c.dotenv_loaded);
    assert_eq!(c.layers.len(), 3);
    assert!(matches!(c.layers[0], ConfigLayer::Defaults));
    assert!(matches!(&c.layers[1], ConfigLayer::File(f) if f.path == "config.toml" && !f.required));
    assert!(matches!(c.layers[2], ConfigLayer::Environment));
    assert_eq!(d.order.len(), 3);
    assert!(matches!(d.order[0], DefaultPart::Macro));
    assert!(matches!(d.order[1], DefaultPart::Nested));
    assert!(matches!(d.order[2], DefaultPart::Profile));
}

#[test]
fn config_layers_without_defaults_start_with_files() {
    let fields = vec![field("a", plain("String"), vec![text("var", "A")])];
    let attrs = vec![attr(
        "env_config",
        vec![text("file", "base.toml"), text("file_optional", "local.toml")],
    )];
    let input = DeriveModel { ident: s("C"), attrs, data: DataModel::Struct(StructFields::Named(fields)) };
    let x = Expander::expand(&input).ok().unwrap();
    let c = x.from_config.as_ref().unwrap();
    assert!(c.defaults.is_none());
    assert_eq!(c.layers.len(), 3);
    assert!(matches!(&c.layers[0], ConfigLayer::File(f) if f.path == "base.toml" && f.required));
    assert!(matches!(&c.layers[1], ConfigLayer::File(f) if f.path == "local.toml" && !f.required));
    assert!(matches!(c.layers[2], ConfigLayer::Environment));
}

#[test]
fn errors_are_returned_one_or_gathered() {
    let x = expansion();
    assert!(matches!(x.from_env.errors, ErrorReturn::OneOrMultiple));
    assert!(matches!(x.external_prefix.errors, ErrorReturn::OneOrMultiple));
    assert!(matches!(x.sources.errors, ErrorReturn::OneOrMultiple));
    assert!(matches!(x.sources.from_args.as_ref().unwrap().errors, ErrorReturn::OneOrMultiple));
    assert!(matches!(x.from_json.errors, ErrorReturn::RuntimeMultiple));
}

#[test]
fn config_defaults_plan_for_nested_use() {
    let x = expansion();
    let p = generate_config_defaults_impl(&x.generators);
    assert_eq!(p.defaults.len(), 1);
    assert_eq!(p.nested.len(), 1);
    assert!(p.profile_entries.is_empty());
    assert_eq!(p.mappings.len(), 6);
}

#[test]
fn profile_defaults_for_config_without_profile_env() {
    let fields = vec![field("a", plain("String"), vec![text("var", "A")])];
    let input = DeriveModel { ident: s("C"), attrs: vec![], data: DataModel::Struct(StructFields::Named(fields)) };
    let x = Expander::expand(&input).ok().unwrap();
    let p = generate_profile_defaults_for_config(&x.config, &x.generators);
    assert!(matches!(p.setup, ProfileSetup::Disabled));
    assert!(p.defaults.is_empty());
    assert!(generate_from_config_validated_impl(&x.generators).is_empty());
    let plan = generate_from_env_impl(&x.generators, &x.config);
    assert_eq!(plan.loaders.len(), 1);
    assert!(plan.dotenv.files.is_empty() && !plan.dotenv.default_search);
}

#[test]
fn secret_field_is_masked_in_every_plan() {
    let f = FieldModel {
        ident: Some(s("password")),
        ty: plain("String"),
        attrs: vec![
            attr("env", vec![text("var", "PASSWORD"), flag("secret"), text("arg", "password")]),
            attr("profile", vec![text("dev", "dev-pass")]),
        ],
    };
    let input = DeriveModel { ident: s("C"), attrs: vec![], data: DataModel::Struct(StructFields::Named(vec![f])) };
    let x = Expander::expand(&input).ok().unwrap();
    assert!(x.debug[0].value == DebugValue::Redacted);
    match &x.from_env.loaders[0] {
        FieldLoader::Profile(l) => assert!(l.secret),
        FieldLoader::Base(_) => panic!("expected a profile loader"),
    }
    match &x.sources.from_args.as_ref().unwrap().loaders[0] {
        CliLoader::Cli { secret, arg_name, .. } => {
            assert!(*secret);
            assert_eq!(arg_name, "--password");
        }
        CliLoader::Env(_) => panic!("expected a CLI loader"),
    }
    assert!(x.runtime.get_str_arms[0].kind == GetStrKind::Redacted);
}

#[test]
fn env_example_lists_every_variable() {
    let x = expansion();
    let ends = |i: usize, line: &str| match &x.env_example[i] {
        ExampleFragment::Text(t) => assert!(t.ends_with(line), "{} does not end with {}", t, line),
        _ => panic!("expected text"),
    };
    ends(0, "\nAPP_DATABASE_URL=");
    ends(1, "\n# APP_PORT=8080");
    ends(2, "\n# APP_API_KEY=");
    ends(3, "\nAPP_TOKEN=");
    ends(4, "\nAPP_HOSTS=");
}

#[test]
fn optional_field_with_profile_is_never_missing() {
    let f = FieldModel {
        ident: Some(s("level")),
        ty: option_of("u8"),
        attrs: vec![
            attr("env", vec![text("var", "LEVEL"), flag("optional")]),
            attr("profile", vec![text("dev", "3")]),
        ],
    };
    let g = procenv_macro::field::FieldFactory::parse_field(&f, None).ok().unwrap();
    match generate_field_loader(&g) {
        FieldLoader::Profile(p) => assert!(matches!(p.missing, Missing::Absent)),
        _ => panic!("expected a profile loader"),
    }
    match generate_prefixed_loader(&g) {
        Loader::Var(v) => assert!(matches!(v.missing, Missing::Absent)),
        Loader::Nested(_) => panic!("expected a variable loader"),
    }
}

#[test]
fn debug_placeholder_is_stars() {
    assert_eq!(procenv_macro::expand::debug::redaction_placeholder(), "***");
}

#[test]
fn secret_format_field_errors_carry_redacted_value() {
    let fields = vec![
        field("cfg", plain("Cfg"), vec![text("var", "CFG"), flag("secret"), text("format", "json")]),
        field("port", plain("u16"), vec![text("var", "PORT"), flag("secret")]),
        field("name", plain("String"), vec![text("var", "NAME"), text("format", "json")]),
    ];
    let input = DeriveModel { ident: s("C"), attrs: vec![], data: DataModel::Struct(StructFields::Named(fields)) };
    let x = Expander::expand(&input).ok().unwrap();
    assert!(matches!(&x.from_env.loaders[0], FieldLoader::Base(Loader::Var(v)) if v.redact_value && v.secret));
    assert!(matches!(&x.from_env.loaders[1], FieldLoader::Base(Loader::Var(v)) if !v.redact_value && v.secret));
    assert!(matches!(&x.from_env.loaders[2], FieldLoader::Base(Loader::Var(v)) if !v.redact_value && !v.secret));
    assert!(matches!(&x.external_prefix.loaders[0], Loader::Var(v) if v.redact_value && v.secret));
    assert!(matches!(&x.external_prefix.loaders[1], Loader::Var(v) if !v.redact_value && v.secret));
    assert_eq!(redacted_value(), "[REDACTED]");
}

#[test]
fn only_env_attributes_are_read() {
    assert!(reads_items(&Some(s("env"))));
    assert!(reads_items(&Some(s("env_config"))));
    assert!(reads_items(&Some(s("profile"))));
    assert!(!reads_items(&Some(s("doc"))));
    assert!(!reads_items(&Some(s("envs"))));
    assert!(!reads_items(&None));
}
