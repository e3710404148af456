use java_updater::config::InstallationConfig;
use java_updater::vars::{
    AsIsVarResolver, CombinedVarResolver, OsEnvVarResolver, PrefixedVarResolver, RustEnvVarResolver,
    SimpleVarResolver, VarError, VarExpander, VarResolver,
};

fn env_snapshot(vars: &[(&str, &str)]) -> OsEnvVarResolver {
    OsEnvVarResolver::from_vars(vars.iter().map(|(k, v)| (k.to_string(), v.to_string())).collect())
}

fn config(directory: &str) -> InstallationConfig {
    InstallationConfig {
        architecture: "x86_64".to_string(),
        directory: directory.to_string(),
        enabled: true,
        package_type: "jdk".to_string(),
        vendor: "eclipse".to_string(),
        version: "17".to_string(),
        on_failure: Vec::new(),
        on_success: Vec::new(),
        on_update: Vec::new(),
    }
}

#[test]
fn as_is_var_resolver() {
    let resolver = AsIsVarResolver;
    let resolved = resolver.resolve_var("abc.def").unwrap();
    assert_eq!(resolved, "${abc.def}");
}

#[test]
fn env_var_resolver_known_var() {
    let resolver = env_snapshot(&[("MY_SHELL_VAR1", "MY_SHELL_VAL")]);
    let resolved = resolver.resolve_var("MY_SHELL_VAR1").unwrap();
    assert_eq!(resolved, "MY_SHELL_VAL");
}

#[test]
fn env_var_resolver_unknown_var() {
    let resolver = env_snapshot(&[]);
    let resolved = resolver.resolve_var("env.MY_SHELL_VAR2");
    let failed = match resolved {
        Ok(_) => false,
        Err(err) => matches!(err, VarError::NotPresent(name) if name == "env.MY_SHELL_VAR2"),
    };
    assert!(failed);
}

#[test]
fn rust_env_var_resolver_arch() {
    let resolver = RustEnvVarResolver::new("x86_64", "unix", "linux");
    let resolved = resolver.resolve_var("JU_ARCH").unwrap();
    assert_eq!(resolved, "x86_64");
}

#[test]
fn rust_env_var_resolver_family() {
    let resolver = RustEnvVarResolver::new("x86_64", "unix", "linux");
    let resolved = resolver.resolve_var("JU_FAMILY").unwrap();
    assert_eq!(resolved, "unix");
}

#[test]
fn rust_env_var_resolver_os() {
    let resolver = RustEnvVarResolver::new("x86_64", "unix", "linux");
    let resolved = resolver.resolve_var("JU_OS").unwrap();
    assert_eq!(resolved, "linux");
}

#[test]
fn simple_var_resolver_known_var() {
    let mut resolver = SimpleVarResolver::new();
    resolver.insert("foo.bar", "baz");
    let resolved = resolver.resolve_var("foo.bar").unwrap();
    assert_eq!(resolved, "baz");
}

#[test]
fn simple_var_resolver_unknown_var() {
    let mut resolver = SimpleVarResolver::new();
    resolver.insert("foo.bar", "baz");
    let resolved = resolver.resolve_var("foo.buz");
    let failed = match resolved {
        Ok(_) => false,
        Err(err) => matches!(err, VarError::NotPresent(name) if name == "foo.buz"),
    };
    assert!(failed);
}

#[test]
fn simple_var_resolver_later_value_wins() {
    let mut resolver = SimpleVarResolver::new();
    resolver.insert("a", "1");
    resolver.insert("a", "2");
    assert_eq!(resolver.resolve_var("a").unwrap(), "2");
}

fn var_expander(environment: &[(&str, &str)]) -> VarExpander {
    let mut foo_resolver = SimpleVarResolver::new();
    foo_resolver.insert("foo", "bar");
    let mut baz_resolver = SimpleVarResolver::new();
    baz_resolver.insert("baz", "${foo}");
    let mut buz_resolver = SimpleVarResolver::new();
    buz_resolver.insert("buz", "${buz}");
    let env_var_resolver = PrefixedVarResolver::new("env.", VarResolver::OsEnv(env_snapshot(environment)));
    VarExpander::new(vec![
        VarResolver::Simple(foo_resolver),
        VarResolver::Simple(baz_resolver),
        VarResolver::Simple(buz_resolver),
        VarResolver::Prefixed(env_var_resolver),
    ])
}

#[test]
fn var_expander_known_env_var() {
    let expanded = var_expander(&[("MY_SHELL_VAR3", "MY_SHELL_VAL")]).expand("${env.MY_SHELL_VAR3}").unwrap();
    assert_eq!(expanded, "MY_SHELL_VAL");
}

#[test]
fn var_expander_unknown_env_var() {
    let expanded = var_expander(&[]).expand("${env.MY_SHELL_VAR4}");
    let failed = match expanded {
        Ok(_) => false,
        Err(err) => matches!(err, VarError::NotPresent(name) if name == "env.MY_SHELL_VAR4"),
    };
    assert!(failed);
}

#[test]
fn var_expander_known_simple_var() {
    let expanded = var_expander(&[]).expand("${foo}").unwrap();
    assert_eq!(expanded, "bar");
}

#[test]
fn var_expander_known_simple_var_buz() {
    let expanded = var_expander(&[]).expand("${buz}").unwrap();
    assert_eq!(expanded, "${buz}");
}

#[test]
fn var_expander_known_simple_var_nested() {
    let expanded = var_expander(&[]).expand("${baz}").unwrap();
    assert_eq!(expanded, "bar");
}

#[test]
fn var_expander_unknown_simple_var() {
    let expanded = var_expander(&[]).expand("${xyz}");
    let failed = match expanded {
        Ok(_) => false,
        Err(err) => matches!(err, VarError::NotPresent(name) if name == "xyz"),
    };
    assert!(failed);
}

fn chain_a_b(lenient: bool) -> VarExpander {
    let mut table = SimpleVarResolver::new();
    table.insert("a", "${b}");
    table.insert("b", "value");
    let mut resolvers = vec![VarResolver::Simple(table)];
    if lenient {
        resolvers.push(VarResolver::AsIs(AsIsVarResolver));
    }
    VarExpander::new(resolvers)
}

#[test]
fn lenient_expansion_reaches_fixed_point() {
    assert_eq!(chain_a_b(true).expand("${a}").unwrap(), "value");
}

#[test]
fn lenient_expansion_keeps_unknown_variable() {
    assert_eq!(chain_a_b(true).expand("${c}").unwrap(), "${c}");
}

#[test]
fn strict_expansion_names_unknown_variable() {
    assert_eq!(chain_a_b(false).expand("${c}"), Err(VarError::NotPresent("c".to_string())));
    assert_eq!(chain_a_b(false).expand("${a}").unwrap(), "value");
}

#[test]
fn expansion_of_bare_names_defaults_and_dollars() {
    let e = chain_a_b(false);
    assert_eq!(e.expand("$b/x").unwrap(), "value/x");
    assert_eq!(e.expand("${nope:-fallback}").unwrap(), "fallback");
    assert_eq!(e.expand("cost $$").unwrap(), "cost $");
    assert_eq!(e.expand("cost $$5"), Err(VarError::NotPresent("5".to_string())));
    assert_eq!(e.expand("open ${b").unwrap(), "open ${b");
    assert_eq!(e.expand("plain text").unwrap(), "plain text");
}

#[test]
fn expansion_stops_after_bounded_passes() {
    let mut table = SimpleVarResolver::new();
    table.insert("loop", "x${loop}");
    let e = VarExpander::new(vec![VarResolver::Simple(table)]);
    let expanded = e.expand("${loop}").unwrap();
    assert!(expanded.starts_with("xxxx"));
    assert!(expanded.ends_with("${loop}"));
}

#[test]
fn combined_resolver_takes_first_value() {
    let mut first = SimpleVarResolver::new();
    first.insert("k", "one");
    let mut second = SimpleVarResolver::new();
    second.insert("k", "two");
    second.insert("only", "second");
    let chain = CombinedVarResolver::new(vec![VarResolver::Simple(first), VarResolver::Simple(second)]);
    assert_eq!(chain.resolve_var("k").unwrap(), "one");
    assert_eq!(chain.resolve_var("only").unwrap(), "second");
    assert_eq!(chain.resolve_var("none"), Err(VarError::NotPresent("none".to_string())));
}

#[test]
fn resolve_vars() {
    let directory = "${JU_CONFIG_ARCH}/${JU_CONFIG_TYPE}/${JU_CONFIG_VENDOR}/${JU_CONFIG_VERSION}/${JU_OS}";
    let config = config(directory);
    assert_eq!(Ok("x86_64".to_string()), config.resolve_var("JU_CONFIG_ARCH"));
    assert_eq!(Ok("jdk".to_string()), config.resolve_var("JU_CONFIG_TYPE"));
    assert_eq!(Ok(directory.to_string()), config.resolve_var("JU_CONFIG_DIRECTORY"));
    assert_eq!(Ok("eclipse".to_string()), config.resolve_var("JU_CONFIG_VENDOR"));
    assert_eq!(Ok("17".to_string()), config.resolve_var("JU_CONFIG_VERSION"));
}

#[test]
fn expand_vars() {
    let directory = "${JU_CONFIG_ARCH}/${JU_CONFIG_TYPE}/${JU_CONFIG_VENDOR}/${JU_CONFIG_VERSION}/${JU_OS}";
    let config = config(directory);
    let mut simple_var_resolver = SimpleVarResolver::new();
    simple_var_resolver.insert("JU_OS", "linux");
    let var_expander = VarExpander::new(vec![VarResolver::Simple(simple_var_resolver), VarResolver::Simple(config.var_resolver())]);
    assert_eq!(Ok("x86_64".to_string()), var_expander.expand("${JU_CONFIG_ARCH}"));
    assert_eq!(Ok("jdk".to_string()), var_expander.expand("${JU_CONFIG_TYPE}"));
    assert_eq!(Ok("x86_64/jdk/eclipse/17/linux".to_string()), var_expander.expand("${JU_CONFIG_DIRECTORY}"));
    assert_eq!(Ok("eclipse".to_string()), var_expander.expand("${JU_CONFIG_VENDOR}"));
    assert_eq!(Ok("17".to_string()), var_expander.expand("${JU_CONFIG_VERSION}"));
}

#[test]
fn expand_directory() {
    let directory = "${JU_CONFIG_ARCH}/${JU_CONFIG_TYPE}/${JU_CONFIG_VENDOR}/${JU_CONFIG_VERSION}/${JU_OS}/${JU_UNSUPPORTED}";
    let config = config(directory);
    let actual = config.expand_directory(env_snapshot(&[]), RustEnvVarResolver::new("x86_64", "unix", "linux"));
    assert_eq!("x86_64/jdk/eclipse/17/linux/${JU_UNSUPPORTED}", actual);
}

#[test]
fn expand_directory_reads_environment() {
    let config = config("${env.HOME}/java/${JU_CONFIG_VERSION}");
    let actual = config.expand_directory(env_snapshot(&[("HOME", "/home/me")]), RustEnvVarResolver::new("x86_64", "unix", "linux"));
    assert_eq!("/home/me/java/17", actual);
}
