//! The configuration of an installation.

use crate::vars::{
    answer_matches, expansion, pairs_view, AsIsVarResolver, OsEnvVarResolver, PrefixedVarResolver,
    ResolverModel, RustEnvVarResolver, SimpleVarResolver, VarExpander, VarResolver, VarError,
};
use vstd::prelude::*;
use vstd::string::*;

verus! {

/// The configuration of a notify command.
#[derive(Debug)]
pub struct NotifyCommandConfig {
    /// The path to the executable.
    pub path: String,
    /// The arguments for the executable.
    pub args: Vec<String>,
    /// The optional working directory for the executable.
    pub directory: Option<String>,
}

/// The configuration of an installation.
#[derive(Debug)]
pub struct InstallationConfig {
    /// The architecture of the installation.
    pub architecture: String,
    /// The directory of the installation, a template.
    pub directory: String,
    /// Whether the installation is enabled.
    pub enabled: bool,
    /// The package type of the installation (`jdk` or `jre`).
    pub package_type: String,
    /// The vendor of the installation.
    pub vendor: String,
    /// The major version of the installation.
    pub version: String,
    /// The commands executed on failure.
    pub on_failure: Vec<NotifyCommandConfig>,
    /// The commands executed on success.
    pub on_success: Vec<NotifyCommandConfig>,
    /// The commands executed on update.
    pub on_update: Vec<NotifyCommandConfig>,
}

/// The default of `enabled`: an installation is processed unless it says otherwise.
pub fn installation_enabled_default() -> (r: bool)
    ensures
        r,
{
    true
}

impl InstallationConfig {
    /// The names under which the fields of this configuration are known.
    pub open spec fn table(&self) -> Seq<(Seq<char>, Seq<char>)> {
        seq![
            ("JU_CONFIG_ARCH"@, self.architecture@),
            ("JU_CONFIG_DIRECTORY"@, self.directory@),
            ("JU_CONFIG_TYPE"@, self.package_type@),
            ("JU_CONFIG_VENDOR"@, self.vendor@),
            ("JU_CONFIG_VERSION"@, self.version@),
        ]
    }

    /// A resolver for the names of `table`.
    pub fn var_resolver(&self) -> (r: SimpleVarResolver)
        ensures
            r.view() == self.table(),
    {
        let mut r = SimpleVarResolver::new();
        r.insert("JU_CONFIG_ARCH", self.architecture.as_str());
        r.insert("JU_CONFIG_DIRECTORY", self.directory.as_str());
        r.insert("JU_CONFIG_TYPE", self.package_type.as_str());
        r.insert("JU_CONFIG_VENDOR", self.vendor.as_str());
        r.insert("JU_CONFIG_VERSION", self.version.as_str());
        assert(r.view() =~= self.table());
        r
    }

    /// Resolves one of the names of `table` to the field's value.
    pub fn resolve_var(&self, v: &str) -> (r: Result<String, VarError>)
        ensures
            answer_matches(r, ResolverModel::Table(self.table()).answer(v@)),
    {
        self.var_resolver().resolve_var(v)
    }

    /// The chain that directory templates are expanded through: this configuration's
    /// fields, the environment under `env.`, the platform constants, and last a
    /// resolver that leaves unknown names as they are.
    pub open spec fn directory_chain(&self, environment: Seq<(Seq<char>, Seq<char>)>, platform: Seq<(Seq<char>, Seq<char>)>) -> Seq<ResolverModel> {
        seq![
            ResolverModel::Table(self.table()),
            ResolverModel::Prefixed("env."@, Box::new(ResolverModel::Table(environment))),
            ResolverModel::Table(platform),
            ResolverModel::AsIs,
        ]
    }

    /// `directory` with all known variables expanded and unknown ones left as they are;
    /// the template itself where expansion fails.
    pub fn expand_directory(&self, environment: OsEnvVarResolver, platform: RustEnvVarResolver) -> (r: String)
        ensures
            r@ == match expansion(self.directory@, self.directory_chain(environment.view(), platform.view())) {
                Ok(t) => t,
                Err(_) => self.directory@,
            },
    {
        let ghost chain = self.directory_chain(environment.view(), platform.view());
        let mut resolvers: Vec<VarResolver> = Vec::new();
        resolvers.push(VarResolver::Simple(self.var_resolver()));
        let inner = VarResolver::OsEnv(environment);
        assert(inner.model() == ResolverModel::Table(environment.view()));
        let prefixed = PrefixedVarResolver::new("env.", inner);
        assert(VarResolver::Prefixed(prefixed).model() == chain[1]);
        resolvers.push(VarResolver::Prefixed(prefixed));
        resolvers.push(VarResolver::RustEnv(platform));
        resolvers.push(VarResolver::AsIs(AsIsVarResolver));
        let expander = VarExpander::new(resolvers);
        proof {
            assert(expander.view() =~= chain);
        }
        match expander.expand(self.directory.as_str()) {
            Ok(t) => t,
            Err(_) => self.directory.clone(),
        }
    }
}

} // verus!
