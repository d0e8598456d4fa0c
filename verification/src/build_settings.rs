use vstd::prelude::*;

use crate::compile_settings::{
    spec_default_strategy, spec_resolved_configuration, spec_resolved_intermediate,
    CompileSettings, CompileSettingsBuilder,
};
use crate::errors::BuildError;
use crate::paths::{join_path, pop_path, spec_join, spec_pop};

verus! {

/// Whether a build is a debug or a release build. Immutable once resolved;
/// threaded read-only into every compile and link call.
#[derive(Copy, Clone, PartialEq, Eq, Structural, Debug)]
pub enum Configuration {
    Debug,
    Release,
}

/// The process-environment values that settings resolution may default
/// from. The embedding application reads them once at start-up; a `None`
/// field whose value turns out to be needed is a fatal configuration error.
pub struct BuildEnv {
    /// The build-script scratch directory (three components below the
    /// target directory).
    pub out_dir: Option<String>,
    /// The directory holding the project manifest; search roots are
    /// resolved against it.
    pub manifest_dir: Option<String>,
    /// `"true"` for a debug build, `"false"` for a release build.
    pub debug: Option<String>,
    /// The package name, used as the product name.
    pub pkg_name: Option<String>,
}

/// How an output location is specified.
#[non_exhaustive]
pub enum PathType {
    /// A path relative to the directory the built executable lands in: the
    /// scratch directory with its last three components dropped, then the
    /// given path below it.
    EXERelative(String),
    /// Exactly the given path.
    Exact(String),
}

impl PathType {
    /// The location `self` stands for, given the scratch directory, or
    /// `None` when it is needed and absent.
    pub open spec fn spec_path(self, out_dir: Option<Seq<char>>) -> Option<Seq<char>> {
        match self {
            PathType::Exact(p) => Some(p@),
            PathType::EXERelative(rel) => match out_dir {
                None => None,
                Some(od) => Some(spec_join(spec_pop(spec_pop(spec_pop(od))), rel@)),
            },
        }
    }

    /// Resolves `self` to a concrete path, exactly as [`Self::spec_path`]
    /// describes; a needed but absent scratch directory is a configuration
    /// error.
    pub fn path(&self, env: &BuildEnv) -> (r: Result<String, BuildError>)
        ensures
            match r {
                Ok(p) => self.spec_path(env.out_dir.deep_view()) == Some(p@),
                Err(e) => self.spec_path(env.out_dir.deep_view()) is None && e
                    == BuildError::ConfigurationError,
            },
    {
        match self {
            PathType::Exact(p) => Ok(p.clone()),
            PathType::EXERelative(rel) => match &env.out_dir {
                None => Err(BuildError::ConfigurationError),
                Some(od) => {
                    let p1 = pop_path(od.as_str());
                    let p2 = pop_path(p1.as_str());
                    let p3 = pop_path(p2.as_str());
                    Ok(join_path(p3.as_str(), rel.as_str()))
                },
            },
        }
    }
}

/// Everything one whole build (compile phases plus one link phase) needs:
/// the compile settings, the final product path, and the product name.
pub struct BuildSettings {
    pub compile_settings: CompileSettings,
    /// Where the final product goes.
    pub product_path: String,
    /// The product name, e.g. a library name.
    pub product_name: String,
}

impl BuildSettings {
    /// Builder for `BuildSettings`.
    pub fn build() -> (r: BuildSettingsBuilder)
        ensures
            r.compile_settings is None,
            r.product_path is None,
    {
        BuildSettingsBuilder::new()
    }

    /// Resolves build settings entirely from environment defaults.
    pub fn auto(env: &BuildEnv) -> (r: Result<BuildSettings, BuildError>)
        ensures
            match r {
                Ok(bs) => BuildSettingsBuilder::spec_new().spec_finish_ok(*env, bs),
                Err(e) => e == BuildError::ConfigurationError
                    && BuildSettingsBuilder::spec_new().spec_finish_fails(*env),
            },
    {
        BuildSettingsBuilder::new().finish(env)
    }
}

/// Builder for [`BuildSettings`]: each field may be set explicitly, and
/// whatever is left unset defaults from the environment when the builder is
/// finished.
pub struct BuildSettingsBuilder {
    pub compile_settings: Option<CompileSettings>,
    pub product_path: Option<PathType>,
}

impl BuildSettingsBuilder {
    /// The state of a fresh builder.
    pub open spec fn spec_new() -> BuildSettingsBuilder {
        BuildSettingsBuilder { compile_settings: None, product_path: None }
    }

    pub fn new() -> (r: Self)
        ensures
            r == Self::spec_new(),
    {
        BuildSettingsBuilder { compile_settings: None, product_path: None }
    }

    /// Specify where the product is stored.
    pub fn product_path(self, path: PathType) -> (r: Self)
        ensures
            r.product_path == Some(path),
            r.compile_settings == self.compile_settings,
    {
        BuildSettingsBuilder { product_path: Some(path), ..self }
    }

    /// Specify the compile settings to embed.
    pub fn compile_settings(self, settings: CompileSettings) -> (r: Self)
        ensures
            r.compile_settings == Some(settings),
            r.product_path == self.product_path,
    {
        BuildSettingsBuilder { compile_settings: Some(settings), ..self }
    }

    /// The product path `self` resolves to under `env`, or `None` when a
    /// needed environment value is absent. An unset product path defaults
    /// to the executable directory itself.
    pub open spec fn spec_product_path(self, env: BuildEnv) -> Option<Seq<char>> {
        match self.product_path {
            Some(pt) => pt.spec_path(env.out_dir.deep_view()),
            None => match env.out_dir.deep_view() {
                None => None,
                Some(od) => Some(spec_pop(spec_pop(spec_pop(od)))),
            },
        }
    }

    /// What a successful [`Self::finish`] returns: embedded compile
    /// settings as given (or defaulted with the link step in mind), the
    /// resolved product path, and the package name as product name.
    pub open spec fn spec_finish_ok(self, env: BuildEnv, bs: BuildSettings) -> bool {
        &&& (match self.compile_settings {
            Some(cs) => bs.compile_settings == cs,
            None => {
                &&& Some(bs.compile_settings.intermediate_path@) == spec_resolved_intermediate(
                    None,
                    env,
                    true,
                )
                &&& Some(bs.compile_settings.configuration) == spec_resolved_configuration(
                    None,
                    env,
                )
                &&& spec_default_strategy(bs.compile_settings.source_strategy)
                &&& bs.compile_settings.flags@ == Seq::<String>::empty()
            },
        })
        &&& Some(bs.product_path@) == self.spec_product_path(env)
        &&& env.pkg_name.deep_view() == Some(bs.product_name@)
    }

    /// Whether finishing `self` under `env` must fail: a value was left
    /// unset and the environment cannot supply it.
    pub open spec fn spec_finish_fails(self, env: BuildEnv) -> bool {
        ||| (match self.compile_settings {
            None => spec_resolved_intermediate(None, env, true) is None
                || spec_resolved_configuration(None, env) is None,
            Some(_) => false,
        })
        ||| self.spec_product_path(env) is None
        ||| env.pkg_name is None
    }

    /// Resolves the remaining defaults and produces the settings; fails,
    /// with a configuration error, exactly when a needed environment value
    /// is absent or malformed.
    pub fn finish(self, env: &BuildEnv) -> (r: Result<BuildSettings, BuildError>)
        ensures
            match r {
                Ok(bs) => self.spec_finish_ok(*env, bs) && !self.spec_finish_fails(*env),
                Err(e) => e == BuildError::ConfigurationError && self.spec_finish_fails(*env),
            },
    {
        let compile_settings = match self.compile_settings {
            None => {
                // Defaulted compile settings inside build settings use the
                // link-phase flavour: intermediates go to the scratch
                // directory.
                match CompileSettingsBuilder::new().finish_linked(env) {
                    Ok(cs) => cs,
                    Err(e) => {
                        return Err(e);
                    },
                }
            },
            Some(settings) => settings,
        };
        let product_path = match self.product_path {
            Some(path) => match path.path(env) {
                Ok(p) => p,
                Err(e) => {
                    return Err(e);
                },
            },
            None => match PathType::EXERelative(String::new()).path(env) {
                Ok(p) => p,
                Err(e) => {
                    return Err(e);
                },
            },
        };
        let product_name = match &env.pkg_name {
            Some(n) => n.clone(),
            None => {
                return Err(BuildError::ConfigurationError);
            },
        };
        Ok(BuildSettings { compile_settings, product_path, product_name })
    }
}

} // verus!
