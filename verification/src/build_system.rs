use vstd::prelude::*;

use core::marker::PhantomData;

use crate::build_settings::{BuildEnv, BuildSettings, BuildSettingsBuilder, PathType};
use crate::compile_settings::SourceFileStrategy;
use crate::compile_system::{spec_compile_pipeline, CompileSystem};
use crate::errors::{BuildError, BuildErrorView};
use crate::fs_model::FsTree;
use crate::traits::{CompileStep, LinkStep};

verus! {

/// The whole build: the compile pipeline, then one link invocation over the
/// full, index-aligned artifact list, in source order. The result pairs the
/// product path with the directives the compile phase gathered.
pub open spec fn spec_build_pipeline<C: CompileStep, L: LinkStep>(
    settings: BuildSettings,
    env: BuildEnv,
    snapshots: Seq<FsTree>,
) -> Result<(Seq<char>, Seq<Seq<char>>), BuildErrorView> {
    match spec_compile_pipeline::<C>(settings.compile_settings, env, snapshots) {
        Err(e) => Err(e),
        Ok(rep) => match L::link_all_spec(
            rep.0,
            settings.product_path@,
            settings.product_name@,
            settings.compile_settings.configuration,
        ) {
            Err(m) => Err(BuildErrorView::LinkFailed(m)),
            Ok(p) => Ok((p, rep.1)),
        },
    }
}

/// What one whole build hands back: the product path, and the
/// rebuild-trigger directives gathered during the compile phase.
pub struct BuildReport {
    pub product_path: String,
    pub directives: Vec<String>,
}

/// A build system with separate compile and link steps.
///
/// Compare with [`crate::compile_system::CompileSystem`], a version with
/// only compile steps.
pub struct BuildSystem<Compiler: CompileStep, Linker: LinkStep> {
    compiler: PhantomData<Compiler>,
    linker: PhantomData<Linker>,
}

impl<Compiler: CompileStep, Linker: LinkStep> BuildSystem<Compiler, Linker> {
    /// Compiles and links using the settings specified; returns the product
    /// path and the gathered directives.
    pub fn build(settings: &BuildSettings, env: &BuildEnv, snapshots: &Vec<FsTree>) -> (r: Result<
        BuildReport,
        BuildError,
    >)
        requires
            settings.compile_settings.source_strategy matches SourceFileStrategy::SearchFromManifest(
                roots,
            ) ==> snapshots@.len() == roots@.len(),
        ensures
            match spec_build_pipeline::<Compiler, Linker>(*settings, *env, snapshots@) {
                Ok(rep) => r matches Ok(b) && b.product_path@ == rep.0 && b.directives.deep_view()
                    == rep.1,
                Err(e) => r matches Err(err) && err@ == e,
            },
    {
        let compiled = match CompileSystem::<Compiler>::build(
            &settings.compile_settings,
            env,
            snapshots,
        ) {
            Ok(c) => c,
            Err(e) => {
                return Err(e);
            },
        };
        match Linker::link_all(
            &compiled.artifacts,
            settings.product_path.as_str(),
            settings.product_name.as_str(),
            &settings.compile_settings.configuration,
        ) {
            Ok(p) => Ok(BuildReport { product_path: p, directives: compiled.directives }),
            Err(m) => Err(BuildError::LinkFailed(m)),
        }
    }

    /// Builds with no special settings: the product goes below the
    /// executable directory at `exe_path`, everything else defaults from
    /// the environment, and the one snapshot covers the default `src`
    /// search root. The usual entry point from a build script.
    pub fn build_rs(exe_path: String, env: &BuildEnv, snapshots: &Vec<FsTree>) -> (r: Result<
        BuildReport,
        BuildError,
    >)
        requires
            snapshots@.len() == 1,
        ensures
            match r {
                Ok(rep) => exists|bs: BuildSettings|
                    #[trigger] spec_build_rs_build_settings(exe_path, *env, bs)
                        && spec_build_pipeline::<Compiler, Linker>(bs, *env, snapshots@) == Ok::<
                        (Seq<char>, Seq<Seq<char>>),
                        BuildErrorView,
                    >((rep.product_path@, rep.directives.deep_view())),
                Err(e) => (e == BuildError::ConfigurationError && (BuildSettingsBuilder {
                    compile_settings: None,
                    product_path: Some(PathType::EXERelative(exe_path)),
                }).spec_finish_fails(*env)) || exists|bs: BuildSettings|
                    #[trigger] spec_build_rs_build_settings(exe_path, *env, bs)
                        && spec_build_pipeline::<Compiler, Linker>(bs, *env, snapshots@) == Err::<
                        (Seq<char>, Seq<Seq<char>>),
                        BuildErrorView,
                    >(e@),
            },
    {
        let settings = match BuildSettingsBuilder::new().product_path(
            PathType::EXERelative(exe_path),
        ).finish(env) {
            Ok(s) => s,
            Err(e) => {
                return Err(e);
            },
        };
        proof {
            if let SourceFileStrategy::SearchFromManifest(roots) =
                &settings.compile_settings.source_strategy {
                assert(roots.deep_view() == seq!["src"@]);
                assert(roots.deep_view().len() == roots@.len());
            }
        }
        let r = Self::build(&settings, env, snapshots);
        proof {
            assert(spec_build_rs_build_settings(exe_path, *env, settings));
        }
        r
    }
}

/// The settings [`BuildSystem::build_rs`] resolves for itself: defaulted
/// compile settings with intermediates in the scratch directory, the
/// product below the executable directory at `exe_path`, and the package
/// name as product name.
pub open spec fn spec_build_rs_build_settings(
    exe_path: String,
    env: BuildEnv,
    bs: BuildSettings,
) -> bool {
    (BuildSettingsBuilder {
        compile_settings: None,
        product_path: Some(PathType::EXERelative(exe_path)),
    }).spec_finish_ok(env, bs)
}

} // verus!
