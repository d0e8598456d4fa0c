use vstd::prelude::*;

use core::marker::PhantomData;

use crate::build_settings::{BuildEnv, Configuration, PathType};
use crate::compile_settings::{
    spec_default_strategy, spec_resolved_configuration, CompileSettings, CompileSettingsBuilder,
    SourceFileStrategy,
};
use crate::dependency_parser::{parse, spec_parse};
use crate::errors::{BuildError, BuildErrorView};
use crate::fs_model::FsTree;
use crate::paths::{join_path, spec_join, spec_pop};
use crate::traits::CompileStep;

verus! {

/// The rebuild-trigger directive for one discovered dependency path: the
/// line the host build tool watches for.
pub open spec fn spec_directive(path: Seq<char>) -> Seq<char> {
    "cargo:rerun-if-changed='"@ + path + "'"@
}

/// The directives for one manifest's dependency list, in parse order.
pub open spec fn spec_directives_for(deps: Seq<Seq<char>>) -> Seq<Seq<char>> {
    deps.map_values(|d: Seq<char>| spec_directive(d))
}

/// Renders the rebuild-trigger directive for one dependency path.
pub fn directive_for(path: &str) -> (r: String)
    ensures
        r@ == spec_directive(path@),
{
    let r = String::from_str("cargo:rerun-if-changed='").concat(path).concat("'");
    proof {
        assert(r@ =~= spec_directive(path@));
    }
    r
}

/// The compile loop over the remaining sources, in resolved order: each
/// source is compiled, its manifest parsed, and the finds turned into
/// directives. The result pairs the artifact paths (index-aligned with the
/// sources) with the concatenated directives. The first failure — a compile
/// step's own, or a malformed manifest — aborts the rest.
pub open spec fn spec_compile_sources<C: CompileStep>(
    sources: Seq<Seq<char>>,
    dir: Seq<char>,
    config: Configuration,
    dep_path: Seq<char>,
    flags: Seq<Seq<char>>,
) -> Result<(Seq<Seq<char>>, Seq<Seq<char>>), BuildErrorView>
    decreases sources.len(),
{
    if sources.len() == 0 {
        Ok((Seq::empty(), Seq::empty()))
    } else {
        match C::compile_one_spec(sources[0], dir, config, dep_path, flags) {
            Err(m) => Err(BuildErrorView::CompileFailed(m)),
            Ok(out) => match spec_parse(out.1) {
                Err(c) => Err(BuildErrorView::InvalidEscape(c)),
                Ok(deps) => match spec_compile_sources::<C>(
                    sources.skip(1),
                    dir,
                    config,
                    dep_path,
                    flags,
                ) {
                    Err(e) => Err(e),
                    Ok(rest) => Ok(
                        (seq![out.0] + rest.0, spec_directives_for(deps) + rest.1),
                    ),
                },
            },
        }
    }
}

/// The whole compile phase: sources are resolved, an empty set is refused
/// as `NoSourceFiles`, and the compile loop runs over the rest with the
/// shared dependency-manifest path `<intermediate>/dependency`.
pub open spec fn spec_compile_pipeline<C: CompileStep>(
    settings: CompileSettings,
    env: BuildEnv,
    snapshots: Seq<FsTree>,
) -> Result<(Seq<Seq<char>>, Seq<Seq<char>>), BuildErrorView> {
    match settings.source_strategy.spec_resolve(
        env.manifest_dir.deep_view(),
        snapshots,
        C::source_file_extension_spec(),
    ) {
        Err(e) => Err(e),
        Ok(sources) => if sources.len() == 0 {
            Err(BuildErrorView::NoSourceFiles)
        } else {
            spec_compile_sources::<C>(
                sources,
                settings.intermediate_path@,
                settings.configuration,
                spec_join(settings.intermediate_path@, "dependency"@),
                settings.flags.deep_view(),
            )
        },
    }
}

/// What one compile phase hands back: the intermediate artifact paths,
/// index-aligned with the resolved source order, and the rebuild-trigger
/// directives for every discovered dependency, in compile-then-parse order.
/// The embedding application prints the directives for the host build tool.
pub struct CompileReport {
    pub artifacts: Vec<String>,
    pub directives: Vec<String>,
}

/// The compile phase: drives every resolved source file through the
/// compile step `Compiler`, in order, collecting artifacts and dependency
/// reports. The first phase of a [`crate::build_system::BuildSystem`], or a
/// build system of its own for one-file-per-product tasks.
pub struct CompileSystem<Compiler: CompileStep> {
    compiler: PhantomData<Compiler>,
}

impl<Compiler: CompileStep> CompileSystem<Compiler> {
    pub(crate) fn compile_all(
        settings: &CompileSettings,
        env: &BuildEnv,
        snapshots: &Vec<FsTree>,
    ) -> (r: Result<CompileReport, BuildError>)
        requires
            settings.source_strategy matches SourceFileStrategy::SearchFromManifest(roots)
                ==> snapshots@.len() == roots@.len(),
        ensures
            match spec_compile_pipeline::<Compiler>(*settings, *env, snapshots@) {
                Ok(rep) => r matches Ok(c) && c.artifacts.deep_view() == rep.0
                    && c.directives.deep_view() == rep.1,
                Err(e) => r matches Err(err) && err@ == e,
            },
    {
        let sources = match settings.source_strategy.resolve::<Compiler>(env, snapshots) {
            Ok(s) => s,
            Err(e) => {
                return Err(e);
            },
        };
        if sources.len() == 0 {
            return Err(BuildError::NoSourceFiles);
        }
        let dependency_path = join_path(settings.intermediate_path.as_str(), "dependency");
        let mut artifacts: Vec<String> = Vec::new();
        let mut directives: Vec<String> = Vec::new();
        let ghost srcv = sources.deep_view();
        let ghost total = spec_compile_sources::<Compiler>(
            srcv,
            settings.intermediate_path@,
            settings.configuration,
            dependency_path@,
            settings.flags.deep_view(),
        );
        proof {
            assert(srcv.skip(0) =~= srcv);
            assert(artifacts.deep_view() =~= Seq::<Seq<char>>::empty());
            assert(directives.deep_view() =~= Seq::<Seq<char>>::empty());
        }
        let mut k: usize = 0;
        while k < sources.len()
            invariant
                k <= sources.len(),
                srcv == sources.deep_view(),
                dependency_path@ == spec_join(settings.intermediate_path@, "dependency"@),
                total == spec_compile_pipeline::<Compiler>(*settings, *env, snapshots@),
                total == (match spec_compile_sources::<Compiler>(
                    srcv.skip(k as int),
                    settings.intermediate_path@,
                    settings.configuration,
                    dependency_path@,
                    settings.flags.deep_view(),
                ) {
                    Err(e) => Err::<(Seq<Seq<char>>, Seq<Seq<char>>), BuildErrorView>(e),
                    Ok(rest) => Ok::<(Seq<Seq<char>>, Seq<Seq<char>>), BuildErrorView>(
                        (artifacts.deep_view() + rest.0, directives.deep_view() + rest.1),
                    ),
                }),
            decreases sources.len() - k,
        {
            proof {
                assert(srcv.skip(k as int)[0] == srcv[k as int]);
                assert(srcv.skip(k as int).skip(1) =~= srcv.skip(k + 1));
                assert(srcv[k as int] == sources@[k as int]@);
            }
            let outcome = Compiler::compile_one(
                sources[k].as_str(),
                settings.intermediate_path.as_str(),
                &settings.configuration,
                dependency_path.as_str(),
                &settings.flags,
            );
            let outcome = match outcome {
                Ok(o) => o,
                Err(m) => {
                    return Err(BuildError::CompileFailed(m));
                },
            };
            let deps = match parse(outcome.manifest_text.as_str()) {
                Ok(d) => d,
                Err(e) => {
                    return Err(e);
                },
            };
            let ghost prev_arts = artifacts.deep_view();
            artifacts.push(outcome.artifact_path);
            proof {
                assert(artifacts.deep_view() =~= prev_arts.push(
                    Compiler::compile_one_spec(
                        srcv[k as int],
                        settings.intermediate_path@,
                        settings.configuration,
                        dependency_path@,
                        settings.flags.deep_view(),
                    )->Ok_0.0,
                ));
            }
            let ghost depsv = deps.deep_view();
            let ghost dstart = directives.deep_view();
            let mut d: usize = 0;
            while d < deps.len()
                invariant
                    d <= deps.len(),
                    depsv == deps.deep_view(),
                    dstart + spec_directives_for(depsv.take(d as int)) == directives.deep_view(),
                decreases deps.len() - d,
            {
                let ghost prev_dirs = directives.deep_view();
                let line = directive_for(deps[d].as_str());
                directives.push(line);
                proof {
                    assert(directives.deep_view() =~= prev_dirs.push(
                        spec_directive(depsv[d as int]),
                    ));
                    assert(spec_directives_for(depsv.take(d + 1)) =~= spec_directives_for(
                        depsv.take(d as int),
                    ).push(spec_directive(depsv[d as int])));
                    assert(dstart + spec_directives_for(depsv.take(d + 1)) =~= prev_dirs.push(
                        spec_directive(depsv[d as int]),
                    ));
                }
                d = d + 1;
            }
            proof {
                assert(depsv.take(deps@.len() as int) =~= depsv);
                let out = Compiler::compile_one_spec(
                    srcv[k as int],
                    settings.intermediate_path@,
                    settings.configuration,
                    dependency_path@,
                    settings.flags.deep_view(),
                )->Ok_0;
                if let Ok(rest) = spec_compile_sources::<Compiler>(
                    srcv.skip(k + 1),
                    settings.intermediate_path@,
                    settings.configuration,
                    dependency_path@,
                    settings.flags.deep_view(),
                ) {
                    assert(prev_arts + (seq![out.0] + rest.0) =~= artifacts.deep_view() + rest.0);
                    assert(dstart + (spec_directives_for(depsv) + rest.1) =~= directives.deep_view()
                        + rest.1);
                }
            }
            k = k + 1;
        }
        proof {
            assert(srcv.skip(sources@.len() as int).len() == 0);
            assert(artifacts.deep_view() + Seq::<Seq<char>>::empty() =~= artifacts.deep_view());
            assert(directives.deep_view() + Seq::<Seq<char>>::empty() =~= directives.deep_view());
        }
        Ok(CompileReport { artifacts, directives })
    }

    /// Compiles every resolved source file using the settings given, and
    /// returns the artifact paths with the discovered rebuild-trigger
    /// directives.
    pub fn build(settings: &CompileSettings, env: &BuildEnv, snapshots: &Vec<FsTree>) -> (r:
        Result<CompileReport, BuildError>)
        requires
            settings.source_strategy matches SourceFileStrategy::SearchFromManifest(roots)
                ==> snapshots@.len() == roots@.len(),
        ensures
            match spec_compile_pipeline::<Compiler>(*settings, *env, snapshots@) {
                Ok(rep) => r matches Ok(c) && c.artifacts.deep_view() == rep.0
                    && c.directives.deep_view() == rep.1,
                Err(e) => r matches Err(err) && err@ == e,
            },
    {
        Self::compile_all(settings, env, snapshots)
    }

    /// Compiles with no special settings: intermediates go below the
    /// executable directory at `exe_path`, everything else defaults from
    /// the environment, and the one snapshot covers the default `src`
    /// search root.
    pub fn build_rs(exe_path: String, env: &BuildEnv, snapshots: &Vec<FsTree>) -> (r: Result<
        CompileReport,
        BuildError,
    >)
        requires
            snapshots@.len() == 1,
        ensures
            match r {
                Ok(rep) => exists|cs: CompileSettings|
                    #[trigger] spec_build_rs_settings(exe_path, *env, cs)
                        && spec_compile_pipeline::<Compiler>(cs, *env, snapshots@) == Ok::<
                        (Seq<Seq<char>>, Seq<Seq<char>>),
                        BuildErrorView,
                    >((rep.artifacts.deep_view(), rep.directives.deep_view())),
                Err(e) => (e == BuildError::ConfigurationError && (env.out_dir.deep_view() is None
                    || spec_resolved_configuration(None, *env) is None)) || exists|
                    cs: CompileSettings,
                |
                    #[trigger] spec_build_rs_settings(exe_path, *env, cs)
                        && spec_compile_pipeline::<Compiler>(cs, *env, snapshots@) == Err::<
                        (Seq<Seq<char>>, Seq<Seq<char>>),
                        BuildErrorView,
                    >(e@),
            },
    {
        let settings = match CompileSettingsBuilder::new().intermediate_path(
            PathType::EXERelative(exe_path),
        ).finish(env) {
            Ok(s) => s,
            Err(e) => {
                return Err(e);
            },
        };
        proof {
            if let SourceFileStrategy::SearchFromManifest(roots) = &settings.source_strategy {
                assert(roots.deep_view() == seq!["src"@]);
                assert(roots.deep_view().len() == roots@.len());
            }
        }
        let r = Self::build(&settings, env, snapshots);
        proof {
            assert(spec_build_rs_settings(exe_path, *env, settings));
        }
        r
    }
}

/// Law: a directory-search selection over listable trees holding zero files
/// of the target extension resolves to the empty list, and the compile
/// phase then fails with `NoSourceFiles` — an empty source set is a
/// configuration error, never a silent no-op.
pub proof fn lemma_pipeline_refuses_empty_search<C: CompileStep>(
    settings: CompileSettings,
    env: BuildEnv,
    snapshots: Seq<FsTree>,
)
    requires
        settings.source_strategy matches SourceFileStrategy::SearchFromManifest(roots)
            && roots.deep_view().len() == snapshots.len(),
        env.manifest_dir is Some,
        forall|i: int|
            0 <= i < snapshots.len() ==> crate::fs_model::spec_tree_listable(#[trigger] snapshots[i])
                && !crate::fs_model::spec_tree_has_source(
                snapshots[i],
                C::source_file_extension_spec(),
            ),
    ensures
        settings.source_strategy.spec_resolve(
            env.manifest_dir.deep_view(),
            snapshots,
            C::source_file_extension_spec(),
        ) == Ok::<Seq<Seq<char>>, BuildErrorView>(Seq::empty()),
        spec_compile_pipeline::<C>(settings, env, snapshots) == Err::<
            (Seq<Seq<char>>, Seq<Seq<char>>),
            BuildErrorView,
        >(BuildErrorView::NoSourceFiles),
{
    let roots = settings.source_strategy->SearchFromManifest_0;
    let md = env.manifest_dir.deep_view()->Some_0;
    crate::compile_settings::lemma_resolve_roots_empty_when_no_source(
        md,
        roots.deep_view(),
        snapshots,
        C::source_file_extension_spec(),
    );
}

/// Law: a successful compile loop returns exactly one artifact per source,
/// index-aligned — the artifact at position `i` is what the compile step
/// yields for the source at position `i`.
pub proof fn lemma_artifacts_aligned<C: CompileStep>(
    sources: Seq<Seq<char>>,
    dir: Seq<char>,
    config: Configuration,
    dep_path: Seq<char>,
    flags: Seq<Seq<char>>,
)
    ensures
        match spec_compile_sources::<C>(sources, dir, config, dep_path, flags) {
            Ok(rep) => rep.0.len() == sources.len() && forall|i: int|
                0 <= i < sources.len() ==> rep.0[i] == (C::compile_one_spec(
                    #[trigger] sources[i],
                    dir,
                    config,
                    dep_path,
                    flags,
                )->Ok_0).0,
            Err(_) => true,
        },
    decreases sources.len(),
{
    if sources.len() == 0 {
    } else {
        lemma_artifacts_aligned::<C>(sources.skip(1), dir, config, dep_path, flags);
        if let Ok(rep) = spec_compile_sources::<C>(sources, dir, config, dep_path, flags) {
            let out = C::compile_one_spec(sources[0], dir, config, dep_path, flags)->Ok_0;
            let rest = spec_compile_sources::<C>(
                sources.skip(1),
                dir,
                config,
                dep_path,
                flags,
            )->Ok_0;
            assert(rep.0 == seq![out.0] + rest.0);
            assert(rep.0.len() == sources.len());
            assert forall|i: int| 0 <= i < sources.len() implies rep.0[i] == (
            C::compile_one_spec(sources[i], dir, config, dep_path, flags)->Ok_0).0 by {
                if i == 0 {
                    assert(rep.0[0] == out.0);
                } else {
                    assert(rep.0[i] == rest.0[i - 1]);
                    assert(sources.skip(1)[i - 1] == sources[i]);
                }
            }
        }
    }
}

/// Law: a compile phase over an explicit source list of N files returns an
/// artifact list of length exactly N, with the artifact at position `i`
/// compiled from the source at position `i`.
pub proof fn lemma_explicit_sources_aligned<C: CompileStep>(
    settings: CompileSettings,
    env: BuildEnv,
    snapshots: Seq<FsTree>,
)
    requires
        settings.source_strategy matches SourceFileStrategy::SourceFiles(paths),
    ensures
        match spec_compile_pipeline::<C>(settings, env, snapshots) {
            Ok(rep) => {
                let srcs = settings.source_strategy->SourceFiles_0.deep_view();
                rep.0.len() == srcs.len() && forall|i: int|
                    0 <= i < srcs.len() ==> rep.0[i] == (C::compile_one_spec(
                        #[trigger] srcs[i],
                        settings.intermediate_path@,
                        settings.configuration,
                        spec_join(settings.intermediate_path@, "dependency"@),
                        settings.flags.deep_view(),
                    )->Ok_0).0
            },
            Err(_) => true,
        },
{
    let srcs = settings.source_strategy->SourceFiles_0.deep_view();
    lemma_artifacts_aligned::<C>(
        srcs,
        settings.intermediate_path@,
        settings.configuration,
        spec_join(settings.intermediate_path@, "dependency"@),
        settings.flags.deep_view(),
    );
}

/// The settings [`CompileSystem::build_rs`] resolves for itself:
/// intermediates below the executable directory at `exe_path`, the default
/// `src` search strategy, the configuration from the environment, and no
/// flags.
pub open spec fn spec_build_rs_settings(
    exe_path: String,
    env: BuildEnv,
    cs: CompileSettings,
) -> bool {
    &&& (match env.out_dir.deep_view() {
        None => false,
        Some(od) => cs.intermediate_path@ == spec_join(
            spec_pop(spec_pop(spec_pop(od))),
            exe_path@,
        ),
    })
    &&& Some(cs.configuration) == spec_resolved_configuration(None, env)
    &&& spec_default_strategy(cs.source_strategy)
    &&& cs.flags@ == Seq::<String>::empty()
}

} // verus!
