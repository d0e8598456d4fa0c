use vstd::prelude::*;

use crate::build_settings::{BuildEnv, Configuration, PathType};
use crate::errors::{BuildError, BuildErrorView};
use crate::fs_model::{spec_walk, FsTree};
use crate::paths::{join_path, spec_join, spec_pop};
use crate::traits::CompileStep;

verus! {

/// How the source files of a compile phase are found.
pub enum SourceFileStrategy {
    /// Use exactly these source files, verbatim and unfiltered.
    SourceFiles(Vec<String>),
    /// Search these roots recursively for files with the compile step's
    /// extension. A relative root is resolved against the project-manifest
    /// directory; an absolute one is searched as given.
    SearchFromManifest(Vec<String>),
}

/// The resolution of the remaining search roots: each root is joined below
/// the manifest directory and its snapshot walked, and the finds are
/// concatenated in root order. The first unlistable directory aborts the
/// whole resolution.
pub open spec fn spec_resolve_roots(
    md: Seq<char>,
    roots: Seq<Seq<char>>,
    snapshots: Seq<FsTree>,
    ext: Seq<char>,
) -> Result<Seq<Seq<char>>, BuildErrorView>
    decreases roots.len(),
{
    if roots.len() == 0 {
        Ok(Seq::empty())
    } else {
        match spec_walk(spec_join(md, roots[0]), snapshots[0], ext) {
            Err(p) => Err(BuildErrorView::DirectoryUnreadable(p)),
            Ok(h) => match spec_resolve_roots(md, roots.skip(1), snapshots.skip(1), ext) {
                Err(e) => Err(e),
                Ok(r) => Ok(h + r),
            },
        }
    }
}

impl SourceFileStrategy {
    /// What [`Self::resolve`] returns: the explicit list verbatim, or the
    /// walk of every root in order. A search without a known manifest
    /// directory is a configuration error.
    pub open spec fn spec_resolve(
        self,
        manifest_dir: Option<Seq<char>>,
        snapshots: Seq<FsTree>,
        ext: Seq<char>,
    ) -> Result<Seq<Seq<char>>, BuildErrorView> {
        match self {
            SourceFileStrategy::SourceFiles(paths) => Ok(paths.deep_view()),
            SourceFileStrategy::SearchFromManifest(roots) => match manifest_dir {
                None => Err(BuildErrorView::ConfigurationError),
                Some(md) => spec_resolve_roots(md, roots.deep_view(), snapshots, ext),
            },
        }
    }

    /// Expands the strategy into the concrete, ordered list of source
    /// paths. `snapshots` holds one directory-tree snapshot per declared
    /// search root, in root order; the result is deterministic for a fixed
    /// set of snapshots. Never fabricates files and never partially
    /// succeeds.
    pub fn resolve<C: CompileStep>(&self, env: &BuildEnv, snapshots: &Vec<FsTree>) -> (r: Result<
        Vec<String>,
        BuildError,
    >)
        requires
            self matches SourceFileStrategy::SearchFromManifest(roots) ==> snapshots@.len()
                == roots@.len(),
        ensures
            match self.spec_resolve(
                env.manifest_dir.deep_view(),
                snapshots@,
                C::source_file_extension_spec(),
            ) {
                Ok(files) => r matches Ok(v) && v.deep_view() == files,
                Err(e) => r matches Err(err) && err@ == e,
            },
    {
        match self {
            SourceFileStrategy::SourceFiles(paths) => {
                let mut out: Vec<String> = Vec::new();
                let mut i: usize = 0;
                while i < paths.len()
                    invariant
                        i <= paths.len(),
                        out.deep_view() == paths.deep_view().take(i as int),
                    decreases paths.len() - i,
                {
                    let ghost prev = out.deep_view();
                    out.push(paths[i].clone());
                    proof {
                        assert(out.deep_view() =~= prev.push(paths@[i as int]@));
                        assert(prev.push(paths@[i as int]@) =~= paths.deep_view().take(i + 1));
                    }
                    i = i + 1;
                }
                proof {
                    assert(paths.deep_view().take(paths@.len() as int) =~= paths.deep_view());
                }
                Ok(out)
            },
            SourceFileStrategy::SearchFromManifest(roots) => {
                match &env.manifest_dir {
                    None => Err(BuildError::ConfigurationError),
                    Some(md) => {
                        let extension = C::source_file_extension();
                        let ghost rv = roots.deep_view();
                        let ghost full = spec_resolve_roots(
                            md@,
                            rv,
                            snapshots@,
                            C::source_file_extension_spec(),
                        );
                        let mut out: Vec<String> = Vec::new();
                        let ghost mut done: Seq<Seq<char>> = Seq::empty();
                        proof {
                            assert(rv.skip(0) =~= rv);
                            assert(snapshots@.skip(0) =~= snapshots@);
                            assert(out.deep_view() =~= done);
                        }
                        let mut i: usize = 0;
                        while i < roots.len()
                            invariant
                                i <= roots.len(),
                                roots.deep_view() == rv,
                                snapshots@.len() == rv.len(),
                                extension@ == C::source_file_extension_spec(),
                                full == spec_resolve_roots(
                                    md@,
                                    rv,
                                    snapshots@,
                                    C::source_file_extension_spec(),
                                ),
                                full == self.spec_resolve(
                                    env.manifest_dir.deep_view(),
                                    snapshots@,
                                    C::source_file_extension_spec(),
                                ),
                                out.deep_view() == done,
                                full == (match spec_resolve_roots(
                                    md@,
                                    rv.skip(i as int),
                                    snapshots@.skip(i as int),
                                    C::source_file_extension_spec(),
                                ) {
                                    Err(e) => Err::<Seq<Seq<char>>, BuildErrorView>(e),
                                    Ok(r) => Ok::<Seq<Seq<char>>, BuildErrorView>(done + r),
                                }),
                            decreases roots.len() - i,
                        {
                            proof {
                                assert(rv.skip(i as int)[0] == rv[i as int]);
                                assert(snapshots@.skip(i as int)[0] == snapshots@[i as int]);
                                assert(rv.skip(i as int).skip(1) =~= rv.skip(i + 1));
                                assert(snapshots@.skip(i as int).skip(1) =~= snapshots@.skip(
                                    i + 1,
                                ));
                                assert(rv[i as int] == roots@[i as int]@);
                            }
                            let base = join_path(md.as_str(), roots[i].as_str());
                            let walked = crate::fs_model::dir_walk(
                                base.as_str(),
                                &snapshots[i],
                                extension.as_str(),
                                &mut out,
                            );
                            match walked {
                                Ok(()) => {
                                    proof {
                                        let files = spec_walk(
                                            spec_join(md@, rv[i as int]),
                                            snapshots@[i as int],
                                            C::source_file_extension_spec(),
                                        )->Ok_0;
                                        let prev_done = done;
                                        done = done + files;
                                        if let Ok(r) = spec_resolve_roots(
                                            md@,
                                            rv.skip(i + 1),
                                            snapshots@.skip(i + 1),
                                            C::source_file_extension_spec(),
                                        ) {
                                            assert(prev_done + (files + r) =~= done + r);
                                        }
                                    }
                                },
                                Err(e) => {
                                    return Err(e);
                                },
                            }
                            i = i + 1;
                        }
                        proof {
                            assert(rv.skip(roots@.len() as int).len() == 0);
                            assert(done + Seq::<Seq<char>>::empty() =~= done);
                        }
                        Ok(out)
                    },
                }
            },
        }
    }
}

/// Law: resolution is deterministic. The contract of
/// [`SourceFileStrategy::resolve`] pins its result to `spec_resolve` of its
/// inputs, so re-resolving the same strategy against the same unmodified
/// snapshots yields the identical ordered list.
pub proof fn lemma_resolution_deterministic(
    strategy: SourceFileStrategy,
    manifest_dir: Option<Seq<char>>,
    snapshots: Seq<FsTree>,
    ext: Seq<char>,
    first: Seq<Seq<char>>,
    second: Seq<Seq<char>>,
)
    requires
        strategy.spec_resolve(manifest_dir, snapshots, ext) == Ok::<Seq<Seq<char>>, BuildErrorView>(
            first,
        ),
        strategy.spec_resolve(manifest_dir, snapshots, ext) == Ok::<Seq<Seq<char>>, BuildErrorView>(
            second,
        ),
    ensures
        first == second,
{
}

/// Law: a search over listable trees holding no file of the target
/// extension resolves to the empty list, whatever the roots.
pub proof fn lemma_resolve_roots_empty_when_no_source(
    md: Seq<char>,
    roots: Seq<Seq<char>>,
    snapshots: Seq<FsTree>,
    ext: Seq<char>,
)
    requires
        roots.len() == snapshots.len(),
        forall|i: int|
            0 <= i < snapshots.len() ==> crate::fs_model::spec_tree_listable(#[trigger] snapshots[i])
                && !crate::fs_model::spec_tree_has_source(snapshots[i], ext),
    ensures
        spec_resolve_roots(md, roots, snapshots, ext) == Ok::<Seq<Seq<char>>, BuildErrorView>(
            Seq::empty(),
        ),
    decreases roots.len(),
{
    if roots.len() == 0 {
    } else {
        crate::fs_model::lemma_walk_empty_when_no_source(
            spec_join(md, roots[0]),
            snapshots[0],
            ext,
        );
        lemma_resolve_roots_empty_when_no_source(md, roots.skip(1), snapshots.skip(1), ext);
        assert(Seq::<Seq<char>>::empty() + Seq::<Seq<char>>::empty() =~= Seq::<
            Seq<char>,
        >::empty());
    }
}

/// Law: a directory-search selection over listable trees holding zero
/// files of the target extension resolves to the empty list — no files are
/// fabricated. (A tree with an unlistable directory is excluded: there,
/// resolution must abort with `DirectoryUnreadable` instead.)
pub proof fn lemma_search_resolves_empty_when_no_source(
    strategy: SourceFileStrategy,
    manifest_dir: Option<Seq<char>>,
    snapshots: Seq<FsTree>,
    ext: Seq<char>,
)
    requires
        strategy matches SourceFileStrategy::SearchFromManifest(roots) && roots.deep_view().len()
            == snapshots.len(),
        manifest_dir is Some,
        forall|i: int|
            0 <= i < snapshots.len() ==> crate::fs_model::spec_tree_listable(#[trigger] snapshots[i])
                && !crate::fs_model::spec_tree_has_source(snapshots[i], ext),
    ensures
        strategy.spec_resolve(manifest_dir, snapshots, ext) == Ok::<Seq<Seq<char>>, BuildErrorView>(
            Seq::empty(),
        ),
{
    lemma_resolve_roots_empty_when_no_source(
        manifest_dir->Some_0,
        strategy->SearchFromManifest_0.deep_view(),
        snapshots,
        ext,
    );
}

/// Everything one compile phase needs: where the sources come from, where
/// intermediates go, the configuration, and the compiler flags. Created
/// once per build invocation and never mutated afterwards.
pub struct CompileSettings {
    /// How to find the source files.
    pub source_strategy: SourceFileStrategy,
    /// The directory intermediate artifacts are written to.
    pub intermediate_path: String,
    /// Whether this is a debug or a release build.
    pub configuration: Configuration,
    /// Flags passed to every compile invocation: ordered, duplicates
    /// permitted and meaningful.
    pub flags: Vec<String>,
}

/// The intermediate directory a builder resolves to under `env`, or `None`
/// when a needed environment value is absent. Unset, it defaults to the
/// scratch directory when a link phase follows, else to the executable
/// directory, like a product path.
pub open spec fn spec_resolved_intermediate(
    ip: Option<PathType>,
    env: BuildEnv,
    with_link: bool,
) -> Option<Seq<char>> {
    match ip {
        Some(pt) => pt.spec_path(env.out_dir.deep_view()),
        None => match env.out_dir.deep_view() {
            None => None,
            Some(od) => if with_link {
                Some(od)
            } else {
                Some(spec_pop(spec_pop(spec_pop(od))))
            },
        },
    }
}

/// The configuration a builder resolves to under `env`: the explicit one,
/// else `Debug` when the environment says `"true"`, `Release` when it says
/// `"false"`, and `None` (an error) otherwise.
pub open spec fn spec_resolved_configuration(c: Option<Configuration>, env: BuildEnv) -> Option<
    Configuration,
> {
    match c {
        Some(cfg) => Some(cfg),
        None => match env.debug.deep_view() {
            None => None,
            Some(d) => if d == "true"@ {
                Some(Configuration::Debug)
            } else if d == "false"@ {
                Some(Configuration::Release)
            } else {
                None
            },
        },
    }
}

/// Whether `s` is the default strategy: search the `src` directory below
/// the project manifest.
pub open spec fn spec_default_strategy(s: SourceFileStrategy) -> bool {
    s matches SourceFileStrategy::SearchFromManifest(roots) && roots.deep_view() == seq!["src"@]
}

/// Builder for [`CompileSettings`]: each field may be set explicitly, and
/// whatever is left unset defaults from the environment when the builder is
/// finished.
pub struct CompileSettingsBuilder {
    pub source_strategy: Option<SourceFileStrategy>,
    pub intermediate_path: Option<PathType>,
    pub configuration: Option<Configuration>,
    pub flags: Vec<String>,
}

impl CompileSettingsBuilder {
    pub fn new() -> (r: Self)
        ensures
            r.source_strategy is None,
            r.intermediate_path is None,
            r.configuration is None,
            r.flags@ == Seq::<String>::empty(),
    {
        CompileSettingsBuilder {
            source_strategy: None,
            intermediate_path: None,
            configuration: None,
            flags: Vec::new(),
        }
    }

    /// Specify how source files are found.
    pub fn source_strategy(self, strategy: SourceFileStrategy) -> (r: Self)
        ensures
            r.source_strategy == Some(strategy),
            r.intermediate_path == self.intermediate_path,
            r.configuration == self.configuration,
            r.flags == self.flags,
    {
        CompileSettingsBuilder { source_strategy: Some(strategy), ..self }
    }

    /// Specify the configuration.
    pub fn configuration(self, configuration: Configuration) -> (r: Self)
        ensures
            r.configuration == Some(configuration),
            r.source_strategy == self.source_strategy,
            r.intermediate_path == self.intermediate_path,
            r.flags == self.flags,
    {
        CompileSettingsBuilder { configuration: Some(configuration), ..self }
    }

    /// Specify where intermediates go.
    pub fn intermediate_path(self, path: PathType) -> (r: Self)
        ensures
            r.intermediate_path == Some(path),
            r.source_strategy == self.source_strategy,
            r.configuration == self.configuration,
            r.flags == self.flags,
    {
        CompileSettingsBuilder { intermediate_path: Some(path), ..self }
    }

    /// Set the compiler flags.
    pub fn set_flags(self, flags: Vec<String>) -> (r: Self)
        ensures
            r.flags == flags,
            r.source_strategy == self.source_strategy,
            r.intermediate_path == self.intermediate_path,
            r.configuration == self.configuration,
    {
        CompileSettingsBuilder { flags, ..self }
    }

    /// What a successful finish yields, from the builder's fields and the
    /// environment.
    pub open spec fn spec_finish_ok(
        self,
        env: BuildEnv,
        with_link: bool,
        cs: CompileSettings,
    ) -> bool {
        &&& Some(cs.intermediate_path@) == spec_resolved_intermediate(
            self.intermediate_path,
            env,
            with_link,
        )
        &&& Some(cs.configuration) == spec_resolved_configuration(self.configuration, env)
        &&& (match self.source_strategy {
            Some(s) => cs.source_strategy == s,
            None => spec_default_strategy(cs.source_strategy),
        })
        &&& cs.flags == self.flags
    }

    /// Resolves the remaining defaults and produces the settings for a
    /// compile phase that is itself the final step; fails exactly when a
    /// needed environment value is absent or malformed.
    pub fn finish(self, env: &BuildEnv) -> (r: Result<CompileSettings, BuildError>)
        ensures
            match r {
                Ok(cs) => self.spec_finish_ok(*env, false, cs),
                Err(e) => e == BuildError::ConfigurationError && (spec_resolved_intermediate(
                    self.intermediate_path,
                    *env,
                    false,
                ) is None || spec_resolved_configuration(self.configuration, *env) is None),
            },
    {
        self.finish_with(false, env)
    }

    /// Resolves the remaining defaults for a compile phase that a link
    /// phase follows: unset intermediates then default to the scratch
    /// directory.
    pub fn finish_linked(self, env: &BuildEnv) -> (r: Result<CompileSettings, BuildError>)
        ensures
            match r {
                Ok(cs) => self.spec_finish_ok(*env, true, cs),
                Err(e) => e == BuildError::ConfigurationError && (spec_resolved_intermediate(
                    self.intermediate_path,
                    *env,
                    true,
                ) is None || spec_resolved_configuration(self.configuration, *env) is None),
            },
    {
        self.finish_with(true, env)
    }

    fn finish_with(self, with_link: bool, env: &BuildEnv) -> (r: Result<
        CompileSettings,
        BuildError,
    >)
        ensures
            match r {
                Ok(cs) => self.spec_finish_ok(*env, with_link, cs),
                Err(e) => e == BuildError::ConfigurationError && (spec_resolved_intermediate(
                    self.intermediate_path,
                    *env,
                    with_link,
                ) is None || spec_resolved_configuration(self.configuration, *env) is None),
            },
    {
        let intermediate_path = match self.intermediate_path {
            Some(path) => match path.path(env) {
                Ok(p) => p,
                Err(e) => {
                    return Err(e);
                },
            },
            None => {
                if with_link {
                    // The compile phase feeds a link phase: intermediates
                    // go to the scratch directory.
                    match &env.out_dir {
                        Some(od) => od.clone(),
                        None => {
                            return Err(BuildError::ConfigurationError);
                        },
                    }
                } else {
                    // The compile phase is the final step: its output
                    // location is found like a product path.
                    match PathType::EXERelative(String::new()).path(env) {
                        Ok(p) => p,
                        Err(e) => {
                            return Err(e);
                        },
                    }
                }
            },
        };
        let source_strategy = match self.source_strategy {
            None => {
                let mut roots: Vec<String> = Vec::new();
                roots.push(String::from_str("src"));
                proof {
                    assert(roots.deep_view() =~= seq!["src"@]);
                }
                SourceFileStrategy::SearchFromManifest(roots)
            },
            Some(strategy) => strategy,
        };
        let configuration = match self.configuration {
            Some(config) => config,
            None => match &env.debug {
                None => {
                    return Err(BuildError::ConfigurationError);
                },
                Some(d) => {
                    if crate::paths::str_eq(d.as_str(), "true") {
                        Configuration::Debug
                    } else if crate::paths::str_eq(d.as_str(), "false") {
                        Configuration::Release
                    } else {
                        return Err(BuildError::ConfigurationError);
                    }
                },
            },
        };
        Ok(
            CompileSettings {
                source_strategy,
                intermediate_path,
                configuration,
                flags: self.flags,
            },
        )
    }
}

} // verus!
