use buildkit::{
    suggest_intermediate_file, BuildEnv, BuildError, BuildSystem, CompileOutcome, CompileSettings,
    CompileStep, CompileSystem, Configuration, FsDirEntry, FsTree, LinkStep, SourceFileStrategy,
};

struct MetalCompiler;

impl CompileStep for MetalCompiler {

    // Ghost items of the trait: they describe the compile step to the
    // verifier and are never called at run time.
    fn source_file_extension_spec() -> vstd::seq::Seq<char> {
        unreachable!()
    }
    fn compile_one_spec(
        _source: vstd::seq::Seq<char>,
        _intermediate_dir: vstd::seq::Seq<char>,
        _configuration: Configuration,
        _dependency_path: vstd::seq::Seq<char>,
        _flags: vstd::seq::Seq<vstd::seq::Seq<char>>,
    ) -> Result<(vstd::seq::Seq<char>, vstd::seq::Seq<char>), vstd::seq::Seq<char>> {
        unreachable!()
    }
    fn source_file_extension() -> String {
        String::from("metal")
    }

    fn compile_one(
        source: &str,
        intermediate_dir: &str,
        _configuration: &Configuration,
        _dependency_path: &str,
        _flags: &Vec<String>,
    ) -> Result<CompileOutcome, String> {
        let artifact = suggest_intermediate_file(source, String::from(intermediate_dir), "o");
        let stem: String = source
            .rsplit('/')
            .next()
            .unwrap()
            .trim_end_matches(".metal")
            .to_string();
        Ok(CompileOutcome {
            artifact_path: artifact,
            manifest_text: format!("deps: /headers/{}.h", stem),
        })
    }
}

struct FailingCompiler;

impl CompileStep for FailingCompiler {

    // Ghost items of the trait: they describe the compile step to the
    // verifier and are never called at run time.
    fn source_file_extension_spec() -> vstd::seq::Seq<char> {
        unreachable!()
    }
    fn compile_one_spec(
        _source: vstd::seq::Seq<char>,
        _intermediate_dir: vstd::seq::Seq<char>,
        _configuration: Configuration,
        _dependency_path: vstd::seq::Seq<char>,
        _flags: vstd::seq::Seq<vstd::seq::Seq<char>>,
    ) -> Result<(vstd::seq::Seq<char>, vstd::seq::Seq<char>), vstd::seq::Seq<char>> {
        unreachable!()
    }
    fn source_file_extension() -> String {
        String::from("metal")
    }

    fn compile_one(
        source: &str,
        _intermediate_dir: &str,
        _configuration: &Configuration,
        _dependency_path: &str,
        _flags: &Vec<String>,
    ) -> Result<CompileOutcome, String> {
        Err(format!("cannot compile {}", source))
    }
}

struct ConcatLinker;

impl LinkStep for ConcatLinker {

    // Ghost item of the trait: it describes the link step to the verifier
    // and is never called at run time.
    fn link_all_spec(
        _object_files: vstd::seq::Seq<vstd::seq::Seq<char>>,
        _out_dir: vstd::seq::Seq<char>,
        _lib_name: vstd::seq::Seq<char>,
        _configuration: Configuration,
    ) -> Result<vstd::seq::Seq<char>, vstd::seq::Seq<char>> {
        unreachable!()
    }
    fn link_all(
        object_files: &Vec<String>,
        out_dir: &str,
        lib_name: &str,
        _configuration: &Configuration,
    ) -> Result<String, String> {
        Ok(format!("{}/{}<-{}", out_dir, lib_name, object_files.join(",")))
    }
}

struct FailingLinker;

impl LinkStep for FailingLinker {

    // Ghost item of the trait: it describes the link step to the verifier
    // and is never called at run time.
    fn link_all_spec(
        _object_files: vstd::seq::Seq<vstd::seq::Seq<char>>,
        _out_dir: vstd::seq::Seq<char>,
        _lib_name: vstd::seq::Seq<char>,
        _configuration: Configuration,
    ) -> Result<vstd::seq::Seq<char>, vstd::seq::Seq<char>> {
        unreachable!()
    }
    fn link_all(
        _object_files: &Vec<String>,
        _out_dir: &str,
        _lib_name: &str,
        _configuration: &Configuration,
    ) -> Result<String, String> {
        Err(String::from("link exploded"))
    }
}

fn empty_env() -> BuildEnv {
    BuildEnv { out_dir: None, manifest_dir: None, debug: None, pkg_name: None }
}

fn explicit_settings(sources: Vec<&str>) -> CompileSettings {
    CompileSettings {
        source_strategy: SourceFileStrategy::SourceFiles(
            sources.into_iter().map(String::from).collect(),
        ),
        intermediate_path: String::from("/tmp-int"),
        configuration: Configuration::Debug,
        flags: vec![],
    }
}

#[test]
fn artifact_list_is_index_aligned_with_sources() {
    let settings = explicit_settings(vec!["/s/a.metal", "/s/b.metal", "/s/c.metal"]);
    let report = CompileSystem::<MetalCompiler>::build(&settings, &empty_env(), &vec![]).unwrap();
    assert_eq!(report.artifacts.len(), 3);
    assert_eq!(
        report.artifacts,
        vec![
            String::from("/tmp-int/a.o"),
            String::from("/tmp-int/b.o"),
            String::from("/tmp-int/c.o"),
        ]
    );
}

#[test]
fn empty_search_fails_with_no_source_files() {
    let snapshot = FsTree::Dir {
        entries: vec![FsDirEntry { name: String::from("readme.txt"), tree: FsTree::File }],
    };
    let settings = CompileSettings {
        source_strategy: SourceFileStrategy::SearchFromManifest(vec![String::from("src")]),
        intermediate_path: String::from("/tmp-int"),
        configuration: Configuration::Release,
        flags: vec![],
    };
    let env = BuildEnv {
        out_dir: None,
        manifest_dir: Some(String::from("/proj")),
        debug: None,
        pkg_name: None,
    };
    let r = CompileSystem::<MetalCompiler>::build(&settings, &env, &vec![snapshot]);
    assert!(matches!(r, Err(BuildError::NoSourceFiles)));
}

#[test]
fn empty_explicit_list_fails_with_no_source_files() {
    let settings = explicit_settings(vec![]);
    let r = CompileSystem::<MetalCompiler>::build(&settings, &empty_env(), &vec![]);
    assert!(matches!(r, Err(BuildError::NoSourceFiles)));
}

#[test]
fn compile_failure_aborts_the_build() {
    let settings = explicit_settings(vec!["/s/a.metal"]);
    let r = CompileSystem::<FailingCompiler>::build(&settings, &empty_env(), &vec![]);
    match r {
        Err(BuildError::CompileFailed(m)) => assert_eq!(m, "cannot compile /s/a.metal"),
        _ => panic!("expected CompileFailed"),
    }
}

#[test]
fn link_failure_aborts_the_build() {
    let settings = buildkit::BuildSettings {
        compile_settings: explicit_settings(vec!["/s/a.metal"]),
        product_path: String::from("/out"),
        product_name: String::from("prod"),
    };
    let r = BuildSystem::<MetalCompiler, FailingLinker>::build(&settings, &empty_env(), &vec![]);
    match r {
        Err(BuildError::LinkFailed(m)) => assert_eq!(m, "link exploded"),
        _ => panic!("expected LinkFailed"),
    }
}

struct BadManifestCompiler;

impl CompileStep for BadManifestCompiler {

    // Ghost items of the trait: they describe the compile step to the
    // verifier and are never called at run time.
    fn source_file_extension_spec() -> vstd::seq::Seq<char> {
        unreachable!()
    }
    fn compile_one_spec(
        _source: vstd::seq::Seq<char>,
        _intermediate_dir: vstd::seq::Seq<char>,
        _configuration: Configuration,
        _dependency_path: vstd::seq::Seq<char>,
        _flags: vstd::seq::Seq<vstd::seq::Seq<char>>,
    ) -> Result<(vstd::seq::Seq<char>, vstd::seq::Seq<char>), vstd::seq::Seq<char>> {
        unreachable!()
    }
    fn source_file_extension() -> String {
        String::from("metal")
    }
    fn compile_one(
        _source: &str,
        _intermediate_dir: &str,
        _configuration: &Configuration,
        _dependency_path: &str,
        _flags: &Vec<String>,
    ) -> Result<CompileOutcome, String> {
        Ok(CompileOutcome {
            artifact_path: String::from("a.o"),
            manifest_text: String::from(r"deps: bad\escape.h"),
        })
    }
}

#[test]
fn malformed_manifest_from_a_compile_step_fails_with_invalid_escape() {
    let settings = explicit_settings(vec!["/s/a.metal"]);
    let r = CompileSystem::<BadManifestCompiler>::build(&settings, &empty_env(), &vec![]);
    assert!(matches!(r, Err(BuildError::InvalidEscape('e'))));
}

#[test]
fn end_to_end_two_sources_link_order_and_directives() {
    let settings = buildkit::BuildSettings {
        compile_settings: CompileSettings {
            source_strategy: SourceFileStrategy::SourceFiles(vec![
                String::from("/src/a.metal"),
                String::from("/src/b.metal"),
            ]),
            intermediate_path: String::from("/int"),
            configuration: Configuration::Debug,
            flags: vec![],
        },
        product_path: String::from("/out"),
        product_name: String::from("lib"),
    };
    let report =
        BuildSystem::<MetalCompiler, ConcatLinker>::build(&settings, &empty_env(), &vec![])
            .unwrap();
    // The linker received exactly ["/int/a.o", "/int/b.o"], in that order.
    assert_eq!(report.product_path, "/out/lib<-/int/a.o,/int/b.o");
    // Exactly two rebuild-trigger directives, one per header, in compile
    // order.
    assert_eq!(
        report.directives,
        vec![
            String::from("cargo:rerun-if-changed='/headers/a.h'"),
            String::from("cargo:rerun-if-changed='/headers/b.h'"),
        ]
    );
}

struct TwoDepCompiler;

impl CompileStep for TwoDepCompiler {

    // Ghost items of the trait: they describe the compile step to the
    // verifier and are never called at run time.
    fn source_file_extension_spec() -> vstd::seq::Seq<char> {
        unreachable!()
    }
    fn compile_one_spec(
        _source: vstd::seq::Seq<char>,
        _intermediate_dir: vstd::seq::Seq<char>,
        _configuration: Configuration,
        _dependency_path: vstd::seq::Seq<char>,
        _flags: vstd::seq::Seq<vstd::seq::Seq<char>>,
    ) -> Result<(vstd::seq::Seq<char>, vstd::seq::Seq<char>), vstd::seq::Seq<char>> {
        unreachable!()
    }
    fn source_file_extension() -> String {
        String::from("metal")
    }
    fn compile_one(
        _source: &str,
        _intermediate_dir: &str,
        _configuration: &Configuration,
        _dependency_path: &str,
        _flags: &Vec<String>,
    ) -> Result<CompileOutcome, String> {
        Ok(CompileOutcome {
            artifact_path: String::from("x.o"),
            manifest_text: String::from("t: first.h second\\ one.h"),
        })
    }
}

#[test]
fn directives_follow_manifest_parse_order() {
    let settings = explicit_settings(vec!["/s/x.metal"]);
    let report = CompileSystem::<TwoDepCompiler>::build(&settings, &empty_env(), &vec![]).unwrap();
    assert_eq!(
        report.directives,
        vec![
            String::from("cargo:rerun-if-changed='first.h'"),
            String::from("cargo:rerun-if-changed='second one.h'"),
        ]
    );
}

#[test]
fn suggested_intermediate_name_is_stem_plus_extension_under_dir() {
    let p = suggest_intermediate_file("/deep/dir/shader.metal", String::from("/int"), "o");
    assert_eq!(p, "/int/shader.o");
    let q = suggest_intermediate_file("archive.tar.gz", String::from("int"), "o");
    assert_eq!(q, "int/archive.tar.o");
}
