use buildkit::{
    BuildEnv, BuildError, BuildSettings, BuildSettingsBuilder, CompileOutcome, CompileSettings,
    CompileSettingsBuilder, CompileStep, CompileSystem, Configuration, FsDirEntry, FsTree,
    PathType, SourceFileStrategy,
};

fn full_env() -> BuildEnv {
    BuildEnv {
        out_dir: Some(String::from("/target/debug/build/pkg-1234/out")),
        manifest_dir: Some(String::from("/proj")),
        debug: Some(String::from("true")),
        pkg_name: Some(String::from("mylib")),
    }
}

#[test]
fn exact_path_resolves_to_itself() {
    let p = PathType::Exact(String::from("/somewhere/exact")).path(&full_env()).unwrap();
    assert_eq!(p, "/somewhere/exact");
}

#[test]
fn exe_relative_path_drops_three_components_of_the_scratch_dir() {
    let p = PathType::EXERelative(String::from("assets/product.dll"))
        .path(&full_env())
        .unwrap();
    assert_eq!(p, "/target/debug/assets/product.dll");
}

#[test]
fn exe_relative_path_without_out_dir_is_a_configuration_error() {
    let env = BuildEnv { out_dir: None, manifest_dir: None, debug: None, pkg_name: None };
    let r = PathType::EXERelative(String::from("x")).path(&env);
    assert!(matches!(r, Err(BuildError::ConfigurationError)));
}

#[test]
fn compile_settings_default_from_environment() {
    let cs = CompileSettingsBuilder::new().finish(&full_env()).unwrap();
    // Compile as the final step: output located like a product path.
    assert_eq!(cs.intermediate_path, "/target/debug");
    assert!(matches!(cs.configuration, Configuration::Debug));
    assert!(cs.flags.is_empty());
    match cs.source_strategy {
        SourceFileStrategy::SearchFromManifest(roots) => {
            assert_eq!(roots, vec![String::from("src")])
        },
        _ => panic!("expected the default search strategy"),
    }
}

#[test]
fn compile_settings_release_configuration_from_environment() {
    let mut env = full_env();
    env.debug = Some(String::from("false"));
    let cs = CompileSettingsBuilder::new().finish(&env).unwrap();
    assert!(matches!(cs.configuration, Configuration::Release));
}

#[test]
fn malformed_debug_value_is_a_configuration_error() {
    let mut env = full_env();
    env.debug = Some(String::from("maybe"));
    let r = CompileSettingsBuilder::new().finish(&env);
    assert!(matches!(r, Err(BuildError::ConfigurationError)));
}

#[test]
fn explicit_builder_values_override_the_environment() {
    let env = BuildEnv { out_dir: None, manifest_dir: None, debug: None, pkg_name: None };
    let cs = CompileSettingsBuilder::new()
        .source_strategy(SourceFileStrategy::SourceFiles(vec![String::from("a.metal")]))
        .intermediate_path(PathType::Exact(String::from("/int")))
        .configuration(Configuration::Release)
        .set_flags(vec![String::from("-O2"), String::from("-O2")])
        .finish(&env)
        .unwrap();
    assert_eq!(cs.intermediate_path, "/int");
    assert!(matches!(cs.configuration, Configuration::Release));
    assert_eq!(cs.flags, vec![String::from("-O2"), String::from("-O2")]);
}

#[test]
fn build_settings_auto_takes_product_name_from_environment() {
    let bs = BuildSettings::auto(&full_env()).unwrap();
    assert_eq!(bs.product_name, "mylib");
    assert_eq!(bs.product_path, "/target/debug");
    // Inside build settings, defaulted intermediates use the scratch
    // directory, since a link step follows.
    assert_eq!(bs.compile_settings.intermediate_path, "/target/debug/build/pkg-1234/out");
}

#[test]
fn build_settings_builder_keeps_explicit_values() {
    let cs = CompileSettings {
        source_strategy: SourceFileStrategy::SourceFiles(vec![String::from("x.metal")]),
        intermediate_path: String::from("/i"),
        configuration: Configuration::Debug,
        flags: vec![],
    };
    let bs = BuildSettingsBuilder::new()
        .compile_settings(cs)
        .product_path(PathType::Exact(String::from("/p")))
        .finish(&full_env())
        .unwrap();
    assert_eq!(bs.product_path, "/p");
    assert_eq!(bs.compile_settings.intermediate_path, "/i");
}

struct ObjCompiler;

impl CompileStep for ObjCompiler {

    // Ghost items of the trait: they describe the compile step to the
    // verifier and are never called at run time.
    fn source_file_extension_spec() -> vstd::seq::Seq<char> {
        unreachable!()
    }
    fn compile_one_spec(
        _source: vstd::seq::Seq<char>,
        _intermediate_dir: vstd::seq::Seq<char>,
        _configuration: Configuration,
        _dependency_path: vstd::seq::Seq<char>,
        _flags: vstd::seq::Seq<vstd::seq::Seq<char>>,
    ) -> Result<(vstd::seq::Seq<char>, vstd::seq::Seq<char>), vstd::seq::Seq<char>> {
        unreachable!()
    }
    fn source_file_extension() -> String {
        String::from("metal")
    }

    fn compile_one(
        source: &str,
        intermediate_dir: &str,
        _configuration: &Configuration,
        _dependency_path: &str,
        _flags: &Vec<String>,
    ) -> Result<CompileOutcome, String> {
        Ok(CompileOutcome {
            artifact_path: buildkit::suggest_intermediate_file(
                source,
                String::from(intermediate_dir),
                "o",
            ),
            manifest_text: String::from("t: "),
        })
    }
}

#[test]
fn compile_build_rs_uses_defaults_and_exe_relative_intermediates() {
    let snapshot = FsTree::Dir {
        entries: vec![FsDirEntry { name: String::from("m.metal"), tree: FsTree::File }],
    };
    let report = CompileSystem::<ObjCompiler>::build_rs(
        String::from("assets"),
        &full_env(),
        &vec![snapshot],
    )
    .unwrap();
    assert_eq!(report.artifacts, vec![String::from("/target/debug/assets/m.o")]);
}

#[test]
fn error_descriptions_name_the_failure_kind() {
    assert_eq!(BuildError::NoSourceFiles.describe(), "nothing to compile");
    assert_eq!(
        BuildError::InvalidEscape('q').describe(),
        "unknown escape sequence in dependency manifest"
    );
}
