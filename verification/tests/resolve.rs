use buildkit::{
    BuildEnv, BuildError, CompileOutcome, CompileStep, Configuration, FsDirEntry, FsTree,
    SourceFileStrategy,
};

struct YamlCompiler;

impl CompileStep for YamlCompiler {

    // Ghost items of the trait: they describe the compile step to the
    // verifier and are never called at run time.
    fn source_file_extension_spec() -> vstd::seq::Seq<char> {
        unreachable!()
    }
    fn compile_one_spec(
        _source: vstd::seq::Seq<char>,
        _intermediate_dir: vstd::seq::Seq<char>,
        _configuration: Configuration,
        _dependency_path: vstd::seq::Seq<char>,
        _flags: vstd::seq::Seq<vstd::seq::Seq<char>>,
    ) -> Result<(vstd::seq::Seq<char>, vstd::seq::Seq<char>), vstd::seq::Seq<char>> {
        unreachable!()
    }
    fn source_file_extension() -> String {
        String::from("yaml")
    }

    fn compile_one(
        _source: &str,
        _intermediate_dir: &str,
        _configuration: &Configuration,
        _dependency_path: &str,
        _flags: &Vec<String>,
    ) -> Result<CompileOutcome, String> {
        Err(String::from("this test never compiles anything"))
    }
}

fn env_with_manifest_dir(dir: &str) -> BuildEnv {
    BuildEnv {
        out_dir: None,
        manifest_dir: Some(String::from(dir)),
        debug: None,
        pkg_name: None,
    }
}

fn file(name: &str) -> FsDirEntry {
    FsDirEntry { name: String::from(name), tree: FsTree::File }
}

fn dir(name: &str, entries: Vec<FsDirEntry>) -> FsDirEntry {
    FsDirEntry { name: String::from(name), tree: FsTree::Dir { entries } }
}

#[test]
fn source_walk() {
    // A snapshot of a source tree holding no yaml files at all.
    let snapshot = FsTree::Dir {
        entries: vec![
            file("lib.rs"),
            dir("nested", vec![file("mod.rs"), file("data.json")]),
        ],
    };
    let strategy = SourceFileStrategy::SearchFromManifest(vec![String::from("src")]);
    let s = strategy
        .resolve::<YamlCompiler>(&env_with_manifest_dir("/proj"), &vec![snapshot])
        .unwrap();
    assert_eq!(s.len(), 0); // no yaml files in our build directory
}

#[test]
fn search_finds_files_in_enumeration_order() {
    let snapshot = FsTree::Dir {
        entries: vec![
            file("b.yaml"),
            dir("sub", vec![file("inner.yaml"), file("other.txt")]),
            file("a.yaml"),
            file("a.yaml.bak"),
        ],
    };
    let strategy = SourceFileStrategy::SearchFromManifest(vec![String::from("src")]);
    let s = strategy
        .resolve::<YamlCompiler>(&env_with_manifest_dir("/proj"), &vec![snapshot])
        .unwrap();
    assert_eq!(
        s,
        vec![
            String::from("/proj/src/b.yaml"),
            String::from("/proj/src/sub/inner.yaml"),
            String::from("/proj/src/a.yaml"),
        ]
    );
}

#[test]
fn re_resolving_same_tree_gives_identical_order() {
    let make_snapshot = || FsTree::Dir {
        entries: vec![
            file("two.yaml"),
            file("one.yaml"),
            dir("d", vec![file("three.yaml")]),
        ],
    };
    let strategy = SourceFileStrategy::SearchFromManifest(vec![String::from(".")]);
    let env = env_with_manifest_dir("/root");
    let first = strategy
        .resolve::<YamlCompiler>(&env, &vec![make_snapshot()])
        .unwrap();
    let second = strategy
        .resolve::<YamlCompiler>(&env, &vec![make_snapshot()])
        .unwrap();
    assert_eq!(first, second);
}

#[test]
fn explicit_list_is_returned_verbatim() {
    let strategy = SourceFileStrategy::SourceFiles(vec![
        String::from("z.yaml"),
        String::from("z.yaml"),
        String::from("not-even-yaml.txt"),
    ]);
    let env = BuildEnv { out_dir: None, manifest_dir: None, debug: None, pkg_name: None };
    let s = strategy.resolve::<YamlCompiler>(&env, &vec![]).unwrap();
    assert_eq!(
        s,
        vec![
            String::from("z.yaml"),
            String::from("z.yaml"),
            String::from("not-even-yaml.txt"),
        ]
    );
}

#[test]
fn unreadable_directory_aborts_resolution() {
    let snapshot = FsTree::Dir {
        entries: vec![
            file("a.yaml"),
            FsDirEntry { name: String::from("locked"), tree: FsTree::Unreadable },
        ],
    };
    let strategy = SourceFileStrategy::SearchFromManifest(vec![String::from("src")]);
    let r = strategy.resolve::<YamlCompiler>(&env_with_manifest_dir("/p"), &vec![snapshot]);
    match r {
        Err(BuildError::DirectoryUnreadable(p)) => assert_eq!(p, "/p/src/locked"),
        _ => panic!("expected DirectoryUnreadable"),
    }
}

#[test]
fn search_without_manifest_dir_is_a_configuration_error() {
    let strategy = SourceFileStrategy::SearchFromManifest(vec![String::from("src")]);
    let env = BuildEnv { out_dir: None, manifest_dir: None, debug: None, pkg_name: None };
    let r = strategy.resolve::<YamlCompiler>(&env, &vec![FsTree::Dir { entries: vec![] }]);
    assert!(matches!(r, Err(BuildError::ConfigurationError)));
}

#[test]
fn absolute_root_ignores_manifest_dir() {
    let snapshot = FsTree::Dir { entries: vec![file("only.yaml")] };
    let strategy = SourceFileStrategy::SearchFromManifest(vec![String::from("/abs/root")]);
    let s = strategy
        .resolve::<YamlCompiler>(&env_with_manifest_dir("/ignored"), &vec![snapshot])
        .unwrap();
    assert_eq!(s, vec![String::from("/abs/root/only.yaml")]);
}
