use vstd::prelude::*;

use crate::build_settings::Configuration;
use crate::paths::{file_name_of, file_stem_of, join_path, spec_file_name, spec_file_stem, spec_join};

verus! {

/// What one compile invocation hands back: the path of the intermediate
/// artifact it produced, and the text of the dependency manifest it wrote —
/// the auxiliary inputs it consulted, in the wire format that
/// [`crate::dependency_parser::parse`] reads.
pub struct CompileOutcome {
    pub artifact_path: String,
    pub manifest_text: String,
}

/// Extension point: a compiler, supplied by the embedding application. A
/// compile step turns one source file into one intermediate artifact.
///
/// Implementations must be deterministic for identical inputs; the two spec
/// functions are the mathematical statement of that determinism, and the
/// two methods must return exactly what they describe.
pub trait CompileStep {
    /// The extension of this compiler's source files, as a sequence of
    /// characters.
    spec fn source_file_extension_spec() -> Seq<char>;

    /// What one compile invocation yields for the given inputs: the
    /// artifact path paired with the dependency-manifest text, or a failure
    /// message.
    spec fn compile_one_spec(
        source: Seq<char>,
        intermediate_dir: Seq<char>,
        configuration: Configuration,
        dependency_path: Seq<char>,
        flags: Seq<Seq<char>>,
    ) -> Result<(Seq<char>, Seq<char>), Seq<char>>;

    /// The extension to scan for when resolving source files.
    fn source_file_extension() -> (r: String)
        ensures
            r@ == Self::source_file_extension_spec(),
    ;

    /// Compiles one source file, placing the artifact under
    /// `intermediate_dir`, and reports the auxiliary inputs it consulted.
    /// `dependency_path` names the file a file-writing implementation would
    /// put that report in; the orchestrator consumes the returned text.
    /// Failure aborts the whole orchestration.
    fn compile_one(
        source: &str,
        intermediate_dir: &str,
        configuration: &Configuration,
        dependency_path: &str,
        flags: &Vec<String>,
    ) -> (r: Result<CompileOutcome, String>)
        ensures
            match Self::compile_one_spec(
                source@,
                intermediate_dir@,
                *configuration,
                dependency_path@,
                flags.deep_view(),
            ) {
                Ok(out) => r matches Ok(o) && o.artifact_path@ == out.0 && o.manifest_text@
                    == out.1,
                Err(m) => r matches Err(e) && e@ == m,
            },
    ;
}

/// Extension point: a linker, supplied by the embedding application. A link
/// step combines all intermediate artifacts, in source order, into one
/// product.
pub trait LinkStep {
    /// What one link invocation yields for the given inputs: the product
    /// path, or a failure message. Link steps are deterministic for
    /// identical inputs.
    spec fn link_all_spec(
        object_files: Seq<Seq<char>>,
        out_dir: Seq<char>,
        lib_name: Seq<char>,
        configuration: Configuration,
    ) -> Result<Seq<char>, Seq<char>>;

    /// Links the given artifacts, in the given order, into one product
    /// under `out_dir`. Failure aborts the whole build.
    fn link_all(
        object_files: &Vec<String>,
        out_dir: &str,
        lib_name: &str,
        configuration: &Configuration,
    ) -> (r: Result<String, String>)
        ensures
            match Self::link_all_spec(
                object_files.deep_view(),
                out_dir@,
                lib_name@,
                *configuration,
            ) {
                Ok(p) => r matches Ok(s) && s@ == p,
                Err(m) => r matches Err(e) && e@ == m,
            },
    ;
}

/// Suggests a canonical name for an intermediate artifact: the stem of the
/// input file with `file_extension` appended, joined under
/// `intermediate_dir`. Advisory only; distinct source files sharing a stem
/// still collide under this scheme.
pub fn suggest_intermediate_file(input_file: &str, intermediate_dir: String, file_extension: &str)
    -> (r: String)
    requires
        spec_file_name(input_file@).len() > 0,
    ensures
        r@ == spec_join(
            intermediate_dir@,
            spec_file_stem(spec_file_name(input_file@)) + seq!['.'] + file_extension@,
        ),
{
    proof {
        reveal_strlit(".");
        assert("."@ =~= seq!['.']);
    }
    let name = file_name_of(input_file);
    let stem = file_stem_of(name);
    let with_extension = String::from_str(stem).concat(".").concat(file_extension);
    proof {
        assert(with_extension@ =~= spec_file_stem(spec_file_name(input_file@)) + seq!['.']
            + file_extension@);
    }
    join_path(intermediate_dir.as_str(), with_extension.as_str())
}

} // verus!
