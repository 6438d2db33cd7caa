//! PlantUML output formats and the deterministic location of a rendered
//! artifact.
use vstd::prelude::*;
use vstd::string::StringExecFns;

verus! {

/// The document shown on first start, before any file exists.
pub const DEFAULT_DIAGRAM: &'static str = "@startuml\ntitle MyDiagram\n'comment\n\nAlice -> Bob: Hello\n@enduml";

/// The output formats the external renderer can produce.
#[derive(Clone, Copy, PartialEq, Eq, Structural, Debug)]
pub enum PlantUmlExtensions {
    Eps,
    Latex,
    Pdf,
    Png,
    Svg,
    Vxd,
    Txt,
    Utxt,
}

impl Default for PlantUmlExtensions {
    fn default() -> (r: Self)
        ensures
            r == PlantUmlExtensions::Png,
    {
        PlantUmlExtensions::Png
    }
}

/// The command-line selector the external renderer expects for each format.
pub open spec fn output_format_spec(e: PlantUmlExtensions) -> Seq<char> {
    match e {
        PlantUmlExtensions::Eps => "-teps"@,
        PlantUmlExtensions::Latex => "-tlatex"@,
        PlantUmlExtensions::Pdf => "-tpdf"@,
        PlantUmlExtensions::Png => "-tpng"@,
        PlantUmlExtensions::Svg => "-tsvg"@,
        PlantUmlExtensions::Vxd => "-tvxd"@,
        PlantUmlExtensions::Txt => "-ttxt"@,
        PlantUmlExtensions::Utxt => "-tutxt"@,
    }
}

impl PlantUmlExtensions {
    /// The `-t...` selector handed to the external renderer.
    pub fn to_output_format(&self) -> (r: String)
        ensures
            r@ == output_format_spec(*self),
    {
        match self {
            PlantUmlExtensions::Eps => String::from_str("-teps"),
            PlantUmlExtensions::Latex => String::from_str("-tlatex"),
            PlantUmlExtensions::Pdf => String::from_str("-tpdf"),
            PlantUmlExtensions::Png => String::from_str("-tpng"),
            PlantUmlExtensions::Svg => String::from_str("-tsvg"),
            PlantUmlExtensions::Vxd => String::from_str("-tvxd"),
            PlantUmlExtensions::Txt => String::from_str("-ttxt"),
            PlantUmlExtensions::Utxt => String::from_str("-tutxt"),
        }
    }
}

/// The external renderer writes its artifact to a path derived from the
/// destination directory, the input file's stem, and the format's
/// extension; this derivation is what lets the orchestrator find the file
/// without being told.
pub fn derive_output_path(dir: &str, stem: &str, extension: &str) -> (r: String)
    ensures
        r@ == dir@ + "/"@ + stem@ + "."@ + extension@,
{
    let mut s = String::from_str(dir);
    s.append("/");
    s.append(stem);
    s.append(".");
    s.append(extension);
    s
}

} // verus!
