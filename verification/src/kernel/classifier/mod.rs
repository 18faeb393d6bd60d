//! Recognising the kind of project that a `package.json` describes.

use vstd::prelude::*;

use crate::text::{seq_contains, str_contains};

verus! {

/// The kinds of JavaScript project the runner knows how to start.
#[derive(Debug, Clone, Copy, PartialEq, Eq, Structural)]
pub enum ProjectType {
    CreateReactApp,
    NextJs,
    PGLiteApp,
    Unknown,
}

/// The name under which a project type is reported.
pub open spec fn project_type_name(t: ProjectType) -> Seq<char> {
    match t {
        ProjectType::CreateReactApp => "CreateReactApp"@,
        ProjectType::NextJs => "NextJs"@,
        ProjectType::PGLiteApp => "PGLiteApp"@,
        ProjectType::Unknown => "Unknown"@,
    }
}

/// The name of a project type, as results report it.
pub fn project_type_str(t: ProjectType) -> (s: &'static str)
    ensures
        s@ == project_type_name(t),
{
    match t {
        ProjectType::CreateReactApp => "CreateReactApp",
        ProjectType::NextJs => "NextJs",
        ProjectType::PGLiteApp => "PGLiteApp",
        ProjectType::Unknown => "Unknown",
    }
}

/// Each project type is reported under the name of its variant.
pub proof fn lemma_project_type_names(t: ProjectType)
    ensures
        t == ProjectType::CreateReactApp ==> project_type_name(t) == "CreateReactApp"@,
        t == ProjectType::NextJs ==> project_type_name(t) == "NextJs"@,
        t == ProjectType::PGLiteApp ==> project_type_name(t) == "PGLiteApp"@,
        t == ProjectType::Unknown ==> project_type_name(t) == "Unknown"@,
{
}

/// The project type that a `package.json` with the characters `pkg` describes.
/// The markers are tried in order: a `"next"` dependency wins over
/// `"react-scripts"`, which wins over any mention of `pglite` or
/// `@electric-sql`; anything else is unknown.
pub open spec fn spec_classify(pkg: Seq<char>) -> ProjectType {
    if seq_contains(pkg, "\"next\""@) {
        ProjectType::NextJs
    } else if seq_contains(pkg, "\"react-scripts\""@) {
        ProjectType::CreateReactApp
    } else if seq_contains(pkg, "pglite"@) || seq_contains(pkg, "@electric-sql"@) {
        ProjectType::PGLiteApp
    } else {
        ProjectType::Unknown
    }
}

/// Which markers decide each kind: Next.js exactly when `"next"` (with its
/// quotes) occurs; Create React App exactly when `"react-scripts"` (with its
/// quotes) occurs and `"next"` does not; PGLite exactly when `pglite` or
/// `@electric-sql` occurs and neither of those two does; unknown exactly when
/// none of the four occurs.
pub proof fn lemma_classification_markers(pkg: Seq<char>)
    ensures
        (spec_classify(pkg) == ProjectType::NextJs) <==> seq_contains(pkg, "\"next\""@),
        (spec_classify(pkg) == ProjectType::CreateReactApp) <==> (!seq_contains(
            pkg,
            "\"next\""@,
        ) && seq_contains(pkg, "\"react-scripts\""@)),
        (spec_classify(pkg) == ProjectType::PGLiteApp) <==> (!seq_contains(pkg, "\"next\""@)
            && !seq_contains(pkg, "\"react-scripts\""@) && (seq_contains(pkg, "pglite"@)
            || seq_contains(pkg, "@electric-sql"@))),
        (spec_classify(pkg) == ProjectType::Unknown) <==> (!seq_contains(pkg, "\"next\""@)
            && !seq_contains(pkg, "\"react-scripts\""@) && !seq_contains(pkg, "pglite"@)
            && !seq_contains(pkg, "@electric-sql"@)),
{
}

/// Classifies a repository by the contents of its `package.json`
/// (the empty string when the repository has none).
pub fn classify_package_json(package_json: &str) -> (t: ProjectType)
    ensures
        t == spec_classify(package_json@),
{
    if str_contains(package_json, "\"next\"") {
        return ProjectType::NextJs;
    }
    if str_contains(package_json, "\"react-scripts\"") {
        return ProjectType::CreateReactApp;
    }
    if str_contains(package_json, "pglite") || str_contains(package_json, "@electric-sql") {
        return ProjectType::PGLiteApp;
    }
    ProjectType::Unknown
}

} // verus!
