//! The project plan: the commands that install, start and build a project.

use vstd::prelude::*;
use vstd::string::*;

use crate::kernel::classifier::ProjectType;

verus! {

/// How to install, start and (optionally) build a project of a given type.
#[derive(Debug, Clone)]
pub struct ProjectIR {
    pub project_type: ProjectType,
    pub install_cmd: String,
    pub dev_cmd: String,
    pub build_cmd: Option<String>,
}

/// A [`ProjectIR`] with its strings taken as character sequences.
pub struct ProjectIRView {
    pub project_type: ProjectType,
    pub install_cmd: Seq<char>,
    pub dev_cmd: Seq<char>,
    pub build_cmd: Option<Seq<char>>,
}

/// The characters of an optional string.
pub open spec fn opt_view(s: Option<String>) -> Option<Seq<char>> {
    match s {
        Some(s) => Some(s@),
        None => None,
    }
}

impl View for ProjectIR {
    type V = ProjectIRView;

    open spec fn view(&self) -> ProjectIRView {
        ProjectIRView {
            project_type: self.project_type,
            install_cmd: self.install_cmd@,
            dev_cmd: self.dev_cmd@,
            build_cmd: opt_view(self.build_cmd),
        }
    }
}

/// The plan for each project type.
pub open spec fn spec_compile_ir(project_type: ProjectType) -> ProjectIRView {
    match project_type {
        ProjectType::CreateReactApp => ProjectIRView {
            project_type,
            install_cmd: "npm install"@,
            dev_cmd: "npm start"@,
            build_cmd: Some("npm run build"@),
        },
        ProjectType::NextJs => ProjectIRView {
            project_type,
            install_cmd: "npm install"@,
            dev_cmd: "npm run dev"@,
            build_cmd: Some("npm run build && npm start"@),
        },
        ProjectType::PGLiteApp => ProjectIRView {
            project_type,
            install_cmd: "npm install"@,
            dev_cmd: "node server.js"@,
            build_cmd: None,
        },
        ProjectType::Unknown => ProjectIRView {
            project_type,
            install_cmd: "echo 'unknown project'"@,
            dev_cmd: "exit 1"@,
            build_cmd: None,
        },
    }
}

/// The commands of each kind of project: every known kind installs with
/// `npm install`; Create React App starts with `npm start` and builds with
/// `npm run build`; Next.js starts with `npm run dev` and builds and starts
/// with `npm run build && npm start`; PGLite starts `node server.js` and has
/// no build; an unknown project only reports itself and exits with failure.
pub proof fn lemma_plan_commands(t: ProjectType)
    ensures
        spec_compile_ir(t).project_type == t,
        t != ProjectType::Unknown ==> spec_compile_ir(t).install_cmd == "npm install"@,
        t == ProjectType::CreateReactApp ==> spec_compile_ir(t).dev_cmd == "npm start"@
            && spec_compile_ir(t).build_cmd == Some("npm run build"@),
        t == ProjectType::NextJs ==> spec_compile_ir(t).dev_cmd == "npm run dev"@
            && spec_compile_ir(t).build_cmd == Some("npm run build && npm start"@),
        t == ProjectType::PGLiteApp ==> spec_compile_ir(t).dev_cmd == "node server.js"@
            && spec_compile_ir(t).build_cmd is None,
        t == ProjectType::Unknown ==> spec_compile_ir(t).install_cmd == "echo 'unknown project'"@
            && spec_compile_ir(t).dev_cmd == "exit 1"@ && spec_compile_ir(t).build_cmd is None,
        (spec_compile_ir(t).build_cmd is Some) <==> (t == ProjectType::CreateReactApp || t
            == ProjectType::NextJs),
{
}

pub fn compile_ir(project_type: ProjectType) -> (ir: ProjectIR)
    ensures
        ir@ == spec_compile_ir(project_type),
{
    match project_type {
        ProjectType::CreateReactApp => ProjectIR {
            project_type,
            install_cmd: String::from_str("npm install"),
            dev_cmd: String::from_str("npm start"),
            build_cmd: Some(String::from_str("npm run build")),
        },
        ProjectType::NextJs => ProjectIR {
            project_type,
            install_cmd: String::from_str("npm install"),
            dev_cmd: String::from_str("npm run dev"),
            build_cmd: Some(String::from_str("npm run build && npm start")),
        },
        ProjectType::PGLiteApp => ProjectIR {
            project_type,
            install_cmd: String::from_str("npm install"),
            dev_cmd: String::from_str("node server.js"),
            build_cmd: None,
        },
        ProjectType::Unknown => ProjectIR {
            project_type,
            install_cmd: String::from_str("echo 'unknown project'"),
            dev_cmd: String::from_str("exit 1"),
            build_cmd: None,
        },
    }
}

} // verus!
