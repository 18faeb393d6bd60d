//! Choosing the runtime backend for a project.

use vstd::prelude::*;

use crate::kernel::classifier::ProjectType;

verus! {

/// The backends a project can be run on.
#[derive(Debug, Clone, Copy, PartialEq, Eq, Structural)]
pub enum RuntimeBackend {
    Node,
    Pglite,
}

/// PGLite projects run on the PGLite backend; every other kind runs on Node.
pub open spec fn spec_select_runtime(project_type: ProjectType) -> RuntimeBackend {
    match project_type {
        ProjectType::PGLiteApp => RuntimeBackend::Pglite,
        _ => RuntimeBackend::Node,
    }
}

pub fn select_runtime(project_type: &ProjectType) -> (r: RuntimeBackend)
    ensures
        r == spec_select_runtime(*project_type),
{
    match project_type {
        ProjectType::CreateReactApp => RuntimeBackend::Node,
        ProjectType::NextJs => RuntimeBackend::Node,
        ProjectType::PGLiteApp => RuntimeBackend::Pglite,
        ProjectType::Unknown => RuntimeBackend::Node,
    }
}

} // verus!
