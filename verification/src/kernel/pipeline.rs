//! Composition of classification, planning and runtime selection: from the
//! contents of a repository's `package.json` to the plan of its launch.

use vstd::prelude::*;

use crate::kernel::classifier::{classify_package_json, spec_classify, ProjectType};
use crate::kernel::ir::{compile_ir, spec_compile_ir, ProjectIR, ProjectIRView};
use crate::kernel::runtime::execute::{
    launch_steps, spec_execution_result, spec_launch_steps, ExecutionStatus, LaunchStep,
    LaunchStepView,
};
use crate::kernel::runtime::selector::{select_runtime, spec_select_runtime, RuntimeBackend};
use crate::text::seq_contains;

verus! {

/// The plan of the repository whose `package.json` holds `package_json`
/// (the empty string when it has none).
pub fn compile_repo_plan(package_json: &str) -> (ir: ProjectIR)
    ensures
        ir@ == spec_compile_ir(spec_classify(package_json@)),
{
    let project_type = classify_package_json(package_json);
    compile_ir(project_type)
}

/// The project type of the repository whose `package.json` holds
/// `package_json` (the empty string when it has none).
pub fn detect_project_type(package_json: &str) -> (t: ProjectType)
    ensures
        t == spec_classify(package_json@),
{
    classify_package_json(package_json)
}

/// Everything a launch of a repository needs: its plan, its backend and the
/// commands to run, in order.
pub struct RunPlan {
    pub ir: ProjectIR,
    pub runtime: RuntimeBackend,
    pub steps: Vec<LaunchStep>,
}

/// Plans the launch of the repository whose `package.json` holds
/// `package_json`. The caller runs `steps` in order and reports their
/// outcomes to `execution_result` with `ir` and `runtime`.
pub fn plan_repo_run(package_json: &str) -> (p: RunPlan)
    ensures
        p.ir@ == spec_compile_ir(spec_classify(package_json@)),
        p.runtime == spec_select_runtime(spec_classify(package_json@)),
        p.steps@.map_values(|s: LaunchStep| s@) == spec_launch_steps(p.ir@, p.runtime),
{
    let ir = compile_repo_plan(package_json);
    let runtime = select_runtime(&ir.project_type);
    let steps = launch_steps(&ir, runtime);
    RunPlan { ir, runtime, steps }
}

/// The plan of every project type is a plan for that type.
pub proof fn lemma_plan_keeps_type(t: ProjectType)
    ensures
        spec_compile_ir(t).project_type == t,
{
}

/// The plan compiled for a repository is for the type detected in it.
pub proof fn lemma_plan_matches_detection(package_json: Seq<char>)
    ensures
        spec_compile_ir(spec_classify(package_json)).project_type == spec_classify(package_json),
{
}

/// A `"next"` dependency makes a Next.js project, whatever else is listed.
pub proof fn lemma_next_takes_precedence(package_json: Seq<char>)
    requires
        seq_contains(package_json, "\"next\""@),
    ensures
        spec_classify(package_json) == ProjectType::NextJs,
{
}

/// Exactly the PGLite projects run on the PGLite backend.
pub proof fn lemma_pglite_backend_iff_pglite_project(t: ProjectType)
    ensures
        (spec_select_runtime(t) == RuntimeBackend::Pglite) <==> (t == ProjectType::PGLiteApp),
{
}

/// Every launch ends by running the project's dev command: on Node, for
/// every project, the install command runs to completion and then the dev
/// command is started in the background, never waited for; on PGLite the dev
/// command alone runs to completion.
pub proof fn lemma_launch_ends_with_dev_command(ir: ProjectIRView, runtime: RuntimeBackend)
    ensures
        spec_launch_steps(ir, RuntimeBackend::Node) == seq![
            LaunchStepView::Wait(ir.install_cmd),
            LaunchStepView::Spawn(ir.dev_cmd),
        ],
        spec_launch_steps(ir, RuntimeBackend::Pglite) == seq![LaunchStepView::Wait(ir.dev_cmd)],
        spec_launch_steps(ir, runtime).len() > 0,
        runtime == RuntimeBackend::Node ==> spec_launch_steps(ir, runtime).last()
            == LaunchStepView::Spawn(ir.dev_cmd),
        runtime == RuntimeBackend::Pglite ==> spec_launch_steps(ir, runtime).last()
            == LaunchStepView::Wait(ir.dev_cmd),
{
}

/// A launch is reported running exactly when each of its steps succeeded.
pub proof fn lemma_running_iff_every_step_succeeded(
    ir: ProjectIRView,
    runtime: RuntimeBackend,
    outcomes: Seq<bool>,
)
    requires
        outcomes.len() == spec_launch_steps(ir, runtime).len(),
    ensures
        (spec_execution_result(ir, runtime, outcomes).status == ExecutionStatus::Running) <==> (
        forall|i: int| 0 <= i < outcomes.len() ==> #[trigger] outcomes[i]),
{
    if runtime == RuntimeBackend::Node {
        if !outcomes[0] || !outcomes[1] {
            assert(!outcomes[0] ==> !(forall|i: int| 0 <= i < outcomes.len() ==> #[trigger] outcomes[i]));
            assert(!outcomes[1] ==> !(forall|i: int| 0 <= i < outcomes.len() ==> #[trigger] outcomes[i]));
        }
    } else {
        if !outcomes[0] {
            assert(!(forall|i: int| 0 <= i < outcomes.len() ==> #[trigger] outcomes[i]));
        }
    }
}

} // verus!
