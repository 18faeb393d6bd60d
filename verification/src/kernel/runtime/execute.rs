//! Launching a planned project: which commands run, in which order and how,
//! and the report that is made of their outcomes.
//!
//! The commands themselves are run by the caller. It performs the steps of
//! [`launch_steps`] in order, records for each whether it succeeded, and hands
//! those outcomes to [`execution_result`].

use vstd::prelude::*;
use vstd::string::*;

use crate::kernel::classifier::{project_type_name, project_type_str};
use crate::kernel::ir::{opt_view, ProjectIR, ProjectIRView};
use crate::kernel::runtime::selector::RuntimeBackend;

verus! {

#[derive(Debug, Clone, Copy, PartialEq, Eq, Structural)]
pub enum ExecutionStatus {
    Running,
    Failed,
}

/// The report of one launch of a project.
#[derive(Debug, Clone)]
pub struct ExecutionResult {
    pub project_type: String,
    pub runtime: String,
    pub logs: Vec<String>,
    pub url: Option<String>,
    pub status: ExecutionStatus,
}

/// An [`ExecutionResult`] with its strings taken as character sequences.
#[verifier::ext_equal]
pub struct ExecutionResultView {
    pub project_type: Seq<char>,
    pub runtime: Seq<char>,
    pub logs: Seq<Seq<char>>,
    pub url: Option<Seq<char>>,
    pub status: ExecutionStatus,
}

impl View for ExecutionResult {
    type V = ExecutionResultView;

    open spec fn view(&self) -> ExecutionResultView {
        ExecutionResultView {
            project_type: self.project_type@,
            runtime: self.runtime@,
            logs: self.logs@.map_values(|l: String| l@),
            url: opt_view(self.url),
            status: self.status,
        }
    }
}

/// One shell command of a launch.
#[derive(Debug, Clone)]
pub enum LaunchStep {
    /// Run the command to completion; it succeeds when it exits successfully.
    Wait(String),
    /// Start the command in the background; it succeeds when it was started.
    Spawn(String),
}

pub enum LaunchStepView {
    Wait(Seq<char>),
    Spawn(Seq<char>),
}

impl View for LaunchStep {
    type V = LaunchStepView;

    open spec fn view(&self) -> LaunchStepView {
        match self {
            LaunchStep::Wait(c) => LaunchStepView::Wait(c@),
            LaunchStep::Spawn(c) => LaunchStepView::Spawn(c@),
        }
    }
}

/// The commands a launch runs: on Node, the install command to completion
/// and then the dev command in the background; on PGLite, the dev command to
/// completion.
pub open spec fn spec_launch_steps(ir: ProjectIRView, runtime: RuntimeBackend) -> Seq<
    LaunchStepView,
> {
    match runtime {
        RuntimeBackend::Node => seq![
            LaunchStepView::Wait(ir.install_cmd),
            LaunchStepView::Spawn(ir.dev_cmd),
        ],
        RuntimeBackend::Pglite => seq![LaunchStepView::Wait(ir.dev_cmd)],
    }
}

/// The report of a Node launch whose install command succeeded or not
/// (`install_ok`) and whose dev command was started or not (`started`).
pub open spec fn spec_node_result(
    ir: ProjectIRView,
    install_ok: bool,
    started: bool,
) -> ExecutionResultView {
    ExecutionResultView {
        project_type: project_type_name(ir.project_type),
        runtime: "Node"@,
        logs: seq!["installing: "@ + ir.install_cmd, "starting: "@ + ir.dev_cmd],
        url: Some("http://localhost:3000"@),
        status: if install_ok && started {
            ExecutionStatus::Running
        } else {
            ExecutionStatus::Failed
        },
    }
}

/// The report of a PGLite launch whose dev command succeeded or not (`ran`).
pub open spec fn spec_pglite_result(ir: ProjectIRView, ran: bool) -> ExecutionResultView {
    ExecutionResultView {
        project_type: project_type_name(ir.project_type),
        runtime: "Pglite"@,
        logs: seq!["starting PGLite runtime"@, "executing: "@ + ir.dev_cmd],
        url: Some("pglite://local-db"@),
        status: if ran {
            ExecutionStatus::Running
        } else {
            ExecutionStatus::Failed
        },
    }
}

/// The report of a launch on `runtime`, given the outcome of each of its steps.
pub open spec fn spec_execution_result(
    ir: ProjectIRView,
    runtime: RuntimeBackend,
    outcomes: Seq<bool>,
) -> ExecutionResultView {
    match runtime {
        RuntimeBackend::Node => spec_node_result(ir, outcomes[0], outcomes[1]),
        RuntimeBackend::Pglite => spec_pglite_result(ir, outcomes[0]),
    }
}

/// What a launch reports, for every plan and outcome: the project type by
/// name; on Node, the backend `Node`, the lines `installing: <install>` and
/// `starting: <dev>`, and the address `http://localhost:3000`; on PGLite, the
/// backend `Pglite`, the lines `starting PGLite runtime` and
/// `executing: <dev>`, and the address `pglite://local-db`.
pub proof fn lemma_launch_reports(ir: ProjectIRView, outcomes: Seq<bool>)
    requires
        outcomes.len() >= 2,
    ensures
        ({
            let r = spec_execution_result(ir, RuntimeBackend::Node, outcomes);
            &&& r.project_type == project_type_name(ir.project_type)
            &&& r.runtime == "Node"@
            &&& r.logs == seq!["installing: "@ + ir.install_cmd, "starting: "@ + ir.dev_cmd]
            &&& r.url == Some("http://localhost:3000"@)
        }),
        ({
            let r = spec_execution_result(ir, RuntimeBackend::Pglite, outcomes);
            &&& r.project_type == project_type_name(ir.project_type)
            &&& r.runtime == "Pglite"@
            &&& r.logs == seq!["starting PGLite runtime"@, "executing: "@ + ir.dev_cmd]
            &&& r.url == Some("pglite://local-db"@)
        }),
{
}

/// `prefix` followed by `s`, as a new string.
fn prefixed(prefix: &str, s: &String) -> (r: String)
    ensures
        r@ == prefix@ + s@,
{
    let mut r = String::from_str(prefix);
    r.append(s.as_str());
    r
}

/// The commands that launch `ir` on `runtime`, in the order they run.
pub fn launch_steps(ir: &ProjectIR, runtime: RuntimeBackend) -> (steps: Vec<LaunchStep>)
    ensures
        steps@.map_values(|s: LaunchStep| s@) == spec_launch_steps(ir@, runtime),
{
    let mut steps: Vec<LaunchStep> = Vec::new();
    match runtime {
        RuntimeBackend::Node => {
            steps.push(LaunchStep::Wait(String::from_str(ir.install_cmd.as_str())));
            steps.push(LaunchStep::Spawn(String::from_str(ir.dev_cmd.as_str())));
        },
        RuntimeBackend::Pglite => {
            steps.push(LaunchStep::Wait(String::from_str(ir.dev_cmd.as_str())));
        },
    }
    assert(steps@.map_values(|s: LaunchStep| s@) =~= spec_launch_steps(ir@, runtime));
    steps
}

/// The report of a Node launch of `ir`.
pub fn node_execution_result(ir: &ProjectIR, install_ok: bool, started: bool) -> (r:
    ExecutionResult)
    ensures
        r@ == spec_node_result(ir@, install_ok, started),
{
    let mut logs: Vec<String> = Vec::new();
    logs.push(prefixed("installing: ", &ir.install_cmd));
    logs.push(prefixed("starting: ", &ir.dev_cmd));
    let status = if install_ok && started {
        ExecutionStatus::Running
    } else {
        ExecutionStatus::Failed
    };
    let r = ExecutionResult {
        project_type: String::from_str(project_type_str(ir.project_type)),
        runtime: String::from_str("Node"),
        logs,
        url: Some(String::from_str("http://localhost:3000")),
        status,
    };
    assert(r@.logs =~= spec_node_result(ir@, install_ok, started).logs);
    r
}

/// The report of a PGLite launch of `ir`.
pub fn pglite_execution_result(ir: &ProjectIR, ran: bool) -> (r: ExecutionResult)
    ensures
        r@ == spec_pglite_result(ir@, ran),
{
    let mut logs: Vec<String> = Vec::new();
    logs.push(String::from_str("starting PGLite runtime"));
    logs.push(prefixed("executing: ", &ir.dev_cmd));
    let status = if ran {
        ExecutionStatus::Running
    } else {
        ExecutionStatus::Failed
    };
    let r = ExecutionResult {
        project_type: String::from_str(project_type_str(ir.project_type)),
        runtime: String::from_str("Pglite"),
        logs,
        url: Some(String::from_str("pglite://local-db")),
        status,
    };
    assert(r@.logs =~= spec_pglite_result(ir@, ran).logs);
    r
}

/// The report of a launch of `ir` on `runtime`, where `outcomes[i]` tells
/// whether step `i` of [`launch_steps`] succeeded.
pub fn execution_result(ir: &ProjectIR, runtime: RuntimeBackend, outcomes: &Vec<bool>) -> (r:
    ExecutionResult)
    requires
        outcomes@.len() == spec_launch_steps(ir@, runtime).len(),
    ensures
        r@ == spec_execution_result(ir@, runtime, outcomes@),
{
    match runtime {
        RuntimeBackend::Node => node_execution_result(ir, outcomes[0], outcomes[1]),
        RuntimeBackend::Pglite => pglite_execution_result(ir, outcomes[0]),
    }
}

} // verus!
