use juky4::kernel::classifier::ProjectType;
use juky4::kernel::ir::{compile_ir, ProjectIR};
use juky4::kernel::pipeline::{compile_repo_plan, detect_project_type, plan_repo_run};
use juky4::kernel::runtime::execute::{
    execution_result, launch_steps, node_execution_result, pglite_execution_result,
    ExecutionStatus, LaunchStep,
};
use juky4::kernel::runtime::selector::{select_runtime, RuntimeBackend};

fn step_command(step: &LaunchStep) -> (&str, bool) {
    match step {
        LaunchStep::Wait(c) => (c.as_str(), true),
        LaunchStep::Spawn(c) => (c.as_str(), false),
    }
}

#[test]
fn compiles_next_repo_plan_with_expected_commands() {
    let ir = compile_repo_plan(r#"{"dependencies":{"next":"14.0.0"}}"#);

    assert_eq!(ir.project_type, ProjectType::NextJs);
    assert_eq!(ir.install_cmd, "npm install");
    assert_eq!(ir.dev_cmd, "npm run dev");
    assert_eq!(ir.build_cmd.as_deref(), Some("npm run build && npm start"));
}

#[test]
fn selects_pglite_runtime_for_pglite_plan() {
    let project_type = detect_project_type(r#"{"dependencies":{"@electric-sql/pglite":"0.2.0"}}"#);
    let runtime = select_runtime(&project_type);

    assert_eq!(project_type, ProjectType::PGLiteApp);
    assert_eq!(runtime, RuntimeBackend::Pglite);
}

#[test]
fn execute_node_emits_trace_data() {
    let ir = ProjectIR {
        project_type: ProjectType::CreateReactApp,
        install_cmd: "true".into(),
        dev_cmd: "true".into(),
        build_cmd: Some("true".into()),
    };

    let steps = launch_steps(&ir, RuntimeBackend::Node);
    assert_eq!(steps.iter().map(step_command).collect::<Vec<_>>(), vec![("true", true), ("true", false)]);
    // `true` exits successfully and can be started.
    let result = execution_result(&ir, RuntimeBackend::Node, &vec![true, true]);
    assert_eq!(result.runtime, "Node");
    assert_eq!(result.url.as_deref(), Some("http://localhost:3000"));
    assert_eq!(result.status, ExecutionStatus::Running);
    assert!(result.logs.iter().any(|line| line.contains("installing: true")));
}

#[test]
fn execute_pglite_emits_trace_data() {
    let ir = compile_ir(ProjectType::PGLiteApp);
    let ir = ProjectIR {
        dev_cmd: "true".into(),
        ..ir
    };

    let steps = launch_steps(&ir, RuntimeBackend::Pglite);
    assert_eq!(steps.iter().map(step_command).collect::<Vec<_>>(), vec![("true", true)]);
    let result = execution_result(&ir, RuntimeBackend::Pglite, &vec![true]);
    assert_eq!(result.runtime, "Pglite");
    assert_eq!(result.url.as_deref(), Some("pglite://local-db"));
    assert_eq!(result.status, ExecutionStatus::Running);
    assert!(
        result
            .logs
            .iter()
            .any(|line| line.contains("starting PGLite runtime"))
    );
}

#[test]
fn compile_ir_gives_each_type_its_commands() {
    let cra = compile_ir(ProjectType::CreateReactApp);
    assert_eq!((cra.install_cmd.as_str(), cra.dev_cmd.as_str()), ("npm install", "npm start"));
    assert_eq!(cra.build_cmd.as_deref(), Some("npm run build"));
    let pg = compile_ir(ProjectType::PGLiteApp);
    assert_eq!((pg.install_cmd.as_str(), pg.dev_cmd.as_str()), ("npm install", "node server.js"));
    assert_eq!(pg.build_cmd, None);
    let unknown = compile_ir(ProjectType::Unknown);
    assert_eq!(unknown.install_cmd, "echo 'unknown project'");
    assert_eq!(unknown.dev_cmd, "exit 1");
    assert_eq!(unknown.build_cmd, None);
    assert_eq!(unknown.project_type, ProjectType::Unknown);
}

#[test]
fn node_result_reports_exact_logs_and_failure() {
    let ir = compile_ir(ProjectType::NextJs);
    let r = node_execution_result(&ir, true, false);
    assert_eq!(r.project_type, "NextJs");
    assert_eq!(r.runtime, "Node");
    assert_eq!(r.logs, vec!["installing: npm install".to_string(), "starting: npm run dev".to_string()]);
    assert_eq!(r.status, ExecutionStatus::Failed);
    assert_eq!(node_execution_result(&ir, false, true).status, ExecutionStatus::Failed);
    assert_eq!(node_execution_result(&ir, true, true).status, ExecutionStatus::Running);
}

#[test]
fn pglite_result_reports_exact_logs_and_failure() {
    let ir = compile_ir(ProjectType::PGLiteApp);
    let r = pglite_execution_result(&ir, false);
    assert_eq!(r.project_type, "PGLiteApp");
    assert_eq!(r.logs, vec!["starting PGLite runtime".to_string(), "executing: node server.js".to_string()]);
    assert_eq!(r.status, ExecutionStatus::Failed);
    assert_eq!(r.url.as_deref(), Some("pglite://local-db"));
}

#[test]
fn run_plan_for_node_and_pglite_repos() {
    let plan = plan_repo_run(r#"{"dependencies":{"react-scripts":"5.0.1"}}"#);
    assert_eq!(plan.ir.project_type, ProjectType::CreateReactApp);
    assert_eq!(plan.runtime, RuntimeBackend::Node);
    assert_eq!(
        plan.steps.iter().map(step_command).collect::<Vec<_>>(),
        vec![("npm install", true), ("npm start", false)]
    );
    let plan = plan_repo_run(r#"{"dependencies":{"pglite":"0.2.0"}}"#);
    assert_eq!(plan.runtime, RuntimeBackend::Pglite);
    assert_eq!(plan.steps.iter().map(step_command).collect::<Vec<_>>(), vec![("node server.js", true)]);
}

#[test]
fn run_is_running_only_when_every_step_succeeds() {
    let ir = compile_ir(ProjectType::NextJs);
    for (a, b) in [(true, true), (true, false), (false, true), (false, false)] {
        let r = execution_result(&ir, RuntimeBackend::Node, &vec![a, b]);
        let want = if a && b { ExecutionStatus::Running } else { ExecutionStatus::Failed };
        assert_eq!(r.status, want);
    }
}

#[test]
fn plan_type_matches_detected_type() {
    for pkg in ["", r#"{"next":"1"}"#, r#"{"react-scripts":"1"}"#, "pglite"] {
        assert_eq!(compile_repo_plan(pkg).project_type, detect_project_type(pkg));
    }
}
