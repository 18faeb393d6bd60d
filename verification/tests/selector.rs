use juky4::kernel::classifier::ProjectType;
use juky4::kernel::runtime::selector::{select_runtime, RuntimeBackend};

#[test]
fn selects_pglite_for_pglite_projects() {
    assert_eq!(select_runtime(&ProjectType::PGLiteApp), RuntimeBackend::Pglite);
}

#[test]
fn selects_node_for_frontend_projects() {
    assert_eq!(select_runtime(&ProjectType::CreateReactApp), RuntimeBackend::Node);
    assert_eq!(select_runtime(&ProjectType::NextJs), RuntimeBackend::Node);
}

#[test]
fn selects_node_for_unknown_projects() {
    assert_eq!(select_runtime(&ProjectType::Unknown), RuntimeBackend::Node);
}
