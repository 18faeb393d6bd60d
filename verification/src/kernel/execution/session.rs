//! An execution session: one run of one repository, with its lifecycle state,
//! process id, port and log.

use vstd::prelude::*;
use vstd::string::*;

use crate::kernel::classifier::ProjectType;
use crate::kernel::ir::opt_view;
use crate::kernel::runtime::selector::RuntimeBackend;
use crate::text::{decimal, lemma_decimal_injective, push_decimal, seq_contains};

verus! {

/// Lifecycle state of an execution session.
#[derive(Debug, Clone, Copy, PartialEq, Eq, Structural)]
pub enum SessionStatus {
    Created,
    Installing,
    Running,
    Failed,
    Stopped,
}

/// Managed execution session with lifecycle tracking.
#[derive(Debug, Clone)]
pub struct ExecutionSession {
    pub session_id: String,
    pub repo_path: String,
    pub project_type: ProjectType,
    pub runtime: RuntimeBackend,
    pub status: SessionStatus,
    pub pid: Option<u32>,
    pub port: Option<u16>,
    pub logs: Vec<String>,
}

/// An [`ExecutionSession`] with its strings taken as character sequences.
#[verifier::ext_equal]
pub struct SessionView {
    pub session_id: Seq<char>,
    pub repo_path: Seq<char>,
    pub project_type: ProjectType,
    pub runtime: RuntimeBackend,
    pub status: SessionStatus,
    pub pid: Option<u32>,
    pub port: Option<u16>,
    pub logs: Seq<Seq<char>>,
}

impl View for ExecutionSession {
    type V = SessionView;

    open spec fn view(&self) -> SessionView {
        SessionView {
            session_id: self.session_id@,
            repo_path: self.repo_path@,
            project_type: self.project_type,
            runtime: self.runtime,
            status: self.status,
            pid: self.pid,
            port: self.port,
            logs: self.logs@.map_values(|l: String| l@),
        }
    }
}

/// The name under which a status is written in the log.
pub open spec fn status_name(status: SessionStatus) -> Seq<char> {
    match status {
        SessionStatus::Created => "Created"@,
        SessionStatus::Installing => "Installing"@,
        SessionStatus::Running => "Running"@,
        SessionStatus::Failed => "Failed"@,
        SessionStatus::Stopped => "Stopped"@,
    }
}

/// The log line that records a change of status.
pub open spec fn transition_message(from: SessionStatus, to: SessionStatus) -> Seq<char> {
    "status transition: "@ + status_name(from) + " -> "@ + status_name(to)
}

/// Where a session can be reached: a Node session on its port at
/// `http://localhost:<port>`, a PGLite session at its local database, and a
/// Node session without a port nowhere.
pub open spec fn spec_url(runtime: RuntimeBackend, port: Option<u16>) -> Option<Seq<char>> {
    match (runtime, port) {
        (RuntimeBackend::Node, Some(p)) => Some("http://localhost:"@ + decimal(p as nat)),
        (RuntimeBackend::Pglite, _) => Some("pglite://local-db"@),
        _ => None,
    }
}

/// A fresh session: created, with no process, no port and an empty log.
pub open spec fn fresh_session(
    session_id: Seq<char>,
    repo_path: Seq<char>,
    project_type: ProjectType,
    runtime: RuntimeBackend,
) -> SessionView {
    SessionView {
        session_id,
        repo_path,
        project_type,
        runtime,
        status: SessionStatus::Created,
        pid: None,
        port: None,
        logs: Seq::empty(),
    }
}

impl SessionView {
    /// The session with one more line in its log.
    pub open spec fn logged(self, message: Seq<char>) -> SessionView {
        SessionView { logs: self.logs.push(message), ..self }
    }

    /// The session moved to `to`, with the change recorded in its log.
    pub open spec fn transitioned(self, to: SessionStatus) -> SessionView {
        SessionView {
            status: to,
            ..self.logged(transition_message(self.status, to))
        }
    }
}

/// A change of status sets the status, keeps everything else, and adds
/// exactly one log line: the one that records the change.
pub proof fn lemma_transition_records_change(s: SessionView, to: SessionStatus)
    ensures
        s.transitioned(to).status == to,
        s.transitioned(to).logs.len() == s.logs.len() + 1,
        s.transitioned(to).logs.last() == transition_message(s.status, to),
        s.transitioned(to).logs.drop_last() == s.logs,
        s.transitioned(to).session_id == s.session_id,
        s.transitioned(to).pid == s.pid,
        s.transitioned(to).port == s.port,
{
    assert(s.transitioned(to).logs.drop_last() =~= s.logs);
}

/// The log line of a change of status names both the old and the new status:
/// it reads `status transition: `, then the old status, then ` -> `, then the
/// new status.
pub proof fn lemma_transition_message_names_both(from: SessionStatus, to: SessionStatus)
    ensures
        seq_contains(transition_message(from, to), status_name(from)),
        seq_contains(transition_message(from, to), status_name(to)),
        ({
            let m = transition_message(from, to);
            let a = "status transition: "@;
            let f = status_name(from);
            let b = " -> "@;
            let t = status_name(to);
            &&& m.len() == a.len() + f.len() + b.len() + t.len()
            &&& m.subrange(0, a.len() as int) == a
            &&& m.subrange(a.len() as int, (a.len() + f.len()) as int) == f
            &&& m.subrange((a.len() + f.len()) as int, (a.len() + f.len() + b.len()) as int) == b
            &&& m.subrange((m.len() - t.len()) as int, m.len() as int) == t
        }),
{
    let m0 = transition_message(from, to);
    let a0 = "status transition: "@;
    let f0 = status_name(from);
    let b0 = " -> "@;
    let t0 = status_name(to);
    assert(m0.subrange(0, a0.len() as int) =~= a0);
    assert(m0.subrange((a0.len() + f0.len()) as int, (a0.len() + f0.len() + b0.len()) as int) =~= b0);
    assert(m0.subrange((m0.len() - t0.len()) as int, m0.len() as int) =~= t0);
    let m = transition_message(from, to);
    let a = "status transition: "@;
    let f = status_name(from);
    let b = " -> "@;
    let t = status_name(to);
    assert(m.subrange(a.len() as int, (a.len() + f.len()) as int) =~= f);
    let k = a.len() + f.len() + b.len();
    assert(m.subrange(k as int, (k + t.len()) as int) =~= t);
}

/// A session can be reached exactly when it runs on PGLite or holds a port.
pub proof fn lemma_url_defined(runtime: RuntimeBackend, port: Option<u16>)
    ensures
        spec_url(runtime, port) is Some <==> (runtime == RuntimeBackend::Pglite || port is Some),
{
}

/// Each status is written under the name of its variant.
pub proof fn lemma_status_names(status: SessionStatus)
    ensures
        status == SessionStatus::Created ==> status_name(status) == "Created"@,
        status == SessionStatus::Installing ==> status_name(status) == "Installing"@,
        status == SessionStatus::Running ==> status_name(status) == "Running"@,
        status == SessionStatus::Failed ==> status_name(status) == "Failed"@,
        status == SessionStatus::Stopped ==> status_name(status) == "Stopped"@,
{
}

/// A Node session holding port `p` is reached at `http://localhost:` followed
/// by `p` in decimal, whatever its project; a PGLite session at its local
/// database, whatever its port; sessions on different ports at different
/// addresses.
pub proof fn lemma_url_shape(runtime: RuntimeBackend, port: Option<u16>, other: u16)
    ensures
        runtime == RuntimeBackend::Node && port is Some ==> spec_url(runtime, port) == Some(
            "http://localhost:"@ + decimal(port->0 as nat),
        ),
        runtime == RuntimeBackend::Pglite ==> spec_url(runtime, port) == Some(
            "pglite://local-db"@,
        ),
        runtime == RuntimeBackend::Node && port is Some && port != Some(other) ==> spec_url(
            runtime,
            port,
        ) != spec_url(runtime, Some(other)),
{
    if runtime == RuntimeBackend::Node && port is Some && port != Some(other) {
        let p = port->0;
        lemma_decimal_injective(p as nat, other as nat);
        let a = "http://localhost:"@;
        if spec_url(runtime, port) == spec_url(runtime, Some(other)) {
            let x = a + decimal(p as nat);
            let y = a + decimal(other as nat);
            assert(x == y);
            assert(x.subrange(a.len() as int, x.len() as int) =~= decimal(p as nat));
            assert(y.subrange(a.len() as int, y.len() as int) =~= decimal(other as nat));
        }
    }
}

/// A new session is blank: it holds exactly the given identifier, path,
/// project type and runtime, is `Created`, has no process and no port, and
/// an empty log.
pub proof fn lemma_fresh_session_is_blank(
    id: Seq<char>,
    repo_path: Seq<char>,
    t: ProjectType,
    runtime: RuntimeBackend,
)
    ensures
        ({
            let s = fresh_session(id, repo_path, t, runtime);
            &&& s.session_id == id
            &&& s.repo_path == repo_path
            &&& s.project_type == t
            &&& s.runtime == runtime
            &&& s.status == SessionStatus::Created
            &&& s.pid is None
            &&& s.port is None
            &&& s.logs.len() == 0
        }),
{
}

/// The name of a status, as the log writes it.
pub fn status_str(status: SessionStatus) -> (s: &'static str)
    ensures
        s@ == status_name(status),
{
    match status {
        SessionStatus::Created => "Created",
        SessionStatus::Installing => "Installing",
        SessionStatus::Running => "Running",
        SessionStatus::Failed => "Failed",
        SessionStatus::Stopped => "Stopped",
    }
}

impl ExecutionSession {
    pub fn new(
        session_id: String,
        repo_path: String,
        project_type: ProjectType,
        runtime: RuntimeBackend,
    ) -> (s: Self)
        ensures
            s@ == fresh_session(session_id@, repo_path@, project_type, runtime),
    {
        let s = ExecutionSession {
            session_id,
            repo_path,
            project_type,
            runtime,
            status: SessionStatus::Created,
            pid: None,
            port: None,
            logs: Vec::new(),
        };
        assert(s@.logs =~= Seq::<Seq<char>>::empty());
        s
    }

    /// Appends a line to the session's log.
    pub fn log(&mut self, message: String)
        ensures
            final(self)@ == old(self)@.logged(message@),
    {
        self.logs.push(message);
        assert(self@.logs =~= old(self)@.logs.push(message@));
    }

    /// Moves the session to `new_status`, logging the change first.
    pub fn transition(&mut self, new_status: SessionStatus)
        ensures
            final(self)@ == old(self)@.transitioned(new_status),
    {
        let mut message = String::from_str("status transition: ");
        message.append(status_str(self.status));
        message.append(" -> ");
        message.append(status_str(new_status));
        self.log(message);
        self.status = new_status;
    }

    pub fn is_running(&self) -> (b: bool)
        ensures
            b == (self.status == SessionStatus::Running),
    {
        self.status == SessionStatus::Running
    }

    pub fn url(&self) -> (u: Option<String>)
        ensures
            opt_view(u) == spec_url(self.runtime, self.port),
    {
        match (&self.runtime, self.port) {
            (RuntimeBackend::Node, Some(port)) => {
                let mut u = String::from_str("http://localhost:");
                push_decimal(&mut u, port);
                Some(u)
            },
            (RuntimeBackend::Pglite, _) => Some(String::from_str("pglite://local-db")),
            _ => None,
        }
    }
}

} // verus!
