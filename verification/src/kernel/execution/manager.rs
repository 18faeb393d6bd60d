//! Bookkeeping of execution sessions: their identifiers, their ports and
//! their lifecycle.
//!
//! The manager decides; the caller runs the processes. Starting a session
//! takes three steps: [`ExecutionManager::start_session`] hands back the
//! install command, [`ExecutionManager::install_finished`] takes its outcome
//! and hands back the dev command, and [`ExecutionManager::spawn_finished`]
//! takes the outcome of starting that command.

use vstd::prelude::*;
use vstd::string::*;

use crate::kernel::classifier::{classify_package_json, spec_classify, ProjectType};
use crate::kernel::execution::session::{
    fresh_session, transition_message, ExecutionSession, SessionStatus, SessionView,
};
use crate::kernel::ir::{compile_ir, spec_compile_ir};
use crate::kernel::runtime::selector::{select_runtime, spec_select_runtime, RuntimeBackend};
use crate::text::{decimal, lemma_decimal_injective, lemma_decimal_is_base_ten, push_decimal};

verus! {

/// The port handed to the first session that is started.
pub const FIRST_PORT: u16 = 3000;

/// A lower-case hexadecimal digit.
pub open spec fn is_lower_hex(c: char) -> bool {
    ('0' <= c && c <= '9') || ('a' <= c && c <= 'f')
}

/// The hyphenated text of a random (version 4) UUID, such as
/// `67e55044-10b1-426f-9247-bb680e5fe0c8`.
pub open spec fn is_v4_uuid_text(s: Seq<char>) -> bool {
    &&& s.len() == 36
    &&& forall|i: int|
        0 <= i < 36 ==> if i == 8 || i == 13 || i == 18 || i == 23 {
            #[trigger] s[i] == '-'
        } else {
            is_lower_hex(s[i])
        }
    &&& s[14] == '4'
}

/// A fresh random identifier: the hyphenated text of `uuid::Uuid::new_v4()`.
/// The contract states the shape that the uuid crate's formatter gives every
/// such value; which value comes out is left open, as it rests on chance.
#[verifier::external_body]
fn new_session_id() -> (id: String)
    ensures
        is_v4_uuid_text(id@),
{
    uuid::Uuid::new_v4().to_string()
}

/// What the manager holds, as mathematical values.
#[verifier::ext_equal]
pub struct ManagerView {
    pub sessions: Seq<SessionView>,
    /// `installed[i]`: the install of session `i` has been reported
    /// successful since it was last started, and its dev command may run.
    pub installed: Seq<bool>,
    pub next_port: u16,
}

/// Some session has the identifier `id`.
pub open spec fn has_id(sessions: Seq<SessionView>, id: Seq<char>) -> bool {
    exists|i: int| 0 <= i < sessions.len() && #[trigger] sessions[i].session_id == id
}

/// The position of the session with identifier `id`.
pub open spec fn index_of(sessions: Seq<SessionView>, id: Seq<char>) -> int {
    choose|i: int| 0 <= i < sessions.len() && #[trigger] sessions[i].session_id == id
}

/// The number of sessions whose status is `Running`.
pub open spec fn running_sessions(sessions: Seq<SessionView>) -> nat
    decreases sessions.len(),
{
    if sessions.len() == 0 {
        0
    } else {
        running_sessions(sessions.drop_last()) + if sessions.last().status
            == SessionStatus::Running {
            1nat
        } else {
            0nat
        }
    }
}

/// The command that starts a session's project: Next.js and Create React App
/// projects on Node are told their port through the `PORT` variable.
pub open spec fn dev_command(s: SessionView) -> Seq<char> {
    let dev = spec_compile_ir(s.project_type).dev_cmd;
    match (s.runtime, s.port) {
        (RuntimeBackend::Node, Some(port)) => if s.project_type == ProjectType::NextJs
            || s.project_type == ProjectType::CreateReactApp {
            "PORT="@ + decimal(port as nat) + " "@ + dev
        } else {
            dev
        },
        _ => dev,
    }
}

/// The characters of a result whose both sides are strings.
pub open spec fn text_result(r: Result<String, String>) -> Result<Seq<char>, Seq<char>> {
    match r {
        Ok(t) => Ok(t@),
        Err(e) => Err(e@),
    }
}

/// The characters of a result with a string error.
pub open spec fn unit_result(r: Result<(), String>) -> Result<(), Seq<char>> {
    match r {
        Ok(()) => Ok(()),
        Err(e) => Err(e@),
    }
}

/// A session that starts installing on `port`.
pub open spec fn installing(s: SessionView, port: u16) -> SessionView {
    SessionView { port: Some(port), ..s }.transitioned(SessionStatus::Installing).logged(
        "running: "@ + spec_compile_ir(s.project_type).install_cmd,
    )
}

/// A session whose project was installed and whose dev command is about to start.
pub open spec fn starting(s: SessionView) -> SessionView {
    s.logged("starting: "@ + dev_command(s))
}

/// A session whose dev command runs as process `pid`.
pub open spec fn running(s: SessionView, pid: u32) -> SessionView {
    SessionView { pid: Some(pid), ..s }.transitioned(SessionStatus::Running)
}

/// A session that has been stopped: its process is gone.
pub open spec fn stopped(s: SessionView) -> SessionView {
    SessionView { pid: None, ..s.transitioned(SessionStatus::Stopped) }
}

/// The identifiers of `sessions`, in order.
pub open spec fn session_ids(sessions: Seq<SessionView>) -> Seq<Seq<char>> {
    sessions.map_values(|s: SessionView| s.session_id)
}

/// A session is found under `id` exactly when `id` is among the listed
/// identifiers.
pub proof fn lemma_has_id_iff_listed(sessions: Seq<SessionView>, id: Seq<char>)
    ensures
        has_id(sessions, id) <==> session_ids(sessions).contains(id),
{
    if has_id(sessions, id) {
        let i = choose|i: int| 0 <= i < sessions.len() && #[trigger] sessions[i].session_id == id;
        assert(session_ids(sessions)[i] == id);
    }
    if session_ids(sessions).contains(id) {
        let i = choose|i: int| 0 <= i < session_ids(sessions).len() && session_ids(sessions)[i] == id;
        assert(sessions[i].session_id == id);
    }
}

/// The running count is the number of sessions whose status is `Running`,
/// whatever the others hold: it is zero exactly when no session runs, and it
/// equals the number of sessions exactly when all of them run.
pub proof fn lemma_running_count_counts_running(sessions: Seq<SessionView>)
    ensures
        running_sessions(sessions) == sessions.filter(
            |s: SessionView| s.status == SessionStatus::Running,
        ).len(),
        running_sessions(sessions) <= sessions.len(),
        (running_sessions(sessions) == 0) <==> (forall|i: int|
            0 <= i < sessions.len() ==> #[trigger] sessions[i].status != SessionStatus::Running),
        (running_sessions(sessions) == sessions.len()) <==> (forall|i: int|
            0 <= i < sessions.len() ==> #[trigger] sessions[i].status == SessionStatus::Running),
    decreases sessions.len(),
{
    reveal(Seq::filter);
    if sessions.len() > 0 {
        let rest = sessions.drop_last();
        lemma_running_count_counts_running(rest);
        assert forall|i: int| 0 <= i < rest.len() implies #[trigger] rest[i] == sessions[i] by {}
        if (forall|i: int| 0 <= i < sessions.len() ==> #[trigger] sessions[i].status != SessionStatus::Running) {
            assert(sessions[sessions.len() - 1].status != SessionStatus::Running);
        }
        if (forall|i: int| 0 <= i < sessions.len() ==> #[trigger] sessions[i].status == SessionStatus::Running) {
            assert(sessions[sessions.len() - 1].status == SessionStatus::Running);
        }
        if running_sessions(rest) == 0 && sessions.last().status != SessionStatus::Running {
            assert forall|i: int| 0 <= i < sessions.len() implies #[trigger] sessions[i].status
                != SessionStatus::Running by {
                if i < rest.len() {
                    assert(rest[i] == sessions[i]);
                }
            }
        }
        if running_sessions(rest) == rest.len() && sessions.last().status == SessionStatus::Running {
            assert forall|i: int| 0 <= i < sessions.len() implies #[trigger] sessions[i].status
                == SessionStatus::Running by {
                if i < rest.len() {
                    assert(rest[i] == sessions[i]);
                }
            }
        }
    }
}

/// The dev command of a Next.js or Create React App project on Node is told
/// the port its session holds, in decimal; sessions holding different ports
/// get different commands. Any other session gets the project's plain dev
/// command.
pub proof fn lemma_dev_command_uses_session_port(s: SessionView, t: SessionView)
    ensures
        s.runtime == RuntimeBackend::Node && (s.project_type == ProjectType::NextJs
            || s.project_type == ProjectType::CreateReactApp) && s.port is Some
            ==> dev_command(s) == "PORT="@ + decimal(s.port->0 as nat) + " "@ + spec_compile_ir(
            s.project_type,
        ).dev_cmd,
        !(s.runtime == RuntimeBackend::Node && (s.project_type == ProjectType::NextJs
            || s.project_type == ProjectType::CreateReactApp) && s.port is Some)
            ==> dev_command(s) == spec_compile_ir(s.project_type).dev_cmd,
        s.runtime == RuntimeBackend::Node && t.runtime == RuntimeBackend::Node
            && s.project_type == ProjectType::NextJs && t.project_type == ProjectType::NextJs
            && s.port is Some && t.port is Some && s.port != t.port ==> dev_command(s)
            != dev_command(t),
{
    if s.runtime == RuntimeBackend::Node && t.runtime == RuntimeBackend::Node && s.project_type
        == ProjectType::NextJs && t.project_type == ProjectType::NextJs && s.port is Some
        && t.port is Some && s.port != t.port {
        let p = s.port->0;
        let q = t.port->0;
        let a = "PORT="@;
        let dev = spec_compile_ir(ProjectType::NextJs).dev_cmd;
        lemma_decimal_injective(p as nat, q as nat);
        lemma_decimal_is_base_ten(p as nat);
        lemma_decimal_is_base_ten(q as nat);
        if dev_command(s) == dev_command(t) {
            let x = a + decimal(p as nat) + " "@ + dev;
            let y = a + decimal(q as nat) + " "@ + dev;
            assert(x == y);
            assert(x.len() == y.len());
            assert(decimal(p as nat).len() == decimal(q as nat).len());
            assert forall|k: int| 0 <= k < decimal(p as nat).len() implies #[trigger] decimal(
                p as nat,
            )[k] == decimal(q as nat)[k] by {
                assert(x[a.len() + k] == y[a.len() + k]);
            }
            assert(decimal(p as nat) =~= decimal(q as nat));
        }
    }
}

/// Starting a session and reporting its install hands the dev command the
/// very port that the start handed out.
pub proof fn lemma_started_command_uses_handed_port(s: SessionView, port: u16)
    requires
        s.runtime == RuntimeBackend::Node,
        s.project_type == ProjectType::NextJs || s.project_type == ProjectType::CreateReactApp,
    ensures
        dev_command(installing(s, port)) == "PORT="@ + decimal(port as nat) + " "@
            + spec_compile_ir(s.project_type).dev_cmd,
{
}

/// Every session of `sessions`, stopped.
pub open spec fn all_stopped(sessions: Seq<SessionView>) -> Seq<SessionView> {
    sessions.map_values(|s: SessionView| stopped(s))
}

impl ManagerView {
    /// No two sessions share an identifier; ports are handed out from
    /// [`FIRST_PORT`] upward, every port a session holds lies between
    /// [`FIRST_PORT`] and the next one to hand out, and no two sessions hold
    /// the same port; a session that is installing holds a port, a running
    /// session holds a port and a process, and a session that was just
    /// created or has been stopped holds no process; only a session that is
    /// installing can have its install reported.
    pub open spec fn well_formed(self) -> bool {
        &&& FIRST_PORT <= self.next_port
        &&& self.installed.len() == self.sessions.len()
        &&& forall|i: int|
            0 <= i < self.sessions.len() && #[trigger] self.installed[i]
                ==> self.sessions[i].status == SessionStatus::Installing
        &&& forall|i: int, j: int|
            0 <= i < self.sessions.len() && 0 <= j < self.sessions.len() && i != j
                ==> #[trigger] self.sessions[i].session_id != #[trigger] self.sessions[j].session_id
        &&& forall|i: int|
            0 <= i < self.sessions.len() ==> (#[trigger] self.sessions[i].port matches Some(p)
                ==> FIRST_PORT <= p < self.next_port)
        &&& forall|i: int, j: int|
            0 <= i < self.sessions.len() && 0 <= j < self.sessions.len() && i != j
                && self.sessions[i].port is Some ==> #[trigger] self.sessions[i].port
                != #[trigger] self.sessions[j].port
        &&& forall|i: int|
            0 <= i < self.sessions.len() && #[trigger] self.sessions[i].status
                == SessionStatus::Installing ==> self.sessions[i].port is Some
        &&& forall|i: int|
            0 <= i < self.sessions.len() && #[trigger] self.sessions[i].status
                == SessionStatus::Running ==> self.sessions[i].port is Some
                && self.sessions[i].pid is Some
        &&& forall|i: int|
            0 <= i < self.sessions.len() && (#[trigger] self.sessions[i].status
                == SessionStatus::Created || self.sessions[i].status == SessionStatus::Stopped)
                ==> self.sessions[i].pid is None
    }

    /// The manager with the session of identifier `id` replaced by `s`.
    pub open spec fn with_session(self, id: Seq<char>, s: SessionView) -> ManagerView {
        ManagerView { sessions: self.sessions.update(index_of(self.sessions, id), s), ..self }
    }

    /// The session with identifier `id`.
    pub open spec fn session(self, id: Seq<char>) -> SessionView {
        self.sessions[index_of(self.sessions, id)]
    }

    /// Whether the install of the session with identifier `id` has been
    /// reported successful since it was last started.
    pub open spec fn install_reported(self, id: Seq<char>) -> bool {
        self.installed[index_of(self.sessions, id)]
    }

    /// The install marks with that of the session `id` set to `b`.
    pub open spec fn marked(self, id: Seq<char>, b: bool) -> Seq<bool> {
        self.installed.update(index_of(self.sessions, id), b)
    }
}

/// Manages execution sessions with lifecycle and ports.
pub struct ExecutionManager {
    sessions: Vec<ExecutionSession>,
    installed: Vec<bool>,
    next_port: u16,
}

impl View for ExecutionManager {
    type V = ManagerView;

    closed spec fn view(&self) -> ManagerView {
        ManagerView {
            sessions: self.sessions@.map_values(|s: ExecutionSession| s@),
            installed: self.installed@,
            next_port: self.next_port,
        }
    }
}

/// Within sessions whose identifiers differ, the one found with `id` is the
/// one that [`index_of`] designates.
proof fn lemma_index_of(m: ManagerView, id: Seq<char>, i: int)
    requires
        m.well_formed(),
        0 <= i < m.sessions.len(),
        m.sessions[i].session_id == id,
    ensures
        has_id(m.sessions, id),
        index_of(m.sessions, id) == i,
{
    assert(has_id(m.sessions, id));
    let j = index_of(m.sessions, id);
    assert(m.sessions[j].session_id == id);
}

/// A session added under an identifier that no session held is the one
/// found under that identifier afterwards, and the number of sessions grows
/// by one.
pub proof fn lemma_added_session_is_found(m: ManagerView, s: SessionView)
    requires
        !has_id(m.sessions, s.session_id),
    ensures
        ({
            let after = m.sessions.push(s);
            &&& has_id(after, s.session_id)
            &&& after[index_of(after, s.session_id)] == s
            &&& after.len() == m.sessions.len() + 1
        }),
{
    let after = m.sessions.push(s);
    assert(after[m.sessions.len() as int].session_id == s.session_id);
    let j = index_of(after, s.session_id);
    if j != m.sessions.len() {
        assert(m.sessions[j].session_id == s.session_id);
    }
}

/// A session replaced under its identifier is the one found under it
/// afterwards.
pub proof fn lemma_replaced_session_is_found(m: ManagerView, s: SessionView)
    requires
        m.well_formed(),
        has_id(m.sessions, s.session_id),
    ensures
        ({
            let after = m.with_session(s.session_id, s);
            &&& has_id(after.sessions, s.session_id)
            &&& after.session(s.session_id) == s
            &&& after.sessions.len() == m.sessions.len()
        }),
{
    let i = index_of(m.sessions, s.session_id);
    let after = m.with_session(s.session_id, s);
    assert(after.sessions[i].session_id == s.session_id);
    let j = index_of(after.sessions, s.session_id);
    if j != i {
        assert(m.sessions[j].session_id == s.session_id);
        assert(m.sessions[i].session_id == s.session_id);
    }
}

/// A session taken through the three steps of a successful start runs as the
/// spawned process on the port handed out, and its log gains exactly four
/// lines: the move to `Installing`, the install command, the dev command and
/// the move to `Running`.
pub proof fn lemma_successful_start(s: SessionView, port: u16, pid: u32)
    ensures
        ({
            let after = running(starting(installing(s, port)), pid);
            let ir = spec_compile_ir(s.project_type);
            &&& after.status == SessionStatus::Running
            &&& after.port == Some(port)
            &&& after.pid == Some(pid)
            &&& after.session_id == s.session_id
            &&& after.logs == s.logs + seq![
                transition_message(s.status, SessionStatus::Installing),
                "running: "@ + ir.install_cmd,
                "starting: "@ + dev_command(SessionView { port: Some(port), ..s }),
                transition_message(SessionStatus::Installing, SessionStatus::Running),
            ]
        }),
{
    let after = running(starting(installing(s, port)), pid);
    let ir = spec_compile_ir(s.project_type);
    assert(after.logs =~= s.logs + seq![
        transition_message(s.status, SessionStatus::Installing),
        "running: "@ + ir.install_cmd,
        "starting: "@ + dev_command(SessionView { port: Some(port), ..s }),
        transition_message(SessionStatus::Installing, SessionStatus::Running),
    ]);
}

/// Once every session is stopped, none runs and none has a process.
pub proof fn lemma_stopped_sessions_do_not_run(sessions: Seq<SessionView>)
    ensures
        running_sessions(all_stopped(sessions)) == 0,
        forall|i: int|
            0 <= i < sessions.len() ==> {
                &&& (#[trigger] all_stopped(sessions)[i]).status
                    == SessionStatus::Stopped
                &&& all_stopped(sessions)[i].pid is None
            },
    decreases sessions.len(),
{
    if sessions.len() > 0 {
        lemma_stopped_sessions_do_not_run(sessions.drop_last());
        assert(all_stopped(sessions).drop_last() =~= all_stopped(sessions.drop_last()));
    }
}

impl ExecutionManager {
    pub fn new() -> (m: Self)
        ensures
            m@.sessions == Seq::<SessionView>::empty(),
            m@.installed == Seq::<bool>::empty(),
            m@.next_port == FIRST_PORT,
            m@.well_formed(),
    {
        let m = ExecutionManager { sessions: Vec::new(), installed: Vec::new(), next_port: FIRST_PORT };
        assert(m@.sessions =~= Seq::<SessionView>::empty());
        m
    }

    /// The port that the next start will hand out.
    pub fn next_port(&self) -> (p: u16)
        ensures
            p == self@.next_port,
    {
        self.next_port
    }

    /// Hands out the next port.
    pub fn allocate_port(&mut self) -> (port: u16)
        requires
            old(self)@.well_formed(),
            old(self)@.next_port < u16::MAX,
        ensures
            port == old(self)@.next_port,
            final(self)@ == (ManagerView { next_port: (port + 1) as u16, ..old(self)@ }),
            final(self)@.well_formed(),
    {
        let port = self.next_port;
        self.next_port = self.next_port + 1;
        port
    }

    /// The position of the session with identifier `id`, if there is one.
    fn find(&self, id: &str) -> (r: Option<usize>)
        requires
            self@.well_formed(),
        ensures
            r is None <==> !has_id(self@.sessions, id@),
            r matches Some(i) ==> i < self@.sessions.len() && i == index_of(self@.sessions, id@),
    {
        let key = String::from_str(id);
        let mut i: usize = 0;
        while i < self.sessions.len()
            invariant
                self@.well_formed(),
                key@ == id@,
                i <= self@.sessions.len(),
                forall|k: int| 0 <= k < i ==> #[trigger] self@.sessions[k].session_id != id@,
            decreases self@.sessions.len() - i,
        {
            if self.sessions[i].session_id == key {
                proof {
                    lemma_index_of(self@, id@, i as int);
                }
                return Some(i);
            }
            i = i + 1;
        }
        None
    }

    /// Registers a new session for the repository at `repo_path`, classified
    /// by the contents of its `package.json` (empty when it has none), and
    /// returns its fresh identifier. A session that already held that
    /// identifier is replaced.
    pub fn create_session(&mut self, repo_path: &str, package_json: &str) -> (id: String)
        requires
            old(self)@.well_formed(),
        ensures
            is_v4_uuid_text(id@),
            ({
                let t = spec_classify(package_json@);
                let s = fresh_session(id@, repo_path@, t, spec_select_runtime(t));
                if has_id(old(self)@.sessions, id@) {
                    final(self)@ == (ManagerView {
                        installed: old(self)@.marked(id@, false),
                        ..old(self)@.with_session(id@, s)
                    })
                } else {
                    final(self)@ == (ManagerView {
                        sessions: old(self)@.sessions.push(s),
                        installed: old(self)@.installed.push(false),
                        ..old(self)@
                    })
                }
            }),
            has_id(final(self)@.sessions, id@),
            final(self)@.session(id@) == fresh_session(
                id@,
                repo_path@,
                spec_classify(package_json@),
                spec_select_runtime(spec_classify(package_json@)),
            ),
            session_ids(final(self)@.sessions) == if has_id(old(self)@.sessions, id@) {
                session_ids(old(self)@.sessions)
            } else {
                session_ids(old(self)@.sessions).push(id@)
            },
            final(self)@.well_formed(),
    {
        let session_id = new_session_id();
        self.create_session_with_id(session_id.clone(), repo_path, package_json);
        session_id
    }

    /// Registers a new session under the identifier `session_id` for the
    /// repository at `repo_path`, classified by the contents of its
    /// `package.json` (empty when it has none). A session that already held
    /// that identifier is replaced.
    pub fn create_session_with_id(&mut self, session_id: String, repo_path: &str, package_json: &str)
        requires
            old(self)@.well_formed(),
        ensures
            ({
                let t = spec_classify(package_json@);
                let s = fresh_session(session_id@, repo_path@, t, spec_select_runtime(t));
                if has_id(old(self)@.sessions, session_id@) {
                    final(self)@ == (ManagerView {
                        installed: old(self)@.marked(session_id@, false),
                        ..old(self)@.with_session(session_id@, s)
                    })
                } else {
                    final(self)@ == (ManagerView {
                        sessions: old(self)@.sessions.push(s),
                        installed: old(self)@.installed.push(false),
                        ..old(self)@
                    })
                }
            }),
            has_id(final(self)@.sessions, session_id@),
            final(self)@.session(session_id@) == fresh_session(
                session_id@,
                repo_path@,
                spec_classify(package_json@),
                spec_select_runtime(spec_classify(package_json@)),
            ),
            session_ids(final(self)@.sessions) == if has_id(old(self)@.sessions, session_id@) {
                session_ids(old(self)@.sessions)
            } else {
                session_ids(old(self)@.sessions).push(session_id@)
            },
            final(self)@.well_formed(),
    {
        let project_type = classify_package_json(package_json);
        let runtime = select_runtime(&project_type);
        let ghost id = session_id@;
        let session = ExecutionSession::new(
            session_id,
            String::from_str(repo_path),
            project_type,
            runtime,
        );
        let ghost old_m = self@;
        match self.find(session.session_id.as_str()) {
            Some(i) => {
                self.sessions[i] = session;
                self.installed[i] = false;
                assert(self@.sessions =~= old_m.sessions.update(i as int, session@));
                assert(session_ids(self@.sessions) =~= session_ids(old_m.sessions));
                proof {
                    lemma_replaced_session_is_found(old_m, session@);
                }
            },
            None => {
                self.sessions.push(session);
                self.installed.push(false);
                assert(self@.sessions =~= old_m.sessions.push(session@));
                assert(session_ids(self@.sessions) =~= session_ids(old_m.sessions).push(id));
                proof {
                    lemma_added_session_is_found(old_m, session@);
                }
            },
        }
    }

    /// First step of starting a session: hands out a port (also when no
    /// session has the identifier), records it on the session, moves the
    /// session to `Installing` and returns the install command to run in the
    /// session's repository.
    pub fn start_session(&mut self, session_id: &str) -> (r: Result<String, String>)
        requires
            old(self)@.well_formed(),
            old(self)@.next_port < u16::MAX,
        ensures
            final(self)@.well_formed(),
            final(self)@.next_port == old(self)@.next_port + 1,
            session_ids(final(self)@.sessions) == session_ids(old(self)@.sessions),
            !has_id(old(self)@.sessions, session_id@) ==> {
                &&& text_result(r) == Err::<Seq<char>, Seq<char>>("session not found"@)
                &&& final(self)@.sessions == old(self)@.sessions
                &&& final(self)@.installed == old(self)@.installed
            },
            has_id(old(self)@.sessions, session_id@) ==> {
                let s = old(self)@.session(session_id@);
                &&& text_result(r) == Ok::<Seq<char>, Seq<char>>(
                    spec_compile_ir(s.project_type).install_cmd,
                )
                &&& final(self)@.sessions == old(self)@.with_session(
                    session_id@,
                    installing(s, old(self)@.next_port),
                ).sessions
                &&& final(self)@.installed == old(self)@.marked(session_id@, false)
            },
    {
        let port = self.allocate_port();
        let ghost mid = self@;
        match self.find(session_id) {
            None => Err(String::from_str("session not found")),
            Some(i) => {
                let ir = compile_ir(self.sessions[i].project_type);
                self.sessions[i].port = Some(port);
                self.sessions[i].transition(SessionStatus::Installing);
                let line = String::from_str("running: ").concat(ir.install_cmd.as_str());
                self.sessions[i].log(line);
                self.installed[i] = false;
                proof {
                    let s = mid.sessions[i as int];
                    assert(self@.sessions =~= mid.sessions.update(i as int, installing(s, port)));
                    assert(session_ids(self@.sessions) =~= session_ids(mid.sessions));
                    assert forall|a: int, b: int|
                        0 <= a < self@.sessions.len() && 0 <= b < self@.sessions.len() && a != b
                            && self@.sessions[a].port is Some implies #[trigger] self@.sessions[a].port
                        != #[trigger] self@.sessions[b].port by {
                        if a != i && b != i {
                            assert(mid.sessions[a].port == self@.sessions[a].port);
                        }
                    }
                }
                Ok(ir.install_cmd)
            },
        }
    }

    /// The command that starts the project of the session at position `i`.
    fn session_dev_command(&self, i: usize) -> (c: String)
        requires
            i < self@.sessions.len(),
        ensures
            c@ == dev_command(self@.sessions[i as int]),
    {
        let s = &self.sessions[i];
        let ir = compile_ir(s.project_type);
        match (s.runtime, s.port) {
            (RuntimeBackend::Node, Some(port)) => {
                if s.project_type == ProjectType::NextJs || s.project_type
                    == ProjectType::CreateReactApp {
                    let mut c = String::from_str("PORT=");
                    push_decimal(&mut c, port);
                    c.append(" ");
                    c.append(ir.dev_cmd.as_str());
                    c
                } else {
                    ir.dev_cmd
                }
            },
            _ => ir.dev_cmd,
        }
    }

    /// Second step of starting a session: takes whether the install command
    /// succeeded. On failure the session moves to `Failed`; on success the
    /// dev command is logged and returned, to be started in the background.
    /// A session that is not installing is left as it is.
    pub fn install_finished(&mut self, session_id: &str, install_ok: bool) -> (r: Result<
        String,
        String,
    >)
        requires
            old(self)@.well_formed(),
        ensures
            final(self)@.well_formed(),
            final(self)@.next_port == old(self)@.next_port,
            session_ids(final(self)@.sessions) == session_ids(old(self)@.sessions),
            r is Ok <==> {
                &&& has_id(old(self)@.sessions, session_id@)
                &&& old(self)@.session(session_id@).status == SessionStatus::Installing
                &&& install_ok
            },
            !has_id(old(self)@.sessions, session_id@) ==> {
                &&& text_result(r) == Err::<Seq<char>, Seq<char>>("session not found"@)
                &&& final(self)@.sessions == old(self)@.sessions
                &&& final(self)@.installed == old(self)@.installed
            },
            has_id(old(self)@.sessions, session_id@) && old(self)@.session(session_id@).status
                != SessionStatus::Installing ==> {
                &&& text_result(r) == Err::<Seq<char>, Seq<char>>("session is not installing"@)
                &&& final(self)@.sessions == old(self)@.sessions
                &&& final(self)@.installed == old(self)@.installed
            },
            has_id(old(self)@.sessions, session_id@) && old(self)@.session(session_id@).status
                == SessionStatus::Installing && !install_ok ==> {
                let s = old(self)@.session(session_id@);
                &&& text_result(r) == Err::<Seq<char>, Seq<char>>("install failed"@)
                &&& final(self)@.sessions == old(self)@.with_session(
                    session_id@,
                    s.transitioned(SessionStatus::Failed),
                ).sessions
                &&& final(self)@.installed == old(self)@.marked(session_id@, false)
            },
            has_id(old(self)@.sessions, session_id@) && old(self)@.session(session_id@).status
                == SessionStatus::Installing && install_ok ==> {
                let s = old(self)@.session(session_id@);
                &&& text_result(r) == Ok::<Seq<char>, Seq<char>>(dev_command(s))
                &&& final(self)@.sessions == old(self)@.with_session(
                    session_id@,
                    starting(s),
                ).sessions
                &&& final(self)@.installed == old(self)@.marked(session_id@, true)
            },
            has_id(old(self)@.sessions, session_id@) && old(self)@.session(session_id@).status
                == SessionStatus::Installing && install_ok && old(self)@.session(session_id@).runtime
                == RuntimeBackend::Node && (old(self)@.session(session_id@).project_type
                == ProjectType::NextJs || old(self)@.session(session_id@).project_type
                == ProjectType::CreateReactApp) ==> {
                let s = old(self)@.session(session_id@);
                &&& s.port is Some
                &&& text_result(r) == Ok::<Seq<char>, Seq<char>>(
                    "PORT="@ + decimal(s.port->0 as nat) + " "@ + spec_compile_ir(
                        s.project_type,
                    ).dev_cmd,
                )
            },
    {
        let ghost old_m = self@;
        match self.find(session_id) {
            None => Err(String::from_str("session not found")),
            Some(i) => {
                if self.sessions[i].status != SessionStatus::Installing {
                    return Err(String::from_str("session is not installing"));
                }
                if !install_ok {
                    self.sessions[i].transition(SessionStatus::Failed);
                    self.installed[i] = false;
                    assert(self@.sessions =~= old_m.sessions.update(
                        i as int,
                        old_m.sessions[i as int].transitioned(SessionStatus::Failed),
                    ));
                    assert(session_ids(self@.sessions) =~= session_ids(old_m.sessions));
                    return Err(String::from_str("install failed"));
                }
                let dev = self.session_dev_command(i);
                let line = String::from_str("starting: ").concat(dev.as_str());
                self.sessions[i].log(line);
                self.installed[i] = true;
                assert(self@.sessions =~= old_m.sessions.update(
                    i as int,
                    starting(old_m.sessions[i as int]),
                ));
                assert(session_ids(self@.sessions) =~= session_ids(old_m.sessions));
                Ok(dev)
            },
        }
    }

    /// Last step of starting a session: takes the process id of the started
    /// dev command, or the reason it could not be started. Only a session
    /// whose install was reported successful since it was last started can
    /// become `Running`; any other session is left as it is.
    pub fn spawn_finished(&mut self, session_id: &str, spawned: Result<u32, String>) -> (r: Result<
        (),
        String,
    >)
        requires
            old(self)@.well_formed(),
        ensures
            final(self)@.well_formed(),
            final(self)@.next_port == old(self)@.next_port,
            session_ids(final(self)@.sessions) == session_ids(old(self)@.sessions),
            r is Ok <==> {
                &&& has_id(old(self)@.sessions, session_id@)
                &&& old(self)@.session(session_id@).status == SessionStatus::Installing
                &&& old(self)@.install_reported(session_id@)
                &&& spawned is Ok
            },
            !has_id(old(self)@.sessions, session_id@) ==> {
                &&& unit_result(r) == Err::<(), Seq<char>>("session not found"@)
                &&& final(self)@.sessions == old(self)@.sessions
                &&& final(self)@.installed == old(self)@.installed
            },
            has_id(old(self)@.sessions, session_id@) && old(self)@.session(session_id@).status
                != SessionStatus::Installing ==> {
                &&& unit_result(r) == Err::<(), Seq<char>>("session is not installing"@)
                &&& final(self)@.sessions == old(self)@.sessions
                &&& final(self)@.installed == old(self)@.installed
            },
            has_id(old(self)@.sessions, session_id@) && old(self)@.session(session_id@).status
                == SessionStatus::Installing && !old(self)@.install_reported(session_id@) ==> {
                &&& unit_result(r) == Err::<(), Seq<char>>("install has not finished"@)
                &&& final(self)@.sessions == old(self)@.sessions
                &&& final(self)@.installed == old(self)@.installed
            },
            has_id(old(self)@.sessions, session_id@) && old(self)@.session(session_id@).status
                == SessionStatus::Installing && old(self)@.install_reported(session_id@)
                ==> final(self)@.installed == old(self)@.marked(session_id@, false),
            has_id(old(self)@.sessions, session_id@) && old(self)@.session(session_id@).status
                == SessionStatus::Installing && old(self)@.install_reported(session_id@) ==> {
                let s = old(self)@.session(session_id@);
                match spawned {
                    Ok(pid) => {
                        &&& r is Ok
                        &&& final(self)@.sessions == old(self)@.with_session(
                            session_id@,
                            running(s, pid),
                        ).sessions
                    },
                    Err(e) => {
                        &&& unit_result(r) == Err::<(), Seq<char>>("spawn failed: "@ + e@)
                        &&& final(self)@.sessions == old(self)@.with_session(
                            session_id@,
                            s.transitioned(SessionStatus::Failed),
                        ).sessions
                    },
                }
            },
    {
        let ghost old_m = self@;
        match self.find(session_id) {
            None => Err(String::from_str("session not found")),
            Some(i) => {
                if self.sessions[i].status != SessionStatus::Installing {
                    return Err(String::from_str("session is not installing"));
                }
                if !self.installed[i] {
                    return Err(String::from_str("install has not finished"));
                }
                self.installed[i] = false;
                match spawned {
                    Ok(pid) => {
                        self.sessions[i].pid = Some(pid);
                        self.sessions[i].transition(SessionStatus::Running);
                        assert(self@.sessions =~= old_m.sessions.update(
                            i as int,
                            running(old_m.sessions[i as int], pid),
                        ));
                        assert(session_ids(self@.sessions) =~= session_ids(old_m.sessions));
                        Ok(())
                    },
                    Err(e) => {
                        self.sessions[i].transition(SessionStatus::Failed);
                        assert(self@.sessions =~= old_m.sessions.update(
                            i as int,
                            old_m.sessions[i as int].transitioned(SessionStatus::Failed),
                        ));
                        assert(session_ids(self@.sessions) =~= session_ids(old_m.sessions));
                        Err(String::from_str("spawn failed: ").concat(e.as_str()))
                    },
                }
            },
        }
    }

    /// Marks a session as stopped: its status becomes `Stopped` and it no
    /// longer has a process.
    pub fn stop_session(&mut self, session_id: &str) -> (r: Result<(), String>)
        requires
            old(self)@.well_formed(),
        ensures
            final(self)@.well_formed(),
            final(self)@.next_port == old(self)@.next_port,
            session_ids(final(self)@.sessions) == session_ids(old(self)@.sessions),
            !has_id(old(self)@.sessions, session_id@) ==> {
                &&& unit_result(r) == Err::<(), Seq<char>>("session not found"@)
                &&& final(self)@.sessions == old(self)@.sessions
                &&& final(self)@.installed == old(self)@.installed
            },
            has_id(old(self)@.sessions, session_id@) ==> {
                &&& r is Ok
                &&& final(self)@.installed == old(self)@.marked(session_id@, false)
                &&& final(self)@.sessions == old(self)@.with_session(
                    session_id@,
                    stopped(old(self)@.session(session_id@)),
                ).sessions
            },
    {
        let ghost old_m = self@;
        match self.find(session_id) {
            None => Err(String::from_str("session not found")),
            Some(i) => {
                self.sessions[i].transition(SessionStatus::Stopped);
                self.sessions[i].pid = None;
                self.installed[i] = false;
                assert(self@.sessions =~= old_m.sessions.update(
                    i as int,
                    stopped(old_m.sessions[i as int]),
                ));
                assert(session_ids(self@.sessions) =~= session_ids(old_m.sessions));
                Ok(())
            },
        }
    }

    /// The session with identifier `session_id`, if there is one.
    pub fn get_session(&self, session_id: &str) -> (r: Option<&ExecutionSession>)
        requires
            self@.well_formed(),
        ensures
            r is Some <==> has_id(self@.sessions, session_id@),
            r matches Some(s) ==> s@ == self@.session(session_id@),
    {
        match self.find(session_id) {
            Some(i) => Some(&self.sessions[i]),
            None => None,
        }
    }

    /// All sessions, each once.
    pub fn list_sessions(&self) -> (r: Vec<&ExecutionSession>)
        ensures
            r@.len() == self@.sessions.len(),
            forall|i: int| 0 <= i < r@.len() ==> #[trigger] r@[i]@ == self@.sessions[i],
    {
        let mut r: Vec<&ExecutionSession> = Vec::new();
        let mut i: usize = 0;
        while i < self.sessions.len()
            invariant
                i <= self@.sessions.len(),
                r@.len() == i,
                forall|k: int| 0 <= k < i ==> #[trigger] r@[k]@ == self@.sessions[k],
            decreases self@.sessions.len() - i,
        {
            r.push(&self.sessions[i]);
            i = i + 1;
        }
        r
    }

    /// The number of sessions whose status is `Running`.
    pub fn running_count(&self) -> (n: usize)
        ensures
            n == running_sessions(self@.sessions),
    {
        let ghost all = self@.sessions;
        let mut n: usize = 0;
        let mut i: usize = 0;
        while i < self.sessions.len()
            invariant
                all == self@.sessions,
                i <= all.len(),
                n == running_sessions(all.take(i as int)),
                n <= i,
            decreases all.len() - i,
        {
            assert(all.take(i + 1).drop_last() =~= all.take(i as int));
            if self.sessions[i].is_running() {
                n = n + 1;
            }
            i = i + 1;
        }
        assert(all.take(i as int) =~= all);
        n
    }

    /// Stops every session.
    pub fn cleanup(&mut self)
        requires
            old(self)@.well_formed(),
        ensures
            final(self)@.well_formed(),
            final(self)@.next_port == old(self)@.next_port,
            final(self)@.sessions == all_stopped(old(self)@.sessions),
            session_ids(final(self)@.sessions) == session_ids(old(self)@.sessions),
            final(self)@.installed == Seq::new(old(self)@.sessions.len(), |i: int| false),
    {
        let ghost old_m = self@;
        let mut i: usize = 0;
        while i < self.sessions.len()
            invariant
                i <= self@.sessions.len(),
                self@.sessions.len() == old_m.sessions.len(),
                self@.installed.len() == old_m.sessions.len(),
                forall|k: int| 0 <= k < i ==> !#[trigger] self@.installed[k],
                forall|k: int| i <= k < self@.sessions.len() ==> #[trigger] self@.installed[k] == old_m.installed[k],
                self@.next_port == old_m.next_port,
                old_m.well_formed(),
                forall|k: int| 0 <= k < i ==> #[trigger] self@.sessions[k] == stopped(old_m.sessions[k]),
                forall|k: int| i <= k < self@.sessions.len() ==> #[trigger] self@.sessions[k] == old_m.sessions[k],
            decreases self@.sessions.len() - i,
        {
            let ghost prev = self@;
            self.sessions[i].transition(SessionStatus::Stopped);
            self.sessions[i].pid = None;
            self.installed[i] = false;
            assert(self@.sessions =~= prev.sessions.update(i as int, stopped(prev.sessions[i as int])));
            i = i + 1;
        }
        assert(self@.sessions =~= all_stopped(old_m.sessions));
        assert(self@.installed =~= Seq::new(old_m.sessions.len(), |i: int| false));
        assert(session_ids(self@.sessions) =~= session_ids(old_m.sessions));
        assert forall|a: int| 0 <= a < self@.sessions.len() implies #[trigger] self@.sessions[a].session_id == old_m.sessions[a].session_id && self@.sessions[a].port == old_m.sessions[a].port by {
            assert(self@.sessions[a] == stopped(old_m.sessions[a]));
        }
    }
}

impl Default for ExecutionManager {
    fn default() -> (m: Self)
        ensures
            m@.sessions == Seq::<SessionView>::empty(),
            m@.installed == Seq::<bool>::empty(),
            m@.next_port == FIRST_PORT,
            m@.well_formed(),
    {
        Self::new()
    }
}

} // verus!
