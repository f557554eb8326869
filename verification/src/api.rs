//! Management API: request and response records and the registry operations
//! behind session creation, lookup, resize and termination.

use crate::config::TerminalConfig;
use crate::registry::SessionRegistry;
use crate::session::{ConnectionType, Session, SessionStatus};
use vstd::prelude::*;
use vstd::string::StringExecFns;

verus! {

/// Request to create a session.
#[derive(Debug)]
pub struct CreateSessionRequest {
    /// User the session is for.
    pub user_id: String,
    /// Optional display title.
    pub title: Option<String>,
    /// Optional working directory.
    pub working_directory: Option<String>,
    /// Optional shell type; the configured default is used when absent.
    pub shell_type: Option<String>,
    /// Optional terminal width in character cells.
    pub columns: Option<u16>,
    /// Optional terminal height in character cells.
    pub rows: Option<u16>,
}

/// Request to resize a session's terminal.
#[derive(Debug)]
pub struct ResizeTerminalRequest {
    /// New width in character cells.
    pub columns: u16,
    /// New height in character cells.
    pub rows: u16,
}

/// A session as the management API reports it.
#[derive(Debug)]
pub struct TerminalSession {
    /// Session identifier.
    pub id: String,
    /// User the session belongs to.
    pub user_id: String,
    /// Display title, if any.
    pub title: Option<String>,
    /// Status label, lower case.
    pub status: String,
    /// Terminal width in character cells.
    pub columns: u16,
    /// Terminal height in character cells.
    pub rows: u16,
    /// Working directory, if any.
    pub working_directory: Option<String>,
    /// Shell type of the session.
    pub shell_type: String,
    /// Transport kind label.
    pub connection_type: String,
    /// Creation time, in seconds since the epoch.
    pub created_at: u64,
}

/// Outcome of a resize request.
#[derive(Debug)]
pub struct TerminalResizeResponse {
    /// Session identifier.
    pub session_id: String,
    /// Applied width.
    pub columns: u16,
    /// Applied height.
    pub rows: u16,
    /// Whether the resize was applied.
    pub success: bool,
}

/// Outcome of a termination request.
#[derive(Debug)]
pub struct TerminalTerminateResponse {
    /// Session identifier.
    pub session_id: String,
    /// Whether the session was removed.
    pub success: bool,
    /// Why the session ended.
    pub reason: String,
}

/// Generic success report.
#[derive(Debug)]
pub struct SuccessResponse {
    /// Always set on success.
    pub success: bool,
    /// Human-readable message.
    pub message: String,
}

/// Generic error report.
#[derive(Debug)]
pub struct ErrorResponse {
    /// Always set on errors.
    pub error: bool,
    /// Human-readable message.
    pub message: String,
    /// Status code, when one applies.
    pub code: Option<u16>,
}

/// The lower-case label of a session status.
pub open spec fn spec_status_label(s: SessionStatus) -> Seq<char> {
    match s {
        SessionStatus::Created => "created"@,
        SessionStatus::Active => "active"@,
        SessionStatus::Disconnected => "disconnected"@,
        SessionStatus::Terminated => "terminated"@,
    }
}

/// The label of a transport kind.
pub open spec fn spec_connection_type_label(t: ConnectionType) -> Seq<char> {
    match t {
        ConnectionType::WebSocket => "WebSocket"@,
        ConnectionType::WebTransport => "WebTransport"@,
    }
}

/// The lower-case label of a session status.
pub fn status_label(s: SessionStatus) -> (r: String)
    ensures
        r@ == spec_status_label(s),
{
    match s {
        SessionStatus::Created => "created".to_owned(),
        SessionStatus::Active => "active".to_owned(),
        SessionStatus::Disconnected => "disconnected".to_owned(),
        SessionStatus::Terminated => "terminated".to_owned(),
    }
}

/// The label of a transport kind.
pub fn connection_type_label(t: ConnectionType) -> (r: String)
    ensures
        r@ == spec_connection_type_label(t),
{
    match t {
        ConnectionType::WebSocket => "WebSocket".to_owned(),
        ConnectionType::WebTransport => "WebTransport".to_owned(),
    }
}

/// Whether an API session record reports exactly the stored record.
pub open spec fn dto_matches(dto: TerminalSession, s: Session) -> bool {
    &&& dto.id == s.session_id
    &&& dto.user_id == s.user_id
    &&& dto.title == s.title
    &&& dto.status@ == spec_status_label(s.status)
    &&& dto.columns == s.columns
    &&& dto.rows == s.rows
    &&& dto.working_directory == s.working_directory
    &&& dto.shell_type == s.shell_type
    &&& dto.connection_type@ == spec_connection_type_label(s.connection_type)
    &&& dto.created_at == s.created_at
}

/// The API's view of one stored session record.
pub fn session_to_dto(session: &Session) -> (r: TerminalSession)
    ensures
        dto_matches(r, *session),
{
    TerminalSession {
        id: session.session_id.clone(),
        user_id: session.user_id.clone(),
        title: crate::text::clone_opt_string(&session.title),
        status: status_label(session.status),
        columns: session.columns,
        rows: session.rows,
        working_directory: crate::text::clone_opt_string(&session.working_directory),
        shell_type: session.shell_type.clone(),
        connection_type: connection_type_label(session.connection_type),
        created_at: session.created_at,
    }
}

/// Relies on `uuid::Uuid::new_v4` and its canonical string form: a freshly
/// generated random identifier. Nothing is assumed of its value.
#[verifier::external_body]
fn new_session_id() -> (r: String) {
    uuid::Uuid::new_v4().to_string()
}

/// The error report for a request naming an unknown session.
fn session_not_found(session_id: &str) -> (r: ErrorResponse)
    ensures
        r.error,
        r.message@ == "Session not found: "@ + session_id@,
        r.code == Some(404u16),
{
    let mut message: String = "Session not found: ".to_owned();
    message.append(session_id);
    ErrorResponse { error: true, message, code: Some(404) }
}

/// Create a session record from a request: the shell type falls back to the
/// configured default; size and working directory fall back from the request
/// to the resolved shell configuration. The record is stored under a freshly
/// generated identifier with status `Created`, and reported back.
pub fn create_session(
    registry: &mut SessionRegistry,
    config: &TerminalConfig,
    req: CreateSessionRequest,
    now: u64,
) -> (r: TerminalSession)
    requires
        old(registry).wf(),
        config.wf(),
    ensures
        final(registry).wf(),
        final(registry).spec_get(r.id@) is Some,
        dto_matches(r, final(registry).spec_get(r.id@).unwrap()),
        ({
            let s = final(registry).spec_get(r.id@).unwrap();
            let shell_type = (match req.shell_type {
                Some(st) => st@,
                None => config.default_shell_type@,
            });
            let resolved_size = (match crate::assoc::assoc_value(config.shells@, shell_type) {
                Some(sc) => (match sc.size {
                    Some(sz) => sz,
                    None => config.default_shell_config.size,
                }),
                None => config.default_shell_config.size,
            });
            let resolved_wd = (match crate::assoc::assoc_value(config.shells@, shell_type) {
                Some(sc) => (match sc.working_directory {
                    Some(w) => Some(w),
                    None => config.default_shell_config.working_directory,
                }),
                None => config.default_shell_config.working_directory,
            });
            &&& s.user_id == req.user_id
            &&& s.title == req.title
            &&& s.status == SessionStatus::Created
            &&& s.shell_type@ == shell_type
            &&& s.columns == (match req.columns {
                Some(c) => c,
                None => resolved_size.columns,
            })
            &&& s.rows == (match req.rows {
                Some(rw) => rw,
                None => resolved_size.rows,
            })
            &&& s.working_directory == (match req.working_directory {
                Some(w) => Some(w),
                None => resolved_wd,
            })
            &&& s.connection_type == ConnectionType::WebSocket
            &&& s.created_at == now
            &&& s.updated_at == now
        }),
        forall|id: Seq<char>|
            id != r.id@ ==> #[trigger] final(registry).spec_get(id) == old(registry).spec_get(id),
{
    let session_id = new_session_id();
    let shell_type: String = match req.shell_type {
        Some(st) => st,
        None => config.default_shell_type.clone(),
    };
    let resolved = config.get_shell_config(shell_type.as_str());
    let columns = match req.columns {
        Some(c) => c,
        None => resolved.size.columns,
    };
    let rows = match req.rows {
        Some(rw) => rw,
        None => resolved.size.rows,
    };
    let working_directory = match req.working_directory {
        Some(w) => Some(w),
        None => resolved.working_directory,
    };
    let session = Session::new(
        session_id,
        req.user_id,
        req.title,
        working_directory,
        shell_type,
        columns,
        rows,
        ConnectionType::WebSocket,
        now,
    );
    let dto = session_to_dto(&session);
    registry.add_session(session);
    dto
}

/// Report the session stored under `session_id`, or that none is.
pub fn get_session(registry: &SessionRegistry, session_id: &str) -> (r: Result<
    TerminalSession,
    ErrorResponse,
>)
    requires
        registry.wf(),
    ensures
        r is Ok <==> registry.spec_contains(session_id@),
        r is Ok ==> dto_matches(r.unwrap(), registry.spec_get(session_id@).unwrap()),
        r is Err ==> r.unwrap_err().error && r.unwrap_err().code == Some(404u16)
            && r.unwrap_err().message@ == "Session not found: "@ + session_id@,
{
    match registry.get_session(session_id) {
        Some(session) => Ok(session_to_dto(&session)),
        None => Err(session_not_found(session_id)),
    }
}

/// Report every stored session, in storage order.
pub fn get_all_sessions(registry: &SessionRegistry) -> (r: Vec<TerminalSession>)
    requires
        registry.wf(),
    ensures
        r@.len() == registry.entries@.len(),
        forall|i: int|
            0 <= i < r@.len() ==> dto_matches(#[trigger] r@[i], registry.entries@[i].1),
{
    let sessions = registry.get_all_sessions();
    let n = sessions.len();
    let mut r: Vec<TerminalSession> = Vec::new();
    let mut i: usize = 0;
    while i < n
        invariant
            0 <= i <= n,
            n == sessions@.len(),
            sessions@ == registry.entries@.map_values(|e: (String, Session)| e.1),
            r@.len() == i,
            forall|j: int|
                0 <= j < i ==> dto_matches(#[trigger] r@[j], registry.entries@[j].1),
        decreases n - i,
    {
        r.push(session_to_dto(&sessions[i]));
        i += 1;
    }
    r
}

/// Resize the terminal of the session stored under `session_id`, bumping its
/// update time; a request for an unknown session reports an error and
/// changes nothing.
pub fn resize_session(
    registry: &mut SessionRegistry,
    session_id: &str,
    req: ResizeTerminalRequest,
    now: u64,
) -> (r: Result<TerminalResizeResponse, ErrorResponse>)
    requires
        old(registry).wf(),
    ensures
        final(registry).wf(),
        r is Ok <==> old(registry).spec_contains(session_id@),
        r is Ok ==> ({
            let s = old(registry).spec_get(session_id@).unwrap();
            let resp = r.unwrap();
            &&& final(registry).spec_get(session_id@) == Some(
                (Session {
                    columns: req.columns,
                    rows: req.rows,
                    updated_at: (if now >= s.created_at {
                        now
                    } else {
                        s.created_at
                    }),
                    ..s
                }),
            )
            &&& resp.session_id@ == session_id@
            &&& resp.columns == req.columns
            &&& resp.rows == req.rows
            &&& resp.success
        }),
        r is Err ==> *final(registry) == *old(registry) && r.unwrap_err().error
            && r.unwrap_err().code == Some(404u16) && r.unwrap_err().message@
            == "Session not found: "@ + session_id@,
        forall|id: Seq<char>|
            id != session_id@ ==> #[trigger] final(registry).spec_get(id) == old(
                registry,
            ).spec_get(id),
{
    proof {
        if old(registry).spec_get(session_id@) is Some {
            old(registry).lemma_stored_session_id(session_id@);
        }
    }
    match registry.get_session(session_id) {
        Some(mut session) => {
            session.resize(req.columns, req.rows, now);
            let updated = registry.update_session(session);
            Ok(
                TerminalResizeResponse {
                    session_id: session_id.to_owned(),
                    columns: req.columns,
                    rows: req.rows,
                    success: true,
                },
            )
        },
        None => Err(session_not_found(session_id)),
    }
}

/// Remove the session stored under `session_id`; a request for an unknown
/// session reports an error and changes nothing.
pub fn terminate_session(registry: &mut SessionRegistry, session_id: &str) -> (r: Result<
    TerminalTerminateResponse,
    ErrorResponse,
>)
    requires
        old(registry).wf(),
    ensures
        final(registry).wf(),
        r is Ok <==> old(registry).spec_contains(session_id@),
        !final(registry).spec_contains(session_id@),
        r is Ok ==> ({
            let resp = r.unwrap();
            &&& resp.session_id@ == session_id@
            &&& resp.success
            &&& resp.reason@ == "Session terminated by API request"@
        }),
        r is Err ==> *final(registry) == *old(registry) && r.unwrap_err().error
            && r.unwrap_err().code == Some(404u16) && r.unwrap_err().message@
            == "Session not found: "@ + session_id@,
        forall|id: Seq<char>|
            id != session_id@ ==> #[trigger] final(registry).spec_get(id) == old(
                registry,
            ).spec_get(id),
{
    match registry.remove_session(session_id) {
        Some(_session) => Ok(
            TerminalTerminateResponse {
                session_id: session_id.to_owned(),
                success: true,
                reason: "Session terminated by API request".to_owned(),
            },
        ),
        None => Err(session_not_found(session_id)),
    }
}

/// Report that the service is up.
pub fn health_check() -> (r: SuccessResponse)
    ensures
        r.success,
        r.message@ == "Health check passed"@,
{
    SuccessResponse { success: true, message: "Health check passed".to_owned() }
}

} // verus!
