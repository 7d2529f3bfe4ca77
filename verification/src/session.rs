//! Whether a session's connection has to be closed.
//!
//! A pool asks this of every connection that comes back to it and evicts the ones
//! that say yes.

use crate::thrift::utf8_lossy;
use crate::thrift::utf8_lossy_text;
use vstd::prelude::*;
use vstd::string::StringExecFns;

verus! {

/// The error code of an answer that reports no error. The codes here are those of the
/// protocol's second generation.
pub const SUCCEEDED: i32 = 0;

/// The error code with which the server says that the session is not known to it.
pub const E_SESSION_INVALID: i32 = -1002;

/// The error code with which the server says that the session has timed out.
pub const E_SESSION_TIMEOUT: i32 = -1003;

/// What an attempt to execute a statement came to, as far as the connection's health
/// depends on it.
#[derive(Clone, Copy, Debug, PartialEq, Eq, Structural)]
pub enum ExecuteOutcome {
    /// The exchange failed below the protocol. `broken_pipe` says whether the cause
    /// was an I/O error that reports a broken pipe.
    TransportFailed { broken_pipe: bool },
    /// The exchange failed in the protocol.
    ProtocolFailed,
    /// The server answered, with this error code.
    Answered { error_code: i32 },
}

impl ExecuteOutcome {
    /// Does this outcome show that the connection is of no more use? That is so where
    /// the peer has severed it, and where the server no longer knows the session.
    pub open spec fn severs(self) -> bool {
        match self {
            ExecuteOutcome::TransportFailed { broken_pipe } => broken_pipe,
            ExecuteOutcome::ProtocolFailed => false,
            ExecuteOutcome::Answered { error_code } => error_code == E_SESSION_INVALID
                || error_code == E_SESSION_TIMEOUT,
        }
    }

    /// Does this outcome show that the connection is of no more use?
    pub fn requires_close(&self) -> (close: bool)
        ensures
            close == self.severs(),
    {
        match self {
            ExecuteOutcome::TransportFailed { broken_pipe } => *broken_pipe,
            ExecuteOutcome::ProtocolFailed => false,
            ExecuteOutcome::Answered { error_code } => *error_code == E_SESSION_INVALID
                || *error_code == E_SESSION_TIMEOUT,
        }
    }
}

/// The part of a session that outlives its exchanges: its id, and whether its
/// connection has to be closed.
#[derive(Clone, Copy, Debug, PartialEq, Eq, Structural)]
pub struct SessionState {
    pub session_id: i64,
    pub close_required: bool,
}

/// Why signing in gave no session.
#[derive(Debug)]
pub enum AuthenticateFailure {
    /// The server refused, with this message.
    Refused(String),
    /// The server accepted and named no session.
    MissingSessionId,
}

/// Why signing in gave no session, as contracts speak of it.
pub enum AuthenticateFailureView {
    Refused(Seq<char>),
    MissingSessionId,
}

impl View for AuthenticateFailure {
    type V = AuthenticateFailureView;

    open spec fn view(&self) -> AuthenticateFailureView {
        match self {
            AuthenticateFailure::Refused(message) => AuthenticateFailureView::Refused(message@),
            AuthenticateFailure::MissingSessionId => AuthenticateFailureView::MissingSessionId,
        }
    }
}

/// The message with which the server refused, or `Unknown` where it gave none.
pub open spec fn refusal_text(error_msg: Option<Vec<u8>>) -> Seq<char> {
    match error_msg {
        Some(message) => utf8_lossy_text(message@),
        None => "Unknown"@,
    }
}

/// What an answer to signing in comes to: a session where the server reports no error
/// and names one.
pub open spec fn sign_in(error_code: i32, error_msg: Option<Vec<u8>>, session_id: Option<i64>)
    -> Result<SessionState, AuthenticateFailureView> {
    if error_code != SUCCEEDED {
        Err(AuthenticateFailureView::Refused(refusal_text(error_msg)))
    } else {
        match session_id {
            Some(id) => Ok(SessionState { session_id: id, close_required: false }),
            None => Err(AuthenticateFailureView::MissingSessionId),
        }
    }
}

/// What is shown of a failure to sign in.
pub open spec fn failure_view(outcome: Result<SessionState, AuthenticateFailure>) -> Result<
    SessionState,
    AuthenticateFailureView,
> {
    match outcome {
        Ok(state) => Ok(state),
        Err(failure) => Err(failure@),
    }
}

impl SessionState {
    /// The state of the session that an answer to signing in opens.
    pub fn from_auth_response(
        error_code: i32,
        error_msg: Option<Vec<u8>>,
        session_id: Option<i64>,
    ) -> (outcome: Result<SessionState, AuthenticateFailure>)
        ensures
            failure_view(outcome) == sign_in(error_code, error_msg, session_id),
    {
        if error_code != SUCCEEDED {
            let message = match &error_msg {
                Some(message) => utf8_lossy(message.as_slice()),
                None => String::from_str("Unknown"),
            };
            return Err(AuthenticateFailure::Refused(message));
        }
        match session_id {
            Some(id) => Ok(SessionState::new(id)),
            None => Err(AuthenticateFailure::MissingSessionId),
        }
    }

    /// The state of a session that has just signed in.
    pub fn new(session_id: i64) -> (state: Self)
        ensures
            state == (SessionState { session_id, close_required: false }),
    {
        Self { session_id, close_required: false }
    }

    /// Takes note of what an attempt to execute came to. Once the connection has to be
    /// closed, nothing changes that.
    pub fn record(&mut self, outcome: ExecuteOutcome)
        ensures
            final(self).session_id == old(self).session_id,
            final(self).close_required == (old(self).close_required || outcome.severs()),
    {
        if outcome.requires_close() {
            self.close_required = true;
        }
    }

    pub fn is_close_required(&self) -> (required: bool)
        ensures
            required == self.close_required,
    {
        self.close_required
    }
}

} // verus!
