//! The redirect receiver's decisions: what to do with the parameters that a
//! provider's redirect brings, and what to answer the browser.

use vstd::prelude::*;
use vstd::string::StringExecFns;
use crate::error::{message_of, AccountsError, AccountsErrorView};
use crate::text::opt_text;

verus! {

/// The parameters of a redirect.
#[derive(Debug)]
pub struct CallbackQuery {
    pub code: Option<String>,
    pub state: Option<String>,
    pub error: Option<String>,
    pub error_description: Option<String>,
}

/// What the parameters of a redirect hold.
pub struct CallbackQueryView {
    pub code: Option<Seq<char>>,
    pub state: Option<Seq<char>>,
    pub error: Option<Seq<char>>,
    pub error_description: Option<Seq<char>>,
}

impl View for CallbackQuery {
    type V = CallbackQueryView;

    open spec fn view(&self) -> CallbackQueryView {
        CallbackQueryView {
            code: opt_text(self.code),
            state: opt_text(self.state),
            error: opt_text(self.error),
            error_description: opt_text(self.error_description),
        }
    }
}

/// What the receiver does with a redirect.
#[derive(Debug)]
pub enum CallbackAction {
    /// The provider reported an error: answer with it, and do not call the
    /// account service.
    ReportError { error: String, description: String },
    /// Complete the sign-in with the state token and the authorization code,
    /// both as they came.
    Complete { state: String, code: String },
    /// A parameter is missing: answer so, and do not call the account
    /// service.
    Invalid,
}

/// What an action holds.
pub enum CallbackActionView {
    ReportError { error: Seq<char>, description: Seq<char> },
    Complete { state: Seq<char>, code: Seq<char> },
    Invalid,
}

impl View for CallbackAction {
    type V = CallbackActionView;

    open spec fn view(&self) -> CallbackActionView {
        match self {
            CallbackAction::ReportError { error, description } => CallbackActionView::ReportError {
                error: error@,
                description: description@,
            },
            CallbackAction::Complete { state, code } => CallbackActionView::Complete {
                state: state@,
                code: code@,
            },
            CallbackAction::Invalid => CallbackActionView::Invalid,
        }
    }
}

/// What the receiver does with a redirect: an error of the provider comes
/// first; otherwise the sign-in is completed if both the code and the state
/// token are there.
pub open spec fn action_for(q: CallbackQueryView) -> CallbackActionView {
    if q.error is Some {
        CallbackActionView::ReportError {
            error: q.error.unwrap(),
            description: match q.error_description {
                Some(d) => d,
                None => "No description"@,
            },
        }
    } else if q.code is Some && q.state is Some {
        CallbackActionView::Complete { state: q.state.unwrap(), code: q.code.unwrap() }
    } else {
        CallbackActionView::Invalid
    }
}

/// Decides what to do with a redirect.
pub fn handle_callback(query: CallbackQuery) -> (r: CallbackAction)
    ensures
        r@ == action_for(query@),
{
    if let Some(error) = query.error {
        let description = match query.error_description {
            Some(d) => d,
            None => String::from_str("No description"),
        };
        return CallbackAction::ReportError { error, description };
    }
    match query.code {
        Some(code) => match query.state {
            Some(state) => CallbackAction::Complete { state, code },
            None => CallbackAction::Invalid,
        },
        None => CallbackAction::Invalid,
    }
}

/// An answer to the browser: the status code and the body.
#[derive(Debug)]
pub struct CallbackResponse {
    pub status: u16,
    pub body: String,
}

pub const PAGE_HEAD: &'static str = "<!DOCTYPE html>\n<html>\n<head>\n";

pub const ERROR_STYLE: &'static str =
    "<title>Authentication Error</title>\n<style>\nbody { font-family: sans-serif; margin: 40px; text-align: center; }\n.error { color: #d73a49; background: #ffeef0; padding: 20px; border-radius: 8px; }\n</style>\n</head>\n<body>\n<div class=\"error\">\n<h2>Authentication Failed</h2>\n<p><strong>Error:</strong> ";

pub const ERROR_MIDDLE: &'static str = "</p>\n<p><strong>Description:</strong> ";

pub const ERROR_TAIL: &'static str = "</p>\n<p>You can close this window.</p>\n</div>\n</body>\n</html>\n";

pub const SUCCESS_PAGE: &'static str =
    "<!DOCTYPE html>\n<html>\n<head>\n<title>Authentication Success</title>\n<style>\nbody { font-family: sans-serif; margin: 40px; text-align: center; }\n.success { color: #28a745; background: #d4edda; padding: 20px; border-radius: 8px; }\n</style>\n</head>\n<body>\n<div class=\"success\">\n<h2>Authentication Successful!</h2>\n<p>You can now close this window.</p>\n</div>\n</body>\n</html>\n";

pub const INVALID_PAGE: &'static str =
    "<!DOCTYPE html>\n<html>\n<head>\n<title>Invalid Callback</title>\n<style>\nbody { font-family: sans-serif; margin: 40px; text-align: center; }\n.warning { color: #856404; background: #fff3cd; padding: 20px; border-radius: 8px; }\n</style>\n</head>\n<body>\n<div class=\"warning\">\n<h2>Invalid Callback</h2>\n<p>Missing required parameters.</p>\n</div>\n</body>\n</html>\n";

/// The page that reports an error of the provider.
pub open spec fn error_page(error: Seq<char>, description: Seq<char>) -> Seq<char> {
    PAGE_HEAD@ + ERROR_STYLE@ + error + ERROR_MIDDLE@ + description + ERROR_TAIL@
}

/// The body that reports a sign-in that could not be completed.
pub open spec fn failure_body(e: AccountsErrorView) -> Seq<char> {
    "Failed to authenticate user: "@ + message_of(e)
}

impl CallbackResponse {
    /// The answer to a redirect with an error of the provider: status 400 and
    /// a page with the error and its description.
    pub fn provider_error(error: &str, description: &str) -> (r: CallbackResponse)
        ensures
            r.status == 400,
            r.body@ == error_page(error@, description@),
    {
        let body = String::from_str(PAGE_HEAD).concat(ERROR_STYLE).concat(error).concat(
            ERROR_MIDDLE,
        ).concat(description).concat(ERROR_TAIL);
        CallbackResponse { status: 400, body }
    }

    /// The answer to a redirect that lacks a parameter: status 400.
    pub fn invalid() -> (r: CallbackResponse)
        ensures
            r.status == 400,
            r.body@ == INVALID_PAGE@,
    {
        CallbackResponse { status: 400, body: String::from_str(INVALID_PAGE) }
    }

    /// The answer after a completed sign-in: status 200.
    pub fn success() -> (r: CallbackResponse)
        ensures
            r.status == 200,
            r.body@ == SUCCESS_PAGE@,
    {
        CallbackResponse { status: 200, body: String::from_str(SUCCESS_PAGE) }
    }

    /// The answer after a sign-in that could not be completed: status 500
    /// and the failure's message.
    pub fn failure(e: &AccountsError) -> (r: CallbackResponse)
        ensures
            r.status == 500,
            r.body@ == failure_body(e@),
    {
        let message = e.message();
        CallbackResponse {
            status: 500,
            body: String::from_str("Failed to authenticate user: ").concat(message.as_str()),
        }
    }

    /// The answer to a redirect that is not followed by a sign-in: the
    /// provider's error, or the missing parameter. `None` for a redirect that
    /// completes a sign-in, whose answer depends on how the sign-in ends.
    pub fn immediate(action: &CallbackAction) -> (r: Option<CallbackResponse>)
        ensures
            match action@ {
                CallbackActionView::ReportError { error, description } => r matches Some(x)
                    && x.status == 400 && x.body@ == error_page(error, description),
                CallbackActionView::Invalid => r matches Some(x) && x.status == 400 && x.body@
                    == INVALID_PAGE@,
                CallbackActionView::Complete { .. } => r is None,
            },
    {
        match action {
            CallbackAction::ReportError { error, description } => Some(
                CallbackResponse::provider_error(error.as_str(), description.as_str()),
            ),
            CallbackAction::Invalid => Some(CallbackResponse::invalid()),
            CallbackAction::Complete { .. } => None,
        }
    }

    /// The answer after a sign-in, by how it ended.
    pub fn after_sign_in(outcome: &Result<String, AccountsError>) -> (r: CallbackResponse)
        ensures
            match outcome {
                Ok(_) => r.status == 200 && r.body@ == SUCCESS_PAGE@,
                Err(e) => r.status == 500 && r.body@ == failure_body(e@),
            },
    {
        match outcome {
            Ok(_) => CallbackResponse::success(),
            Err(e) => CallbackResponse::failure(e),
        }
    }
}

/// A redirect with an error of the provider never leads to a sign-in,
/// whatever else it brings.
pub proof fn lemma_provider_error_never_completes(q: CallbackQueryView)
    requires
        q.error is Some,
    ensures
        action_for(q) is ReportError,
{
}

/// A redirect without error that brings a code and a state token hands
/// both on as they came.
pub proof fn lemma_redirect_forwards_unmodified(q: CallbackQueryView)
    requires
        q.error is None,
        q.code is Some,
        q.state is Some,
    ensures
        action_for(q) == (CallbackActionView::Complete {
            state: q.state.unwrap(),
            code: q.code.unwrap(),
        }),
{
}

} // verus!
