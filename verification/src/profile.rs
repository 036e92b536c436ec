//! A binding's configuration: the spec the operator wrote, the profile the
//! plugin keeps for it, and the errors the plugin answers with.

use vstd::prelude::*;
use vstd::string::*;

use crate::json::{clone_json, Json, JsonView};

verus! {

/// The spec of a `kind: mock` binding, as the operator wrote it. A field that
/// the operator left out takes its default: `response` null, `delay_ms` 0,
/// `error` and `passthrough` false, `error_message` unset.
#[derive(Debug)]
pub struct MockBackendSpec {
    pub response: Json,
    pub delay_ms: u64,
    pub error: bool,
    pub error_message: Option<String>,
    pub passthrough: bool,
}

/// What the plugin keeps for one registered binding.
#[derive(Debug)]
pub struct MockProfile {
    pub response: Json,
    pub delay_ms: u64,
    pub error: bool,
    pub error_message: Option<String>,
    pub passthrough: bool,
}

/// The model of a [`MockBackendSpec`] and of a [`MockProfile`].
pub struct MockProfileView {
    pub response: JsonView,
    pub delay_ms: u64,
    pub error: bool,
    pub error_message: Option<Seq<char>>,
    pub passthrough: bool,
}

/// The model of an optional string.
pub open spec fn opt_string_view(s: Option<String>) -> Option<Seq<char>> {
    match s {
        Some(s) => Some(s@),
        None => None,
    }
}

impl View for MockBackendSpec {
    type V = MockProfileView;

    open spec fn view(&self) -> MockProfileView {
        MockProfileView {
            response: self.response@,
            delay_ms: self.delay_ms,
            error: self.error,
            error_message: opt_string_view(self.error_message),
            passthrough: self.passthrough,
        }
    }
}

impl View for MockProfile {
    type V = MockProfileView;

    open spec fn view(&self) -> MockProfileView {
        MockProfileView {
            response: self.response@,
            delay_ms: self.delay_ms,
            error: self.error,
            error_message: opt_string_view(self.error_message),
            passthrough: self.passthrough,
        }
    }
}

/// The errors the plugin answers with.
#[derive(Debug)]
pub enum BackendError {
    /// The binding's spec cannot be used.
    InvalidSpec { message: String },
    /// No binding of this name was registered.
    ProfileNotFound { backend_name: String },
}

/// The model of a [`BackendError`].
pub enum BackendErrorView {
    InvalidSpec(Seq<char>),
    ProfileNotFound(Seq<char>),
}

impl View for BackendError {
    type V = BackendErrorView;

    open spec fn view(&self) -> BackendErrorView {
        match self {
            BackendError::InvalidSpec { message } => BackendErrorView::InvalidSpec(message@),
            BackendError::ProfileNotFound { backend_name } => BackendErrorView::ProfileNotFound(
                backend_name@,
            ),
        }
    }
}

/// The text that opens the message of a spec that could not be read.
pub const SPEC_ERROR_PREFIX: &'static str = "mock binding spec: ";

/// The message of a passthrough spec whose response is no `CallToolResult`.
pub const PASSTHROUGH_SHAPE_MESSAGE: &'static str =
    "passthrough: true requires `response` to be a CallToolResult object with a `content` array";

/// The outcome of registering the spec `parsed`: the profile to keep, or the
/// error to answer with. `parsed` is the spec as read from the operator's
/// JSON, or the reader's message where it could not be read.
pub open spec fn registration(parsed: Result<MockProfileView, Seq<char>>) -> Result<
    MockProfileView,
    BackendErrorView,
> {
    match parsed {
        Err(reason) => Err(BackendErrorView::InvalidSpec(SPEC_ERROR_PREFIX@ + reason)),
        Ok(spec) => if spec.passthrough && !spec.response.is_call_tool_result_shape() {
            Err(BackendErrorView::InvalidSpec(PASSTHROUGH_SHAPE_MESSAGE@))
        } else {
            Ok(spec)
        },
    }
}

/// The model of a spec as read, or of the reader's message.
pub open spec fn parsed_view(parsed: Result<MockBackendSpec, String>) -> Result<
    MockProfileView,
    Seq<char>,
> {
    match parsed {
        Ok(spec) => Ok(spec@),
        Err(reason) => Err(reason@),
    }
}

/// The model of a profile, or of an error.
pub open spec fn profile_result_view(r: Result<MockProfile, BackendError>) -> Result<
    MockProfileView,
    BackendErrorView,
> {
    match r {
        Ok(p) => Ok(p@),
        Err(e) => Err(e@),
    }
}

/// Checks the spec `parsed` and turns it into the profile to keep: a spec
/// that could not be read is refused with its reader's message, and so is a
/// passthrough spec whose response is no `CallToolResult`.
pub fn check_spec(parsed: Result<MockBackendSpec, String>) -> (r: Result<MockProfile, BackendError>)
    ensures
        profile_result_view(r) == registration(parsed_view(parsed)),
{
    match parsed {
        Err(reason) => {
            let message = String::from_str(SPEC_ERROR_PREFIX).concat(reason.as_str());
            Err(BackendError::InvalidSpec { message })
        },
        Ok(spec) => {
            if spec.passthrough && !is_call_tool_result_shape(&spec.response) {
                Err(
                    BackendError::InvalidSpec {
                        message: String::from_str(PASSTHROUGH_SHAPE_MESSAGE),
                    },
                )
            } else {
                Ok(
                    MockProfile {
                        response: spec.response,
                        delay_ms: spec.delay_ms,
                        error: spec.error,
                        error_message: spec.error_message,
                        passthrough: spec.passthrough,
                    },
                )
            }
        },
    }
}

/// A loose `CallToolResult` shape check: an object carrying a `content`
/// array. A passthrough response must pass it.
pub fn is_call_tool_result_shape(value: &Json) -> (r: bool)
    ensures
        r == value@.is_call_tool_result_shape(),
{
    match value.get("content") {
        Some(content) => content.is_array(),
        None => false,
    }
}

/// A copy of an optional string.
fn clone_opt_string(s: &Option<String>) -> (r: Option<String>)
    ensures
        opt_string_view(r) == opt_string_view(*s),
{
    match s {
        Some(s) => Some(s.clone()),
        None => None,
    }
}

impl Clone for MockProfile {
    fn clone(&self) -> (r: MockProfile)
        ensures
            r@ == self@,
    {
        MockProfile {
            response: clone_json(&self.response),
            delay_ms: self.delay_ms,
            error: self.error,
            error_message: clone_opt_string(&self.error_message),
            passthrough: self.passthrough,
        }
    }
}

impl MockProfile {
    /// How long to wait before answering: `None` where no wait is configured.
    pub fn delay(&self) -> (r: Option<u64>)
        ensures
            r == (if self.delay_ms > 0 {
                Some(self.delay_ms)
            } else {
                None
            }),
    {
        if self.delay_ms > 0 {
            Some(self.delay_ms)
        } else {
            None
        }
    }
}

impl Clone for BackendError {
    fn clone(&self) -> (r: BackendError)
        ensures
            r@ == self@,
    {
        match self {
            BackendError::InvalidSpec { message } => BackendError::InvalidSpec {
                message: message.clone(),
            },
            BackendError::ProfileNotFound { backend_name } => BackendError::ProfileNotFound {
                backend_name: backend_name.clone(),
            },
        }
    }
}

} // verus!
