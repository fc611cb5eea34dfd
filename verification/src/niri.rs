//! Vocabulary of the Niri IPC adapter: its errors and the names of the responses
//! Niri can give. The socket traffic itself is performed by the adapter.

use vstd::prelude::*;
use vstd::string::*;
use crate::text::{append_decimal, decimal_text};

verus! {

#[verifier::external_type_specification]
#[verifier::external_body]
pub struct ExIoError(std::io::Error);

/// Failures of the Niri adapter.
#[derive(Debug)]
pub enum NiriError {
    Io(std::io::Error),
    Rejected(String),
    UnexpectedResponse { expected: &'static str, actual: &'static str },
    WindowMissing(u64),
    RequiresFloating(u64),
    InvalidGap,
    GapOutOfRange,
    InvalidTarget(String),
    PostconditionFailed(u64),
    FloatingTransitionTimeout(u64),
    GeometrySettleTimeout(u64),
    TilingTransitionTimeout(u64),
    InvalidRestoreGeometry,
}

/// Renders a `std::io::Error` with its `Display` impl. What the text says is not stated.
#[verifier::external_body]
fn io_error_message(error: &std::io::Error) -> String {
    error.to_string()
}

/// The message of each adapter error but a failed socket exchange, whose text comes
/// from the operating system.
pub open spec fn niri_error_text(e: NiriError) -> Seq<char> {
    match e {
        NiriError::Io(_) => "could not communicate with Niri: "@,
        NiriError::Rejected(message) => "Niri rejected the request: "@ + message@,
        NiriError::UnexpectedResponse { expected, actual } => "unexpected Niri response: expected "@ + expected@
            + ", received "@ + actual@,
        NiriError::WindowMissing(id) => "window "@ + decimal_text(id as nat) + " no longer exists"@,
        NiriError::RequiresFloating(id) => "window "@ + decimal_text(id as nat)
            + " is tiled; explicit tiled-to-floating permission is required"@,
        NiriError::InvalidGap => "gap must be finite and non-negative"@,
        NiriError::GapOutOfRange => "gap is too large for Niri's fixed-size adjustment"@,
        NiriError::InvalidTarget(message) => "invalid normalized target: "@ + message@,
        NiriError::PostconditionFailed(id) => "window "@ + decimal_text(id as nat)
            + " disappeared or did not become floating after the apply sequence"@,
        NiriError::FloatingTransitionTimeout(id) => "timed out waiting for window "@ + decimal_text(id as nat)
            + " to enter the floating layout"@,
        NiriError::GeometrySettleTimeout(id) => "timed out waiting for window "@ + decimal_text(id as nat)
            + " geometry to settle after IPC actions"@,
        NiriError::TilingTransitionTimeout(id) => "timed out waiting for window "@ + decimal_text(id as nat)
            + " to return to the tiling layout"@,
        NiriError::InvalidRestoreGeometry => "saved restore geometry is missing or cannot be represented by Niri"@,
    }
}

/// `prefix`, the decimal id and `suffix` as one text.
fn id_message(prefix: &str, id: u64, suffix: &str) -> (r: String)
    ensures
        r@ == prefix@ + decimal_text(id as nat) + suffix@,
{
    let mut s = String::from_str(prefix);
    append_decimal(&mut s, id);
    s.append(suffix);
    s
}

impl NiriError {
    /// The human-readable description of the error. A failed socket exchange is
    /// described by the operating system's error after a fixed prefix.
    pub fn message(&self) -> (r: String)
        ensures
            self is Io ==> exists|detail: Seq<char>| r@ == niri_error_text(*self) + detail,
            !(self is Io) ==> r@ == niri_error_text(*self),
    {
        match self {
            NiriError::Io(error) => {
                let mut s = String::from_str("could not communicate with Niri: ");
                let detail = io_error_message(error);
                s.append(detail.as_str());
                assert(s@ == niri_error_text(*self) + detail@);
                s
            },
            NiriError::Rejected(message) => {
                let mut s = String::from_str("Niri rejected the request: ");
                s.append(message.as_str());
                s
            },
            NiriError::UnexpectedResponse { expected, actual } => {
                let mut s = String::from_str("unexpected Niri response: expected ");
                s.append(expected);
                s.append(", received ");
                s.append(actual);
                s
            },
            NiriError::WindowMissing(id) => id_message("window ", *id, " no longer exists"),
            NiriError::RequiresFloating(id) => id_message(
                "window ",
                *id,
                " is tiled; explicit tiled-to-floating permission is required",
            ),
            NiriError::InvalidGap => String::from_str("gap must be finite and non-negative"),
            NiriError::GapOutOfRange => String::from_str("gap is too large for Niri's fixed-size adjustment"),
            NiriError::InvalidTarget(message) => {
                let mut s = String::from_str("invalid normalized target: ");
                s.append(message.as_str());
                s
            },
            NiriError::PostconditionFailed(id) => id_message(
                "window ",
                *id,
                " disappeared or did not become floating after the apply sequence",
            ),
            NiriError::FloatingTransitionTimeout(id) => id_message(
                "timed out waiting for window ",
                *id,
                " to enter the floating layout",
            ),
            NiriError::GeometrySettleTimeout(id) => id_message(
                "timed out waiting for window ",
                *id,
                " geometry to settle after IPC actions",
            ),
            NiriError::TilingTransitionTimeout(id) => id_message(
                "timed out waiting for window ",
                *id,
                " to return to the tiling layout",
            ),
            NiriError::InvalidRestoreGeometry => String::from_str(
                "saved restore geometry is missing or cannot be represented by Niri",
            ),
        }
    }
}

/// The kinds of reply Niri sends to a request.
#[derive(Debug, Clone, Copy, PartialEq, Eq, Structural)]
pub enum ResponseKind {
    Handled,
    Version,
    Outputs,
    Workspaces,
    Windows,
    Layers,
    KeyboardLayouts,
    FocusedOutput,
    FocusedWindow,
    PickedWindow,
    PickedColor,
    OutputConfigChanged,
    OverviewState,
    Casts,
}

/// The name of each kind of reply.
pub open spec fn response_name_spec(kind: ResponseKind) -> Seq<char> {
    match kind {
        ResponseKind::Handled => "Handled"@,
        ResponseKind::Version => "Version"@,
        ResponseKind::Outputs => "Outputs"@,
        ResponseKind::Workspaces => "Workspaces"@,
        ResponseKind::Windows => "Windows"@,
        ResponseKind::Layers => "Layers"@,
        ResponseKind::KeyboardLayouts => "KeyboardLayouts"@,
        ResponseKind::FocusedOutput => "FocusedOutput"@,
        ResponseKind::FocusedWindow => "FocusedWindow"@,
        ResponseKind::PickedWindow => "PickedWindow"@,
        ResponseKind::PickedColor => "PickedColor"@,
        ResponseKind::OutputConfigChanged => "OutputConfigChanged"@,
        ResponseKind::OverviewState => "OverviewState"@,
        ResponseKind::Casts => "Casts"@,
    }
}

/// The name of a kind of reply, as error messages show it.
pub fn response_name(kind: ResponseKind) -> (r: &'static str)
    ensures
        r@ == response_name_spec(kind),
{
    match kind {
        ResponseKind::Handled => "Handled",
        ResponseKind::Version => "Version",
        ResponseKind::Outputs => "Outputs",
        ResponseKind::Workspaces => "Workspaces",
        ResponseKind::Windows => "Windows",
        ResponseKind::Layers => "Layers",
        ResponseKind::KeyboardLayouts => "KeyboardLayouts",
        ResponseKind::FocusedOutput => "FocusedOutput",
        ResponseKind::FocusedWindow => "FocusedWindow",
        ResponseKind::PickedWindow => "PickedWindow",
        ResponseKind::PickedColor => "PickedColor",
        ResponseKind::OutputConfigChanged => "OutputConfigChanged",
        ResponseKind::OverviewState => "OverviewState",
        ResponseKind::Casts => "Casts",
    }
}

/// The error for a reply of kind `actual` where `expected` was awaited.
pub fn unexpected(expected: &'static str, actual: ResponseKind) -> (r: NiriError)
    ensures
        r matches NiriError::UnexpectedResponse { expected: e, actual: a } && e@ == expected@ && a@
            == response_name_spec(actual),
{
    NiriError::UnexpectedResponse { expected, actual: response_name(actual) }
}

} // verus!
