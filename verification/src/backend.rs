//! Window backend vocabulary shared by the snap transaction and its drivers.

use vstd::prelude::*;
use vstd::string::*;

verus! {

/// A compositor's runtime window id.
pub type WindowId = u64;

/// A failure reported by a window backend.
#[derive(Debug, Clone)]
pub struct BackendError {
    pub message: String,
}

impl BackendError {
    /// An error carrying the given message.
    pub fn new(message: &str) -> (r: BackendError)
        ensures
            r.message@ == message@,
    {
        BackendError { message: String::from_str(message) }
    }
}

/// A window as a backend reports it: id, geometry and whether it floats.
#[derive(Debug, Clone, Copy)]
pub struct WindowSnapshot<G> {
    pub id: WindowId,
    pub geometry: G,
    pub is_floating: bool,
}

/// The backend operation a mock backend is told to fail once.
#[derive(Debug, Clone, Copy, PartialEq, Eq, Structural)]
pub enum MockFailure {
    Read,
    SetFloating,
    Resize,
    Move,
}

/// The text a mock backend reports for an injected failure.
pub open spec fn mock_failure_text(f: MockFailure) -> Seq<char> {
    match f {
        MockFailure::Read => "mock Read failure"@,
        MockFailure::SetFloating => "mock SetFloating failure"@,
        MockFailure::Resize => "mock Resize failure"@,
        MockFailure::Move => "mock Move failure"@,
    }
}

/// Consumes an armed failure: when `fail_next` holds `failure`, it is cleared and
/// the error to report is returned; otherwise nothing changes.
pub fn take_mock_failure(fail_next: &mut Option<MockFailure>, failure: MockFailure) -> (r: Option<
    BackendError,
>)
    ensures
        *old(fail_next) == Some(failure) ==> *final(fail_next) == None::<MockFailure> && r is Some
            && r->0.message@ == mock_failure_text(failure),
        *old(fail_next) != Some(failure) ==> *final(fail_next) == *old(fail_next) && r is None,
{
    let armed = match *fail_next {
        Some(f) => f == failure,
        None => false,
    };
    if armed {
        *fail_next = None;
        let message = match failure {
            MockFailure::Read => "mock Read failure",
            MockFailure::SetFloating => "mock SetFloating failure",
            MockFailure::Resize => "mock Resize failure",
            MockFailure::Move => "mock Move failure",
        };
        Some(BackendError::new(message))
    } else {
        None
    }
}

} // verus!
