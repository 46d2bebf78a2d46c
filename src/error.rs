//! The error value that carries a handler's failure across the process
//! boundary.
//!
//! Capturing is one-way and lossy on purpose: the failure's message and the
//! messages of its chain of sources are kept, its type is not. A receiver can
//! read the rendered text but cannot branch on the failure's own kind.
use vstd::prelude::*;
use vstd::std_specs::convert::FromSpecImpl;

verus! {

#[verifier::external_type_specification]
#[verifier::external_body]
pub struct ExCapturedError(serde_error::Error);

#[verifier::external_type_specification]
#[verifier::external_body]
pub struct ExAnyError(anyhow::Error);

/// A failure captured for transport, with the message the capture recorded.
#[derive(Debug)]
pub struct RpcError {
    captured: serde_error::Error,
    message: String,
}

/// The result of a fallible operation.
pub type RpcResult<T> = Result<T, RpcError>;

/// Relies on serde_error::Error::new: it records the error's message and,
/// walking its sources, theirs.
#[verifier::external_body]
fn capture(e: &anyhow::Error) -> serde_error::Error {
    serde_error::Error::new(&**e)
}

/// The message a capture holds, as its `Display` writes it.
pub uninterp spec fn description_of(e: serde_error::Error) -> Seq<char>;

/// Relies on serde_error::Error's Display: it writes the stored description
/// and nothing else, so the text depends on the capture alone.
#[verifier::external_body]
fn captured_message(e: &serde_error::Error) -> (r: String)
    ensures
        r@ == description_of(*e),
{
    e.to_string()
}

/// What `RpcError` renders as, given the captured message.
pub open spec fn rendered(message: Seq<char>) -> Seq<char> {
    "RpcError("@ + message + ")"@
}

/// Renders a captured message the way an `RpcError` is displayed.
pub fn render_message(message: &str) -> (r: String)
    ensures
        r@ == rendered(message@),
{
    let mut r = String::from_str("RpcError(");
    r.append(message);
    r.append(")");
    r
}

impl From<anyhow::Error> for RpcError {
    /// Captures an arbitrary failure for transport.
    fn from(e: anyhow::Error) -> (r: RpcError)
        ensures
            r.spec_message() == description_of(r.captured()),
    {
        RpcError::from_captured(capture(&e))
    }
}

impl FromSpecImpl<anyhow::Error> for RpcError {
    /// What a capture holds is decided by the failure's own `Display` code
    /// (an OS message may follow the locale), so no result is promised here;
    /// the error built is the one `from_captured` builds from the capture.
    open spec fn obeys_from_spec() -> bool {
        false
    }

    open spec fn from_spec(e: anyhow::Error) -> RpcError {
        arbitrary()
    }
}

impl RpcError {
    /// The capture this error carries.
    pub closed spec fn captured(self) -> serde_error::Error {
        self.captured
    }

    /// The message the capture recorded.
    pub closed spec fn spec_message(self) -> Seq<char> {
        description_of(self.captured)
    }

    /// The stored message is always the capture's own.
    #[verifier::type_invariant]
    closed spec fn message_matches_capture(self) -> bool {
        self.message@ == description_of(self.captured)
    }

    /// Wraps a capture, as one just made or one received from a peer, and
    /// records the message it carries.
    pub fn from_captured(captured: serde_error::Error) -> (r: RpcError)
        ensures
            r.captured() == captured,
            r.spec_message() == description_of(captured),
    {
        let message = captured_message(&captured);
        RpcError { captured, message }
    }

    /// The capture this error carries.
    pub fn into_captured(self) -> (r: serde_error::Error)
        ensures
            r == self.captured(),
    {
        self.captured
    }

    /// The message that was captured, without the chain of sources.
    pub fn message(&self) -> (r: String)
        ensures
            r@ == self.spec_message(),
    {
        proof {
            use_type_invariant(self);
        }
        self.message.clone()
    }

    /// The rendered text of this error: `RpcError(<message>)`.
    pub fn to_string(&self) -> (r: String)
        ensures
            r@ == rendered(self.spec_message()),
    {
        proof {
            use_type_invariant(self);
        }
        render_message(self.message.as_str())
    }
}

/// Two errors that carry the same capture, such as an error and the one a
/// peer rebuilds from it, hold the same message and render the same text.
pub proof fn lemma_same_capture_same_rendering(a: RpcError, b: RpcError)
    requires
        a.captured() == b.captured(),
    ensures
        a.spec_message() == b.spec_message(),
        rendered(a.spec_message()) == rendered(b.spec_message()),
{
}

/// The rendered text of an error is never empty and holds the captured
/// message whole, right after the `RpcError(` prefix.
pub proof fn lemma_rendered_holds_message(message: Seq<char>)
    ensures
        rendered(message).len() == message.len() + 10,
        rendered(message).subrange(9, 9 + message.len() as int) == message,
        rendered(message).len() > 0,
{
    reveal_strlit("RpcError(");
    reveal_strlit(")");
    assert(rendered(message).subrange(9, 9 + message.len() as int) =~= message);
}

} // verus!
