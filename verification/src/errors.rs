//! The error taxonomy of the bridge: the structured error reported by the
//! native side, and the errors a plugin invocation can surface to the host.

use vstd::prelude::*;
use vstd::string::StringExecFns;

verus! {

/// Error response reported by the native backend of the bridge.
///
/// Both fields are optional: the native side may report a bare failure, a
/// code, a human-readable message, or both.
#[derive(Clone, Debug)]
pub struct ErrorResponse {
    /// Error code.
    pub code: Option<String>,
    /// Error message.
    pub message: Option<String>,
}

impl ErrorResponse {
    /// The content of this error: the code's and the message's text, each
    /// absent or present.
    pub open spec fn fields(self) -> (Option<Seq<char>>, Option<Seq<char>>) {
        (
            match self.code {
                Some(c) => Some(c@),
                None => None,
            },
            match self.message {
                Some(m) => Some(m@),
                None => None,
            },
        )
    }

    /// The rendering of this error as text: the code in brackets, then a
    /// separator if both parts are present, then the message.
    pub open spec fn display_spec(self) -> Seq<char> {
        let code_part = match self.code {
            Some(c) => "["@ + c@ + "]"@,
            None => Seq::<char>::empty(),
        };
        let sep_part = if self.code is Some && self.message is Some {
            " - "@
        } else {
            Seq::<char>::empty()
        };
        let message_part = match self.message {
            Some(m) => m@,
            None => Seq::<char>::empty(),
        };
        code_part + sep_part + message_part
    }

    /// Renders the error as `[code] - message`, leaving out whichever part
    /// is absent.
    pub fn display_string(&self) -> (r: String)
        ensures
            r@ == self.display_spec(),
    {
        let mut out = String::from_str("");
        if let Some(code) = &self.code {
            out.append("[");
            out.append(code.as_str());
            out.append("]");
            if self.message.is_some() {
                out.append(" - ");
            }
        }
        if let Some(message) = &self.message {
            out.append(message.as_str());
        }
        proof {
            reveal_strlit("");
            assert(out@ =~= self.display_spec());
        }
        out
    }
}

/// Possible errors when invoking a plugin command.
#[derive(Debug)]
pub enum PluginInvokeError {
    /// The native dispatch surface was unavailable at invocation time; the
    /// request never reached native code.
    UnreachableWebview,
    /// The native side explicitly reported a failure, propagated verbatim.
    InvokeRejected(ErrorResponse),
    /// The response from native code did not match the requested shape, or
    /// was not valid serialized data. The field carries the decoder's text.
    CannotDeserializeResponse(String),
    /// The outbound request payload could not be serialized; the invocation
    /// never reached native code. The field carries the serializer's text.
    CannotSerializePayload(String),
}

} // verus!
