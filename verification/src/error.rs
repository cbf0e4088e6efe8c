//! The failure vocabulary. A fatal error carries which step failed; the
//! message handed to the reporting callback is this context joined with the
//! platform's decoded last-error text, which only the platform side can
//! read. Recoverable presentation errors never surface here: the graphics
//! device resolves them in place.

use vstd::prelude::*;
use vstd::string::StringSliceAdditionalSpecFns;

verus! {

/// Whether a failure report should also be shown in a message box.
#[derive(Clone, Copy, Debug, PartialEq, Eq, Structural)]
pub enum ShowMessageBox {
    Yes,
    No,
}

/// An unrecoverable failure: the step that failed, and for swap-chain
/// failures the raw result code. The process terminates after reporting it;
/// there is no degraded mode.
#[derive(Clone, Copy, Debug, PartialEq, Eq, Structural)]
pub enum FatalError {
    ClassRegistrationFailed,
    RawInputRegistrationFailed,
    WindowCreationFailed,
    StyleQueryFailed,
    StyleChangeFailed,
    DeviceCreationFailed,
    IncompatibleFeatureLevel,
    SwapChainCreationFailed,
    SwapChainFailed(u32),
}

impl FatalError {
    /// The context part of the reported message for each failure.
    pub open spec fn context_spec(self) -> Seq<char> {
        match self {
            FatalError::ClassRegistrationFailed => "Failed to register window class."@,
            FatalError::RawInputRegistrationFailed => "Failed to register raw input device."@,
            FatalError::WindowCreationFailed => "Failed to create window."@,
            FatalError::StyleQueryFailed => "Failed to retrieve window style."@,
            FatalError::StyleChangeFailed => "Failed to set new window style."@,
            FatalError::DeviceCreationFailed => "Failed to create graphics device."@,
            FatalError::IncompatibleFeatureLevel => "Incompatible graphics card: Feature level 11.0 is required."@,
            FatalError::SwapChainCreationFailed => "Unable to initialize swap chain."@,
            FatalError::SwapChainFailed(_) => "An error related to the swap chain occurred."@,
        }
    }

    /// The context text of this failure, to stand before the platform's
    /// decoded error text in the reported message.
    pub fn context(&self) -> (r: &'static str)
        ensures
            r@ == self.context_spec(),
    {
        match self {
            FatalError::ClassRegistrationFailed => "Failed to register window class.",
            FatalError::RawInputRegistrationFailed => "Failed to register raw input device.",
            FatalError::WindowCreationFailed => "Failed to create window.",
            FatalError::StyleQueryFailed => "Failed to retrieve window style.",
            FatalError::StyleChangeFailed => "Failed to set new window style.",
            FatalError::DeviceCreationFailed => "Failed to create graphics device.",
            FatalError::IncompatibleFeatureLevel => "Incompatible graphics card: Feature level 11.0 is required.",
            FatalError::SwapChainCreationFailed => "Unable to initialize swap chain.",
            FatalError::SwapChainFailed(_) => "An error related to the swap chain occurred.",
        }
    }
}

/// The platform's decoded error text, or the fixed fallback when the
/// platform had none to give.
pub fn message_text(decoded: Option<String>) -> (r: String)
    ensures
        decoded matches Some(s) ==> r@ == s@,
        decoded is None ==> r@ == "Unknown Windows error."@,
{
    match decoded {
        Some(s) => s,
        None => "Unknown Windows error.".to_owned(),
    }
}

/// Joins a failure context and the platform's error text into the reported
/// message, as bytes: the context, a colon and a space, then the text.
pub fn format_report(context: &str, detail: &str) -> (r: Vec<u8>)
    ensures
        r@ == context.spec_bytes() + seq![58u8, 32u8] + detail.spec_bytes(),
{
    let context_bytes = context.as_bytes();
    let detail_bytes = detail.as_bytes();
    let mut message: Vec<u8> = Vec::new();
    let mut i: usize = 0;
    while i < context_bytes.len()
        invariant
            i <= context_bytes.len(),
            context_bytes@ == context.spec_bytes(),
            message@ == context.spec_bytes().take(i as int),
        decreases context_bytes.len() - i,
    {
        message.push(context_bytes[i]);
        proof {
            assert(message@ =~= context.spec_bytes().take(i + 1));
        }
        i += 1;
    }
    proof {
        assert(context.spec_bytes().take(context.spec_bytes().len() as int) =~= context.spec_bytes());
    }
    message.push(58u8);
    message.push(32u8);
    let mut j: usize = 0;
    while j < detail_bytes.len()
        invariant
            j <= detail_bytes.len(),
            detail_bytes@ == detail.spec_bytes(),
            message@ == context.spec_bytes() + seq![58u8, 32u8] + detail.spec_bytes().take(j as int),
        decreases detail_bytes.len() - j,
    {
        message.push(detail_bytes[j]);
        proof {
            assert(message@ =~= context.spec_bytes() + seq![58u8, 32u8] + detail.spec_bytes().take(
                j + 1,
            ));
        }
        j += 1;
    }
    proof {
        assert(detail.spec_bytes().take(detail.spec_bytes().len() as int) =~= detail.spec_bytes());
    }
    message
}

} // verus!
