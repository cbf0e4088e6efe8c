use lwar::error::{format_report, message_text, FatalError};
use lwar::primitives::Color;
use lwar::win_str::WinStr;

#[test]
fn fatal_error_contexts_are_the_reported_message_heads() {
    assert_eq!(
        FatalError::ClassRegistrationFailed.context(),
        "Failed to register window class."
    );
    assert_eq!(
        FatalError::RawInputRegistrationFailed.context(),
        "Failed to register raw input device."
    );
    assert_eq!(FatalError::WindowCreationFailed.context(), "Failed to create window.");
    assert_eq!(FatalError::StyleQueryFailed.context(), "Failed to retrieve window style.");
    assert_eq!(FatalError::StyleChangeFailed.context(), "Failed to set new window style.");
    assert_eq!(
        FatalError::DeviceCreationFailed.context(),
        "Failed to create graphics device."
    );
    assert_eq!(
        FatalError::IncompatibleFeatureLevel.context(),
        "Incompatible graphics card: Feature level 11.0 is required."
    );
    assert_eq!(
        FatalError::SwapChainCreationFailed.context(),
        "Unable to initialize swap chain."
    );
    assert_eq!(
        FatalError::SwapChainFailed(0x80004005).context(),
        "An error related to the swap chain occurred."
    );
}

#[test]
fn win_str_appends_the_terminating_zero() {
    let s = WinStr::from("Orbs");
    assert_eq!(s.chars, vec![79, 114, 98, 115, 0]);
}

#[test]
fn win_str_of_the_empty_string_is_just_the_terminator() {
    let s = WinStr::from("");
    assert_eq!(s.chars, vec![0]);
}

#[test]
fn message_text_falls_back_when_the_platform_has_none() {
    assert_eq!(message_text(Some("Access is denied.".to_owned())), "Access is denied.");
    assert_eq!(message_text(None), "Unknown Windows error.");
}

#[test]
fn format_report_joins_context_and_detail() {
    let report = format_report("Failed to create window.", "Access is denied.");
    assert_eq!(report, b"Failed to create window.: Access is denied.".to_vec());
}

#[test]
fn color_new_stores_all_channels() {
    let color = Color::new(1, 2, 3, 4);
    assert_eq!((color.r, color.g, color.b, color.a), (1, 2, 3, 4));
}
