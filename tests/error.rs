use whirlwing::error::{
    info_log_len, shader_error, Win32ErrorCode, WhirlwingError, WhirlwingErrorKind, WindowsError, WindowsErrorType,
};

#[test]
fn whirlwing_error_message_with_and_without_source() {
    let e = WhirlwingError::new("bad".to_string(), WhirlwingErrorKind::ShaderCompilationFailure);
    assert_eq!(e.message(), "Whirlwing Error: Shader Compilation Failure\nError Content: bad");
    let e = WhirlwingError::new_with_source(
        "Failed to read from path: a.vert".to_string(),
        WhirlwingErrorKind::ShaderCompilationFailure,
        "not found".to_string(),
    );
    assert_eq!(
        e.message(),
        "Whirlwing Error: Shader Compilation Failure\nError Content: Failed to read from path: a.vert\nError Source: not found"
    );
}

#[test]
fn windows_error_message_shows_the_code_text_only_with_a_code() {
    let e = WindowsError::from_failure(WindowsErrorType::WindowCreationError, Some(1400));
    assert_eq!(e.err_code, Some(Win32ErrorCode(1400)));
    assert_eq!(
        e.message("Windows Error Code: 1400\nWindows Error Message: Invalid window handle."),
        "Windows Error:\nWindows Error Code: 1400\nWindows Error Message: Invalid window handle.\nError Type: Window Creation Error\nError Message: Failed to create the window."
    );
    let e = WindowsError::from_failure(WindowsErrorType::DeviceContextRetrievalError, None);
    assert_eq!(
        e.message("ignored"),
        "Windows Error!\nError Type: Device Context Retrieval Error\nError Message: Failed to get device context for window."
    );
}

#[test]
fn error_type_names() {
    assert_eq!(WindowsErrorType::AdjustWindowRectError.text(), "Window Size Error");
    assert_eq!(WindowsErrorType::WGLContextCreationErrorARB.text(), "WGL Context Creation Error ARB");
    assert_eq!(WindowsErrorType::WindowDestructionError.body(), "Failed to destroy the window.");
}

#[test]
fn shader_error_appends_the_driver_log() {
    let e = shader_error("Vertex Shader:\nmain", "0:1 syntax error");
    assert_eq!(e.content, "Vertex Shader:\nmain\nOpenGL Error: 0:1 syntax error");
    assert_eq!(e.kind, WhirlwingErrorKind::ShaderCompilationFailure);
}

#[test]
fn info_log_ends_at_the_first_zero() {
    assert_eq!(info_log_len(b"abc\0\0\0"), 3);
    assert_eq!(info_log_len(b"abc"), 3);
    assert_eq!(info_log_len(b"\0abc"), 0);
    assert_eq!(info_log_len(b""), 0);
}

#[test]
fn error_code_text_with_and_without_a_system_message() {
    assert_eq!(
        Win32ErrorCode(1400).text(Some("Invalid window handle.")),
        "Windows Error Code: 1400\nWindows Error Message: Invalid window handle."
    );
    assert_eq!(Win32ErrorCode(0).text(None), "Windows Error Code: 0\nWindows Error Message is empty.");
    assert_eq!(Win32ErrorCode(u32::MAX).text(None), "Windows Error Code: 4294967295\nWindows Error Message is empty.");
}
