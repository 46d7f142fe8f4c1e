use vstd::prelude::*;
use crate::text::{append_decimal, decimal};

verus! {

/// Kinds of failure of the engine's own work.
#[derive(Debug, Clone, Copy, PartialEq, Eq, Structural)]
pub enum WhirlwingErrorKind {
    ShaderCompilationFailure,
}

impl WhirlwingErrorKind {
    pub open spec fn spec_text(self) -> Seq<char> {
        match self {
            WhirlwingErrorKind::ShaderCompilationFailure => "Shader Compilation Failure"@,
        }
    }

    /// The human-readable name of the kind.
    pub fn text(&self) -> (r: String)
        ensures
            r@ == self.spec_text(),
    {
        match self {
            WhirlwingErrorKind::ShaderCompilationFailure => String::from_str(
                "Shader Compilation Failure",
            ),
        }
    }
}

/// An engine error: what went wrong, its kind, and the rendered text of the
/// lower-level error that caused it, if any.
#[derive(Debug, Clone)]
pub struct WhirlwingError {
    pub content: String,
    pub kind: WhirlwingErrorKind,
    pub source: Option<String>,
}

impl WhirlwingError {
    pub fn new(content: String, kind: WhirlwingErrorKind) -> (r: Self)
        ensures
            r.content@ == content@,
            r.kind == kind,
            r.source is None,
    {
        WhirlwingError { content, kind, source: None }
    }

    pub fn new_with_source(content: String, kind: WhirlwingErrorKind, source: String) -> (r: Self)
        ensures
            r.content@ == content@,
            r.kind == kind,
            r.source == Some(source),
    {
        WhirlwingError { content, kind, source: Some(source) }
    }

    pub open spec fn spec_message(&self) -> Seq<char> {
        let head = "Whirlwing Error: "@ + self.kind.spec_text() + "\nError Content: "@ + self.content@;
        match self.source {
            Some(src) => head + "\nError Source: "@ + src@,
            None => head,
        }
    }

    /// The full report of the error, with its cause where there is one.
    pub fn message(&self) -> (r: String)
        ensures
            r@ == self.spec_message(),
    {
        let mut r = String::from_str("Whirlwing Error: ");
        r.append(self.kind.text().as_str());
        r.append("\nError Content: ");
        r.append(self.content.as_str());
        match &self.source {
            Some(src) => {
                r.append("\nError Source: ");
                r.append(src.as_str());
            },
            None => {},
        }
        r
    }
}


/// The length of the text in a driver's info-log buffer: up to the first
/// zero byte, or the whole buffer where there is none.
pub fn info_log_len(buffer: &[u8]) -> (r: usize)
    ensures
        r <= buffer@.len(),
        forall|i: int| 0 <= i < r ==> buffer@[i] != 0,
        r < buffer@.len() ==> buffer@[r as int] == 0,
{
    let mut i: usize = 0;
    while i < buffer.len()
        invariant
            i <= buffer@.len(),
            forall|j: int| 0 <= j < i ==> buffer@[j] != 0,
        decreases buffer@.len() - i,
    {
        if buffer[i] == 0 {
            return i;
        }
        i = i + 1;
    }
    i
}

/// The error of a shader that failed to compile or link: what was being
/// built, then the driver's log.
pub fn shader_error(context: &str, driver_log: &str) -> (r: WhirlwingError)
    ensures
        r.content@ == context@ + "\nOpenGL Error: "@ + driver_log@,
        r.kind == WhirlwingErrorKind::ShaderCompilationFailure,
        r.source is None,
{
    let mut content = String::from_str(context);
    content.append("\nOpenGL Error: ");
    content.append(driver_log);
    WhirlwingError::new(content, WhirlwingErrorKind::ShaderCompilationFailure)
}

/// Kinds of failure of a native windowing or context call.
#[derive(Debug, Clone, Copy, PartialEq, Eq, Structural)]
pub enum WindowsErrorType {
    ClassRegistrationError,
    WindowCreationError,
    AdjustWindowRectError,
    DeviceContextRetrievalError,
    PixelFormatChooseError,
    PixelFormatSetError,
    WGLContextCreationError,
    WGLContextSelectingError,
    LibraryLoadError,
    CursorLoadError,
    WGLExtensionLoadError,
    WGLChoosePixelFormatError,
    WGLContextCreationErrorARB,
    WGLContextDeletionError,
    WindowDestructionError,
    ClassUnregistrationError,
}

impl WindowsErrorType {
    /// The name of the kind, as shown to a user.
    pub open spec fn spec_text(self) -> Seq<char> {
        match self {
            WindowsErrorType::ClassRegistrationError => "Window Class Registration Error"@,
            WindowsErrorType::WindowCreationError => "Window Creation Error"@,
            WindowsErrorType::AdjustWindowRectError => "Window Size Error"@,
            WindowsErrorType::DeviceContextRetrievalError => "Device Context Retrieval Error"@,
            WindowsErrorType::PixelFormatChooseError => "Pixel Format Choose Error"@,
            WindowsErrorType::PixelFormatSetError => "Pixel Format Set Error"@,
            WindowsErrorType::WGLContextCreationError => "WGL Context Creation Error"@,
            WindowsErrorType::WGLContextSelectingError => "WGL Context Selecting Error"@,
            WindowsErrorType::LibraryLoadError => "Library Load Error"@,
            WindowsErrorType::CursorLoadError => "Cursor Load Error"@,
            WindowsErrorType::WGLExtensionLoadError => "WGL Extension Load Error"@,
            WindowsErrorType::WGLChoosePixelFormatError => "WGL Choose Pixel Format Error"@,
            WindowsErrorType::WGLContextCreationErrorARB => "WGL Context Creation Error ARB"@,
            WindowsErrorType::WGLContextDeletionError => "WGL Context Deletion Error"@,
            WindowsErrorType::WindowDestructionError => "Window Destruction Error"@,
            WindowsErrorType::ClassUnregistrationError => "Class Unregistration Error"@,
        }
    }

    /// The short description of the step that failed.
    pub open spec fn spec_body(self) -> Seq<char> {
        match self {
            WindowsErrorType::ClassRegistrationError => "Failed to register window class."@,
            WindowsErrorType::WindowCreationError => "Failed to create the window."@,
            WindowsErrorType::AdjustWindowRectError => "Failed to adjust window size while creating the window."@,
            WindowsErrorType::DeviceContextRetrievalError => "Failed to get device context for window."@,
            WindowsErrorType::PixelFormatChooseError => "Failed to choose pixel format."@,
            WindowsErrorType::PixelFormatSetError => "Failed to set pixel format."@,
            WindowsErrorType::WGLContextCreationError => "Failed to create wgl context."@,
            WindowsErrorType::WGLContextSelectingError => "Failed to select wgl context."@,
            WindowsErrorType::LibraryLoadError => "Failed to load library."@,
            WindowsErrorType::CursorLoadError => "Failed to load cursor."@,
            WindowsErrorType::WGLExtensionLoadError => "Failed to load wgl extension."@,
            WindowsErrorType::WGLChoosePixelFormatError => "Failed to choose WGL pixel format."@,
            WindowsErrorType::WGLContextCreationErrorARB => "Failed to create WGL ARB context."@,
            WindowsErrorType::WGLContextDeletionError => "Failed to delete wgl context."@,
            WindowsErrorType::WindowDestructionError => "Failed to destroy the window."@,
            WindowsErrorType::ClassUnregistrationError => "Failed to unregister window class."@,
        }
    }

    pub fn text(&self) -> (r: String)
        ensures
            r@ == self.spec_text(),
    {
        match self {
            WindowsErrorType::ClassRegistrationError => String::from_str("Window Class Registration Error"),
            WindowsErrorType::WindowCreationError => String::from_str("Window Creation Error"),
            WindowsErrorType::AdjustWindowRectError => String::from_str("Window Size Error"),
            WindowsErrorType::DeviceContextRetrievalError => String::from_str("Device Context Retrieval Error"),
            WindowsErrorType::PixelFormatChooseError => String::from_str("Pixel Format Choose Error"),
            WindowsErrorType::PixelFormatSetError => String::from_str("Pixel Format Set Error"),
            WindowsErrorType::WGLContextCreationError => String::from_str("WGL Context Creation Error"),
            WindowsErrorType::WGLContextSelectingError => String::from_str("WGL Context Selecting Error"),
            WindowsErrorType::LibraryLoadError => String::from_str("Library Load Error"),
            WindowsErrorType::CursorLoadError => String::from_str("Cursor Load Error"),
            WindowsErrorType::WGLExtensionLoadError => String::from_str("WGL Extension Load Error"),
            WindowsErrorType::WGLChoosePixelFormatError => String::from_str("WGL Choose Pixel Format Error"),
            WindowsErrorType::WGLContextCreationErrorARB => String::from_str("WGL Context Creation Error ARB"),
            WindowsErrorType::WGLContextDeletionError => String::from_str("WGL Context Deletion Error"),
            WindowsErrorType::WindowDestructionError => String::from_str("Window Destruction Error"),
            WindowsErrorType::ClassUnregistrationError => String::from_str("Class Unregistration Error"),
        }
    }

    pub fn body(&self) -> (r: String)
        ensures
            r@ == self.spec_body(),
    {
        match self {
            WindowsErrorType::ClassRegistrationError => String::from_str("Failed to register window class."),
            WindowsErrorType::WindowCreationError => String::from_str("Failed to create the window."),
            WindowsErrorType::AdjustWindowRectError => String::from_str("Failed to adjust window size while creating the window."),
            WindowsErrorType::DeviceContextRetrievalError => String::from_str("Failed to get device context for window."),
            WindowsErrorType::PixelFormatChooseError => String::from_str("Failed to choose pixel format."),
            WindowsErrorType::PixelFormatSetError => String::from_str("Failed to set pixel format."),
            WindowsErrorType::WGLContextCreationError => String::from_str("Failed to create wgl context."),
            WindowsErrorType::WGLContextSelectingError => String::from_str("Failed to select wgl context."),
            WindowsErrorType::LibraryLoadError => String::from_str("Failed to load library."),
            WindowsErrorType::CursorLoadError => String::from_str("Failed to load cursor."),
            WindowsErrorType::WGLExtensionLoadError => String::from_str("Failed to load wgl extension."),
            WindowsErrorType::WGLChoosePixelFormatError => String::from_str("Failed to choose WGL pixel format."),
            WindowsErrorType::WGLContextCreationErrorARB => String::from_str("Failed to create WGL ARB context."),
            WindowsErrorType::WGLContextDeletionError => String::from_str("Failed to delete wgl context."),
            WindowsErrorType::WindowDestructionError => String::from_str("Failed to destroy the window."),
            WindowsErrorType::ClassUnregistrationError => String::from_str("Failed to unregister window class."),
        }
    }
}

/// A native error code, as the operating system reported it.
#[derive(Debug, Clone, Copy, PartialEq, Eq, Structural)]
pub struct Win32ErrorCode(pub u32);

impl Win32ErrorCode {
    pub open spec fn spec_text(&self, system_message: Option<Seq<char>>) -> Seq<char> {
        "Windows Error Code: "@ + decimal(self.0 as nat) + "\n"@ + match system_message {
            Some(m) => "Windows Error Message: "@ + m,
            None => "Windows Error Message is empty."@,
        }
    }

    /// The code and the system's message for it, where the system has one.
    pub fn text(&self, system_message: Option<&str>) -> (r: String)
        ensures
            r@ == self.spec_text(
                match system_message {
                    Some(m) => Some(m@),
                    None => None,
                },
            ),
    {
        let mut r = String::from_str("Windows Error Code: ");
        append_decimal(&mut r, self.0);
        r.append("\n");
        match system_message {
            Some(m) => {
                r.append("Windows Error Message: ");
                r.append(m);
            },
            None => r.append("Windows Error Message is empty."),
        }
        r
    }
}

/// A failed native call: its kind, the operating system's error code when
/// one was available, and a description of the step that failed.
#[derive(Debug, Clone)]
pub struct WindowsError {
    pub err_type: WindowsErrorType,
    pub err_code: Option<Win32ErrorCode>,
    pub err_body: String,
}

impl WindowsError {
    /// The error of a failed step, with the step's own description.
    pub fn from_failure(err_type: WindowsErrorType, err_code: Option<u32>) -> (r: Self)
        ensures
            r.err_type == err_type,
            r.err_code == (match err_code {
                Some(c) => Some(Win32ErrorCode(c)),
                None => None,
            }),
            r.err_body@ == err_type.spec_body(),
    {
        let code = match err_code {
            Some(c) => Some(Win32ErrorCode(c)),
            None => None,
        };
        WindowsError { err_type, err_code: code, err_body: err_type.body() }
    }

    pub open spec fn spec_message(&self, code_text: Seq<char>) -> Seq<char> {
        match self.err_code {
            Some(_) => "Windows Error:\n"@ + code_text + "\nError Type: "@ + self.err_type.spec_text()
                + "\nError Message: "@ + self.err_body@,
            None => "Windows Error!\nError Type: "@ + self.err_type.spec_text()
                + "\nError Message: "@ + self.err_body@,
        }
    }

    /// The full report of the error. `code_text` is the operating system's
    /// rendering of the error code; it is shown only where there is a code.
    pub fn message(&self, code_text: &str) -> (r: String)
        ensures
            r@ == self.spec_message(code_text@),
    {
        match self.err_code {
            Some(_) => {
                let mut r = String::from_str("Windows Error:\n");
                r.append(code_text);
                r.append("\nError Type: ");
                r.append(self.err_type.text().as_str());
                r.append("\nError Message: ");
                r.append(self.err_body.as_str());
                r
            },
            None => {
                let mut r = String::from_str("Windows Error!\nError Type: ");
                r.append(self.err_type.text().as_str());
                r.append("\nError Message: ");
                r.append(self.err_body.as_str());
                r
            },
        }
    }
}

} // verus!
