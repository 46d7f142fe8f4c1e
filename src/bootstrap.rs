use vstd::prelude::*;
use crate::error::{WindowsError, WindowsErrorType};
use crate::window::WindowWin32;

verus! {

/// The two window classes that bring-up registers: the throwaway one, whose
/// window only serves to load the extension entry points, and the real one.
#[derive(Debug, Clone, Copy, PartialEq, Eq, Structural)]
pub enum WindowClass {
    Dummy,
    Real,
}

impl WindowClass {
    pub open spec fn spec_name(self) -> Seq<char> {
        match self {
            WindowClass::Dummy => "Fake window class"@,
            WindowClass::Real => "Whirlwing Window Class"@,
        }
    }

    /// The name under which the class is registered.
    pub fn name(&self) -> (r: &'static str)
        ensures
            r@ == self.spec_name(),
    {
        match self {
            WindowClass::Dummy => "Fake window class",
            WindowClass::Real => "Whirlwing Window Class",
        }
    }
}

/// The two classes are registered under different names, so registering the
/// real one never collides with the throwaway one.
pub proof fn lemma_class_names_differ()
    ensures
        WindowClass::Dummy.spec_name() != WindowClass::Real.spec_name(),
{
    reveal_strlit("Fake window class");
    reveal_strlit("Whirlwing Window Class");
    assert(WindowClass::Dummy.spec_name().len() != WindowClass::Real.spec_name().len());
}

/// A native call that bring-up asks its caller to make. Handles are the
/// native values as integers.
#[derive(Debug, Clone, Copy, PartialEq, Eq, Structural)]
pub enum NativeCall {
    /// Register the class; `cursor` is the class cursor, 0 for none.
    RegisterClass { class: WindowClass, cursor: isize },
    /// Grow a client area of this size to the outer size of a window of the class.
    AdjustWindowRect { class: WindowClass, width: i32, height: i32 },
    /// Create a window of the class at this place and outer size.
    CreateWindow { class: WindowClass, pos_x: i32, pos_y: i32, width: i32, height: i32 },
    GetDeviceContext { window: isize },
    /// Pick a format with the legacy chooser, from the fixed descriptor
    /// (double-buffered RGBA, 32 colour, 24 depth and 8 stencil bits).
    ChoosePixelFormat { dc: isize },
    /// Pick a format with the extended chooser, from `pixel_format_attributes`.
    ChoosePixelFormatExtended { dc: isize },
    SetPixelFormat { dc: isize, format: i32 },
    /// Create a legacy rendering context.
    CreateContext { dc: isize },
    /// Create a rendering context with the extended creator, from `context_attributes`.
    CreateContextExtended { dc: isize },
    MakeCurrent { dc: isize, context: isize },
    /// Leave no context current on the calling thread.
    ReleaseCurrent,
    /// Resolve the GL function table.
    LoadGlFunctions,
    /// Resolve the extended pixel-format chooser and context creator.
    LoadExtensions,
    /// Load the standard arrow cursor.
    LoadCursor,
    ShowWindow { window: isize },
    DeleteContext { context: isize },
    DestroyWindow { window: isize },
    UnregisterClass { class: WindowClass },
}

impl NativeCall {
    pub open spec fn spec_error_type(self) -> WindowsErrorType {
        match self {
            NativeCall::RegisterClass { .. } => WindowsErrorType::ClassRegistrationError,
            NativeCall::AdjustWindowRect { .. } => WindowsErrorType::AdjustWindowRectError,
            NativeCall::CreateWindow { .. } => WindowsErrorType::WindowCreationError,
            NativeCall::GetDeviceContext { .. } => WindowsErrorType::DeviceContextRetrievalError,
            NativeCall::ChoosePixelFormat { .. } => WindowsErrorType::PixelFormatChooseError,
            NativeCall::ChoosePixelFormatExtended { .. } => WindowsErrorType::WGLChoosePixelFormatError,
            NativeCall::SetPixelFormat { .. } => WindowsErrorType::PixelFormatSetError,
            NativeCall::CreateContext { .. } => WindowsErrorType::WGLContextCreationError,
            NativeCall::CreateContextExtended { .. } => WindowsErrorType::WGLContextCreationErrorARB,
            NativeCall::MakeCurrent { .. } => WindowsErrorType::WGLContextSelectingError,
            NativeCall::ReleaseCurrent => WindowsErrorType::WGLContextSelectingError,
            NativeCall::LoadGlFunctions => WindowsErrorType::LibraryLoadError,
            NativeCall::LoadExtensions => WindowsErrorType::WGLExtensionLoadError,
            NativeCall::LoadCursor => WindowsErrorType::CursorLoadError,
            NativeCall::ShowWindow { .. } => WindowsErrorType::WindowCreationError,
            NativeCall::DeleteContext { .. } => WindowsErrorType::WGLContextDeletionError,
            NativeCall::DestroyWindow { .. } => WindowsErrorType::WindowDestructionError,
            NativeCall::UnregisterClass { .. } => WindowsErrorType::ClassUnregistrationError,
        }
    }

    /// The kind of error that the call gives when it fails.
    pub fn error_type(&self) -> (r: WindowsErrorType)
        ensures
            r == self.spec_error_type(),
    {
        match self {
            NativeCall::RegisterClass { .. } => WindowsErrorType::ClassRegistrationError,
            NativeCall::AdjustWindowRect { .. } => WindowsErrorType::AdjustWindowRectError,
            NativeCall::CreateWindow { .. } => WindowsErrorType::WindowCreationError,
            NativeCall::GetDeviceContext { .. } => WindowsErrorType::DeviceContextRetrievalError,
            NativeCall::ChoosePixelFormat { .. } => WindowsErrorType::PixelFormatChooseError,
            NativeCall::ChoosePixelFormatExtended { .. } => WindowsErrorType::WGLChoosePixelFormatError,
            NativeCall::SetPixelFormat { .. } => WindowsErrorType::PixelFormatSetError,
            NativeCall::CreateContext { .. } => WindowsErrorType::WGLContextCreationError,
            NativeCall::CreateContextExtended { .. } => WindowsErrorType::WGLContextCreationErrorARB,
            NativeCall::MakeCurrent { .. } => WindowsErrorType::WGLContextSelectingError,
            NativeCall::ReleaseCurrent => WindowsErrorType::WGLContextSelectingError,
            NativeCall::LoadGlFunctions => WindowsErrorType::LibraryLoadError,
            NativeCall::LoadExtensions => WindowsErrorType::WGLExtensionLoadError,
            NativeCall::LoadCursor => WindowsErrorType::CursorLoadError,
            NativeCall::ShowWindow { .. } => WindowsErrorType::WindowCreationError,
            NativeCall::DeleteContext { .. } => WindowsErrorType::WGLContextDeletionError,
            NativeCall::DestroyWindow { .. } => WindowsErrorType::WindowDestructionError,
            NativeCall::UnregisterClass { .. } => WindowsErrorType::ClassUnregistrationError,
        }
    }

    /// The error of the call that came out as `o`, if `o` is a failure.
    pub fn failure(&self, o: Outcome) -> (r: Option<WindowsError>)
        ensures
            (r is Some) == (o is Failed),
            r is Some ==> r->0.err_type == self.spec_error_type() && r->0.err_code == error_code_of(
                code_of(o),
            ) && r->0.err_body@ == self.spec_error_type().spec_body(),
    {
        match o {
            Outcome::Failed(code) => Some(WindowsError::from_failure(self.error_type(), code)),
            _ => None,
        }
    }
}

/// A step that fails on a reported failure fails with the kind of error of
/// its call.
pub proof fn lemma_failure_kind_is_the_calls(s: BootState, code: Option<u32>)
    requires
        wf(s),
        is_step(s.stage),
        s.stage != Stage::ShowRealWindow,
    ensures
        next_state(s, Outcome::Failed(code)).failure == Some(
            Failure { err_type: step_call(s).spec_error_type(), err_code: code },
        ),
{
}

/// What came of a native call.
#[derive(Debug, Clone, Copy, PartialEq, Eq, Structural)]
pub enum Outcome {
    /// It succeeded and returned nothing that bring-up needs.
    Done,
    /// It returned this handle (0 is the null handle).
    Handle(isize),
    /// A chooser returned this format index, out of `count` matching formats.
    Chosen { index: i32, count: u32 },
    /// The size adjustment gave this outer size.
    Size { width: i32, height: i32 },
    /// It failed, with the operating system's error code where there was one.
    Failed(Option<u32>),
}

/// What bring-up holds at a moment.
#[derive(Debug, Clone, Copy, PartialEq, Eq, Structural)]
pub struct Resources {
    pub dummy_class: bool,
    pub dummy_window: Option<isize>,
    pub dummy_dc: Option<isize>,
    pub dummy_context: Option<isize>,
    pub real_class: bool,
    pub real_window: Option<isize>,
    pub real_dc: Option<isize>,
    pub real_context: Option<isize>,
    /// The context current on the calling thread.
    pub current: Option<isize>,
}

pub open spec fn holds_nothing(r: Resources) -> bool {
    &&& !r.dummy_class
    &&& r.dummy_window is None
    &&& r.dummy_dc is None
    &&& r.dummy_context is None
    &&& !r.real_class
    &&& r.real_window is None
    &&& r.real_dc is None
    &&& r.real_context is None
    &&& r.current is None
}

pub open spec fn holds_no_dummy(r: Resources) -> bool {
    &&& !r.dummy_class
    &&& r.dummy_window is None
    &&& r.dummy_dc is None
    &&& r.dummy_context is None
}

/// A device context is held only with its window.
pub open spec fn consistent(r: Resources) -> bool {
    &&& (r.dummy_dc is Some ==> r.dummy_window is Some)
    &&& (r.real_dc is Some ==> r.real_window is Some)
}

pub open spec fn live_dc(r: Resources, dc: isize) -> bool {
    r.dummy_dc == Some(dc) || r.real_dc == Some(dc)
}

pub open spec fn live_window(r: Resources, w: isize) -> bool {
    r.dummy_window == Some(w) || r.real_window == Some(w)
}

pub open spec fn class_registered(r: Resources, c: WindowClass) -> bool {
    match c {
        WindowClass::Dummy => r.dummy_class,
        WindowClass::Real => r.real_class,
    }
}

/// The native rules that a call must respect with `r` held: handles are
/// used only while alive, a context is never deleted while current, a window
/// is destroyed only once its context is gone, and a class is unregistered
/// only once its window is gone.
pub open spec fn permitted(r: Resources, c: NativeCall) -> bool {
    match c {
        NativeCall::RegisterClass { class, .. } => !class_registered(r, class),
        NativeCall::AdjustWindowRect { .. } => true,
        NativeCall::CreateWindow { class, .. } => class_registered(r, class),
        NativeCall::GetDeviceContext { window } => live_window(r, window),
        NativeCall::ChoosePixelFormat { dc } => live_dc(r, dc),
        NativeCall::ChoosePixelFormatExtended { dc } => live_dc(r, dc),
        NativeCall::SetPixelFormat { dc, .. } => live_dc(r, dc),
        NativeCall::CreateContext { dc } => live_dc(r, dc),
        NativeCall::CreateContextExtended { dc } => live_dc(r, dc),
        NativeCall::MakeCurrent { dc, context } => (r.dummy_dc == Some(dc) && r.dummy_context
            == Some(context)) || (r.real_dc == Some(dc) && r.real_context == Some(context)),
        NativeCall::ReleaseCurrent => r.current is Some,
        NativeCall::LoadGlFunctions => r.current is Some,
        NativeCall::LoadExtensions => r.current is Some,
        NativeCall::LoadCursor => true,
        NativeCall::ShowWindow { window } => live_window(r, window),
        NativeCall::DeleteContext { context } => (r.dummy_context == Some(context)
            || r.real_context == Some(context)) && r.current != Some(context),
        NativeCall::DestroyWindow { window } => (r.dummy_window == Some(window)
            && r.dummy_context is None) || (r.real_window == Some(window) && r.real_context is None),
        NativeCall::UnregisterClass { class } => match class {
            WindowClass::Dummy => r.dummy_class && r.dummy_window is None,
            WindowClass::Real => r.real_class && r.real_window is None,
        },
    }
}

/// What a successful release or binding call changes in what is held.
pub open spec fn effect(r: Resources, c: NativeCall) -> Resources {
    match c {
        NativeCall::MakeCurrent { context, .. } => Resources { current: Some(context), ..r },
        NativeCall::ReleaseCurrent => Resources { current: None, ..r },
        NativeCall::DeleteContext { context } => if r.real_context == Some(context) {
            Resources { real_context: None, ..r }
        } else if r.dummy_context == Some(context) {
            Resources { dummy_context: None, ..r }
        } else {
            r
        },
        NativeCall::DestroyWindow { window } => if r.real_window == Some(window) {
            Resources { real_window: None, real_dc: None, ..r }
        } else if r.dummy_window == Some(window) {
            Resources { dummy_window: None, dummy_dc: None, ..r }
        } else {
            r
        },
        NativeCall::UnregisterClass { class } => match class {
            WindowClass::Dummy => Resources { dummy_class: false, ..r },
            WindowClass::Real => Resources { real_class: false, ..r },
        },
        _ => r,
    }
}

/// Each call of `calls`, made in order from `r`, respects the native rules.
pub open spec fn runs_clean(r: Resources, calls: Seq<NativeCall>) -> bool
    decreases calls.len(),
{
    if calls.len() == 0 {
        true
    } else {
        permitted(r, calls[0]) && runs_clean(effect(r, calls[0]), calls.drop_first())
    }
}

pub open spec fn after_calls(r: Resources, calls: Seq<NativeCall>) -> Resources
    decreases calls.len(),
{
    if calls.len() == 0 {
        r
    } else {
        after_calls(effect(r, calls[0]), calls.drop_first())
    }
}

/// The next resource to give back when bring-up fails, latest first.
pub open spec fn first_held(r: Resources) -> Option<NativeCall> {
    if r.current is Some {
        Some(NativeCall::ReleaseCurrent)
    } else if r.real_context is Some {
        Some(NativeCall::DeleteContext { context: r.real_context->0 })
    } else if r.real_window is Some {
        Some(NativeCall::DestroyWindow { window: r.real_window->0 })
    } else if r.real_class {
        Some(NativeCall::UnregisterClass { class: WindowClass::Real })
    } else if r.dummy_context is Some {
        Some(NativeCall::DeleteContext { context: r.dummy_context->0 })
    } else if r.dummy_window is Some {
        Some(NativeCall::DestroyWindow { window: r.dummy_window->0 })
    } else if r.dummy_class {
        Some(NativeCall::UnregisterClass { class: WindowClass::Dummy })
    } else {
        None
    }
}

/// What is held once the resource that `first_held` names is given back.
pub open spec fn release(r: Resources) -> Resources {
    if r.current is Some {
        Resources { current: None, ..r }
    } else if r.real_context is Some {
        Resources { real_context: None, ..r }
    } else if r.real_window is Some {
        Resources { real_window: None, real_dc: None, ..r }
    } else if r.real_class {
        Resources { real_class: false, ..r }
    } else if r.dummy_context is Some {
        Resources { dummy_context: None, ..r }
    } else if r.dummy_window is Some {
        Resources { dummy_window: None, dummy_dc: None, ..r }
    } else {
        Resources { dummy_class: false, ..r }
    }
}

pub open spec fn held_count(r: Resources) -> nat {
    (if r.dummy_class { 1nat } else { 0nat }) + (if r.dummy_window is Some { 1nat } else { 0nat })
        + (if r.dummy_context is Some { 1nat } else { 0nat }) + (if r.real_class { 1nat } else { 0nat })
        + (if r.real_window is Some { 1nat } else { 0nat }) + (if r.real_context is Some { 1nat } else { 0nat })
        + (if r.current is Some { 1nat } else { 0nat })
}

/// The steps of bring-up, in order, then the two ends.
#[derive(Debug, Clone, Copy, PartialEq, Eq, Structural)]
pub enum Stage {
    RegisterDummyClass,
    AdjustDummyRect,
    CreateDummyWindow,
    GetDummyDc,
    ChooseDummyFormat,
    SetDummyFormat,
    CreateDummyContext,
    MakeDummyCurrent,
    LoadGlFunctions,
    LoadExtensions,
    LoadCursor,
    RegisterRealClass,
    AdjustRealRect,
    CreateRealWindow,
    GetRealDc,
    ChooseRealFormat,
    SetRealFormat,
    CreateRealContext,
    ReleaseDummy,
    DeleteDummyContext,
    DestroyDummyWindow,
    UnregisterDummyClass,
    MakeRealCurrent,
    ShowRealWindow,
    /// Bring-up succeeded.
    Ready,
    /// A step failed; what is held is being given back.
    Unwinding,
    /// A step failed and everything has been given back.
    Aborted,
}

/// The place of a step in the order of bring-up; the ends come after it.
pub open spec fn ord(s: Stage) -> int {
    match s {
        Stage::RegisterDummyClass => 0,
        Stage::AdjustDummyRect => 1,
        Stage::CreateDummyWindow => 2,
        Stage::GetDummyDc => 3,
        Stage::ChooseDummyFormat => 4,
        Stage::SetDummyFormat => 5,
        Stage::CreateDummyContext => 6,
        Stage::MakeDummyCurrent => 7,
        Stage::LoadGlFunctions => 8,
        Stage::LoadExtensions => 9,
        Stage::LoadCursor => 10,
        Stage::RegisterRealClass => 11,
        Stage::AdjustRealRect => 12,
        Stage::CreateRealWindow => 13,
        Stage::GetRealDc => 14,
        Stage::ChooseRealFormat => 15,
        Stage::SetRealFormat => 16,
        Stage::CreateRealContext => 17,
        Stage::ReleaseDummy => 18,
        Stage::DeleteDummyContext => 19,
        Stage::DestroyDummyWindow => 20,
        Stage::UnregisterDummyClass => 21,
        Stage::MakeRealCurrent => 22,
        Stage::ShowRealWindow => 23,
        Stage::Ready => 24,
        Stage::Unwinding => 25,
        Stage::Aborted => 26,
    }
}

pub open spec fn is_step(s: Stage) -> bool {
    ord(s) <= 23
}

/// Why bring-up failed.
#[derive(Debug, Clone, Copy, PartialEq, Eq, Structural)]
pub struct Failure {
    pub err_type: WindowsErrorType,
    pub err_code: Option<u32>,
}

/// Where and how large the real window is to be.
#[derive(Debug, Clone, Copy, PartialEq, Eq, Structural)]
pub struct Placement {
    pub pos_x: i32,
    pub pos_y: i32,
    pub width: i32,
    pub height: i32,
}

/// The state of bring-up: its step, what it holds, the values that later
/// steps use, and the failure once there is one.
#[derive(Debug, Clone, Copy, PartialEq, Eq, Structural)]
pub struct BootState {
    pub stage: Stage,
    pub resources: Resources,
    pub placement: Placement,
    /// The outer size that the last adjustment gave.
    pub outer_width: i32,
    pub outer_height: i32,
    /// The format that the last chooser picked.
    pub format: i32,
    pub cursor: isize,
    /// Whether the process already holds the GL function table and the
    /// extension entry points, so that no throwaway window is made.
    pub reuse: bool,
    pub failure: Option<Failure>,
}

/// What is held before each step, as a function of its place in the order.
/// Reusing what an earlier bring-up resolved, the steps of the throwaway
/// window are skipped and nothing of it is ever held.
pub open spec fn wf(s: BootState) -> bool {
    let r = s.resources;
    let k = ord(s.stage);
    if k <= 24 {
        &&& r.real_class == (12 <= k)
        &&& (r.real_window is Some) == (14 <= k)
        &&& (r.real_dc is Some) == (15 <= k)
        &&& (r.real_context is Some) == (18 <= k)
        &&& (23 <= k ==> r.current == r.real_context)
        &&& s.failure is None
        &&& if s.reuse {
            &&& 10 <= k
            &&& !(18 <= k <= 21)
            &&& holds_no_dummy(r)
            &&& (k <= 22 ==> r.current is None)
        } else {
            &&& r.dummy_class == (1 <= k <= 21)
            &&& (r.dummy_window is Some) == (3 <= k <= 20)
            &&& (r.dummy_dc is Some) == (4 <= k <= 20)
            &&& (r.dummy_context is Some) == (7 <= k <= 19)
            &&& (8 <= k <= 18 ==> r.current == r.dummy_context)
            &&& (k < 8 || 19 <= k <= 22 ==> r.current is None)
        }
    } else {
        &&& s.failure is Some
        &&& consistent(r)
        &&& (s.stage == Stage::Aborted ==> holds_nothing(r))
        &&& (s.stage == Stage::Unwinding ==> first_held(r) is Some)
    }
}

pub open spec fn handle_of(o: Outcome) -> Option<isize> {
    match o {
        Outcome::Handle(h) => if h != 0 { Some(h) } else { None },
        _ => None,
    }
}

pub open spec fn code_of(o: Outcome) -> Option<u32> {
    match o {
        Outcome::Failed(c) => c,
        _ => None,
    }
}

pub open spec fn fail(s: BootState, k: WindowsErrorType, o: Outcome) -> BootState {
    BootState {
        stage: Stage::Unwinding,
        failure: Some(Failure { err_type: k, err_code: code_of(o) }),
        ..s
    }
}

/// The state after the call of step `s.stage` came out as `o`.
pub open spec fn absorb(s: BootState, o: Outcome) -> BootState {
    let r = s.resources;
    match s.stage {
        Stage::RegisterDummyClass => if !(o is Failed) {
            BootState { stage: Stage::AdjustDummyRect, resources: Resources { dummy_class: true, ..r }, ..s }
        } else {
            fail(s, WindowsErrorType::ClassRegistrationError, o)
        },
        Stage::AdjustDummyRect => match o {
            Outcome::Size { width, height } => BootState {
                stage: Stage::CreateDummyWindow,
                outer_width: width,
                outer_height: height,
                ..s
            },
            _ => fail(s, WindowsErrorType::AdjustWindowRectError, o),
        },
        Stage::CreateDummyWindow => match handle_of(o) {
            Some(h) => BootState { stage: Stage::GetDummyDc, resources: Resources { dummy_window: Some(h), ..r }, ..s },
            None => fail(s, WindowsErrorType::WindowCreationError, o),
        },
        Stage::GetDummyDc => match handle_of(o) {
            Some(h) => BootState { stage: Stage::ChooseDummyFormat, resources: Resources { dummy_dc: Some(h), ..r }, ..s },
            None => fail(s, WindowsErrorType::DeviceContextRetrievalError, o),
        },
        Stage::ChooseDummyFormat => match o {
            Outcome::Chosen { index, count } => if count == 1 {
                BootState { stage: Stage::SetDummyFormat, format: index, ..s }
            } else {
                fail(s, WindowsErrorType::PixelFormatChooseError, o)
            },
            _ => fail(s, WindowsErrorType::PixelFormatChooseError, o),
        },
        Stage::SetDummyFormat => if !(o is Failed) {
            BootState { stage: Stage::CreateDummyContext, ..s }
        } else {
            fail(s, WindowsErrorType::PixelFormatSetError, o)
        },
        Stage::CreateDummyContext => match handle_of(o) {
            Some(h) => BootState { stage: Stage::MakeDummyCurrent, resources: Resources { dummy_context: Some(h), ..r }, ..s },
            None => fail(s, WindowsErrorType::WGLContextCreationError, o),
        },
        Stage::MakeDummyCurrent => if !(o is Failed) {
            BootState { stage: Stage::LoadGlFunctions, resources: Resources { current: r.dummy_context, ..r }, ..s }
        } else {
            fail(s, WindowsErrorType::WGLContextSelectingError, o)
        },
        Stage::LoadGlFunctions => if !(o is Failed) {
            BootState { stage: Stage::LoadExtensions, ..s }
        } else {
            fail(s, WindowsErrorType::LibraryLoadError, o)
        },
        Stage::LoadExtensions => if !(o is Failed) {
            BootState { stage: Stage::LoadCursor, ..s }
        } else {
            fail(s, WindowsErrorType::WGLExtensionLoadError, o)
        },
        Stage::LoadCursor => match handle_of(o) {
            Some(h) => BootState { stage: Stage::RegisterRealClass, cursor: h, ..s },
            None => fail(s, WindowsErrorType::CursorLoadError, o),
        },
        Stage::RegisterRealClass => if !(o is Failed) {
            BootState { stage: Stage::AdjustRealRect, resources: Resources { real_class: true, ..r }, ..s }
        } else {
            fail(s, WindowsErrorType::ClassRegistrationError, o)
        },
        Stage::AdjustRealRect => match o {
            Outcome::Size { width, height } => BootState {
                stage: Stage::CreateRealWindow,
                outer_width: width,
                outer_height: height,
                ..s
            },
            _ => fail(s, WindowsErrorType::AdjustWindowRectError, o),
        },
        Stage::CreateRealWindow => match handle_of(o) {
            Some(h) => BootState { stage: Stage::GetRealDc, resources: Resources { real_window: Some(h), ..r }, ..s },
            None => fail(s, WindowsErrorType::WindowCreationError, o),
        },
        Stage::GetRealDc => match handle_of(o) {
            Some(h) => BootState { stage: Stage::ChooseRealFormat, resources: Resources { real_dc: Some(h), ..r }, ..s },
            None => fail(s, WindowsErrorType::DeviceContextRetrievalError, o),
        },
        Stage::ChooseRealFormat => match o {
            Outcome::Chosen { index, count } => if count == 1 {
                BootState { stage: Stage::SetRealFormat, format: index, ..s }
            } else {
                fail(s, WindowsErrorType::PixelFormatChooseError, o)
            },
            Outcome::Failed(_) => fail(s, WindowsErrorType::WGLChoosePixelFormatError, o),
            _ => fail(s, WindowsErrorType::PixelFormatChooseError, o),
        },
        Stage::SetRealFormat => if !(o is Failed) {
            BootState { stage: Stage::CreateRealContext, ..s }
        } else {
            fail(s, WindowsErrorType::PixelFormatSetError, o)
        },
        Stage::CreateRealContext => match handle_of(o) {
            Some(h) => BootState {
                stage: if s.reuse {
                    Stage::MakeRealCurrent
                } else {
                    Stage::ReleaseDummy
                },
                resources: Resources { real_context: Some(h), ..r },
                ..s
            },
            None => fail(s, WindowsErrorType::WGLContextCreationErrorARB, o),
        },
        Stage::ReleaseDummy => if !(o is Failed) {
            BootState { stage: Stage::DeleteDummyContext, resources: Resources { current: None, ..r }, ..s }
        } else {
            fail(s, WindowsErrorType::WGLContextSelectingError, o)
        },
        Stage::DeleteDummyContext => if !(o is Failed) {
            BootState { stage: Stage::DestroyDummyWindow, resources: Resources { dummy_context: None, ..r }, ..s }
        } else {
            fail(s, WindowsErrorType::WGLContextDeletionError, o)
        },
        Stage::DestroyDummyWindow => if !(o is Failed) {
            BootState {
                stage: Stage::UnregisterDummyClass,
                resources: Resources { dummy_window: None, dummy_dc: None, ..r },
                ..s
            }
        } else {
            fail(s, WindowsErrorType::WindowDestructionError, o)
        },
        Stage::UnregisterDummyClass => if !(o is Failed) {
            BootState { stage: Stage::MakeRealCurrent, resources: Resources { dummy_class: false, ..r }, ..s }
        } else {
            fail(s, WindowsErrorType::ClassUnregistrationError, o)
        },
        Stage::MakeRealCurrent => if !(o is Failed) {
            BootState { stage: Stage::ShowRealWindow, resources: Resources { current: r.real_context, ..r }, ..s }
        } else {
            fail(s, WindowsErrorType::WGLContextSelectingError, o)
        },
        // Showing a window reports whether it was visible before, not a failure.
        Stage::ShowRealWindow => BootState { stage: Stage::Ready, ..s },
        _ => s,
    }
}

/// A failed bring-up that holds nothing more has ended.
pub open spec fn settle(s: BootState) -> BootState {
    if s.stage == Stage::Unwinding && first_held(s.resources) is None {
        BootState { stage: Stage::Aborted, ..s }
    } else {
        s
    }
}

/// The state after the pending call came out as `o`. While unwinding, the
/// resource that was being given back counts as given back whatever came of
/// it: there is nothing better to do with it.
pub open spec fn next_state(s: BootState, o: Outcome) -> BootState {
    match s.stage {
        Stage::Ready | Stage::Aborted => s,
        Stage::Unwinding => settle(BootState { resources: release(s.resources), ..s }),
        _ => settle(absorb(s, o)),
    }
}

/// The call that a step makes.
pub open spec fn step_call(s: BootState) -> NativeCall {
    let r = s.resources;
    match s.stage {
        Stage::RegisterDummyClass => NativeCall::RegisterClass { class: WindowClass::Dummy, cursor: 0 },
        Stage::AdjustDummyRect => NativeCall::AdjustWindowRect {
            class: WindowClass::Dummy,
            width: DUMMY_SIZE,
            height: DUMMY_SIZE,
        },
        Stage::CreateDummyWindow => NativeCall::CreateWindow {
            class: WindowClass::Dummy,
            pos_x: 0,
            pos_y: 0,
            width: s.outer_width,
            height: s.outer_height,
        },
        Stage::GetDummyDc => NativeCall::GetDeviceContext { window: r.dummy_window->0 },
        Stage::ChooseDummyFormat => NativeCall::ChoosePixelFormat { dc: r.dummy_dc->0 },
        Stage::SetDummyFormat => NativeCall::SetPixelFormat { dc: r.dummy_dc->0, format: s.format },
        Stage::CreateDummyContext => NativeCall::CreateContext { dc: r.dummy_dc->0 },
        Stage::MakeDummyCurrent => NativeCall::MakeCurrent { dc: r.dummy_dc->0, context: r.dummy_context->0 },
        Stage::LoadGlFunctions => NativeCall::LoadGlFunctions,
        Stage::LoadExtensions => NativeCall::LoadExtensions,
        Stage::LoadCursor => NativeCall::LoadCursor,
        Stage::RegisterRealClass => NativeCall::RegisterClass { class: WindowClass::Real, cursor: s.cursor },
        Stage::AdjustRealRect => NativeCall::AdjustWindowRect {
            class: WindowClass::Real,
            width: s.placement.width,
            height: s.placement.height,
        },
        Stage::CreateRealWindow => NativeCall::CreateWindow {
            class: WindowClass::Real,
            pos_x: s.placement.pos_x,
            pos_y: s.placement.pos_y,
            width: s.outer_width,
            height: s.outer_height,
        },
        Stage::GetRealDc => NativeCall::GetDeviceContext { window: r.real_window->0 },
        Stage::ChooseRealFormat => NativeCall::ChoosePixelFormatExtended { dc: r.real_dc->0 },
        Stage::SetRealFormat => NativeCall::SetPixelFormat { dc: r.real_dc->0, format: s.format },
        Stage::CreateRealContext => NativeCall::CreateContextExtended { dc: r.real_dc->0 },
        Stage::ReleaseDummy => NativeCall::ReleaseCurrent,
        Stage::DeleteDummyContext => NativeCall::DeleteContext { context: r.dummy_context->0 },
        Stage::DestroyDummyWindow => NativeCall::DestroyWindow { window: r.dummy_window->0 },
        Stage::UnregisterDummyClass => NativeCall::UnregisterClass { class: WindowClass::Dummy },
        Stage::MakeRealCurrent => NativeCall::MakeCurrent { dc: r.real_dc->0, context: r.real_context->0 },
        _ => NativeCall::ShowWindow { window: r.real_window->0 },
    }
}

/// The call that a state waits on, if any.
pub open spec fn pending_call(s: BootState) -> Option<NativeCall> {
    if is_step(s.stage) {
        Some(step_call(s))
    } else if s.stage == Stage::Unwinding {
        first_held(s.resources)
    } else {
        None
    }
}


/// What bring-up asks for next: a native call, or the end.
#[derive(Debug)]
pub enum Step {
    /// Make this call and hand its outcome to `Bootstrap::resume`.
    Call(NativeCall),
    /// Bring-up succeeded: the real window, its context current.
    Ready(WindowWin32),
    /// Bring-up failed, and everything it had taken has been given back.
    Aborted(WindowsError),
}

pub open spec fn error_code_of(c: Option<u32>) -> Option<crate::error::Win32ErrorCode> {
    match c {
        Some(v) => Some(crate::error::Win32ErrorCode(v)),
        None => None,
    }
}

/// What `r` says of the state `s` it was computed for: the pending call
/// (one that the native rules permit), the finished window, or the failure.
pub open spec fn step_reports(r: Step, s: BootState) -> bool {
    match r {
        Step::Call(c) => pending_call(s) == Some(c) && permitted(s.resources, c),
        Step::Ready(w) => {
            &&& s.stage == Stage::Ready
            &&& s.resources == w.held(Some(w.rendering_context))
            &&& w.pos_x == s.placement.pos_x
            &&& w.pos_y == s.placement.pos_y
            &&& w.width == s.placement.width
            &&& w.height == s.placement.height
        },
        Step::Aborted(e) => {
            &&& s.stage == Stage::Aborted
            &&& e.err_type == s.failure->0.err_type
            &&& e.err_code == error_code_of(s.failure->0.err_code)
            &&& e.err_body@ == e.err_type.spec_body()
        },
    }
}

pub open spec fn initial_state(p: Placement, reuse: bool) -> BootState {
    BootState {
        stage: if reuse {
            Stage::LoadCursor
        } else {
            Stage::RegisterDummyClass
        },
        resources: Resources {
            dummy_class: false,
            dummy_window: None,
            dummy_dc: None,
            dummy_context: None,
            real_class: false,
            real_window: None,
            real_dc: None,
            real_context: None,
            current: None,
        },
        placement: p,
        outer_width: 0,
        outer_height: 0,
        format: 0,
        cursor: 0,
        reuse,
        failure: None,
    }
}

/// From any well-formed state that is not an end, the next state is
/// well-formed, and the call it waits on respects the native rules.
pub proof fn lemma_step_preserves(s: BootState, o: Outcome)
    requires
        wf(s),
        s.stage != Stage::Ready,
        s.stage != Stage::Aborted,
    ensures
        wf(next_state(s, o)),
        pending_call(next_state(s, o)) is Some ==> permitted(
            next_state(s, o).resources,
            pending_call(next_state(s, o))->0,
        ),
{
    let t = next_state(s, o);
    if s.stage == Stage::Unwinding {
        lemma_release_shrinks(s.resources);
    }
    if is_step(t.stage) {
        lemma_step_call_permitted(t);
    }
    if t.stage == Stage::Unwinding {
        lemma_first_held_permitted(t.resources);
    }
}

/// The call of a step respects the native rules.
pub proof fn lemma_step_call_permitted(s: BootState)
    requires
        wf(s),
        is_step(s.stage),
    ensures
        permitted(s.resources, step_call(s)),
{
}

/// Giving back what is held, latest first, respects the native rules.
pub proof fn lemma_first_held_permitted(r: Resources)
    requires
        first_held(r) is Some,
    ensures
        permitted(r, first_held(r)->0),
{
}

pub proof fn lemma_release_shrinks(r: Resources)
    requires
        first_held(r) is Some,
        consistent(r),
    ensures
        consistent(release(r)),
        held_count(release(r)) < held_count(r),
        (first_held(release(r)) is None) == holds_nothing(release(r)),
{
}


/// The state after the outcomes `os`, one per pending call, in order.
pub open spec fn run(s: BootState, os: Seq<Outcome>) -> BootState
    decreases os.len(),
{
    if os.len() == 0 {
        s
    } else {
        run(next_state(s, os[0]), os.drop_first())
    }
}

pub proof fn lemma_held_count_bound(r: Resources)
    ensures
        held_count(r) <= 7,
        first_held(r) is Some ==> held_count(r) >= 1,
{
}

/// A failed bring-up gives back one resource per call, whatever each call
/// reports, and so ends, holding nothing, with the failure it first met.
pub proof fn lemma_unwinding_ends(s: BootState, os: Seq<Outcome>)
    requires
        wf(s),
        s.stage == Stage::Unwinding || s.stage == Stage::Aborted,
        os.len() >= held_count(s.resources),
    ensures
        run(s, os).stage == Stage::Aborted,
        run(s, os).failure == s.failure,
        holds_nothing(run(s, os).resources),
    decreases os.len(),
{
    lemma_held_count_bound(s.resources);
    if os.len() == 0 {
        assert(s.stage == Stage::Aborted);
    } else {
        let t = next_state(s, os[0]);
        if s.stage == Stage::Unwinding {
            lemma_step_preserves(s, os[0]);
            lemma_release_shrinks(s.resources);
        }
        lemma_unwinding_ends(t, os.drop_first());
    }
}

/// When the extended chooser finds no format that matches the request,
/// bring-up fails with `PixelFormatChooseError`, and once it has been handed
/// enough outcomes (seven, whatever they are) it has ended holding nothing.
pub proof fn lemma_no_matching_format(s: BootState, index: i32, os: Seq<Outcome>)
    requires
        wf(s),
        s.stage == Stage::ChooseRealFormat,
        os.len() >= 7,
    ensures
        next_state(s, Outcome::Chosen { index, count: 0 }).failure == Some(
            Failure { err_type: WindowsErrorType::PixelFormatChooseError, err_code: None },
        ),
        run(s, seq![Outcome::Chosen { index, count: 0 }] + os).stage == Stage::Aborted,
        run(s, seq![Outcome::Chosen { index, count: 0 }] + os).failure == Some(
            Failure { err_type: WindowsErrorType::PixelFormatChooseError, err_code: None },
        ),
        holds_nothing(run(s, seq![Outcome::Chosen { index, count: 0 }] + os).resources),
{
    let o = Outcome::Chosen { index, count: 0 };
    let all = seq![o] + os;
    let t = next_state(s, o);
    lemma_step_preserves(s, o);
    lemma_held_count_bound(t.resources);
    assert(all[0] == o);
    assert(all.drop_first() =~= os);
    lemma_unwinding_ends(t, os);
}

/// A context is never deleted while current: whenever bring-up asks for a
/// context to be deleted, no context, and so not that one, is current.
pub proof fn lemma_context_released_before_delete(s: BootState, o: Outcome, c: isize)
    requires
        wf(s),
        s.stage != Stage::Ready,
        s.stage != Stage::Aborted,
        pending_call(next_state(s, o)) == Some(NativeCall::DeleteContext { context: c }),
    ensures
        next_state(s, o).resources.current != Some(c),
{
    lemma_step_preserves(s, o);
}

/// Once bring-up is ready, nothing of the throwaway window is held, its
/// class is unregistered, the real context is current, and the real window's
/// class has another name than the throwaway one.
pub proof fn lemma_ready_leaves_no_dummy(s: BootState, o: Outcome)
    requires
        wf(s),
        s.stage != Stage::Ready,
        s.stage != Stage::Aborted,
        next_state(s, o).stage == Stage::Ready,
    ensures
        holds_no_dummy(next_state(s, o).resources),
        next_state(s, o).resources.real_window is Some,
        next_state(s, o).resources.real_context is Some,
        next_state(s, o).resources.current == next_state(s, o).resources.real_context,
        WindowClass::Dummy.spec_name() != WindowClass::Real.spec_name(),
{
    lemma_step_preserves(s, o);
    lemma_class_names_differ();
}

/// Bring-up of one window, driven by its caller: `pending` names the call to
/// make, `resume` takes its outcome and names the next.
#[derive(Debug)]
pub struct Bootstrap {
    pub state: BootState,
    pub title: String,
}

impl Bootstrap {
    /// Bring-up of a window with this title, position and client size.
    pub fn new(title: &str, pos_x: i32, pos_y: i32, width: i32, height: i32) -> (r: Self)
        ensures
            r.state == initial_state(Placement { pos_x, pos_y, width, height }, false),
            r.title@ == title@,
            wf(r.state),
    {
        Bootstrap::start(title, Placement { pos_x, pos_y, width, height }, false)
    }

    /// Bring-up of a window in a process where an earlier bring-up has
    /// already resolved the GL function table and the extension entry
    /// points: no throwaway window is made.
    pub fn reusing_extensions(title: &str, pos_x: i32, pos_y: i32, width: i32, height: i32) -> (r: Self)
        ensures
            r.state == initial_state(Placement { pos_x, pos_y, width, height }, true),
            r.title@ == title@,
            wf(r.state),
    {
        Bootstrap::start(title, Placement { pos_x, pos_y, width, height }, true)
    }

    fn start(title: &str, placement: Placement, reuse: bool) -> (r: Self)
        ensures
            r.state == initial_state(placement, reuse),
            r.title@ == title@,
            wf(r.state),
    {
        let resources = Resources {
            dummy_class: false,
            dummy_window: None,
            dummy_dc: None,
            dummy_context: None,
            real_class: false,
            real_window: None,
            real_dc: None,
            real_context: None,
            current: None,
        };
        let stage = if reuse {
            Stage::LoadCursor
        } else {
            Stage::RegisterDummyClass
        };
        let state = BootState {
            stage,
            resources,
            placement,
            outer_width: 0,
            outer_height: 0,
            format: 0,
            cursor: 0,
            reuse,
            failure: None,
        };
        Bootstrap { state, title: String::from_str(title) }
    }

    /// The title of the window of a class: the throwaway window's own, or
    /// the one asked for.
    pub fn window_title(&self, class: WindowClass) -> (r: &str)
        ensures
            class == WindowClass::Real ==> r@ == self.title@,
            class == WindowClass::Dummy ==> r@ == "Fake Window"@,
    {
        match class {
            WindowClass::Dummy => "Fake Window",
            WindowClass::Real => self.title.as_str(),
        }
    }

    /// The call that bring-up waits on; none once it has ended.
    pub fn pending(&self) -> (r: Option<NativeCall>)
        requires
            wf(self.state),
        ensures
            r == pending_call(self.state),
            r is Some ==> permitted(self.state.resources, r->0),
    {
        if is_step_exec(self.state.stage) {
            proof {
                lemma_step_call_permitted(self.state);
            }
            Some(step_call_exec(&self.state))
        } else if self.state.stage == Stage::Unwinding {
            proof {
                lemma_first_held_permitted(self.state.resources);
            }
            first_held_exec(&self.state.resources)
        } else {
            None
        }
    }

    /// Takes the outcome of the pending call and says what comes next.
    pub fn resume(&mut self, o: Outcome) -> (r: Step)
        requires
            wf(old(self).state),
            old(self).state.stage != Stage::Ready,
            old(self).state.stage != Stage::Aborted,
        ensures
            final(self).state == next_state(old(self).state, o),
            final(self).title == old(self).title,
            wf(final(self).state),
            step_reports(r, final(self).state),
    {
        proof {
            lemma_step_preserves(self.state, o);
        }
        let s = self.state;
        let t = if s.stage == Stage::Unwinding {
            proof {
                lemma_release_shrinks(s.resources);
            }
            let mut u = s;
            u.resources = release_exec(s.resources);
            u
        } else {
            absorb_exec(s, o)
        };
        let t = if t.stage == Stage::Unwinding && first_held_exec(&t.resources).is_none() {
            let mut u = t;
            u.stage = Stage::Aborted;
            u
        } else {
            t
        };
        self.state = t;
        if t.stage == Stage::Ready {
            let w = WindowWin32 {
                hwnd: t.resources.real_window.unwrap(),
                device_context: t.resources.real_dc.unwrap(),
                rendering_context: t.resources.real_context.unwrap(),
                pos_x: t.placement.pos_x,
                pos_y: t.placement.pos_y,
                width: t.placement.width,
                height: t.placement.height,
            };
            Step::Ready(w)
        } else if t.stage == Stage::Aborted {
            let f = t.failure.unwrap();
            Step::Aborted(WindowsError::from_failure(f.err_type, f.err_code))
        } else {
            Step::Call(self.pending().unwrap())
        }
    }
}

fn is_step_exec(s: Stage) -> (r: bool)
    ensures
        r == is_step(s),
{
    match s {
        Stage::Ready | Stage::Unwinding | Stage::Aborted => false,
        _ => true,
    }
}

fn handle_exec(o: Outcome) -> (r: Option<isize>)
    ensures
        r == handle_of(o),
{
    match o {
        Outcome::Handle(h) => if h != 0 {
            Some(h)
        } else {
            None
        },
        _ => None,
    }
}

fn fail_exec(s: BootState, k: WindowsErrorType, o: Outcome) -> (r: BootState)
    ensures
        r == fail(s, k, o),
{
    let code = match o {
        Outcome::Failed(c) => c,
        _ => None,
    };
    BootState { stage: Stage::Unwinding, failure: Some(Failure { err_type: k, err_code: code }), ..s }
}

fn first_held_exec(r: &Resources) -> (c: Option<NativeCall>)
    ensures
        c == first_held(*r),
{
    if r.current.is_some() {
        Some(NativeCall::ReleaseCurrent)
    } else if let Some(c) = r.real_context {
        Some(NativeCall::DeleteContext { context: c })
    } else if let Some(w) = r.real_window {
        Some(NativeCall::DestroyWindow { window: w })
    } else if r.real_class {
        Some(NativeCall::UnregisterClass { class: WindowClass::Real })
    } else if let Some(c) = r.dummy_context {
        Some(NativeCall::DeleteContext { context: c })
    } else if let Some(w) = r.dummy_window {
        Some(NativeCall::DestroyWindow { window: w })
    } else if r.dummy_class {
        Some(NativeCall::UnregisterClass { class: WindowClass::Dummy })
    } else {
        None
    }
}

fn release_exec(r: Resources) -> (t: Resources)
    ensures
        t == release(r),
{
    if r.current.is_some() {
        Resources { current: None, ..r }
    } else if r.real_context.is_some() {
        Resources { real_context: None, ..r }
    } else if r.real_window.is_some() {
        Resources { real_window: None, real_dc: None, ..r }
    } else if r.real_class {
        Resources { real_class: false, ..r }
    } else if r.dummy_context.is_some() {
        Resources { dummy_context: None, ..r }
    } else if r.dummy_window.is_some() {
        Resources { dummy_window: None, dummy_dc: None, ..r }
    } else {
        Resources { dummy_class: false, ..r }
    }
}

fn step_call_exec(s: &BootState) -> (c: NativeCall)
    requires
        wf(*s),
        is_step(s.stage),
    ensures
        c == step_call(*s),
{
    let r = &s.resources;
    match s.stage {
        Stage::RegisterDummyClass => NativeCall::RegisterClass { class: WindowClass::Dummy, cursor: 0 },
        Stage::AdjustDummyRect => NativeCall::AdjustWindowRect {
            class: WindowClass::Dummy,
            width: DUMMY_SIZE,
            height: DUMMY_SIZE,
        },
        Stage::CreateDummyWindow => NativeCall::CreateWindow {
            class: WindowClass::Dummy,
            pos_x: 0,
            pos_y: 0,
            width: s.outer_width,
            height: s.outer_height,
        },
        Stage::GetDummyDc => NativeCall::GetDeviceContext { window: r.dummy_window.unwrap() },
        Stage::ChooseDummyFormat => NativeCall::ChoosePixelFormat { dc: r.dummy_dc.unwrap() },
        Stage::SetDummyFormat => NativeCall::SetPixelFormat { dc: r.dummy_dc.unwrap(), format: s.format },
        Stage::CreateDummyContext => NativeCall::CreateContext { dc: r.dummy_dc.unwrap() },
        Stage::MakeDummyCurrent => NativeCall::MakeCurrent {
            dc: r.dummy_dc.unwrap(),
            context: r.dummy_context.unwrap(),
        },
        Stage::LoadGlFunctions => NativeCall::LoadGlFunctions,
        Stage::LoadExtensions => NativeCall::LoadExtensions,
        Stage::LoadCursor => NativeCall::LoadCursor,
        Stage::RegisterRealClass => NativeCall::RegisterClass { class: WindowClass::Real, cursor: s.cursor },
        Stage::AdjustRealRect => NativeCall::AdjustWindowRect {
            class: WindowClass::Real,
            width: s.placement.width,
            height: s.placement.height,
        },
        Stage::CreateRealWindow => NativeCall::CreateWindow {
            class: WindowClass::Real,
            pos_x: s.placement.pos_x,
            pos_y: s.placement.pos_y,
            width: s.outer_width,
            height: s.outer_height,
        },
        Stage::GetRealDc => NativeCall::GetDeviceContext { window: r.real_window.unwrap() },
        Stage::ChooseRealFormat => NativeCall::ChoosePixelFormatExtended { dc: r.real_dc.unwrap() },
        Stage::SetRealFormat => NativeCall::SetPixelFormat { dc: r.real_dc.unwrap(), format: s.format },
        Stage::CreateRealContext => NativeCall::CreateContextExtended { dc: r.real_dc.unwrap() },
        Stage::ReleaseDummy => NativeCall::ReleaseCurrent,
        Stage::DeleteDummyContext => NativeCall::DeleteContext { context: r.dummy_context.unwrap() },
        Stage::DestroyDummyWindow => NativeCall::DestroyWindow { window: r.dummy_window.unwrap() },
        Stage::UnregisterDummyClass => NativeCall::UnregisterClass { class: WindowClass::Dummy },
        Stage::MakeRealCurrent => NativeCall::MakeCurrent {
            dc: r.real_dc.unwrap(),
            context: r.real_context.unwrap(),
        },
        _ => NativeCall::ShowWindow { window: r.real_window.unwrap() },
    }
}

fn absorb_exec(s: BootState, o: Outcome) -> (t: BootState)
    requires
        is_step(s.stage),
    ensures
        t == absorb(s, o),
{
    let r = s.resources;
    let ok = !matches!(o, Outcome::Failed(_));
    match s.stage {
        Stage::RegisterDummyClass => if ok {
            BootState { stage: Stage::AdjustDummyRect, resources: Resources { dummy_class: true, ..r }, ..s }
        } else {
            fail_exec(s, WindowsErrorType::ClassRegistrationError, o)
        },
        Stage::AdjustDummyRect => match o {
            Outcome::Size { width, height } => BootState {
                stage: Stage::CreateDummyWindow,
                outer_width: width,
                outer_height: height,
                ..s
            },
            _ => fail_exec(s, WindowsErrorType::AdjustWindowRectError, o),
        },
        Stage::CreateDummyWindow => match handle_exec(o) {
            Some(h) => BootState { stage: Stage::GetDummyDc, resources: Resources { dummy_window: Some(h), ..r }, ..s },
            None => fail_exec(s, WindowsErrorType::WindowCreationError, o),
        },
        Stage::GetDummyDc => match handle_exec(o) {
            Some(h) => BootState { stage: Stage::ChooseDummyFormat, resources: Resources { dummy_dc: Some(h), ..r }, ..s },
            None => fail_exec(s, WindowsErrorType::DeviceContextRetrievalError, o),
        },
        Stage::ChooseDummyFormat => match o {
            Outcome::Chosen { index, count } => if count == 1 {
                BootState { stage: Stage::SetDummyFormat, format: index, ..s }
            } else {
                fail_exec(s, WindowsErrorType::PixelFormatChooseError, o)
            },
            _ => fail_exec(s, WindowsErrorType::PixelFormatChooseError, o),
        },
        Stage::SetDummyFormat => if ok {
            BootState { stage: Stage::CreateDummyContext, ..s }
        } else {
            fail_exec(s, WindowsErrorType::PixelFormatSetError, o)
        },
        Stage::CreateDummyContext => match handle_exec(o) {
            Some(h) => BootState { stage: Stage::MakeDummyCurrent, resources: Resources { dummy_context: Some(h), ..r }, ..s },
            None => fail_exec(s, WindowsErrorType::WGLContextCreationError, o),
        },
        Stage::MakeDummyCurrent => if ok {
            BootState { stage: Stage::LoadGlFunctions, resources: Resources { current: r.dummy_context, ..r }, ..s }
        } else {
            fail_exec(s, WindowsErrorType::WGLContextSelectingError, o)
        },
        Stage::LoadGlFunctions => if ok {
            BootState { stage: Stage::LoadExtensions, ..s }
        } else {
            fail_exec(s, WindowsErrorType::LibraryLoadError, o)
        },
        Stage::LoadExtensions => if ok {
            BootState { stage: Stage::LoadCursor, ..s }
        } else {
            fail_exec(s, WindowsErrorType::WGLExtensionLoadError, o)
        },
        Stage::LoadCursor => match handle_exec(o) {
            Some(h) => BootState { stage: Stage::RegisterRealClass, cursor: h, ..s },
            None => fail_exec(s, WindowsErrorType::CursorLoadError, o),
        },
        Stage::RegisterRealClass => if ok {
            BootState { stage: Stage::AdjustRealRect, resources: Resources { real_class: true, ..r }, ..s }
        } else {
            fail_exec(s, WindowsErrorType::ClassRegistrationError, o)
        },
        Stage::AdjustRealRect => match o {
            Outcome::Size { width, height } => BootState {
                stage: Stage::CreateRealWindow,
                outer_width: width,
                outer_height: height,
                ..s
            },
            _ => fail_exec(s, WindowsErrorType::AdjustWindowRectError, o),
        },
        Stage::CreateRealWindow => match handle_exec(o) {
            Some(h) => BootState { stage: Stage::GetRealDc, resources: Resources { real_window: Some(h), ..r }, ..s },
            None => fail_exec(s, WindowsErrorType::WindowCreationError, o),
        },
        Stage::GetRealDc => match handle_exec(o) {
            Some(h) => BootState { stage: Stage::ChooseRealFormat, resources: Resources { real_dc: Some(h), ..r }, ..s },
            None => fail_exec(s, WindowsErrorType::DeviceContextRetrievalError, o),
        },
        Stage::ChooseRealFormat => match o {
            Outcome::Chosen { index, count } => if count == 1 {
                BootState { stage: Stage::SetRealFormat, format: index, ..s }
            } else {
                fail_exec(s, WindowsErrorType::PixelFormatChooseError, o)
            },
            Outcome::Failed(_) => fail_exec(s, WindowsErrorType::WGLChoosePixelFormatError, o),
            _ => fail_exec(s, WindowsErrorType::PixelFormatChooseError, o),
        },
        Stage::SetRealFormat => if ok {
            BootState { stage: Stage::CreateRealContext, ..s }
        } else {
            fail_exec(s, WindowsErrorType::PixelFormatSetError, o)
        },
        Stage::CreateRealContext => match handle_exec(o) {
            Some(h) => BootState {
                stage: if s.reuse {
                    Stage::MakeRealCurrent
                } else {
                    Stage::ReleaseDummy
                },
                resources: Resources { real_context: Some(h), ..r },
                ..s
            },
            None => fail_exec(s, WindowsErrorType::WGLContextCreationErrorARB, o),
        },
        Stage::ReleaseDummy => if ok {
            BootState { stage: Stage::DeleteDummyContext, resources: Resources { current: None, ..r }, ..s }
        } else {
            fail_exec(s, WindowsErrorType::WGLContextSelectingError, o)
        },
        Stage::DeleteDummyContext => if ok {
            BootState { stage: Stage::DestroyDummyWindow, resources: Resources { dummy_context: None, ..r }, ..s }
        } else {
            fail_exec(s, WindowsErrorType::WGLContextDeletionError, o)
        },
        Stage::DestroyDummyWindow => if ok {
            BootState {
                stage: Stage::UnregisterDummyClass,
                resources: Resources { dummy_window: None, dummy_dc: None, ..r },
                ..s
            }
        } else {
            fail_exec(s, WindowsErrorType::WindowDestructionError, o)
        },
        Stage::UnregisterDummyClass => if ok {
            BootState { stage: Stage::MakeRealCurrent, resources: Resources { dummy_class: false, ..r }, ..s }
        } else {
            fail_exec(s, WindowsErrorType::ClassUnregistrationError, o)
        },
        Stage::MakeRealCurrent => if ok {
            BootState { stage: Stage::ShowRealWindow, resources: Resources { current: r.real_context, ..r }, ..s }
        } else {
            fail_exec(s, WindowsErrorType::WGLContextSelectingError, o)
        },
        _ => BootState { stage: Stage::Ready, ..s },
    }
}


pub const WGL_DRAW_TO_WINDOW_ARB: i32 = 0x2001;
pub const WGL_SUPPORT_OPENGL_ARB: i32 = 0x2010;
pub const WGL_DOUBLE_BUFFER_ARB: i32 = 0x2011;
pub const WGL_PIXEL_TYPE_ARB: i32 = 0x2013;
pub const WGL_COLOR_BITS_ARB: i32 = 0x2014;
pub const WGL_DEPTH_BITS_ARB: i32 = 0x2022;
pub const WGL_STENCIL_BITS_ARB: i32 = 0x2023;
pub const WGL_TYPE_RGBA_ARB: i32 = 0x202B;
pub const WGL_CONTEXT_MAJOR_VERSION_ARB: i32 = 0x2091;
pub const WGL_CONTEXT_MINOR_VERSION_ARB: i32 = 0x2092;
pub const WGL_CONTEXT_PROFILE_MASK_ARB: i32 = 0x9126;
pub const WGL_CONTEXT_CORE_PROFILE_BIT_ARB: i32 = 0x1;
pub const GL_TRUE: i32 = 1;

/// The bit depths that both choosers ask for.
pub const COLOR_BITS: i32 = 32;
pub const DEPTH_BITS: i32 = 24;
pub const STENCIL_BITS: i32 = 8;

/// The GL version of the real context.
pub const GL_MAJOR_VERSION: i32 = 3;
pub const GL_MINOR_VERSION: i32 = 3;

pub open spec fn spec_pixel_format_attributes() -> Seq<i32> {
    seq![
        WGL_DRAW_TO_WINDOW_ARB, GL_TRUE,
        WGL_SUPPORT_OPENGL_ARB, GL_TRUE,
        WGL_DOUBLE_BUFFER_ARB, GL_TRUE,
        WGL_PIXEL_TYPE_ARB, WGL_TYPE_RGBA_ARB,
        WGL_COLOR_BITS_ARB, COLOR_BITS,
        WGL_DEPTH_BITS_ARB, DEPTH_BITS,
        WGL_STENCIL_BITS_ARB, STENCIL_BITS,
        0,
    ]
}

pub open spec fn spec_context_attributes() -> Seq<i32> {
    seq![
        WGL_CONTEXT_MAJOR_VERSION_ARB, GL_MAJOR_VERSION,
        WGL_CONTEXT_MINOR_VERSION_ARB, GL_MINOR_VERSION,
        WGL_CONTEXT_PROFILE_MASK_ARB, WGL_CONTEXT_CORE_PROFILE_BIT_ARB,
        0,
    ]
}

/// The zero-terminated attribute list of the extended pixel-format chooser:
/// a double-buffered RGBA format that draws to a window and supports OpenGL,
/// with 32 colour, 24 depth and 8 stencil bits.
pub fn pixel_format_attributes() -> (r: Vec<i32>)
    ensures
        r@ == spec_pixel_format_attributes(),
{
    let r: Vec<i32> = vec![
        WGL_DRAW_TO_WINDOW_ARB, GL_TRUE,
        WGL_SUPPORT_OPENGL_ARB, GL_TRUE,
        WGL_DOUBLE_BUFFER_ARB, GL_TRUE,
        WGL_PIXEL_TYPE_ARB, WGL_TYPE_RGBA_ARB,
        WGL_COLOR_BITS_ARB, COLOR_BITS,
        WGL_DEPTH_BITS_ARB, DEPTH_BITS,
        WGL_STENCIL_BITS_ARB, STENCIL_BITS,
        0,
    ];
    proof {
        assert(r@ =~= spec_pixel_format_attributes());
    }
    r
}

/// The zero-terminated attribute list of the extended context creator: a
/// core-profile context of version 3.3.
pub fn context_attributes() -> (r: Vec<i32>)
    ensures
        r@ == spec_context_attributes(),
{
    let r: Vec<i32> = vec![
        WGL_CONTEXT_MAJOR_VERSION_ARB, GL_MAJOR_VERSION,
        WGL_CONTEXT_MINOR_VERSION_ARB, GL_MINOR_VERSION,
        WGL_CONTEXT_PROFILE_MASK_ARB, WGL_CONTEXT_CORE_PROFILE_BIT_ARB,
        0,
    ];
    proof {
        assert(r@ =~= spec_context_attributes());
    }
    r
}

/// The client size of the throwaway window.
pub const DUMMY_SIZE: i32 = 200;

} // verus!
