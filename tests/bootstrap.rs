use whirlwing::bootstrap::{
    context_attributes, pixel_format_attributes, Bootstrap, NativeCall, Outcome, Step, WindowClass,
};
use whirlwing::error::{Win32ErrorCode, WindowsErrorType};

/// A platform that hands out fresh handles and succeeds unless told which
/// call to fail and how.
struct StubPlatform {
    next_handle: isize,
    calls: Vec<NativeCall>,
    fail_on: Option<(fn(&NativeCall) -> bool, Outcome)>,
}

impl StubPlatform {
    fn new() -> Self {
        StubPlatform { next_handle: 100, calls: Vec::new(), fail_on: None }
    }

    fn perform(&mut self, call: NativeCall) -> Outcome {
        self.calls.push(call);
        if let Some((pred, outcome)) = self.fail_on {
            if pred(&call) {
                return outcome;
            }
        }
        match call {
            NativeCall::AdjustWindowRect { width, height, .. } => Outcome::Size { width: width + 16, height: height + 39 },
            NativeCall::CreateWindow { .. }
            | NativeCall::GetDeviceContext { .. }
            | NativeCall::CreateContext { .. }
            | NativeCall::CreateContextExtended { .. }
            | NativeCall::LoadCursor => {
                self.next_handle += 1;
                Outcome::Handle(self.next_handle)
            }
            NativeCall::ChoosePixelFormat { .. } => Outcome::Chosen { index: 7, count: 1 },
            NativeCall::ChoosePixelFormatExtended { .. } => Outcome::Chosen { index: 9, count: 1 },
            _ => Outcome::Done,
        }
    }

    fn drive(&mut self, b: &mut Bootstrap) -> Step {
        let mut call = b.pending().unwrap();
        loop {
            let outcome = self.perform(call);
            match b.resume(outcome) {
                Step::Call(next) => call = next,
                end => return end,
            }
        }
    }
}

fn dummy_window_of(calls: &[NativeCall]) -> isize {
    calls
        .iter()
        .position(|c| matches!(c, NativeCall::CreateWindow { class: WindowClass::Dummy, .. }))
        .map(|i| match calls[i + 1] {
            NativeCall::GetDeviceContext { window } => window,
            _ => panic!("device context not asked for right after the window"),
        })
        .unwrap()
}

#[test]
fn successful_bring_up_gives_a_real_window_distinct_from_the_dummy() {
    let mut b = Bootstrap::new("T", 50, 50, 1280, 720);
    let mut p = StubPlatform::new();
    let w = match p.drive(&mut b) {
        Step::Ready(w) => w,
        other => panic!("expected a ready window, got {:?}", other),
    };
    assert_eq!((w.width, w.height, w.pos_x, w.pos_y), (1280, 720, 50, 50));
    let dummy = dummy_window_of(&p.calls);
    assert_ne!(w.hwnd, dummy);
    assert_ne!(WindowClass::Dummy.name(), WindowClass::Real.name());
    assert_eq!(WindowClass::Real.name(), "Whirlwing Window Class");
    assert_eq!(WindowClass::Dummy.name(), "Fake window class");
    assert!(p.calls.contains(&NativeCall::DestroyWindow { window: dummy }));
    assert!(p.calls.contains(&NativeCall::UnregisterClass { class: WindowClass::Dummy }));
    assert_eq!(b.state.resources.dummy_window, None);
    assert_eq!(b.state.resources.dummy_context, None);
    assert!(!b.state.resources.dummy_class);
    assert_eq!(b.state.resources.current, Some(w.rendering_context));
    assert_eq!(b.pending(), None);
    assert_eq!(b.window_title(WindowClass::Real), "T");
    assert_eq!(b.window_title(WindowClass::Dummy), "Fake Window");
}

#[test]
fn bring_up_makes_the_calls_in_protocol_order() {
    let mut b = Bootstrap::new("T", 10, 20, 1280, 720);
    let mut p = StubPlatform::new();
    assert!(matches!(p.drive(&mut b), Step::Ready(_)));
    let c = &p.calls;
    assert_eq!(c.len(), 24);
    assert_eq!(c[0], NativeCall::RegisterClass { class: WindowClass::Dummy, cursor: 0 });
    assert_eq!(c[1], NativeCall::AdjustWindowRect { class: WindowClass::Dummy, width: 200, height: 200 });
    assert_eq!(c[2], NativeCall::CreateWindow { class: WindowClass::Dummy, pos_x: 0, pos_y: 0, width: 216, height: 239 });
    assert_eq!(c[3], NativeCall::GetDeviceContext { window: 101 });
    assert_eq!(c[4], NativeCall::ChoosePixelFormat { dc: 102 });
    assert_eq!(c[5], NativeCall::SetPixelFormat { dc: 102, format: 7 });
    assert_eq!(c[6], NativeCall::CreateContext { dc: 102 });
    assert_eq!(c[7], NativeCall::MakeCurrent { dc: 102, context: 103 });
    assert_eq!(c[8], NativeCall::LoadGlFunctions);
    assert_eq!(c[9], NativeCall::LoadExtensions);
    assert_eq!(c[10], NativeCall::LoadCursor);
    assert_eq!(c[11], NativeCall::RegisterClass { class: WindowClass::Real, cursor: 104 });
    assert_eq!(c[12], NativeCall::AdjustWindowRect { class: WindowClass::Real, width: 1280, height: 720 });
    assert_eq!(c[13], NativeCall::CreateWindow { class: WindowClass::Real, pos_x: 10, pos_y: 20, width: 1296, height: 759 });
    assert_eq!(c[14], NativeCall::GetDeviceContext { window: 105 });
    assert_eq!(c[15], NativeCall::ChoosePixelFormatExtended { dc: 106 });
    assert_eq!(c[16], NativeCall::SetPixelFormat { dc: 106, format: 9 });
    assert_eq!(c[17], NativeCall::CreateContextExtended { dc: 106 });
    assert_eq!(c[18], NativeCall::ReleaseCurrent);
    assert_eq!(c[19], NativeCall::DeleteContext { context: 103 });
    assert_eq!(c[20], NativeCall::DestroyWindow { window: 101 });
    assert_eq!(c[21], NativeCall::UnregisterClass { class: WindowClass::Dummy });
    assert_eq!(c[22], NativeCall::MakeCurrent { dc: 106, context: 107 });
    assert_eq!(c[23], NativeCall::ShowWindow { window: 105 });
}

#[test]
fn dummy_context_is_released_before_it_is_deleted() {
    let mut b = Bootstrap::new("T", 0, 0, 640, 480);
    let mut p = StubPlatform::new();
    assert!(matches!(p.drive(&mut b), Step::Ready(_)));
    let delete = p.calls.iter().position(|c| matches!(c, NativeCall::DeleteContext { .. })).unwrap();
    let release = p.calls.iter().rposition(|c| *c == NativeCall::ReleaseCurrent).unwrap();
    assert!(release < delete);
    assert!(!p.calls[release + 1..delete].iter().any(|c| matches!(c, NativeCall::MakeCurrent { .. })));
}

#[test]
fn zero_matching_formats_fails_with_pixel_format_choose_error_and_releases_everything() {
    let mut b = Bootstrap::new("T", 0, 0, 1280, 720);
    let mut p = StubPlatform::new();
    p.fail_on = Some((
        |c| matches!(c, NativeCall::ChoosePixelFormatExtended { .. }),
        Outcome::Chosen { index: 0, count: 0 },
    ));
    let e = match p.drive(&mut b) {
        Step::Aborted(e) => e,
        other => panic!("expected a failure, got {:?}", other),
    };
    assert_eq!(e.err_type, WindowsErrorType::PixelFormatChooseError);
    assert!(e.err_code.is_none());
    assert_eq!(e.err_body, "Failed to choose pixel format.");
    let chosen = p.calls.iter().position(|c| matches!(c, NativeCall::ChoosePixelFormatExtended { .. })).unwrap();
    assert_eq!(
        &p.calls[chosen + 1..],
        &[
            NativeCall::ReleaseCurrent,
            NativeCall::DestroyWindow { window: 105 },
            NativeCall::UnregisterClass { class: WindowClass::Real },
            NativeCall::DeleteContext { context: 103 },
            NativeCall::DestroyWindow { window: 101 },
            NativeCall::UnregisterClass { class: WindowClass::Dummy },
        ]
    );
    let r = b.state.resources;
    assert!(!r.dummy_class && !r.real_class);
    assert!(r.dummy_window.is_none() && r.real_window.is_none() && r.current.is_none());
    assert!(r.dummy_context.is_none() && r.real_context.is_none());
}

#[test]
fn extended_chooser_failure_is_a_wgl_choose_error() {
    let mut b = Bootstrap::new("T", 0, 0, 1280, 720);
    let mut p = StubPlatform::new();
    p.fail_on = Some((
        |c| matches!(c, NativeCall::ChoosePixelFormatExtended { .. }),
        Outcome::Failed(None),
    ));
    match p.drive(&mut b) {
        Step::Aborted(e) => assert_eq!(e.err_type, WindowsErrorType::WGLChoosePixelFormatError),
        other => panic!("expected a failure, got {:?}", other),
    }
}

#[test]
fn dummy_context_creation_failure_is_fatal_and_carries_the_os_code() {
    let mut b = Bootstrap::new("T", 0, 0, 1280, 720);
    let mut p = StubPlatform::new();
    p.fail_on = Some((|c| matches!(c, NativeCall::CreateContext { .. }), Outcome::Failed(Some(2000))));
    let e = match p.drive(&mut b) {
        Step::Aborted(e) => e,
        other => panic!("expected a failure, got {:?}", other),
    };
    assert_eq!(e.err_type, WindowsErrorType::WGLContextCreationError);
    assert_eq!(e.err_code, Some(Win32ErrorCode(2000)));
    assert_eq!(e.err_body, "Failed to create wgl context.");
    let tail: Vec<NativeCall> = p.calls[p.calls.len() - 2..].to_vec();
    assert_eq!(
        tail,
        vec![NativeCall::DestroyWindow { window: 101 }, NativeCall::UnregisterClass { class: WindowClass::Dummy }]
    );
}

#[test]
fn null_real_context_is_an_extended_creation_error() {
    let mut b = Bootstrap::new("T", 0, 0, 1280, 720);
    let mut p = StubPlatform::new();
    p.fail_on = Some((|c| matches!(c, NativeCall::CreateContextExtended { .. }), Outcome::Handle(0)));
    match p.drive(&mut b) {
        Step::Aborted(e) => {
            assert_eq!(e.err_type, WindowsErrorType::WGLContextCreationErrorARB);
            assert_eq!(e.err_body, "Failed to create WGL ARB context.");
        }
        other => panic!("expected a failure, got {:?}", other),
    }
}

#[test]
fn first_step_failure_releases_nothing() {
    let mut b = Bootstrap::new("T", 0, 0, 1280, 720);
    let mut p = StubPlatform::new();
    p.fail_on = Some((|c| matches!(c, NativeCall::RegisterClass { .. }), Outcome::Failed(Some(1410))));
    match p.drive(&mut b) {
        Step::Aborted(e) => assert_eq!(e.err_type, WindowsErrorType::ClassRegistrationError),
        other => panic!("expected a failure, got {:?}", other),
    }
    assert_eq!(p.calls.len(), 1);
}

#[test]
fn failed_releases_while_unwinding_still_end_the_bring_up() {
    let mut b = Bootstrap::new("T", 0, 0, 1280, 720);
    let mut p = StubPlatform::new();
    p.fail_on = Some((
        |c| matches!(c, NativeCall::LoadExtensions | NativeCall::ReleaseCurrent | NativeCall::DestroyWindow { .. }),
        Outcome::Failed(Some(5)),
    ));
    match p.drive(&mut b) {
        Step::Aborted(e) => assert_eq!(e.err_type, WindowsErrorType::WGLExtensionLoadError),
        other => panic!("expected a failure, got {:?}", other),
    }
    assert_eq!(
        &p.calls[10..],
        &[
            NativeCall::ReleaseCurrent,
            NativeCall::DeleteContext { context: 103 },
            NativeCall::DestroyWindow { window: 101 },
            NativeCall::UnregisterClass { class: WindowClass::Dummy },
        ]
    );
}

#[test]
fn attribute_lists_request_the_documented_format_and_context() {
    assert_eq!(
        pixel_format_attributes(),
        vec![0x2001, 1, 0x2010, 1, 0x2011, 1, 0x2013, 0x202B, 0x2014, 32, 0x2022, 24, 0x2023, 8, 0]
    );
    assert_eq!(context_attributes(), vec![0x2091, 3, 0x2092, 3, 0x9126, 1, 0]);
}

#[test]
fn reusing_resolved_extensions_skips_the_throwaway_window() {
    let mut b = Bootstrap::reusing_extensions("Second", 5, 6, 320, 240);
    let mut p = StubPlatform::new();
    let w = match p.drive(&mut b) {
        Step::Ready(w) => w,
        other => panic!("expected a ready window, got {:?}", other),
    };
    assert_eq!(
        p.calls,
        vec![
            NativeCall::LoadCursor,
            NativeCall::RegisterClass { class: WindowClass::Real, cursor: 101 },
            NativeCall::AdjustWindowRect { class: WindowClass::Real, width: 320, height: 240 },
            NativeCall::CreateWindow { class: WindowClass::Real, pos_x: 5, pos_y: 6, width: 336, height: 279 },
            NativeCall::GetDeviceContext { window: 102 },
            NativeCall::ChoosePixelFormatExtended { dc: 103 },
            NativeCall::SetPixelFormat { dc: 103, format: 9 },
            NativeCall::CreateContextExtended { dc: 103 },
            NativeCall::MakeCurrent { dc: 103, context: 104 },
            NativeCall::ShowWindow { window: 102 },
        ]
    );
    assert_eq!((w.hwnd, w.device_context, w.rendering_context), (102, 103, 104));
}

#[test]
fn reusing_bring_up_failure_gives_back_only_the_real_window() {
    let mut b = Bootstrap::reusing_extensions("Second", 0, 0, 320, 240);
    let mut p = StubPlatform::new();
    p.fail_on = Some((
        |c| matches!(c, NativeCall::ChoosePixelFormatExtended { .. }),
        Outcome::Chosen { index: 0, count: 0 },
    ));
    match p.drive(&mut b) {
        Step::Aborted(e) => assert_eq!(e.err_type, WindowsErrorType::PixelFormatChooseError),
        other => panic!("expected a failure, got {:?}", other),
    }
    assert_eq!(
        &p.calls[6..],
        &[NativeCall::DestroyWindow { window: 102 }, NativeCall::UnregisterClass { class: WindowClass::Real }]
    );
}
