use whirlwing::bootstrap::{NativeCall, WindowClass};
use whirlwing::window::{WindowDescriptor, WindowWin32};

fn window() -> WindowWin32 {
    WindowWin32 { hwnd: 11, device_context: 12, rendering_context: 13, pos_x: 0, pos_y: 0, width: 800, height: 600 }
}

#[test]
fn make_current_then_destroy_releases_before_deleting() {
    let w = window();
    assert_eq!(w.make_current(), NativeCall::MakeCurrent { dc: 12, context: 13 });
    assert_eq!(
        w.destroy(),
        vec![
            NativeCall::ReleaseCurrent,
            NativeCall::DeleteContext { context: 13 },
            NativeCall::DestroyWindow { window: 11 },
            NativeCall::UnregisterClass { class: WindowClass::Real },
        ]
    );
}

#[test]
fn default_descriptor_and_with_size() {
    let d = WindowDescriptor::default();
    assert_eq!((d.title, d.pos_x, d.pos_y, d.width, d.height), ("Whirlwing Window", 50, 50, 800, 600));
    let d = d.with_size(1280, 720);
    assert_eq!((d.title, d.pos_x, d.pos_y, d.width, d.height), ("Whirlwing Window", 50, 50, 1280, 720));
}
