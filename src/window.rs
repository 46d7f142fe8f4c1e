use vstd::prelude::*;
use crate::bootstrap::{NativeCall, Resources, WindowClass, after_calls, effect, holds_nothing, permitted, runs_clean};

verus! {

/// Where a window goes and what it is called.
#[derive(Debug, Clone)]
pub struct WindowDescriptor<'a> {
    pub title: &'a str,
    pub pos_x: i32,
    pub pos_y: i32,
    pub width: u32,
    pub height: u32,
}

impl<'a> WindowDescriptor<'a> {
    /// The same descriptor with another size.
    pub fn with_size(self, width: u32, height: u32) -> (r: Self)
        ensures
            r.title == self.title,
            r.pos_x == self.pos_x,
            r.pos_y == self.pos_y,
            r.width == width,
            r.height == height,
    {
        let mut d = self;
        d.width = width;
        d.height = height;
        d
    }
}

impl<'a> Default for WindowDescriptor<'a> {
    fn default() -> (r: Self)
        ensures
            r.title@ == "Whirlwing Window"@,
            r.pos_x == 50,
            r.pos_y == 50,
            r.width == 800,
            r.height == 600,
    {
        WindowDescriptor { title: "Whirlwing Window", pos_x: 50, pos_y: 50, width: 800, height: 600 }
    }
}

/// A window that bring-up has made ready: its native window, the device
/// context of that window, and the rendering context created for it.
#[derive(Debug)]
pub struct WindowWin32 {
    pub hwnd: isize,
    pub device_context: isize,
    pub rendering_context: isize,
    pub pos_x: i32,
    pub pos_y: i32,
    pub width: i32,
    pub height: i32,
}

impl WindowWin32 {
    /// What the window holds, with `current` the context now current on the
    /// thread; nothing of the throwaway window is left.
    pub open spec fn held(&self, current: Option<isize>) -> Resources {
        Resources {
            dummy_class: false,
            dummy_window: None,
            dummy_dc: None,
            dummy_context: None,
            real_class: true,
            real_window: Some(self.hwnd),
            real_dc: Some(self.device_context),
            real_context: Some(self.rendering_context),
            current,
        }
    }

    pub open spec fn spec_destroy_calls(&self) -> Seq<NativeCall> {
        seq![
            NativeCall::ReleaseCurrent,
            NativeCall::DeleteContext { context: self.rendering_context },
            NativeCall::DestroyWindow { window: self.hwnd },
            NativeCall::UnregisterClass { class: WindowClass::Real },
        ]
    }

    /// The call that binds this window's context to the calling thread.
    pub fn make_current(&self) -> (r: NativeCall)
        ensures
            r == (NativeCall::MakeCurrent { dc: self.device_context, context: self.rendering_context }),
    {
        NativeCall::MakeCurrent { dc: self.device_context, context: self.rendering_context }
    }

    /// Gives the window up; the calls that tear it down, to be made in order,
    /// stopping at the first that fails.
    pub fn destroy(self) -> (r: Vec<NativeCall>)
        ensures
            r@ == self.spec_destroy_calls(),
    {
        let mut r: Vec<NativeCall> = Vec::new();
        r.push(NativeCall::ReleaseCurrent);
        r.push(NativeCall::DeleteContext { context: self.rendering_context });
        r.push(NativeCall::DestroyWindow { window: self.hwnd });
        r.push(NativeCall::UnregisterClass { class: WindowClass::Real });
        proof {
            assert(r@ =~= self.spec_destroy_calls());
        }
        r
    }
}

/// Binding a ready window's context and then destroying the window respects
/// the native rules at every call, whatever context was current before, and
/// leaves nothing held.
pub proof fn lemma_make_current_then_destroy(w: WindowWin32, current: Option<isize>)
    ensures
        runs_clean(
            w.held(current),
            seq![NativeCall::MakeCurrent { dc: w.device_context, context: w.rendering_context }]
                + w.spec_destroy_calls(),
        ),
        holds_nothing(
            after_calls(
                w.held(current),
                seq![NativeCall::MakeCurrent { dc: w.device_context, context: w.rendering_context }]
                    + w.spec_destroy_calls(),
            ),
        ),
{
    let calls = seq![NativeCall::MakeCurrent { dc: w.device_context, context: w.rendering_context }]
        + w.spec_destroy_calls();
    let r0 = w.held(current);
    let r1 = effect(r0, calls[0]);
    let r2 = effect(r1, calls[1]);
    let r3 = effect(r2, calls[2]);
    let r4 = effect(r3, calls[3]);
    let r5 = effect(r4, calls[4]);
    assert(calls.drop_first() =~= calls.subrange(1, 5));
    assert(calls.subrange(1, 5).drop_first() =~= calls.subrange(2, 5));
    assert(calls.subrange(2, 5).drop_first() =~= calls.subrange(3, 5));
    assert(calls.subrange(3, 5).drop_first() =~= calls.subrange(4, 5));
    assert(calls.subrange(4, 5).drop_first() =~= Seq::<NativeCall>::empty());
    assert(permitted(r0, calls[0]));
    assert(permitted(r1, calls[1]));
    assert(permitted(r2, calls[2]));
    assert(permitted(r3, calls[3]));
    assert(permitted(r4, calls[4]));
    assert(runs_clean(r5, Seq::<NativeCall>::empty()));
    assert(runs_clean(r4, calls.subrange(4, 5)));
    assert(runs_clean(r3, calls.subrange(3, 5)));
    assert(runs_clean(r2, calls.subrange(2, 5)));
    assert(runs_clean(r1, calls.subrange(1, 5)));
    assert(calls.subrange(4, 5)[0] == calls[4]);
    assert(after_calls(r5, Seq::<NativeCall>::empty()) == r5);
    assert(after_calls(r4, calls.subrange(4, 5)) == r5);
    assert(after_calls(r3, calls.subrange(3, 5)) == r5);
    assert(after_calls(r2, calls.subrange(2, 5)) == r5);
    assert(after_calls(r1, calls.subrange(1, 5)) == r5);
}

} // verus!
