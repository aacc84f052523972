#![allow(non_snake_case)]

use vstd::prelude::*;

verus! {

/// A window's top-left corner, in screen coordinates.
#[derive(Debug, Copy, Clone, PartialEq, Eq, Structural)]
pub struct Position {
    pub x: i32,
    pub y: i32,
}

/// A width and a height, in pixels.
#[derive(Debug, Copy, Clone, PartialEq, Eq, Structural)]
pub struct Size {
    pub width: i32,
    pub height: i32,
}

/// The upper 16 bits of a 32-bit message word.
pub fn HIWORD(x: u32) -> (r: u32)
    ensures
        r == x / 0x10000,
        r < 0x10000,
{
    assert((x >> 16u32) & 0xFFFFu32 == x / 0x10000) by (bit_vector);
    (x >> 16) & 0xFFFF
}

/// The lower 16 bits of a 32-bit message word.
pub fn LOWORD(x: u32) -> (r: u32)
    ensures
        r == x % 0x10000,
{
    assert(x & 0xFFFFu32 == x % 0x10000) by (bit_vector);
    x & 0xFFFF
}

/// Win32 message sent after a window's size has changed.
pub const WM_SIZE: u32 = 0x0005;

/// Win32 message asking a window to repaint its client area.
pub const WM_PAINT: u32 = 0x000F;

/// Win32 message sent while a window is being destroyed.
pub const WM_DESTROY: u32 = 0x0002;

/// Win32 message sent first, while a window is being created.
pub const WM_NCCREATE: u32 = 0x0081;

/// Win32 message sent last, after a window has been destroyed.
pub const WM_NCDESTROY: u32 = 0x0082;

/// The Win32 value that lets the system choose a window's position or size.
pub const CW_USEDEFAULT: i32 = -2147483648;

/// The Win32 style of an overlapped top-level window with caption, system
/// menu, sizing border and minimize and maximize boxes.
pub const WS_OVERLAPPEDWINDOW: u32 = 0x00CF0000;

/// The new client size carried by a size message: the width in the low word
/// of the message's second parameter, the height in its high word.
pub fn size_from_lparam(lparam: u32) -> (r: Size)
    ensures
        r.width == lparam % 0x10000,
        r.height == lparam / 0x10000,
{
    let width = LOWORD(lparam);
    let height = HIWORD(lparam);
    Size { width: width as i32, height: height as i32 }
}

/// The size of a rectangle given by its edges.
pub fn size_of_rect(left: i32, top: i32, right: i32, bottom: i32) -> (r: Size)
    requires
        i32::MIN <= right - left <= i32::MAX,
        i32::MIN <= bottom - top <= i32::MAX,
    ensures
        r.width == right - left,
        r.height == bottom - top,
{
    Size { width: right - left, height: bottom - top }
}

/// A callback bound to one window message number.
pub struct EventHandler<F> {
    pub msg: u32,
    pub handler: F,
}

impl<F> EventHandler<F> {
    pub fn new(msg: u32, handler: F) -> (r: EventHandler<F>)
        ensures
            r.msg == msg,
            r.handler == handler,
    {
        EventHandler { msg, handler }
    }
}

/// The message numbers of a handler list, in order.
pub open spec fn handler_msgs<F>(handlers: Seq<EventHandler<F>>) -> Seq<u32> {
    handlers.map_values(|h: EventHandler<F>| h.msg)
}

/// `r` lists, in increasing order and each once, exactly the positions of
/// `msgs` that hold `msg`.
pub open spec fn selects_matching(msgs: Seq<u32>, msg: u32, r: Seq<usize>) -> bool {
    &&& forall|k: int| 0 <= k < r.len() ==> #[trigger] r[k] < msgs.len() && msgs[r[k] as int] == msg
    &&& forall|k: int, l: int| 0 <= k < l < r.len() ==> #[trigger] r[k] < #[trigger] r[l]
    &&& forall|i: int| 0 <= i < msgs.len() && #[trigger] msgs[i] == msg ==> r.contains(i as usize)
}

/// A window of the library: its native handle, as an address value, and the
/// handlers that its messages are dispatched to.
pub struct Window<F> {
    pub hwnd: usize,
    pub callbacks: Vec<EventHandler<F>>,
}

impl<F> Window<F> {
    /// A window for the native handle `hwnd`, with no handlers yet.
    pub fn new(hwnd: usize) -> (r: Window<F>)
        ensures
            r.hwnd == hwnd,
            r.callbacks@.len() == 0,
    {
        Window { hwnd, callbacks: Vec::new() }
    }

    /// Appends a handler; those already there keep their order.
    pub fn add_handler(&mut self, handler: EventHandler<F>)
        ensures
            final(self).hwnd == old(self).hwnd,
            final(self).callbacks@ == old(self).callbacks@.push(handler),
    {
        self.callbacks.push(handler);
    }

    /// The positions in `callbacks` of the handlers bound to `msg`, in the
    /// order they were added: the handlers to run for that message.
    pub fn handlers_for(&self, msg: u32) -> (r: Vec<usize>)
        ensures
            selects_matching(handler_msgs(self.callbacks@), msg, r@),
    {
        let ghost msgs = handler_msgs(self.callbacks@);
        let mut r: Vec<usize> = Vec::new();
        let mut i: usize = 0;
        while i < self.callbacks.len()
            invariant
                i <= self.callbacks@.len(),
                msgs == handler_msgs(self.callbacks@),
                forall|k: int| 0 <= k < r@.len() ==> #[trigger] r@[k] < i && msgs[r@[k] as int] == msg,
                forall|k: int, l: int| 0 <= k < l < r@.len() ==> #[trigger] r@[k] < #[trigger] r@[l],
                forall|j: int| 0 <= j < i && #[trigger] msgs[j] == msg ==> r@.contains(j as usize),
            decreases self.callbacks@.len() - i,
        {
            let ghost before = r@;
            assert(msgs[i as int] == self.callbacks@[i as int].msg);
            if self.callbacks[i].msg == msg {
                r.push(i);
                assert(r@[r@.len() - 1] == i);
            }
            assert forall|j: int| 0 <= j < i + 1 && #[trigger] msgs[j] == msg implies r@.contains(
                j as usize,
            ) by {
                if j == i {
                    assert(r@[r@.len() - 1] == i);
                } else {
                    let k = choose|k: int| 0 <= k < before.len() && before[k] == j as usize;
                    assert(r@[k] == j as usize);
                }
            }
            i = i + 1;
        }
        r
    }

    /// What the window procedure does after its handlers have run.
    pub fn wnd_proc(&self, msg: u32) -> (r: WindowReply)
        ensures
            r == window_reply(msg),
    {
        if msg == WM_PAINT {
            WindowReply::Handled
        } else if msg == WM_DESTROY {
            WindowReply::Quit
        } else {
            WindowReply::Default
        }
    }
}

/// How a window answers a message once its handlers have run.
#[derive(Debug, Copy, Clone, PartialEq, Eq, Structural)]
pub enum WindowReply {
    /// The message was handled: answer zero.
    Handled,
    /// The window is going away: post the quit message and stop.
    Quit,
    /// Leave the message to the system's default procedure.
    Default,
}

pub open spec fn window_reply(msg: u32) -> WindowReply {
    if msg == WM_PAINT {
        WindowReply::Handled
    } else if msg == WM_DESTROY {
        WindowReply::Quit
    } else {
        WindowReply::Default
    }
}

/// Everything needed to create a native window. Handles are address values;
/// zero is the null handle.
pub struct WindowParams {
    pub ex_style: u32,
    pub class_name: String,
    pub window_name: String,
    pub style: u32,
    pub pos: Position,
    pub size: Size,
    pub parent: usize,
    pub menu: usize,
    pub h_instance: usize,
    pub lp_param: Option<usize>,
}

/// Why a builder could not produce creation parameters.
#[derive(Debug, Copy, Clone, PartialEq, Eq, Structural)]
pub enum BuildError {
    MissingClassName,
    MissingWindowName,
    MissingInstance,
}

impl BuildError {
    /// The error's text.
    pub fn message(&self) -> (r: String)
        ensures
            r@ == build_error_text(*self),
    {
        match self {
            BuildError::MissingClassName => "Class name is required".to_owned(),
            BuildError::MissingWindowName => "Window name is required".to_owned(),
            BuildError::MissingInstance => "HINSTANCE is required".to_owned(),
        }
    }
}

pub open spec fn build_error_text(e: BuildError) -> Seq<char> {
    match e {
        BuildError::MissingClassName => "Class name is required"@,
        BuildError::MissingWindowName => "Window name is required"@,
        BuildError::MissingInstance => "HINSTANCE is required"@,
    }
}

/// Collects a window's creation parameters. The class name, the window name
/// and the module instance must be given; the rest have defaults.
pub struct WindowBuilder {
    pub dw_ex_style: u32,
    pub class_name: Option<String>,
    pub window_name: Option<String>,
    pub dw_style: u32,
    pub pos: Position,
    pub size: Size,
    pub parent: usize,
    pub menu: usize,
    pub h_instance: Option<usize>,
    pub lp_param: Option<usize>,
}

impl WindowBuilder {
    /// No extended style, the overlapped-window style, position and size
    /// left to the system, no parent and no menu; nothing else given.
    pub fn new() -> (r: WindowBuilder)
        ensures
            r.dw_ex_style == 0,
            r.class_name.is_none(),
            r.window_name.is_none(),
            r.dw_style == WS_OVERLAPPEDWINDOW,
            r.pos == (Position { x: CW_USEDEFAULT, y: CW_USEDEFAULT }),
            r.size == (Size { width: CW_USEDEFAULT, height: CW_USEDEFAULT }),
            r.parent == 0,
            r.menu == 0,
            r.h_instance.is_none(),
            r.lp_param.is_none(),
    {
        WindowBuilder {
            dw_ex_style: 0,
            class_name: None,
            window_name: None,
            dw_style: WS_OVERLAPPEDWINDOW,
            pos: Position { x: CW_USEDEFAULT, y: CW_USEDEFAULT },
            size: Size { width: CW_USEDEFAULT, height: CW_USEDEFAULT },
            parent: 0,
            menu: 0,
            h_instance: None,
            lp_param: None,
        }
    }

    pub fn ex_style(self, style: u32) -> (r: WindowBuilder)
        ensures
            r == (WindowBuilder { dw_ex_style: style, ..self }),
    {
        WindowBuilder { dw_ex_style: style, ..self }
    }

    pub fn class_name(self, name: String) -> (r: WindowBuilder)
        ensures
            r == (WindowBuilder { class_name: Some(name), ..self }),
    {
        WindowBuilder { class_name: Some(name), ..self }
    }

    pub fn window_name(self, name: String) -> (r: WindowBuilder)
        ensures
            r == (WindowBuilder { window_name: Some(name), ..self }),
    {
        WindowBuilder { window_name: Some(name), ..self }
    }

    pub fn style(self, style: u32) -> (r: WindowBuilder)
        ensures
            r == (WindowBuilder { dw_style: style, ..self }),
    {
        WindowBuilder { dw_style: style, ..self }
    }

    pub fn position(self, x: i32, y: i32) -> (r: WindowBuilder)
        ensures
            r == (WindowBuilder { pos: Position { x, y }, ..self }),
    {
        WindowBuilder { pos: Position { x, y }, ..self }
    }

    pub fn size(self, width: i32, height: i32) -> (r: WindowBuilder)
        ensures
            r == (WindowBuilder { size: Size { width, height }, ..self }),
    {
        WindowBuilder { size: Size { width, height }, ..self }
    }

    pub fn parent(self, parent_hwnd: usize) -> (r: WindowBuilder)
        ensures
            r == (WindowBuilder { parent: parent_hwnd, ..self }),
    {
        WindowBuilder { parent: parent_hwnd, ..self }
    }

    pub fn menu(self, h_menu: usize) -> (r: WindowBuilder)
        ensures
            r == (WindowBuilder { menu: h_menu, ..self }),
    {
        WindowBuilder { menu: h_menu, ..self }
    }

    pub fn hinstance(self, h_instance: usize) -> (r: WindowBuilder)
        ensures
            r == (WindowBuilder { h_instance: Some(h_instance), ..self }),
    {
        WindowBuilder { h_instance: Some(h_instance), ..self }
    }

    pub fn param(self, lp_param: usize) -> (r: WindowBuilder)
        ensures
            r == (WindowBuilder { lp_param: Some(lp_param), ..self }),
    {
        WindowBuilder { lp_param: Some(lp_param), ..self }
    }

    /// The creation parameters, once the class name, the window name and the
    /// module instance have been given; the first of them that is missing,
    /// in that order, otherwise.
    pub fn build(self) -> (r: Result<WindowParams, BuildError>)
        ensures
            r == build_result(self),
    {
        let class_name = match self.class_name {
            Some(n) => n,
            None => return Err(BuildError::MissingClassName),
        };
        let window_name = match self.window_name {
            Some(n) => n,
            None => return Err(BuildError::MissingWindowName),
        };
        let h_instance = match self.h_instance {
            Some(h) => h,
            None => return Err(BuildError::MissingInstance),
        };
        Ok(
            WindowParams {
                ex_style: self.dw_ex_style,
                class_name,
                window_name,
                style: self.dw_style,
                pos: self.pos,
                size: self.size,
                parent: self.parent,
                menu: self.menu,
                h_instance,
                lp_param: self.lp_param,
            },
        )
    }
}

pub open spec fn build_result(b: WindowBuilder) -> Result<WindowParams, BuildError> {
    if b.class_name.is_none() {
        Err(BuildError::MissingClassName)
    } else if b.window_name.is_none() {
        Err(BuildError::MissingWindowName)
    } else if b.h_instance.is_none() {
        Err(BuildError::MissingInstance)
    } else {
        Ok(
            WindowParams {
                ex_style: b.dw_ex_style,
                class_name: b.class_name.unwrap(),
                window_name: b.window_name.unwrap(),
                style: b.dw_style,
                pos: b.pos,
                size: b.size,
                parent: b.parent,
                menu: b.menu,
                h_instance: b.h_instance.unwrap(),
                lp_param: b.lp_param,
            },
        )
    }
}

} // verus!
