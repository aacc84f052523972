use d3d_triangle::window::{
    size_of_rect, size_from_lparam, BuildError, EventHandler, Position, Size, Window,
    WindowBuilder, WindowReply, CW_USEDEFAULT, HIWORD, LOWORD, WM_DESTROY, WM_PAINT, WM_SIZE,
    WS_OVERLAPPEDWINDOW,
};

#[test]
fn words_of_a_message_parameter() {
    assert_eq!(HIWORD(0x1234_5678), 0x1234);
    assert_eq!(LOWORD(0x1234_5678), 0x5678);
    assert_eq!(HIWORD(0xFFFF_FFFF), 0xFFFF);
    assert_eq!(LOWORD(0), 0);
}

#[test]
fn size_message_carries_width_low_and_height_high() {
    let s = size_from_lparam((600 << 16) | 800);
    assert_eq!(s, Size { width: 800, height: 600 });
}

#[test]
fn rect_edges_give_size() {
    assert_eq!(size_of_rect(10, 20, 110, 70), Size { width: 100, height: 50 });
    assert_eq!(size_of_rect(-5, -5, -5, -5), Size { width: 0, height: 0 });
}

#[test]
fn builder_defaults() {
    let b = WindowBuilder::new();
    assert_eq!(b.dw_ex_style, 0);
    assert_eq!(b.dw_style, WS_OVERLAPPEDWINDOW);
    assert_eq!(b.pos, Position { x: CW_USEDEFAULT, y: CW_USEDEFAULT });
    assert_eq!(b.size, Size { width: CW_USEDEFAULT, height: CW_USEDEFAULT });
    assert_eq!(b.parent, 0);
    assert_eq!(b.menu, 0);
    assert!(b.class_name.is_none() && b.window_name.is_none());
    assert!(b.h_instance.is_none() && b.lp_param.is_none());
}

#[test]
fn build_needs_class_name_first() {
    let r = WindowBuilder::new().build();
    assert_eq!(r.err(), Some(BuildError::MissingClassName));
    let r = WindowBuilder::new().window_name("w".to_string()).hinstance(7).build();
    assert_eq!(r.err(), Some(BuildError::MissingClassName));
}

#[test]
fn build_needs_window_name() {
    let r = WindowBuilder::new().class_name("c".to_string()).hinstance(7).build();
    assert_eq!(r.err(), Some(BuildError::MissingWindowName));
}

#[test]
fn build_needs_instance() {
    let r = WindowBuilder::new()
        .class_name("c".to_string())
        .window_name("w".to_string())
        .build();
    assert_eq!(r.err(), Some(BuildError::MissingInstance));
}

#[test]
fn build_error_texts() {
    assert_eq!(BuildError::MissingClassName.message(), "Class name is required");
    assert_eq!(BuildError::MissingWindowName.message(), "Window name is required");
    assert_eq!(BuildError::MissingInstance.message(), "HINSTANCE is required");
}

#[test]
fn build_carries_every_setting() {
    let p = WindowBuilder::new()
        .ex_style(0x8)
        .class_name("test string".to_string())
        .window_name("test window".to_string())
        .style(0x10)
        .position(3, 4)
        .size(640, 480)
        .parent(11)
        .menu(12)
        .hinstance(13)
        .param(14)
        .build()
        .ok()
        .unwrap();
    assert_eq!(p.ex_style, 0x8);
    assert_eq!(p.class_name, "test string");
    assert_eq!(p.window_name, "test window");
    assert_eq!(p.style, 0x10);
    assert_eq!(p.pos, Position { x: 3, y: 4 });
    assert_eq!(p.size, Size { width: 640, height: 480 });
    assert_eq!(p.parent, 11);
    assert_eq!(p.menu, 12);
    assert_eq!(p.h_instance, 13);
    assert_eq!(p.lp_param, Some(14));
}

#[test]
fn build_keeps_defaults_not_set() {
    let p = WindowBuilder::new()
        .class_name("c".to_string())
        .window_name("w".to_string())
        .hinstance(1)
        .build()
        .ok()
        .unwrap();
    assert_eq!(p.style, WS_OVERLAPPEDWINDOW);
    assert_eq!(p.pos, Position { x: CW_USEDEFAULT, y: CW_USEDEFAULT });
    assert_eq!(p.parent, 0);
    assert_eq!(p.lp_param, None);
}

#[test]
fn event_handler_keeps_message_and_callback() {
    let h = EventHandler::new(WM_SIZE, 42u8);
    assert_eq!(h.msg, WM_SIZE);
    assert_eq!(h.handler, 42);
}

#[test]
fn handlers_run_in_order_of_addition() {
    let mut w: Window<&str> = Window::new(99);
    assert_eq!(w.hwnd, 99);
    assert!(w.handlers_for(WM_SIZE).is_empty());
    w.add_handler(EventHandler::new(WM_SIZE, "a"));
    w.add_handler(EventHandler::new(WM_PAINT, "b"));
    w.add_handler(EventHandler::new(WM_SIZE, "c"));
    assert_eq!(w.handlers_for(WM_SIZE), vec![0, 2]);
    assert_eq!(w.handlers_for(WM_PAINT), vec![1]);
    assert!(w.handlers_for(WM_DESTROY).is_empty());
    assert_eq!(w.callbacks[2].handler, "c");
}

#[test]
fn window_replies() {
    let w: Window<u8> = Window::new(1);
    assert_eq!(w.wnd_proc(WM_PAINT), WindowReply::Handled);
    assert_eq!(w.wnd_proc(WM_DESTROY), WindowReply::Quit);
    assert_eq!(w.wnd_proc(WM_SIZE), WindowReply::Default);
}
