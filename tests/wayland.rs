use jamos::terminal::Screen;
use jamos::wayland::protocol::{Interface, Message, MessageType};
use jamos::wayland::surface::SurfaceManager;
use jamos::wayland::{Surface, WaylandCompositor};

fn text(s: &mut Screen) -> String {
    String::from_utf8(s.take_output()).unwrap()
}

#[test]
fn surface_setters() {
    let mut s = Surface::new(5);
    assert_eq!((s.width, s.height, s.visible), (800, 600, false));
    s.set_position(-3, 4);
    s.set_size(10, 20);
    s.attach_buffer();
    s.commit();
    assert_eq!((s.x, s.y, s.width, s.height), (-3, 4, 10, 20));
    assert!(s.visible && s.buffer_attached);
    s.destroy();
    assert!(!s.visible && !s.buffer_attached);
}

#[test]
fn surfaces_get_increasing_ids() {
    let mut m = SurfaceManager::empty();
    m.init();
    assert_eq!(m.create_surface(), Some(1000));
    assert_eq!(m.create_surface(), Some(1001));
    assert_eq!(m.count_surfaces(), 2);
    assert!(m.destroy_surface(1000));
    assert!(!m.destroy_surface(1000));
    assert_eq!(m.count_surfaces(), 1);
    assert!(m.get_surface(1000).is_none());
    assert_eq!(m.get_surface(1001).unwrap().id, 1001);
    m.get_surface_mut(1001).unwrap().commit();
    assert!(m.get_surface(1001).unwrap().visible);
    assert_eq!(m.create_surface(), Some(1002));
}

#[test]
fn surface_slots_run_out() {
    let mut m = SurfaceManager::empty();
    for i in 0..32u32 {
        assert_eq!(m.create_surface(), Some(1000 + i));
    }
    assert_eq!(m.create_surface(), None);
    assert_eq!(m.count_surfaces(), 32);
}

#[test]
fn interface_names() {
    assert_eq!(Interface::Display.name(), "wl_display");
    assert_eq!(Interface::Registry.name(), "wl_registry");
    assert_eq!(Interface::Compositor.name(), "wl_compositor");
    assert_eq!(Interface::Surface.name(), "wl_surface");
    assert_eq!(Interface::Seat.name(), "wl_seat");
    assert_eq!(Interface::Output.name(), "wl_output");
}

#[test]
fn compositor_start_lists_globals() {
    let mut c = WaylandCompositor::empty();
    c.init();
    let mut s = Screen::empty();
    assert!(!c.is_running());
    c.start(&mut s);
    assert!(c.is_running());
    let out = text(&mut s);
    assert!(out.starts_with("=== Wayland Compositor Started ===\n"));
    assert!(out.contains("  - wl_compositor (version 4)\n  - wl_seat (version 7)\n  - wl_output (version 3)\n"));
    c.start(&mut s);
    assert_eq!(text(&mut s), "Wayland compositor is already running.\n");
}

#[test]
fn compositor_status_and_stop() {
    let mut c = WaylandCompositor::empty();
    c.init();
    let mut s = Screen::empty();
    c.stop(&mut s);
    assert_eq!(text(&mut s), "Wayland compositor is not running.\n");
    assert_eq!(c.connect_client(), Some(1));
    assert_eq!(c.connect_client(), Some(2));
    c.disconnect_client(1);
    c.disconnect_client(9);
    c.status(&mut s);
    assert_eq!(
        text(&mut s),
        "=== Wayland Compositor Status ===\nState: Stopped\nConnected clients: 1\nActive surfaces: 0\nRegistered globals: 3\n"
    );
    c.start(&mut s);
    text(&mut s);
    c.stop(&mut s);
    assert_eq!(text(&mut s), "Wayland compositor stopped.\n");
    assert!(!c.is_running());
}

#[test]
fn client_slots_run_out() {
    let mut c = WaylandCompositor::empty();
    c.init();
    for i in 1..=8u32 {
        assert_eq!(c.connect_client(), Some(i));
    }
    assert_eq!(c.connect_client(), None);
    c.disconnect_client(3);
    assert_eq!(c.connect_client(), Some(9));
}

#[test]
fn messages_dispatch() {
    let mut c = WaylandCompositor::empty();
    c.init();
    let mut s = Screen::empty();
    c.handle_message(Message::new(1, 0, MessageType::DisplaySync), &mut s);
    c.handle_message(Message::new(1, 1, MessageType::CompositorCreateSurface), &mut s);
    c.handle_message(Message::new(1000, 1, MessageType::SurfaceAttach), &mut s);
    c.handle_message(Message::new(1000, 6, MessageType::SurfaceCommit), &mut s);
    c.handle_message(Message::new(4242, 6, MessageType::SurfaceCommit), &mut s);
    c.handle_message(Message::new(1000, 0, MessageType::SurfaceDestroy), &mut s);
    c.handle_message(Message::new(1, 0, MessageType::DisplayGetRegistry), &mut s);
    c.handle_message(Message::new(2, 0, MessageType::RegistryBind), &mut s);
    assert_eq!(
        text(&mut s),
        "[Wayland] Display sync\n[Wayland] Created surface ID: 1000\n[Wayland] Buffer attached to surface\n[Wayland] Surface committed\n[Wayland] Surface destroyed\n[Wayland] Get registry\n[Wayland] Bind interface\n"
    );
}

#[test]
fn start_when_running_changes_nothing() {
    let mut c = WaylandCompositor::empty();
    c.init();
    let mut s = Screen::empty();
    c.start(&mut s);
    assert_eq!(c.connect_client(), Some(1));
    c.start(&mut s);
    assert!(c.is_running());
    assert_eq!(c.connect_client(), Some(2));
}

#[test]
fn created_surface_is_fresh() {
    let mut c = WaylandCompositor::empty();
    c.init();
    let mut s = Screen::empty();
    c.handle_message(Message::new(1, 1, MessageType::CompositorCreateSurface), &mut s);
    c.handle_message(Message::new(1, 1, MessageType::CompositorCreateSurface), &mut s);
    c.handle_message(Message::new(1000, 0, MessageType::SurfaceDestroy), &mut s);
    c.handle_message(Message::new(1, 1, MessageType::CompositorCreateSurface), &mut s);
    assert!(text(&mut s).ends_with("[Wayland] Created surface ID: 1002\n"));
}
