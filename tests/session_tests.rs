use shm_window::pool::PoolStep;
use shm_window::registry::{CompositorId, InterfaceKind};
use shm_window::session::{
    create_buffer_pool, create_shell_surface, destroy_window, elect_shell, redraw_window, Event,
    InterfaceInfo, Reply, SetupError, ShellId, ShellSurface, Stage, BUFFER_COUNT,
};

fn global(name: u32, interface: &str) -> Event {
    Event::Global { name, interface: interface.as_bytes().to_vec() }
}

fn session(interfaces: &[&str]) -> InterfaceInfo {
    let mut info = InterfaceInfo::new();
    for (i, iface) in interfaces.iter().enumerate() {
        info.handle(global(i as u32 + 1, iface));
    }
    info
}

#[test]
fn registry_binds_and_guesses_compositor() {
    let mut info = InterfaceInfo::new();
    assert_eq!(info.handle(global(7, "wl_shm")), Reply::Bind { name: 7, kind: InterfaceKind::Shm });
    assert_eq!(info.handle(global(8, "gtk_shell1")), Reply::Nothing);
    assert_eq!(info.handle(global(9, "wl_output")), Reply::Nothing);
    assert!(info.has_shm());
    assert_eq!(info.compositor_id(), CompositorId::GNOME);
}

#[test]
fn modern_shell_preferred() {
    let mut info = session(&["wl_compositor", "wl_shm", "wl_shell", "xdg_wm_base"]);
    assert_eq!(elect_shell(&mut info), Ok(ShellId::XdgWmBase));
    assert_eq!(info.shell_id().name(), "xdg_wm_base");
    let mut info = session(&["xdg_wm_base", "wl_shell"]);
    assert_eq!(elect_shell(&mut info), Ok(ShellId::XdgWmBase));
    assert_eq!(elect_shell(&mut info), Ok(ShellId::XdgWmBase));
    assert_eq!(info.shell_id(), ShellId::XdgWmBase);
}

#[test]
fn configure_before_commit_is_acknowledged_only() {
    let mut info = session(&["wl_compositor", "wl_shm", "xdg_wm_base"]);
    elect_shell(&mut info).unwrap();
    create_shell_surface(&mut info).unwrap();
    assert_eq!(info.handle(Event::Configure { serial: 5 }), Reply::AckConfigure { serial: 5 });
    assert_eq!(info.stage(), Stage::SurfaceRequested);
    info.surface_committed();
    info.handle(Event::Configure { serial: 6 });
    assert!(info.is_configured());
}

#[test]
fn legacy_shell_alone() {
    let mut info = session(&["wl_compositor", "wl_shm", "wl_shell"]);
    assert_eq!(elect_shell(&mut info), Ok(ShellId::WlShell));
    assert_eq!(info.stage(), Stage::Selected);
}

#[test]
fn no_shell_fails() {
    let mut info = session(&["wl_compositor", "wl_shm"]);
    assert_eq!(elect_shell(&mut info), Err(SetupError::NoCompatibleShell));
    assert_eq!(info.stage(), Stage::Unselected);
}

#[test]
fn election_happens_once() {
    let mut info = session(&["wl_shell"]);
    assert_eq!(elect_shell(&mut info), Ok(ShellId::WlShell));
    assert_eq!(elect_shell(&mut info), Ok(ShellId::WlShell));
    assert_eq!(info.stage(), Stage::Selected);
    assert_eq!(info.handle(global(9, "xdg_wm_base")), Reply::Nothing);
    assert_eq!(info.shell_id(), ShellId::WlShell);
}

#[test]
fn missing_compositor_refuses_surface() {
    let mut info = session(&["wl_shm", "wl_shell"]);
    elect_shell(&mut info).unwrap();
    assert_eq!(create_shell_surface(&mut info), Err(SetupError::NoCompositor));
}

#[test]
fn no_shm_refuses_pool() {
    let mut info = session(&["wl_compositor", "wl_shell"]);
    elect_shell(&mut info).unwrap();
    assert_eq!(create_shell_surface(&mut info), Ok(ShellSurface::WlShellSurface));
    assert!(info.is_configured());
    assert_eq!(create_buffer_pool(&info, b"t", 320, 240, 2).err(), Some(SetupError::NoShm));
    assert_eq!(info.handle(Event::FrameDone), Reply::Nothing);
    assert_eq!(redraw_window(&mut info), None);
}

#[test]
fn modern_pool_waits_for_configure() {
    let mut info = session(&["wl_compositor", "wl_shm", "xdg_wm_base"]);
    assert_eq!(
        create_buffer_pool(&info, b"t", 320, 240, 2).err(),
        Some(SetupError::NotConfigured)
    );
    elect_shell(&mut info).unwrap();
    assert_eq!(create_shell_surface(&mut info), Ok(ShellSurface::XdgShellSurface));
    assert_eq!(info.stage(), Stage::SurfaceRequested);
    assert_eq!(
        create_buffer_pool(&info, b"t", 320, 240, 2).err(),
        Some(SetupError::NotConfigured)
    );
    info.surface_committed();
    assert_eq!(info.stage(), Stage::ConfigPending);
    assert_eq!(
        create_buffer_pool(&info, b"t", 320, 240, 2).err(),
        Some(SetupError::NotConfigured)
    );
    assert_eq!(info.handle(Event::Configure { serial: 42 }), Reply::AckConfigure { serial: 42 });
    assert!(info.is_configured());
    assert!(create_buffer_pool(&info, b"t", 320, 240, 2).is_ok());
}

#[test]
fn pool_size_checked_after_configure() {
    let mut info = session(&["wl_compositor", "wl_shm", "wl_shell"]);
    elect_shell(&mut info).unwrap();
    create_shell_surface(&mut info).unwrap();
    assert_eq!(create_buffer_pool(&info, b"t", 0, 240, 2).err(), Some(SetupError::InvalidSize));
    assert_eq!(create_buffer_pool(&info, b"t", 320, 240, 0).err(), Some(SetupError::InvalidSize));
}

#[test]
fn pings_answered() {
    let mut info = InterfaceInfo::new();
    assert_eq!(info.handle(Event::ShellPing { serial: 3 }), Reply::ShellPong { serial: 3 });
    assert_eq!(info.handle(Event::WmBasePing { serial: 4 }), Reply::WmBasePong { serial: 4 });
}

#[test]
fn legacy_end_to_end() {
    let mut info = session(&["wl_compositor", "wl_shm", "wl_shell"]);
    assert_eq!(elect_shell(&mut info), Ok(ShellId::WlShell));
    assert_eq!(elect_shell(&mut info), Ok(ShellId::WlShell));
    assert_eq!(create_shell_surface(&mut info), Ok(ShellSurface::WlShellSurface));
    assert_eq!(info.stage(), Stage::Configured);
    info.surface_committed();
    assert!(info.is_configured());

    let mut b = create_buffer_pool(&info, b"title", 320, 240, BUFFER_COUNT).unwrap();
    let mut names = Vec::new();
    while let PoolStep::Create(i) = b.next_step() {
        names.push(String::from_utf8(b.name(i).to_vec()).unwrap());
        b.segment_created();
    }
    assert_eq!(names, vec!["/title-0".to_string(), "/title-1".to_string()]);
    assert_eq!(b.next_step(), PoolStep::Complete);
    info.set_window(b.finish());

    let p = redraw_window(&mut info).unwrap();
    assert_eq!(p.buffer, 1);
    assert_eq!(p.offset, 16);
    assert_eq!((p.width, p.height), (320, 240));
    match info.handle(Event::FrameDone) {
        Reply::Present(p) => assert_eq!(p.buffer, 0),
        other => panic!("unexpected reply {:?}", other),
    }

    let unlinked: Vec<String> =
        destroy_window(&mut info).into_iter().map(|n| String::from_utf8(n).unwrap()).collect();
    assert_eq!(unlinked, vec!["/title-0".to_string(), "/title-1".to_string()]);
    assert!(destroy_window(&mut info).is_empty());
}

#[test]
fn fatal_conditions_exit_with_failure() {
    assert_eq!(shm_window::panic(SetupError::NoShm), (1, "no software rendering 'wl_shm' interface found"));
    assert_eq!(shm_window::panic(SetupError::NoCompatibleShell), (1, "no compatible shell found"));
    assert_eq!(SetupError::NoCompositor.message(), "compositor interface not found");
}
