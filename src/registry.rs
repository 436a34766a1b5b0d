use vstd::prelude::*;
use vstd::string::StringSliceAdditionalSpecFns;

use crate::bytes::{contains_bytes, has_infix, same_bytes};

verus! {

/// The compositor implementation, as guessed from the vendor-specific
/// globals that only it advertises.
#[derive(Clone, Copy, Debug, PartialEq, Eq, Structural)]
pub enum CompositorId {
    Unknown,
    Weston,
    GNOME,
    KDE,
    WlRoots,
}

/// The globals that a client binds.
#[derive(Clone, Copy, Debug, PartialEq, Eq, Structural)]
pub enum InterfaceKind {
    /// `wl_compositor`: the surface manager.
    Compositor,
    /// `wl_shm`: the shared-memory allocator.
    Shm,
    /// `wl_shell`: the deprecated shell.
    WlShell,
    /// `xdg_wm_base`: the stable shell.
    XdgWmBase,
}

/// What one advertised interface name means to the client.
#[derive(Clone, Copy, Debug, PartialEq, Eq, Structural)]
pub enum Advertised {
    /// An interface to bind.
    Bind(InterfaceKind),
    /// A vendor global that identifies the compositor.
    Marker(CompositorId),
    /// Anything else.
    Ignored,
}

/// Meaning of an advertised interface name: the four bound interfaces by
/// exact name first, then the vendor markers by substring, in this order.
pub open spec fn classify(interface: Seq<u8>) -> Advertised {
    if interface == "wl_compositor".spec_bytes() {
        Advertised::Bind(InterfaceKind::Compositor)
    } else if interface == "wl_shm".spec_bytes() {
        Advertised::Bind(InterfaceKind::Shm)
    } else if interface == "wl_shell".spec_bytes() {
        Advertised::Bind(InterfaceKind::WlShell)
    } else if interface == "xdg_wm_base".spec_bytes() {
        Advertised::Bind(InterfaceKind::XdgWmBase)
    } else if has_infix(interface, "gtk_shell".spec_bytes()) {
        Advertised::Marker(CompositorId::GNOME)
    } else if has_infix(interface, "plasma_shell".spec_bytes()) {
        Advertised::Marker(CompositorId::KDE)
    } else if has_infix(interface, "wlr_layer_shell".spec_bytes()) {
        Advertised::Marker(CompositorId::WlRoots)
    } else if has_infix(interface, "weston".spec_bytes()) {
        Advertised::Marker(CompositorId::Weston)
    } else {
        Advertised::Ignored
    }
}

/// Classifies an advertised interface name (its UTF-8 bytes).
pub fn classify_interface(interface: &[u8]) -> (r: Advertised)
    ensures
        r == classify(interface@),
{
    if same_bytes(interface, "wl_compositor".as_bytes()) {
        Advertised::Bind(InterfaceKind::Compositor)
    } else if same_bytes(interface, "wl_shm".as_bytes()) {
        Advertised::Bind(InterfaceKind::Shm)
    } else if same_bytes(interface, "wl_shell".as_bytes()) {
        Advertised::Bind(InterfaceKind::WlShell)
    } else if same_bytes(interface, "xdg_wm_base".as_bytes()) {
        Advertised::Bind(InterfaceKind::XdgWmBase)
    } else if contains_bytes(interface, "gtk_shell".as_bytes()) {
        Advertised::Marker(CompositorId::GNOME)
    } else if contains_bytes(interface, "plasma_shell".as_bytes()) {
        Advertised::Marker(CompositorId::KDE)
    } else if contains_bytes(interface, "wlr_layer_shell".as_bytes()) {
        Advertised::Marker(CompositorId::WlRoots)
    } else if contains_bytes(interface, "weston".as_bytes()) {
        Advertised::Marker(CompositorId::Weston)
    } else {
        Advertised::Ignored
    }
}

impl CompositorId {
    /// A human-readable name of the compositor.
    pub fn label(&self) -> (r: &'static str)
        ensures
            r@ == match *self {
                CompositorId::Weston => "Weston"@,
                CompositorId::GNOME => "GNOME"@,
                CompositorId::KDE => "KDE Plasma"@,
                CompositorId::WlRoots => "wlroots"@,
                CompositorId::Unknown => "Unknown"@,
            },
    {
        match self {
            CompositorId::Weston => "Weston",
            CompositorId::GNOME => "GNOME",
            CompositorId::KDE => "KDE Plasma",
            CompositorId::WlRoots => "wlroots",
            CompositorId::Unknown => "Unknown",
        }
    }
}

} // verus!
