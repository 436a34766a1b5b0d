use vstd::prelude::*;

use crate::naming::shm_name_of;
use crate::pool::{valid_layout, BufferLayout, PoolBuilder, PoolModel};
use crate::redraw::MOTIF_LEN;
use crate::registry::{classify, classify_interface, Advertised, CompositorId, InterfaceKind};
use crate::window::{Presentation, Window, WindowView};

verus! {

/// Number of buffers a window rotates over.
pub const BUFFER_COUNT: usize = 2;

/// The shell protocol elected.
#[derive(Clone, Copy, Debug, PartialEq, Eq, Structural)]
pub enum ShellId {
    Unknown,
    /// `wl_shell`, the deprecated protocol.
    WlShell,
    /// `xdg_wm_base`, the stable protocol.
    XdgWmBase,
}

impl ShellId {
    /// The protocol's interface name.
    pub fn name(&self) -> (r: &'static str)
        ensures
            r@ == match *self {
                ShellId::WlShell => "wl_shell"@,
                ShellId::XdgWmBase => "xdg_wm_base"@,
                ShellId::Unknown => "unknown"@,
            },
    {
        match self {
            ShellId::WlShell => "wl_shell",
            ShellId::XdgWmBase => "xdg_wm_base",
            ShellId::Unknown => "unknown",
        }
    }
}

/// Which protocol made a window's shell surface.
#[derive(Clone, Copy, Debug, PartialEq, Eq, Structural)]
pub enum ShellSurface {
    WlShellSurface,
    XdgShellSurface,
}

/// How far the shell negotiation has come.
#[derive(Clone, Copy, Debug, PartialEq, Eq, Structural)]
pub enum Stage {
    /// The registry is being read; no shell is elected.
    Unselected,
    /// A shell is elected.
    Selected,
    /// The surface and its shell surface were asked for.
    SurfaceRequested,
    /// The surface was committed; the compositor's configure is awaited.
    ConfigPending,
    /// Buffers may be attached.
    Configured,
}

/// The conditions that end startup.
#[derive(Clone, Copy, Debug, PartialEq, Eq, Structural)]
pub enum SetupError {
    /// The compositor offers no shared-memory allocator.
    NoShm,
    /// The compositor offers neither shell protocol.
    NoCompatibleShell,
    /// The compositor offers no surface manager.
    NoCompositor,
    /// A step was taken before the one it follows.
    OutOfOrder,
    /// Buffers were asked for before the shell surface was configured.
    NotConfigured,
    /// The dimensions or the buffer count cannot make a pool.
    InvalidSize,
}

/// The diagnostic for a startup-fatal condition.
pub open spec fn diagnostic(e: SetupError) -> Seq<char> {
    match e {
        SetupError::NoShm => "no software rendering 'wl_shm' interface found"@,
        SetupError::NoCompatibleShell => "no compatible shell found"@,
        SetupError::NoCompositor => "compositor interface not found"@,
        SetupError::OutOfOrder => "setup step taken out of order"@,
        SetupError::NotConfigured => "shell surface not configured yet"@,
        SetupError::InvalidSize => "invalid buffer size or count"@,
    }
}

impl SetupError {
    /// A diagnostic for the condition.
    pub fn message(&self) -> (r: &'static str)
        ensures
            r@ == diagnostic(*self),
    {
        match self {
            SetupError::NoShm => "no software rendering 'wl_shm' interface found",
            SetupError::NoCompatibleShell => "no compatible shell found",
            SetupError::NoCompositor => "compositor interface not found",
            SetupError::OutOfOrder => "setup step taken out of order",
            SetupError::NotConfigured => "shell surface not configured yet",
            SetupError::InvalidSize => "invalid buffer size or count",
        }
    }
}

/// The events the client consumes.
pub enum Event {
    /// The registry advertises global `name` with this interface name.
    Global { name: u32, interface: Vec<u8> },
    /// The `wl_shell` surface is pinged.
    ShellPing { serial: u32 },
    /// The `xdg_wm_base` is pinged.
    WmBasePing { serial: u32 },
    /// The `xdg_surface` is configured.
    Configure { serial: u32 },
    /// The pending frame callback fired.
    FrameDone,
}

/// What the client sends in answer to an event.
#[derive(Clone, Copy, Debug, PartialEq, Eq, Structural)]
pub enum Reply {
    /// Bind global `name` as `kind`.
    Bind { name: u32, kind: InterfaceKind },
    /// Answer the `wl_shell` surface's ping.
    ShellPong { serial: u32 },
    /// Answer the `xdg_wm_base`'s ping.
    WmBasePong { serial: u32 },
    /// Acknowledge the `xdg_surface` configure.
    AckConfigure { serial: u32 },
    /// Make this submission to the surface.
    Present(Presentation),
    /// Nothing to send.
    Nothing,
}

/// A session in numbers: the globals bound (by registry name), the
/// compositor guessed, the shell elected, the negotiation stage and the
/// window, once there is one.
pub struct SessionView {
    pub compositor_id: CompositorId,
    pub compositor: Option<u32>,
    pub shm: Option<u32>,
    pub wl_shell: Option<u32>,
    pub xdg_wm_base: Option<u32>,
    pub shell_id: ShellId,
    pub stage: Stage,
    pub window: Option<WindowView>,
}

impl SessionView {
    pub open spec fn initial() -> SessionView {
        SessionView {
            compositor_id: CompositorId::Unknown,
            compositor: None,
            shm: None,
            wl_shell: None,
            xdg_wm_base: None,
            shell_id: ShellId::Unknown,
            stage: Stage::Unselected,
            window: None,
        }
    }

    /// The shell to elect: the stable one if offered, else the deprecated
    /// one, else none.
    pub open spec fn elected(self) -> Option<ShellId> {
        if self.xdg_wm_base is Some {
            Some(ShellId::XdgWmBase)
        } else if self.wl_shell is Some {
            Some(ShellId::WlShell)
        } else {
            None
        }
    }

    /// The session is consistent: once a shell is elected it is the
    /// registry's own choice, and a window exists only on a configured
    /// shell surface.
    pub open spec fn wf(self) -> bool {
        &&& self.stage != Stage::Unselected ==> self.elected() == Some(self.shell_id)
        &&& self.window is Some ==> self.stage == Stage::Configured
    }

    /// What an election returns: the registry's choice, in every stage.
    pub open spec fn election_result(self) -> Result<ShellId, SetupError> {
        match self.elected() {
            Some(s) => Ok(s),
            None => Err(SetupError::NoCompatibleShell),
        }
    }

    /// The session after an election: the first successful one fixes the
    /// shell; later ones change nothing.
    pub open spec fn after_election(self) -> SessionView {
        if self.stage == Stage::Unselected {
            match self.elected() {
                Some(s) => SessionView { shell_id: s, stage: Stage::Selected, ..self },
                None => self,
            }
        } else {
            self
        }
    }

    /// What asking for the shell surface returns.
    pub open spec fn shell_surface_result(self) -> Result<ShellSurface, SetupError> {
        if self.stage != Stage::Selected {
            Err(SetupError::OutOfOrder)
        } else if self.compositor is None {
            Err(SetupError::NoCompositor)
        } else {
            match self.shell_id {
                ShellId::WlShell => Ok(ShellSurface::WlShellSurface),
                ShellId::XdgWmBase => Ok(ShellSurface::XdgShellSurface),
                ShellId::Unknown => Err(SetupError::OutOfOrder),
            }
        }
    }

    /// The session after asking for the shell surface: the deprecated shell
    /// is configured at once, the stable one has its surface requested.
    pub open spec fn after_shell_surface(self) -> SessionView {
        if self.stage == Stage::Selected && self.compositor is Some {
            match self.shell_id {
                ShellId::WlShell => SessionView { stage: Stage::Configured, ..self },
                ShellId::XdgWmBase => SessionView { stage: Stage::SurfaceRequested, ..self },
                ShellId::Unknown => self,
            }
        } else {
            self
        }
    }

    /// The session after the first commit of the surface: the stable shell
    /// awaits its configure.
    pub open spec fn after_commit(self) -> SessionView {
        if self.stage == Stage::SurfaceRequested {
            SessionView { stage: Stage::ConfigPending, ..self }
        } else {
            self
        }
    }

    /// The registry after an advertisement; it is frozen once a shell is
    /// elected.
    pub open spec fn after_global(self, name: u32, interface: Seq<u8>) -> SessionView {
        if self.stage != Stage::Unselected {
            self
        } else {
            match classify(interface) {
                Advertised::Bind(InterfaceKind::Compositor) => SessionView {
                    compositor: Some(name),
                    ..self
                },
                Advertised::Bind(InterfaceKind::Shm) => SessionView { shm: Some(name), ..self },
                Advertised::Bind(InterfaceKind::WlShell) => SessionView {
                    wl_shell: Some(name),
                    ..self
                },
                Advertised::Bind(InterfaceKind::XdgWmBase) => SessionView {
                    xdg_wm_base: Some(name),
                    ..self
                },
                Advertised::Marker(id) => SessionView { compositor_id: id, ..self },
                Advertised::Ignored => self,
            }
        }
    }

    /// The session after the compositor configured the shell surface.
    pub open spec fn after_configure(self) -> SessionView {
        if self.shell_id == ShellId::XdgWmBase && self.stage == Stage::ConfigPending {
            SessionView { stage: Stage::Configured, ..self }
        } else {
            self
        }
    }

    /// The session after an event.
    pub open spec fn after_event(self, e: Event) -> SessionView {
        match e {
            Event::Global { name, interface } => self.after_global(name, interface@),
            Event::Configure { serial } => self.after_configure(),
            Event::FrameDone => match self.window {
                Some(w) => SessionView { window: Some(w.redrawn()), ..self },
                None => self,
            },
            _ => self,
        }
    }

    /// What the client sends in answer to an advertisement: a bind request
    /// for the interfaces it uses, while the registry is read.
    pub open spec fn reply_to_global(self, name: u32, interface: Seq<u8>) -> Reply {
        if self.stage != Stage::Unselected {
            Reply::Nothing
        } else {
            match classify(interface) {
                Advertised::Bind(kind) => Reply::Bind { name, kind },
                _ => Reply::Nothing,
            }
        }
    }

    /// What the client sends in answer to an event.
    pub open spec fn reply(self, e: Event) -> Reply {
        match e {
            Event::Global { name, interface } => self.reply_to_global(name, interface@),
            Event::ShellPing { serial } => Reply::ShellPong { serial },
            Event::WmBasePing { serial } => Reply::WmBasePong { serial },
            Event::Configure { serial } => Reply::AckConfigure { serial },
            Event::FrameDone => match self.window {
                Some(w) => Reply::Present(w.redrawn().presentation()),
                None => Reply::Nothing,
            },
        }
    }

    /// The session after a run of events.
    pub open spec fn after_events(self, es: Seq<Event>) -> SessionView
        decreases es.len(),
    {
        if es.len() == 0 {
            self
        } else {
            self.after_events(es.drop_last()).after_event(es.last())
        }
    }

    /// Whether a pool may be made for `width` by `height` pixels and
    /// `count` buffers, and which condition stops it.
    pub open spec fn pool_admission(self, width: int, height: int, count: nat) -> Result<
        (),
        SetupError,
    > {
        if self.shm is None {
            Err(SetupError::NoShm)
        } else if self.stage != Stage::Configured {
            Err(SetupError::NotConfigured)
        } else if !valid_layout(width, height) || count == 0 {
            Err(SetupError::InvalidSize)
        } else {
            Ok(())
        }
    }
}

/// Once the registry is frozen without a shared-memory allocator, no run of
/// events brings one, makes a window or asks for a submission, and a pool is
/// refused whatever its size.
pub proof fn lemma_no_shm_never_presents(s: SessionView, es: Seq<Event>)
    requires
        s.stage != Stage::Unselected,
        s.shm is None,
        s.window is None,
    ensures
        s.after_events(es).shm is None,
        s.after_events(es).window is None,
        s.after_events(es).stage != Stage::Unselected,
        forall|i: int| 0 <= i < es.len() ==> !(s.after_events(es.take(i)).reply(es[i]) is Present),
        forall|w: int, h: int, n: nat| s.after_events(es).pool_admission(w, h, n) == Err::<
            (),
            SetupError,
        >(SetupError::NoShm),
    decreases es.len(),
{
    if es.len() > 0 {
        lemma_no_shm_never_presents(s, es.drop_last());
        assert forall|i: int| 0 <= i < es.len() implies !(s.after_events(es.take(i)).reply(
            es[i],
        ) is Present) by {
            if i < es.len() - 1 {
                assert(es.take(i) == es.drop_last().take(i));
                assert(es[i] == es.drop_last()[i]);
            } else {
                assert(es.take(i) =~= es.drop_last());
            }
        }
    }
}

/// The state of one client session, threaded through every handler.
pub struct InterfaceInfo {
    compositor_id: CompositorId,
    compositor: Option<u32>,
    shm: Option<u32>,
    wl_shell: Option<u32>,
    xdg_wm_base: Option<u32>,
    shell_id: ShellId,
    stage: Stage,
    window: Option<Window>,
}

impl View for InterfaceInfo {
    type V = SessionView;

    closed spec fn view(&self) -> SessionView {
        SessionView {
            compositor_id: self.compositor_id,
            compositor: self.compositor,
            shm: self.shm,
            wl_shell: self.wl_shell,
            xdg_wm_base: self.xdg_wm_base,
            shell_id: self.shell_id,
            stage: self.stage,
            window: match self.window {
                Some(w) => Some(w@),
                None => None,
            },
        }
    }
}

impl InterfaceInfo {
    pub closed spec fn inv(&self) -> bool {
        &&& self@.wf()
        &&& match self.window {
            Some(w) => w.inv(),
            None => true,
        }
    }

    /// A consistent session has a consistent view.
    pub proof fn lemma_inv_wf(&self)
        requires
            self.inv(),
        ensures
            self@.wf(),
    {
    }

    /// A session with an empty registry.
    pub fn new() -> (r: InterfaceInfo)
        ensures
            r.inv(),
            r@ == SessionView::initial(),
    {
        InterfaceInfo {
            compositor_id: CompositorId::Unknown,
            compositor: None,
            shm: None,
            wl_shell: None,
            xdg_wm_base: None,
            shell_id: ShellId::Unknown,
            stage: Stage::Unselected,
            window: None,
        }
    }

    /// The compositor guessed from the registry.
    pub fn compositor_id(&self) -> (r: CompositorId)
        ensures
            r == self@.compositor_id,
    {
        self.compositor_id
    }

    /// Whether the shared-memory allocator was bound.
    pub fn has_shm(&self) -> (r: bool)
        ensures
            r == self@.shm is Some,
    {
        self.shm.is_some()
    }

    /// The shell elected.
    pub fn shell_id(&self) -> (r: ShellId)
        ensures
            r == self@.shell_id,
    {
        self.shell_id
    }

    /// How far the negotiation has come.
    pub fn stage(&self) -> (r: Stage)
        ensures
            r == self@.stage,
    {
        self.stage
    }

    /// Whether buffers may be attached.
    pub fn is_configured(&self) -> (r: bool)
        ensures
            r == (self@.stage == Stage::Configured),
    {
        self.stage == Stage::Configured
    }

    /// The window, once there is one.
    pub fn window(&self) -> (r: &Option<Window>)
        ensures
            r == self.window_spec(),
    {
        &self.window
    }

    pub closed spec fn window_spec(&self) -> Option<Window> {
        self.window
    }

    fn on_global(&mut self, name: u32, interface: &[u8]) -> (r: Reply)
        ensures
            final(self).window_spec() == old(self).window_spec(),
            final(self)@ == old(self)@.after_global(name, interface@),
            r == old(self)@.reply_to_global(name, interface@),
    {
        if self.stage != Stage::Unselected {
            return Reply::Nothing;
        }
        match classify_interface(interface) {
            Advertised::Bind(kind) => {
                match kind {
                    InterfaceKind::Compositor => self.compositor = Some(name),
                    InterfaceKind::Shm => self.shm = Some(name),
                    InterfaceKind::WlShell => self.wl_shell = Some(name),
                    InterfaceKind::XdgWmBase => self.xdg_wm_base = Some(name),
                }
                Reply::Bind { name, kind }
            },
            Advertised::Marker(id) => {
                self.compositor_id = id;
                Reply::Nothing
            },
            Advertised::Ignored => Reply::Nothing,
        }
    }

    /// Handles one event: updates the session and returns what to send.
    pub fn handle(&mut self, event: Event) -> (r: Reply)
        requires
            old(self).inv(),
        ensures
            final(self).inv(),
            final(self)@ == old(self)@.after_event(event),
            r == old(self)@.reply(event),
    {
        match event {
            Event::Global { name, interface } => {
                let r = self.on_global(name, interface.as_slice());
                r
            },
            Event::ShellPing { serial } => Reply::ShellPong { serial },
            Event::WmBasePing { serial } => Reply::WmBasePong { serial },
            Event::Configure { serial } => {
                if self.shell_id == ShellId::XdgWmBase && self.stage == Stage::ConfigPending {
                    self.stage = Stage::Configured;
                }
                Reply::AckConfigure { serial }
            },
            Event::FrameDone => match &mut self.window {
                Some(w) => Reply::Present(w.frame_done()),
                None => Reply::Nothing,
            },
        }
    }

    /// Records that the surface was committed once after its shell surface
    /// was asked for: the stable shell then awaits its configure.
    pub fn surface_committed(&mut self)
        requires
            old(self).inv(),
        ensures
            final(self).inv(),
            final(self).window_spec() == old(self).window_spec(),
            final(self)@ == old(self)@.after_commit(),
    {
        if self.stage == Stage::SurfaceRequested {
            self.stage = Stage::ConfigPending;
        }
    }

    /// Gives the session its window.
    pub fn set_window(&mut self, window: Window)
        requires
            old(self).inv(),
            old(self)@.stage == Stage::Configured,
            window.inv(),
        ensures
            final(self).inv(),
            final(self)@ == (SessionView { window: Some(window@), ..old(self)@ }),
    {
        self.window = Some(window);
    }
}

/// Elects the shell protocol from the frozen registry: the stable one if
/// offered, else the deprecated one. The choice is made once; a later call
/// returns it again and changes nothing.
pub fn elect_shell(info: &mut InterfaceInfo) -> (r: Result<ShellId, SetupError>)
    requires
        old(info).inv(),
    ensures
        final(info).inv(),
        final(info).window_spec() == old(info).window_spec(),
        r == old(info)@.election_result(),
        final(info)@ == old(info)@.after_election(),
{
    if info.stage != Stage::Unselected {
        return Ok(info.shell_id);
    }
    if info.xdg_wm_base.is_some() {
        info.shell_id = ShellId::XdgWmBase;
        info.stage = Stage::Selected;
        Ok(ShellId::XdgWmBase)
    } else if info.wl_shell.is_some() {
        info.shell_id = ShellId::WlShell;
        info.stage = Stage::Selected;
        Ok(ShellId::WlShell)
    } else {
        Err(SetupError::NoCompatibleShell)
    }
}

/// Shell election is a function of the registry: the stable shell whenever
/// it is offered, the deprecated one when it alone is, and failure when
/// neither is.
pub proof fn lemma_election_deterministic(s: SessionView)
    ensures
        s.xdg_wm_base is Some ==> s.elected() == Some(ShellId::XdgWmBase),
        s.xdg_wm_base is None && s.wl_shell is Some ==> s.elected() == Some(ShellId::WlShell),
        s.xdg_wm_base is None && s.wl_shell is None ==> s.elected() is None,
        s.xdg_wm_base is Some ==> s.election_result() == Ok::<ShellId, SetupError>(
            ShellId::XdgWmBase,
        ),
        s.xdg_wm_base is None && s.wl_shell is Some ==> s.election_result() == Ok::<
            ShellId,
            SetupError,
        >(ShellId::WlShell),
        s.xdg_wm_base is None && s.wl_shell is None ==> s.election_result() == Err::<
            ShellId,
            SetupError,
        >(SetupError::NoCompatibleShell),
        s.wf() ==> s.after_election().wf() && s.after_election().election_result()
            == s.election_result(),
{
}

/// Asks for the window's shell surface with the elected protocol. With the
/// deprecated protocol the surface is configured at once; the stable one
/// awaits the compositor's configure.
pub fn create_shell_surface(info: &mut InterfaceInfo) -> (r: Result<ShellSurface, SetupError>)
    requires
        old(info).inv(),
    ensures
        final(info).inv(),
        final(info).window_spec() == old(info).window_spec(),
        r == old(info)@.shell_surface_result(),
        final(info)@ == old(info)@.after_shell_surface(),
{
    if info.stage != Stage::Selected {
        return Err(SetupError::OutOfOrder);
    }
    if info.compositor.is_none() {
        return Err(SetupError::NoCompositor);
    }
    match info.shell_id {
        ShellId::WlShell => {
            info.stage = Stage::Configured;
            Ok(ShellSurface::WlShellSurface)
        },
        ShellId::XdgWmBase => {
            info.stage = Stage::SurfaceRequested;
            Ok(ShellSurface::XdgShellSurface)
        },
        ShellId::Unknown => Err(SetupError::OutOfOrder),
    }
}

/// With the deprecated shell offered and the stable one not, beside the
/// surface manager and the allocator: the deprecated shell is elected, its
/// surface is configured as soon as it is asked for, with no event and no
/// acknowledgment, and stays so through the first commit; a pool of two
/// buffers is then admitted for every valid size. Its window names buffer
/// `i` after the title and ordinal `i`, and the first redraw targets
/// buffer 1 with its cursor one pattern in.
pub proof fn lemma_legacy_path(s: SessionView, title: Seq<u8>, layout: BufferLayout)
    requires
        s.stage == Stage::Unselected,
        s.compositor is Some,
        s.shm is Some,
        s.wl_shell is Some,
        s.xdg_wm_base is None,
        s.window is None,
        layout.wf(),
    ensures
        s.election_result() == Ok::<ShellId, SetupError>(ShellId::WlShell),
        s.after_election().shell_surface_result() == Ok::<ShellSurface, SetupError>(
            ShellSurface::WlShellSurface,
        ),
        s.after_election().after_shell_surface().stage == Stage::Configured,
        s.after_election().after_shell_surface().after_commit().stage == Stage::Configured,
        s.after_election().after_shell_surface().after_commit().wf(),
        s.after_election().after_shell_surface().after_commit().pool_admission(
            layout.width as int,
            layout.height as int,
            BUFFER_COUNT as nat,
        ) == Ok::<(), SetupError>(()),
        Window::initial(title, BUFFER_COUNT as nat, layout).names == seq![
            shm_name_of(title, 0),
            shm_name_of(title, 1),
        ],
        Window::initial(title, BUFFER_COUNT as nat, layout).redrawn().current == 1,
        Window::initial(title, BUFFER_COUNT as nat, layout).redrawn().presentation().buffer == 1,
        Window::initial(title, BUFFER_COUNT as nat, layout).redrawn().cursors[1] == MOTIF_LEN,
{
    let w = Window::initial(title, BUFFER_COUNT as nat, layout);
    assert(w.names =~= seq![shm_name_of(title, 0), shm_name_of(title, 1)]);
}

/// Starts the pool of `count` buffers of `width` by `height` pixels named
/// after `title`. Refused without a shared-memory allocator, before the
/// shell surface is configured, and for sizes that cannot make a pool.
pub fn create_buffer_pool(info: &InterfaceInfo, title: &[u8], width: i32, height: i32, count: usize) -> (r:
    Result<PoolBuilder, SetupError>)
    ensures
        r is Err <==> info@.pool_admission(width as int, height as int, count as nat) is Err,
        r matches Err(e) ==> info@.pool_admission(width as int, height as int, count as nat)
            == Err::<(), SetupError>(e),
        r matches Ok(b) ==> {
            &&& b.inv()
            &&& b@ == PoolModel::start(count as nat)
            &&& b.title() == title@
            &&& b.spec_layout() == (BufferLayout { width, height })
        },
{
    if info.shm.is_none() {
        return Err(SetupError::NoShm);
    }
    if info.stage != Stage::Configured {
        return Err(SetupError::NotConfigured);
    }
    if count == 0 {
        return Err(SetupError::InvalidSize);
    }
    match BufferLayout::new(width, height) {
        Some(layout) => Ok(PoolBuilder::new(title, layout, count)),
        None => Err(SetupError::InvalidSize),
    }
}

/// Redraws the window, if there is one, and returns the submission to make.
pub fn redraw_window(info: &mut InterfaceInfo) -> (r: Option<Presentation>)
    requires
        old(info).inv(),
    ensures
        final(info).inv(),
        match old(info)@.window {
            Some(w) => r == Some(w.redrawn().presentation()) && final(info)@ == (SessionView {
                window: Some(w.redrawn()),
                ..old(info)@
            }),
            None => r is None && final(info)@ == old(info)@,
        },
{
    match &mut info.window {
        Some(w) => Some(w.redraw()),
        None => None,
    }
}

/// Takes the window down and returns the shared-memory names to unlink, each
/// once; there is nothing left to unlink afterwards.
pub fn destroy_window(info: &mut InterfaceInfo) -> (r: Vec<Vec<u8>>)
    requires
        old(info).inv(),
    ensures
        final(info).inv(),
        final(info)@ == (SessionView { window: None, ..old(info)@ }),
        match old(info)@.window {
            Some(w) => r@.len() == w.names.len() && forall|i: int|
                0 <= i < r@.len() ==> #[trigger] r@[i]@ == w.names[i],
            None => r@.len() == 0,
        },
{
    let taken = info.window.take();
    match taken {
        Some(w) => w.into_names(),
        None => Vec::new(),
    }
}

} // verus!
