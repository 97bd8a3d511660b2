//! The compositor: lifecycle, client slots, global registry and request
//! dispatch.
use vstd::prelude::*;
use vstd::string::StringSliceAdditionalSpecFns;

use super::protocol::{GlobalEntry, Interface, Message, MessageType, ObjectId};
use super::surface::{holds_id, is_first_empty, is_first_with_id, occupied, count_occupied, Surface, SurfaceManager};
use crate::terminal::Screen;
use crate::utils::{decimal, print_number};

verus! {

/// Number of client slots.
pub const MAX_CLIENTS: usize = 8;

/// Number of registry slots.
pub const MAX_GLOBALS: usize = 16;

pub const MSG_ALREADY_RUNNING: &'static str = "Wayland compositor is already running.\n";
pub const MSG_STARTED: &'static str = "=== Wayland Compositor Started ===\nCompositor state: Running\nListening for client connections...\n\nGlobal interfaces registered:\n";
pub const MSG_START_HINTS: &'static str = "\nUse 'wayland status' to check compositor status\nUse 'wayland stop' to stop the compositor\n";
pub const MSG_NOT_RUNNING: &'static str = "Wayland compositor is not running.\n";
pub const MSG_STOPPED: &'static str = "Wayland compositor stopped.\n";
pub const MSG_STATUS_TITLE: &'static str = "=== Wayland Compositor Status ===\n";
pub const MSG_STATE_RUNNING: &'static str = "State: Running\n";
pub const MSG_STATE_STOPPED: &'static str = "State: Stopped\n";
pub const MSG_CLIENTS: &'static str = "Connected clients: ";
pub const MSG_SURFACES: &'static str = "Active surfaces: ";
pub const MSG_GLOBALS: &'static str = "Registered globals: ";
pub const MSG_NEWLINE: &'static str = "\n";
pub const MSG_ITEM: &'static str = "  - ";
pub const MSG_VERSION: &'static str = " (version ";
pub const MSG_ITEM_END: &'static str = ")\n";
pub const MSG_SYNC: &'static str = "[Wayland] Display sync\n";
pub const MSG_REGISTRY: &'static str = "[Wayland] Get registry\n";
pub const MSG_BIND: &'static str = "[Wayland] Bind interface\n";
pub const MSG_CREATED: &'static str = "[Wayland] Created surface ID: ";
pub const MSG_ATTACHED: &'static str = "[Wayland] Buffer attached to surface\n";
pub const MSG_COMMITTED: &'static str = "[Wayland] Surface committed\n";
pub const MSG_DESTROYED: &'static str = "[Wayland] Surface destroyed\n";

/// Whether the compositor serves clients.
#[derive(Debug, Clone, Copy, PartialEq, Eq, Structural)]
pub enum CompositorState {
    Stopped,
    Running,
}

/// A client connection.
#[derive(Debug, Clone, Copy, PartialEq, Eq, Structural)]
pub struct Client {
    pub id: u32,
    pub connected: bool,
}

impl Client {
    pub fn new(id: u32) -> (r: Client)
        ensures
            r == (Client { id, connected: true }),
    {
        Client { id, connected: true }
    }
}

/// The registry listing that `start` prints for the given slots.
pub open spec fn listing(globals: Seq<Option<GlobalEntry>>) -> Seq<u8>
    decreases globals.len(),
{
    if globals.len() == 0 {
        Seq::empty()
    } else {
        listing(globals.drop_last()) + match globals.last() {
            Some(g) => MSG_ITEM.spec_bytes() + g.interface.spec_name().spec_bytes()
                + MSG_VERSION.spec_bytes() + decimal(g.version as nat) + MSG_ITEM_END.spec_bytes(),
            None => Seq::empty(),
        }
    }
}

/// The first empty client slot.
pub open spec fn is_first_free_client(slots: Seq<Option<Client>>, k: int) -> bool {
    &&& 0 <= k < slots.len()
    &&& slots[k] is None
    &&& forall|j: int| 0 <= j < k ==> slots[j] is Some
}

/// `slot` holds the client with id `id`.
pub open spec fn client_is(slot: Option<Client>, id: u32) -> bool {
    slot matches Some(c) && c.id == id
}

/// The first slot holding the client with id `id`.
pub open spec fn is_first_client(slots: Seq<Option<Client>>, k: int, id: u32) -> bool {
    &&& 0 <= k < slots.len()
    &&& client_is(slots[k], id)
    &&& forall|j: int| 0 <= j < k ==> !client_is(slots[j], id)
}

/// The display server state.
pub struct WaylandCompositor {
    state: CompositorState,
    surface_manager: SurfaceManager,
    clients: Vec<Option<Client>>,
    next_client_id: u32,
    globals: Vec<Option<GlobalEntry>>,
    global_count: usize,
}

impl WaylandCompositor {
    pub closed spec fn state(&self) -> CompositorState {
        self.state
    }

    pub closed spec fn surfaces(&self) -> SurfaceManager {
        self.surface_manager
    }

    pub closed spec fn clients(&self) -> Seq<Option<Client>> {
        self.clients@
    }

    pub closed spec fn next_client(&self) -> u32 {
        self.next_client_id
    }

    pub closed spec fn globals(&self) -> Seq<Option<GlobalEntry>> {
        self.globals@
    }

    pub closed spec fn global_count(&self) -> usize {
        self.global_count
    }

    pub open spec fn wf(&self) -> bool {
        &&& self.clients().len() == MAX_CLIENTS
        &&& self.globals().len() == MAX_GLOBALS
        &&& self.global_count() <= MAX_GLOBALS
        &&& self.surfaces().wf()
        // every connected client has an id below the next one
        &&& forall|k: int| 0 <= k < MAX_CLIENTS && (#[trigger] self.clients()[k]) is Some
            ==> self.clients()[k]->0.id < self.next_client()
    }

    /// A stopped compositor with nothing registered.
    pub fn empty() -> (r: WaylandCompositor)
        ensures
            r.wf(),
            r.state() == CompositorState::Stopped,
            r.clients() == Seq::new(MAX_CLIENTS as nat, |i: int| None::<Client>),
            r.next_client() == 1,
            r.globals() == Seq::new(MAX_GLOBALS as nat, |i: int| None::<GlobalEntry>),
            r.global_count() == 0,
    {
        let mut clients: Vec<Option<Client>> = Vec::new();
        let mut i: usize = 0;
        while i < MAX_CLIENTS
            invariant
                i <= MAX_CLIENTS,
                clients@ == Seq::new(i as nat, |j: int| None::<Client>),
            decreases MAX_CLIENTS - i,
        {
            clients.push(None);
            i += 1;
            assert(clients@ =~= Seq::new(i as nat, |j: int| None::<Client>));
        }
        let mut globals: Vec<Option<GlobalEntry>> = Vec::new();
        let mut k: usize = 0;
        while k < MAX_GLOBALS
            invariant
                k <= MAX_GLOBALS,
                globals@ == Seq::new(k as nat, |j: int| None::<GlobalEntry>),
            decreases MAX_GLOBALS - k,
        {
            globals.push(None);
            k += 1;
            assert(globals@ =~= Seq::new(k as nat, |j: int| None::<GlobalEntry>));
        }
        WaylandCompositor {
            state: CompositorState::Stopped,
            surface_manager: SurfaceManager::empty(),
            clients,
            next_client_id: 1,
            globals,
            global_count: 0,
        }
    }

    /// Stops the compositor, drops every client and surface, and registers
    /// the compositor, seat and output globals after those already there.
    pub fn init(&mut self)
        requires
            old(self).wf(),
        ensures
            final(self).wf(),
            final(self).state() == CompositorState::Stopped,
            final(self).clients() == Seq::new(MAX_CLIENTS as nat, |i: int| None::<Client>),
            final(self).next_client() == 1,
            final(self).surfaces().slots() == Seq::new(32, |i: int| None::<Surface>),
            old(self).global_count() + 3 <= MAX_GLOBALS ==> {
                let n = old(self).global_count() as int;
                &&& final(self).global_count() == n + 3
                &&& final(self).globals() == old(self).globals().update(
                    n,
                    Some(GlobalEntry { name: n as u32, interface: Interface::Compositor, version: 4 }),
                ).update(
                    n + 1,
                    Some(GlobalEntry { name: (n + 1) as u32, interface: Interface::Seat, version: 7 }),
                ).update(
                    n + 2,
                    Some(GlobalEntry { name: (n + 2) as u32, interface: Interface::Output, version: 3 }),
                )
            },
    {
        self.state = CompositorState::Stopped;
        self.surface_manager.init();
        let mut i: usize = 0;
        while i < self.clients.len()
            invariant
                self.wf(),
                0 <= i <= MAX_CLIENTS,
                self.globals == old(self).globals,
                self.global_count == old(self).global_count,
                self.state == CompositorState::Stopped,
                self.surface_manager.slots() == Seq::new(32, |i: int| None::<Surface>),
                forall|j: int| 0 <= j < i ==> self.clients@[j] is None,
            decreases MAX_CLIENTS - i,
        {
            self.clients.set(i, None);
            i += 1;
        }
        assert(self.clients@ =~= Seq::new(MAX_CLIENTS as nat, |i: int| None::<Client>));
        self.next_client_id = 1;
        self.register_global(Interface::Compositor, 4);
        self.register_global(Interface::Seat, 7);
        self.register_global(Interface::Output, 3);
    }

    /// Starts serving clients and prints the registered globals.
    pub fn start(&mut self, screen: &mut Screen)
        requires
            old(self).wf(),
        ensures
            final(self).wf(),
            final(self).state() == CompositorState::Running,
            old(self).state() == CompositorState::Running ==> *final(self) == *old(self),
            final(self).next_client() == old(self).next_client(),
            final(self).clients() == old(self).clients(),
            final(self).globals() == old(self).globals(),
            final(self).global_count() == old(self).global_count(),
            final(self).surfaces() == old(self).surfaces(),
            final(screen)@ == old(screen)@ + if old(self).state() == CompositorState::Running {
                MSG_ALREADY_RUNNING.spec_bytes()
            } else {
                MSG_STARTED.spec_bytes() + listing(
                    old(self).globals().subrange(0, old(self).global_count() as int),
                ) + MSG_START_HINTS.spec_bytes()
            },
    {
        if self.state == CompositorState::Running {
            screen.puts(MSG_ALREADY_RUNNING);
            return;
        }
        self.state = CompositorState::Running;
        screen.puts(MSG_STARTED);
        let ghost base = screen@;
        let mut i: usize = 0;
        while i < self.global_count
            invariant
                self.wf(),
                0 <= i <= self.global_count,
                screen@ == base + listing(self.globals@.subrange(0, i as int)),
            decreases self.global_count - i,
        {
            let ghost before = screen@;
            assert(self.globals@.subrange(0, i as int + 1).drop_last() =~= self.globals@.subrange(0, i as int));
            if let Some(global) = self.globals[i] {
                screen.puts(MSG_ITEM);
                screen.puts(global.interface.name());
                screen.puts(MSG_VERSION);
                print_number(screen, global.version as usize);
                screen.puts(MSG_ITEM_END);
            }
            i += 1;
            assert(screen@ =~= base + listing(self.globals@.subrange(0, i as int)));
        }
        screen.puts(MSG_START_HINTS);
    }

    /// Stops serving: every client is marked disconnected.
    pub fn stop(&mut self, screen: &mut Screen)
        requires
            old(self).wf(),
        ensures
            final(self).wf(),
            final(self).state() == CompositorState::Stopped,
            final(self).globals() == old(self).globals(),
            final(self).global_count() == old(self).global_count(),
            final(self).surfaces() == old(self).surfaces(),
            final(self).next_client() == old(self).next_client(),
            old(self).state() == CompositorState::Stopped ==> final(self).clients() == old(
                self,
            ).clients() && final(screen)@ == old(screen)@ + MSG_NOT_RUNNING.spec_bytes(),
            old(self).state() == CompositorState::Running ==> final(screen)@ == old(screen)@
                + MSG_STOPPED.spec_bytes() && final(self).clients() == old(self).clients().map_values(
                |c: Option<Client>|
                    match c {
                        Some(c) => Some(Client { connected: false, ..c }),
                        None => None,
                    },
            ),
    {
        if self.state == CompositorState::Stopped {
            screen.puts(MSG_NOT_RUNNING);
            return;
        }
        let mut i: usize = 0;
        while i < self.clients.len()
            invariant
                self.wf(),
                0 <= i <= MAX_CLIENTS,
                self.state == old(self).state,
                self.globals == old(self).globals,
                self.global_count == old(self).global_count,
                self.surface_manager == old(self).surface_manager,
                self.next_client_id == old(self).next_client_id,
                forall|j: int| 0 <= j < i ==> self.clients@[j] == match old(self).clients@[j] {
                    Some(c) => Some(Client { connected: false, ..c }),
                    None => None,
                },
                forall|j: int| i <= j < MAX_CLIENTS ==> self.clients@[j] == old(self).clients@[j],
            decreases MAX_CLIENTS - i,
        {
            if let Some(c) = self.clients[i] {
                self.clients.set(i, Some(Client { id: c.id, connected: false }));
            }
            i += 1;
        }
        self.state = CompositorState::Stopped;
        screen.puts(MSG_STOPPED);
        assert(self.clients() =~= old(self).clients().map_values(
            |c: Option<Client>|
                match c {
                    Some(c) => Some(Client { connected: false, ..c }),
                    None => None,
                },
        ));
    }

    /// Prints the state and the numbers of clients, surfaces and globals.
    pub fn status(&self, screen: &mut Screen)
        requires
            self.wf(),
        ensures
            final(screen)@ == old(screen)@ + MSG_STATUS_TITLE.spec_bytes() + (
            if self.state() == CompositorState::Running {
                MSG_STATE_RUNNING.spec_bytes()
            } else {
                MSG_STATE_STOPPED.spec_bytes()
            }) + MSG_CLIENTS.spec_bytes() + decimal(occupied(self.clients()))
                + MSG_NEWLINE.spec_bytes() + MSG_SURFACES.spec_bytes() + decimal(
                occupied(self.surfaces().slots()),
            ) + MSG_NEWLINE.spec_bytes() + MSG_GLOBALS.spec_bytes() + decimal(
                self.global_count() as nat,
            ) + MSG_NEWLINE.spec_bytes(),
    {
        screen.puts(MSG_STATUS_TITLE);
        match self.state {
            CompositorState::Running => screen.puts(MSG_STATE_RUNNING),
            CompositorState::Stopped => screen.puts(MSG_STATE_STOPPED),
        }
        screen.puts(MSG_CLIENTS);
        let client_count = self.count_clients();
        print_number(screen, client_count);
        screen.puts(MSG_NEWLINE);
        screen.puts(MSG_SURFACES);
        let surface_count = self.surface_manager.count_surfaces();
        print_number(screen, surface_count);
        screen.puts(MSG_NEWLINE);
        screen.puts(MSG_GLOBALS);
        print_number(screen, self.global_count);
        screen.puts(MSG_NEWLINE);
    }

    pub fn is_running(&self) -> (r: bool)
        ensures
            r == (self.state() == CompositorState::Running),
    {
        self.state == CompositorState::Running
    }

    /// Gives a new client the first free slot and the next id; nothing when
    /// every slot is taken.
    pub fn connect_client(&mut self) -> (r: Option<u32>)
        requires
            old(self).wf(),
            old(self).next_client() < u32::MAX,
        ensures
            final(self).wf(),
            final(self).state() == old(self).state(),
            final(self).globals() == old(self).globals(),
            final(self).global_count() == old(self).global_count(),
            final(self).surfaces() == old(self).surfaces(),
            r is None <==> forall|k: int| 0 <= k < MAX_CLIENTS ==> old(self).clients()[k] is Some,
            r is None ==> final(self).clients() == old(self).clients() && final(self).next_client()
                == old(self).next_client(),
            r matches Some(id) ==> {
                &&& id == old(self).next_client()
                &&& forall|k: int| 0 <= k < MAX_CLIENTS ==> !client_is(#[trigger] old(self).clients()[k], id)
                &&& final(self).next_client() == id + 1
                &&& exists|k: int|
                    is_first_free_client(old(self).clients(), k) && final(self).clients() == old(
                        self,
                    ).clients().update(k, Some(Client { id, connected: true }))
            },
    {
        let mut i: usize = 0;
        while i < self.clients.len()
            invariant
                self.wf(),
                *self == *old(self),
                old(self).next_client() < u32::MAX,
                0 <= i <= MAX_CLIENTS,
                forall|j: int| 0 <= j < i ==> self.clients@[j] is Some,
            decreases MAX_CLIENTS - i,
        {
            if self.clients[i].is_none() {
                let id = self.next_client_id;
                self.next_client_id = self.next_client_id + 1;
                self.clients.set(i, Some(Client::new(id)));
                assert(is_first_free_client(old(self).clients(), i as int));
                return Some(id);
            }
            i += 1;
        }
        None
    }

    /// Frees the first slot of the client with id `client_id`, if any.
    pub fn disconnect_client(&mut self, client_id: u32)
        requires
            old(self).wf(),
        ensures
            final(self).wf(),
            final(self).state() == old(self).state(),
            final(self).globals() == old(self).globals(),
            final(self).global_count() == old(self).global_count(),
            final(self).surfaces() == old(self).surfaces(),
            final(self).next_client() == old(self).next_client(),
            (forall|k: int| 0 <= k < MAX_CLIENTS ==> !client_is(old(self).clients()[k], client_id))
                ==> final(self).clients() == old(self).clients(),
            (exists|k: int| 0 <= k < MAX_CLIENTS && client_is(old(self).clients()[k], client_id))
                ==> exists|k: int|
                is_first_client(old(self).clients(), k, client_id) && final(self).clients() == old(
                    self,
                ).clients().update(k, None),
    {
        let mut i: usize = 0;
        while i < self.clients.len()
            invariant
                self.wf(),
                *self == *old(self),
                0 <= i <= MAX_CLIENTS,
                forall|j: int| 0 <= j < i ==> !client_is(self.clients@[j], client_id),
            decreases MAX_CLIENTS - i,
        {
            if let Some(client) = self.clients[i] {
                if client.id == client_id {
                    self.clients.set(i, None);
                    assert(is_first_client(old(self).clients(), i as int, client_id));
                    return;
                }
            }
            i += 1;
        }
    }

    /// The number of occupied client slots.
    pub fn count_clients(&self) -> (r: usize)
        ensures
            r == occupied(self.clients()),
    {
        count_occupied(&self.clients)
    }

    /// Adds a global to the registry, named by its position, if there is
    /// room.
    fn register_global(&mut self, interface: Interface, version: u32)
        requires
            old(self).wf(),
        ensures
            final(self).wf(),
            final(self).state() == old(self).state(),
            final(self).clients() == old(self).clients(),
            final(self).next_client() == old(self).next_client(),
            final(self).surfaces() == old(self).surfaces(),
            old(self).global_count() < MAX_GLOBALS ==> {
                &&& final(self).global_count() == old(self).global_count() + 1
                &&& final(self).globals() == old(self).globals().update(
                    old(self).global_count() as int,
                    Some(GlobalEntry { name: old(self).global_count() as u32, interface, version }),
                )
            },
            old(self).global_count() >= MAX_GLOBALS ==> final(self).global_count() == old(
                self,
            ).global_count() && final(self).globals() == old(self).globals(),
    {
        if self.global_count < self.globals.len() {
            self.globals.set(
                self.global_count,
                Some(GlobalEntry { name: self.global_count as u32, interface, version }),
            );
            self.global_count += 1;
        }
    }

    /// Dispatches one request and reports what was done.
    pub fn handle_message(&mut self, msg: Message, screen: &mut Screen)
        requires
            old(self).wf(),
            old(self).surfaces().next() < u32::MAX,
        ensures
            final(self).wf(),
            final(self).state() == old(self).state(),
            final(self).clients() == old(self).clients(),
            final(self).next_client() == old(self).next_client(),
            final(self).globals() == old(self).globals(),
            final(self).global_count() == old(self).global_count(),
            match msg.message_type {
                MessageType::DisplaySync => final(self).surfaces() == old(self).surfaces()
                    && final(screen)@ == old(screen)@ + MSG_SYNC.spec_bytes(),
                MessageType::DisplayGetRegistry => final(self).surfaces() == old(self).surfaces()
                    && final(screen)@ == old(screen)@ + MSG_REGISTRY.spec_bytes(),
                MessageType::RegistryBind => final(self).surfaces() == old(self).surfaces()
                    && final(screen)@ == old(screen)@ + MSG_BIND.spec_bytes(),
                MessageType::CompositorCreateSurface => if forall|k: int|
                    0 <= k < 32 ==> old(self).surfaces().slots()[k] is Some {
                    final(self).surfaces() == old(self).surfaces() && final(screen)@ == old(screen)@
                } else {
                    let id = old(self).surfaces().next();
                    &&& final(self).surfaces().next() == id + 1
                    &&& exists|k: int|
                        is_first_empty(old(self).surfaces().slots(), k) && final(self).surfaces().slots()
                            == old(self).surfaces().slots().update(k, Some(Surface::spec_new(id)))
                    &&& final(screen)@ == old(screen)@ + MSG_CREATED.spec_bytes() + decimal(id as nat)
                        + MSG_NEWLINE.spec_bytes()
                },
                MessageType::SurfaceAttach => surface_changed(
                    old(self).surfaces(),
                    final(self).surfaces(),
                    msg.object_id,
                    |s: Surface| Surface { buffer_attached: true, ..s },
                ) && final(screen)@ == old(screen)@ + if holds_id(old(self).surfaces().slots(), msg.object_id) {
                    MSG_ATTACHED.spec_bytes()
                } else {
                    Seq::empty()
                },
                MessageType::SurfaceCommit => surface_changed(
                    old(self).surfaces(),
                    final(self).surfaces(),
                    msg.object_id,
                    |s: Surface| Surface { visible: true, ..s },
                ) && final(screen)@ == old(screen)@ + if holds_id(old(self).surfaces().slots(), msg.object_id) {
                    MSG_COMMITTED.spec_bytes()
                } else {
                    Seq::empty()
                },
                MessageType::SurfaceDestroy => final(self).surfaces().next() == old(self).surfaces().next()
                    && (holds_id(old(self).surfaces().slots(), msg.object_id) ==> exists|k: int|
                    is_first_with_id(old(self).surfaces().slots(), k, msg.object_id)
                        && final(self).surfaces().slots() == old(self).surfaces().slots().update(k, None))
                    && (!holds_id(old(self).surfaces().slots(), msg.object_id) ==> final(self).surfaces()
                    == old(self).surfaces()) && final(screen)@ == old(screen)@ + if holds_id(
                    old(self).surfaces().slots(),
                    msg.object_id,
                ) {
                    MSG_DESTROYED.spec_bytes()
                } else {
                    Seq::empty()
                },
            },
    {
        match msg.message_type {
            MessageType::DisplaySync => {
                screen.puts(MSG_SYNC);
            },
            MessageType::DisplayGetRegistry => {
                screen.puts(MSG_REGISTRY);
            },
            MessageType::RegistryBind => {
                screen.puts(MSG_BIND);
            },
            MessageType::CompositorCreateSurface => {
                if let Some(surface_id) = self.surface_manager.create_surface() {
                    screen.puts(MSG_CREATED);
                    print_number(screen, surface_id as usize);
                    screen.puts(MSG_NEWLINE);
                }
            },
            MessageType::SurfaceAttach => {
                if let Some(surface) = self.surface_manager.get_surface_mut(msg.object_id) {
                    surface.attach_buffer();
                    screen.puts(MSG_ATTACHED);
                }
            },
            MessageType::SurfaceCommit => {
                if let Some(surface) = self.surface_manager.get_surface_mut(msg.object_id) {
                    surface.commit();
                    screen.puts(MSG_COMMITTED);
                }
            },
            MessageType::SurfaceDestroy => {
                if self.surface_manager.destroy_surface(msg.object_id) {
                    screen.puts(MSG_DESTROYED);
                }
            },
        }
    }
}

/// `b` is `a` with `f` applied to the first surface with id `id`, when
/// there is one, and `a` unchanged otherwise.
pub open spec fn surface_changed(
    a: SurfaceManager,
    b: SurfaceManager,
    id: ObjectId,
    f: spec_fn(Surface) -> Surface,
) -> bool {
    &&& b.next() == a.next()
    &&& b.wf()
    &&& if holds_id(a.slots(), id) {
        exists|k: int|
            is_first_with_id(a.slots(), k, id) && b.slots() == a.slots().update(
                k,
                Some(f(a.slots()[k]->0)),
            )
    } else {
        b == a
    }
}

} // verus!
