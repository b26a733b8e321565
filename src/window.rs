//! Windows as the window manager reports them, which of them are visible,
//! and how a window is found again when it is to be focused.
use vstd::prelude::*;

verus! {

/// A window on screen, built fresh on each enumeration. There is no durable
/// identifier across enumerations: a window is found again by its geometry.
#[derive(Clone, Copy, Debug, PartialEq, Eq)]
pub struct DesktopWindow {
    /// An identifier derived from the window manager's address of the window.
    pub id: i64,
    /// Top-left corner on screen.
    pub pos: (i32, i32),
    /// Width and height.
    pub size: (i32, i32),
    /// Whether this is the window that has the focus.
    pub is_focused: bool,
}

/// A client window as the window manager lists it.
pub struct ClientInfo {
    /// An identifier derived from `address`.
    pub id: i64,
    /// The window manager's address of the window.
    pub address: String,
    /// The workspace that the window is on.
    pub workspace_id: i32,
    /// Top-left corner on screen.
    pub at: (i16, i16),
    /// Width and height.
    pub size: (i16, i16),
}

/// A monitor as the window manager lists it.
pub struct MonitorInfo {
    pub x: i32,
    pub y: i32,
    pub width: u16,
    pub height: u16,
    /// The workspace that the monitor shows.
    pub active_workspace_id: i32,
}

/// Why a window could not be found again.
#[derive(Clone, Copy, Debug, PartialEq, Eq, Structural)]
pub enum WindowError {
    /// No live window has the geometry of the window asked for.
    NotFound,
    /// No live window has the geometry of the window that has the focus.
    ActiveNotFound,
}

/// A workspace is visible when some monitor shows it.
pub open spec fn workspace_visible(monitors: Seq<MonitorInfo>, workspace_id: i32) -> bool {
    exists|i: int| 0 <= i < monitors.len() && #[trigger] monitors[i].active_workspace_id == workspace_id
}

/// Whether `c` is the client with the address of the active window.
pub open spec fn is_active(c: ClientInfo, active: Option<String>) -> bool {
    match active {
        Some(a) => a@ == c.address@,
        None => false,
    }
}

/// The window that stands for client `c`.
pub open spec fn window_of(c: ClientInfo, active: Option<String>) -> DesktopWindow {
    DesktopWindow {
        id: c.id,
        pos: (c.at.0 as i32, c.at.1 as i32),
        size: (c.size.0 as i32, c.size.1 as i32),
        is_focused: is_active(c, active),
    }
}

/// The window for `c`, where `c` is on a visible workspace.
pub open spec fn visible_window(
    monitors: Seq<MonitorInfo>,
    active: Option<String>,
    c: ClientInfo,
) -> Option<DesktopWindow> {
    if workspace_visible(monitors, c.workspace_id) {
        Some(window_of(c, active))
    } else {
        None
    }
}

/// The windows of the clients on visible workspaces, in the order listed.
pub open spec fn visible_windows(
    clients: Seq<ClientInfo>,
    monitors: Seq<MonitorInfo>,
    active: Option<String>,
) -> Seq<DesktopWindow> {
    clients.filter_map(|c: ClientInfo| visible_window(monitors, active, c))
}

/// Whether client `c` has the position and size of window `w`.
pub open spec fn same_geometry(c: ClientInfo, w: DesktopWindow) -> bool {
    &&& c.at.0 as i32 == w.pos.0
    &&& c.at.1 as i32 == w.pos.1
    &&& c.size.0 as i32 == w.size.0
    &&& c.size.1 as i32 == w.size.1
}

/// `i` is the first client in the list with the geometry of `w`.
pub open spec fn first_with_geometry(clients: Seq<ClientInfo>, w: DesktopWindow, i: int) -> bool {
    &&& 0 <= i < clients.len()
    &&& same_geometry(clients[i], w)
    &&& forall|j: int| 0 <= j < i ==> !same_geometry(#[trigger] clients[j], w)
}

/// No client in the list has the geometry of `w`.
pub open spec fn none_with_geometry(clients: Seq<ClientInfo>, w: DesktopWindow) -> bool {
    forall|j: int| 0 <= j < clients.len() ==> !same_geometry(#[trigger] clients[j], w)
}

fn on_visible_workspace(monitors: &Vec<MonitorInfo>, workspace_id: i32) -> (r: bool)
    ensures
        r == workspace_visible(monitors@, workspace_id),
{
    let mut i: usize = 0;
    while i < monitors.len()
        invariant
            i <= monitors.len(),
            forall|j: int| 0 <= j < i ==> #[trigger] monitors@[j].active_workspace_id != workspace_id,
        decreases monitors.len() - i,
    {
        if monitors[i].active_workspace_id == workspace_id {
            return true;
        }
        i += 1;
    }
    false
}

fn address_is_active(address: &String, active: &Option<String>) -> (r: bool)
    ensures
        match *active {
            Some(a) => r == (a@ == address@),
            None => !r,
        },
{
    match active {
        Some(a) => *a == *address,
        None => false,
    }
}

/// The windows on the workspaces that the monitors show, in the order in
/// which the clients are listed, each marked focused when its address is
/// that of the active window.
pub fn get_windows(
    clients: &Vec<ClientInfo>,
    monitors: &Vec<MonitorInfo>,
    active: &Option<String>,
) -> (r: Vec<DesktopWindow>)
    ensures
        r@ == visible_windows(clients@, monitors@, *active),
{
    let ghost f = |c: ClientInfo| visible_window(monitors@, *active, c);
    let mut windows: Vec<DesktopWindow> = Vec::new();
    let mut i: usize = 0;
    while i < clients.len()
        invariant
            i <= clients.len(),
            f == (|c: ClientInfo| visible_window(monitors@, *active, c)),
            windows@ == clients@.take(i as int).filter_map(f),
        decreases clients.len() - i,
    {
        let c = &clients[i];
        proof {
            clients@.lemma_filter_map_take_succ(f, i as int);
        }
        if on_visible_workspace(monitors, c.workspace_id) {
            let w = DesktopWindow {
                id: c.id,
                pos: (c.at.0 as i32, c.at.1 as i32),
                size: (c.size.0 as i32, c.size.1 as i32),
                is_focused: address_is_active(&c.address, active),
            };
            windows.push(w);
        }
        i += 1;
    }
    assert(clients@.take(clients@.len() as int) =~= clients@);
    windows
}

/// Every window that enumeration returns is that of a listed client on a
/// workspace that some monitor shows.
pub proof fn lemma_only_visible_workspaces(
    clients: Seq<ClientInfo>,
    monitors: Seq<MonitorInfo>,
    active: Option<String>,
    k: int,
)
    requires
        0 <= k < visible_windows(clients, monitors, active).len(),
    ensures
        exists|c: ClientInfo|
            #![trigger clients.contains(c)]
            clients.contains(c) && workspace_visible(monitors, c.workspace_id)
                && window_of(c, active) == visible_windows(clients, monitors, active)[k],
{
    let f = |c: ClientInfo| visible_window(monitors, active, c);
    let w = visible_windows(clients, monitors, active)[k];
    assert(clients.filter_map(f).contains(w));
    clients.lemma_filter_map_contains(f, w);
}

/// Index of the first client with the geometry of `w`, if any.
pub fn find_client(clients: &Vec<ClientInfo>, w: &DesktopWindow) -> (r: Option<usize>)
    ensures
        match r {
            Some(i) => first_with_geometry(clients@, *w, i as int),
            None => none_with_geometry(clients@, *w),
        },
{
    let mut i: usize = 0;
    while i < clients.len()
        invariant
            i <= clients.len(),
            forall|j: int| 0 <= j < i ==> !same_geometry(#[trigger] clients@[j], *w),
        decreases clients.len() - i,
    {
        let c = &clients[i];
        if c.at.0 as i32 == w.pos.0 && c.at.1 as i32 == w.pos.1 && c.size.0 as i32 == w.size.0
            && c.size.1 as i32 == w.size.1 {
            return Some(i);
        }
        i += 1;
    }
    None
}

/// The address that a focus command for `window` must name: that of the first
/// live client, in the order listed, with the window's position and size.
pub fn focus_window(clients: &Vec<ClientInfo>, window: &DesktopWindow) -> (r: Result<
    String,
    WindowError,
>)
    ensures
        match r {
            Ok(a) => exists|i: int|
                first_with_geometry(clients@, *window, i) && a@ == (#[trigger] clients@[i]).address@,
            Err(e) => e == WindowError::NotFound && none_with_geometry(clients@, *window),
        },
{
    match find_client(clients, window) {
        Some(i) => Ok(clients[i].address.clone()),
        None => Err(WindowError::NotFound),
    }
}

/// The address to focus when the focused window and `window` are to trade
/// places: both must be found again by geometry, the focused one first; the
/// command then names `window`'s client.
pub fn swap_windows(
    clients: &Vec<ClientInfo>,
    active_window: &DesktopWindow,
    window: &DesktopWindow,
) -> (r: Result<String, WindowError>)
    ensures
        match r {
            Ok(a) => !none_with_geometry(clients@, *active_window) && exists|i: int|
                first_with_geometry(clients@, *window, i) && a@ == (#[trigger] clients@[i]).address@,
            Err(e) => if none_with_geometry(clients@, *active_window) {
                e == WindowError::ActiveNotFound
            } else {
                e == WindowError::NotFound && none_with_geometry(clients@, *window)
            },
        },
{
    match find_client(clients, active_window) {
        None => Err(WindowError::ActiveNotFound),
        Some(_) => focus_window(clients, window),
    }
}

} // verus!
