use vstd::prelude::*;

verus! {

/// Width and height, in logical pixels, of the editor window.
pub const EDITOR_SIDE: u32 = 300;

/// A native parent-window handle as the host hands it over. The pointer-like
/// variants carry the handle's address as a plain number: it is passed on to
/// the window system and never dereferenced here.
#[derive(Clone, Copy, Debug, PartialEq, Eq, Structural)]
pub enum ParentWindow {
    X11Window(u32),
    AppKitNsView(usize),
    Win32Hwnd(usize),
}

/// Why an editor could not be spawned.
#[derive(Clone, Copy, Debug, PartialEq, Eq, Structural)]
pub enum SpawnError {
    /// The host's window system is one this editor cannot parent into.
    UnsupportedParent,
    /// An editor session is already spawning or active.
    AlreadySpawned,
}

/// Whether the editor can be parented into a window of this kind.
pub open spec fn is_supported(p: ParentWindow) -> bool {
    !(p is X11Window)
}

/// The address of the parent window, for the kinds that are supported.
pub open spec fn parent_address(p: ParentWindow) -> usize {
    match p {
        ParentWindow::X11Window(_) => 0,
        ParentWindow::AppKitNsView(a) => a,
        ParentWindow::Win32Hwnd(a) => a,
    }
}

/// A colour as red, green, blue and alpha.
#[derive(Clone, Copy, Debug, PartialEq, Eq, Structural)]
pub struct Rgba {
    pub r: u8,
    pub g: u8,
    pub b: u8,
    pub a: u8,
}

/// How the editor's child window is to be created.
#[derive(Clone, Copy, Debug, PartialEq, Eq, Structural)]
pub struct WindowSpec {
    pub parent: usize,
    pub width: u32,
    pub height: u32,
    pub min_width: u32,
    pub min_height: u32,
    pub max_width: u32,
    pub max_height: u32,
    pub closable: bool,
    pub focused: bool,
    pub maximizable: bool,
    pub maximized: bool,
    pub minimizable: bool,
    pub resizable: bool,
    pub background: Rgba,
    /// Closing the last window hides it instead of tearing the renderer down.
    pub hide_on_last_close: bool,
}

/// The fixed window that is created as a child of `parent`.
pub open spec fn spec_window(parent: usize) -> WindowSpec {
    WindowSpec {
        parent: parent,
        width: EDITOR_SIDE,
        height: EDITOR_SIDE,
        min_width: EDITOR_SIDE,
        min_height: EDITOR_SIDE,
        max_width: EDITOR_SIDE,
        max_height: EDITOR_SIDE,
        closable: true,
        focused: true,
        maximizable: false,
        maximized: false,
        minimizable: false,
        resizable: false,
        background: Rgba { r: 255, g: 255, b: 255, a: 255 },
        hide_on_last_close: true,
    }
}

/// The size the editor reports to the host, whether or not it is open.
pub fn editor_size() -> (r: (u32, u32))
    ensures
        r == (EDITOR_SIDE, EDITOR_SIDE),
{
    (EDITOR_SIDE, EDITOR_SIDE)
}

/// The window to create as a child of `parent`, or the configuration error
/// when the editor cannot be parented into a window of that kind.
pub fn window_spec(parent: &ParentWindow) -> (r: Result<WindowSpec, SpawnError>)
    ensures
        is_supported(*parent) ==> r == Ok::<WindowSpec, SpawnError>(spec_window(parent_address(*parent))),
        !is_supported(*parent) ==> r == Err::<WindowSpec, SpawnError>(SpawnError::UnsupportedParent),
{
    let address: usize = match parent {
        ParentWindow::X11Window(_) => {
            return Err(SpawnError::UnsupportedParent);
        },
        ParentWindow::AppKitNsView(a) => *a,
        ParentWindow::Win32Hwnd(a) => *a,
    };
    Ok(
        WindowSpec {
            parent: address,
            width: EDITOR_SIDE,
            height: EDITOR_SIDE,
            min_width: EDITOR_SIDE,
            min_height: EDITOR_SIDE,
            max_width: EDITOR_SIDE,
            max_height: EDITOR_SIDE,
            closable: true,
            focused: true,
            maximizable: false,
            maximized: false,
            minimizable: false,
            resizable: false,
            background: Rgba { r: 255, g: 255, b: 255, a: 255 },
            hide_on_last_close: true,
        },
    )
}

} // verus!
