//! Decisions and data of a pseudo-terminal session: the window-size
//! structure handed to the kernel, the geometry a session keeps, the steps of
//! a spawn and the errors they end in.
use vstd::prelude::*;
use crate::tui::Size;
use crate::util::FromLibcResult;

verus! {

/// The kernel's window-size structure, as plain values.
#[derive(Clone, Copy, Debug, PartialEq, Eq, Structural)]
pub struct WinSize {
    /// Number of rows
    pub ws_row: u16,
    /// Number of columns
    pub ws_col: u16,
    /// Width in pixels, unused
    pub ws_xpixel: u16,
    /// Height in pixels, unused
    pub ws_ypixel: u16,
}

impl WinSize {
    /// Width goes to the columns, height to the rows; pixel sizes are zero.
    pub open spec fn of(size: Size) -> WinSize {
        WinSize { ws_row: size.height, ws_col: size.width, ws_xpixel: 0, ws_ypixel: 0 }
    }

    pub fn from_size(size: &Size) -> (r: WinSize)
        ensures
            r == WinSize::of(*size),
            r.ws_col == size.width,
            r.ws_row == size.height,
            r.ws_xpixel == 0,
            r.ws_ypixel == 0,
    {
        WinSize { ws_row: size.height, ws_col: size.width, ws_xpixel: 0, ws_ypixel: 0 }
    }
}

/// Why a session operation failed.
#[derive(Clone, Copy, Debug, PartialEq, Eq, Structural)]
pub enum PtyError {
    /// The pseudo-terminal pair could not be allocated or set up.
    OpenPty,
    /// The shell could not be launched on the pair.
    SpawnShell,
    /// The kernel rejected a window-size request.
    Resize,
}

/// The geometry of a session's pseudo-terminal, as last accepted by the
/// kernel.
#[derive(Clone, Copy, Debug, PartialEq, Eq, Structural)]
pub struct Geometry {
    pub window: WinSize,
}

impl Geometry {
    /// The geometry after a window-size request for `size` whose control
    /// call returned `code`: a rejected request (`-1`) leaves it stale.
    pub open spec fn resized(self, size: Size, code: libc::c_int) -> Geometry {
        if code == -1 {
            self
        } else {
            Geometry { window: WinSize::of(size) }
        }
    }

    pub fn new(size: &Size) -> (r: Geometry)
        ensures
            r.window == WinSize::of(*size),
    {
        Geometry { window: WinSize::from_size(size) }
    }

    /// Records the outcome of a window-size request for `size` whose control
    /// call returned `code`. A rejection is reported and is not fatal.
    pub fn on_resize(&mut self, size: &Size, code: libc::c_int) -> (r: Result<(), PtyError>)
        ensures
            *final(self) == old(self).resized(*size, code),
            code == -1 ==> r == Err::<(), PtyError>(PtyError::Resize),
            code != -1 ==> r == Ok::<(), PtyError>(()),
    {
        match code.to_result() {
            Ok(_) => {
                self.window = WinSize::from_size(size);
                Ok(())
            },
            Err(()) => Err(PtyError::Resize),
        }
    }
}

/// Resizing twice to the same size leaves the session as resizing once:
/// both requests succeed and the second changes nothing.
pub proof fn lemma_resize_idempotent(
    geometry: Geometry,
    size: Size,
    first: libc::c_int,
    second: libc::c_int,
)
    requires
        first != -1,
        second != -1,
    ensures
        geometry.resized(size, first).resized(size, second) == geometry.resized(size, first),
{
}

/// The steps of a spawn, in the order they are taken.
#[derive(Clone, Copy, Debug, PartialEq, Eq, Structural)]
pub enum SpawnStage {
    /// Allocate the master/slave pair, sized to the initial size.
    OpenPair,
    /// Put the master descriptor in non-blocking mode.
    SetNonBlocking,
    /// Launch the shell on the slave, as a session leader with the slave as
    /// its controlling terminal.
    LaunchChild,
    /// Send the initial size once more, now that the child runs.
    InitialResize,
    /// The session is up.
    Ready,
    /// The spawn failed; what it opened is to be closed.
    Failed(PtyError),
}

/// The stage that follows `stage` when its step returned `code` (`-1` for
/// failure). A failure of the pair or of its mode is `OpenPty`, one of the
/// launch is `SpawnShell`; a rejected initial resize does not fail the
/// spawn. Finished stages stay as they are.
pub open spec fn next_stage(stage: SpawnStage, code: libc::c_int) -> SpawnStage {
    match stage {
        SpawnStage::OpenPair => if code == -1 {
            SpawnStage::Failed(PtyError::OpenPty)
        } else {
            SpawnStage::SetNonBlocking
        },
        SpawnStage::SetNonBlocking => if code == -1 {
            SpawnStage::Failed(PtyError::OpenPty)
        } else {
            SpawnStage::LaunchChild
        },
        SpawnStage::LaunchChild => if code == -1 {
            SpawnStage::Failed(PtyError::SpawnShell)
        } else {
            SpawnStage::InitialResize
        },
        SpawnStage::InitialResize => SpawnStage::Ready,
        _ => stage,
    }
}

impl SpawnStage {
    /// Decides the stage that follows this one, given what its step returned.
    pub fn next(self, code: libc::c_int) -> (r: SpawnStage)
        ensures
            r == next_stage(self, code),
    {
        match self {
            SpawnStage::OpenPair => match code.to_result() {
                Ok(_) => SpawnStage::SetNonBlocking,
                Err(()) => SpawnStage::Failed(PtyError::OpenPty),
            },
            SpawnStage::SetNonBlocking => match code.to_result() {
                Ok(_) => SpawnStage::LaunchChild,
                Err(()) => SpawnStage::Failed(PtyError::OpenPty),
            },
            SpawnStage::LaunchChild => match code.to_result() {
                Ok(_) => SpawnStage::InitialResize,
                Err(()) => SpawnStage::Failed(PtyError::SpawnShell),
            },
            SpawnStage::InitialResize => SpawnStage::Ready,
            _ => self,
        }
    }

    /// The outcome of a finished spawn: `Ok` once ready, the error once
    /// failed.
    pub fn outcome(self) -> (r: Option<Result<(), PtyError>>)
        ensures
            self == SpawnStage::Ready ==> r == Some(Ok::<(), PtyError>(())),
            forall|e: PtyError| self == SpawnStage::Failed(e) ==> r == Some(Err::<(), PtyError>(e)),
            !(self == SpawnStage::Ready || self is Failed) ==> r is None,
    {
        match self {
            SpawnStage::Ready => Some(Ok(())),
            SpawnStage::Failed(e) => Some(Err(e)),
            _ => None,
        }
    }
}

} // verus!
