//! The global binder: what to do with each registry announcement, which
//! capabilities the session needs before surfaces can exist, and the fixed
//! parameters every background surface is created with.

use vstd::prelude::*;
use vstd::string::StringExecFns;

verus! {

/// What the session does with one announced global, decided by its
/// interface name alone; unrecognized interfaces are ignored.
#[derive(Clone, Copy, Debug, PartialEq, Eq, Structural)]
pub enum BindAction {
    /// Bind the surface factory, at the version the client requires.
    BindCompositor { version: u32 },
    /// Bind the background-layer factory.
    BindLayerShell { version: u32 },
    /// Bind the shared-memory factory.
    BindShm { version: u32 },
    /// Remember one more display output.
    TrackOutput { version: u32 },
    /// Not an interface this client uses.
    Ignore,
}

/// The compositor factory version the client requires; the other globals
/// are used at their first version.
pub const MIN_COMPOSITOR_VERSION: u32 = 4;

/// The action each announcement maps to: an interface the client uses is
/// bound at the version it requires, provided the server advertises at
/// least that; an older announcement is ignored, and the capability check
/// then reports the interface missing.
pub open spec fn spec_classify(name: Seq<char>, advertised: u32) -> BindAction {
    if name == "wl_compositor"@ {
        if advertised >= MIN_COMPOSITOR_VERSION {
            BindAction::BindCompositor { version: MIN_COMPOSITOR_VERSION }
        } else {
            BindAction::Ignore
        }
    } else if name == "zwlr_layer_shell_v1"@ {
        if advertised >= 1 {
            BindAction::BindLayerShell { version: 1u32 }
        } else {
            BindAction::Ignore
        }
    } else if name == "wl_shm"@ {
        if advertised >= 1 {
            BindAction::BindShm { version: 1u32 }
        } else {
            BindAction::Ignore
        }
    } else if name == "wl_output"@ {
        if advertised >= 1 {
            BindAction::TrackOutput { version: 1u32 }
        } else {
            BindAction::Ignore
        }
    } else {
        BindAction::Ignore
    }
}

/// Decides what one registry announcement binds: the compositor factory,
/// the background-layer factory, the shared-memory factory, one more
/// output, or nothing.
pub fn classify_global(interface: &String, advertised: u32) -> (action: BindAction)
    ensures
        action == spec_classify(interface@, advertised),
{
    if *interface == "wl_compositor".to_owned() {
        if advertised >= MIN_COMPOSITOR_VERSION {
            BindAction::BindCompositor { version: MIN_COMPOSITOR_VERSION }
        } else {
            BindAction::Ignore
        }
    } else if *interface == "zwlr_layer_shell_v1".to_owned() {
        if advertised >= 1 {
            BindAction::BindLayerShell { version: 1 }
        } else {
            BindAction::Ignore
        }
    } else if *interface == "wl_shm".to_owned() {
        if advertised >= 1 {
            BindAction::BindShm { version: 1 }
        } else {
            BindAction::Ignore
        }
    } else if *interface == "wl_output".to_owned() {
        if advertised >= 1 {
            BindAction::TrackOutput { version: 1 }
        } else {
            BindAction::Ignore
        }
    } else {
        BindAction::Ignore
    }
}

/// Which capabilities the initial negotiation has bound so far, and how
/// many outputs it has seen.
#[derive(Clone, Copy, Debug, PartialEq, Eq, Structural)]
pub struct GlobalsState {
    pub compositor: bool,
    pub layer_shell: bool,
    pub shm: bool,
    pub outputs: usize,
}

/// Why the session cannot proceed to surface creation.
#[derive(Clone, Copy, Debug, PartialEq, Eq, Structural)]
pub enum SetupError {
    /// The server never announced the background-layer factory: the target
    /// display server does not support background surfaces.
    NoLayerShell,
    /// The server never announced the surface factory.
    NoCompositor,
    /// The server never announced the shared-memory factory.
    NoShm,
}

impl GlobalsState {
    /// The state before any announcement: nothing bound, no outputs.
    pub fn new() -> (g: GlobalsState)
        ensures
            g == (GlobalsState { compositor: false, layer_shell: false, shm: false, outputs: 0 }),
    {
        GlobalsState { compositor: false, layer_shell: false, shm: false, outputs: 0 }
    }

    /// Records one decided action: marks the bound capability, or counts
    /// the output; an ignored announcement changes nothing.
    pub fn apply(&mut self, action: BindAction)
        requires
            old(self).outputs < usize::MAX,
        ensures
            *final(self) == (match action {
                BindAction::BindCompositor { .. } => GlobalsState { compositor: true, ..*old(self) },
                BindAction::BindLayerShell { .. } => GlobalsState { layer_shell: true, ..*old(self) },
                BindAction::BindShm { .. } => GlobalsState { shm: true, ..*old(self) },
                BindAction::TrackOutput { .. } => GlobalsState {
                    outputs: (old(self).outputs + 1) as usize,
                    ..*old(self)
                },
                BindAction::Ignore => *old(self),
            }),
    {
        match action {
            BindAction::BindCompositor { .. } => self.compositor = true,
            BindAction::BindLayerShell { .. } => self.layer_shell = true,
            BindAction::BindShm { .. } => self.shm = true,
            BindAction::TrackOutput { .. } => self.outputs = self.outputs + 1,
            BindAction::Ignore => {},
        }
    }

    /// Whether every capability surface creation needs is bound.
    pub open spec fn complete(self) -> bool {
        self.compositor && self.layer_shell && self.shm
    }

    /// Checks the bound capabilities after negotiation. The missing
    /// background-layer factory is reported first: it is the one absence
    /// that means the display server cannot show wallpapers at all.
    pub fn check_capabilities(&self) -> (r: Result<(), SetupError>)
        ensures
            r is Ok <==> self.complete(),
            match r {
                Ok(_) => true,
                Err(e) => match e {
                    SetupError::NoLayerShell => !self.layer_shell,
                    SetupError::NoCompositor => self.layer_shell && !self.compositor,
                    SetupError::NoShm => self.layer_shell && self.compositor && !self.shm,
                },
            },
    {
        if !self.layer_shell {
            Err(SetupError::NoLayerShell)
        } else if !self.compositor {
            Err(SetupError::NoCompositor)
        } else if !self.shm {
            Err(SetupError::NoShm)
        } else {
            Ok(())
        }
    }
}

/// The fixed role parameters of a background surface: anchored to all four
/// edges (the four low anchor bits), reserving no space, under the
/// namespace the client publishes.
pub struct LayerSurfaceParams {
    pub anchors: u32,
    pub exclusive_zone: i32,
    pub namespace: String,
}

/// The parameters every surface gets its background-layer role with:
/// anchor bits top, bottom, left and right all set, and an exclusive zone
/// of -1 so no other window is pushed aside.
pub fn layer_surface_params() -> (p: LayerSurfaceParams)
    ensures
        p.anchors == 15u32,
        p.exclusive_zone == -1i32,
        p.namespace@ == "paber"@,
{
    LayerSurfaceParams { anchors: 15, exclusive_zone: -1, namespace: String::from_str("paber") }
}

} // verus!
