//! Platform capabilities, resolved once from a description of the session.
//!
//! Nothing here reads the process environment: the caller reports what it
//! found there, and detection is a function of that report alone.

use vstd::prelude::*;

verus! {

/// The display server that windows are shown by.
#[derive(Debug, Clone, Copy, PartialEq, Eq, Structural)]
pub enum DisplayServer {
    /// X11.
    X11,
    /// A Wayland compositor.
    Wayland,
    /// The Windows desktop window manager.
    Windows,
    /// The macOS compositor.
    Quartz,
    /// Unknown, or no display at all.
    Unknown,
}

/// The operating system family the process runs on.
#[derive(Debug, Clone, Copy, PartialEq, Eq, Structural)]
pub enum HostOs {
    Linux,
    Windows,
    MacOs,
    Other,
}

/// What the caller found in the process environment.
#[derive(Debug, Clone)]
pub struct SessionEnvironment {
    /// The operating system family.
    pub os: HostOs,
    /// Whether `WAYLAND_DISPLAY` is set.
    pub wayland_display: bool,
    /// The bytes of `XDG_SESSION_TYPE`, if it is set.
    pub session_type: Option<Vec<u8>>,
    /// Whether `DISPLAY` is set.
    pub display: bool,
}

/// What the platform can do.
#[derive(Debug, Clone, Copy, PartialEq, Eq, Structural)]
pub struct PlatformInfo {
    /// The display server.
    pub display_server: DisplayServer,
    /// Whether windows can be transparent.
    pub supports_transparency: bool,
    /// Whether a window can be moved to a position of the client's choice.
    pub supports_positioning: bool,
    /// Whether an RGBA frame can be handed to the surface as it is. Where
    /// this is false, frames are painted as packed pixels.
    pub supports_direct_rendering: bool,
}

/// An ASCII capital letter turned into its small letter; any other byte
/// unchanged.
pub open spec fn spec_ascii_lower(b: u8) -> u8 {
    if 65 <= b <= 90 {
        (b + 32) as u8
    } else {
        b
    }
}

/// Whether `value` spells `word`, capital and small ASCII letters counting
/// as equal. `word` is in small letters.
pub open spec fn spec_spells(value: Seq<u8>, word: Seq<u8>) -> bool {
    &&& value.len() == word.len()
    &&& forall|i: int| 0 <= i < value.len() ==> spec_ascii_lower(#[trigger] value[i]) == word[i]
}

/// The bytes of `wayland`.
pub open spec fn spec_wayland_word() -> Seq<u8> {
    seq![119u8, 97u8, 121u8, 108u8, 97u8, 110u8, 100u8]
}

/// The bytes of `x11`.
pub open spec fn spec_x11_word() -> Seq<u8> {
    seq![120u8, 49u8, 49u8]
}

/// The display server of a Linux session. `WAYLAND_DISPLAY` decides first,
/// then `XDG_SESSION_TYPE`, then `DISPLAY`.
pub open spec fn spec_display_server(
    wayland_display: bool,
    session_type: Option<Seq<u8>>,
    display: bool,
) -> DisplayServer {
    if wayland_display {
        DisplayServer::Wayland
    } else if session_type is Some && spec_spells(session_type->0, spec_wayland_word()) {
        DisplayServer::Wayland
    } else if session_type is Some && spec_spells(session_type->0, spec_x11_word()) {
        DisplayServer::X11
    } else if display {
        DisplayServer::X11
    } else {
        DisplayServer::Unknown
    }
}

/// The capabilities that go with a display server.
pub open spec fn spec_capabilities(server: DisplayServer) -> PlatformInfo {
    match server {
        DisplayServer::Wayland => PlatformInfo {
            display_server: server,
            supports_transparency: true,
            supports_positioning: false,
            supports_direct_rendering: false,
        },
        DisplayServer::Unknown => PlatformInfo {
            display_server: server,
            supports_transparency: false,
            supports_positioning: false,
            supports_direct_rendering: false,
        },
        _ => PlatformInfo {
            display_server: server,
            supports_transparency: true,
            supports_positioning: true,
            supports_direct_rendering: true,
        },
    }
}

/// The session's display server, as it appears in contracts.
pub open spec fn spec_session_type(env: SessionEnvironment) -> Option<Seq<u8>> {
    match env.session_type {
        Some(bytes) => Some(bytes@),
        None => None,
    }
}

/// The platform of a session: Windows and macOS have their one display
/// server, Linux is probed, anything else is unknown.
pub open spec fn spec_detect(env: SessionEnvironment) -> PlatformInfo {
    match env.os {
        HostOs::Windows => spec_capabilities(DisplayServer::Windows),
        HostOs::MacOs => spec_capabilities(DisplayServer::Quartz),
        HostOs::Linux => spec_capabilities(
            spec_display_server(env.wayland_display, spec_session_type(env), env.display),
        ),
        HostOs::Other => spec_capabilities(DisplayServer::Unknown),
    }
}

/// Turns an ASCII capital letter into its small letter.
fn ascii_lower(b: u8) -> (r: u8)
    ensures
        r == spec_ascii_lower(b),
{
    if 65 <= b && b <= 90 {
        b + 32
    } else {
        b
    }
}

/// Tells whether `value` spells `word`; see [`spec_spells`].
fn spells(value: &[u8], word: &[u8]) -> (r: bool)
    ensures
        r == spec_spells(value@, word@),
{
    if value.len() != word.len() {
        return false;
    }
    let mut i: usize = 0;
    while i < value.len()
        invariant
            value@.len() == word@.len(),
            i <= value@.len(),
            forall|j: int| 0 <= j < i ==> spec_ascii_lower(#[trigger] value@[j]) == word@[j],
        decreases value@.len() - i,
    {
        if ascii_lower(value[i]) != word[i] {
            return false;
        }
        i = i + 1;
    }
    true
}

/// The capabilities that go with a display server; see
/// [`spec_capabilities`].
fn capabilities(server: DisplayServer) -> (info: PlatformInfo)
    ensures
        info == spec_capabilities(server),
{
    match server {
        DisplayServer::Wayland => PlatformInfo {
            display_server: server,
            supports_transparency: true,
            supports_positioning: false,
            supports_direct_rendering: false,
        },
        DisplayServer::Unknown => PlatformInfo {
            display_server: server,
            supports_transparency: false,
            supports_positioning: false,
            supports_direct_rendering: false,
        },
        _ => PlatformInfo {
            display_server: server,
            supports_transparency: true,
            supports_positioning: true,
            supports_direct_rendering: true,
        },
    }
}

impl PlatformInfo {
    /// Detects the platform of a session.
    pub fn detect(env: &SessionEnvironment) -> (info: Self)
        ensures
            info == spec_detect(*env),
    {
        match env.os {
            HostOs::Windows => capabilities(DisplayServer::Windows),
            HostOs::MacOs => capabilities(DisplayServer::Quartz),
            HostOs::Linux => capabilities(Self::detect_display_server(env)),
            HostOs::Other => capabilities(DisplayServer::Unknown),
        }
    }

    /// Probes a Linux session for its display server.
    pub fn detect_display_server(env: &SessionEnvironment) -> (server: DisplayServer)
        ensures
            server == spec_display_server(
                env.wayland_display,
                spec_session_type(*env),
                env.display,
            ),
    {
        if env.wayland_display {
            return DisplayServer::Wayland;
        }
        match &env.session_type {
            Some(bytes) => {
                let wayland: [u8; 7] = [119u8, 97u8, 121u8, 108u8, 97u8, 110u8, 100u8];
                let x11: [u8; 3] = [120u8, 49u8, 49u8];
                assert(wayland@ =~= spec_wayland_word());
                assert(x11@ =~= spec_x11_word());
                if spells(bytes.as_slice(), wayland.as_slice()) {
                    return DisplayServer::Wayland;
                }
                if spells(bytes.as_slice(), x11.as_slice()) {
                    return DisplayServer::X11;
                }
            },
            None => {},
        }
        if env.display {
            DisplayServer::X11
        } else {
            DisplayServer::Unknown
        }
    }

    /// Whether a position requested for a window is applied: both
    /// coordinates must be given and the platform must let a client place
    /// its windows.
    pub open spec fn spec_applies_position(&self, x_given: bool, y_given: bool) -> bool {
        x_given && y_given && self.supports_positioning
    }

    /// Tells whether a position requested for a window is applied; see
    /// [`Self::spec_applies_position`].
    pub fn applies_position(&self, x_given: bool, y_given: bool) -> (r: bool)
        ensures
            r == self.spec_applies_position(x_given, y_given),
    {
        x_given && y_given && self.supports_positioning
    }

    /// Tells whether the display server is X11.
    pub fn is_x11(&self) -> (r: bool)
        ensures
            r == (self.display_server == DisplayServer::X11),
    {
        self.display_server == DisplayServer::X11
    }

    /// Tells whether the display server is a Wayland compositor.
    pub fn is_wayland(&self) -> (r: bool)
        ensures
            r == (self.display_server == DisplayServer::Wayland),
    {
        self.display_server == DisplayServer::Wayland
    }

    /// Tells whether the platform is Windows.
    pub fn is_windows(&self) -> (r: bool)
        ensures
            r == (self.display_server == DisplayServer::Windows),
    {
        self.display_server == DisplayServer::Windows
    }

    /// Tells whether the platform is macOS.
    pub fn is_macos(&self) -> (r: bool)
        ensures
            r == (self.display_server == DisplayServer::Quartz),
    {
        self.display_server == DisplayServer::Quartz
    }
}

/// The platform of a session; the same as [`PlatformInfo::detect`].
pub fn platform_info(env: &SessionEnvironment) -> (info: PlatformInfo)
    ensures
        info == spec_detect(*env),
{
    PlatformInfo::detect(env)
}

} // verus!
