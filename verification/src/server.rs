//! What a server is made of: where it listens, how it secures the transport,
//! and the strategy objects that handle input, produce the display and back
//! the clipboard.

use ironrdp_cliprdr::backend::CliprdrBackendFactory;
use tokio_rustls::TlsAcceptor;
use vstd::prelude::*;

verus! {

#[verifier::external_type_specification]
#[verifier::external_body]
pub struct ExTlsAcceptor(TlsAcceptor);

/// The socket address that a server listens on.
#[derive(Clone, Copy, Debug, PartialEq, Eq)]
pub enum ServerAddr {
    V4 { octets: [u8; 4], port: u16 },
    V6 { segments: [u16; 8], port: u16, flowinfo: u32, scope_id: u32 },
}

/// How the transport is secured: not at all, or by TLS with the given
/// acceptor. There is no third way.
pub enum RdpServerSecurity {
    Unsecured,
    Tls(TlsAcceptor),
}

/// Where a server listens and how it secures the transport.
pub struct RdpServerOptions {
    pub addr: ServerAddr,
    pub security: RdpServerSecurity,
}

/// Width and height of the remote display surface.
#[derive(Clone, Copy, Debug, PartialEq, Eq, Structural)]
pub struct DesktopSize {
    pub width: u16,
    pub height: u16,
}

/// What a client did on its keyboard.
#[derive(Clone, Copy, Debug, PartialEq, Eq, Structural)]
pub enum KeyboardEvent {
    Pressed { code: u8, extended: bool },
    Released { code: u8, extended: bool },
    UnicodePressed(u16),
    UnicodeReleased(u16),
    Synchronize { scroll_lock: bool, num_lock: bool, caps_lock: bool, kana_lock: bool },
}

/// What a client did with its pointing device.
#[derive(Clone, Copy, Debug, PartialEq, Eq, Structural)]
pub enum MouseEvent {
    Move { x: u16, y: u16 },
    RelMove { dx: i32, dy: i32 },
    LeftPressed,
    LeftReleased,
    MiddlePressed,
    MiddleReleased,
    RightPressed,
    RightReleased,
    Button4Pressed,
    Button4Released,
    Button5Pressed,
    Button5Released,
    VerticalScroll { value: i16 },
    Scroll { horizontal: i32, vertical: i32 },
}

/// A rectangle of new pixels.
#[derive(Debug, PartialEq, Eq)]
pub struct BitmapUpdate {
    pub x: u16,
    pub y: u16,
    pub width: u16,
    pub height: u16,
    pub data: Vec<u8>,
}

/// One change of the display, for the clients to see.
#[derive(Debug, PartialEq, Eq)]
pub enum DisplayUpdate {
    Resize(DesktopSize),
    Bitmap(BitmapUpdate),
    PointerPosition { x: u16, y: u16 },
    HidePointer,
    DefaultPointer,
}

/// The answer to a request for the next change of the display: the request
/// resolved, with a change or with none because the display is gone, or it
/// never will, and asking again is pointless.
#[derive(Debug, PartialEq, Eq)]
pub enum UpdatePoll {
    Resolved(Option<DisplayUpdate>),
    Never,
}

/// Receives what the clients do on keyboard and pointing device. Both
/// operations are fire-and-forget: they return nothing and cannot fail.
pub trait RdpServerInputHandler {
    fn keyboard(&mut self, event: KeyboardEvent);

    fn mouse(&mut self, event: MouseEvent);
}

/// Produces the display that the clients see.
pub trait RdpServerDisplay {
    /// The size of the desktop.
    fn size(&mut self) -> DesktopSize;

    /// The next change of the display, or word that there never will be one.
    fn get_update(&mut self) -> UpdatePoll;
}

/// The input handler that ignores every event: the fallback of a server
/// that was given no handler.
#[derive(Clone, Copy, Debug, PartialEq, Eq, Structural)]
pub struct NoopInputHandler;

impl RdpServerInputHandler for NoopInputHandler {
    fn keyboard(&mut self, event: KeyboardEvent)
        ensures
            *final(self) == *old(self),
    {
    }

    fn mouse(&mut self, event: MouseEvent)
        ensures
            *final(self) == *old(self),
    {
    }
}

/// The display that has no size and never changes: the fallback of a server
/// that was given no display. Such a server never produces a frame.
#[derive(Clone, Copy, Debug, PartialEq, Eq, Structural)]
pub struct NoopDisplay;

impl RdpServerDisplay for NoopDisplay {
    fn size(&mut self) -> (size: DesktopSize)
        ensures
            size == (DesktopSize { width: 0, height: 0 }),
            *final(self) == *old(self),
    {
        DesktopSize { width: 0, height: 0 }
    }

    fn get_update(&mut self) -> (poll: UpdatePoll)
        ensures
            poll is Never,
            *final(self) == *old(self),
    {
        UpdatePoll::Never
    }
}

/// A factory of clipboard backends: any `CliprdrBackendFactory` of the
/// clipboard crate that may be sent to another thread. The server only keeps
/// it and hands it on, and the verifier takes it as a value that it cannot
/// look into.
#[verifier::external_body]
pub struct CliprdrFactory {
    pub backend: Box<dyn CliprdrBackendFactory + Send>,
}

/// A fully configured server: where it listens and how it secures the
/// transport, its input handler, its display, and its clipboard factory if
/// it has one. Handler and display are always there; a server that was given
/// none has the inert ones.
pub struct RdpServer<H, D> {
    pub opts: RdpServerOptions,
    pub handler: H,
    pub display: D,
    pub cliprdr_factory: Option<CliprdrFactory>,
}

impl<H: RdpServerInputHandler, D: RdpServerDisplay> RdpServer<H, D> {
    /// A server with exactly these parts.
    pub fn new(
        opts: RdpServerOptions,
        handler: H,
        display: D,
        cliprdr_factory: Option<CliprdrFactory>,
    ) -> (server: Self)
        ensures
            server == (RdpServer { opts, handler, display, cliprdr_factory }),
    {
        RdpServer { opts, handler, display, cliprdr_factory }
    }
}

} // verus!
