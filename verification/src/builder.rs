//! The capability builder: a server is assembled state by state, and each
//! state has only the transitions that are valid from it. A step cannot be
//! skipped, and a state cannot be used twice: every transition consumes it.

use crate::server::{
    CliprdrFactory, NoopDisplay, NoopInputHandler, RdpServer, RdpServerDisplay,
    RdpServerInputHandler, RdpServerOptions, RdpServerSecurity, ServerAddr,
};
use tokio_rustls::TlsAcceptor;
use vstd::prelude::*;

verus! {

/// Nothing is known yet: the address comes first.
pub struct WantsAddr {}

/// The address is known: the transport security comes next.
pub struct WantsSecurity {
    addr: ServerAddr,
}

/// Address and security are known: the input handler comes next.
pub struct WantsHandler {
    addr: ServerAddr,
    security: RdpServerSecurity,
}

/// Only the display is missing.
pub struct WantsDisplay<H> {
    addr: ServerAddr,
    security: RdpServerSecurity,
    handler: H,
}

/// Everything a server needs is there; a clipboard factory may be added.
pub struct BuilderDone<H, D> {
    addr: ServerAddr,
    security: RdpServerSecurity,
    handler: H,
    display: D,
    cliprdr_factory: Option<CliprdrFactory>,
}

/// A server under construction, in one of its five states.
pub struct RdpServerBuilder<State> {
    state: State,
}

impl RdpServerBuilder<WantsAddr> {
    /// The builder that knows nothing yet.
    pub closed spec fn spec_new() -> Self {
        Self { state: WantsAddr {  } }
    }

    /// A builder that knows nothing yet.
    #[verifier::when_used_as_spec(spec_new)]
    pub fn new() -> (builder: Self)
        ensures
            builder == Self::spec_new(),
    {
        Self { state: WantsAddr {  } }
    }

    /// The builder after `with_addr`.
    pub closed spec fn spec_with_addr(self, addr: ServerAddr) -> RdpServerBuilder<WantsSecurity> {
        RdpServerBuilder { state: WantsSecurity { addr } }
    }

    /// Sets the address to listen on.
    #[verifier::when_used_as_spec(spec_with_addr)]
    pub fn with_addr(self, addr: ServerAddr) -> (next: RdpServerBuilder<WantsSecurity>)
        ensures
            next == self.spec_with_addr(addr),
            next.addr() == addr,
    {
        RdpServerBuilder { state: WantsSecurity { addr } }
    }
}

impl Default for RdpServerBuilder<WantsAddr> {
    fn default() -> (builder: Self)
        ensures
            builder == Self::spec_new(),
    {
        Self::new()
    }
}

impl RdpServerBuilder<WantsSecurity> {
    /// The address to listen on.
    pub closed spec fn addr(self) -> ServerAddr {
        self.state.addr
    }

    /// The builder after `with_no_security`.
    pub closed spec fn spec_with_no_security(self) -> RdpServerBuilder<WantsHandler> {
        RdpServerBuilder {
            state: WantsHandler { addr: self.state.addr, security: RdpServerSecurity::Unsecured },
        }
    }

    /// Leaves the transport unsecured.
    #[verifier::when_used_as_spec(spec_with_no_security)]
    pub fn with_no_security(self) -> (next: RdpServerBuilder<WantsHandler>)
        ensures
            next == self.spec_with_no_security(),
            next.addr() == self.addr(),
            next.security() == RdpServerSecurity::Unsecured,
    {
        RdpServerBuilder {
            state: WantsHandler { addr: self.state.addr, security: RdpServerSecurity::Unsecured },
        }
    }

    /// The builder after `with_tls`.
    pub closed spec fn spec_with_tls(self, acceptor: TlsAcceptor) -> RdpServerBuilder<
        WantsHandler,
    > {
        RdpServerBuilder {
            state: WantsHandler { addr: self.state.addr, security: RdpServerSecurity::Tls(acceptor) },
        }
    }

    /// Secures the transport by TLS, with the given acceptor.
    #[verifier::when_used_as_spec(spec_with_tls)]
    pub fn with_tls(self, acceptor: TlsAcceptor) -> (next: RdpServerBuilder<WantsHandler>)
        ensures
            next == self.spec_with_tls(acceptor),
            next.addr() == self.addr(),
            next.security() == RdpServerSecurity::Tls(acceptor),
    {
        RdpServerBuilder {
            state: WantsHandler { addr: self.state.addr, security: RdpServerSecurity::Tls(acceptor) },
        }
    }
}

impl RdpServerBuilder<WantsHandler> {
    /// The address to listen on.
    pub closed spec fn addr(self) -> ServerAddr {
        self.state.addr
    }

    /// How the transport is secured.
    pub closed spec fn security(self) -> RdpServerSecurity {
        self.state.security
    }

    /// The builder after `with_input_handler`.
    pub closed spec fn spec_with_input_handler<H: RdpServerInputHandler>(
        self,
        handler: H,
    ) -> RdpServerBuilder<WantsDisplay<H>> {
        RdpServerBuilder {
            state: WantsDisplay { addr: self.state.addr, security: self.state.security, handler },
        }
    }

    /// Sets the handler that receives the clients' input.
    #[verifier::when_used_as_spec(spec_with_input_handler)]
    pub fn with_input_handler<H: RdpServerInputHandler>(self, handler: H) -> (next:
        RdpServerBuilder<WantsDisplay<H>>)
        ensures
            next == self.spec_with_input_handler(handler),
            next.addr() == self.addr(),
            next.security() == self.security(),
            next.handler() == handler,
    {
        RdpServerBuilder {
            state: WantsDisplay { addr: self.state.addr, security: self.state.security, handler },
        }
    }

    /// The builder after `with_no_input`.
    pub closed spec fn spec_with_no_input(self) -> RdpServerBuilder<
        WantsDisplay<NoopInputHandler>,
    > {
        self.spec_with_input_handler(NoopInputHandler)
    }

    /// Does without input: the server gets the handler that ignores every
    /// event.
    #[verifier::when_used_as_spec(spec_with_no_input)]
    pub fn with_no_input(self) -> (next: RdpServerBuilder<WantsDisplay<NoopInputHandler>>)
        ensures
            next == self.spec_with_no_input(),
            next == self.spec_with_input_handler(NoopInputHandler),
            next.addr() == self.addr(),
            next.security() == self.security(),
            next.handler() == NoopInputHandler,
    {
        self.with_input_handler(NoopInputHandler)
    }
}

impl<H: RdpServerInputHandler> RdpServerBuilder<WantsDisplay<H>> {
    /// The address to listen on.
    pub closed spec fn addr(self) -> ServerAddr {
        self.state.addr
    }

    /// How the transport is secured.
    pub closed spec fn security(self) -> RdpServerSecurity {
        self.state.security
    }

    /// The input handler.
    pub closed spec fn handler(self) -> H {
        self.state.handler
    }

    /// The builder after `with_display_handler`.
    pub closed spec fn spec_with_display_handler<D: RdpServerDisplay>(
        self,
        display: D,
    ) -> RdpServerBuilder<BuilderDone<H, D>> {
        RdpServerBuilder {
            state: BuilderDone {
                addr: self.state.addr,
                security: self.state.security,
                handler: self.state.handler,
                display,
                cliprdr_factory: None,
            },
        }
    }

    /// Sets the display that the clients see. No clipboard factory is set.
    #[verifier::when_used_as_spec(spec_with_display_handler)]
    pub fn with_display_handler<D: RdpServerDisplay>(self, display: D) -> (done: RdpServerBuilder<
        BuilderDone<H, D>,
    >)
        ensures
            done == self.spec_with_display_handler(display),
            done.descriptor() == (RdpServer {
                opts: RdpServerOptions { addr: self.addr(), security: self.security() },
                handler: self.handler(),
                display,
                cliprdr_factory: None,
            }),
    {
        RdpServerBuilder {
            state: BuilderDone {
                addr: self.state.addr,
                security: self.state.security,
                handler: self.state.handler,
                display,
                cliprdr_factory: None,
            },
        }
    }

    /// The builder after `with_no_display`.
    pub closed spec fn spec_with_no_display(self) -> RdpServerBuilder<BuilderDone<H, NoopDisplay>> {
        self.spec_with_display_handler(NoopDisplay)
    }

    /// Does without a display: the server gets the display that has no size
    /// and never changes, so it never produces a frame. No clipboard factory
    /// is set.
    #[verifier::when_used_as_spec(spec_with_no_display)]
    pub fn with_no_display(self) -> (done: RdpServerBuilder<BuilderDone<H, NoopDisplay>>)
        ensures
            done == self.spec_with_no_display(),
            done == self.spec_with_display_handler(NoopDisplay),
            done.descriptor() == (RdpServer {
                opts: RdpServerOptions { addr: self.addr(), security: self.security() },
                handler: self.handler(),
                display: NoopDisplay,
                cliprdr_factory: None,
            }),
    {
        self.with_display_handler(NoopDisplay)
    }
}

impl<H: RdpServerInputHandler, D: RdpServerDisplay> RdpServerBuilder<BuilderDone<H, D>> {
    /// The server that `build` gives.
    pub closed spec fn descriptor(self) -> RdpServer<H, D> {
        RdpServer {
            opts: RdpServerOptions { addr: self.state.addr, security: self.state.security },
            handler: self.state.handler,
            display: self.state.display,
            cliprdr_factory: self.state.cliprdr_factory,
        }
    }

    /// The builder after `with_cliprdr_factory`.
    pub closed spec fn spec_with_cliprdr_factory(
        self,
        cliprdr_factory: Option<CliprdrFactory>,
    ) -> Self {
        RdpServerBuilder { state: BuilderDone { cliprdr_factory, ..self.state } }
    }

    /// Sets the clipboard factory, or takes it away: whatever was set before
    /// is forgotten, and nothing else changes.
    #[verifier::when_used_as_spec(spec_with_cliprdr_factory)]
    pub fn with_cliprdr_factory(self, cliprdr_factory: Option<CliprdrFactory>) -> (done: Self)
        ensures
            done == self.spec_with_cliprdr_factory(cliprdr_factory),
            done.descriptor() == (RdpServer { cliprdr_factory, ..self.descriptor() }),
    {
        let mut done = self;
        done.state.cliprdr_factory = cliprdr_factory;
        done
    }

    /// The server, with everything that was set on the way here.
    #[verifier::when_used_as_spec(descriptor)]
    pub fn build(self) -> (server: RdpServer<H, D>)
        ensures
            server == self.descriptor(),
    {
        RdpServer::new(
            RdpServerOptions { addr: self.state.addr, security: self.state.security },
            self.state.handler,
            self.state.display,
            self.state.cliprdr_factory,
        )
    }
}

/// The shortest way through the builder, for every address: no security, no
/// input, no display. The server that comes of it listens on that address,
/// leaves the transport unsecured, has the inert handler and the inert
/// display, and has no clipboard factory.
pub proof fn lemma_bare_server(addr: ServerAddr)
    ensures
        RdpServerBuilder::new().with_addr(addr).with_no_security().with_no_input().with_no_display().build()
            == (RdpServer {
            opts: RdpServerOptions { addr, security: RdpServerSecurity::Unsecured },
            handler: NoopInputHandler,
            display: NoopDisplay,
            cliprdr_factory: None,
        }),
{
}

/// Every way through the builder keeps what was set: the server has the
/// address, the security, the handler and the display that were given, and
/// the clipboard factory that was given last.
pub proof fn lemma_builder_keeps_its_parts<H: RdpServerInputHandler, D: RdpServerDisplay>(
    addr: ServerAddr,
    acceptor: TlsAcceptor,
    handler: H,
    display: D,
    cliprdr_factory: Option<CliprdrFactory>,
)
    ensures
        RdpServerBuilder::new().with_addr(addr).with_tls(acceptor).with_input_handler(
            handler,
        ).with_display_handler(display).with_cliprdr_factory(cliprdr_factory).build()
            == (RdpServer {
            opts: RdpServerOptions { addr, security: RdpServerSecurity::Tls(acceptor) },
            handler,
            display,
            cliprdr_factory,
        }),
        RdpServerBuilder::new().with_addr(addr).with_no_security().with_input_handler(
            handler,
        ).with_display_handler(display).build() == (RdpServer {
            opts: RdpServerOptions { addr, security: RdpServerSecurity::Unsecured },
            handler,
            display,
            cliprdr_factory: None,
        }),
{
}

/// Setting the clipboard factory twice keeps only the second value: the
/// builder is the same as if the first call had never been made.
pub proof fn lemma_last_cliprdr_factory_wins<H: RdpServerInputHandler, D: RdpServerDisplay>(
    builder: RdpServerBuilder<BuilderDone<H, D>>,
    first: Option<CliprdrFactory>,
    second: Option<CliprdrFactory>,
)
    ensures
        builder.with_cliprdr_factory(first).with_cliprdr_factory(second)
            == builder.with_cliprdr_factory(second),
        builder.with_cliprdr_factory(first).with_cliprdr_factory(second).build() == (RdpServer {
            cliprdr_factory: second,
            ..builder.build()
        }),
{
}

} // verus!
