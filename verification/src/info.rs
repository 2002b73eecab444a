//! The interfaces that can carry a connection, and what is known of a
//! connection once it is open.

use vstd::prelude::*;

verus! {

/// The WebSocket API used to interact with the JavaScript runtime.
#[derive(Debug, Clone, Copy, PartialEq, Eq, Structural, Hash)]
pub enum Interface {
    /// The experimental stream-based interface.
    ///
    /// This provides backpressure in both directions and is recommended where
    /// the runtime offers it.
    Stream,
    /// The standardized interface.
    ///
    /// This provides backpressure only in the transmit direction and should
    /// only be used as a fallback.
    Standard,
}

/// The interfaces that a runtime offers.
#[derive(Debug, Clone, Copy, PartialEq, Eq, Structural, Hash)]
pub struct Runtime {
    /// Whether the runtime offers the stream-based interface.
    pub stream: bool,
    /// Whether the runtime offers the standardized interface.
    pub standard: bool,
}

impl Interface {
    /// Whether the runtime offers the interface.
    pub open spec fn supported(self, runtime: Runtime) -> bool {
        match self {
            Interface::Stream => runtime.stream,
            Interface::Standard => runtime.standard,
        }
    }

    /// Whether the interface is supported by the given runtime.
    pub fn is_supported(&self, runtime: &Runtime) -> (supported: bool)
        ensures
            supported == self.supported(*runtime),
    {
        match self {
            Interface::Stream => runtime.stream,
            Interface::Standard => runtime.standard,
        }
    }
}

/// What is known of an open connection. It is made once, when the connection
/// is opened, and never changes.
#[derive(Debug)]
pub struct Info {
    url: String,
    protocol: String,
    interface: Interface,
}

/// What an `Info` holds, with its texts as sequences of characters.
pub struct InfoView {
    /// The URL of the server.
    pub url: Seq<char>,
    /// The sub-protocol that the server selected, empty where it selected
    /// none.
    pub protocol: Seq<char>,
    /// The interface that carries the connection.
    pub interface: Interface,
}

impl View for Info {
    type V = InfoView;

    closed spec fn view(&self) -> InfoView {
        InfoView { url: self.url@, protocol: self.protocol@, interface: self.interface }
    }
}

impl Info {
    /// What is known of a connection to `url` over `interface`, on which the
    /// server selected `protocol`.
    pub fn new(url: String, protocol: String, interface: Interface) -> (info: Self)
        ensures
            info@ == (InfoView { url: url@, protocol: protocol@, interface }),
    {
        Info { url, protocol, interface }
    }

    /// The URL of the WebSocket server.
    pub fn url(&self) -> (url: &str)
        ensures
            url@ == self@.url,
    {
        self.url.as_str()
    }

    /// The sub-protocol that the server selected, empty where it selected
    /// none.
    pub fn protocol(&self) -> (protocol: &str)
        ensures
            protocol@ == self@.protocol,
    {
        self.protocol.as_str()
    }

    /// The interface that carries the connection.
    pub fn interface(&self) -> (interface: Interface)
        ensures
            interface == self@.interface,
    {
        self.interface
    }
}

} // verus!
