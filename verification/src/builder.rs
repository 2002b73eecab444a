//! Connecting: the options of a connection, the choice of the interface
//! that carries it, and what becomes of the attempt.

use vstd::prelude::*;
use vstd::string::StringExecFns;

use crate::closed::ClosedView;
use crate::credit::MAX_CREDITS;
use crate::info::{InfoView, Interface, Runtime};
use crate::socket::{ReceiverState, SenderState, WebSocket, WebSocketReceiverView};
use crate::socket::{WebSocketSenderView, WebSocketView};
use crate::standard;
use crate::stream;
use crate::util::{js_err, Error, ErrorKind, ErrorView, JsFailure};

verus! {

/// Builder for connecting a WebSocket.
#[derive(Debug)]
pub struct WebSocketBuilder {
    url: String,
    protocols: Vec<String>,
    interface: Option<Interface>,
    send_buffer_size: Option<usize>,
    receive_buffer_size: Option<usize>,
}

/// The options of a connection.
pub struct BuilderView {
    /// The URL to connect to.
    pub url: Seq<char>,
    /// The sub-protocols that the client would like to use, in the order of
    /// its preference.
    pub protocols: Seq<Seq<char>>,
    /// The interface to use, where one is asked for.
    pub interface: Option<Interface>,
    /// The ceiling of the send buffer in bytes, where one is set.
    pub send_buffer_size: Option<usize>,
    /// The ceiling of the receive buffer in bytes, where one is set.
    pub receive_buffer_size: Option<usize>,
}

/// The texts as sequences of characters.
pub open spec fn texts(strings: Seq<String>) -> Seq<Seq<char>> {
    strings.map_values(|s: String| s@)
}

impl View for WebSocketBuilder {
    type V = BuilderView;

    closed spec fn view(&self) -> BuilderView {
        BuilderView {
            url: self.url@,
            protocols: texts(self.protocols@),
            interface: self.interface,
            send_buffer_size: self.send_buffer_size,
            receive_buffer_size: self.receive_buffer_size,
        }
    }
}

/// The interface that is tried: the one that is asked for, else the
/// stream-based interface where the runtime offers it, else the standardized
/// one.
pub open spec fn preferred(asked: Option<Interface>, runtime: Runtime) -> Interface {
    match asked {
        Some(interface) => interface,
        None => if runtime.stream {
            Interface::Stream
        } else {
            Interface::Standard
        },
    }
}

/// The error for an interface that the runtime does not offer.
pub open spec fn unsupported(interface: Interface) -> ErrorView {
    ErrorView {
        kind: ErrorKind::Unsupported,
        message: match interface {
            Interface::Stream => "WebSocketStream not supported"@,
            Interface::Standard => "WebSocket not supported"@,
        },
    }
}

/// The interface that carries the connection, or the error with which the
/// attempt ends at once: the interface that is tried has to be one that the
/// runtime offers.
pub open spec fn selection(asked: Option<Interface>, runtime: Runtime) -> Result<
    Interface,
    ErrorView,
> {
    let interface = preferred(asked, runtime);
    if interface.supported(runtime) {
        Ok(interface)
    } else {
        Err(unsupported(interface))
    }
}

fn clone_texts(strings: &Vec<String>) -> (copy: Vec<String>)
    ensures
        texts(copy@) == texts(strings@),
{
    let mut copy: Vec<String> = Vec::new();
    let mut i: usize = 0;
    while i < strings.len()
        invariant
            i <= strings.len(),
            copy.len() == i,
            forall|j: int| 0 <= j < i ==> copy@[j]@ == strings@[j]@,
        decreases strings.len() - i,
    {
        copy.push(strings[i].clone());
        i += 1;
    }
    assert(texts(copy@) =~= texts(strings@));
    copy
}

impl Clone for WebSocketBuilder {
    fn clone(&self) -> (copy: Self)
        ensures
            copy@ == self@,
    {
        WebSocketBuilder {
            url: self.url.clone(),
            protocols: clone_texts(&self.protocols),
            interface: self.interface,
            send_buffer_size: self.send_buffer_size,
            receive_buffer_size: self.receive_buffer_size,
        }
    }
}

impl WebSocketBuilder {
    /// Creates a new WebSocket builder that will connect to the specified
    /// URL.
    pub fn new(url: &str) -> (builder: Self)
        ensures
            builder@ == (BuilderView {
                url: url@,
                protocols: Seq::empty(),
                interface: None,
                send_buffer_size: None,
                receive_buffer_size: None,
            }),
    {
        let builder = WebSocketBuilder {
            url: String::from_str(url),
            protocols: Vec::new(),
            interface: None,
            send_buffer_size: None,
            receive_buffer_size: None,
        };
        assert(builder@.protocols =~= Seq::empty());
        builder
    }

    /// Sets the WebSocket browser interface to use.
    ///
    /// If unset, the stream-based interface is preferred when available.
    pub fn set_interface(&mut self, interface: Interface)
        ensures
            final(self)@ == (BuilderView { interface: Some(interface), ..old(self)@ }),
    {
        self.interface = Some(interface);
    }

    /// Sets the sub-protocol(s) that the client would like to use.
    ///
    /// If protocols is included, the connection will only be established if
    /// the server reports that it has selected one of these sub-protocols.
    pub fn set_protocols(&mut self, protocols: Vec<String>)
        ensures
            final(self)@ == (BuilderView { protocols: texts(protocols@), ..old(self)@ }),
    {
        self.protocols = protocols;
    }

    /// Sets the maximum send buffer size in bytes.
    ///
    /// This only affects the standardized interface.
    ///
    /// If the maximum send buffer size is reached, all sending functions stop
    /// accepting data until the send buffer size falls below the specified
    /// size.
    pub fn set_send_buffer_size(&mut self, send_buffer_size: usize)
        ensures
            final(self)@ == (BuilderView { send_buffer_size: Some(send_buffer_size), ..old(self)@ }),
    {
        self.send_buffer_size = Some(send_buffer_size);
    }

    /// Sets the maximum receive buffer size in bytes.
    ///
    /// This only affects the standardized interface.
    ///
    /// If the maximum receive buffer size is reached, the WebSocket is closed
    /// and an error is returned when trying to read from it.
    pub fn set_receive_buffer_size(&mut self, receive_buffer_size: usize)
        ensures
            final(self)@ == (BuilderView {
                receive_buffer_size: Some(receive_buffer_size),
                ..old(self)@
            }),
    {
        self.receive_buffer_size = Some(receive_buffer_size);
    }

    /// Begins to establish the WebSocket connection: chooses the interface
    /// that carries it among those that the runtime offers, or fails where
    /// the runtime does not offer the one that is tried.
    pub fn connect(self, runtime: &Runtime) -> (attempt: Result<Connecting, Error>)
        ensures
            match attempt {
                Ok(connecting) => {
                    &&& selection(self@.interface, *runtime) == Ok::<Interface, ErrorView>(
                        connecting@.interface,
                    )
                    &&& connecting@.options == self@
                },
                Err(e) => selection(self@.interface, *runtime) == Err::<Interface, ErrorView>(e@),
            },
    {
        let interface = match self.interface {
            Some(interface) => interface,
            None => if Interface::Stream.is_supported(runtime) {
                Interface::Stream
            } else {
                Interface::Standard
            },
        };
        if !interface.is_supported(runtime) {
            match interface {
                Interface::Stream => {
                    return Err(Error::new(ErrorKind::Unsupported, "WebSocketStream not supported"));
                },
                Interface::Standard => {
                    return Err(Error::new(ErrorKind::Unsupported, "WebSocket not supported"));
                },
            }
        }
        Ok(Connecting { options: self, interface })
    }
}

/// A connection that is being established over the interface that was
/// chosen for it.
#[derive(Debug)]
pub struct Connecting {
    options: WebSocketBuilder,
    interface: Interface,
}

/// A connection that is being established.
pub struct ConnectingView {
    /// The options of the connection.
    pub options: BuilderView,
    /// The interface that was chosen.
    pub interface: Interface,
}

impl View for Connecting {
    type V = ConnectingView;

    closed spec fn view(&self) -> ConnectingView {
        ConnectingView { options: self.options@, interface: self.interface }
    }
}

impl ConnectingView {
    /// Whether the connection can be opened with its options: over the
    /// standardized interface, the ceiling of the receive buffer must be one
    /// that a credit pool can have.
    pub open spec fn can_open(self) -> bool {
        self.interface == Interface::Standard ==> match self.options.receive_buffer_size {
            Some(size) => size <= MAX_CREDITS,
            None => true,
        }
    }

    /// What is known of the connection once it is open. The stream-based
    /// interface says which URL it is connected to; over the standardized
    /// interface that is the URL that was asked for.
    pub open spec fn info(self, url: Seq<char>, protocol: Seq<char>) -> InfoView {
        InfoView {
            url: match self.interface {
                Interface::Stream => url,
                Interface::Standard => self.options.url,
            },
            protocol,
            interface: self.interface,
        }
    }

    /// The connection when the transport reports it as open: nothing is
    /// under way, nothing is queued, nothing is known of a closure, and the
    /// buffers of the standardized interface have the ceilings of the
    /// options, or the defaults.
    pub open spec fn opened(self, url: Seq<char>, protocol: Seq<char>) -> WebSocketView {
        WebSocketView {
            sender: WebSocketSenderView {
                info: self.info(url, protocol),
                state: match self.interface {
                    Interface::Stream => SenderState::Stream(
                        stream::SenderView { writing: false, flushing: false, closing: false },
                    ),
                    Interface::Standard => SenderState::Standard {
                        ceiling: match self.options.send_buffer_size {
                            Some(size) => size as nat,
                            None => standard::DEFAULT_SEND_BUFFER_SIZE as nat,
                        },
                    },
                },
            },
            receiver: WebSocketReceiverView {
                info: self.info(url, protocol),
                kept: Seq::empty(),
                state: match self.interface {
                    Interface::Stream => ReceiverState::Stream(
                        stream::ReceiverView { reading: false, closed: ClosedView::Pending },
                    ),
                    Interface::Standard => ReceiverState::Standard(
                        standard::ReceiverView::fresh(
                            match self.options.receive_buffer_size {
                                Some(size) => size as nat,
                                None => standard::DEFAULT_RECEIVE_BUFFER_SIZE as nat,
                            },
                        ),
                    ),
                },
            },
        }
    }
}

impl Connecting {
    /// The interface that was chosen.
    pub fn interface(&self) -> (interface: Interface)
        ensures
            interface == self@.interface,
    {
        self.interface
    }

    /// The URL to connect to.
    pub fn url(&self) -> (url: &str)
        ensures
            url@ == self@.options.url,
    {
        self.options.url.as_str()
    }

    /// The sub-protocols that the client would like to use.
    pub fn protocols(&self) -> (protocols: &Vec<String>)
        ensures
            texts(protocols@) == self@.options.protocols,
    {
        &self.options.protocols
    }

    /// Whether the connection can be opened with its options.
    pub fn can_open(&self) -> (ok: bool)
        ensures
            ok == self@.can_open(),
    {
        match self.interface {
            Interface::Stream => true,
            Interface::Standard => match self.options.receive_buffer_size {
                Some(size) => size <= MAX_CREDITS,
                None => true,
            },
        }
    }

    /// The connection, now that the transport reports it as open. `url` is
    /// the URL that the transport says it is connected to, and `protocol`
    /// the sub-protocol that the server selected.
    pub fn established(self, url: String, protocol: String) -> (socket: WebSocket)
        requires
            self@.can_open(),
        ensures
            socket.wf(),
            socket@ == self@.opened(url@, protocol@),
    {
        match self.interface {
            Interface::Stream => {
                let (inner, info) = stream::Inner::new(url, protocol);
                WebSocket::stream(inner, info)
            },
            Interface::Standard => {
                let (inner, info) = standard::Inner::new(
                    self.options.url,
                    protocol,
                    self.options.send_buffer_size,
                    self.options.receive_buffer_size,
                );
                WebSocket::standard(inner, info)
            },
        }
    }

    /// The error with which the attempt ends where the transport refuses
    /// the options before it tries to connect.
    pub fn rejected(&self, failure: &JsFailure) -> (e: Error)
        ensures
            e@ == failure@.error(ErrorKind::InvalidInput),
    {
        js_err(ErrorKind::InvalidInput, failure)
    }

    /// The error with which the attempt ends where the connection cannot be
    /// established.
    pub fn refused(&self, failure: &JsFailure) -> (e: Error)
        ensures
            e@ == failure@.error(ErrorKind::ConnectionRefused),
    {
        js_err(ErrorKind::ConnectionRefused, failure)
    }
}

impl WebSocket {
    /// Begins to connect to the specified WebSocket URL using default
    /// options.
    pub fn connect(url: &str, runtime: &Runtime) -> (attempt: Result<Connecting, Error>)
        ensures
            match attempt {
                Ok(connecting) => {
                    &&& selection(None, *runtime) == Ok::<Interface, ErrorView>(
                        connecting@.interface,
                    )
                    &&& connecting@.options == WebSocketBuilder::default_options(url@)
                },
                Err(e) => selection(None, *runtime) == Err::<Interface, ErrorView>(e@),
            },
    {
        WebSocketBuilder::new(url).connect(runtime)
    }
}

impl WebSocketBuilder {
    /// The options of a connection to `url` for which nothing else is set.
    pub open spec fn default_options(url: Seq<char>) -> BuilderView {
        BuilderView {
            url,
            protocols: Seq::empty(),
            interface: None,
            send_buffer_size: None,
            receive_buffer_size: None,
        }
    }
}

/// Where no interface is asked for, the stream-based interface is chosen
/// where the runtime offers it, the standardized one where the runtime offers
/// that one only, and the attempt fails where it offers neither. Where one is
/// asked for, that one is chosen or the attempt fails: no other is tried in
/// its place.
pub proof fn lemma_selection(asked: Option<Interface>, runtime: Runtime)
    ensures
        asked is None && runtime.stream ==> selection(asked, runtime) == Ok::<
            Interface,
            ErrorView,
        >(Interface::Stream),
        asked is None && !runtime.stream && runtime.standard ==> selection(asked, runtime) == Ok::<
            Interface,
            ErrorView,
        >(Interface::Standard),
        asked is None && !runtime.stream && !runtime.standard ==> selection(asked, runtime)
            is Err,
        asked matches Some(interface) ==> selection(asked, runtime) == if interface.supported(
            runtime,
        ) {
            Ok::<Interface, ErrorView>(interface)
        } else {
            Err::<Interface, ErrorView>(unsupported(interface))
        },
        selection(asked, runtime) matches Ok(interface) ==> interface.supported(runtime),
        selection(asked, runtime) matches Err(e) ==> e.kind == ErrorKind::Unsupported,
{
}

} // verus!
