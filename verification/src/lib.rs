//! Formatting of metrics and events as DogStatsD datagrams.
//!
//! A datagram is one piece of text without a line break at its end:
//!
//! * a metric, `[<namespace>.]<name>:<value>|<type>[|#<key>:<value>,...]`,
//!   where the type is one of `c`, `g`, `s`, `h` and `d`;
//! * an event, `_e{<title bytes>,<text bytes>}:<title>|<text>` followed by
//!   the suffixes of its optional fields.
//!
//! Everything here is a function of its arguments, but for one case: an
//! event whose time lies before the Unix epoch is sent with the time of the
//! system clock. Nothing is sent from here; a client hands the text, or its
//! bytes, to a socket.
//!
//! The modules:
//!
//! * [`metrics`] holds the kinds of metric and their text, [`metric`] the
//!   whole datagram of a metric with namespace and tags;
//! * [`events`] holds the event and its text;
//! * [`tags`] renders tags, [`render`] and [`integral`] say which values have
//!   a text form, and [`decimal`] writes integers in base 10.
use vstd::prelude::*;

mod buffer;
pub mod decimal;
pub mod events;
pub mod integral;
pub mod metric;
pub mod metrics;
pub mod render;
pub mod tags;

pub use crate::events::{AggKey, AlertType, Event, EventTime, Hostname, Priority, SourceTypeName};
pub use crate::integral::Integral;
pub use crate::metrics::Metric;
pub use crate::render::Renderable;
pub use crate::tags::Tag;

verus! {

/// A value that has a text in the DogStatsD datagram format.
pub trait DatagramFormat {
    /// Whether `text` is what `format` may return for this value. Most
    /// values have exactly one such text. Two kinds have more: an event
    /// whose time lies before the Unix epoch, one for each reading of the
    /// clock, and tags in a hash map, one for each order of its entries.
    spec fn formats_as(&self, text: Seq<char>) -> bool;

    /// The value in the datagram format.
    fn format(&self) -> (text: String)
        ensures
            self.formats_as(text@),
    ;
}

/// A reference formats as what it refers to.
impl<T: DatagramFormat> DatagramFormat for &T {
    open spec fn formats_as(&self, text: Seq<char>) -> bool {
        (**self).formats_as(text)
    }

    fn format(&self) -> (text: String) {
        (**self).format()
    }
}

/// An absent value formats as the empty text, a present one as itself.
impl<T: DatagramFormat> DatagramFormat for Option<T> {
    open spec fn formats_as(&self, text: Seq<char>) -> bool {
        match self {
            None => text == Seq::<char>::empty(),
            Some(t) => t.formats_as(text),
        }
    }

    fn format(&self) -> (text: String) {
        match self {
            None => String::new(),
            Some(t) => t.format(),
        }
    }
}

/// The two addresses of a client, by their texts.
pub struct ConfigView {
    pub from_addr: Seq<char>,
    pub to_addr: Seq<char>,
}

/// Where a client binds its socket and where it sends.
pub struct Config {
    from_addr: String,
    to_addr: String,
}

impl View for Config {
    type V = ConfigView;

    closed spec fn view(&self) -> ConfigView {
        ConfigView { from_addr: self.from_addr@, to_addr: self.to_addr@ }
    }
}

/// The configuration of a client that binds any free local port and sends to
/// the agent's default port on this host.
pub open spec fn default_config() -> ConfigView {
    ConfigView { from_addr: "127.0.0.1:0"@, to_addr: "127.0.0.1:8125"@ }
}

impl Default for Config {
    fn default() -> (config: Config)
        ensures
            config@ == default_config(),
    {
        Config { from_addr: "127.0.0.1:0".to_owned(), to_addr: "127.0.0.1:8125".to_owned() }
    }
}

impl Config {
    /// The default configuration.
    pub fn new() -> (config: Config)
        ensures
            config@ == default_config(),
    {
        Config::default()
    }

    /// Sets the address that the socket is bound to.
    pub fn from_addr(self, from_addr: String) -> (config: Config)
        ensures
            config@ == (ConfigView { from_addr: from_addr@, ..self@ }),
    {
        Config { from_addr, ..self }
    }

    /// Sets the address that datagrams are sent to.
    pub fn to_addr(self, to_addr: String) -> (config: Config)
        ensures
            config@ == (ConfigView { to_addr: to_addr@, ..self@ }),
    {
        Config { to_addr, ..self }
    }

    /// The address that the socket is bound to.
    pub fn bind_addr(&self) -> (addr: &str)
        ensures
            addr@ == self@.from_addr,
    {
        self.from_addr.as_str()
    }

    /// The address that datagrams are sent to.
    pub fn peer_addr(&self) -> (addr: &str)
        ensures
            addr@ == self@.to_addr,
    {
        self.to_addr.as_str()
    }
}

} // verus!
