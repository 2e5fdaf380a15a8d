//! Settings of the HTTP endpoint.

use vstd::prelude::*;

verus! {

/// Port that the endpoint listens on unless told otherwise.
pub const DEFAULT_PORT: u16 = 8080;

/// An Internet address, version four or six, by its parts.
#[derive(Clone, Copy, Debug, PartialEq, Eq, Structural)]
pub enum IpAddress {
    V4(u8, u8, u8, u8),
    V6(u16, u16, u16, u16, u16, u16, u16, u16),
}

/// An address and a port to listen on.
#[derive(Clone, Copy, Debug, PartialEq, Eq, Structural)]
pub struct SocketAddress {
    pub ip: IpAddress,
    pub port: u16,
}

/// The internal configuration -- any historical warts from the external
/// configuration are removed. Anything using this struct can trust that it
/// has been validated.
#[derive(Clone, Debug, PartialEq, Eq)]
pub struct Config {
    /// IP address and port to listen on.
    pub listen_addr: SocketAddress,
    /// The path to write the listening port to.
    pub port_file_path: Option<String>,
    /// The endpoint can serve from at most `max_tcp_connections`
    /// simultaneous TCP connections. If the limit is reached and a new TCP
    /// connection arrives, it is accepted and dropped immediately.
    pub max_tcp_connections: usize,
    /// If no bytes are read from a connection for this long, the connection
    /// is dropped.
    pub connection_read_timeout_seconds: u64,
    /// Per request timeout in seconds before the server replies with
    /// `504 Gateway Timeout`.
    pub request_timeout_seconds: u64,
    /// The `SETTINGS_MAX_CONCURRENT_STREAMS` option for HTTP2 connections.
    pub http_max_concurrent_streams: u32,
    /// The maximum time to wait for the first bytes on a TCP connection.
    pub max_tcp_peek_timeout_seconds: u64,
    /// A request with a larger body is rejected with
    /// `413 Content Too Large`.
    pub max_request_size_bytes: u64,
    /// A delegation certificate request with a larger body is rejected.
    pub max_delegation_certificate_size_bytes: u64,
    /// If the request body is not received within this time, the request
    /// is rejected with `408 Request Timeout`.
    pub max_request_receive_seconds: u64,
}

impl Config {
    /// Whether these are the settings that apply where nothing is
    /// configured.
    pub open spec fn is_default(&self) -> bool {
        &&& self.listen_addr == (SocketAddress {
            ip: IpAddress::V4(0, 0, 0, 0),
            port: DEFAULT_PORT,
        })
        &&& self.port_file_path is None
        &&& self.max_tcp_connections == 20_000
        &&& self.connection_read_timeout_seconds == 1_200
        &&& self.request_timeout_seconds == 300
        &&& self.http_max_concurrent_streams == 256
        &&& self.max_tcp_peek_timeout_seconds == 11
        &&& self.max_request_size_bytes == 5 * 1024 * 1024
        &&& self.max_delegation_certificate_size_bytes == 1024 * 1024
        &&& self.max_request_receive_seconds == 300
    }
}

impl Default for Config {
    fn default() -> (config: Self)
        ensures
            config.is_default(),
    {
        Config {
            listen_addr: SocketAddress { ip: IpAddress::V4(0, 0, 0, 0), port: DEFAULT_PORT },
            port_file_path: None,
            max_tcp_connections: 20_000,
            connection_read_timeout_seconds: 1_200,
            request_timeout_seconds: 300,
            http_max_concurrent_streams: 256,
            max_tcp_peek_timeout_seconds: 11,
            max_request_size_bytes: 5 * 1024 * 1024,
            max_delegation_certificate_size_bytes: 1024 * 1024,
            max_request_receive_seconds: 300,
        }
    }
}

} // verus!
