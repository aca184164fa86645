use vstd::prelude::*;

verus! {

/// The largest UDP payload the client sends or accepts, in bytes; also the
/// size of its output buffer.
pub const MAX_DATAGRAM_SIZE: usize = 8192;

/// The size of the client's input buffer, in bytes.
pub const RECV_BUFFER_SIZE: usize = 65535;

/// The transport settings of the client's QUIC connections.
#[derive(Debug, PartialEq, Eq)]
pub struct ClientSettings {
    /// The application protocols offered in the TLS handshake (ALPN).
    pub application_protos: Vec<Vec<u8>>,
    /// The congestion control algorithm, by name (such as `cubic` or `bbr2`).
    pub cc_algorithm: String,
    pub max_idle_timeout_ms: u64,
    pub max_recv_udp_payload_size: usize,
    pub max_send_udp_payload_size: usize,
    pub initial_max_data: u64,
    pub initial_max_stream_data_bidi_local: u64,
    pub initial_max_stream_data_bidi_remote: u64,
    pub initial_max_stream_data_uni: u64,
    pub initial_max_streams_bidi: u64,
    pub initial_max_streams_uni: u64,
    /// Whether the server's certificate is checked.
    pub verify_peer: bool,
    /// Whether 0-RTT early data is enabled.
    pub early_data: bool,
}

/// The settings of a benchmark connection: HTTP/3 (`h3`) as the only
/// application protocol, a 15 s idle timeout, datagrams
/// of up to `MAX_DATAGRAM_SIZE` bytes, 10 MB of connection flow-control
/// credit and 1 MB per stream, 100 streams of each kind, no certificate
/// check, early data enabled, and the given congestion control algorithm.
pub open spec fn client_settings_spec(s: ClientSettings, cc: Seq<char>) -> bool {
    &&& s.application_protos@.len() == 1
    &&& s.application_protos@[0]@ == vstd::utf8::encode_utf8("h3"@)
    &&& s.cc_algorithm@ == cc
    &&& s.max_idle_timeout_ms == 15000
    &&& s.max_recv_udp_payload_size == MAX_DATAGRAM_SIZE
    &&& s.max_send_udp_payload_size == MAX_DATAGRAM_SIZE
    &&& s.initial_max_data == 10_000_000
    &&& s.initial_max_stream_data_bidi_local == 1_000_000
    &&& s.initial_max_stream_data_bidi_remote == 1_000_000
    &&& s.initial_max_stream_data_uni == 1_000_000
    &&& s.initial_max_streams_bidi == 100
    &&& s.initial_max_streams_uni == 100
    &&& !s.verify_peer
    &&& s.early_data
}

/// The ALPN identifiers of HTTP/3, as the HTTP/3 layer offers them.
///
/// Trusted: copies `quiche::h3::APPLICATION_PROTOCOL`, which quiche defines
/// as the single identifier `h3`.
#[verifier::external_body]
fn http3_alpn() -> (protos: Vec<Vec<u8>>)
    ensures
        protos@.len() == 1,
        protos@[0]@ == vstd::utf8::encode_utf8("h3"@),
{
    quiche::h3::APPLICATION_PROTOCOL.iter().map(|p| p.to_vec()).collect()
}

/// The settings of a benchmark connection with the given congestion control
/// algorithm.
pub fn client_settings(cc_algorithm: &str) -> (s: ClientSettings)
    ensures
        client_settings_spec(s, cc_algorithm@),
        s.cc_algorithm@ == cc_algorithm@,
        s.application_protos@.len() == 1,
        s.application_protos@[0]@ == vstd::utf8::encode_utf8("h3"@),
        s.max_idle_timeout_ms == 15000,
        s.max_recv_udp_payload_size == 8192,
        s.max_send_udp_payload_size == 8192,
        s.initial_max_data == 10_000_000,
        s.initial_max_stream_data_bidi_local == 1_000_000,
        s.initial_max_stream_data_bidi_remote == 1_000_000,
        s.initial_max_stream_data_uni == 1_000_000,
        s.initial_max_streams_bidi == 100,
        s.initial_max_streams_uni == 100,
        !s.verify_peer,
        s.early_data,
{
    ClientSettings {
        application_protos: http3_alpn(),
        cc_algorithm: String::from_str(cc_algorithm),
        max_idle_timeout_ms: 15000,
        max_recv_udp_payload_size: MAX_DATAGRAM_SIZE,
        max_send_udp_payload_size: MAX_DATAGRAM_SIZE,
        initial_max_data: 10_000_000,
        initial_max_stream_data_bidi_local: 1_000_000,
        initial_max_stream_data_bidi_remote: 1_000_000,
        initial_max_stream_data_uni: 1_000_000,
        initial_max_streams_bidi: 100,
        initial_max_streams_uni: 100,
        verify_peer: false,
        early_data: true,
    }
}

/// The local address the client binds to: the unspecified address of the
/// server's address family, with a port chosen by the system.
pub open spec fn bind_address_text(peer_is_ipv6: bool) -> Seq<char> {
    if peer_is_ipv6 {
        "[::]:0"@
    } else {
        "0.0.0.0:0"@
    }
}

/// Chooses the local address to bind, after the server's address family.
pub fn bind_address(peer_is_ipv6: bool) -> (a: &'static str)
    ensures
        a@ == bind_address_text(peer_is_ipv6),
        peer_is_ipv6 ==> a@ == "[::]:0"@,
        !peer_is_ipv6 ==> a@ == "0.0.0.0:0"@,
{
    if peer_is_ipv6 {
        "[::]:0"
    } else {
        "0.0.0.0:0"
    }
}

/// The server's address and port as text, `host:port`.
pub open spec fn peer_address_text() -> Seq<char> {
    "10.0.0.2:6653"@
}

/// The server's address and port as text.
pub fn peer_address() -> (a: &'static str)
    ensures
        a@ == peer_address_text(),
        a@ == "10.0.0.2:6653"@,
{
    "10.0.0.2:6653"
}

} // verus!
