//! Configuration of the transports a server can host.

use vstd::prelude::*;
use vstd::string::StringSliceAdditionalSpecFns;
use std::path::PathBuf;

verus! {

/// Default header name carrying the static api key. The `Authorization`
/// header is kept for session-validator identity tokens.
pub const DEFAULT_API_KEY_HEADER: &'static str = "X-Plexus-API-Key";

/// The version string of this crate, reported by the REST gateway by default.
pub const PACKAGE_VERSION: &'static str = "0.1.0";

/// Whether byte `b` may appear in an HTTP header name (an RFC 7230 `tchar`).
pub open spec fn is_tchar_byte(b: u8) -> bool {
    ||| b == 33
    ||| 35 <= b <= 39
    ||| b == 42
    ||| b == 43
    ||| b == 45
    ||| b == 46
    ||| 48 <= b <= 57
    ||| 65 <= b <= 90
    ||| 94 <= b <= 122
    ||| b == 124
    ||| b == 126
}

/// The normalized form of a header-name byte: ASCII letters lowercased,
/// other token chars kept, and 0 for a byte that is not allowed.
pub open spec fn header_char(b: u8) -> u8 {
    if 65 <= b <= 90 {
        (b + 32) as u8
    } else if is_tchar_byte(b) {
        b
    } else {
        0
    }
}

/// Whether `bytes` form a valid header name: between 1 and 65535 bytes,
/// each of them a token char.
pub open spec fn valid_header_name_bytes(bytes: Seq<u8>) -> bool {
    &&& 1 <= bytes.len() <= 65535
    &&& forall|i: int| 0 <= i < bytes.len() ==> header_char(#[trigger] bytes[i]) != 0
}

/// The normalized (lowercase) header name for valid `bytes`.
pub open spec fn normalized_header_name(bytes: Seq<u8>) -> Seq<char> {
    bytes.map_values(|b: u8| header_char(b) as char)
}

/// Whether `c` is a token char in normalized (lowercase) form.
pub open spec fn is_lower_token_char(c: char) -> bool {
    &&& (c as u32) < 128
    &&& is_tchar_byte(c as u8)
    &&& !('A' <= c <= 'Z')
}

/// Whether `s` is a normalized header name.
pub open spec fn is_normalized_header_name(s: Seq<char>) -> bool {
    &&& 1 <= s.len() <= 65535
    &&& forall|i: int| 0 <= i < s.len() ==> is_lower_token_char(#[trigger] s[i])
}

/// Calls `http::HeaderName::from_bytes` and reads back the name with
/// `HeaderName::as_str`. Claims what the http crate's source shows:
/// the bytes are accepted exactly when there are 1 to 65535 of them and
/// each is a token char, and the stored name maps ASCII letters to
/// lowercase and keeps every other byte.
#[verifier::external_body]
fn header_name_from_bytes(src: &[u8]) -> (res: Option<String>)
    ensures
        res is Some <==> valid_header_name_bytes(src@),
        res matches Some(name) ==> name@ == normalized_header_name(src@),
{
    match http::HeaderName::from_bytes(src) {
        Ok(name) => Some(name.as_str().to_string()),
        Err(_) => None,
    }
}

/// Calls `http::HeaderName::from_static` and reads back the name with
/// `HeaderName::as_str`. `from_static` panics unless the string is a
/// non-empty lowercase token of at most 65535 bytes, which `requires`
/// demands; on such a string the stored name is the string itself.
#[verifier::external_body]
fn header_name_from_static(src: &'static str) -> (res: String)
    requires
        is_normalized_header_name(src@),
    ensures
        res@ == src@,
{
    http::HeaderName::from_static(src).as_str().to_string()
}

/// The name of the header that carries the static api key, normalized to
/// lowercase (header lookup is case-insensitive).
#[derive(Clone, Debug)]
pub struct ApiKeyHeader {
    name: String,
}

impl View for ApiKeyHeader {
    type V = Seq<char>;

    closed spec fn view(&self) -> Seq<char> {
        self.name@
    }
}

proof fn lemma_normalized_is_lower_token(bytes: Seq<u8>)
    requires
        valid_header_name_bytes(bytes),
    ensures
        is_normalized_header_name(normalized_header_name(bytes)),
{
    assert forall|i: int| 0 <= i < bytes.len() implies is_lower_token_char(
        #[trigger] normalized_header_name(bytes)[i],
    ) by {
        let b = bytes[i];
        assert(header_char(b) != 0);
        let c = header_char(b) as char;
        assert(c as u32 == header_char(b) as u32);
        assert((c as u32) < 128);
        assert(c as u8 == header_char(b));
    }
}

impl ApiKeyHeader {
    /// The name in normalized form.
    pub fn as_str(&self) -> (res: &str)
        ensures
            res@ == self@,
    {
        self.name.as_str()
    }

    /// Parse a header name; `None` when it is not a valid header name.
    pub fn parse(name: &str) -> (res: Option<ApiKeyHeader>)
        ensures
            res is Some <==> valid_header_name_bytes(name.spec_bytes()),
            res matches Some(h) ==> h@ == normalized_header_name(name.spec_bytes())
                && is_normalized_header_name(h@),
    {
        match header_name_from_bytes(name.as_bytes()) {
            Some(n) => {
                proof {
                    lemma_normalized_is_lower_token(name.spec_bytes());
                }
                Some(ApiKeyHeader { name: n })
            },
            None => None,
        }
    }

    /// The default header, `x-plexus-api-key`.
    pub fn plexus_default() -> (res: ApiKeyHeader)
        ensures
            res@ == "x-plexus-api-key"@,
            is_normalized_header_name(res@),
    {
        let s = "x-plexus-api-key";
        proof {
            reveal_strlit("x-plexus-api-key");
            assert forall|i: int| 0 <= i < s@.len() implies is_lower_token_char(
                #[trigger] s@[i],
            ) by {
                let c = s@[i];
                assert(c == 'x' || c == '-' || c == 'p' || c == 'l' || c == 'e' || c == 'u'
                    || c == 's' || c == 'a' || c == 'i' || c == 'k' || c == 'y');
            }
        }
        ApiKeyHeader { name: header_name_from_static(s) }
    }
}

/// ASCII lowercase of a byte.
pub open spec fn lower_byte(b: u8) -> u8 {
    if 65 <= b <= 90 {
        (b + 32) as u8
    } else {
        b
    }
}

/// Header names are case-insensitive: two names that differ only in the
/// case of ASCII letters are both valid or both invalid, and normalize to
/// the same name.
pub proof fn law_header_names_case_insensitive(a: Seq<u8>, b: Seq<u8>)
    requires
        a.len() == b.len(),
        forall|i: int| 0 <= i < a.len() ==> lower_byte(#[trigger] a[i]) == lower_byte(b[i]),
    ensures
        valid_header_name_bytes(a) == valid_header_name_bytes(b),
        normalized_header_name(a) == normalized_header_name(b),
{
    assert forall|i: int| 0 <= i < a.len() implies header_char(#[trigger] a[i]) == header_char(
        b[i],
    ) by {
        assert(lower_byte(a[i]) == lower_byte(b[i]));
    }
    if valid_header_name_bytes(a) {
        assert forall|i: int| 0 <= i < b.len() implies header_char(#[trigger] b[i]) != 0 by {
            assert(header_char(a[i]) == header_char(b[i]));
        }
    }
    if valid_header_name_bytes(b) {
        assert forall|i: int| 0 <= i < a.len() implies header_char(#[trigger] a[i]) != 0 by {
            assert(header_char(a[i]) == header_char(b[i]));
        }
    }
    assert(normalized_header_name(a) =~= normalized_header_name(b));
}

/// The IP address of a listen address.
#[derive(Clone, Copy, Debug, PartialEq, Eq)]
pub enum ListenIp {
    /// An IPv4 address, by its four octets.
    V4([u8; 4]),
    /// An IPv6 address, by its eight 16-bit groups.
    V6([u16; 8]),
}

/// A socket address to listen on.
#[derive(Clone, Copy, Debug, PartialEq, Eq)]
pub struct ListenAddr {
    pub ip: ListenIp,
    pub port: u16,
}

/// Whether `ip` is the IPv4 loopback address `127.0.0.1`.
pub open spec fn is_loopback_v4(ip: ListenIp) -> bool {
    match ip {
        ListenIp::V4(octets) => octets@ == seq![127u8, 0u8, 0u8, 1u8],
        ListenIp::V6(_) => false,
    }
}

impl ListenAddr {
    /// `127.0.0.1:port`.
    pub fn localhost(port: u16) -> (res: ListenAddr)
        ensures
            is_loopback_v4(res.ip),
            res.port == port,
    {
        let octets: [u8; 4] = [127, 0, 0, 1];
        assert(octets@ =~= seq![127u8, 0u8, 0u8, 1u8]);
        ListenAddr { ip: ListenIp::V4(octets), port }
    }
}

/// WebSocket server configuration.
#[derive(Clone, Debug)]
pub struct WebSocketConfig {
    pub addr: ListenAddr,
    /// Optional admission key required on the HTTP upgrade request,
    /// checked against `api_key_header`, not against `Authorization`.
    pub api_key: Option<String>,
    /// The header carrying the api key on the upgrade request.
    pub api_key_header: ApiKeyHeader,
}

impl WebSocketConfig {
    /// Listen on `127.0.0.1:port`, with no api key and the default header.
    pub fn new(port: u16) -> (res: WebSocketConfig)
        ensures
            is_loopback_v4(res.addr.ip),
            res.addr.port == port,
            res.api_key is None,
            res.api_key_header@ == "x-plexus-api-key"@,
    {
        WebSocketConfig {
            addr: ListenAddr::localhost(port),
            api_key: None,
            api_key_header: ApiKeyHeader::plexus_default(),
        }
    }

    /// Override the header that carries the api key.
    pub fn with_api_key_header(self, header: ApiKeyHeader) -> (res: WebSocketConfig)
        ensures
            res.addr == self.addr,
            res.api_key == self.api_key,
            res.api_key_header == header,
    {
        WebSocketConfig { api_key_header: header, ..self }
    }
}

/// Stdio (line-delimited JSON-RPC) configuration.
#[derive(Clone, Debug)]
pub struct StdioConfig {
    /// Buffer size for subscription notifications.
    pub subscription_buffer_size: usize,
}

impl Default for StdioConfig {
    fn default() -> (res: StdioConfig)
        ensures
            res.subscription_buffer_size == 1024,
    {
        StdioConfig { subscription_buffer_size: 1024 }
    }
}

/// `std::path::PathBuf`, carried through as an opaque value.
#[verifier::external_type_specification]
#[verifier::external_body]
pub struct ExPathBuf(PathBuf);

/// `<PathBuf as Clone>::clone`, which the derived `Clone` of
/// [`SessionStorage`] calls. Nothing is claimed of the copy: the path is
/// carried through opaquely.
pub assume_specification[ <PathBuf as Clone>::clone ](path: &PathBuf) -> PathBuf;

/// Session storage backend for MCP.
#[derive(Clone, Debug)]
pub enum SessionStorage {
    /// In-memory sessions (lost on restart).
    InMemory,
    /// SQLite persistent sessions at this path (survive restarts).
    Sqlite { path: PathBuf },
}

impl Default for SessionStorage {
    fn default() -> (res: SessionStorage)
        ensures
            res is InMemory,
    {
        SessionStorage::InMemory
    }
}

/// MCP HTTP server configuration.
#[derive(Clone, Debug)]
pub struct McpHttpConfig {
    pub addr: ListenAddr,
    pub session_storage: SessionStorage,
    /// Override for the server name (defaults to the activation namespace).
    pub server_name: Option<String>,
    /// Override for the server version (defaults to the activation version).
    pub server_version: Option<String>,
    /// Optional bearer token required on all MCP HTTP requests.
    pub api_key: Option<String>,
}

impl McpHttpConfig {
    /// Listen on `127.0.0.1:port` with in-memory sessions and no overrides.
    pub fn new(port: u16) -> (res: McpHttpConfig)
        ensures
            is_loopback_v4(res.addr.ip),
            res.addr.port == port,
            res.session_storage is InMemory,
            res.server_name is None,
            res.server_version is None,
            res.api_key is None,
    {
        McpHttpConfig {
            addr: ListenAddr::localhost(port),
            session_storage: SessionStorage::default(),
            server_name: None,
            server_version: None,
            api_key: None,
        }
    }

    /// Override the server name reported in MCP server info.
    pub fn with_server_name(self, name: String) -> (res: McpHttpConfig)
        ensures
            res == (McpHttpConfig { server_name: Some(name), ..self }),
    {
        McpHttpConfig { server_name: Some(name), ..self }
    }

    /// Override the server version reported in MCP server info.
    pub fn with_server_version(self, version: String) -> (res: McpHttpConfig)
        ensures
            res == (McpHttpConfig { server_version: Some(version), ..self }),
    {
        McpHttpConfig { server_version: Some(version), ..self }
    }

    /// Keep sessions in the SQLite database at `path`.
    pub fn with_sqlite(self, path: PathBuf) -> (res: McpHttpConfig)
        ensures
            res == (McpHttpConfig { session_storage: SessionStorage::Sqlite { path }, ..self }),
    {
        McpHttpConfig { session_storage: SessionStorage::Sqlite { path }, ..self }
    }
}

/// REST HTTP server configuration.
#[derive(Clone, Debug)]
pub struct RestHttpConfig {
    pub addr: ListenAddr,
    pub server_name: String,
    pub server_version: String,
}

impl RestHttpConfig {
    /// Listen on `127.0.0.1:port`, named `plexus-rest`, with this crate's
    /// version.
    pub fn new(port: u16) -> (res: RestHttpConfig)
        ensures
            is_loopback_v4(res.addr.ip),
            res.addr.port == port,
            res.server_name@ == "plexus-rest"@,
            res.server_version@ == PACKAGE_VERSION@,
    {
        RestHttpConfig {
            addr: ListenAddr::localhost(port),
            server_name: String::from_str("plexus-rest"),
            server_version: String::from_str(PACKAGE_VERSION),
        }
    }

    /// Override the server name.
    pub fn with_server_name(self, name: String) -> (res: RestHttpConfig)
        ensures
            res == (RestHttpConfig { server_name: name, ..self }),
    {
        RestHttpConfig { server_name: name, ..self }
    }

    /// Override the server version.
    pub fn with_server_version(self, version: String) -> (res: RestHttpConfig)
        ensures
            res == (RestHttpConfig { server_version: version, ..self }),
    {
        RestHttpConfig { server_version: version, ..self }
    }
}

/// Complete transport configuration.
#[derive(Clone, Debug)]
pub struct TransportConfig {
    pub websocket: Option<WebSocketConfig>,
    pub stdio: Option<StdioConfig>,
    pub mcp_http: Option<McpHttpConfig>,
    pub rest_http: Option<RestHttpConfig>,
    /// Optional admission key required on all WebSocket, MCP HTTP and REST
    /// HTTP connections; `None` enforces no admission check.
    pub api_key: Option<String>,
    /// The header carrying the api key on incoming WebSocket upgrades.
    pub api_key_header: ApiKeyHeader,
}

impl Default for TransportConfig {
    fn default() -> (res: TransportConfig)
        ensures
            res.websocket is None,
            res.stdio is None,
            res.mcp_http is None,
            res.rest_http is None,
            res.api_key is None,
            res.api_key_header@ == "x-plexus-api-key"@,
    {
        TransportConfig {
            websocket: None,
            stdio: None,
            mcp_http: None,
            rest_http: None,
            api_key: None,
            api_key_header: ApiKeyHeader::plexus_default(),
        }
    }
}

} // verus!
