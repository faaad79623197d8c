//! The transport server: its builder, the build-time check that auth-gated
//! methods are not deployed without auth middleware, and the plan of what
//! `serve` starts.

use vstd::prelude::*;
use crate::config::{
    is_loopback_v4, ApiKeyHeader, McpHttpConfig, RestHttpConfig, StdioConfig, TransportConfig, WebSocketConfig,
};
use crate::registry::{registry_disabled_by_env, registry_url_from_env, spec_registry_disabled, spec_registry_url};
use crate::text::{decimal, opt_str_view, opt_view, push_decimal};
use crate::websocket::AuthSettings;

verus! {

/// What the build-time check reads of one method of an activation's schema.
pub struct MethodInfo {
    /// The method name.
    pub name: String,
    /// `None` when the method has no parameter schema or its `properties`
    /// is not an object. Otherwise one entry per property: the string at
    /// `x-plexus-source.from` when `x-plexus-source` is an object holding a
    /// string `from`, and `None` otherwise.
    pub param_sources: Option<Vec<Option<String>>>,
}

/// What the build-time check reads of an activation's schema.
pub struct SchemaInfo {
    pub namespace: String,
    pub methods: Vec<MethodInfo>,
}

/// Whether a parameter source is the caller's identity (`"auth"`).
pub open spec fn is_auth_source(src: Option<String>) -> bool {
    match src {
        Some(f) => f@ == "auth"@,
        None => false,
    }
}

/// Whether a method takes a parameter filled from the caller's identity
/// (`x-plexus-source.from == "auth"`).
pub open spec fn method_auth_gated(m: MethodInfo) -> bool {
    match m.param_sources {
        Some(srcs) => exists|i: int| 0 <= i < srcs@.len() && is_auth_source(#[trigger] srcs@[i]),
        None => false,
    }
}

/// `namespace.method` for each auth-gated method among `methods`, in order.
pub open spec fn gated_paths(namespace: Seq<char>, methods: Seq<MethodInfo>) -> Seq<Seq<char>>
    decreases methods.len(),
{
    if methods.len() == 0 {
        Seq::empty()
    } else {
        let prev = gated_paths(namespace, methods.drop_last());
        if method_auth_gated(methods.last()) {
            prev.push(namespace + "."@ + methods.last().name@)
        } else {
            prev
        }
    }
}

/// The views of a vector of strings.
pub open spec fn strings_view(v: Vec<String>) -> Seq<Seq<char>> {
    v@.map_values(|s: String| s@)
}

fn method_is_auth_gated(m: &MethodInfo) -> (res: bool)
    ensures
        res == method_auth_gated(*m),
{
    match &m.param_sources {
        None => false,
        Some(srcs) => {
            let auth = String::from_str("auth");
            proof {
                reveal_strlit("auth");
            }
            let n = srcs.len();
            let mut i: usize = 0;
            while i < n
                invariant
                    m.param_sources == Some(*srcs),
                    n == srcs@.len(),
                    i <= n,
                    auth@ == "auth"@,
                    forall|k: int| 0 <= k < i ==> !is_auth_source(#[trigger] srcs@[k]),
                decreases n - i,
            {
                match &srcs[i] {
                    Some(f) => {
                        if f.eq(&auth) {
                            assert(m.param_sources->0 == *srcs);
                            assert(is_auth_source(m.param_sources->0@[i as int]));
                            return true;
                        }
                    },
                    None => {},
                }
                i = i + 1;
            }
            false
        },
    }
}

/// The `namespace.method` paths of the schema's auth-gated methods, in
/// order.
pub fn collect_auth_gated_methods(schema: &SchemaInfo) -> (res: Vec<String>)
    ensures
        strings_view(res) == gated_paths(schema.namespace@, schema.methods@),
{
    let mut out: Vec<String> = Vec::new();
    let n = schema.methods.len();
    let mut i: usize = 0;
    assert(schema.methods@.take(0) =~= Seq::<MethodInfo>::empty());
    while i < n
        invariant
            n == schema.methods@.len(),
            i <= n,
            strings_view(out) == gated_paths(schema.namespace@, schema.methods@.take(i as int)),
        decreases n - i,
    {
        let m = &schema.methods[i];
        assert(schema.methods@.take(i + 1).drop_last() =~= schema.methods@.take(i as int));
        if method_is_auth_gated(m) {
            let path = String::from_str(schema.namespace.as_str()).concat(".").concat(
                m.name.as_str(),
            );
            let ghost before = strings_view(out);
            out.push(path);
            assert(strings_view(out) =~= before.push(path@));
        }
        i = i + 1;
    }
    assert(schema.methods@.take(n as int) =~= schema.methods@);
    out
}

/// The build was refused: auth-gated methods are declared but no auth
/// middleware is configured.
pub struct BuildError {
    /// The auth-gated methods, as `namespace.method`.
    pub methods: Vec<String>,
}

/// `  - m1\n  - m2...` for each of `ms`.
pub open spec fn bullet_list(ms: Seq<Seq<char>>) -> Seq<char>
    decreases ms.len(),
{
    if ms.len() == 0 {
        Seq::empty()
    } else if ms.len() == 1 {
        "  - "@ + ms[0]
    } else {
        bullet_list(ms.drop_last()) + "\n"@ + "  - "@ + ms.last()
    }
}

/// How many methods a refused build lists: at most eight.
pub open spec fn shown_count(n: nat) -> int {
    if n < 8 {
        n as int
    } else {
        8
    }
}

/// The message of a refused build: the count, what to do about it, and the
/// first eight methods, followed by how many more there are.
pub open spec fn spec_build_error_message(ms: Seq<Seq<char>>) -> Seq<char> {
    "RED-4: "@ + decimal(ms.len()) + " auth-gated method(s) declared but no auth middleware configured. Call `.with_session_validator(...)` or `.with_api_key(...)` on the builder, or `.allow_missing_auth_middleware()` to intentionally opt out.\n\nAuth-gated methods:\n"@
        + bullet_list(ms.take(shown_count(ms.len()))) + if ms.len() > 8 {
        "\n  ... ("@ + decimal((ms.len() - 8) as nat) + " more)"@
    } else {
        Seq::empty()
    }
}

impl BuildError {
    /// The text of this error.
    pub fn message(&self) -> (res: String)
        ensures
            res@ == spec_build_error_message(strings_view(self.methods)),
    {
        let ghost ms = strings_view(self.methods);
        let n = self.methods.len();
        let mut out = String::from_str("RED-4: ");
        push_decimal(&mut out, n);
        out.append(
            " auth-gated method(s) declared but no auth middleware configured. Call `.with_session_validator(...)` or `.with_api_key(...)` on the builder, or `.allow_missing_auth_middleware()` to intentionally opt out.\n\nAuth-gated methods:\n",
        );
        let ghost head = out@;
        let shown = if n < 8 {
            n
        } else {
            8
        };
        let mut i: usize = 0;
        assert(ms.take(0) =~= Seq::<Seq<char>>::empty());
        while i < shown
            invariant
                ms == strings_view(self.methods),
                n == ms.len(),
                shown <= n,
                shown <= 8,
                i <= shown,
                out@ == head + bullet_list(ms.take(i as int)),
            decreases shown - i,
        {
            let ghost before = out@;
            if i > 0 {
                out.append("\n");
            }
            out.append("  - ");
            out.append(self.methods[i].as_str());
            proof {
                reveal_strlit("\n");
                reveal_strlit("  - ");
                assert(ms.take(i + 1).drop_last() =~= ms.take(i as int));
                assert(ms.take(i + 1).last() == ms[i as int]);
                if i == 0 {
                    assert(ms.take(1)[0] == ms[0]);
                    assert(out@ =~= head + bullet_list(ms.take(1)));
                } else {
                    assert(out@ =~= head + bullet_list(ms.take(i + 1)));
                }
            }
            i = i + 1;
        }
        if n > 8 {
            out.append("\n  ... (");
            push_decimal(&mut out, n - 8);
            out.append(" more)");
        }
        assert(out@ =~= spec_build_error_message(ms));
        out
    }
}

/// Builder for configuring a transport server.
pub struct TransportServerBuilder {
    pub config: TransportConfig,
    /// Whether a session validator was configured.
    pub has_session_validator: bool,
    /// Opt-out of the build-time auth-configuration check.
    pub allow_missing_auth: bool,
    /// Strict mode for the WebSocket upgrade.
    pub reject_upgrade_on_auth_failure: bool,
    /// Registry endpoint chosen on the builder.
    pub registry_url: Option<String>,
    /// Whether boot-time self-registration is on.
    pub registry_enabled: bool,
}

/// A transport server ready to serve.
pub struct TransportServer {
    pub config: TransportConfig,
    pub has_session_validator: bool,
    pub reject_upgrade_on_auth_failure: bool,
    pub registry_url: Option<String>,
    pub registry_enabled: bool,
}

/// Whether the build-time check applies: neither an api key nor a session
/// validator is configured, and the check was not opted out of. Only then
/// is the activation's schema read.
pub open spec fn spec_needs_auth_check(b: TransportServerBuilder) -> bool {
    &&& b.config.api_key is None
    &&& !b.has_session_validator
    &&& !b.allow_missing_auth
}

/// Whether the build-time check refuses: it applies, and the schema
/// declares auth-gated methods.
pub open spec fn spec_build_refused(b: TransportServerBuilder, schema: SchemaInfo) -> bool {
    &&& spec_needs_auth_check(b)
    &&& gated_paths(schema.namespace@, schema.methods@).len() > 0
}

/// The server a successful build yields.
pub open spec fn spec_built(b: TransportServerBuilder) -> TransportServer {
    TransportServer {
        config: b.config,
        has_session_validator: b.has_session_validator,
        reject_upgrade_on_auth_failure: b.reject_upgrade_on_auth_failure,
        registry_url: b.registry_url,
        registry_enabled: b.registry_enabled,
    }
}

impl TransportServer {
    /// A builder for configuring transports.
    pub fn builder() -> (res: TransportServerBuilder)
        ensures
            res.config.websocket is None,
            res.config.stdio is None,
            res.config.mcp_http is None,
            res.config.rest_http is None,
            res.config.api_key is None,
            res.config.api_key_header@ == "x-plexus-api-key"@,
            !res.has_session_validator,
            !res.allow_missing_auth,
            !res.reject_upgrade_on_auth_failure,
            res.registry_url is None,
            res.registry_enabled,
    {
        TransportServerBuilder::new()
    }
}

impl TransportServerBuilder {
    /// A builder with no transport, no auth, and self-registration on.
    pub fn new() -> (res: TransportServerBuilder)
        ensures
            res.config.websocket is None,
            res.config.stdio is None,
            res.config.mcp_http is None,
            res.config.rest_http is None,
            res.config.api_key is None,
            res.config.api_key_header@ == "x-plexus-api-key"@,
            !res.has_session_validator,
            !res.allow_missing_auth,
            !res.reject_upgrade_on_auth_failure,
            res.registry_url is None,
            res.registry_enabled,
    {
        TransportServerBuilder {
            config: TransportConfig::default(),
            has_session_validator: false,
            allow_missing_auth: false,
            reject_upgrade_on_auth_failure: false,
            registry_url: None,
            registry_enabled: true,
        }
    }

    /// Enable the WebSocket transport on `127.0.0.1:port`.
    pub fn with_websocket(self, port: u16) -> (res: TransportServerBuilder)
        ensures
            res == (TransportServerBuilder {
                config: TransportConfig { websocket: res.config.websocket, ..self.config },
                ..self
            }),
            res.config.websocket matches Some(ws) && ws.addr.port == port && is_loopback_v4(ws.addr.ip) && ws.api_key is None && ws.api_key_header@ == "x-plexus-api-key"@,
    {
        let ws = WebSocketConfig::new(port);
        TransportServerBuilder {
            config: TransportConfig { websocket: Some(ws), ..self.config },
            ..self
        }
    }

    /// Enable the stdio transport.
    pub fn with_stdio(self) -> (res: TransportServerBuilder)
        ensures
            res == (TransportServerBuilder {
                config: TransportConfig { stdio: res.config.stdio, ..self.config },
                ..self
            }),
            res.config.stdio matches Some(s) && s.subscription_buffer_size == 1024,
    {
        TransportServerBuilder {
            config: TransportConfig { stdio: Some(StdioConfig::default()), ..self.config },
            ..self
        }
    }

    /// Enable the MCP HTTP transport on `127.0.0.1:port`.
    pub fn with_mcp_http(self, port: u16) -> (res: TransportServerBuilder)
        ensures
            res == (TransportServerBuilder {
                config: TransportConfig { mcp_http: res.config.mcp_http, ..self.config },
                ..self
            }),
            res.config.mcp_http matches Some(m) && m.addr.port == port && is_loopback_v4(m.addr.ip) && m.session_storage is InMemory && m.server_name is None && m.server_version is None
                && m.api_key is None,
    {
        TransportServerBuilder {
            config: TransportConfig { mcp_http: Some(McpHttpConfig::new(port)), ..self.config },
            ..self
        }
    }

    /// Enable the MCP HTTP transport with this configuration.
    pub fn with_mcp_http_config(self, config: McpHttpConfig) -> (res: TransportServerBuilder)
        ensures
            res == (TransportServerBuilder {
                config: TransportConfig { mcp_http: Some(config), ..self.config },
                ..self
            }),
    {
        TransportServerBuilder {
            config: TransportConfig { mcp_http: Some(config), ..self.config },
            ..self
        }
    }

    /// Enable the REST HTTP transport on `127.0.0.1:port`.
    pub fn with_rest_http(self, port: u16) -> (res: TransportServerBuilder)
        ensures
            res == (TransportServerBuilder {
                config: TransportConfig { rest_http: res.config.rest_http, ..self.config },
                ..self
            }),
            res.config.rest_http matches Some(r) && r.addr.port == port && is_loopback_v4(r.addr.ip) && r.server_name@ == "plexus-rest"@,
    {
        TransportServerBuilder {
            config: TransportConfig { rest_http: Some(RestHttpConfig::new(port)), ..self.config },
            ..self
        }
    }

    /// Enable the REST HTTP transport with this configuration.
    pub fn with_rest_http_config(self, config: RestHttpConfig) -> (res: TransportServerBuilder)
        ensures
            res == (TransportServerBuilder {
                config: TransportConfig { rest_http: Some(config), ..self.config },
                ..self
            }),
    {
        TransportServerBuilder {
            config: TransportConfig { rest_http: Some(config), ..self.config },
            ..self
        }
    }

    /// Configure the static admission key (`None` disables the check).
    pub fn with_api_key(self, key: Option<String>) -> (res: TransportServerBuilder)
        ensures
            res == (TransportServerBuilder {
                config: TransportConfig { api_key: key, ..self.config },
                ..self
            }),
    {
        TransportServerBuilder { config: TransportConfig { api_key: key, ..self.config }, ..self }
    }

    /// Override the header that carries the api key on WebSocket upgrades.
    pub fn with_api_key_header(self, header: ApiKeyHeader) -> (res: TransportServerBuilder)
        ensures
            res == (TransportServerBuilder {
                config: TransportConfig { api_key_header: header, ..self.config },
                ..self
            }),
    {
        TransportServerBuilder {
            config: TransportConfig { api_key_header: header, ..self.config },
            ..self
        }
    }

    /// Record that a session validator is configured.
    pub fn with_session_validator(self) -> (res: TransportServerBuilder)
        ensures
            res == (TransportServerBuilder { has_session_validator: true, ..self }),
    {
        TransportServerBuilder { has_session_validator: true, ..self }
    }

    /// Opt in to strict session validation at the WebSocket upgrade.
    pub fn reject_upgrade_on_auth_failure(self) -> (res: TransportServerBuilder)
        ensures
            res == (TransportServerBuilder { reject_upgrade_on_auth_failure: true, ..self }),
    {
        TransportServerBuilder { reject_upgrade_on_auth_failure: true, ..self }
    }

    /// Opt out of the build-time auth-configuration check.
    pub fn allow_missing_auth_middleware(self) -> (res: TransportServerBuilder)
        ensures
            res == (TransportServerBuilder { allow_missing_auth: true, ..self }),
    {
        TransportServerBuilder { allow_missing_auth: true, ..self }
    }

    /// Announce to the registry at `url`.
    pub fn with_registry_url(self, url: String) -> (res: TransportServerBuilder)
        ensures
            res == (TransportServerBuilder { registry_url: Some(url), ..self }),
    {
        TransportServerBuilder { registry_url: Some(url), ..self }
    }

    /// Do not announce to the registry.
    pub fn without_registry(self) -> (res: TransportServerBuilder)
        ensures
            res == (TransportServerBuilder { registry_enabled: false, ..self }),
    {
        TransportServerBuilder { registry_enabled: false, ..self }
    }

    /// Whether `build` needs the activation's schema: only when neither an
    /// api key nor a session validator is configured and the check was not
    /// opted out of. The schema is read only then.
    pub fn needs_auth_check(&self) -> (res: bool)
        ensures
            res == spec_needs_auth_check(*self),
    {
        self.config.api_key.is_none() && !self.has_session_validator && !self.allow_missing_auth
    }

    /// Build the server. When [`Self::needs_auth_check`] holds, `schema` is
    /// the activation's schema, and the build is refused when it declares
    /// auth-gated methods; the error lists them. Otherwise no schema is
    /// needed and the build succeeds.
    pub fn build(self, schema: Option<&SchemaInfo>) -> (res: Result<TransportServer, BuildError>)
        requires
            spec_needs_auth_check(self) ==> schema is Some,
        ensures
            !spec_needs_auth_check(self) ==> res is Ok,
            spec_needs_auth_check(self) ==> (res is Err <==> spec_build_refused(self, *schema->0)),
            res matches Ok(s) ==> s == spec_built(self),
            res matches Err(e) ==> strings_view(e.methods) == gated_paths(
                schema->0.namespace@,
                schema->0.methods@,
            ),
    {
        if self.needs_auth_check() {
            match schema {
                Some(schema) => {
                    let gated = collect_auth_gated_methods(schema);
                    if gated.len() > 0 {
                        return Err(BuildError { methods: gated });
                    }
                },
                None => {},
            }
        }
        Ok(
            TransportServer {
                config: self.config,
                has_session_validator: self.has_session_validator,
                reject_upgrade_on_auth_failure: self.reject_upgrade_on_auth_failure,
                registry_url: self.registry_url,
                registry_enabled: self.registry_enabled,
            },
        )
    }
}

/// The WebSocket transport as it is started.
pub struct WebSocketPlan {
    pub config: WebSocketConfig,
    pub has_session_validator: bool,
    pub reject_on_session_failure: bool,
}

impl WebSocketPlan {
    /// The upgrade middleware's settings.
    pub fn auth_settings(&self) -> (res: AuthSettings)
        ensures
            res.api_key == self.config.api_key,
            res.has_session_validator == self.has_session_validator,
            res.reject_on_session_failure == self.reject_on_session_failure,
    {
        AuthSettings {
            api_key: clone_opt(&self.config.api_key),
            has_session_validator: self.has_session_validator,
            reject_on_session_failure: self.reject_on_session_failure,
        }
    }
}

/// An HTTP transport as it is started, with the admission key it enforces.
pub struct HttpPlan<C> {
    pub config: C,
    pub api_key: Option<String>,
}

/// The network transports to start.
pub struct NetworkPlan {
    pub websocket: Option<WebSocketPlan>,
    pub mcp_http: Option<HttpPlan<McpHttpConfig>>,
    pub rest_http: Option<HttpPlan<RestHttpConfig>>,
    /// Where to announce the WebSocket transport, when it is announced.
    pub registry_url: Option<String>,
}

/// What `serve` does.
pub enum ServePlan {
    /// No transport is configured: nothing to serve.
    Idle,
    /// Serve stdio only, blocking on it.
    Stdio(StdioConfig),
    /// Start these network transports and wait for the first to stop.
    Network(NetworkPlan),
}

/// Why `serve` cannot start.
#[derive(Clone, Copy, Debug, PartialEq, Eq, Structural)]
pub enum ServeError {
    /// WebSocket or stdio is configured but no RPC converter is available.
    MissingRpcConverter,
}

fn clone_opt(o: &Option<String>) -> (res: Option<String>)
    ensures
        res == *o,
{
    match o {
        Some(s) => Some(s.clone()),
        None => None,
    }
}

/// The WebSocket configuration as started: its own api key when it has
/// one, the server's otherwise, and always the server's api-key header.
pub open spec fn spec_ws_started(server: TransportServer, ws: WebSocketConfig) -> WebSocketConfig {
    WebSocketConfig {
        api_key: if ws.api_key is Some {
            ws.api_key
        } else {
            server.config.api_key
        },
        api_key_header: server.config.api_key_header,
        ..ws
    }
}

/// The registry endpoint announced to, if any: only when the WebSocket
/// transport starts, registration is enabled on the builder, and
/// `PLEXUS_NO_REGISTRY` does not disable it. The builder's endpoint wins
/// over `PLEXUS_REGISTRY_URL`, which wins over the default.
pub open spec fn spec_announce_url(
    server: TransportServer,
    no_registry_env: Option<Seq<char>>,
    registry_url_env: Option<Seq<char>>,
) -> Option<Seq<char>> {
    let disabled = spec_registry_disabled(no_registry_env);
    if server.config.websocket is Some && server.registry_enabled && !disabled {
        match server.registry_url {
            Some(u) => Some(u@),
            None => Some(spec_registry_url(registry_url_env)),
        }
    } else {
        None
    }
}

/// What `serve` starts for `server` (see [`TransportServer::plan`]): an
/// error when WebSocket or stdio needs the missing RPC converter; stdio
/// alone when stdio is configured; nothing when no transport is; otherwise
/// every configured network transport, the WebSocket one with its api key
/// propagated, the HTTP ones with the server's api key, and the registry
/// endpoint to announce to, if any.
pub open spec fn spec_plan(
    server: TransportServer,
    has_rpc_converter: bool,
    no_registry_env: Option<Seq<char>>,
    registry_url_env: Option<Seq<char>>,
    res: Result<ServePlan, ServeError>,
) -> bool {
    let c = server.config;
    &&& res is Err <==> (c.websocket is Some || c.stdio is Some) && !has_rpc_converter
    &&& res matches Ok(p) ==> match p {
        ServePlan::Idle => c.websocket is None && c.stdio is None && c.mcp_http is None
            && c.rest_http is None,
        ServePlan::Stdio(s) => c.stdio == Some(s),
        ServePlan::Network(n) => {
            &&& c.stdio is None
            &&& (c.websocket is Some || c.mcp_http is Some || c.rest_http is Some)
            &&& match c.websocket {
                Some(ws) => n.websocket matches Some(w) && w.config == spec_ws_started(server, ws)
                    && w.has_session_validator == server.has_session_validator
                    && w.reject_on_session_failure == server.reject_upgrade_on_auth_failure,
                None => n.websocket is None,
            }
            &&& match c.mcp_http {
                Some(m) => n.mcp_http matches Some(h) && h.config == m && h.api_key == c.api_key,
                None => n.mcp_http is None,
            }
            &&& match c.rest_http {
                Some(r) => n.rest_http matches Some(h) && h.config == r && h.api_key == c.api_key,
                None => n.rest_http is None,
            }
            &&& opt_view(n.registry_url) == spec_announce_url(
                server,
                no_registry_env,
                registry_url_env,
            )
        },
    }
}

impl TransportServer {
    /// Decide what `serve` starts, given whether an RPC converter is
    /// available and the values of `PLEXUS_NO_REGISTRY` and
    /// `PLEXUS_REGISTRY_URL`.
    pub fn plan(
        self,
        has_rpc_converter: bool,
        no_registry_env: Option<&str>,
        registry_url_env: Option<&str>,
    ) -> (res: Result<ServePlan, ServeError>)
        ensures
            spec_plan(
                self,
                has_rpc_converter,
                opt_str_view(no_registry_env),
                opt_str_view(registry_url_env),
                res,
            ),
    {
        if (self.config.websocket.is_some() || self.config.stdio.is_some()) && !has_rpc_converter {
            return Err(ServeError::MissingRpcConverter);
        }
        let TransportServer {
            config,
            has_session_validator,
            reject_upgrade_on_auth_failure,
            registry_url,
            registry_enabled,
        } = self;
        let TransportConfig { websocket, stdio, mcp_http, rest_http, api_key, api_key_header } =
            config;
        if let Some(s) = stdio {
            return Ok(ServePlan::Stdio(s));
        }
        if websocket.is_none() && mcp_http.is_none() && rest_http.is_none() {
            return Ok(ServePlan::Idle);
        }
        let disabled = registry_disabled_by_env(no_registry_env);
        let announce = websocket.is_some() && registry_enabled && !disabled;
        let announce_url = if announce {
            match registry_url {
                Some(u) => Some(u),
                None => Some(registry_url_from_env(registry_url_env)),
            }
        } else {
            None
        };
        let mcp_plan = match mcp_http {
            Some(m) => Some(HttpPlan { config: m, api_key: clone_opt(&api_key) }),
            None => None,
        };
        let rest_plan = match rest_http {
            Some(r) => Some(HttpPlan { config: r, api_key: clone_opt(&api_key) }),
            None => None,
        };
        let ws_plan = match websocket {
            Some(ws) => {
                let key = if ws.api_key.is_some() {
                    ws.api_key
                } else {
                    api_key
                };
                Some(
                    WebSocketPlan {
                        config: WebSocketConfig {
                            addr: ws.addr,
                            api_key: key,
                            api_key_header: api_key_header,
                        },
                        has_session_validator,
                        reject_on_session_failure: reject_upgrade_on_auth_failure,
                    },
                )
            },
            None => None,
        };
        Ok(
            ServePlan::Network(
                NetworkPlan {
                    websocket: ws_plan,
                    mcp_http: mcp_plan,
                    rest_http: rest_plan,
                    registry_url: announce_url,
                },
            ),
        )
    }
}

/// Stdio is exclusive: when it is configured (and the converter is there),
/// `serve` blocks on stdio and starts no other transport.
pub proof fn law_stdio_is_exclusive(
    server: TransportServer,
    no_registry_env: Option<Seq<char>>,
    registry_url_env: Option<Seq<char>>,
    res: Result<ServePlan, ServeError>,
)
    requires
        spec_plan(server, true, no_registry_env, registry_url_env, res),
        server.config.stdio is Some,
    ensures
        res == Ok::<ServePlan, ServeError>(ServePlan::Stdio(server.config.stdio->0)),
{
}

/// The WebSocket transport enforces its own api key when it has one and the
/// server's otherwise, always on the server's api-key header.
pub proof fn law_websocket_key_propagation(server: TransportServer, ws: WebSocketConfig)
    ensures
        spec_ws_started(server, ws).api_key == if ws.api_key is Some {
            ws.api_key
        } else {
            server.config.api_key
        },
        spec_ws_started(server, ws).api_key_header == server.config.api_key_header,
        spec_ws_started(server, ws).addr == ws.addr,
{
}

/// The backend is announced to the registry only when the WebSocket
/// transport starts, registration was not turned off on the builder, and
/// `PLEXUS_NO_REGISTRY` does not disable it; the kill switch wins over
/// every builder setting.
pub proof fn law_announce_needs_consent(
    server: TransportServer,
    no_registry_env: Option<Seq<char>>,
    registry_url_env: Option<Seq<char>>,
)
    ensures
        spec_announce_url(server, no_registry_env, registry_url_env) is Some <==> {
            &&& server.config.websocket is Some
            &&& server.registry_enabled
            &&& !spec_registry_disabled(no_registry_env)
        },
        server.registry_url is Some && spec_announce_url(server, no_registry_env, registry_url_env)
            is Some ==> spec_announce_url(server, no_registry_env, registry_url_env) == Some(
            server.registry_url->0@,
        ),
{
}

/// `without_registry()` suppresses the announcement of whatever server the
/// builder yields, whatever else was configured.
pub proof fn law_without_registry_opts_out(
    b: TransportServerBuilder,
    no_registry_env: Option<Seq<char>>,
    registry_url_env: Option<Seq<char>>,
)
    ensures
        spec_announce_url(
            spec_built(TransportServerBuilder { registry_enabled: false, ..b }),
            no_registry_env,
            registry_url_env,
        ) is None,
{
}

/// The build-time check only refuses unguarded auth-gated methods: with
/// an api key, a session validator, or the explicit opt-out, the check
/// does not apply (the schema is not read) and the build succeeds; a schema
/// that declares no auth-gated method is never refused either.
pub proof fn law_build_refuses_only_unguarded_auth(b: TransportServerBuilder, schema: SchemaInfo)
    ensures
        b.config.api_key is Some ==> !spec_needs_auth_check(b),
        b.has_session_validator ==> !spec_needs_auth_check(b),
        b.allow_missing_auth ==> !spec_needs_auth_check(b),
        b.config.api_key is Some ==> !spec_build_refused(b, schema),
        b.has_session_validator ==> !spec_build_refused(b, schema),
        b.allow_missing_auth ==> !spec_build_refused(b, schema),
        gated_paths(schema.namespace@, schema.methods@).len() == 0 ==> !spec_build_refused(
            b,
            schema,
        ),
{
}

/// The build-time check applies to every builder with no api key, no
/// session validator and no opt-out, and then refuses any schema that
/// declares an auth-gated method.
pub proof fn law_unguarded_builder_is_checked(b: TransportServerBuilder, schema: SchemaInfo)
    requires
        b.config.api_key is None,
        !b.has_session_validator,
        !b.allow_missing_auth,
    ensures
        spec_needs_auth_check(b),
        gated_paths(schema.namespace@, schema.methods@).len() > 0 ==> spec_build_refused(b, schema),
{
}

/// Whether the build-time check applies depends only on the api key, the
/// session validator and the opt-out: two builders that agree on those
/// agree on it, whatever their transports, strict mode or registry
/// settings.
pub proof fn law_auth_check_reads_only_auth_settings(
    b1: TransportServerBuilder,
    b2: TransportServerBuilder,
)
    requires
        b1.config.api_key == b2.config.api_key,
        b1.has_session_validator == b2.has_session_validator,
        b1.allow_missing_auth == b2.allow_missing_auth,
    ensures
        spec_needs_auth_check(b1) == spec_needs_auth_check(b2),
{
}

/// When the builder names no registry endpoint and the backend is
/// announced, the endpoint is the one `PLEXUS_REGISTRY_URL` resolves to
/// (or the default), whatever the api key and every other server setting.
pub proof fn law_announced_endpoint_follows_env(
    server: TransportServer,
    no_registry_env: Option<Seq<char>>,
    registry_url_env: Option<Seq<char>>,
)
    requires
        server.registry_url is None,
        spec_announce_url(server, no_registry_env, registry_url_env) is Some,
    ensures
        spec_announce_url(server, no_registry_env, registry_url_env) == Some(
            spec_registry_url(registry_url_env),
        ),
{
}

/// Announcing depends on the server only through its WebSocket transport,
/// the builder's registry settings: changing the api key, the api-key
/// header, the session settings or the other transports changes neither
/// whether nor where the backend is announced.
pub proof fn law_announce_ignores_auth_settings(
    s1: TransportServer,
    s2: TransportServer,
    no_registry_env: Option<Seq<char>>,
    registry_url_env: Option<Seq<char>>,
)
    requires
        (s1.config.websocket is Some) == (s2.config.websocket is Some),
        s1.registry_enabled == s2.registry_enabled,
        opt_view(s1.registry_url) == opt_view(s2.registry_url),
    ensures
        spec_announce_url(s1, no_registry_env, registry_url_env) == spec_announce_url(
            s2,
            no_registry_env,
            registry_url_env,
        ),
{
}

/// The plan in outline: with the converter available, no transport means
/// nothing to serve; the MCP and REST transports run with the server's api
/// key; without a converter, WebSocket or stdio cannot start.
pub proof fn law_plan_outline(
    server: TransportServer,
    has_rpc_converter: bool,
    no_registry_env: Option<Seq<char>>,
    registry_url_env: Option<Seq<char>>,
    res: Result<ServePlan, ServeError>,
)
    requires
        spec_plan(server, has_rpc_converter, no_registry_env, registry_url_env, res),
    ensures
        (server.config.websocket is None && server.config.stdio is None
            && server.config.mcp_http is None && server.config.rest_http is None) ==> res matches Ok(
            ServePlan::Idle,
        ),
        (server.config.websocket is Some || server.config.stdio is Some) && !has_rpc_converter
            ==> res == Err::<ServePlan, ServeError>(ServeError::MissingRpcConverter),
        res matches Ok(ServePlan::Network(n)) ==> (n.mcp_http matches Some(h) ==> h.api_key
            == server.config.api_key) && (n.rest_http matches Some(h) ==> h.api_key
            == server.config.api_key),
{
    match res {
        Err(e) => {
            assert(e == ServeError::MissingRpcConverter);
        },
        Ok(_) => {},
    }
}

proof fn lemma_gated_paths_members(namespace: Seq<char>, methods: Seq<MethodInfo>)
    ensures
        forall|i: int|
            0 <= i < methods.len() && method_auth_gated(#[trigger] methods[i]) ==> gated_paths(
                namespace,
                methods,
            ).contains(namespace + "."@ + methods[i].name@),
        forall|p: Seq<char>|
            #[trigger] gated_paths(namespace, methods).contains(p) ==> exists|i: int|
                0 <= i < methods.len() && method_auth_gated(#[trigger] methods[i]) && p
                    == namespace + "."@ + methods[i].name@,
        gated_paths(namespace, methods).len() <= methods.len(),
    decreases methods.len(),
{
    if methods.len() > 0 {
        let prev = methods.drop_last();
        lemma_gated_paths_members(namespace, prev);
        let g = gated_paths(namespace, methods);
        let gp = gated_paths(namespace, prev);
        assert forall|i: int|
            0 <= i < methods.len() && method_auth_gated(#[trigger] methods[i]) implies g.contains(
            namespace + "."@ + methods[i].name@,
        ) by {
            if i < methods.len() - 1 {
                assert(methods[i] == prev[i]);
                let w = choose|w: int| 0 <= w < gp.len() && gp[w] == namespace + "."@ + prev[i].name@;
                if method_auth_gated(methods.last()) {
                    assert(g[w] == gp[w]);
                } else {
                    assert(g[w] == gp[w]);
                }
            } else {
                assert(g[g.len() - 1] == namespace + "."@ + methods[i].name@);
            }
        }
        assert forall|p: Seq<char>| #[trigger] g.contains(p) implies exists|i: int|
            0 <= i < methods.len() && method_auth_gated(#[trigger] methods[i]) && p == namespace
                + "."@ + methods[i].name@ by {
            let w = choose|w: int| 0 <= w < g.len() && g[w] == p;
            if w < gp.len() {
                assert(gp[w] == g[w]);
                assert(gp.contains(p));
                let i = choose|i: int|
                    0 <= i < prev.len() && method_auth_gated(#[trigger] prev[i]) && p == namespace
                        + "."@ + prev[i].name@;
                assert(methods[i] == prev[i]);
            } else {
                let i = methods.len() - 1;
                assert(method_auth_gated(methods[i]));
            }
        }
    }
}

/// The build-time check lists exactly the auth-gated methods, as
/// `namespace.method`: every method with a parameter whose source is
/// `auth` is listed, and every listed path names such a method.
pub proof fn law_gated_paths_are_the_auth_gated_methods(schema: SchemaInfo)
    ensures
        forall|i: int|
            0 <= i < schema.methods@.len() && method_auth_gated(#[trigger] schema.methods@[i])
                ==> gated_paths(schema.namespace@, schema.methods@).contains(
                schema.namespace@ + "."@ + schema.methods@[i].name@,
            ),
        forall|p: Seq<char>|
            #[trigger] gated_paths(schema.namespace@, schema.methods@).contains(p) ==> exists|i: int|
                0 <= i < schema.methods@.len() && method_auth_gated(#[trigger] schema.methods@[i])
                    && p == schema.namespace@ + "."@ + schema.methods@[i].name@,
        forall|m: MethodInfo|
            #[trigger] method_auth_gated(m) <==> (m.param_sources is Some && exists|i: int|
                0 <= i < m.param_sources->0@.len() && #[trigger] m.param_sources->0@[i] is Some
                    && m.param_sources->0@[i]->0@ == "auth"@),
{
    lemma_gated_paths_members(schema.namespace@, schema.methods@);
}

} // verus!
