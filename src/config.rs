use vstd::prelude::*;

verus! {

/// The periodic heartbeat meta-event: whether it is sent, and every how many seconds.
#[derive(Clone, Debug)]
pub struct Heartbeat {
    pub enabled: bool,
    pub interval: i64,
}

/// A listening HTTP server that answers actions.
#[derive(Clone, Debug)]
pub struct HttpServer {
    pub host: String,
    pub port: u16,
    pub access_token: Option<String>,
}

/// A webhook target that events are pushed to.
#[derive(Clone, Debug)]
pub struct HttpClient {
    pub url: String,
    pub access_token: Option<String>,
    pub timeout: u64,
}

/// A listening websocket server.
#[derive(Clone, Debug)]
pub struct WebSocketServer {
    pub host: String,
    pub port: u16,
    pub access_token: Option<String>,
}

/// A websocket client that dials a peer and reconnects when the connection drops.
#[derive(Clone, Debug)]
pub struct WebSocketRev {
    pub url: String,
    pub access_token: Option<String>,
    pub reconnect_interval: u32,
}

/// The transports and heartbeat of an implementation-side runtime, read at `run`.
#[derive(Clone, Debug)]
pub struct ImplConfig {
    pub heartbeat: Heartbeat,
    pub http: Vec<HttpServer>,
    pub http_webhook: Vec<HttpClient>,
    pub websocket: Vec<WebSocketServer>,
    pub websocket_rev: Vec<WebSocketRev>,
}

} // verus!
