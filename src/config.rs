//! Service settings.

use vstd::prelude::*;

verus! {

/// HTTP binding address, database DSN and worker count.
#[derive(Debug, Clone, PartialEq, Eq)]
pub struct Server {
    pub address: String,
    pub database: String,
    pub thread_count: usize,
}

/// Settings of the outbound HTTP client.
#[derive(Debug, Clone, Copy, PartialEq, Eq)]
pub struct Client {
    pub http_client_retries: usize,
    pub http_client_buffer_size: usize,
    pub dns_worker_thread_count: usize,
}

/// Signing settings of Json Web Tokens.
#[derive(Debug, Clone, PartialEq, Eq)]
pub struct JWT {
    pub secret_key: String,
}

/// Settings of one OAuth provider.
#[derive(Debug, Clone, PartialEq, Eq)]
pub struct OAuth {
    pub id: String,
    pub key: String,
    pub info_url: String,
    pub redirect_url: String,
    pub code_to_token_url: String,
}

/// All settings of the service.
#[derive(Debug, Clone, PartialEq, Eq)]
pub struct Config {
    pub server: Server,
    pub client: Client,
    pub jwt: JWT,
    pub google: OAuth,
    pub facebook: OAuth,
}

impl Client {
    /// The outbound client these settings describe: its queue holds
    /// `http_client_buffer_size` payloads and each request retries transient
    /// failures up to `http_client_retries` times.
    pub fn build(&self) -> (c: crate::client::Client)
        ensures
            c.wf(),
            c.queue().capacity() == self.http_client_buffer_size,
            c.queue().items().len() == 0,
            !c.queue().is_closed(),
            c.slots().len() == 0,
            c.max_retries() == self.http_client_retries,
    {
        crate::client::Client::new(self.http_client_buffer_size, self.http_client_retries)
    }
}

} // verus!
