//! The settings of the payment service.

use vstd::prelude::*;
use crate::settings::{address_of, address_text, parse_port, port_of, value_or, var_or, EnvVar};

verus! {

/// Where the service listens, how much it logs, and the gateway it talks to.
#[derive(Debug)]
pub struct Config {
    pub server_host: String,
    pub server_port: u16,
    pub log_level: String,
    pub payment_gateway_url: String,
    pub payment_gateway_api_key: String,
}

impl Clone for Config {
    fn clone(&self) -> (r: Self)
        ensures
            r.server_host@ == self.server_host@,
            r.server_port == self.server_port,
            r.log_level@ == self.log_level@,
            r.payment_gateway_url@ == self.payment_gateway_url@,
            r.payment_gateway_api_key@ == self.payment_gateway_api_key@,
    {
        Config {
            server_host: self.server_host.clone(),
            server_port: self.server_port,
            log_level: self.log_level.clone(),
            payment_gateway_url: self.payment_gateway_url.clone(),
            payment_gateway_api_key: self.payment_gateway_api_key.clone(),
        }
    }
}

impl Config {
    /// The text from which the port is read: the setting `SERVER_PORT`, or
    /// the port of this service.
    pub open spec fn port_text(vars: Seq<EnvVar>) -> Seq<char> {
        value_or(vars, "SERVER_PORT"@, "8085"@)
    }

    /// Whether the settings give a port number, so that `from_env` can read
    /// them.
    pub fn has_port(vars: &Vec<EnvVar>) -> (b: bool)
        ensures
            b == (port_of(Config::port_text(vars@)) is Some),
    {
        let port_text = var_or(vars, "SERVER_PORT", "8085");
        parse_port(port_text.as_str()).is_some()
    }

    /// Reads the settings `SERVER_HOST`, `SERVER_PORT`, `LOG_LEVEL`,
    /// `PAYMENT_GATEWAY_URL` and `PAYMENT_GATEWAY_API_KEY`, each with a
    /// default. The port must be a port number: `has_port` tells.
    pub fn from_env(vars: &Vec<EnvVar>) -> (c: Config)
        requires
            port_of(Config::port_text(vars@)) is Some,
        ensures
            c.server_host@ == value_or(vars@, "SERVER_HOST"@, "0.0.0.0"@),
            port_of(Config::port_text(vars@)) == Some(c.server_port),
            c.log_level@ == value_or(vars@, "LOG_LEVEL"@, "info"@),
            c.payment_gateway_url@ == value_or(
                vars@,
                "PAYMENT_GATEWAY_URL"@,
                "https://api.example.com/payments"@,
            ),
            c.payment_gateway_api_key@ == value_or(vars@, "PAYMENT_GATEWAY_API_KEY"@, "test_api_key"@),
    {
        let server_host = var_or(vars, "SERVER_HOST", "0.0.0.0");
        let port_text = var_or(vars, "SERVER_PORT", "8085");
        let log_level = var_or(vars, "LOG_LEVEL", "info");
        let payment_gateway_url = var_or(vars, "PAYMENT_GATEWAY_URL", "https://api.example.com/payments");
        let payment_gateway_api_key = var_or(vars, "PAYMENT_GATEWAY_API_KEY", "test_api_key");
        let server_port: u16 = parse_port(port_text.as_str()).unwrap();
        Config { server_host, server_port, log_level, payment_gateway_url, payment_gateway_api_key }
    }

    /// The address at which the service listens.
    pub fn server_address(&self) -> (r: String)
        ensures
            r@ == address_of(self.server_host@, self.server_port),
    {
        address_text(&self.server_host, self.server_port)
    }
}

} // verus!
