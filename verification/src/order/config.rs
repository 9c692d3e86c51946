//! The settings of the order service.

use vstd::prelude::*;
use crate::settings::{address_of, address_text, parse_port, port_of, value_or, var_or, EnvVar};

verus! {

/// Where the service listens, how much it logs, and where it finds the
/// catalog, the inventory ledger and the payment processor.
#[derive(Debug)]
pub struct Config {
    pub server_host: String,
    pub server_port: u16,
    pub log_level: String,
    pub product_service_url: String,
    pub inventory_service_url: String,
    pub payment_service_url: String,
}

impl Clone for Config {
    fn clone(&self) -> (r: Self)
        ensures
            r.server_host@ == self.server_host@,
            r.server_port == self.server_port,
            r.log_level@ == self.log_level@,
            r.product_service_url@ == self.product_service_url@,
            r.inventory_service_url@ == self.inventory_service_url@,
            r.payment_service_url@ == self.payment_service_url@,
    {
        Config {
            server_host: self.server_host.clone(),
            server_port: self.server_port,
            log_level: self.log_level.clone(),
            product_service_url: self.product_service_url.clone(),
            inventory_service_url: self.inventory_service_url.clone(),
            payment_service_url: self.payment_service_url.clone(),
        }
    }
}

impl Config {
    /// The text from which the port is read: the setting `SERVER_PORT`, or
    /// the port of this service.
    pub open spec fn port_text(vars: Seq<EnvVar>) -> Seq<char> {
        value_or(vars, "SERVER_PORT"@, "8087"@)
    }

    /// Whether the settings give a port number, so that `from_env` can read
    /// them.
    pub fn has_port(vars: &Vec<EnvVar>) -> (b: bool)
        ensures
            b == (port_of(Config::port_text(vars@)) is Some),
    {
        let port_text = var_or(vars, "SERVER_PORT", "8087");
        parse_port(port_text.as_str()).is_some()
    }

    /// Reads the settings `SERVER_HOST`, `SERVER_PORT`, `LOG_LEVEL`,
    /// `PRODUCT_SERVICE_URL`, `INVENTORY_SERVICE_URL` and
    /// `PAYMENT_SERVICE_URL`, each with a default. The port must be a port
    /// number: `has_port` tells.
    pub fn from_env(vars: &Vec<EnvVar>) -> (c: Config)
        requires
            port_of(Config::port_text(vars@)) is Some,
        ensures
            c.server_host@ == value_or(vars@, "SERVER_HOST"@, "0.0.0.0"@),
            port_of(Config::port_text(vars@)) == Some(c.server_port),
            c.log_level@ == value_or(vars@, "LOG_LEVEL"@, "info"@),
            c.product_service_url@ == value_or(vars@, "PRODUCT_SERVICE_URL"@, "http://product-service:8082"@),
            c.inventory_service_url@ == value_or(
                vars@,
                "INVENTORY_SERVICE_URL"@,
                "http://inventory-service:8086"@,
            ),
            c.payment_service_url@ == value_or(vars@, "PAYMENT_SERVICE_URL"@, "http://payment-service:8085"@),
    {
        let server_host = var_or(vars, "SERVER_HOST", "0.0.0.0");
        let port_text = var_or(vars, "SERVER_PORT", "8087");
        let log_level = var_or(vars, "LOG_LEVEL", "info");
        let product_service_url = var_or(vars, "PRODUCT_SERVICE_URL", "http://product-service:8082");
        let inventory_service_url = var_or(vars, "INVENTORY_SERVICE_URL", "http://inventory-service:8086");
        let payment_service_url = var_or(vars, "PAYMENT_SERVICE_URL", "http://payment-service:8085");
        let server_port: u16 = parse_port(port_text.as_str()).unwrap();
        Config {
            server_host,
            server_port,
            log_level,
            product_service_url,
            inventory_service_url,
            payment_service_url,
        }
    }

    /// The address at which the service listens.
    pub fn server_address(&self) -> (r: String)
        ensures
            r@ == address_of(self.server_host@, self.server_port),
    {
        address_text(&self.server_host, self.server_port)
    }
}

} // verus!
