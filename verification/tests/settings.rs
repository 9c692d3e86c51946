use fulfillment::clock::Timestamp;
use fulfillment::settings::{address_text, parse_port, var_or, EnvVar};
use fulfillment::text::{decimal_text, join, join3};

fn text(s: &str) -> String {
    s.to_string()
}

fn vars(pairs: &[(&str, &str)]) -> Vec<EnvVar> {
    pairs.iter().map(|(n, v)| EnvVar { name: n.to_string(), value: v.to_string() }).collect()
}

#[test]
fn ports_are_read_as_the_standard_library_reads_them() {
    let cases = [
        "0", "7", "80", "8086", "65535", "65536", "99999", "100000", "+8080", "+", "", "-1", " 80",
        "80 ", "0080", "00000000065535", "00000000065536", "8o", "٣", "+-1", "1+", "4294967296",
        "18446744073709551616",
    ];
    for case in cases {
        assert_eq!(parse_port(case), case.parse::<u16>().ok(), "for {:?}", case);
    }
    assert_eq!(parse_port("8086"), Some(8086));
    assert_eq!(parse_port("+443"), Some(443));
    assert_eq!(parse_port("65536"), None);
}

#[test]
fn numbers_are_written_in_decimal() {
    for n in [0u16, 1, 9, 10, 99, 100, 8086, 10000, 65535] {
        assert_eq!(decimal_text(n), n.to_string());
    }
}

#[test]
fn addresses_are_host_colon_port() {
    assert_eq!(address_text(&text("0.0.0.0"), 8086), "0.0.0.0:8086");
    assert_eq!(address_text(&text("localhost"), 0), "localhost:0");
    assert_eq!(address_text(&text(""), 65535), ":65535");
}

#[test]
fn settings_fall_back() {
    let set = vars(&[("A", "1"), ("B", "2")]);
    assert_eq!(var_or(&set, "A", "x"), "1");
    assert_eq!(var_or(&set, "B", "x"), "2");
    assert_eq!(var_or(&set, "C", "x"), "x");
    assert_eq!(var_or(&Vec::new(), "A", ""), "");
}

#[test]
fn text_is_joined() {
    assert_eq!(join("ab", "cd"), "abcd");
    assert_eq!(join("", ""), "");
    assert_eq!(join3("a", "", "c"), "ac");
}

#[test]
fn inventory_settings() {
    let c = fulfillment::inventory::config::Config::from_env(&Vec::new());
    assert_eq!(c.server_host, "0.0.0.0");
    assert_eq!(c.server_port, 8086);
    assert_eq!(c.log_level, "info");
    assert_eq!(c.server_address(), "0.0.0.0:8086");
    let c = fulfillment::inventory::config::Config::from_env(&vars(&[
        ("LOG_LEVEL", "debug"),
        ("SERVER_PORT", "9000"),
        ("SERVER_HOST", "127.0.0.1"),
    ]));
    assert_eq!(c.server_address(), "127.0.0.1:9000");
    assert_eq!(c.log_level, "debug");
    assert_eq!(c.clone().server_address(), "127.0.0.1:9000");
    assert!(fulfillment::inventory::config::Config::has_port(&Vec::new()));
    assert!(fulfillment::inventory::config::Config::has_port(&vars(&[("SERVER_PORT", "9000")])));
    assert!(!fulfillment::inventory::config::Config::has_port(&vars(&[("SERVER_PORT", "http")])));
    assert!(!fulfillment::inventory::config::Config::has_port(&vars(&[("SERVER_PORT", "70000")])));
}

#[test]
fn payment_settings() {
    let c = fulfillment::payment::config::Config::from_env(&Vec::new());
    assert_eq!(c.server_address(), "0.0.0.0:8085");
    assert_eq!(c.log_level, "info");
    assert_eq!(c.payment_gateway_url, "https://api.example.com/payments");
    assert_eq!(c.payment_gateway_api_key, "test_api_key");
    let c = fulfillment::payment::config::Config::from_env(&vars(&[
        ("PAYMENT_GATEWAY_URL", "https://pay.test"),
        ("PAYMENT_GATEWAY_API_KEY", "k"),
    ]));
    assert_eq!(c.payment_gateway_url, "https://pay.test");
    assert_eq!(c.payment_gateway_api_key, "k");
    assert!(fulfillment::payment::config::Config::has_port(&Vec::new()));
    assert!(!fulfillment::payment::config::Config::has_port(&vars(&[("SERVER_PORT", "")])));
}

#[test]
fn order_settings() {
    let c = fulfillment::order::config::Config::from_env(&Vec::new());
    assert_eq!(c.server_address(), "0.0.0.0:8087");
    assert_eq!(c.product_service_url, "http://product-service:8082");
    assert_eq!(c.inventory_service_url, "http://inventory-service:8086");
    assert_eq!(c.payment_service_url, "http://payment-service:8085");
    let c = fulfillment::order::config::Config::from_env(&vars(&[
        ("PRODUCT_SERVICE_URL", "http://p"),
        ("INVENTORY_SERVICE_URL", "http://i"),
        ("PAYMENT_SERVICE_URL", "http://y"),
        ("SERVER_PORT", "1"),
    ]));
    assert_eq!(c.product_service_url, "http://p");
    assert_eq!(c.inventory_service_url, "http://i");
    assert_eq!(c.payment_service_url, "http://y");
    assert_eq!(c.server_address(), "0.0.0.0:1");
    assert!(fulfillment::order::config::Config::has_port(&vars(&[("SERVER_PORT", "1")])));
    assert!(!fulfillment::order::config::Config::has_port(&vars(&[("SERVER_PORT", "-1")])));
}

#[test]
fn times_are_moved_by_seconds() {
    let t = Timestamp::new(100, 7);
    assert_eq!(t.plus(1800), Timestamp::new(1900, 7));
    assert_eq!(t.plus(-200), Timestamp::new(-100, 7));
    assert_eq!(Timestamp::new(i64::MAX - 1, 3).plus(1), Timestamp::new(i64::MAX, 3));
    assert_eq!(t.secs, 100);
    assert_eq!(t.nanos, 7);
}
