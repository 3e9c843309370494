use grafton_server::config::{str_eq, trim_leading_slashes, trim_trailing_slashes};
use grafton_server::{Error, Port, SslConfig, Website};

fn create_website(ssl_enabled: bool, http_port: u16, https_port: u16, hostname: &str) -> Website {
    Website {
        public_ssl_enabled: ssl_enabled,
        public_ports: Port {
            http: http_port,
            https: https_port,
        },
        public_hostname: hostname.to_string(),
        ..Default::default()
    }
}

#[test]
fn public_server_url_with_ssl_default_port() {
    let website = create_website(true, 80, 443, "example.com");
    assert_eq!(website.public_server_url(), "https://example.com");
}

#[test]
fn public_server_url_with_ssl_non_default_port() {
    let website = create_website(true, 80, 8443, "example.com");
    assert_eq!(website.public_server_url(), "https://example.com:8443");
}

#[test]
fn public_server_url_without_ssl_default_port() {
    let website = create_website(false, 80, 443, "example.com");
    assert_eq!(website.public_server_url(), "http://example.com");
}

#[test]
fn public_server_url_without_ssl_non_default_port() {
    let website = create_website(false, 8080, 443, "example.com");
    assert_eq!(website.public_server_url(), "http://example.com:8080");
}

#[test]
fn format_public_server_url_root_path() {
    let website = create_website(true, 80, 443, "example.com");
    assert_eq!(
        website.format_public_server_url("/"),
        "https://example.com/"
    );
}

#[test]
fn format_public_server_url_sub_path() {
    let website = create_website(false, 8080, 443, "example.com");
    assert_eq!(
        website.format_public_server_url("/api"),
        "http://example.com:8080/api"
    );
}

#[test]
fn test_is_default_port_http_default() {
    assert!(
        Website::is_default_port("http", 80),
        "HTTP default port should be recognized as default."
    );
}

#[test]
fn test_is_default_port_https_default() {
    assert!(
        Website::is_default_port("https", 443),
        "HTTPS default port should be recognized as default."
    );
}

#[test]
fn test_is_default_port_http_non_default() {
    assert!(
        !Website::is_default_port("http", 8080),
        "HTTP non-default port should not be recognized as default."
    );
}

#[test]
fn test_is_default_port_https_non_default() {
    assert!(
        !Website::is_default_port("https", 8443),
        "HTTPS non-default port should not be recognized as default."
    );
}

#[test]
fn test_is_default_port_unrecognized_protocol() {
    assert!(
        !Website::is_default_port("ftp", 21),
        "Unrecognized protocol should not have a default port."
    );
}

#[test]
fn test_format_url_with_default_http_port() {
    let website = Website {
        public_hostname: "example.com".into(),
        public_ports: Port {
            http: 80,
            https: 443,
        },
        public_ssl_enabled: false,
        ..Default::default()
    };
    let url = website
        .format_url("http", website.public_ports.http)
        .unwrap();
    assert_eq!(url, "http://example.com");
}

#[test]
fn test_format_url_with_non_default_http_port() {
    let website = Website {
        public_hostname: "example.com".into(),
        public_ports: Port {
            http: 8080,
            https: 443,
        },
        public_ssl_enabled: false,
        ..Default::default()
    };
    let url = website
        .format_url("http", website.public_ports.http)
        .unwrap();
    assert_eq!(url, "http://example.com:8080");
}

#[test]
fn test_format_url_with_default_https_port() {
    let website = Website {
        public_hostname: "example.com".into(),
        public_ports: Port {
            http: 80,
            https: 443,
        },
        public_ssl_enabled: true,
        ..Default::default()
    };
    let url = website
        .format_url("https", website.public_ports.https)
        .unwrap();
    assert_eq!(url, "https://example.com");
}

#[test]
fn test_default_website_config() {
    let default_website = Website::default();
    assert_eq!(default_website.public_hostname, "localhost");
    assert!(!default_website.public_ssl_enabled);
    assert_eq!(default_website.public_ports.http, 80);
}

#[test]
fn test_default_ssl_config_paths() {
    let ssl = SslConfig::default();
    assert!(!ssl.enabled);
    assert_eq!(ssl.cert_path, "config/cert.pem");
    assert_eq!(ssl.key_path, "config/key.pem");
}

#[test]
fn public_server_url_normalizes_hostname_case() {
    let website = create_website(false, 80, 443, "EXAMPLE.com");
    assert_eq!(website.public_server_url(), "http://example.com");
}

#[test]
fn public_server_url_with_bad_hostname_is_empty() {
    let website = create_website(false, 8080, 443, "exa mple.com");
    assert_eq!(website.public_server_url(), "");
}

#[test]
fn format_url_with_bad_hostname_reports_parts() {
    let website = create_website(false, 8080, 443, "exa mple.com");
    match website.format_url("http", 8080) {
        Err(Error::UrlFormatError {
            protocol,
            hostname,
            port,
            cause,
        }) => {
            assert_eq!(protocol, "http");
            assert_eq!(hostname, "exa mple.com");
            assert_eq!(port, 8080);
            assert_eq!(cause, "Invalid URL");
        }
        other => panic!("expected a URL format error, got {other:?}"),
    }
}

#[test]
fn format_url_with_portless_scheme_reports_invalid_port() {
    let website = create_website(false, 80, 443, "example.com");
    match website.format_url("file", 9000) {
        Err(Error::UrlFormatError { cause, .. }) => assert_eq!(cause, "Invalid port"),
        other => panic!("expected a URL format error, got {other:?}"),
    }
}

#[test]
fn str_eq_compares_by_characters() {
    assert!(str_eq("http", "http"));
    assert!(!str_eq("http", "https"));
    assert!(!str_eq("http", "httq"));
    assert!(str_eq("", ""));
}

#[test]
fn trim_helpers_strip_only_slashes() {
    assert_eq!(trim_trailing_slashes("http://a/"), "http://a");
    assert_eq!(trim_trailing_slashes("x///"), "x");
    assert_eq!(trim_trailing_slashes("///"), "");
    assert_eq!(trim_trailing_slashes("plain"), "plain");
    assert_eq!(trim_leading_slashes("/api"), "api");
    assert_eq!(trim_leading_slashes("//api/"), "api/");
    assert_eq!(trim_leading_slashes("api"), "api");
}
