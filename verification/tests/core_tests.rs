use grafton_server::add;
use grafton_server::logger::{get_log_level_from_verbosity, log_initialization_message, LogLevel};
use grafton_server::{Config, Context, LoggerConfig, SameSiteConfig, ServerConfigProvider, Verbosity};

#[test]
fn test_add() {
    assert_eq!(add(2, 3), 5);
}

#[test]
fn verbosity_maps_to_matching_level() {
    assert_eq!(get_log_level_from_verbosity(&Verbosity::Trace), LogLevel::Trace);
    assert_eq!(get_log_level_from_verbosity(&Verbosity::Info), LogLevel::Info);
    assert_eq!(get_log_level_from_verbosity(&Verbosity::Debug), LogLevel::Debug);
    assert_eq!(get_log_level_from_verbosity(&Verbosity::Warn), LogLevel::Warn);
    assert_eq!(get_log_level_from_verbosity(&Verbosity::Error), LogLevel::Error);
}

#[test]
fn initialization_message_names_the_verbosity() {
    assert_eq!(
        log_initialization_message(&Verbosity::Trace),
        "Logger initialized with verbosity: Trace"
    );
    assert_eq!(
        log_initialization_message(&Verbosity::Error),
        "Logger initialized with verbosity: Error"
    );
}

#[test]
fn defaults_follow_the_configuration_surface() {
    assert!(matches!(Verbosity::default(), Verbosity::Info));
    assert!(matches!(SameSiteConfig::default(), SameSiteConfig::Lax));
    let logger = LoggerConfig::default();
    assert!(matches!(logger.verbosity, Verbosity::Info));
    let config = Config::default();
    assert_eq!(config.website.bind_address, "127.0.0.1");
    assert_eq!(config.website.bind_ports.https, 443);
}

#[test]
fn context_shares_the_config() {
    let ctx = Context::new(Config::default());
    assert_eq!(
        ctx.config.get_server_config().website.public_hostname,
        "localhost"
    );
}
