use grafton_server::server::{
    accept_step, bind_decision, dispatch_step, fallback_message, fallback_status, launch_plan,
    router_requirement, server_transition, start_servers, AcceptEvent, BindDecision,
    DispatchAction, LoopAction, ServerEvent, ServerPhase,
};
use grafton_server::{Config, Error, Port, SslConfig, Website};

fn config_with_ssl(enabled: bool) -> Config {
    Config {
        website: Website {
            bind_ssl_config: SslConfig {
                enabled,
                ..Default::default()
            },
            bind_address: "127.0.0.1".to_string(),
            bind_ports: Port {
                http: 8080,
                https: 8443,
            },
            ..Default::default()
        },
        ..Default::default()
    }
}

#[test]
fn launch_plan_picks_tls_port_when_ssl_enabled() {
    let plan = launch_plan(&config_with_ssl(true));
    assert!(plan.tls);
    assert_eq!(plan.port, 8443);
    assert_eq!(plan.bind_address, "127.0.0.1");
}

#[test]
fn launch_plan_picks_plain_port_when_ssl_disabled() {
    let plan = launch_plan(&config_with_ssl(false));
    assert!(!plan.tls);
    assert_eq!(plan.port, 8080);
}

#[test]
fn bind_decision_skips_only_on_bad_address() {
    assert_eq!(bind_decision(true), BindDecision::Start);
    assert_eq!(bind_decision(false), BindDecision::SkipTransport);
}

#[test]
fn bad_tls_address_does_not_stop_plain_transport() {
    let config = config_with_ssl(false);
    let with_bad_tls_addr = start_servers(&config, false, true);
    let with_good_tls_addr = start_servers(&config, true, true);
    assert!(with_bad_tls_addr.plain_started);
    assert_eq!(
        with_bad_tls_addr.plain_started,
        with_good_tls_addr.plain_started
    );
}

#[test]
fn bad_plain_address_does_not_stop_tls_transport() {
    let config = config_with_ssl(true);
    let with_bad_plain_addr = start_servers(&config, true, false);
    assert!(with_bad_plain_addr.tls_started);
    assert!(!with_bad_plain_addr.plain_started);
}

#[test]
fn handshake_failure_does_not_stop_later_connections() {
    let failed = accept_step(&AcceptEvent::Accepted {
        handshake_ok: false,
    });
    assert_eq!(failed, LoopAction::DropConnection);
    let next = accept_step(&AcceptEvent::Accepted { handshake_ok: true });
    assert_eq!(next, LoopAction::ServeConnection);
}

#[test]
fn accept_error_continues_the_loop() {
    assert_eq!(
        accept_step(&AcceptEvent::AcceptFailed),
        LoopAction::LogAndContinue
    );
}

#[test]
fn pipeline_failure_gets_the_fallback_response() {
    assert_eq!(dispatch_step(true), DispatchAction::ForwardResponse);
    assert_eq!(dispatch_step(false), DispatchAction::SendFallback);
    assert_eq!(fallback_status(), 500);
    assert_eq!(
        fallback_message(),
        "500 Internal Server Error: An unexpected error occurred"
    );
}

#[test]
fn build_without_router_factory_is_a_structural_error() {
    assert!(router_requirement(true).is_ok());
    assert!(matches!(
        router_requirement(false),
        Err(Error::MissingRouterFactory)
    ));
}

#[test]
fn lifecycle_never_stops_accepting() {
    let mut phase = server_transition(ServerPhase::Idle, ServerEvent::AddressBound);
    assert_eq!(phase, ServerPhase::Bound);
    phase = server_transition(phase, ServerEvent::AcceptLoopEntered);
    assert_eq!(phase, ServerPhase::Accepting);
    phase = server_transition(
        phase,
        ServerEvent::Loop(AcceptEvent::Accepted {
            handshake_ok: false,
        }),
    );
    assert_eq!(phase, ServerPhase::Accepting);
    phase = server_transition(phase, ServerEvent::Loop(AcceptEvent::AcceptFailed));
    assert_eq!(phase, ServerPhase::Accepting);
}
