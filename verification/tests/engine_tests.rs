//! The engine lifecycle, the CORS policy, and on-connect notification with
//! replay.

use erpc::connections::Socket;
use erpc::engine::{CorsPolicy, ERPCServer, ServerOptions};
use erpc::errors::LifecycleError;
use erpc::handler::EchoHandler;

fn options(origins: Vec<&str>) -> ServerOptions {
    ServerOptions {
        port: 4711,
        allowed_cors_origins: origins.into_iter().map(|o| o.to_owned()).collect(),
    }
}

#[test]
fn stop_before_any_start_is_an_explicit_error() {
    let mut engine: ERPCServer<EchoHandler, u32> = ERPCServer::new(options(vec![]), false);
    let refused = engine.stop();
    assert!(matches!(refused, Err(LifecycleError::NotRunning)));
    assert_eq!(
        refused.unwrap_err().message(),
        "Server is not running"
    );
}

#[test]
fn second_start_is_refused_and_stop_then_works() {
    let mut engine: ERPCServer<EchoHandler, u32> = ERPCServer::new(options(vec![]), true);
    let config = engine.run().expect("first start succeeds");
    assert_eq!(config.port, 4711);
    assert!(config.enabled_sockets);
    let refused = engine.run();
    assert!(matches!(refused, Err(LifecycleError::AlreadyRunning)));
    assert!(engine.stop().is_ok());
    assert!(matches!(engine.stop(), Err(LifecycleError::NotRunning)));
    assert!(engine.run().is_ok());
}

#[test]
fn wildcard_origin_allows_any() {
    let mut engine: ERPCServer<EchoHandler, u32> =
        ERPCServer::new(options(vec!["https://a.example", "*"]), false);
    let config = engine.run().expect("starts");
    assert!(matches!(config.cors, CorsPolicy::AllowAny));
}

#[test]
fn listed_origins_are_kept_in_order() {
    let mut engine: ERPCServer<EchoHandler, u32> =
        ERPCServer::new(options(vec!["https://a.example", "https://b.example"]), false);
    let config = engine.run().expect("starts");
    match config.cors {
        CorsPolicy::AllowList(list) => {
            assert_eq!(list, vec!["https://a.example".to_owned(), "https://b.example".to_owned()]);
        }
        CorsPolicy::AllowAny => panic!("wildcard was never given"),
    }
}

#[test]
fn subscriber_then_connection_fires_exactly_once() {
    let mut engine: ERPCServer<EchoHandler, u32> = ERPCServer::new(options(vec![]), true);
    let replay = engine.register_socket_connection_callback(7);
    assert!(replay.is_empty());
    engine.socket_connected(Socket { role: "browser-1".to_owned(), conn_id: 1 });
    // The embedding layer now announces the connection to each subscriber
    // in subscription order; this loop is that announcement.
    let mut fired: Vec<(u32, String)> = Vec::new();
    for i in 0..engine.subscriber_count() {
        fired.push((*engine.subscriber_at(i), "browser-1".to_owned()));
    }
    assert_eq!(fired, vec![(7, "browser-1".to_owned())]);
}

#[test]
fn late_subscriber_gets_existing_connections_replayed() {
    let mut engine: ERPCServer<EchoHandler, u32> = ERPCServer::new(options(vec![]), true);
    engine.socket_connected(Socket { role: "browser-1".to_owned(), conn_id: 1 });
    engine.socket_connected(Socket { role: "browser-2".to_owned(), conn_id: 2 });
    let replay = engine.register_socket_connection_callback(9);
    let roles: Vec<String> = replay.iter().map(|s| s.role.clone()).collect();
    assert_eq!(roles, vec!["browser-1".to_owned(), "browser-2".to_owned()]);
    let ids: Vec<u64> = replay.iter().map(|s| s.conn_id).collect();
    assert_eq!(ids, vec![1, 2]);
}

#[test]
fn engine_dispatches_like_the_registry() {
    let mut engine: ERPCServer<EchoHandler, u32> = ERPCServer::new(options(vec![]), false);
    engine.register_handler("echo".to_owned(), EchoHandler);
    let outcome = engine.dispatch_call("echo", "[true]").expect("dispatches");
    assert_eq!(outcome.body, "true");
    assert!(engine.dispatch_call("other", "[true]").is_err());
}

#[test]
fn sockets_switch_is_reported() {
    let engine: ERPCServer<EchoHandler, u32> = ERPCServer::new(options(vec![]), false);
    assert!(!engine.sockets_enabled());
    let engine: ERPCServer<EchoHandler, u32> = ERPCServer::new(options(vec![]), true);
    assert!(engine.sockets_enabled());
}
