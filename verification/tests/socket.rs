use oauth_callback::config::ListenerConfig;
use oauth_callback::listener::{Listener, ListenerAction, ListenerEvent, ListenerState};

fn bind(listener: &Listener) -> (Option<tiny_http::Server>, ListenerEvent) {
    match tiny_http::Server::http(listener.config().bind_address()) {
        Ok(server) => (Some(server), ListenerEvent::Bound),
        Err(error) => (None, ListenerEvent::BindFailed { reason: error.to_string() }),
    }
}

#[test]
fn second_listener_on_the_same_port_fails_at_bind_time() {
    let mut first = Listener::new(ListenerConfig::new(0));
    let (server, event) = bind(&first);
    let server = server.expect("a free loopback port");
    assert!(matches!(first.step(event), ListenerAction::Announce { .. }));
    assert_eq!(first.state(), ListenerState::Listening);

    let taken = server.server_addr().to_ip().expect("an IP address");
    assert!(taken.ip().is_loopback());
    let mut second = Listener::new(ListenerConfig::new(taken.port()));
    assert_eq!(second.config().bind_address(), taken.to_string());
    let (refused, event) = bind(&second);
    assert!(refused.is_none());
    match second.step(event) {
        ListenerAction::Abort { diagnostic } => {
            let start = format!("OAuth callback server could not bind 127.0.0.1:{}: ", taken.port());
            assert!(diagnostic.starts_with(&start), "{}", diagnostic);
            assert!(diagnostic.len() > start.len());
        }
        _ => panic!("a failed bind aborts"),
    }
    assert_eq!(second.state(), ListenerState::Failed);
    assert_eq!(first.state(), ListenerState::Listening);
}
