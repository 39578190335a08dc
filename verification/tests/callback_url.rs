use oauth_callback::config::{
    get_oauth_callback_url, ListenerConfig, BIND_HOST, CALLBACK_PATH, CALLBACK_URL_PREFIX,
    OAUTH_CALLBACK_PORT,
};
use oauth_callback::decimal::{digit_str, push_decimal};

#[test]
fn callback_url_is_the_fixed_loopback_url() {
    assert_eq!(get_oauth_callback_url(), "http://localhost:37812/oauth-callback");
}

#[test]
fn callback_url_is_the_same_on_every_call() {
    let first = get_oauth_callback_url();
    for _ in 0..10 {
        assert_eq!(get_oauth_callback_url(), first);
    }
}

#[test]
fn callback_url_holds_the_configured_port() {
    let url = get_oauth_callback_url();
    assert!(url.contains(&format!("http://localhost:{}/oauth-callback", OAUTH_CALLBACK_PORT)));
}

#[test]
fn default_configuration_has_the_fixed_port() {
    assert_eq!(OAUTH_CALLBACK_PORT, 37812);
    assert_eq!(ListenerConfig::default().port, 37812);
    assert_eq!(ListenerConfig::default(), ListenerConfig::new(37812));
}

#[test]
fn callback_url_for_another_port() {
    assert_eq!(ListenerConfig::new(8080).callback_url(), "http://localhost:8080/oauth-callback");
    assert_eq!(ListenerConfig::new(0).callback_url(), "http://localhost:0/oauth-callback");
    assert_eq!(ListenerConfig::new(65535).callback_url(), "http://localhost:65535/oauth-callback");
}

#[test]
fn callback_url_is_prefix_port_path() {
    for port in [0u16, 9, 10, 99, 100, 1000, 37812, 65535] {
        let url = ListenerConfig::new(port).callback_url();
        assert_eq!(url, format!("{}{}{}", CALLBACK_URL_PREFIX, port, CALLBACK_PATH));
    }
}

#[test]
fn bind_address_is_loopback_and_port() {
    assert_eq!(ListenerConfig::default().bind_address(), "127.0.0.1:37812");
    assert_eq!(ListenerConfig::new(0).bind_address(), "127.0.0.1:0");
    assert_eq!(ListenerConfig::new(65535).bind_address(), format!("{}65535", BIND_HOST));
}

#[test]
fn url_and_bind_address_share_the_port() {
    for port in [1u16, 80, 8080, 37812, 50000] {
        let config = ListenerConfig::new(port);
        let url = config.callback_url();
        let address = config.bind_address();
        let in_url = &url[CALLBACK_URL_PREFIX.len()..url.len() - CALLBACK_PATH.len()];
        let in_address = &address[BIND_HOST.len()..];
        assert_eq!(in_url, in_address);
        assert_eq!(in_url.parse::<u16>().ok(), Some(port));
    }
}

#[test]
fn digit_str_gives_each_digit() {
    let digits = ["0", "1", "2", "3", "4", "5", "6", "7", "8", "9"];
    for d in 0u8..10 {
        assert_eq!(digit_str(d), digits[d as usize]);
    }
}

#[test]
fn push_decimal_appends_the_numeral() {
    let mut out = String::from("port ");
    push_decimal(&mut out, 37812);
    assert_eq!(out, "port 37812");
    push_decimal(&mut out, 0);
    assert_eq!(out, "port 378120");
}

#[test]
fn push_decimal_agrees_with_the_standard_rendering() {
    for n in [0u16, 1, 9, 10, 11, 99, 100, 101, 999, 1000, 9999, 10000, 37812, 65534, 65535] {
        let mut out = String::new();
        push_decimal(&mut out, n);
        assert_eq!(out, n.to_string());
    }
}
