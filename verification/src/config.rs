//! Where the listener binds, and the redirect URL that leads to it.

use vstd::prelude::*;
use vstd::string::*;

use crate::decimal::{decimal_digits, lemma_decimal_digits_injective, push_decimal};

verus! {

/// The loopback port of the callback listener.
pub const OAUTH_CALLBACK_PORT: u16 = 37812;

/// The loopback interface, with the colon that precedes the port.
pub const BIND_HOST: &'static str = "127.0.0.1:";

/// The redirect URL up to the port.
pub const CALLBACK_URL_PREFIX: &'static str = "http://localhost:";

/// The path that the OAuth provider redirects to.
pub const CALLBACK_PATH: &'static str = "/oauth-callback";

/// The configuration that the URL provider and the listener share. It is
/// fixed when it is made: nothing in the library changes a port.
#[derive(Clone, Copy, Debug, PartialEq, Eq, Structural)]
pub struct ListenerConfig {
    pub port: u16,
}

impl ListenerConfig {
    /// A configuration for `port`.
    pub fn new(port: u16) -> (config: ListenerConfig)
        ensures
            config.port == port,
    {
        ListenerConfig { port }
    }

    /// The socket address of the loopback interface at this port.
    pub open spec fn bind_address_text(self) -> Seq<char> {
        BIND_HOST@ + decimal_digits(self.port as nat)
    }

    /// The redirect URL for this port.
    pub open spec fn callback_url_text(self) -> Seq<char> {
        CALLBACK_URL_PREFIX@ + decimal_digits(self.port as nat) + CALLBACK_PATH@
    }

    /// The address to bind: `127.0.0.1:<port>`.
    pub fn bind_address(&self) -> (address: String)
        ensures
            address@ == self.bind_address_text(),
    {
        let mut address = String::new();
        address.append(BIND_HOST);
        push_decimal(&mut address, self.port);
        address
    }

    /// The URL to register as the redirect target:
    /// `http://localhost:<port>/oauth-callback`.
    pub fn callback_url(&self) -> (url: String)
        ensures
            url@ == self.callback_url_text(),
    {
        let mut url = String::new();
        url.append(CALLBACK_URL_PREFIX);
        push_decimal(&mut url, self.port);
        url.append(CALLBACK_PATH);
        url
    }
}

impl Default for ListenerConfig {
    /// The configuration of the application: the fixed port.
    fn default() -> (config: ListenerConfig)
        ensures
            config.port == OAUTH_CALLBACK_PORT,
    {
        ListenerConfig { port: OAUTH_CALLBACK_PORT }
    }
}

/// The redirect URL of the application: the URL of the fixed port. It takes
/// no input and is the same string on every call.
pub fn get_oauth_callback_url() -> (url: String)
    ensures
        url@ == (ListenerConfig { port: OAUTH_CALLBACK_PORT }).callback_url_text(),
        url@ == "http://localhost:37812/oauth-callback"@,
{
    let config = ListenerConfig::default();
    proof {
        lemma_fixed_callback_url();
    }
    config.callback_url()
}

/// The redirect URL and the bound address name the same port, and name it
/// unmistakably: two configurations agree in the one exactly when they agree
/// in the other, and that is exactly when their ports are the same.
pub proof fn lemma_url_and_address_name_one_port(a: ListenerConfig, b: ListenerConfig)
    ensures
        a.callback_url_text() == b.callback_url_text() <==> a.port == b.port,
        a.bind_address_text() == b.bind_address_text() <==> a.port == b.port,
{
    let digits_a = decimal_digits(a.port as nat);
    let digits_b = decimal_digits(b.port as nat);
    if a.callback_url_text() == b.callback_url_text() {
        let prefix = CALLBACK_URL_PREFIX@;
        assert(digits_a.len() == digits_b.len()) by {
            assert(a.callback_url_text().len() == prefix.len() + digits_a.len()
                + CALLBACK_PATH@.len());
            assert(b.callback_url_text().len() == prefix.len() + digits_b.len()
                + CALLBACK_PATH@.len());
        }
        assert forall|i: int| 0 <= i < digits_a.len() implies digits_a[i] == digits_b[i] by {
            assert(a.callback_url_text()[prefix.len() + i] == digits_a[i]);
            assert(b.callback_url_text()[prefix.len() + i] == digits_b[i]);
        }
        assert(digits_a =~= digits_b);
        lemma_decimal_digits_injective(a.port as nat, b.port as nat);
    }
    if a.bind_address_text() == b.bind_address_text() {
        let host = BIND_HOST@;
        assert(digits_a.len() == digits_b.len()) by {
            assert(a.bind_address_text().len() == host.len() + digits_a.len());
            assert(b.bind_address_text().len() == host.len() + digits_b.len());
        }
        assert forall|i: int| 0 <= i < digits_a.len() implies digits_a[i] == digits_b[i] by {
            assert(a.bind_address_text()[host.len() + i] == digits_a[i]);
            assert(b.bind_address_text()[host.len() + i] == digits_b[i]);
        }
        assert(digits_a =~= digits_b);
        lemma_decimal_digits_injective(a.port as nat, b.port as nat);
    }
}

/// The numeral of the fixed port.
proof fn lemma_fixed_port_digits()
    ensures
        decimal_digits(OAUTH_CALLBACK_PORT as nat) == seq!['3', '7', '8', '1', '2'],
{
    reveal_with_fuel(decimal_digits, 5);
    assert(decimal_digits(37812) =~= seq!['3', '7', '8', '1', '2']);
}

/// The redirect URL of the fixed port, written out.
proof fn lemma_fixed_callback_url()
    ensures
        (ListenerConfig { port: OAUTH_CALLBACK_PORT }).callback_url_text()
            == "http://localhost:37812/oauth-callback"@,
{
    lemma_fixed_port_digits();
    reveal_strlit("http://localhost:");
    reveal_strlit("/oauth-callback");
    reveal_strlit("http://localhost:37812/oauth-callback");
    let config = ListenerConfig { port: OAUTH_CALLBACK_PORT };
    assert(config.callback_url_text() =~= "http://localhost:37812/oauth-callback"@);
}

} // verus!
