use secrecy::ExposeSecret;
use secrecy::Secret;
use vstd::prelude::*;
use vstd::string::*;

use crate::decimal::decimal;
use crate::decimal::decimal_value;
use crate::decimal::lemma_decimal_reads_back;
use crate::decimal::push_decimal;

verus! {

/// A database password, kept in a `secrecy::Secret<String>` so that it
/// is wiped from memory when dropped and never printed by `Debug`.
#[verifier::external_body]
pub struct Password {
    secret: Secret<String>,
}

/// The text that a `Password` keeps.
pub uninterp spec fn password_text(p: Password) -> Seq<char>;

/// Calls `secrecy::Secret::new`.
///
/// Trusted: the new secret keeps `text`; the source stores its argument as
/// the one inner field.
#[verifier::external_body]
fn keep_secret(text: String) -> (p: Password)
    ensures
        password_text(p) == text@,
{
    Password { secret: Secret::new(text) }
}

/// Calls `secrecy::ExposeSecret::expose_secret`.
///
/// Trusted: the reference handed out is to the text the secret keeps; the
/// source returns a reference to its one inner field, so what `keep_secret`
/// stored comes back unchanged.
#[verifier::external_body]
fn expose_secret(p: &Password) -> (text: &String)
    ensures
        text@ == password_text(*p),
{
    p.secret.expose_secret()
}

impl View for Password {
    type V = Seq<char>;

    open spec fn view(&self) -> Seq<char> {
        password_text(*self)
    }
}

impl Password {
    /// Keeps `text` as a secret.
    pub fn new(text: String) -> (p: Password)
        ensures
            p@ == text@,
    {
        keep_secret(text)
    }

    /// The text kept.
    pub fn expose(&self) -> (text: &String)
        ensures
            text@ == self@,
    {
        expose_secret(self)
    }
}

/// Where and as whom the service reaches its Postgres database.
pub struct DatabaseSettings {
    pub username: String,
    pub password: Password,
    pub host: String,
    pub port: u16,
    pub database_name: String,
}

/// `postgres://{username}:{password}@{host}:{port}`, the address of the
/// database server without a database name.
pub open spec fn server_url(
    username: Seq<char>,
    password: Seq<char>,
    host: Seq<char>,
    port: u16,
) -> Seq<char> {
    "postgres://"@ + username + ":"@ + password + "@"@ + host + ":"@ + decimal(port as nat)
}

/// A server address names each setting in its place: after `postgres://`
/// come the user name, `:`, the password, `@`, the host, `:`, and the port
/// in decimal digits that read back as the port, and nothing else.
pub proof fn lemma_server_url_names_each_setting(
    username: Seq<char>,
    password: Seq<char>,
    host: Seq<char>,
    port: u16,
)
    ensures
        ({
            let url = server_url(username, password, host, port);
            let u: int = 11 + username.len() as int;
            let p: int = u + 1 + password.len();
            let h: int = p + 1 + host.len();
            &&& url.len() > h + 1
            &&& url.subrange(0, 11) == "postgres://"@
            &&& url.subrange(11, u as int) == username
            &&& url[u as int] == ':'
            &&& url.subrange(u + 1, p as int) == password
            &&& url[p as int] == '@'
            &&& url.subrange(p + 1, h as int) == host
            &&& url[h as int] == ':'
            &&& forall|i: int| h + 1 <= i < url.len() ==> '0' <= #[trigger] url[i] <= '9'
            &&& decimal_value(url.subrange(h + 1, url.len() as int)) == port
        }),
{
    reveal_strlit("postgres://");
    reveal_strlit(":");
    reveal_strlit("@");
    lemma_decimal_reads_back(port as nat);
    let url = server_url(username, password, host, port);
    let u: int = 11 + username.len() as int;
    let p: int = u + 1 + password.len();
    let h: int = p + 1 + host.len();
    assert(url.subrange(0, 11) =~= "postgres://"@);
    assert(url.subrange(11, u as int) =~= username);
    assert(url.subrange(u + 1, p as int) =~= password);
    assert(url.subrange(p + 1, h as int) =~= host);
    assert(url.subrange(h + 1, url.len() as int) =~= decimal(port as nat));
    assert forall|i: int| h + 1 <= i < url.len() implies '0' <= #[trigger] url[i] <= '9' by {
        assert(url[i] == decimal(port as nat)[i - h - 1]);
    }
}

impl DatabaseSettings {
    /// The server address of these settings.
    pub open spec fn spec_server_url(&self) -> Seq<char> {
        server_url(self.username@, self.password@, self.host@, self.port)
    }

    /// `postgres://{username}:{password}@{host}:{port}/{database_name}`.
    pub fn connection_string(&self) -> (url: String)
        ensures
            url@ == self.spec_server_url() + "/"@ + self.database_name@,
            url@ == "postgres://"@ + self.username@ + ":"@ + self.password@ + "@"@ + self.host@
                + ":"@ + decimal(self.port as nat) + "/"@ + self.database_name@,
    {
        let mut url = self.connection_string_without_db();
        url.append("/");
        url.append(self.database_name.as_str());
        url
    }

    /// `postgres://{username}:{password}@{host}:{port}`.
    pub fn connection_string_without_db(&self) -> (url: String)
        ensures
            url@ == self.spec_server_url(),
            url@ == "postgres://"@ + self.username@ + ":"@ + self.password@ + "@"@ + self.host@
                + ":"@ + decimal(self.port as nat),
    {
        let mut url = String::from_str("postgres://");
        url.append(self.username.as_str());
        url.append(":");
        url.append(self.password.expose().as_str());
        url.append("@");
        url.append(self.host.as_str());
        url.append(":");
        push_decimal(&mut url, self.port);
        url
    }
}

} // verus!
