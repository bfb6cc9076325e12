//! Configuration records and their defaults, and the mirror settings that the
//! proxy core reads from them.
use vstd::prelude::*;
use vstd::string::StringExecFns;
use crate::orchestrator::MirrorConfig;
use crate::text::{ascii_chars, decimal_digits, decimal_text, signed_decimal, signed_decimal_text, str_equals};

verus! {

/// The mirror used where the configuration names none.
pub const DEFAULT_MIRROR: &'static str = "https://cdn.jsdelivr.net";

/// The `User-Agent` sent to the mirror where the configuration names none.
pub const DEFAULT_USER_AGENT: &'static str = "jsdelivr-proxy/0.1.0";

/// The environment the service runs in.
pub enum Environment {
    Development,
    Production,
    Testing,
}

impl Environment {
    /// The environment's name.
    pub fn name(&self) -> (r: &'static str)
        ensures
            r@ == env_name(*self),
    {
        match self {
            Environment::Development => "Development",
            Environment::Testing => "Testing",
            Environment::Production => "Production",
        }
    }

    /// The environment for a run: development where asked for, otherwise
    /// testing where the run environment says `Testing`, and production else.
    pub fn select(is_dev: bool, run_env: Option<&str>) -> (r: Environment)
        ensures
            r == (if is_dev {
                Environment::Development
            } else {
                match run_env {
                    Some(v) => if v@ == "Testing"@ {
                        Environment::Testing
                    } else {
                        Environment::Production
                    },
                    None => Environment::Production,
                }
            }),
    {
        if is_dev {
            Environment::Development
        } else {
            match run_env {
                Some(v) => if str_equals(v, "Testing") {
                    Environment::Testing
                } else {
                    Environment::Production
                },
                None => Environment::Production,
            }
        }
    }
}

/// The name of an environment.
pub open spec fn env_name(e: Environment) -> Seq<char> {
    match e {
        Environment::Development => "Development"@,
        Environment::Testing => "Testing"@,
        Environment::Production => "Production"@,
    }
}

/// The environment a name stands for: `Testing` and `Production` by name,
/// anything else development.
pub open spec fn env_from_name(s: Seq<char>) -> Environment {
    if s == "Testing"@ {
        Environment::Testing
    } else if s == "Production"@ {
        Environment::Production
    } else {
        Environment::Development
    }
}

impl<'a> From<&'a str> for Environment {
    fn from(env: &'a str) -> (r: Environment) {
        if str_equals(env, "Testing") {
            Environment::Testing
        } else if str_equals(env, "Production") {
            Environment::Production
        } else {
            Environment::Development
        }
    }
}

impl<'a> vstd::std_specs::convert::FromSpecImpl<&'a str> for Environment {
    open spec fn obeys_from_spec() -> bool {
        true
    }

    open spec fn from_spec(env: &'a str) -> Environment {
        env_from_name(env@)
    }
}

/// Settings of the relational database.
pub struct Database {
    pub host: String,
    pub port: u16,
    pub user: String,
    pub password: String,
    pub database: String,
    pub prefix: String,
    pub charset: String,
}

impl Database {
    pub fn default_host() -> (r: String)
        ensures
            r@ == "127.0.0.1"@,
    {
        String::from_str("127.0.0.1")
    }

    pub fn default_port() -> (r: u16)
        ensures
            r == 3306,
    {
        3306
    }

    pub fn default_user() -> (r: String)
        ensures
            r@ == "root"@,
    {
        String::from_str("root")
    }
}

impl Default for Database {
    fn default() -> (r: Database)
        ensures
            r.host@ == "127.0.0.1"@,
            r.port == 3306,
            r.user@ == "root"@,
            r.password@.len() == 0,
            r.database@.len() == 0,
            r.prefix@.len() == 0,
            r.charset@.len() == 0,
    {
        Database {
            host: Database::default_host(),
            port: Database::default_port(),
            user: Database::default_user(),
            password: String::new(),
            database: String::new(),
            prefix: String::new(),
            charset: String::new(),
        }
    }
}

/// Where the CDN mirror is and how to present to it.
pub struct Jsdelivr {
    pub mirror: Option<String>,
    pub user_agent: Option<String>,
    pub referer: Option<String>,
}

/// A configured value, or the default where none is configured.
pub open spec fn or_default(v: Option<String>, d: Seq<char>) -> Seq<char> {
    match v {
        Some(s) => s@,
        None => d,
    }
}

fn string_or(v: &Option<String>, d: &str) -> (r: String)
    ensures
        r@ == or_default(*v, d@),
{
    match v {
        Some(s) => s.clone(),
        None => String::from_str(d),
    }
}

impl Jsdelivr {
    /// The mirror settings the proxy core uses: the configured mirror or the
    /// public CDN; the configured user agent or the program's own; the
    /// configured referer or the mirror itself.
    pub fn mirror_config(&self) -> (r: MirrorConfig)
        ensures
            r.base_url@ == or_default(self.mirror, DEFAULT_MIRROR@),
            r.user_agent@ == or_default(self.user_agent, DEFAULT_USER_AGENT@),
            r.referer@ == or_default(self.referer, or_default(self.mirror, DEFAULT_MIRROR@)),
    {
        let base_url = string_or(&self.mirror, DEFAULT_MIRROR);
        let user_agent = string_or(&self.user_agent, DEFAULT_USER_AGENT);
        let referer = string_or(&self.referer, base_url.as_str());
        MirrorConfig { base_url, user_agent, referer }
    }
}

impl Default for Jsdelivr {
    fn default() -> (r: Jsdelivr)
        ensures
            r.mirror matches Some(m) && m@ == DEFAULT_MIRROR@,
            r.user_agent is None,
            r.referer is None,
    {
        Jsdelivr { mirror: Some(String::from_str(DEFAULT_MIRROR)), user_agent: None, referer: None }
    }
}

/// Settings of the message broker.
pub struct RabbitMQ {
    pub host: String,
    pub port: u16,
    pub user: String,
    pub password: String,
    pub vhost: String,
}

impl RabbitMQ {
    pub fn default_host() -> (r: String)
        ensures
            r@ == "127.0.0.1"@,
    {
        String::from_str("127.0.0.1")
    }

    pub fn default_port() -> (r: u16)
        ensures
            r == 5672,
    {
        5672
    }

    pub fn default_user() -> (r: String)
        ensures
            r@ == "myuser"@,
    {
        String::from_str("myuser")
    }

    pub fn default_pass() -> (r: String)
        ensures
            r@ == "mypass"@,
    {
        String::from_str("mypass")
    }
}

impl Default for RabbitMQ {
    fn default() -> (r: RabbitMQ)
        ensures
            r.host@ == "127.0.0.1"@,
            r.port == 5672,
            r.user@ == "myuser"@,
            r.password@ == "mypass"@,
            r.vhost@.len() == 0,
    {
        RabbitMQ {
            host: RabbitMQ::default_host(),
            port: RabbitMQ::default_port(),
            user: RabbitMQ::default_user(),
            password: RabbitMQ::default_pass(),
            vhost: String::new(),
        }
    }
}

/// Settings of the key-value store that holds the cache.
pub struct Redis {
    pub host: String,
    pub port: u16,
    pub password: Option<String>,
    pub username: Option<String>,
    pub database: i64,
}

/// A configured value followed by `sep`, or nothing where none is set.
pub open spec fn with_separator(v: Option<String>, sep: char) -> Seq<char> {
    match v {
        Some(s) => s@.push(sep),
        None => Seq::empty(),
    }
}

/// The connection URI of the store:
/// `redis://[username:][password@]host:port/database`.
pub open spec fn redis_uri(r: Redis) -> Seq<char> {
    "redis://"@ + with_separator(r.username, ':') + with_separator(r.password, '@') + r.host@ + seq![':']
        + ascii_chars(decimal_digits(r.port as nat)) + seq!['/'] + signed_decimal(r.database as int)
}

spec fn followed_by(v: Option<String>, sep: Seq<char>) -> Seq<char> {
    match v {
        Some(s) => s@ + sep,
        None => Seq::empty(),
    }
}

fn push_with_separator(out: &mut String, v: &Option<String>, sep: &str)
    ensures
        final(out)@ == old(out)@ + followed_by(*v, sep@),
{
    match v {
        Some(s) => {
            out.append(s.as_str());
            out.append(sep);
        },
        None => {
            assert(old(out)@ =~= old(out)@ + Seq::<char>::empty());
        },
    }
}

impl Redis {
    pub fn default_host() -> (r: String)
        ensures
            r@ == "127.0.0.1"@,
    {
        String::from_str("127.0.0.1")
    }

    pub fn default_port() -> (r: u16)
        ensures
            r == 6379,
    {
        6379
    }

    pub fn default_database() -> (r: i64)
        ensures
            r == 0,
    {
        0
    }

    /// The connection URI of the store.
    pub fn to_uri(&self) -> (r: String)
        ensures
            r@ == redis_uri(*self),
    {
        let mut out = String::from_str("redis://");
        proof {
            reveal_strlit(":");
            reveal_strlit("@");
            reveal_strlit("/");
            assert(":"@ =~= seq![':']);
            assert("@"@ =~= seq!['@']);
            assert("/"@ =~= seq!['/']);
        }
        push_with_separator(&mut out, &self.username, ":");
        push_with_separator(&mut out, &self.password, "@");
        out.append(self.host.as_str());
        out.append(":");
        let port = decimal_text(self.port as u64);
        out.append(port.as_str());
        out.append("/");
        let db = signed_decimal_text(self.database);
        out.append(db.as_str());
        proof {
            assert(followed_by(self.username, ":"@) =~= with_separator(self.username, ':'));
            assert(followed_by(self.password, "@"@) =~= with_separator(self.password, '@'));
            assert(out@ =~= redis_uri(*self));
        }
        out
    }
}

impl Default for Redis {
    fn default() -> (r: Redis)
        ensures
            r.host@ == "127.0.0.1"@,
            r.port == 6379,
            r.password is None,
            r.username is None,
            r.database == 0,
    {
        Redis {
            host: Redis::default_host(),
            port: Redis::default_port(),
            password: None,
            username: None,
            database: Redis::default_database(),
        }
    }
}

/// Where the HTTP server listens.
pub struct Server {
    pub host: Option<String>,
    pub port: Option<u16>,
}

impl Default for Server {
    fn default() -> (r: Server)
        ensures
            r.host matches Some(h) && h@ == "0.0.0.0"@,
            r.port == Some(28319u16),
    {
        Server { host: Some(String::from_str("0.0.0.0")), port: Some(28319) }
    }
}

/// The whole configuration of the service.
pub struct Config {
    pub env: Environment,
    pub database: Database,
    pub jsdelivr: Jsdelivr,
    pub redis: Redis,
    pub rabbitmq: RabbitMQ,
    pub server: Server,
}

} // verus!
