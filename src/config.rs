//! The typed configuration and the rules that read it from a YAML source.
//!
//! A source is one YAML mapping of this shape:
//!
//! ```yaml
//! app:
//!   hostname: 127.0.0.1
//!   port: 15550
//! github:
//!   branch: main
//!   api_key: ""
//! scripts: scripts
//! ```
//!
//! Every field must be present. A field that is present but empty (`port:`)
//! takes its default value. Keys that the schema does not name are ignored.
//! A source that cannot be read is an error of its own: the baseline that
//! `Config::default` gives is never put in its place.
use vstd::prelude::*;

use crate::document::{lookup, yaml_tree, Node};
use crate::error::ConfigError;

verus! {

/// Application server configuration
#[derive(Debug, PartialEq)]
pub struct App {
    /// Bind address host
    pub hostname: String,
    /// Port for the service to listen on
    pub port: u16,
}

/// GitHub API configuration
#[derive(Debug, PartialEq)]
pub struct GitHub {
    /// Name of the branch to watch
    pub branch: String,
    /// GitHub webhooks API token
    pub api_key: String,
}

/// Top-level configuration.
#[derive(Debug, PartialEq)]
pub struct Config {
    pub app: App,
    pub github: GitHub,
    /// Directory that holds the scripts to run
    pub scripts: String,
}

/// The values that a `Config` holds.
pub struct ConfigModel {
    pub hostname: Seq<char>,
    pub port: u16,
    pub branch: Seq<char>,
    pub api_key: Seq<char>,
    pub scripts: Seq<char>,
}

impl View for Config {
    type V = ConfigModel;

    open spec fn view(&self) -> ConfigModel {
        ConfigModel {
            hostname: self.app.hostname@,
            port: self.app.port,
            branch: self.github.branch@,
            api_key: self.github.api_key@,
            scripts: self.scripts@,
        }
    }
}

/// The port to listen on where a source leaves it empty.
pub const DEFAULT_PORT: u16 = 15550;

/// The baseline configuration.
pub open spec fn default_model() -> ConfigModel {
    ConfigModel {
        hostname: "127.0.0.1"@,
        port: DEFAULT_PORT,
        branch: "main"@,
        api_key: ""@,
        scripts: "scripts"@,
    }
}

/// A text field: a YAML string, or its default where it is present but empty.
pub open spec fn text_value(n: Option<Node>, default: Seq<char>) -> Option<Seq<char>> {
    match n {
        Some(Node::Str(s)) => Some(s@),
        Some(Node::Null) => Some(default),
        _ => None,
    }
}

/// A port field: an integer that fits in `u16`, or the default port where it
/// is present but empty.
pub open spec fn port_value(n: Option<Node>) -> Option<u16> {
    match n {
        Some(Node::Number(Some(v))) => if v <= u16::MAX {
            Some(v as u16)
        } else {
            None
        },
        Some(Node::Null) => Some(DEFAULT_PORT),
        _ => None,
    }
}

/// A section is present and is a mapping.
pub open spec fn is_section(n: Option<Node>) -> bool {
    n matches Some(Node::Mapping(_))
}

/// The configuration that a document describes, or the dotted path of the
/// first field (in schema order) that is absent or of the wrong kind.
pub open spec fn config_of(doc: Node) -> Result<ConfigModel, Seq<char>> {
    let app = doc.field("app"@);
    let github = doc.field("github"@);
    if !is_section(app) {
        Err("app"@)
    } else if text_value(app.unwrap().field("hostname"@), default_model().hostname) is None {
        Err("app.hostname"@)
    } else if port_value(app.unwrap().field("port"@)) is None {
        Err("app.port"@)
    } else if !is_section(github) {
        Err("github"@)
    } else if text_value(github.unwrap().field("branch"@), default_model().branch) is None {
        Err("github.branch"@)
    } else if text_value(github.unwrap().field("api_key"@), default_model().api_key) is None {
        Err("github.api_key"@)
    } else if text_value(doc.field("scripts"@), default_model().scripts) is None {
        Err("scripts"@)
    } else {
        Ok(
            ConfigModel {
                hostname: text_value(
                    app.unwrap().field("hostname"@),
                    default_model().hostname,
                ).unwrap(),
                port: port_value(app.unwrap().field("port"@)).unwrap(),
                branch: text_value(
                    github.unwrap().field("branch"@),
                    default_model().branch,
                ).unwrap(),
                api_key: text_value(
                    github.unwrap().field("api_key"@),
                    default_model().api_key,
                ).unwrap(),
                scripts: text_value(doc.field("scripts"@), default_model().scripts).unwrap(),
            },
        )
    }
}

/// What reading a configuration from `text` gives: the model, or the path
/// of the offending field; `None` where the text is not YAML.
pub open spec fn source_result(text: Seq<char>) -> Option<Result<ConfigModel, Seq<char>>> {
    match yaml_tree(text) {
        Some(doc) => Some(config_of(doc)),
        None => None,
    }
}

/// The decimal digit for `d < 10`.
pub open spec fn digit(d: nat) -> char {
    seq!['0', '1', '2', '3', '4', '5', '6', '7', '8', '9'][d as int]
}

/// `n` written in decimal, without leading zeros.
pub open spec fn decimal(n: nat) -> Seq<char>
    decreases n,
{
    if n < 10 {
        seq![digit(n)]
    } else {
        decimal(n / 10) + seq![digit(n % 10)]
    }
}

/// The text of the bind address: `<hostname>:<port>`.
pub open spec fn address_text(m: ConfigModel) -> Seq<char> {
    m.hostname + ":"@ + decimal(m.port as nat)
}

/// Whether `text` parses as a socket address (`1.2.3.4:80`, `[::1]:80`).
pub uninterp spec fn is_socket_addr(text: Seq<char>) -> bool;

#[verifier::external_type_specification]
#[verifier::external_body]
pub struct ExSocketAddr(core::net::SocketAddr);

/// Relies on `<core::net::SocketAddr as FromStr>::from_str`: it succeeds
/// exactly on the texts that name a socket address, and depends on the text
/// alone.
#[verifier::external_body]
fn parse_socket_addr(text: &str) -> (r: Option<core::net::SocketAddr>)
    ensures
        (r is Some) == is_socket_addr(text@),
{
    text.parse::<core::net::SocketAddr>().ok()
}

fn digit_str(d: u16) -> (r: &'static str)
    requires
        d < 10,
    ensures
        r@ == seq![digit(d as nat)],
{
    proof {
        reveal_strlit("0");
        reveal_strlit("1");
        reveal_strlit("2");
        reveal_strlit("3");
        reveal_strlit("4");
        reveal_strlit("5");
        reveal_strlit("6");
        reveal_strlit("7");
        reveal_strlit("8");
        reveal_strlit("9");
    }
    let r = match d {
        0 => "0",
        1 => "1",
        2 => "2",
        3 => "3",
        4 => "4",
        5 => "5",
        6 => "6",
        7 => "7",
        8 => "8",
        _ => "9",
    };
    assert(r@ =~= seq![digit(d as nat)]);
    r
}

/// Appends `n` in decimal to `s`.
fn push_decimal(s: &mut String, n: u16)
    ensures
        final(s)@ == old(s)@ + decimal(n as nat),
    decreases n,
{
    if n >= 10 {
        push_decimal(s, n / 10);
    }
    s.append(digit_str(n % 10));
    assert(final(s)@ =~= old(s)@ + decimal(n as nat));
}

fn schema_error(path: &str) -> (r: ConfigError)
    ensures
        r matches ConfigError::SchemaError { field } && field@ == path@,
{
    ConfigError::SchemaError { field: path.to_string() }
}

fn read_section<'a>(doc: &'a Node, key: &str) -> (r: Result<&'a Node, ConfigError>)
    ensures
        match r {
            Ok(n) => is_section(doc.field(key@)) && doc.field(key@) == Some(*n),
            Err(e) => {
                &&& !is_section(doc.field(key@))
                &&& e matches ConfigError::SchemaError { field }
                &&& field@ == key@
            },
        },
{
    match doc.get(key) {
        Some(n) => match n {
            Node::Mapping(_) => Ok(n),
            _ => Err(schema_error(key)),
        },
        None => Err(schema_error(key)),
    }
}

fn read_text(section: &Node, key: &str, default: &str, path: &str) -> (r: Result<
    String,
    ConfigError,
>)
    ensures
        match text_value(section.field(key@), default@) {
            Some(t) => r matches Ok(s) && s@ == t,
            None => r matches Err(ConfigError::SchemaError { field }) && field@ == path@,
        },
{
    match section.get(key) {
        Some(Node::Str(s)) => Ok(s.clone()),
        Some(Node::Null) => Ok(default.to_string()),
        _ => Err(schema_error(path)),
    }
}

fn read_port(section: &Node, key: &str, path: &str) -> (r: Result<u16, ConfigError>)
    ensures
        match port_value(section.field(key@)) {
            Some(p) => r == Ok::<u16, ConfigError>(p),
            None => r matches Err(ConfigError::SchemaError { field }) && field@ == path@,
        },
{
    match section.get(key) {
        Some(Node::Number(Some(v))) => {
            if *v <= u16::MAX as u64 {
                Ok(*v as u16)
            } else {
                Err(schema_error(path))
            }
        },
        Some(Node::Null) => Ok(DEFAULT_PORT),
        _ => Err(schema_error(path)),
    }
}

impl Config {
    /// Reads a configuration from a parsed document.
    pub fn from_node(doc: &Node) -> (r: Result<Config, ConfigError>)
        ensures
            match config_of(*doc) {
                Ok(m) => r matches Ok(c) && c@ == m,
                Err(path) => r matches Err(ConfigError::SchemaError { field }) && field@ == path,
            },
    {
        let app = read_section(doc, "app")?;
        let hostname = read_text(app, "hostname", "127.0.0.1", "app.hostname")?;
        let port = read_port(app, "port", "app.port")?;
        let github = read_section(doc, "github")?;
        let branch = read_text(github, "branch", "main", "github.branch")?;
        let api_key = read_text(github, "api_key", "", "github.api_key")?;
        let scripts = read_text(doc, "scripts", "scripts", "scripts")?;
        Ok(Config { app: App { hostname, port }, github: GitHub { branch, api_key }, scripts })
    }

    /// Reads a configuration from YAML text, taken verbatim.
    pub fn from_yaml(text: &str) -> (r: Result<Config, ConfigError>)
        ensures
            match source_result(text@) {
                Some(Ok(m)) => r matches Ok(c) && c@ == m,
                Some(Err(path)) => r matches Err(ConfigError::SchemaError { field })
                    && field@ == path,
                None => r matches Err(ConfigError::SchemaError { field })
                    && field@ == "document"@,
            },
    {
        match Node::parse(text) {
            Some(doc) => Config::from_node(&doc),
            None => Err(schema_error("document")),
        }
    }

    /// Reads a configuration from the outcome of reading the file at `path`:
    /// `None` where the file could not be read.
    pub fn from_source(path: &str, contents: Option<&str>) -> (r: Result<Config, ConfigError>)
        ensures
            contents is None ==> (r matches Err(ConfigError::SourceUnavailable { path: p })
                && p@ == path@),
            contents matches Some(text) ==> match source_result(text@) {
                Some(Ok(m)) => r matches Ok(c) && c@ == m,
                Some(Err(field_path)) => r matches Err(ConfigError::SchemaError { field })
                    && field@ == field_path,
                None => r matches Err(ConfigError::SchemaError { field })
                    && field@ == "document"@,
            },
    {
        match contents {
            Some(text) => Config::from_yaml(text),
            None => Err(ConfigError::SourceUnavailable { path: path.to_string() }),
        }
    }
}

impl Config {
    /// The bind address as text, `<hostname>:<port>`.
    pub fn address_text(&self) -> (r: String)
        ensures
            r@ == address_text(self@),
    {
        let mut text = self.app.hostname.clone();
        text.append(":");
        push_decimal(&mut text, self.app.port);
        text
    }

    /// The socket address to listen on, parsed from `<hostname>:<port>`.
    pub fn bind_address(&self) -> (r: Result<core::net::SocketAddr, ConfigError>)
        ensures
            r is Ok <==> is_socket_addr(address_text(self@)),
            r is Err ==> (r matches Err(ConfigError::AddressInvalid { address })
                && address@ == address_text(self@)),
    {
        let text = self.address_text();
        match parse_socket_addr(text.as_str()) {
            Some(addr) => Ok(addr),
            None => Err(ConfigError::AddressInvalid { address: text }),
        }
    }
}

fn key_node(key: &str) -> (r: Node)
    ensures
        r matches Node::Str(k) && k@ == key@,
{
    Node::Str(key.to_string())
}

impl Config {
    /// Writes the configuration out as a document of the schema's shape;
    /// reading that document back gives the same configuration.
    pub fn to_node(&self) -> (r: Node)
        ensures
            config_of(r) == Ok::<ConfigModel, Seq<char>>(self@),
    {
        let mut app: Vec<(Node, Node)> = Vec::new();
        app.push((key_node("hostname"), Node::Str(self.app.hostname.clone())));
        app.push((key_node("port"), Node::Number(Some(self.app.port as u64))));
        let mut github: Vec<(Node, Node)> = Vec::new();
        github.push((key_node("branch"), Node::Str(self.github.branch.clone())));
        github.push((key_node("api_key"), Node::Str(self.github.api_key.clone())));
        let mut top: Vec<(Node, Node)> = Vec::new();
        let app = Node::Mapping(app);
        let github = Node::Mapping(github);
        let ghost app_node = app;
        let ghost github_node = github;
        top.push((key_node("app"), app));
        top.push((key_node("github"), github));
        top.push((key_node("scripts"), Node::Str(self.scripts.clone())));
        let r = Node::Mapping(top);
        proof {
            reveal_strlit("app");
            reveal_strlit("github");
            reveal_strlit("scripts");
            reveal_strlit("hostname");
            reveal_strlit("port");
            reveal_strlit("branch");
            reveal_strlit("api_key");
            reveal_with_fuel(lookup, 4);
            assert(top@.drop_first() =~= seq![top@[1], top@[2]]);
            assert(top@.drop_first().drop_first() =~= seq![top@[2]]);
            assert("app"@.len() == 3);
            assert("github"@.len() == 6);
            assert("scripts"@.len() == 7);
            let ghost a = app_node->Mapping_0@;
            assert(a.drop_first() =~= seq![a[1]]);
            assert("hostname"@.len() == 8);
            assert("port"@.len() == 4);
            let ghost g = github_node->Mapping_0@;
            assert(g.drop_first() =~= seq![g[1]]);
            assert("branch"@.len() == 6);
            assert("api_key"@.len() == 7);
        }
        r
    }
}

impl Default for Config {
    /// The in-memory baseline; it reads nothing.
    fn default() -> (r: Config)
        ensures
            r@ == default_model(),
    {
        Config {
            app: App { hostname: String::from_str("127.0.0.1"), port: DEFAULT_PORT },
            github: GitHub { branch: String::from_str("main"), api_key: String::from_str("") },
            scripts: String::from_str("scripts"),
        }
    }
}

} // verus!
