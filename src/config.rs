//! The configuration value and the parser that builds it from YAML text.
use vstd::prelude::*;
use vstd::string::*;
use crate::node::{Node, yaml_documents, load_documents, loadable};

verus! {

/// The path that a configuration records as its source.
pub const CONFIG_PATH: &'static str = "/etc/default/decode_ceph.yaml";

/// How much the program reports.
#[derive(Clone, Copy, Debug, PartialEq, Eq, Structural)]
pub enum Level {
    Warn,
    Info,
    Debug,
    Trace,
}

/// Why YAML text gave no configuration.
#[derive(Clone, Copy, Debug, PartialEq, Eq, Structural)]
pub enum ParseError {
    InvalidYaml,
}

/// Where time series go.
#[derive(Clone, Debug)]
pub struct Influx {
    pub user: String,
    pub password: String,
    pub host: String,
    pub port: String,
}

/// Where metrics go.
#[derive(Clone, Debug)]
pub struct Carbon {
    pub host: String,
    pub port: String,
    pub root_key: String,
}

/// The resolved configuration.
#[derive(Clone, Debug)]
pub struct Args {
    pub carbon: Option<Carbon>,
    pub influx: Option<Influx>,
    pub elasticsearch: Option<String>,
    pub stdout: Option<String>,
    pub outputs: Vec<String>,
    pub config_path: String,
    pub log_level: Level,
}

/// The time-series sink as strings of characters.
pub struct InfluxView {
    pub user: Seq<char>,
    pub password: Seq<char>,
    pub host: Seq<char>,
    pub port: Seq<char>,
}

/// The metrics sink as strings of characters.
pub struct CarbonView {
    pub host: Seq<char>,
    pub port: Seq<char>,
    pub root_key: Seq<char>,
}

/// The configuration as mathematical values.
pub struct ArgsView {
    pub carbon: Option<CarbonView>,
    pub influx: Option<InfluxView>,
    pub elasticsearch: Option<Seq<char>>,
    pub stdout: Option<Seq<char>>,
    pub outputs: Seq<Seq<char>>,
    pub config_path: Seq<char>,
    pub log_level: Level,
}

impl View for Influx {
    type V = InfluxView;

    open spec fn view(&self) -> InfluxView {
        InfluxView { user: self.user@, password: self.password@, host: self.host@, port: self.port@ }
    }
}

impl View for Carbon {
    type V = CarbonView;

    open spec fn view(&self) -> CarbonView {
        CarbonView { host: self.host@, port: self.port@, root_key: self.root_key@ }
    }
}

/// The characters of an optional string.
pub open spec fn opt_text(s: Option<String>) -> Option<Seq<char>> {
    match s {
        Some(t) => Some(t@),
        None => None,
    }
}

/// The characters of each string, in order.
pub open spec fn texts(v: Seq<String>) -> Seq<Seq<char>> {
    v.map_values(|s: String| s@)
}

impl View for Args {
    type V = ArgsView;

    open spec fn view(&self) -> ArgsView {
        ArgsView {
            carbon: match self.carbon {
                Some(c) => Some(c@),
                None => None,
            },
            influx: match self.influx {
                Some(i) => Some(i@),
                None => None,
            },
            elasticsearch: opt_text(self.elasticsearch),
            stdout: opt_text(self.stdout),
            outputs: texts(self.outputs@),
            config_path: self.config_path@,
            log_level: self.log_level,
        }
    }
}

/// A parse result as mathematical values.
pub open spec fn result_view(r: Result<Args, ParseError>) -> Result<ArgsView, ParseError> {
    match r {
        Ok(a) => Ok(a@),
        Err(e) => Err(e),
    }
}

/// The string that a node holds, if it is a string scalar.
pub open spec fn text_of(n: Option<Node>) -> Option<Seq<char>> {
    match n {
        Some(Node::Text(s)) => Some(s@),
        _ => None,
    }
}

/// The string that a node holds, or `default` where it is no string scalar.
pub open spec fn text_or(n: Option<Node>, default: Seq<char>) -> Seq<char> {
    match text_of(n) {
        Some(s) => s,
        None => default,
    }
}

/// The node under `key` in the mapping under `name` of `doc`.
pub open spec fn field(doc: Node, name: Seq<char>, key: Seq<char>) -> Option<Node> {
    match doc.entry(name) {
        Some(section) => section.entry(key),
        None => None,
    }
}

/// A configuration with no sink.
pub open spec fn empty_args(config_path: Seq<char>, level: Level) -> ArgsView {
    ArgsView {
        carbon: None,
        influx: None,
        elasticsearch: None,
        stdout: None,
        outputs: Seq::empty(),
        config_path,
        log_level: level,
    }
}

/// The time-series sink of a document: each field its own default.
pub open spec fn influx_of(doc: Node) -> InfluxView {
    InfluxView {
        user: text_or(field(doc, "influx"@, "user"@), "root"@),
        password: text_or(field(doc, "influx"@, "password"@), "root"@),
        host: text_or(field(doc, "influx"@, "host"@), "127.0.0.1"@),
        port: text_or(field(doc, "influx"@, "port"@), "8086"@),
    }
}

/// The metrics sink of a document: there only where it names a host.
pub open spec fn carbon_of(doc: Node) -> Option<CarbonView> {
    match text_of(field(doc, "carbon"@, "host"@)) {
        Some(host) => Some(
            CarbonView {
                host,
                port: text_or(field(doc, "carbon"@, "port"@), "2003"@),
                root_key: text_or(field(doc, "carbon"@, "root_key"@), "ceph"@),
            },
        ),
        None => None,
    }
}

/// The URL of the search sink on `host`.
pub open spec fn search_url(host: Seq<char>) -> Seq<char> {
    "http://"@ + host + "/ceph/operations"@
}

/// The declared outputs, in order; an item that is no string counts as "".
pub open spec fn outputs_of(doc: Node) -> Seq<Seq<char>> {
    match doc.entry("outputs"@) {
        Some(Node::List(items)) => items@.map_values(|n: Node| text_or(Some(n), Seq::empty())),
        _ => Seq::empty(),
    }
}

/// The configuration that a document describes.
pub open spec fn args_of(doc: Node, level: Level) -> ArgsView {
    ArgsView {
        carbon: carbon_of(doc),
        influx: Some(influx_of(doc)),
        elasticsearch: match text_of(doc.entry("elasticsearch"@)) {
            Some(host) => Some(search_url(host)),
            None => None,
        },
        stdout: text_of(doc.entry("stdout"@)),
        outputs: outputs_of(doc),
        config_path: CONFIG_PATH@,
        log_level: level,
    }
}

/// The first document of `text`, where it is YAML and holds one.
pub open spec fn first_document(text: Seq<char>) -> Option<Node> {
    match yaml_documents(text) {
        Some(docs) => if docs.len() > 0 {
            Some(docs[0])
        } else {
            None
        },
        None => None,
    }
}

/// What parsing `text` gives: an error where it is no YAML, the bare level
/// where it holds no document, else the configuration of its first document.
pub open spec fn parse_spec(text: Seq<char>, level: Level) -> Result<ArgsView, ParseError> {
    match yaml_documents(text) {
        None => Err(ParseError::InvalidYaml),
        Some(docs) => Ok(
            if docs.len() == 0 {
                empty_args(Seq::empty(), level)
            } else {
                args_of(docs[0], level)
            },
        ),
    }
}

/// The string scalar under `key` of `doc`.
fn top_text(doc: &Node, key: &str) -> (r: Option<String>)
    ensures
        opt_text(r) == text_of(doc.entry(key@)),
{
    match doc.get(key) {
        Some(n) => n.as_text(),
        None => None,
    }
}

/// The string scalar under `key` of the mapping under `name` of `doc`.
fn section_text(doc: &Node, name: &str, key: &str) -> (r: Option<String>)
    ensures
        opt_text(r) == text_of(field(*doc, name@, key@)),
{
    match doc.get(name) {
        Some(section) => top_text(section, key),
        None => None,
    }
}

/// Like `section_text`, with `default` in place of a missing string.
fn section_text_or(doc: &Node, name: &str, key: &str, default: &str) -> (r: String)
    ensures
        r@ == text_or(field(*doc, name@, key@), default@),
{
    match section_text(doc, name, key) {
        Some(s) => s,
        None => default.to_owned(),
    }
}

/// The declared outputs of `doc`.
fn outputs_in(doc: &Node) -> (r: Vec<String>)
    ensures
        texts(r@) == outputs_of(*doc),
{
    let mut outputs: Vec<String> = Vec::new();
    match doc.get("outputs") {
        Some(Node::List(items)) => {
            let mut i: usize = 0;
            while i < items.len()
                invariant
                    i <= items@.len(),
                    texts(outputs@) == items@.take(i as int).map_values(
                        |n: Node| text_or(Some(n), Seq::empty()),
                    ),
                decreases items@.len() - i,
            {
                let item = match items[i].as_text() {
                    Some(s) => s,
                    None => String::new(),
                };
                proof {
                    let f = |n: Node| text_or(Some(n), Seq::empty());
                    assert(items@.take(i + 1).map_values(f) =~= items@.take(i as int).map_values(
                        f,
                    ).push(f(items@[i as int])));
                }
                let ghost before = outputs@;
                outputs.push(item);
                assert(texts(outputs@) =~= texts(before).push(item@));
                i = i + 1;
            }
            assert(items@.take(items@.len() as int) =~= items@);
        },
        _ => {},
    }
    outputs
}

/// The URL of the search sink on `host`.
fn search_url_of(host: &str) -> (r: String)
    ensures
        r@ == search_url(host@),
{
    let mut url = String::from_str("http://");
    url.append(host);
    url.append("/ceph/operations");
    url
}

impl Args {
    /// The configuration that stands in where none could be read.
    pub fn clean() -> (r: Args)
        ensures
            r@ == empty_args(Seq::empty(), Level::Warn),
    {
        Args::with_log_level(Level::Warn)
    }

    /// A configuration with no sink, at `log_level`.
    pub fn with_log_level(log_level: Level) -> (r: Args)
        ensures
            r@ == empty_args(Seq::empty(), log_level),
    {
        let r = Args {
            carbon: None,
            influx: None,
            elasticsearch: None,
            stdout: None,
            outputs: Vec::new(),
            config_path: String::new(),
            log_level,
        };
        assert(texts(r.outputs@) =~= Seq::empty());
        r
    }
}

/// The configuration of a document.
fn args_from(doc: &Node, log_level: Level) -> (r: Args)
    ensures
        r@ == args_of(*doc, log_level),
{
    let elasticsearch = match top_text(doc, "elasticsearch") {
        Some(host) => Some(search_url_of(host.as_str())),
        None => None,
    };
    let stdout = top_text(doc, "stdout");
    let influx = Influx {
        host: section_text_or(doc, "influx", "host", "127.0.0.1"),
        port: section_text_or(doc, "influx", "port", "8086"),
        password: section_text_or(doc, "influx", "password", "root"),
        user: section_text_or(doc, "influx", "user", "root"),
    };
    let carbon = match section_text(doc, "carbon", "host") {
        Some(host) => Some(
            Carbon {
                host,
                port: section_text_or(doc, "carbon", "port", "2003"),
                root_key: section_text_or(doc, "carbon", "root_key", "ceph"),
            },
        ),
        None => None,
    };
    Args {
        carbon,
        elasticsearch,
        stdout,
        influx: Some(influx),
        outputs: outputs_in(doc),
        log_level,
        config_path: CONFIG_PATH.to_owned(),
    }
}

/// Builds the configuration that YAML text describes, at `log_level`. The
/// text stays within the loader's limits on nesting and aliases.
pub fn parse(args_string: &str, log_level: Level) -> (r: Result<Args, ParseError>)
    requires
        loadable(args_string@),
    ensures
        result_view(r) == parse_spec(args_string@, log_level),
        args_string@.len() == 0 ==> (r is Ok && r->Ok_0@ == empty_args(Seq::empty(), log_level)),
{
    match load_documents(args_string) {
        None => Err(ParseError::InvalidYaml),
        Some(docs) => {
            if docs.len() == 0 {
                Ok(Args::with_log_level(log_level))
            } else {
                Ok(args_from(&docs[0], log_level))
            }
        },
    }
}

} // verus!
