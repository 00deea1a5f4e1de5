//! What holds of every parse and every resolution.
use vstd::prelude::*;
use crate::config::{
    Args, ArgsView, InfluxView, Level, ParseError, first_document, field, parse_spec, result_view,
};
use crate::node::{Node, is_text, yaml_documents};
use crate::resolve::resolve_spec;

verus! {

/// Outputs declared as the sequence `[stdout, influx]` come out as exactly
/// those two names, in that order.
pub proof fn outputs_keep_declared_order(text: Seq<char>, level: Level, doc: Node, items: Vec<Node>)
    requires
        first_document(text) == Some(doc),
        doc.entry("outputs"@) == Some(Node::List(items)),
        items@.len() == 2,
        is_text(items@[0], "stdout"@),
        is_text(items@[1], "influx"@),
    ensures
        parse_spec(text, level) is Ok,
        parse_spec(text, level)->Ok_0.outputs == seq!["stdout"@, "influx"@],
{
    let out = parse_spec(text, level)->Ok_0.outputs;
    assert(out =~= seq!["stdout"@, "influx"@]);
}

/// A string port under `influx` is the port of the time-series sink.
pub proof fn influx_port_is_kept(text: Seq<char>, level: Level, doc: Node, port: Seq<char>)
    requires
        first_document(text) == Some(doc),
        field(doc, "influx"@, "port"@) matches Some(n) && is_text(n, port),
    ensures
        parse_spec(text, level) is Ok,
        parse_spec(text, level)->Ok_0.influx is Some,
        parse_spec(text, level)->Ok_0.influx->0.port == port,
{
}

/// A document without `influx` still has a time-series sink, with every
/// field at its default.
pub proof fn influx_defaults_without_section(text: Seq<char>, level: Level, doc: Node)
    requires
        first_document(text) == Some(doc),
        doc.entry("influx"@) is None,
    ensures
        parse_spec(text, level) is Ok,
        parse_spec(text, level)->Ok_0.influx == Some(
            (InfluxView { user: "root"@, password: "root"@, host: "127.0.0.1"@, port: "8086"@ }),
        ),
{
}

/// A `carbon` section without a host gives no metrics sink, whatever else
/// it holds.
pub proof fn carbon_needs_host(text: Seq<char>, level: Level, doc: Node)
    requires
        first_document(text) == Some(doc),
        field(doc, "carbon"@, "host"@) is None,
    ensures
        parse_spec(text, level) is Ok,
        parse_spec(text, level)->Ok_0.carbon is None,
{
}

/// A string `elasticsearch` host becomes the URL of its operations index.
pub proof fn search_sink_url(text: Seq<char>, level: Level, doc: Node, host: Seq<char>)
    requires
        first_document(text) == Some(doc),
        doc.entry("elasticsearch"@) matches Some(n) && is_text(n, host),
    ensures
        parse_spec(text, level) is Ok,
        parse_spec(text, level)->Ok_0.elasticsearch == Some("http://"@ + host + "/ceph/operations"@),
{
}

/// Text that is no YAML fails to parse, and the resolver then falls back to
/// a configuration with no sink, no path and the warning level, whatever
/// level was asked for.
pub proof fn invalid_yaml_falls_back(text: Seq<char>, level: Level)
    requires
        yaml_documents(text) is None,
    ensures
        parse_spec(text, level) == Err::<ArgsView, ParseError>(ParseError::InvalidYaml),
        resolve_spec(level, Some(text)).config_path == Seq::<char>::empty(),
        resolve_spec(level, Some(text)).log_level == Level::Warn,
        resolve_spec(level, Some(text)).outputs == Seq::<Seq<char>>::empty(),
        resolve_spec(level, Some(text)).influx is None,
        resolve_spec(level, Some(text)).carbon is None,
        resolve_spec(level, Some(text)).elasticsearch is None,
        resolve_spec(level, Some(text)).stdout is None,
{
}

/// Two parses of the same text at the same level give the same
/// configuration, field by field.
pub proof fn parse_is_deterministic(
    text: &str,
    level: Level,
    first: Result<Args, ParseError>,
    second: Result<Args, ParseError>,
)
    requires
        result_view(first) == parse_spec(text@, level),
        result_view(second) == parse_spec(text@, level),
    ensures
        result_view(first) == result_view(second),
{
}

} // verus!
