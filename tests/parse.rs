use decode_ceph::config::{parse, Args, Level, ParseError, CONFIG_PATH};
use decode_ceph::resolve::{get_args, get_cli_args};

#[test]
fn test_parse_file() {
    let file = r#"
outputs:
  - stdout
  - influx
influx:
  host: 127.0.0.1
  port: 8086
  user: root
  password: root
"#;
    let args = parse(file, Level::Info).unwrap();

    assert_eq!(args.outputs, vec!["stdout", "influx"]);
    assert_eq!(args.influx.unwrap().port, "8086");
}

#[test]
fn outputs_come_in_declared_order() {
    let args = parse("outputs: [stdout, influx]\n", Level::Warn).unwrap();
    assert_eq!(args.outputs, vec!["stdout", "influx"]);
}

#[test]
fn outputs_that_are_no_strings_become_empty() {
    let args = parse("outputs:\n  - carbon\n  - 12\n  - [a]\n", Level::Warn).unwrap();
    assert_eq!(args.outputs, vec!["carbon", "", ""]);
}

#[test]
fn outputs_that_are_no_sequence_are_empty() {
    let args = parse("outputs: stdout\n", Level::Warn).unwrap();
    assert!(args.outputs.is_empty());
}

#[test]
fn influx_string_port_is_kept() {
    let text = "influx:\n  host: db.local\n  port: \"8086\"\n  user: admin\n  password: secret\n";
    let influx = parse(text, Level::Warn).unwrap().influx.unwrap();
    assert_eq!(influx.port, "8086");
    assert_eq!(influx.host, "db.local");
    assert_eq!(influx.user, "admin");
    assert_eq!(influx.password, "secret");
}

#[test]
fn influx_fields_default_one_by_one() {
    let text = "influx:\n  host: db.local\n  port: \"9999\"\n";
    let influx = parse(text, Level::Warn).unwrap().influx.unwrap();
    assert_eq!(influx.host, "db.local");
    assert_eq!(influx.port, "9999");
    assert_eq!(influx.user, "root");
    assert_eq!(influx.password, "root");
}

#[test]
fn influx_defaults_without_section() {
    let args = parse("stdout: json\n", Level::Warn).unwrap();
    let influx = args.influx.unwrap();
    assert_eq!(influx.host, "127.0.0.1");
    assert_eq!(influx.port, "8086");
    assert_eq!(influx.user, "root");
    assert_eq!(influx.password, "root");
    assert_eq!(args.stdout.unwrap(), "json");
}

#[test]
fn influx_defaults_when_section_is_no_mapping() {
    let influx = parse("influx: somewhere\n", Level::Warn).unwrap().influx.unwrap();
    assert_eq!(influx.host, "127.0.0.1");
    assert_eq!(influx.port, "8086");
}

#[test]
fn carbon_without_host_is_absent() {
    let args = parse("carbon:\n  port: \"2004\"\n  root_key: osd\n", Level::Warn).unwrap();
    assert!(args.carbon.is_none());
}

#[test]
fn carbon_with_host_takes_defaults() {
    let carbon = parse("carbon:\n  host: graphite\n", Level::Warn).unwrap().carbon.unwrap();
    assert_eq!(carbon.host, "graphite");
    assert_eq!(carbon.port, "2003");
    assert_eq!(carbon.root_key, "ceph");
}

#[test]
fn carbon_with_all_fields() {
    let text = "carbon:\n  host: graphite\n  port: \"2004\"\n  root_key: osd\n";
    let carbon = parse(text, Level::Warn).unwrap().carbon.unwrap();
    assert_eq!(carbon.port, "2004");
    assert_eq!(carbon.root_key, "osd");
}

#[test]
fn elasticsearch_becomes_url() {
    let args = parse("elasticsearch: \"es.example.com:9200\"\n", Level::Warn).unwrap();
    assert_eq!(
        args.elasticsearch.unwrap(),
        "http://es.example.com:9200/ceph/operations"
    );
}

#[test]
fn elasticsearch_that_is_no_string_is_absent() {
    let args = parse("elasticsearch: 9200\n", Level::Warn).unwrap();
    assert!(args.elasticsearch.is_none());
}

#[test]
fn full_document_records_path_and_level() {
    let args = parse("stdout: plain\n", Level::Debug).unwrap();
    assert_eq!(args.config_path, CONFIG_PATH);
    assert_eq!(args.config_path, "/etc/default/decode_ceph.yaml");
    assert_eq!(args.log_level, Level::Debug);
    assert!(args.elasticsearch.is_none());
    assert!(args.carbon.is_none());
}

#[test]
fn empty_text_keeps_level_only() {
    let args = parse("", Level::Trace).unwrap();
    assert!(args.outputs.is_empty());
    assert!(args.influx.is_none());
    assert!(args.carbon.is_none());
    assert!(args.elasticsearch.is_none());
    assert!(args.stdout.is_none());
    assert_eq!(args.config_path, "");
    assert_eq!(args.log_level, Level::Trace);
}

#[test]
fn only_first_document_counts() {
    let args = parse("---\nstdout: one\n---\nstdout: two\n", Level::Warn).unwrap();
    assert_eq!(args.stdout.unwrap(), "one");
}

#[test]
fn invalid_yaml_is_rejected() {
    let r = parse("influx: {host: a\n", Level::Debug);
    assert!(matches!(r, Err(ParseError::InvalidYaml)));
}

#[test]
fn invalid_yaml_resolves_to_clean() {
    let args = get_args(Level::Debug, Some("influx: {host: a\n"));
    assert_eq!(args.config_path, "");
    assert_eq!(args.log_level, Level::Warn);
    assert!(args.outputs.is_empty());
    assert!(args.influx.is_none());
}

#[test]
fn unreadable_file_counts_as_empty() {
    let args = get_args(Level::Info, None);
    assert_eq!(args.log_level, Level::Info);
    assert!(args.influx.is_none());
    assert_eq!(args.config_path, "");
}

#[test]
fn resolved_file_text_is_parsed() {
    let args = get_args(Level::Info, Some("outputs: [carbon]\ncarbon:\n  host: g\n"));
    assert_eq!(args.outputs, vec!["carbon"]);
    assert_eq!(args.carbon.unwrap().host, "g");
    assert_eq!(args.config_path, CONFIG_PATH);
}

#[test]
fn parsing_twice_gives_the_same() {
    let text = "outputs: [stdout]\nelasticsearch: es:9200\ncarbon:\n  host: g\n";
    let a = parse(text, Level::Info).unwrap();
    let b = parse(text, Level::Info).unwrap();
    assert_eq!(a.outputs, b.outputs);
    assert_eq!(a.elasticsearch, b.elasticsearch);
    assert_eq!(a.stdout, b.stdout);
    assert_eq!(a.config_path, b.config_path);
    assert_eq!(a.log_level, b.log_level);
    let (ia, ib) = (a.influx.unwrap(), b.influx.unwrap());
    assert_eq!((ia.host, ia.port, ia.user, ia.password), (ib.host, ib.port, ib.user, ib.password));
    let (ca, cb) = (a.carbon.unwrap(), b.carbon.unwrap());
    assert_eq!((ca.host, ca.port, ca.root_key), (cb.host, cb.port, cb.root_key));
}

#[test]
fn clean_is_inert() {
    let args = Args::clean();
    assert_eq!(args.log_level, Level::Warn);
    assert_eq!(args.config_path, "");
    assert!(args.outputs.is_empty());
    assert!(args.influx.is_none());
}

#[test]
fn with_log_level_keeps_level() {
    let args = Args::with_log_level(Level::Debug);
    assert_eq!(args.log_level, Level::Debug);
    assert!(args.carbon.is_none());
    assert!(args.stdout.is_none());
}

#[test]
fn debug_count_sets_level() {
    assert_eq!(get_cli_args(0, None).log_level, Level::Warn);
    assert_eq!(get_cli_args(1, None).log_level, Level::Info);
    assert_eq!(get_cli_args(2, None).log_level, Level::Debug);
    assert_eq!(get_cli_args(3, None).log_level, Level::Trace);
    assert_eq!(get_cli_args(9, None).log_level, Level::Trace);
}

#[test]
fn config_flag_picks_file() {
    assert_eq!(get_cli_args(0, None).config_file, "/etc/default/decode_ceph.yaml");
    assert_eq!(get_cli_args(0, Some("/tmp/c.yaml")).config_file, "/tmp/c.yaml");
}
