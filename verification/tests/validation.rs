use clash_tui::runtime::YamlNode;
use clash_tui::validation::{check_dns_config_root, dns_config_mapping, validation_verdict, ValidationVerdict};
use clash_tui::xtask::JsonNode;

fn invalid(terminated: bool, message: &str) -> ValidationVerdict {
    ValidationVerdict::Invalid { terminated, message: message.to_owned() }
}

#[test]
fn a_clean_successful_run_is_valid() {
    assert_eq!(validation_verdict(true, Some(0), b"configuration file test is successful\n", b""), ValidationVerdict::Valid);
}

#[test]
fn error_words_in_either_stream_refuse_the_configuration() {
    assert_eq!(
        validation_verdict(true, Some(0), b"  level=fatal msg=\"bad\"  \n", b""),
        invalid(false, "level=fatal msg=\"bad\"")
    );
    assert_eq!(
        validation_verdict(true, Some(0), b"", b"Parse config error: yaml\n"),
        invalid(false, "Parse config error: yaml")
    );
    assert_eq!(validation_verdict(true, Some(0), b"ok", b"FATA oops"), invalid(false, "ok"));
}

#[test]
fn a_failed_run_reports_its_output_or_exit_code() {
    assert_eq!(validation_verdict(false, Some(2), b"", b" boom "), invalid(false, "boom"));
    assert_eq!(
        validation_verdict(false, Some(3), b" \n", b"\t"),
        invalid(false, "validation process exited with code 3")
    );
    assert_eq!(validation_verdict(false, None, b"", b""), invalid(true, "validation process was terminated"));
    assert_eq!(validation_verdict(false, None, b"killed", b""), invalid(true, "killed"));
}

#[test]
fn dns_config_root_must_be_an_object() {
    assert_eq!(check_dns_config_root(&JsonNode::Object(Vec::new())), Ok(()));
    assert_eq!(
        check_dns_config_root(&JsonNode::List(Vec::new())),
        Err("DNS config root must be an object".to_owned())
    );
}

fn text(s: &str) -> JsonNode {
    JsonNode::Text(s.to_owned())
}

fn key(s: &str) -> YamlNode {
    YamlNode::Text(s.to_owned())
}

#[test]
fn dns_config_becomes_a_yaml_mapping() {
    let doc = JsonNode::Object(vec![
        ("enable".to_owned(), JsonNode::Bool(true)),
        ("nameserver".to_owned(), JsonNode::List(vec![text("1.1.1.1")])),
        ("ipv6".to_owned(), JsonNode::Number("0".to_owned())),
    ]);
    let mapping = dns_config_mapping(&doc).expect("a mapping");
    // JSON objects keep their keys in order, so the mapping does too.
    assert_eq!(
        mapping,
        YamlNode::Mapping(vec![
            (key("enable"), YamlNode::Bool(true)),
            (key("ipv6"), YamlNode::Number("0".to_owned())),
            (key("nameserver"), YamlNode::List(vec![key("1.1.1.1")])),
        ])
    );
    assert_eq!(dns_config_mapping(&JsonNode::Object(Vec::new())), Ok(YamlNode::Mapping(Vec::new())));
}

#[test]
fn dns_config_merge_keys_are_resolved() {
    let doc = JsonNode::Object(vec![
        ("<<".to_owned(), JsonNode::Object(vec![("a".to_owned(), text("x")), ("b".to_owned(), text("base"))])),
        ("b".to_owned(), text("own")),
    ]);
    let mapping = dns_config_mapping(&doc).expect("a mapping");
    let YamlNode::Mapping(entries) = mapping else { panic!("not a mapping") };
    assert!(entries.iter().all(|(k, _)| *k != key("<<")));
    assert!(entries.contains(&(key("a"), key("x"))));
    assert!(entries.contains(&(key("b"), key("own"))));
    assert_eq!(entries.len(), 2);
}

#[test]
fn dns_config_root_errors() {
    assert_eq!(dns_config_mapping(&JsonNode::List(Vec::new())), Err("DNS config root must be an object".to_owned()));
    assert_eq!(dns_config_mapping(&text("dns")), Err("DNS config root must be an object".to_owned()));
    let bad_merge = JsonNode::Object(vec![("<<".to_owned(), text("not a mapping"))]);
    assert_eq!(dns_config_mapping(&bad_merge), Err("failed to apply DNS config yaml merge".to_owned()));
}
