//! How a validation run of the core's configuration is judged, and how a
//! DNS configuration document becomes the YAML mapping that is saved.
use vstd::prelude::*;
use crate::input::{lossy_string, utf8_lossy};
use crate::strs::{chars_contains_str, dec_int, from_chars, owned, push_dec_i64, push_str, contains, to_chars, trim, str_trim};
use crate::runtime::{yaml_node, YamlNode};
use crate::xtask::JsonNode;

verus! {

/// How a validation run of the core ended.
#[derive(Debug, Clone, PartialEq, Eq)]
pub enum ValidationVerdict {
    Valid,
    /// The configuration was refused. `terminated`: the process ended
    /// without an exit code (it was killed).
    Invalid { terminated: bool, message: String },
}

/// Words in the core's output that mark a refused configuration.
pub open spec fn has_error_keyword(t: Seq<char>) -> bool {
    contains(t, "FATA"@) || contains(t, "fatal"@) || contains(t, "Parse config error"@) || contains(
        t,
        "level=fatal"@,
    )
}

/// The verdict on a run that exited with `success` and exit code `code`
/// and printed `out` and `err`: `None` when the configuration is valid,
/// else whether the process was killed and the message to show (the
/// trimmed output, else the trimmed error output, else the exit code).
pub open spec fn verdict_of(success: bool, code: Option<i32>, out: Seq<char>, err: Seq<char>) -> Option<
    (bool, Seq<char>),
> {
    if !success || has_error_keyword(err) || has_error_keyword(out) {
        let message = if trim(out).len() > 0 {
            trim(out)
        } else if trim(err).len() > 0 {
            trim(err)
        } else {
            match code {
                Some(c) => "validation process exited with code "@ + dec_int(c as int),
                None => "validation process was terminated"@,
            }
        };
        Some((code is None, message))
    } else {
        None
    }
}

fn has_error_keyword_exec(t: &[char]) -> (b: bool)
    ensures
        b == has_error_keyword(t@),
{
    chars_contains_str(t, "FATA") || chars_contains_str(t, "fatal") || chars_contains_str(t, "Parse config error")
        || chars_contains_str(t, "level=fatal")
}

/// Judges a validation run of the core from its exit status and the bytes
/// it printed (decoded as lossy UTF-8).
pub fn validation_verdict(success: bool, code: Option<i32>, stdout: &[u8], stderr: &[u8]) -> (r:
    ValidationVerdict)
    ensures
        match verdict_of(success, code, utf8_lossy(stdout@), utf8_lossy(stderr@)) {
            None => r is Valid,
            Some((t, m)) => r matches ValidationVerdict::Invalid { terminated, message } && terminated == t
                && message@ == m,
        },
{
    let out = lossy_string(stdout);
    let err = lossy_string(stderr);
    let out_chars = to_chars(out.as_str());
    let err_chars = to_chars(err.as_str());
    if success && !has_error_keyword_exec(&err_chars) && !has_error_keyword_exec(&out_chars) {
        return ValidationVerdict::Valid;
    }
    let out_trim = str_trim(out.as_str());
    let err_trim = str_trim(err.as_str());
    let message = if out_trim.len() > 0 {
        from_chars(&out_trim)
    } else if err_trim.len() > 0 {
        from_chars(&err_trim)
    } else {
        match code {
            Some(c) => {
                let mut v = to_chars("validation process exited with code ");
                push_dec_i64(&mut v, c as i64);
                from_chars(&v)
            },
            None => owned("validation process was terminated"),
        }
    };
    ValidationVerdict::Invalid { terminated: code.is_none(), message }
}

/// A DNS configuration must be a JSON object.
pub fn check_dns_config_root(doc: &JsonNode) -> (r: Result<(), String>)
    ensures
        r is Ok <==> doc is Object,
        r matches Err(e) ==> e@ == "DNS config root must be an object"@,
{
    match doc {
        JsonNode::Object(_) => Ok(()),
        _ => Err(owned("DNS config root must be an object")),
    }
}

/// The step that failed while a DNS configuration became YAML.
#[derive(Debug, Clone, Copy, PartialEq, Eq, Structural)]
pub enum DnsYamlStep {
    /// Writing the document as YAML text.
    Serialize,
    /// Reading that text back.
    Parse,
    /// Resolving its merge keys.
    Merge,
}

/// What `serde_yaml_ng` makes of a DNS configuration: the document written
/// as YAML text (`to_string`), read back (`from_str`) and with its merge
/// keys resolved (`apply_merge`); or the step that failed.
pub uninterp spec fn dns_yaml_of(doc: JsonNode) -> Result<YamlNode, DnsYamlStep>;

/// Turns a `JsonNode` into a `serde_json::Value`, variant by variant; a
/// number text that is no JSON number becomes null.
#[verifier::external_body]
fn json_value(doc: &JsonNode) -> serde_json::Value {
    match doc {
        JsonNode::Null => serde_json::Value::Null,
        JsonNode::Bool(b) => serde_json::Value::Bool(*b),
        JsonNode::Number(n) => n.parse::<serde_json::Number>().map_or(serde_json::Value::Null, serde_json::Value::Number),
        JsonNode::Text(t) => serde_json::Value::String(t.clone()),
        JsonNode::List(items) => serde_json::Value::Array(items.iter().map(json_value).collect()),
        JsonNode::Object(e) => serde_json::Value::Object(e.iter().map(|(k, v)| (k.clone(), json_value(v))).collect()),
    }
}

/// Calls `serde_yaml_ng::to_string` on the document, `serde_yaml_ng::from_str`
/// on the text, and `apply_merge` on the value read back. The contract
/// names the outcome; how YAML is written, read and merged is left to
/// that name.
#[verifier::external_body]
fn dns_config_yaml(doc: &JsonNode) -> (r: Result<YamlNode, DnsYamlStep>)
    ensures
        r == dns_yaml_of(*doc),
{
    let text = serde_yaml_ng::to_string(&json_value(doc)).map_err(|_| DnsYamlStep::Serialize)?;
    let mut value: serde_yaml_ng::Value = serde_yaml_ng::from_str(&text).map_err(|_| DnsYamlStep::Parse)?;
    value.apply_merge().map_err(|_| DnsYamlStep::Merge)?;
    Ok(yaml_node(&value))
}

/// The error of a failed step.
pub open spec fn dns_step_message(step: DnsYamlStep) -> Seq<char> {
    match step {
        DnsYamlStep::Serialize => "failed to serialize DNS config"@,
        DnsYamlStep::Parse => "failed to parse DNS config"@,
        DnsYamlStep::Merge => "failed to apply DNS config yaml merge"@,
    }
}

/// The YAML mapping a DNS configuration is saved as: the document must be
/// an object, and what YAML makes of it a mapping.
pub fn dns_config_mapping(doc: &JsonNode) -> (r: Result<YamlNode, String>)
    ensures
        !(doc is Object) ==> (r matches Err(e) && e@ == "DNS config root must be an object"@),
        doc is Object ==> match dns_yaml_of(*doc) {
            Err(step) => r matches Err(e) && e@ == dns_step_message(step),
            Ok(y) => if y is Mapping {
                r == Ok::<YamlNode, String>(y)
            } else {
                r matches Err(e) && e@ == "DNS config root must be a mapping"@
            },
        },
{
    if let Err(e) = check_dns_config_root(doc) {
        return Err(e);
    }
    match dns_config_yaml(doc) {
        Err(step) => Err(
            match step {
                DnsYamlStep::Serialize => owned("failed to serialize DNS config"),
                DnsYamlStep::Parse => owned("failed to parse DNS config"),
                DnsYamlStep::Merge => owned("failed to apply DNS config yaml merge"),
            },
        ),
        Ok(y) => match y {
            YamlNode::Mapping(_) => Ok(y),
            _ => Err(owned("DNS config root must be a mapping")),
        },
    }
}

} // verus!
