//! The device's `config.json`: its UUID, the API endpoint, the root
//! certificate of the API and the API keys of the device, read from a JSON
//! document that the caller has parsed into a `JsonValue`.
use vstd::prelude::*;
use crate::codec::{decode_base64, utf8_text};
use crate::text::{concat, concat3, lemma_prefix_of_concat, same_text, starts_with, tail_from};

verus! {

/// A parsed JSON document, as far as this library reads it: numbers are
/// kept only as being numbers, and an object keeps its members in order.
#[derive(Debug)]
pub enum JsonValue {
    Null,
    Bool(bool),
    Number,
    String(String),
    Array(Vec<JsonValue>),
    Object(Vec<(String, JsonValue)>),
}

/// The members of a JSON object.
pub type ConfigMap = Vec<(String, JsonValue)>;

pub type ConfigResult = Result<String, String>;

/// The value of the first member of `entries` named `key`.
pub open spec fn member(entries: Seq<(String, JsonValue)>, key: Seq<char>) -> Option<JsonValue>
    decreases entries.len(),
{
    if entries.len() == 0 {
        None
    } else if entries[0].0@ == key {
        Some(entries[0].1)
    } else {
        member(entries.drop_first(), key)
    }
}

/// The text of member `key` of `entries`, where that member is a JSON string.
pub open spec fn member_text(entries: Seq<(String, JsonValue)>, key: Seq<char>) -> Option<Seq<char>> {
    match member(entries, key) {
        Some(JsonValue::String(s)) => Some(s@),
        _ => None,
    }
}

/// The error for a member that is missing or not a string.
pub open spec fn missing_key_message(key: Seq<char>) -> Seq<char> {
    "key '"@ + key + "' is bad or missing"@
}

/// The endpoint without a leading `https://` or `http://`.
pub open spec fn strip_scheme(endpoint: Seq<char>) -> Seq<char> {
    if "https://"@.is_prefix_of(endpoint) {
        endpoint.skip(8)
    } else if "http://"@.is_prefix_of(endpoint) {
        endpoint.skip(7)
    } else {
        endpoint
    }
}

/// The API key that `entries` holds for `endpoint`: member `deviceApiKeys`
/// must be an object whose member named by the endpoint without its scheme
/// is a string.
pub open spec fn api_key_for(entries: Seq<(String, JsonValue)>, endpoint: Seq<char>) -> Option<
    Seq<char>,
> {
    match member(entries, "deviceApiKeys"@) {
        Some(JsonValue::Object(keys)) => member_text(keys@, strip_scheme(endpoint)),
        _ => None,
    }
}

/// The error for an endpoint without an API key.
pub open spec fn missing_api_key_message(endpoint: Seq<char>) -> Seq<char> {
    "Unable to determine API key for endpoint "@ + endpoint
}

/// The members of a document that must be a JSON object.
pub fn json_object_from_value(value: JsonValue) -> (r: Result<ConfigMap, String>)
    ensures
        match value {
            JsonValue::Object(m) => r == Ok::<ConfigMap, String>(m),
            _ => r matches Err(e) && e@ == "JSON did not represent a Map type"@,
        },
{
    match value {
        JsonValue::Object(map) => Ok(map),
        _ => Err("JSON did not represent a Map type".to_string()),
    }
}

/// Finds member `key` of `entries`, first match first.
fn find_member<'a>(entries: &'a Vec<(String, JsonValue)>, key: &str) -> (r: Option<&'a JsonValue>)
    ensures
        match member(entries@, key@) {
            Some(v) => r == Some(&v),
            None => r is None,
        },
{
    let mut i: usize = 0;
    assert(entries@.skip(0) =~= entries@);
    while i < entries.len()
        invariant
            i <= entries@.len(),
            member(entries@, key@) == member(entries@.skip(i as int), key@),
        decreases entries@.len() - i,
    {
        let ghost rest = entries@.skip(i as int);
        assert(rest.drop_first() =~= entries@.skip(i + 1));
        if same_text(entries[i].0.as_str(), key) {
            return Some(&entries[i].1);
        }
        i = i + 1;
    }
    None
}

/// What a configuration made from a parsed document is: the document must
/// be an object with a string member `uuid`.
pub open spec fn config_from_value(value: JsonValue, r: Result<ConfigJson, String>) -> bool {
    match value {
        JsonValue::Object(m) => match member_text(m@, "uuid"@) {
            Some(u) => r matches Ok(c) && c.device_uuid() == u && c.entries() == m@,
            None => r matches Err(e) && e@ == missing_key_message("uuid"@),
        },
        _ => r matches Err(e) && e@ == "JSON did not represent a Map type"@,
    }
}

/// `serde_json::Value`.
#[verifier::external_type_specification]
#[verifier::external_body]
pub struct ExSerdeJsonValue(serde_json::Value);

/// `serde_json::Error`.
#[verifier::external_type_specification]
#[verifier::external_body]
pub struct ExSerdeJsonError(serde_json::Error);

/// The document that `serde_json::from_str::<serde_json::Value>` parses
/// from the text, in this library's form: `None` where it reports an error.
pub uninterp spec fn json_parse(text: Seq<char>) -> Option<JsonValue>;

/// Calls `serde_json::from_str::<serde_json::Value>` and converts the value
/// it parses, variant by variant, into a `JsonValue` (`json_from_serde`): it
/// fails exactly where the name says `None`.
#[verifier::external_body]
fn parse_json(text: &str) -> (r: Result<JsonValue, serde_json::Error>)
    ensures
        r is Ok <==> json_parse(text@) is Some,
        r matches Ok(v) ==> Some(v) == json_parse(text@),
{
    serde_json::from_str::<serde_json::Value>(text).map(json_from_serde)
}

/// Converts a `serde_json::Value` into a `JsonValue`, one variant for the
/// other; numbers keep only that they are numbers, objects keep serde_json's
/// order of members.
#[verifier::external_body]
fn json_from_serde(value: serde_json::Value) -> JsonValue {
    match value {
        serde_json::Value::Null => JsonValue::Null,
        serde_json::Value::Bool(b) => JsonValue::Bool(b),
        serde_json::Value::Number(_) => JsonValue::Number,
        serde_json::Value::String(s) => JsonValue::String(s),
        serde_json::Value::Array(a) => JsonValue::Array(a.into_iter().map(json_from_serde).collect()),
        serde_json::Value::Object(m) => {
            JsonValue::Object(m.into_iter().map(|(k, v)| (k, json_from_serde(v))).collect())
        },
    }
}

/// The `Debug` text of a JSON error (`format!("{:?}", e)`); its wording is
/// serde_json's and is not stated.
#[verifier::external_body]
fn json_error_text(e: &serde_json::Error) -> String {
    format!("{:?}", e)
}

/// The text of `config.json` as read from disk: it must be UTF-8.
pub fn config_text(contents: Vec<u8>) -> (r: Result<String, String>)
    ensures
        r is Ok <==> vstd::utf8::valid_utf8(contents@),
        r matches Ok(s) ==> s@ == vstd::utf8::decode_utf8(contents@),
        r matches Err(e) ==> "Unable to load JSON file: "@.is_prefix_of(e@),
{
    match crate::codec::from_utf8(contents) {
        Ok(s) => Ok(s),
        Err(why) => {
            let detail = crate::codec::utf8_error_text(&why);
            proof {
                lemma_prefix_of_concat("Unable to load JSON file: "@, detail@);
            }
            Err(concat("Unable to load JSON file: ", detail.as_str()))
        },
    }
}

/// The members of a JSON object given as text.
pub fn json_object_from_string(contents: &str) -> (r: Result<ConfigMap, String>)
    ensures
        match json_parse(contents@) {
            None => r matches Err(e) && "Unable to deserialize JSON: "@.is_prefix_of(e@),
            Some(JsonValue::Object(m)) => r == Ok::<ConfigMap, String>(m),
            Some(_) => r matches Err(e) && e@ == "JSON did not represent a Map type"@,
        },
{
    match parse_json(contents) {
        Ok(value) => json_object_from_value(value),
        Err(why) => {
            let detail = json_error_text(&why);
            proof {
                lemma_prefix_of_concat("Unable to deserialize JSON: "@, detail@);
            }
            Err(concat("Unable to deserialize JSON: ", detail.as_str()))
        },
    }
}

/// A validated `config.json`.
pub struct ConfigJson {
    pub uuid: String,
    config: ConfigMap,
}

impl ConfigJson {
    /// The members of the document.
    pub closed spec fn entries(&self) -> Seq<(String, JsonValue)> {
        self.config@
    }

    /// The device's UUID (the text of field `uuid`).
    pub closed spec fn device_uuid(&self) -> Seq<char> {
        self.uuid@
    }

    /// A configuration from a parsed document: it must be an object with a
    /// string member `uuid`.
    pub fn from_value(value: JsonValue) -> (r: Result<Self, String>)
        ensures
            config_from_value(value, r),
    {
        let config = json_object_from_value(value)?;
        let uuid = Self::get_config_value(&config, "uuid")?;
        Ok(ConfigJson { uuid, config })
    }

    /// A configuration from the text of a JSON document (see
    /// `config_from_value`).
    pub fn from_json(json: &str) -> (r: Result<Self, String>)
        ensures
            match json_parse(json@) {
                None => r matches Err(e) && "Unable to deserialize JSON: "@.is_prefix_of(e@),
                Some(v) => config_from_value(v, r),
            },
    {
        let config = json_object_from_string(json)?;
        Self::from_value(JsonValue::Object(config))
    }

    /// The text of member `key`, which must be a JSON string.
    fn get_config_value(config: &ConfigMap, key: &str) -> (r: Result<String, String>)
        ensures
            match member_text(config@, key@) {
                Some(s) => r matches Ok(v) && v@ == s,
                None => r matches Err(e) && e@ == missing_key_message(key@),
            },
    {
        if let Some(value) = find_member(config, key) {
            if let JsonValue::String(v) = value {
                return Ok(v.clone());
            }
        }
        Err(concat3("key '", key, "' is bad or missing"))
    }

    /// The endpoint without a leading `https://` or `http://`.
    pub fn strip_api_endpoint(api_endpoint: &str) -> (r: String)
        ensures
            r@ == strip_scheme(api_endpoint@),
    {
        proof {
            reveal_strlit("https://");
            reveal_strlit("http://");
        }
        if starts_with(api_endpoint, "https://") {
            tail_from(api_endpoint, 8)
        } else if starts_with(api_endpoint, "http://") {
            tail_from(api_endpoint, 7)
        } else {
            api_endpoint.to_string()
        }
    }

    /// Member `apiEndpoint`.
    pub fn get_api_endpoint(&self) -> (r: ConfigResult)
        ensures
            match member_text(self.entries(), "apiEndpoint"@) {
                Some(s) => r matches Ok(v) && v@ == s,
                None => r matches Err(e) && e@ == missing_key_message("apiEndpoint"@),
            },
    {
        Self::get_config_value(&self.config, "apiEndpoint")
    }

    /// The PEM text of the API's root certificate: member `balenaRootCA`,
    /// Base64 that decodes to UTF-8 text; `None` where any of that fails.
    pub fn get_api_root_certificate(&self) -> (r: Option<String>)
        ensures
            match member_text(self.entries(), "balenaRootCA"@) {
                Some(encoded) => {
                    let bytes = vstd::utf8::encode_utf8(encoded);
                    if bytes.len() + 3 > usize::MAX {
                        r is None
                    } else {
                    match crate::codec::base64_decoding(bytes) {
                        Some(raw) => if vstd::utf8::valid_utf8(raw) {
                            r matches Some(pem) && pem@ == vstd::utf8::decode_utf8(raw)
                        } else {
                            r is None
                        },
                        None => r is None,
                    }
                    }
                },
                None => r is None,
            },
    {
        if let Ok(encoded) = Self::get_config_value(&self.config, "balenaRootCA") {
            let bytes = encoded.as_str().as_bytes();
            if bytes.len() <= usize::MAX - 3 {
                if let Ok(raw) = decode_base64(bytes) {
                    if let Some(pem) = utf8_text(raw) {
                        return Some(pem);
                    }
                }
            }
        }
        None
    }

    /// The device's API key for `api_endpoint`, looked up without the
    /// endpoint's scheme in member `deviceApiKeys`.
    pub fn get_api_key_for_endpoint(&self, api_endpoint: &str) -> (r: ConfigResult)
        ensures
            match api_key_for(self.entries(), api_endpoint@) {
                Some(k) => r matches Ok(v) && v@ == k,
                None => r matches Err(e) && e@ == missing_api_key_message(api_endpoint@),
            },
    {
        if let Some(keys_value) = find_member(&self.config, "deviceApiKeys") {
            if let JsonValue::Object(keys) = keys_value {
                let stripped = Self::strip_api_endpoint(api_endpoint);
                if let Some(value) = find_member(keys, stripped.as_str()) {
                    if let JsonValue::String(api_key) = value {
                        return Ok(api_key.clone());
                    }
                }
            }
        }
        Err(concat("Unable to determine API key for endpoint ", api_endpoint))
    }
}

/// An endpoint given with `https://` in front is stripped to the bare host.
pub proof fn lemma_strip_https(host: Seq<char>)
    ensures
        strip_scheme("https://"@ + host) == host,
{
    reveal_strlit("https://");
    assert(("https://"@ + host).skip(8) =~= host);
}

/// An endpoint given with `http://` in front is stripped to the bare host.
pub proof fn lemma_strip_http(host: Seq<char>)
    ensures
        strip_scheme("http://"@ + host) == host,
{
    reveal_strlit("https://");
    reveal_strlit("http://");
    let e = "http://"@ + host;
    assert(e[4] == ':');
    assert("https://"@[4] != e[4]);
    assert(!"https://"@.is_prefix_of(e));
    assert(e.skip(7) =~= host);
}

/// The API key of a host does not depend on whether the endpoint is written
/// with `https://`, with `http://` or bare, for a host written without a
/// scheme.
pub proof fn lemma_api_key_ignores_scheme(entries: Seq<(String, JsonValue)>, host: Seq<char>)
    requires
        !"https://"@.is_prefix_of(host),
        !"http://"@.is_prefix_of(host),
    ensures
        api_key_for(entries, "https://"@ + host) == api_key_for(entries, host),
        api_key_for(entries, "http://"@ + host) == api_key_for(entries, host),
{
    lemma_strip_https(host);
    lemma_strip_http(host);
}

} // verus!
