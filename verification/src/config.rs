//! Runtime configuration: a JSON-encoded object handed to the process at
//! start, with a default for everything it leaves out.

use vstd::prelude::*;

use crate::json::{json_parse, obj_field, text_of, JsonRep, JsonVal};

verus! {

/// The values the process cares about at start.
pub struct Config {
    pub data_folder: String,
    pub schema: JsonVal,
    pub api_endpoint: String,
}

/// The configuration value named by `text`: the parsed object, or an empty
/// object where the text does not parse.
pub open spec fn config_root(text: Seq<char>) -> JsonRep {
    match json_parse(text) {
        Some(v) => v,
        None => JsonRep::Object(Seq::empty()),
    }
}

/// The data folder the configuration names, or the default.
pub open spec fn config_data_folder(root: JsonRep) -> Seq<char> {
    match obj_field(root, "data_folder"@) {
        Some(v) => match text_of(v) {
            Some(t) => t,
            None => "/tmp/turtl.sql"@,
        },
        None => "/tmp/turtl.sql"@,
    }
}

/// The storage schema the configuration carries, or an empty object.
pub open spec fn config_schema(root: JsonRep) -> JsonRep {
    match obj_field(root, "schema"@) {
        Some(v) => v,
        None => JsonRep::Object(Seq::empty()),
    }
}

/// The API endpoint the configuration names, else the saved one, else the
/// built-in default.
pub open spec fn config_endpoint(root: JsonRep, saved: Option<Seq<char>>) -> Seq<char> {
    match obj_field(root, "api"@) {
        Some(api) => match obj_field(api, "endpoint"@) {
            Some(v) => match text_of(v) {
                Some(t) => t,
                None => config_endpoint_fallback(saved),
            },
            None => config_endpoint_fallback(saved),
        },
        None => config_endpoint_fallback(saved),
    }
}

pub open spec fn config_endpoint_fallback(saved: Option<Seq<char>>) -> Seq<char> {
    match saved {
        Some(s) => s,
        None => "https://api.turtlapp.com/v2"@,
    }
}

/// Parses a JSON-encoded configuration object into the values the process
/// cares about, falling back to a default for each one it cannot read;
/// `saved_endpoint` is the endpoint the configuration collaborator last
/// stored, if any.
pub fn process_config(config_str: &str, saved_endpoint: Option<&String>) -> (r: Config)
    ensures
        r.data_folder@ == config_data_folder(config_root(config_str@)),
        r.schema.rep() == config_schema(config_root(config_str@)),
        r.api_endpoint@ == config_endpoint(
            config_root(config_str@),
            match saved_endpoint {
                Some(s) => Some(s@),
                None => None,
            },
        ),
{
    let parsed: Option<JsonVal> = crate::json::parse_json(config_str);
    let root = match parsed {
        Some(v) => v,
        None => JsonVal::empty_object(),
    };
    let data_folder = match root.get_key(&"data_folder".to_owned()) {
        Some(v) => match v.as_text() {
            Some(t) => t.clone(),
            None => "/tmp/turtl.sql".to_owned(),
        },
        None => "/tmp/turtl.sql".to_owned(),
    };
    let schema = match root.get_key(&"schema".to_owned()) {
        Some(v) => v.deep_copy(),
        None => JsonVal::empty_object(),
    };
    let api_endpoint = match root.get_key(&"api".to_owned()) {
        Some(api) => match api.get_key(&"endpoint".to_owned()) {
            Some(v) => match v.as_text() {
                Some(t) => t.clone(),
                None => endpoint_fallback(saved_endpoint),
            },
            None => endpoint_fallback(saved_endpoint),
        },
        None => endpoint_fallback(saved_endpoint),
    };
    Config { data_folder, schema, api_endpoint }
}

fn endpoint_fallback(saved: Option<&String>) -> (r: String)
    ensures
        r@ == config_endpoint_fallback(
            match saved {
                Some(s) => Some(s@),
                None => None,
            },
        ),
{
    match saved {
        Some(s) => s.clone(),
        None => "https://api.turtlapp.com/v2".to_owned(),
    }
}

} // verus!
