use vstd::prelude::*;
use crate::config::{
    ConfigError, RawField, RawJob, RawJobModel, RawRequest, raw_jobs_view, resolve_jobs,
    resolve_jobs_spec,
};
use crate::model::{HttpJob, JobModel, Jobs, jobs_view, opt_text_view};
use crate::source::FileContent;
use crate::timezone::{TimezoneSource, resolve_timezone, resolved_zone, timezone_source};

verus! {

#[verifier::external_type_specification]
#[verifier::external_body]
pub struct ExValue(serde_json::Value);

#[verifier::external_type_specification]
#[verifier::external_body]
pub struct ExJsonError(serde_json::Error);

#[verifier::external_type_specification]
#[verifier::external_body]
pub struct ExYamlError(serde_yaml::Error);

/// Reads a string node; `None` for any other kind of node.
pub assume_specification[ serde_json::Value::as_str ](v: &serde_json::Value) -> Option<&str>;

/// Reads a boolean node; `None` for any other kind of node.
pub assume_specification[ serde_json::Value::as_bool ](v: &serde_json::Value) -> Option<bool>;

/// Reads an integer node that fits `u64`; `None` otherwise.
pub assume_specification[ serde_json::Value::as_u64 ](v: &serde_json::Value) -> Option<u64>;

/// Reads a list node; `None` for any other kind of node.
pub assume_specification[ serde_json::Value::as_array ](v: &serde_json::Value) -> Option<
    &Vec<serde_json::Value>,
>;

/// Whether the node is an object.
pub assume_specification[ serde_json::Value::is_object ](v: &serde_json::Value) -> bool;

/// Whether `serde_json` accepts this text as a JSON document.
pub uninterp spec fn json_text_ok(text: Seq<char>) -> bool;

/// Whether `serde_yaml` accepts this text as a document it can turn into a JSON value.
pub uninterp spec fn yaml_text_ok(text: Seq<char>) -> bool;

/// Relies on `serde_json::from_str::<Value>`, which succeeds or fails on the text alone.
#[verifier::external_body]
fn parse_json(text: &str) -> (r: Result<serde_json::Value, serde_json::Error>)
    ensures
        r is Ok == json_text_ok(text@),
{
    serde_json::from_str::<serde_json::Value>(text)
}

/// Relies on `serde_yaml::from_str::<serde_json::Value>`, which succeeds or fails on the
/// text alone.
#[verifier::external_body]
fn parse_yaml(text: &str) -> (r: Result<serde_json::Value, serde_yaml::Error>)
    ensures
        r is Ok == yaml_text_ok(text@),
{
    serde_yaml::from_str::<serde_json::Value>(text)
}

/// Relies on `serde_json::Value::get` with a string key: the field of an object node, or
/// `None` when the node is no object or has no such field.
#[verifier::external_body]
fn field<'a>(v: &'a serde_json::Value, key: &str) -> Option<&'a serde_json::Value> {
    v.get(key)
}

/// Relies on `serde_json::Value::as_object`: the entries of an object node in the map's
/// order, each key with a copy of its value; `None` for any other kind of node.
#[verifier::external_body]
fn object_entries(v: &serde_json::Value) -> Option<Vec<(String, serde_json::Value)>> {
    v.as_object().map(|m| m.iter().map(|(k, x)| (k.clone(), x.clone())).collect())
}

/// Relies on `serde_json::Value::as_object` and `serde_json::to_string`: the JSON text of
/// an object node; `None` for any other kind of node, or if encoding fails.
#[verifier::external_body]
fn object_text(v: &serde_json::Value) -> Option<String> {
    v.as_object().and_then(|m| serde_json::to_string(m).ok())
}

fn text_field(v: &serde_json::Value, key: &str) -> RawField<String> {
    match field(v, key) {
        Some(x) => match x.as_str() {
            Some(s) => RawField::Given(s.to_owned()),
            None => RawField::WrongType,
        },
        None => RawField::Absent,
    }
}

fn bool_field(v: &serde_json::Value, key: &str) -> RawField<bool> {
    match field(v, key) {
        Some(x) => match x.as_bool() {
            Some(b) => RawField::Given(b),
            None => RawField::WrongType,
        },
        None => RawField::Absent,
    }
}

fn u64_field(v: &serde_json::Value, key: &str) -> RawField<u64> {
    match field(v, key) {
        Some(x) => match x.as_u64() {
            Some(n) => RawField::Given(n),
            None => RawField::WrongType,
        },
        None => RawField::Absent,
    }
}

/// Reads the request fields of a job entry as they stand in the document.
pub fn read_raw_request(v: &serde_json::Value) -> RawRequest {
    let headers = match field(v, "headers") {
        Some(h) => match object_entries(h) {
            Some(entries) => {
                let mut out: Vec<(String, Option<String>)> = Vec::new();
                let mut i: usize = 0;
                while i < entries.len()
                    decreases entries.len() - i,
                {
                    let value = match entries[i].1.as_str() {
                        Some(s) => Some(s.to_owned()),
                        None => None,
                    };
                    out.push((entries[i].0.clone(), value));
                    i = i + 1;
                }
                RawField::Given(out)
            },
            None => RawField::WrongType,
        },
        None => RawField::Absent,
    };
    let body = match field(v, "body") {
        Some(b) => match object_text(b) {
            Some(t) => RawField::Given(t),
            None => RawField::WrongType,
        },
        None => RawField::Absent,
    };
    RawRequest { url: text_field(v, "url"), method: text_field(v, "method"), headers, body }
}

/// Reads the fields of one job entry as they stand in the document.
pub fn read_raw_job(v: &serde_json::Value) -> RawJob {
    let request = match field(v, "request") {
        Some(r) => if r.is_object() {
            RawField::Given(read_raw_request(r))
        } else {
            RawField::WrongType
        },
        None => RawField::Absent,
    };
    RawJob {
        name: text_field(v, "name"),
        enable: bool_field(v, "enable"),
        cron: text_field(v, "cron"),
        timeout: u64_field(v, "timeout"),
        max_retry: u64_field(v, "max_retry"),
        request,
    }
}

/// The top-level fields of a definition document as found, before any check.
#[derive(Clone, Debug)]
pub struct RawConfig {
    /// The zone name, if the field is text.
    pub timezone: Option<String>,
    pub http_jobs: RawField<Vec<RawJob>>,
}

pub struct RawConfigModel {
    pub timezone: Option<Seq<char>>,
    pub http_jobs: RawField<Seq<RawJobModel>>,
}

impl View for RawConfig {
    type V = RawConfigModel;

    open spec fn view(&self) -> RawConfigModel {
        RawConfigModel {
            timezone: opt_text_view(self.timezone),
            http_jobs: match self.http_jobs {
                RawField::Absent => RawField::Absent,
                RawField::WrongType => RawField::WrongType,
                RawField::Given(js) => RawField::Given(raw_jobs_view(js@)),
            },
        }
    }
}

/// Reads the top-level fields of a decoded definition document.
pub fn read_raw_config(value: &serde_json::Value) -> RawConfig {
    let timezone = match field(value, "timezone") {
        Some(t) => match t.as_str() {
            Some(s) => Some(s.to_owned()),
            None => None,
        },
        None => None,
    };
    let http_jobs = match field(value, "http_jobs") {
        Some(l) => match l.as_array() {
            Some(items) => {
                let mut raws: Vec<RawJob> = Vec::new();
                let mut i: usize = 0;
                while i < items.len()
                    decreases items.len() - i,
                {
                    raws.push(read_raw_job(&items[i]));
                    i = i + 1;
                }
                RawField::Given(raws)
            },
            None => RawField::WrongType,
        },
        None => RawField::Absent,
    };
    RawConfig { timezone, http_jobs }
}

/// The jobs of a definition, or why there are none to take.
pub open spec fn jobs_of_config(c: RawConfigModel) -> Result<Seq<JobModel>, ConfigError> {
    match c.http_jobs {
        RawField::Absent => Err(ConfigError::MissingJobsField),
        RawField::WrongType => Err(ConfigError::JobsNotList),
        RawField::Given(raws) => resolve_jobs_spec(raws),
    }
}

/// The registry a definition gives, as zone name, jobs and how the zone was settled; a
/// definition without jobs gives none.
pub open spec fn registry_of_config(c: RawConfigModel) -> Result<
    (Seq<char>, Seq<JobModel>, TimezoneSource),
    ConfigError,
> {
    match jobs_of_config(c) {
        Err(e) => Err(e),
        Ok(js) => if js.len() == 0 {
            Err(ConfigError::NoJobs)
        } else {
            Ok((resolved_zone(c.timezone), js, timezone_source(c.timezone)))
        },
    }
}

/// Resolves the definition's `http_jobs` list.
pub fn get_http_jobs(config: &RawConfig) -> (r: Result<Vec<HttpJob>, ConfigError>)
    ensures
        match r {
            Ok(jobs) => jobs_of_config(config@) == Ok::<Seq<JobModel>, ConfigError>(
                jobs_view(jobs@),
            ),
            Err(e) => jobs_of_config(config@) == Err::<Seq<JobModel>, ConfigError>(e),
        },
{
    match &config.http_jobs {
        RawField::Absent => Err(ConfigError::MissingJobsField),
        RawField::WrongType => Err(ConfigError::JobsNotList),
        RawField::Given(raws) => resolve_jobs(raws),
    }
}

/// Builds the registry from a definition: its jobs, and its zone when known (UTC
/// otherwise); a definition without jobs is refused.
pub fn init_read_jobs(config: &RawConfig) -> (r: Result<(Jobs, TimezoneSource), ConfigError>)
    ensures
        match r {
            Ok(reg) => registry_of_config(config@) == Ok::<
                (Seq<char>, Seq<JobModel>, TimezoneSource),
                ConfigError,
            >((reg.0.timezone@, jobs_view(reg.0.http_jobs@), reg.1)),
            Err(e) => registry_of_config(config@) == Err::<
                (Seq<char>, Seq<JobModel>, TimezoneSource),
                ConfigError,
            >(e),
        },
{
    let jobs = match get_http_jobs(config) {
        Ok(jobs) => jobs,
        Err(e) => {
            return Err(e);
        },
    };
    if jobs.len() == 0 {
        return Err(ConfigError::NoJobs);
    }
    let tz_name: Option<&str> = match &config.timezone {
        Some(t) => Some(t.as_str()),
        None => None,
    };
    let (zone, source) = resolve_timezone(tz_name);
    Ok((Jobs::new(zone, jobs), source))
}

/// Parses a definition file's text by its format.
pub fn get_value(content: &FileContent) -> (r: Result<serde_json::Value, ConfigError>)
    ensures
        match content {
            FileContent::Json(t) => (r is Ok == json_text_ok(t@)) && (r is Err ==> r == Err::<
                serde_json::Value,
                ConfigError,
            >(ConfigError::InvalidJson)),
            FileContent::Yaml(t) | FileContent::Yml(t) => (r is Ok == yaml_text_ok(t@)) && (r is Err
                ==> r == Err::<serde_json::Value, ConfigError>(ConfigError::InvalidYaml)),
            FileContent::NotFound => r == Err::<serde_json::Value, ConfigError>(
                ConfigError::NoJobsFile,
            ),
        },
{
    match content {
        FileContent::Json(t) => match parse_json(t.as_str()) {
            Ok(v) => Ok(v),
            Err(_) => Err(ConfigError::InvalidJson),
        },
        FileContent::Yaml(t) | FileContent::Yml(t) => match parse_yaml(t.as_str()) {
            Ok(v) => Ok(v),
            Err(_) => Err(ConfigError::InvalidYaml),
        },
        FileContent::NotFound => Err(ConfigError::NoJobsFile),
    }
}

} // verus!
