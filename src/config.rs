use vstd::prelude::*;
use crate::model::{
    HeaderModel, HttpJob, HttpJobRequest, JobModel, RequestModel, headers_view, jobs_view,
    opt_text_view,
};

verus! {

/// Per-attempt timeout, in milliseconds, of a job that configures none.
pub const DEFAULT_TIMEOUT_MS: u64 = 5000;

/// Retry budget of a job that configures none.
pub const DEFAULT_MAX_RETRY: u64 = 3;

pub open spec fn default_method() -> Seq<char> {
    seq!['G', 'E', 'T']
}

/// A character that may stand in a header name: an ASCII letter or digit, or one of
/// `` !#$%&'*+-.^_`|~ ``.
pub open spec fn header_name_char_ok(c: char) -> bool {
    ('a' <= c && c <= 'z') || ('A' <= c && c <= 'Z') || ('0' <= c && c <= '9') || c == '!'
        || c == '#' || c == '$' || c == '%' || c == '&' || c == '\'' || c == '*' || c == '+'
        || c == '-' || c == '.' || c == '^' || c == '_' || c == '`' || c == '|' || c == '~'
}

/// A header name: 1 to 65535 characters, each a token character (all ASCII, so the byte
/// length is the character length).
pub open spec fn header_name_ok(name: Seq<char>) -> bool {
    &&& 1 <= name.len() <= 65535
    &&& forall|i: int| 0 <= i < name.len() ==> header_name_char_ok(#[trigger] name[i])
}

/// Relies on `HeaderName::try_from(&str)` (re-exported by reqwest), which maps each byte
/// through the crate's table of token characters (upper case to lower case, anything else
/// to an error) and accepts 1 to `MAX_HEADER_NAME_LEN` (65535) bytes.
#[verifier::external_body]
pub(crate) fn valid_header_name(name: &str) -> (r: bool)
    ensures
        r == header_name_ok(name@),
{
    reqwest::header::HeaderName::try_from(name).is_ok()
}

/// A character that may stand in a header value: visible ASCII, a tab, or any non-ASCII
/// character (whose UTF-8 bytes are all at least 0x80).
pub open spec fn header_value_char_ok(c: char) -> bool {
    (c as u32 >= 32 && c as u32 != 127) || c == '\t'
}

pub open spec fn header_value_ok(v: Seq<char>) -> bool {
    forall|i: int| 0 <= i < v.len() ==> header_value_char_ok(#[trigger] v[i])
}

/// Relies on `HeaderValue::try_from(&str)` (re-exported by reqwest), which accepts
/// exactly the texts whose every byte `b` has `b >= 32 && b != 127 || b == b'\t'`.
#[verifier::external_body]
pub(crate) fn valid_header_value(value: &str) -> (r: bool)
    ensures
        r == header_value_ok(value@),
{
    reqwest::header::HeaderValue::try_from(value).is_ok()
}

/// Why a job entry cannot be turned into a job.
#[derive(Clone, Copy, Debug, PartialEq, Eq, Structural)]
pub enum JobError {
    /// The name is absent or not text.
    MissingName,
    /// The cron expression is absent or not text.
    MissingCron,
    MissingRequest,
    /// The URL is absent, not text, or empty.
    MissingUrl,
    /// An optional field holds a value of the wrong type.
    InvalidFieldType,
    InvalidHeaderName,
    HeaderValueNotText,
    InvalidHeaderValue,
}

/// One field of a definition entry as found: absent, of the wrong type, or given.
#[derive(Clone, Debug)]
pub enum RawField<T> {
    Absent,
    WrongType,
    Given(T),
}

/// The request fields of a job entry as found in the definition, before defaults and checks.
#[derive(Clone, Debug)]
pub struct RawRequest {
    pub url: RawField<String>,
    pub method: RawField<String>,
    /// Each header's name, and its value if that value is text.
    pub headers: RawField<Vec<(String, Option<String>)>>,
    /// The body, already encoded as JSON text.
    pub body: RawField<String>,
}

/// The fields of a job entry as found in the definition, before defaults and checks.
#[derive(Clone, Debug)]
pub struct RawJob {
    pub name: RawField<String>,
    pub enable: RawField<bool>,
    pub cron: RawField<String>,
    pub timeout: RawField<u64>,
    pub max_retry: RawField<u64>,
    pub request: RawField<RawRequest>,
}

pub type RawHeaderModel = (Seq<char>, Option<Seq<char>>);

pub struct RawRequestModel {
    pub url: RawField<Seq<char>>,
    pub method: RawField<Seq<char>>,
    pub headers: RawField<Seq<RawHeaderModel>>,
    pub body: RawField<Seq<char>>,
}

pub struct RawJobModel {
    pub name: RawField<Seq<char>>,
    pub enable: RawField<bool>,
    pub cron: RawField<Seq<char>>,
    pub timeout: RawField<u64>,
    pub max_retry: RawField<u64>,
    pub request: RawField<RawRequestModel>,
}

pub open spec fn text_field_view(f: RawField<String>) -> RawField<Seq<char>> {
    match f {
        RawField::Absent => RawField::Absent,
        RawField::WrongType => RawField::WrongType,
        RawField::Given(s) => RawField::Given(s@),
    }
}

pub open spec fn raw_header_view(h: (String, Option<String>)) -> RawHeaderModel {
    (h.0@, opt_text_view(h.1))
}

pub open spec fn raw_headers_view(hs: Seq<(String, Option<String>)>) -> Seq<RawHeaderModel> {
    hs.map_values(|h: (String, Option<String>)| raw_header_view(h))
}

impl View for RawRequest {
    type V = RawRequestModel;

    open spec fn view(&self) -> RawRequestModel {
        RawRequestModel {
            url: text_field_view(self.url),
            method: text_field_view(self.method),
            headers: match self.headers {
                RawField::Absent => RawField::Absent,
                RawField::WrongType => RawField::WrongType,
                RawField::Given(hs) => RawField::Given(raw_headers_view(hs@)),
            },
            body: text_field_view(self.body),
        }
    }
}

impl View for RawJob {
    type V = RawJobModel;

    open spec fn view(&self) -> RawJobModel {
        RawJobModel {
            name: text_field_view(self.name),
            enable: self.enable,
            cron: text_field_view(self.cron),
            timeout: self.timeout,
            max_retry: self.max_retry,
            request: match self.request {
                RawField::Absent => RawField::Absent,
                RawField::WrongType => RawField::WrongType,
                RawField::Given(r) => RawField::Given(r@),
            },
        }
    }
}

/// What is wrong with one header entry, if anything: its name is checked first.
pub open spec fn header_error(h: RawHeaderModel) -> Option<JobError> {
    if !header_name_ok(h.0) {
        Some(JobError::InvalidHeaderName)
    } else {
        match h.1 {
            None => Some(JobError::HeaderValueNotText),
            Some(v) => if header_value_ok(v) {
                None
            } else {
                Some(JobError::InvalidHeaderValue)
            },
        }
    }
}

/// The error of the first bad header at index `i` or later.
pub open spec fn headers_error_from(hs: Seq<RawHeaderModel>, i: int) -> Option<JobError>
    decreases hs.len() - i,
{
    if i < 0 || i >= hs.len() {
        None
    } else if header_error(hs[i]) is Some {
        header_error(hs[i])
    } else {
        headers_error_from(hs, i + 1)
    }
}

pub open spec fn header_text(h: RawHeaderModel) -> HeaderModel {
    (
        h.0,
        match h.1 {
            Some(v) => v,
            None => Seq::empty(),
        },
    )
}

/// The request template that a raw request resolves to, or its first error: the URL must
/// be non-empty text, the method defaults to GET, and every given field must have its type.
pub open spec fn resolve_request_spec(raw: RawRequestModel) -> Result<RequestModel, JobError> {
    if !(raw.url matches RawField::Given(u) && u.len() > 0) {
        Err(JobError::MissingUrl)
    } else if raw.method is WrongType || raw.headers is WrongType {
        Err(JobError::InvalidFieldType)
    } else if raw.headers is Given && headers_error_from(raw.headers->Given_0, 0) is Some {
        Err(headers_error_from(raw.headers->Given_0, 0)->0)
    } else if raw.body is WrongType {
        Err(JobError::InvalidFieldType)
    } else {
        Ok(
            RequestModel {
                url: raw.url->Given_0,
                method: match raw.method {
                    RawField::Given(m) => m,
                    _ => default_method(),
                },
                headers: match raw.headers {
                    RawField::Given(hs) => Some(hs.map_values(|h: RawHeaderModel| header_text(h))),
                    _ => None,
                },
                body: match raw.body {
                    RawField::Given(b) => Some(b),
                    _ => None,
                },
            },
        )
    }
}

/// The job that a raw entry resolves to, or its first error; absent optional fields take
/// their defaults (enabled, 5000 ms, three attempts, GET), and ill-typed ones are errors.
pub open spec fn resolve_job_spec(raw: RawJobModel) -> Result<JobModel, JobError> {
    if !(raw.name is Given) {
        Err(JobError::MissingName)
    } else if !(raw.cron is Given) {
        Err(JobError::MissingCron)
    } else if raw.enable is WrongType || raw.timeout is WrongType || raw.max_retry is WrongType {
        Err(JobError::InvalidFieldType)
    } else if raw.request is Absent {
        Err(JobError::MissingRequest)
    } else if raw.request is WrongType {
        Err(JobError::InvalidFieldType)
    } else {
        match resolve_request_spec(raw.request->Given_0) {
            Err(e) => Err(e),
            Ok(request) => Ok(
                JobModel {
                    name: raw.name->Given_0,
                    enable: match raw.enable {
                        RawField::Given(b) => b,
                        _ => true,
                    },
                    cron: raw.cron->Given_0,
                    timeout: match raw.timeout {
                        RawField::Given(t) => t,
                        _ => DEFAULT_TIMEOUT_MS,
                    },
                    max_retry: match raw.max_retry {
                        RawField::Given(m) => m,
                        _ => DEFAULT_MAX_RETRY,
                    },
                    request,
                },
            ),
        }
    }
}


/// Checks the headers in order and, when all are valid, returns them as text pairs.
pub fn resolve_headers(hs: &Vec<(String, Option<String>)>) -> (r: Result<
    Vec<(String, String)>,
    JobError,
>)
    ensures
        match r {
            Ok(out) => headers_error_from(raw_headers_view(hs@), 0) is None && headers_view(out@)
                == raw_headers_view(hs@).map_values(|h: RawHeaderModel| header_text(h)),
            Err(e) => headers_error_from(raw_headers_view(hs@), 0) == Some(e),
        },
{
    let ghost raw = raw_headers_view(hs@);
    let mut out: Vec<(String, String)> = Vec::new();
    let mut i: usize = 0;
    while i < hs.len()
        invariant
            i <= hs@.len(),
            raw == raw_headers_view(hs@),
            headers_error_from(raw, 0) == headers_error_from(raw, i as int),
            headers_view(out@) == raw.subrange(0, i as int).map_values(
                |h: RawHeaderModel| header_text(h),
            ),
        decreases hs@.len() - i,
    {
        let name = &hs[i].0;
        let value = &hs[i].1;
        assert(raw[i as int] == raw_header_view(hs@[i as int]));
        if !valid_header_name(name.as_str()) {
            return Err(JobError::InvalidHeaderName);
        }
        match value {
            None => {
                return Err(JobError::HeaderValueNotText);
            },
            Some(v) => {
                if !valid_header_value(v.as_str()) {
                    return Err(JobError::InvalidHeaderValue);
                }
                let ghost before = out@;
                out.push((name.clone(), v.clone()));
                proof {
                    assert(raw.subrange(0, i + 1) =~= raw.subrange(0, i as int).push(raw[i as int]));
                    assert(headers_view(out@) =~= headers_view(before).push(
                        header_text(raw[i as int]),
                    ));
                    assert(raw.subrange(0, i + 1).map_values(|h: RawHeaderModel| header_text(h))
                        =~= raw.subrange(0, i as int).map_values(
                        |h: RawHeaderModel| header_text(h),
                    ).push(header_text(raw[i as int])));
                }
            },
        }
        i = i + 1;
    }
    proof {
        assert(raw.subrange(0, i as int) =~= raw);
    }
    Ok(out)
}

/// Resolves a raw request: the URL must be non-empty text, the method defaults to GET,
/// every header must have a valid name and a valid text value, and a given method, header
/// list or body must have its type.
pub fn resolve_request(raw: &RawRequest) -> (r: Result<HttpJobRequest, JobError>)
    ensures
        match r {
            Ok(req) => resolve_request_spec(raw@) == Ok::<RequestModel, JobError>(req@),
            Err(e) => resolve_request_spec(raw@) == Err::<RequestModel, JobError>(e),
        },
{
    let url = match &raw.url {
        RawField::Given(u) => {
            if u.as_str().is_empty() {
                return Err(JobError::MissingUrl);
            }
            u.clone()
        },
        _ => {
            return Err(JobError::MissingUrl);
        },
    };
    let method = match &raw.method {
        RawField::Given(m) => m.clone(),
        RawField::Absent => {
            proof {
                reveal_strlit("GET");
                assert("GET"@ =~= default_method());
            }
            "GET".to_string()
        },
        RawField::WrongType => {
            return Err(JobError::InvalidFieldType);
        },
    };
    let headers = match &raw.headers {
        RawField::Given(hs) => match resolve_headers(hs) {
            Ok(out) => Some(out),
            Err(e) => {
                return Err(e);
            },
        },
        RawField::Absent => None,
        RawField::WrongType => {
            return Err(JobError::InvalidFieldType);
        },
    };
    let body = match &raw.body {
        RawField::Given(b) => Some(b.clone()),
        RawField::Absent => None,
        RawField::WrongType => {
            return Err(JobError::InvalidFieldType);
        },
    };
    let req = HttpJobRequest::new(url, method, headers, body);
    proof {
        let spec = resolve_request_spec(raw@);
        assert(spec is Ok);
        assert(req@.headers == spec->Ok_0.headers);
        assert(req@ == spec->Ok_0);
    }
    Ok(req)
}

/// Resolves one raw job entry: name, cron and request are required; `enable` defaults to
/// true, `timeout` to 5000 ms and `max_retry` to 3; a given field of the wrong type is an
/// error.
pub fn resolve_job(raw: &RawJob) -> (r: Result<HttpJob, JobError>)
    ensures
        match r {
            Ok(job) => resolve_job_spec(raw@) == Ok::<JobModel, JobError>(job@),
            Err(e) => resolve_job_spec(raw@) == Err::<JobModel, JobError>(e),
        },
{
    let name = match &raw.name {
        RawField::Given(n) => n.clone(),
        _ => {
            return Err(JobError::MissingName);
        },
    };
    let cron = match &raw.cron {
        RawField::Given(c) => c.clone(),
        _ => {
            return Err(JobError::MissingCron);
        },
    };
    let enable = match raw.enable {
        RawField::Given(b) => b,
        RawField::Absent => true,
        RawField::WrongType => {
            return Err(JobError::InvalidFieldType);
        },
    };
    let timeout = match raw.timeout {
        RawField::Given(t) => t,
        RawField::Absent => DEFAULT_TIMEOUT_MS,
        RawField::WrongType => {
            return Err(JobError::InvalidFieldType);
        },
    };
    let max_retry = match raw.max_retry {
        RawField::Given(m) => m,
        RawField::Absent => DEFAULT_MAX_RETRY,
        RawField::WrongType => {
            return Err(JobError::InvalidFieldType);
        },
    };
    let request = match &raw.request {
        RawField::Given(rr) => match resolve_request(rr) {
            Ok(req) => req,
            Err(e) => {
                return Err(e);
            },
        },
        RawField::Absent => {
            return Err(JobError::MissingRequest);
        },
        RawField::WrongType => {
            return Err(JobError::InvalidFieldType);
        },
    };
    Ok(HttpJob::new(name, enable, cron, timeout, max_retry, request))
}

/// Why the job definitions as a whole cannot become a registry.
#[derive(Clone, Copy, Debug, PartialEq, Eq, Structural)]
pub enum ConfigError {
    /// None of the candidate definition files exists.
    NoJobsFile,
    /// More than one candidate definition file exists.
    MultipleJobsFiles,
    /// The definition file could not be read.
    ReadFailed,
    /// The definition text is not valid JSON.
    InvalidJson,
    /// The definition text is not valid YAML.
    InvalidYaml,
    /// The definition has no `http_jobs` field.
    MissingJobsField,
    /// The `http_jobs` field is not a list.
    JobsNotList,
    /// The job entry at `index` is invalid.
    Job { index: usize, error: JobError },
    /// The definition holds no job.
    NoJobs,
}

/// The jobs that a list of raw entries resolves to, or the first entry's error with its
/// index.
pub open spec fn resolve_jobs_spec(raws: Seq<RawJobModel>) -> Result<Seq<JobModel>, ConfigError> {
    if exists|i: int| 0 <= i < raws.len() && (#[trigger] resolve_job_spec(raws[i])) is Err {
        let i = choose|i: int|
            0 <= i < raws.len() && (#[trigger] resolve_job_spec(raws[i])) is Err && forall|j: int|
                0 <= j < i ==> (#[trigger] resolve_job_spec(raws[j])) is Ok;
        Err(ConfigError::Job { index: i as usize, error: resolve_job_spec(raws[i])->Err_0 })
    } else {
        Ok(raws.map_values(|r: RawJobModel| resolve_job_spec(r)->Ok_0))
    }
}

pub open spec fn raw_jobs_view(raws: Seq<RawJob>) -> Seq<RawJobModel> {
    raws.map_values(|r: RawJob| r@)
}

/// Resolves every raw job entry in order, stopping at the first invalid one.
pub fn resolve_jobs(raws: &Vec<RawJob>) -> (r: Result<Vec<HttpJob>, ConfigError>)
    ensures
        match r {
            Ok(jobs) => resolve_jobs_spec(raw_jobs_view(raws@)) == Ok::<
                Seq<JobModel>,
                ConfigError,
            >(jobs_view(jobs@)),
            Err(e) => resolve_jobs_spec(raw_jobs_view(raws@)) == Err::<Seq<JobModel>, ConfigError>(
                e,
            ),
        },
{
    let ghost rs = raw_jobs_view(raws@);
    let mut jobs: Vec<HttpJob> = Vec::new();
    let mut i: usize = 0;
    while i < raws.len()
        invariant
            i <= raws@.len(),
            rs == raw_jobs_view(raws@),
            forall|j: int| 0 <= j < i ==> (#[trigger] resolve_job_spec(rs[j])) is Ok,
            jobs_view(jobs@) == rs.subrange(0, i as int).map_values(
                |r: RawJobModel| resolve_job_spec(r)->Ok_0,
            ),
        decreases raws@.len() - i,
    {
        assert(rs[i as int] == raws@[i as int]@);
        match resolve_job(&raws[i]) {
            Ok(job) => {
                let ghost before = jobs@;
                jobs.push(job);
                proof {
                    assert(rs.subrange(0, i + 1) =~= rs.subrange(0, i as int).push(rs[i as int]));
                    assert(jobs_view(jobs@) =~= jobs_view(before).push(job@));
                    assert(rs.subrange(0, i + 1).map_values(
                        |r: RawJobModel| resolve_job_spec(r)->Ok_0,
                    ) =~= rs.subrange(0, i as int).map_values(
                        |r: RawJobModel| resolve_job_spec(r)->Ok_0,
                    ).push(resolve_job_spec(rs[i as int])->Ok_0));
                }
            },
            Err(e) => {
                proof {
                    let k = choose|k: int|
                        0 <= k < rs.len() && (#[trigger] resolve_job_spec(rs[k])) is Err
                            && forall|j: int|
                            0 <= j < k ==> (#[trigger] resolve_job_spec(rs[j])) is Ok;
                    assert(0 <= i < rs.len() && resolve_job_spec(rs[i as int]) is Err
                        && forall|j: int| 0 <= j < i ==> (#[trigger] resolve_job_spec(rs[j])) is Ok);
                    if k < i {
                        assert(resolve_job_spec(rs[k]) is Ok);
                    } else if k > i {
                        assert(resolve_job_spec(rs[i as int]) is Ok);
                    }
                }
                return Err(ConfigError::Job { index: i, error: e });
            },
        }
        i = i + 1;
    }
    proof {
        assert(rs.subrange(0, i as int) =~= rs);
        assert(!exists|k: int| 0 <= k < rs.len() && (#[trigger] resolve_job_spec(rs[k])) is Err);
    }
    Ok(jobs)
}

/// A definition entry that gives only a name, a cron expression and a request URL
/// resolves to an enabled job with a 5000 ms timeout, three attempts and method GET.
pub proof fn lemma_minimal_entry_defaults(raw: RawJobModel)
    requires
        raw.name is Given,
        raw.cron is Given,
        raw.enable is Absent,
        raw.timeout is Absent,
        raw.max_retry is Absent,
        raw.request is Given,
        raw.request->Given_0.url matches RawField::Given(u) && u.len() > 0,
        raw.request->Given_0.method is Absent,
        raw.request->Given_0.headers is Absent,
        raw.request->Given_0.body is Absent,
    ensures
        resolve_job_spec(raw) is Ok,
        resolve_job_spec(raw)->Ok_0.name == raw.name->Given_0,
        resolve_job_spec(raw)->Ok_0.cron == raw.cron->Given_0,
        resolve_job_spec(raw)->Ok_0.enable,
        resolve_job_spec(raw)->Ok_0.timeout == 5000,
        resolve_job_spec(raw)->Ok_0.max_retry == 3,
        resolve_job_spec(raw)->Ok_0.request.url == raw.request->Given_0.url->Given_0,
        resolve_job_spec(raw)->Ok_0.request.method == seq!['G', 'E', 'T'],
        resolve_job_spec(raw)->Ok_0.request.headers is None,
        resolve_job_spec(raw)->Ok_0.request.body is None,
{
}

} // verus!
