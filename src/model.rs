use vstd::prelude::*;

verus! {

/// A header as a name and a value, both as text.
pub type HeaderModel = (Seq<char>, Seq<char>);

/// The view of a request template.
pub struct RequestModel {
    pub url: Seq<char>,
    pub method: Seq<char>,
    pub headers: Option<Seq<HeaderModel>>,
    pub body: Option<Seq<char>>,
}

/// The view of a job.
pub struct JobModel {
    pub name: Seq<char>,
    pub enable: bool,
    pub cron: Seq<char>,
    pub timeout: u64,
    pub max_retry: u64,
    pub request: RequestModel,
}

pub open spec fn header_view(h: (String, String)) -> HeaderModel {
    (h.0@, h.1@)
}

pub open spec fn headers_view(hs: Seq<(String, String)>) -> Seq<HeaderModel> {
    hs.map_values(|h: (String, String)| header_view(h))
}

pub open spec fn opt_text_view(s: Option<String>) -> Option<Seq<char>> {
    match s {
        Some(t) => Some(t@),
        None => None,
    }
}

/// The HTTP request that a job sends.
#[derive(Clone, Debug)]
pub struct HttpJobRequest {
    pub url: String,
    pub method: String,
    pub headers: Option<Vec<(String, String)>>,
    pub body: Option<String>,
}

impl View for HttpJobRequest {
    type V = RequestModel;

    open spec fn view(&self) -> RequestModel {
        RequestModel {
            url: self.url@,
            method: self.method@,
            headers: match self.headers {
                Some(hs) => Some(headers_view(hs@)),
                None => None,
            },
            body: opt_text_view(self.body),
        }
    }
}

impl HttpJobRequest {
    pub fn new(url: String, method: String, headers: Option<Vec<(String, String)>>, body: Option<String>) -> (r: HttpJobRequest)
        ensures
            r.url == url,
            r.method == method,
            r.headers == headers,
            r.body == body,
    {
        HttpJobRequest { url, method, headers, body }
    }
}

/// A named, cron-scheduled HTTP request with its timeout and retry budget.
#[derive(Clone, Debug)]
pub struct HttpJob {
    pub name: String,
    pub enable: bool,
    pub cron: String,
    /// Per-attempt timeout, in milliseconds.
    pub timeout: u64,
    /// Most send attempts per firing.
    pub max_retry: u64,
    pub request: HttpJobRequest,
}

impl View for HttpJob {
    type V = JobModel;

    open spec fn view(&self) -> JobModel {
        JobModel {
            name: self.name@,
            enable: self.enable,
            cron: self.cron@,
            timeout: self.timeout,
            max_retry: self.max_retry,
            request: self.request@,
        }
    }
}

impl HttpJob {
    pub fn new(
        name: String,
        enable: bool,
        cron: String,
        timeout: u64,
        max_retry: u64,
        request: HttpJobRequest,
    ) -> (r: HttpJob)
        ensures
            r.name == name,
            r.enable == enable,
            r.cron == cron,
            r.timeout == timeout,
            r.max_retry == max_retry,
            r.request == request,
    {
        HttpJob { name, enable, cron, timeout, max_retry, request }
    }
}

pub open spec fn jobs_view(js: Seq<HttpJob>) -> Seq<JobModel> {
    js.map_values(|j: HttpJob| j@)
}

/// The job registry: every configured job and the one timezone they are evaluated in.
#[derive(Clone, Debug)]
pub struct Jobs {
    /// The IANA name of the zone.
    pub timezone: String,
    pub http_jobs: Vec<HttpJob>,
}

impl Jobs {
    pub fn new(timezone: String, http_jobs: Vec<HttpJob>) -> (r: Jobs)
        ensures
            r.timezone == timezone,
            r.http_jobs == http_jobs,
    {
        Jobs { timezone, http_jobs }
    }
}

} // verus!
