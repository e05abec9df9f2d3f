use rjob::config::{
    resolve_job, resolve_jobs, ConfigError, JobError, RawField, RawJob, RawRequest, DEFAULT_MAX_RETRY,
    DEFAULT_TIMEOUT_MS,
};

fn minimal_request() -> RawRequest {
    RawRequest {
        url: RawField::Given("https://example.com".to_string()),
        method: RawField::Absent,
        headers: RawField::Absent,
        body: RawField::Absent,
    }
}

fn minimal_job() -> RawJob {
    RawJob {
        name: RawField::Given("ping".to_string()),
        enable: RawField::Absent,
        cron: RawField::Given("0 * * * * *".to_string()),
        timeout: RawField::Absent,
        max_retry: RawField::Absent,
        request: RawField::Given(minimal_request()),
    }
}

#[test]
fn minimal_entry_takes_defaults() {
    let job = resolve_job(&minimal_job()).unwrap();
    assert_eq!(job.name, "ping");
    assert!(job.enable);
    assert_eq!(job.timeout, 5000);
    assert_eq!(job.max_retry, 3);
    assert_eq!(DEFAULT_TIMEOUT_MS, 5000);
    assert_eq!(DEFAULT_MAX_RETRY, 3);
    assert_eq!(job.request.method, "GET");
    assert_eq!(job.request.url, "https://example.com");
    assert!(job.request.headers.is_none());
    assert!(job.request.body.is_none());
}

#[test]
fn configured_fields_are_kept() {
    let mut raw = minimal_job();
    raw.enable = RawField::Given(false);
    raw.timeout = RawField::Given(100);
    raw.max_retry = RawField::Given(0);
    let mut req = minimal_request();
    req.method = RawField::Given("post".to_string());
    req.body = RawField::Given("{\"a\":1}".to_string());
    req.headers = RawField::Given(vec![("X-Token".to_string(), Some("abc".to_string()))]);
    raw.request = RawField::Given(req);
    let job = resolve_job(&raw).unwrap();
    assert!(!job.enable);
    assert_eq!(job.timeout, 100);
    assert_eq!(job.max_retry, 0);
    assert_eq!(job.request.method, "post");
    assert_eq!(job.request.body, Some("{\"a\":1}".to_string()));
    assert_eq!(job.request.headers, Some(vec![("X-Token".to_string(), "abc".to_string())]));
}

#[test]
fn missing_required_fields_are_errors() {
    let mut raw = minimal_job();
    raw.name = RawField::Absent;
    assert_eq!(resolve_job(&raw).unwrap_err(), JobError::MissingName);
    let mut raw = minimal_job();
    raw.name = RawField::WrongType;
    assert_eq!(resolve_job(&raw).unwrap_err(), JobError::MissingName);
    let mut raw = minimal_job();
    raw.cron = RawField::Absent;
    assert_eq!(resolve_job(&raw).unwrap_err(), JobError::MissingCron);
    let mut raw = minimal_job();
    raw.request = RawField::Absent;
    assert_eq!(resolve_job(&raw).unwrap_err(), JobError::MissingRequest);
    let mut raw = minimal_job();
    raw.request = RawField::Given(RawRequest { url: RawField::Absent, ..minimal_request() });
    assert_eq!(resolve_job(&raw).unwrap_err(), JobError::MissingUrl);
}

#[test]
fn empty_url_is_an_error() {
    let mut raw = minimal_job();
    raw.request = RawField::Given(RawRequest { url: RawField::Given(String::new()), ..minimal_request() });
    assert_eq!(resolve_job(&raw).unwrap_err(), JobError::MissingUrl);
}

#[test]
fn wrongly_typed_fields_are_errors() {
    let mut raw = minimal_job();
    raw.enable = RawField::WrongType;
    assert_eq!(resolve_job(&raw).unwrap_err(), JobError::InvalidFieldType);
    let mut raw = minimal_job();
    raw.timeout = RawField::WrongType;
    assert_eq!(resolve_job(&raw).unwrap_err(), JobError::InvalidFieldType);
    let mut raw = minimal_job();
    raw.max_retry = RawField::WrongType;
    assert_eq!(resolve_job(&raw).unwrap_err(), JobError::InvalidFieldType);
    let mut raw = minimal_job();
    raw.request = RawField::WrongType;
    assert_eq!(resolve_job(&raw).unwrap_err(), JobError::InvalidFieldType);
    let mut raw = minimal_job();
    raw.request = RawField::Given(RawRequest { method: RawField::WrongType, ..minimal_request() });
    assert_eq!(resolve_job(&raw).unwrap_err(), JobError::InvalidFieldType);
    let mut raw = minimal_job();
    raw.request = RawField::Given(RawRequest { body: RawField::WrongType, ..minimal_request() });
    assert_eq!(resolve_job(&raw).unwrap_err(), JobError::InvalidFieldType);
}

#[test]
fn bad_headers_are_errors() {
    let with_headers = |hs: Vec<(String, Option<String>)>| {
        let mut raw = minimal_job();
        let mut req = minimal_request();
        req.headers = RawField::Given(hs);
        raw.request = RawField::Given(req);
        resolve_job(&raw)
    };
    assert_eq!(
        with_headers(vec![("bad name".to_string(), Some("v".to_string()))]).unwrap_err(),
        JobError::InvalidHeaderName
    );
    assert_eq!(with_headers(vec![("X-A".to_string(), None)]).unwrap_err(), JobError::HeaderValueNotText);
    assert_eq!(
        with_headers(vec![("X-A".to_string(), Some("a\nb".to_string()))]).unwrap_err(),
        JobError::InvalidHeaderValue
    );
    assert!(with_headers(vec![("X-A".to_string(), Some("tab\there".to_string()))]).is_ok());
}

#[test]
fn first_bad_entry_is_reported_with_its_index() {
    let mut bad = minimal_job();
    bad.cron = RawField::Absent;
    let raws = vec![minimal_job(), bad, RawJob { name: RawField::Absent, ..minimal_job() }];
    assert_eq!(
        resolve_jobs(&raws).unwrap_err(),
        ConfigError::Job { index: 1, error: JobError::MissingCron }
    );
    assert_eq!(resolve_jobs(&vec![minimal_job(), minimal_job()]).unwrap().len(), 2);
}
