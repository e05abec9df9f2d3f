use rjob::method::HttpMethod;
use rjob::model::{HttpJob, HttpJobRequest};
use rjob::request::prepare_request;
use rjob::schedule::{plan_schedule, PlanEntry};

fn header(k: &str, v: &str) -> (String, String) {
    (k.to_string(), v.to_string())
}

#[test]
fn body_forces_json_content_type() {
    let req = HttpJobRequest::new(
        "http://localhost/a".to_string(),
        "put".to_string(),
        Some(vec![header("content-TYPE", "text/plain"), header("X-A", "1")]),
        Some("{}".to_string()),
    );
    let p = prepare_request(&req);
    assert_eq!(p.method, HttpMethod::Put);
    assert_eq!(p.url, "http://localhost/a");
    assert_eq!(p.body, Some("{}".to_string()));
    assert_eq!(p.headers, vec![header("X-A", "1"), header("Content-Type", "application/json")]);
}

#[test]
fn without_body_headers_are_kept() {
    let req = HttpJobRequest::new(
        "u".to_string(),
        "x".to_string(),
        Some(vec![header("Content-Type", "text/plain")]),
        None,
    );
    let p = prepare_request(&req);
    assert_eq!(p.method, HttpMethod::Get);
    assert_eq!(p.headers, vec![header("Content-Type", "text/plain")]);
    assert_eq!(p.body, None);
    let bare = HttpJobRequest::new("u".to_string(), "GET".to_string(), None, None);
    assert!(prepare_request(&bare).headers.is_empty());
}

fn job(name: &str, enable: bool, cron: &str) -> HttpJob {
    let req = HttpJobRequest::new("u".to_string(), "GET".to_string(), None, None);
    HttpJob::new(name.to_string(), enable, cron.to_string(), 5000, 3, req)
}

#[test]
fn disabled_jobs_are_never_scheduled() {
    let jobs = vec![
        job("a", true, "0 * * * * *"),
        job("b", false, "0 * * * * *"),
        job("c", true, "not a cron"),
        job("d", false, "not a cron"),
        job("e", true, "*/5 * * * * *"),
    ];
    assert_eq!(
        plan_schedule(&jobs),
        vec![PlanEntry::Schedule(0), PlanEntry::InvalidCron(2), PlanEntry::Schedule(4)]
    );
    assert!(plan_schedule(&vec![job("x", false, "0 * * * * *")]).is_empty());
}
