use rjob::config::{ConfigError, JobError};
use rjob::config::RawField;
use rjob::document::{get_http_jobs, get_value, init_read_jobs, read_raw_config, RawConfig};
use rjob::model::Jobs;
use rjob::source::{get_file_extension, jobs_file_names, select_jobs_file, FileContent};
use rjob::timezone::{resolve_timezone, TimezoneSource};

fn load_registry(content: &FileContent) -> Result<(Jobs, TimezoneSource), ConfigError> {
    let value = get_value(content)?;
    init_read_jobs(&read_raw_config(&value))
}

const MINIMAL_JSON: &str =
    r#"{"http_jobs": [{"name": "ping", "cron": "0 * * * * *", "request": {"url": "https://example.com"}}]}"#;

#[test]
fn minimal_json_definition_takes_defaults() {
    let (jobs, source) = load_registry(&FileContent::Json(MINIMAL_JSON.to_string())).unwrap();
    assert_eq!(source, TimezoneSource::DefaultMissing);
    assert_eq!(jobs.timezone, "UTC");
    assert_eq!(jobs.http_jobs.len(), 1);
    let job = &jobs.http_jobs[0];
    assert_eq!(job.name, "ping");
    assert_eq!(job.cron, "0 * * * * *");
    assert!(job.enable);
    assert_eq!(job.timeout, 5000);
    assert_eq!(job.max_retry, 3);
    assert_eq!(job.request.method, "GET");
    assert_eq!(job.request.url, "https://example.com");
}

#[test]
fn yaml_definition_with_all_fields() {
    let text = "timezone: Asia/Shanghai\nhttp_jobs:\n  - name: push\n    enable: false\n    cron: \"*/5 * * * * *\"\n    timeout: 1000\n    max_retry: 5\n    request:\n      url: http://localhost/x\n      method: POST\n      headers:\n        X-Key: abc\n      body:\n        a: 1\n";
    let (jobs, source) = load_registry(&FileContent::Yaml(text.to_string())).unwrap();
    assert_eq!(source, TimezoneSource::Configured);
    assert_eq!(jobs.timezone, "Asia/Shanghai");
    let job = &jobs.http_jobs[0];
    assert!(!job.enable);
    assert_eq!(job.timeout, 1000);
    assert_eq!(job.max_retry, 5);
    assert_eq!(job.request.method, "POST");
    assert_eq!(job.request.headers, Some(vec![("X-Key".to_string(), "abc".to_string())]));
    assert_eq!(job.request.body, Some("{\"a\":1}".to_string()));
}

#[test]
fn unknown_timezone_falls_back_to_utc() {
    let text = r#"{"timezone": "Mars/Base", "http_jobs": [{"name": "a", "cron": "0 * * * * *", "request": {"url": "u"}}]}"#;
    let (jobs, source) = load_registry(&FileContent::Json(text.to_string())).unwrap();
    assert_eq!(source, TimezoneSource::DefaultInvalid);
    assert_eq!(jobs.timezone, "UTC");
    assert_eq!(resolve_timezone(Some("Europe/Paris")).0, "Europe/Paris");
    assert_eq!(resolve_timezone(Some("europe/paris")).0, "UTC");
    assert_eq!(resolve_timezone(None).0, "UTC");
    assert_eq!(resolve_timezone(None).1, TimezoneSource::DefaultMissing);
}

#[test]
fn definition_errors() {
    let load = |t: &str| load_registry(&FileContent::Json(t.to_string())).unwrap_err();
    assert_eq!(load("{not json"), ConfigError::InvalidJson);
    assert_eq!(load("{}"), ConfigError::MissingJobsField);
    assert_eq!(load(r#"{"http_jobs": 3}"#), ConfigError::JobsNotList);
    assert_eq!(load(r#"{"http_jobs": []}"#), ConfigError::NoJobs);
    assert_eq!(
        load(r#"{"http_jobs": [{"cron": "0 * * * * *", "request": {"url": "u"}}]}"#),
        ConfigError::Job { index: 0, error: JobError::MissingName }
    );
    assert_eq!(
        load(r#"{"http_jobs": [{"name": "a", "cron": "c", "request": {"url": "u", "headers": {"X-A": 1}}}]}"#),
        ConfigError::Job { index: 0, error: JobError::HeaderValueNotText }
    );
    assert_eq!(load_registry(&FileContent::NotFound).unwrap_err(), ConfigError::NoJobsFile);
    assert_eq!(
        load_registry(&FileContent::Yml("a: [".to_string())).unwrap_err(),
        ConfigError::InvalidYaml
    );
    assert!(get_value(&FileContent::Json("[1, 2]".to_string())).is_ok());
}

#[test]
fn wrongly_typed_document_fields_fail_the_load() {
    let load = |t: &str| load_registry(&FileContent::Json(t.to_string())).unwrap_err();
    let bad = JobError::InvalidFieldType;
    assert_eq!(
        load(r#"{"http_jobs": [{"name": "a", "cron": "c", "enable": "yes", "request": {"url": "u"}}]}"#),
        ConfigError::Job { index: 0, error: bad }
    );
    assert_eq!(
        load(r#"{"http_jobs": [{"name": "a", "cron": "c", "timeout": -1, "request": {"url": "u"}}]}"#),
        ConfigError::Job { index: 0, error: bad }
    );
    assert_eq!(
        load(r#"{"http_jobs": [{"name": "a", "cron": "c", "request": {"url": "u", "method": 1}}]}"#),
        ConfigError::Job { index: 0, error: bad }
    );
    assert_eq!(
        load(r#"{"http_jobs": [{"name": "a", "cron": "c", "request": {"url": ""}}]}"#),
        ConfigError::Job { index: 0, error: JobError::MissingUrl }
    );
}

#[test]
fn http_jobs_field_errors() {
    let none = RawConfig { timezone: None, http_jobs: RawField::Absent };
    assert_eq!(get_http_jobs(&none).unwrap_err(), ConfigError::MissingJobsField);
    let wrong = RawConfig { timezone: None, http_jobs: RawField::WrongType };
    assert_eq!(get_http_jobs(&wrong).unwrap_err(), ConfigError::JobsNotList);
    let empty = RawConfig { timezone: Some("UTC".to_string()), http_jobs: RawField::Given(vec![]) };
    assert!(get_http_jobs(&empty).unwrap().is_empty());
    assert_eq!(init_read_jobs(&empty).unwrap_err(), ConfigError::NoJobs);
}

#[test]
fn file_extensions_choose_the_format() {
    assert_eq!(get_file_extension("./jobs.yaml"), Some("yaml"));
    assert_eq!(get_file_extension("./jobs.yml"), Some("yml"));
    assert_eq!(get_file_extension("./jobs"), None);
    assert!(matches!(FileContent::from("x".to_string(), "./jobs.json"), FileContent::Json(_)));
    assert!(matches!(FileContent::from("x".to_string(), "./jobs.yaml"), FileContent::Yaml(_)));
    assert!(matches!(FileContent::from("x".to_string(), "./jobs.yml"), FileContent::Yml(_)));
    assert!(matches!(FileContent::from("x".to_string(), "./jobs.txt"), FileContent::Json(_)));
    assert!(matches!(FileContent::new_none(), FileContent::NotFound));
}

#[test]
fn exactly_one_definition_file_is_required() {
    assert_eq!(jobs_file_names(), vec!["./jobs.json", "./jobs.yaml", "./jobs.yml"]);
    assert_eq!(select_jobs_file(&vec![false, true, false]), Ok(1));
    assert_eq!(select_jobs_file(&vec![false, false, false]), Err(ConfigError::NoJobsFile));
    assert_eq!(select_jobs_file(&vec![true, false, true]), Err(ConfigError::MultipleJobsFiles));
}
