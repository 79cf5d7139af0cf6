use z_osmf::request::{Body, JsonValue, Method, Request};
use z_osmf::jobs::files::read::{JobFileId, JobFileRead};
use z_osmf::jobs::list_files::ListJobFilesBuilder;
use z_osmf::jobs::submit::{JclData, JobNotificationEvent, JobRecordFormat, JobSource};
use z_osmf::jobs::JobIdentifier;
use z_osmf::utils::{NonZeroU32, RecordRange};
use z_osmf::ZOsmf;
use z_osmf::Error;

fn get_zosmf() -> ZOsmf {
    ZOsmf::new("https://test.com")
}

fn name_id(name: &str, id: &str) -> JobIdentifier {
    JobIdentifier::NameId(name.to_string(), id.to_string())
}

#[test]
fn display_job_identifier() {
    assert_eq!(JobIdentifier::Correlator("ABCD1234".to_string()).to_string(), "ABCD1234");
}

#[test]
fn job_identifier_round_trip() {
    let j = name_id("TESTJOBW", "JOB00023");
    assert_eq!(j.to_string(), "TESTJOBW/JOB00023");
    assert_eq!(JobIdentifier::from_str(&j.to_string()).unwrap(), j);
    assert!(JobIdentifier::from_str("A/B/C").is_err());
}

#[test]
fn class_example_1() {
    let request = get_zosmf().jobs().change_class(name_id("TESTJOBW", "JOB00023"), 'A').get_request();
    assert_request(&request, Method::Put, "https://test.com/zosmf/restjobs/jobs/TESTJOBW/JOB00023", &[], &[]);
    assert_eq!(json_of(&request), Some(parse_json(r#"{"class": "A", "version": "2.0"}"#)));
}

#[test]
fn class_subsystem() {
    let request = get_zosmf()
        .jobs()
        .change_class(name_id("TESTJOBW", "JOB00023"), 'A')
        .subsystem("somesys")
        .get_request();
    assert_request(&request, Method::Put, "https://test.com/zosmf/restjobs/jobs/-somesys/TESTJOBW/JOB00023", &[], &[]);
    assert_eq!(json_of(&request), Some(parse_json(r#"{"class": "A", "version": "2.0"}"#)));
}

#[test]
fn cancel_example_1() {
    let request = get_zosmf().jobs().cancel(name_id("TESTJOB2", "JOB00084")).get_request();
    assert_request(&request, Method::Put, "https://test.com/zosmf/restjobs/jobs/TESTJOB2/JOB00084", &[], &[]);
    assert_eq!(json_of(&request), Some(parse_json(r#"{"request": "cancel", "version": "2.0"}"#)));
}

#[test]
fn hold_example_1() {
    let request = get_zosmf().jobs().hold(name_id("TESTJOBW", "JOB00023")).get_request();
    assert_request(&request, Method::Put, "https://test.com/zosmf/restjobs/jobs/TESTJOBW/JOB00023", &[], &[]);
    assert_eq!(json_of(&request), Some(parse_json(r#"{"request": "hold", "version": "2.0"}"#)));
}

#[test]
fn release_example_1() {
    let request = get_zosmf().jobs().release(name_id("TESTJOBW", "JOB00023")).get_request();
    assert_request(&request, Method::Put, "https://test.com/zosmf/restjobs/jobs/TESTJOBW/JOB00023", &[], &[]);
    assert_eq!(json_of(&request), Some(parse_json(r#"{"request": "release", "version": "2.0"}"#)));
}

#[test]
fn asynchronous_feedback_version() {
    let request = get_zosmf().jobs().release(name_id("TESTJOBW", "JOB00023")).asynchronous().get_request();
    assert_eq!(json_of(&request), Some(parse_json(r#"{"request": "release", "version": "1.0"}"#)));
}

#[test]
fn job_files_1() {
    let request = get_zosmf().jobs().list_files(name_id("TESTJOB1", "JOB00023")).get_request();
    assert_request(&request, Method::Get, "https://test.com/zosmf/restjobs/jobs/TESTJOB1/JOB00023/files", &[], &[]);
}

#[test]
fn list_job_files_paths() {
    let r = ListJobFilesBuilder::new("https://test.com".to_string(), name_id("TESTJOB1", "JOB00023")).get_request();
    assert_request(&r, Method::Get, "https://test.com/zosmf/restjobs/jobs/TESTJOB1/JOB00023/files", &[], &[]);
    let r = ListJobFilesBuilder::new("https://test.com".to_string(), JobIdentifier::Correlator("C1".to_string()))
        .subsystem("JES2")
        .get_request();
    assert_request(&r, Method::Get, "https://test.com/zosmf/restjobs/jobs/-JES2/C1/files", &[], &[]);
}

#[test]
fn read_1() {
    let request = get_zosmf().jobs().read_file(name_id("TESTJOBJ", "JOB00023"), JobFileId::Id(1)).get_request().unwrap();
    assert_request(
        &request,
        Method::Get,
        "https://test.com/zosmf/restjobs/jobs/TESTJOBJ/JOB00023/files/1/records",
        &[],
        &[],
    );
}

#[test]
fn read_2() {
    let request = get_zosmf()
        .jobs()
        .read_file(name_id("TESTJOBJ", "JOB00023"), JobFileId::Id(8))
        .record_range(RecordRange::from_str("0-249").unwrap())
        .get_request()
        .unwrap();
    assert_request(
        &request,
        Method::Get,
        "https://test.com/zosmf/restjobs/jobs/TESTJOBJ/JOB00023/files/8/records",
        &[],
        &[("X-IBM-Record-Range", "0-249")],
    );
}

#[test]
fn read_3() {
    let request = get_zosmf().jobs().read_file(name_id("TESTJOBJ", "JOB00060"), JobFileId::Jcl).get_request().unwrap();
    assert_request(
        &request,
        Method::Get,
        "https://test.com/zosmf/restjobs/jobs/TESTJOBJ/JOB00060/files/JCL/records",
        &[],
        &[],
    );
}

#[test]
fn read_search_case_sensitive() {
    let refused = get_zosmf()
        .jobs()
        .read_file(name_id("TESTJOBJ", "JOB00023"), JobFileId::Id(2))
        .search("ABC")
        .search_case_sensitive(true)
        .get_request();
    assert!(matches!(refused, Err(Error::Query(ref m)) if m == "unsupported pair"));
    let request = get_zosmf()
        .jobs()
        .read_file(name_id("TESTJOBJ", "JOB00023"), JobFileId::Id(2))
        .search("ABC")
        .search_case_sensitive(false)
        .get_request()
        .unwrap();
    assert_request(
        &request,
        Method::Get,
        "https://test.com/zosmf/restjobs/jobs/TESTJOBJ/JOB00023/files/2/records",
        &[("search", "ABC")],
        &[],
    );
}

#[test]
fn jobs_list_example_1() {
    let request = get_zosmf().jobs().list().owner("IBMUSER").prefix("TESTJOB*").exec_data().get_request();
    assert_request(
        &request,
        Method::Get,
        "https://test.com/zosmf/restjobs/jobs",
        &[("owner", "IBMUSER"), ("prefix", "TESTJOB*"), ("exec-data", "Y")],
        &[],
    );
}

#[test]
fn list_subsystem() {
    let request = get_zosmf().jobs().list().subsystem("somesys").get_request();
    assert_request(&request, Method::Get, "https://test.com/zosmf/restjobs/jobs/-somesys", &[], &[]);
}

#[test]
fn purge_example_1() {
    let request = get_zosmf().jobs().cancel_and_purge(name_id("TESTJOBW", "JOB00085")).get_request();
    assert_request(
        &request,
        Method::Delete,
        "https://test.com/zosmf/restjobs/jobs/TESTJOBW/JOB00085",
        &[],
        &[("X-IBM-Job-Modify-Version", "2.0")],
    );
}

#[test]
fn status_example_1() {
    let request = get_zosmf().jobs().status(name_id("BLSJPRMI", "STC00052")).exec_data().get_request();
    assert_request(
        &request,
        Method::Get,
        "https://test.com/zosmf/restjobs/jobs/BLSJPRMI/STC00052",
        &[("exec-data", "Y")],
        &[],
    );
}

const JCL: &str = r#"//TESTJOBX JOB (),MSGCLASS=H
        // EXEC PGM=IEFBR14
        "#;

#[test]
fn submit_example_1() {
    let request = get_zosmf()
        .jobs()
        .submit(JobSource::Jcl(JclData::Text(JCL.to_string())))
        .message_class('A')
        .record_format(JobRecordFormat::Fixed)
        .record_length(80)
        .get_request();
    assert_request(
        &request,
        Method::Put,
        "https://test.com/zosmf/restjobs/jobs",
        &[],
        &[
            ("X-IBM-Intrdr-Class", "A"),
            ("X-IBM-Intrdr-Recfm", "F"),
            ("X-IBM-Intrdr-Lrecl", "80"),
            ("Content-Type", "text/plain"),
            ("X-IBM-Intrdr-Mode", "TEXT"),
        ],
    );
    match &request.body {
        Body::Text(t) => assert_eq!(t, JCL),
        _ => panic!("the body is not text"),
    }
}

#[test]
fn notification_events() {
    let request = get_zosmf()
        .jobs()
        .submit(JobSource::Jcl(JclData::Text(JCL.to_string())))
        .notification_events(vec![JobNotificationEvent::Active, JobNotificationEvent::Ready])
        .get_request();
    assert_request(
        &request,
        Method::Put,
        "https://test.com/zosmf/restjobs/jobs",
        &[],
        &[
            ("Content-Type", "text/plain"),
            ("X-IBM-Intrdr-Mode", "TEXT"),
            ("X-IBM-Notification-Options", r#"{"events": ["active", "ready"]}"#),
        ],
    );
    match &request.body {
        Body::Text(t) => assert_eq!(t, JCL),
        _ => panic!("the body is not text"),
    }
}

#[test]
fn submit_dataset_with_symbols() {
    let request = get_zosmf()
        .jobs()
        .submit(JobSource::Dataset("IBMUSER.JCL(TEST)".to_string()))
        .symbols(vec![("A".to_string(), "1".to_string()), ("B".to_string(), "2".to_string())])
        .subsystem("JES2")
        .get_request();
    assert_request(
        &request,
        Method::Put,
        "https://test.com/zosmf/restjobs/jobs/-JES2",
        &[],
        &[("X-IBM-JCL-Symbol-A", "1"), ("X-IBM-JCL-Symbol-B", "2"), ("Content-Type", "application/json")],
    );
    assert_eq!(json_of(&request), Some(parse_json(r#"{"file": "//'IBMUSER.JCL(TEST)'"}"#)));
}

#[test]
fn notification_events_repeated_once() {
    let request = get_zosmf()
        .jobs()
        .submit(JobSource::Jcl(JclData::Text(JCL.to_string())))
        .notification_events(vec![JobNotificationEvent::Ready, JobNotificationEvent::Active, JobNotificationEvent::Ready])
        .get_request();
    let h: Vec<_> = request.headers.iter().filter(|(n, _)| n == "X-IBM-Notification-Options").collect();
    assert_eq!(h.len(), 1);
    assert_eq!(h[0].1, r#"{"events": ["active", "ready"]}"#);
}

#[test]
fn test_record_range_into_header_value() {
    assert_eq!(RecordRange::StartEnd(Some(0), 249).to_header_value(), "0-249");
    assert_eq!(RecordRange::StartEnd(None, 249).to_header_value(), "-249");
    assert_eq!(RecordRange::StartCount(0, NonZeroU32::new(1).unwrap()).to_header_value(), "0,1");
}

#[test]
fn test_record_range_from_str() {
    let record_range = RecordRange::from_str("0-249").unwrap();
    assert_eq!(record_range, RecordRange::StartEnd(Some(0), 249));

    let record_range = RecordRange::from_str("-249").unwrap();
    assert_eq!(record_range, RecordRange::StartEnd(None, 249));

    let record_range = RecordRange::from_str("0,1").unwrap();
    assert_eq!(record_range, RecordRange::StartCount(0, NonZeroU32::new(1).unwrap()));

    assert!(RecordRange::from_str("-NONSENSE").is_err());

    assert!(RecordRange::from_str("NON-249").is_err());

    assert!(RecordRange::from_str("0-SENSE").is_err());

    assert!(RecordRange::from_str("NON,1").is_err());

    assert!(RecordRange::from_str("0,SENSE").is_err());

    assert!(RecordRange::from_str("NONSENSE").is_err());
}

#[test]
fn record_range_round_trip() {
    for r in [
        RecordRange::StartEnd(Some(7), 12),
        RecordRange::StartEnd(None, 0),
        RecordRange::StartCount(4294967295, NonZeroU32::new(3).unwrap()),
    ] {
        assert_eq!(RecordRange::from_str(&r.to_header_value()).unwrap(), r);
    }
}

#[test]
fn record_range_zero_count_is_refused() {
    assert!(RecordRange::from_str("0,0").is_err());
}

fn to_value(j: &JsonValue) -> serde_json::Value {
    match j {
        JsonValue::Null => serde_json::Value::Null,
        JsonValue::Bool(b) => serde_json::Value::Bool(*b),
        JsonValue::Str(s) => serde_json::Value::String(s.clone()),
        JsonValue::Array(items) => serde_json::Value::Array(items.iter().map(to_value).collect()),
        JsonValue::Object(members) => {
            let mut m = serde_json::Map::new();
            for (k, v) in members {
                m.insert(k.clone(), to_value(v));
            }
            serde_json::Value::Object(m)
        }
    }
}

fn json_of(r: &Request) -> Option<serde_json::Value> {
    match &r.body {
        Body::Json(j) => Some(to_value(j)),
        _ => None,
    }
}

fn parse_json(s: &str) -> serde_json::Value {
    serde_json::from_str(s).unwrap()
}

fn pairs(v: &[(&str, &str)]) -> Vec<(String, String)> {
    v.iter().map(|(a, b)| (a.to_string(), b.to_string())).collect()
}

fn lower_names(v: &[(String, String)]) -> Vec<(String, String)> {
    v.iter().map(|(a, b)| (a.to_lowercase(), b.clone())).collect()
}

fn assert_request(r: &Request, method: Method, url: &str, query: &[(&str, &str)], headers: &[(&str, &str)]) {
    assert_eq!(r.method, method);
    assert_eq!(r.url, url);
    assert_eq!(r.query, pairs(query));
    assert_eq!(lower_names(&r.headers), lower_names(&pairs(headers)));
}

#[test]
fn read_data_type_keeps_request() {
    let base = get_zosmf()
        .jobs()
        .read_file(name_id("TESTJOBJ", "JOB00023"), JobFileId::Id(3))
        .record_range(RecordRange::from_str("10-19").unwrap())
        .text()
        .encoding("IBM-1047")
        .search("ERR");
    let text = base.clone().get_request().unwrap();
    let record = base.clone().record().get_request().unwrap();
    let binary = base.binary().get_request().unwrap();
    let url = "https://test.com/zosmf/restjobs/jobs/TESTJOBJ/JOB00023/files/3/records";
    let header = [("X-IBM-Record-Range", "10-19")];
    assert_request(&text, Method::Get, url, &[("mode", "text"), ("fileEncoding", "IBM-1047"), ("search", "ERR")], &header);
    assert_request(&record, Method::Get, url, &[("mode", "record"), ("fileEncoding", "IBM-1047"), ("search", "ERR")], &header);
    assert_request(&binary, Method::Get, url, &[("mode", "binary"), ("fileEncoding", "IBM-1047"), ("search", "ERR")], &header);
}

#[test]
fn read_answer_keeps_body() {
    let text = JobFileRead::from_text("line 1\n  line 2 \n".to_string());
    assert_eq!(text.data(), "line 1\n  line 2 \n");
    let bytes = JobFileRead::from_bytes(vec![0u8, 193, 255]);
    assert_eq!(bytes.data(), &vec![0u8, 193, 255]);
}
