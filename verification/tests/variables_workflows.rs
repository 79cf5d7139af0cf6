use z_osmf::request::{Body, JsonValue, Method, Request};
use z_osmf::jobs_core::Identifier;
use z_osmf::system_variables::create::NewSystemVariable;
use z_osmf::system_variables::list::SystemId;
use z_osmf::variables::create::{NewVariable, NewVariableBuilder};
use z_osmf::workflows::create::WorkflowVariableOverride;
use z_osmf::workflows::start::WorkflowStartResolveVariableConflict;
use z_osmf::workflows::{ReturnData, WorkflowAccess};
use z_osmf::ZOsmf;
use z_osmf::Error;

fn get_zosmf() -> ZOsmf {
    ZOsmf::new("https://test.com")
}

#[test]
fn example() {
    let request = get_zosmf()
        .workflows()
        .create(
            "AutomationExample",
            "/usr/lpp/zosmf/samples/workflow_sample_automation.xml",
            "SY1",
            "zosmfad",
        )
        .assign_to_owner(true)
        .access_type(WorkflowAccess::Restricted)
        .delete_completed_jobs(true)
        .auto_delete_on_completion(true)
        .get_request();
    assert_request(&request, Method::Post, "https://test.com/zosmf/workflow/rest/1.0/workflows", &[], &[]);
    assert_eq!(
        json_of(&request),
        Some(parse_json(
            r#"
            {
                "workflowName":"AutomationExample",
                "workflowDefinitionFile":"/usr/lpp/zosmf/samples/workflow_sample_automation.xml",
                "system":"SY1",
                "owner":"zosmfad",
                "assignToOwner" :true,
                "accessType": "Restricted",
                "deleteCompletedJobs" : true,
                "autoDeleteOnCompletion" : true
            }
            "#
        ))
    );
}

#[test]
fn workflow_create_with_variables() {
    let request = get_zosmf()
        .workflows()
        .create("W", "/f.xml", "SY1", "me")
        .variables(vec![WorkflowVariableOverride::new("a", "1"), WorkflowVariableOverride::new("b", "2")])
        .get_request();
    assert_eq!(
        json_of(&request),
        Some(parse_json(
            r#"{"workflowName": "W", "workflowDefinitionFile": "/f.xml", "variables": [{"name": "a", "value": "1"}, {"name": "b", "value": "2"}], "system": "SY1", "owner": "me"}"#
        ))
    );
}

#[test]
fn workflow_start_sends_nulls() {
    let request = get_zosmf().workflows().start("K1").get_request();
    assert_request(
        &request,
        Method::Put,
        "https://test.com/zosmf/workflow/rest/1.0/workflows/K1/operations/start",
        &[],
        &[],
    );
    assert_eq!(
        json_of(&request),
        Some(parse_json(
            r#"{"resolveConflictByUsing": null, "stepName": null, "performSubsequent": null, "notificationUrl": null, "targetSystemuid": null, "targetSystempwd": null}"#
        ))
    );
    let request = get_zosmf()
        .workflows()
        .start("K1")
        .resolve_conflict_by_using(WorkflowStartResolveVariableConflict::LeaveConflict)
        .perform_subsequent(true)
        .get_request();
    assert_eq!(
        json_of(&request),
        Some(parse_json(
            r#"{"resolveConflictByUsing": "leaveConflict", "stepName": null, "performSubsequent": true, "notificationUrl": null, "targetSystemuid": null, "targetSystempwd": null}"#
        ))
    );
    assert_eq!(WorkflowStartResolveVariableConflict::ExistingValue.to_string(), "existingValue");
}

#[test]
fn workflow_paths() {
    let w = get_zosmf().workflows();
    assert_request(
        &w.cancel("K1").get_request(),
        Method::Put,
        "https://test.com/zosmf/workflow/rest/1.0/workflows/K1/operations/cancel",
        &[],
        &[],
    );
    assert_request(
        &w.delete("K1").get_request(),
        Method::Delete,
        "https://test.com/zosmf/workflow/rest/1.0/workflows/K1",
        &[],
        &[],
    );
    assert_request(
        &w.delete_archived("K1").get_request(),
        Method::Delete,
        "https://test.com/zosmf/workflow/rest/1.0/archivedworkflows/K1",
        &[],
        &[],
    );
    assert_request(
        &w.properties("K1").variables().steps().get_request(),
        Method::Get,
        "https://test.com/zosmf/workflow/rest/1.0/workflows/K1",
        &[("returnData", "steps,variables")],
        &[],
    );
    assert_request(
        &w.definition("/f.xml").file_system("SY1").steps().get_request(),
        Method::Get,
        "https://test.com/zosmf/workflow/rest/1.0/workflowDefinition?definitionFilePath=/f.xml",
        &[("workflowDefinitionFileSystem", "SY1"), ("returnData", "steps")],
        &[],
    );
    assert_eq!(w.properties("K1").variables().return_data, Some(ReturnData::Variables));
    assert_eq!(w.properties("K1").steps().steps().return_data, Some(ReturnData::Steps));
}

#[test]
fn system_id_text() {
    assert_eq!(SystemId::new().to_string(), "local");
    assert_eq!(SystemId::named("PLEX1", "SYS1").to_string(), "PLEX1.SYS1");
}

#[test]
fn system_variable_list_names() {
    let request = get_zosmf()
        .system_variables()
        .list()
        .system_id(SystemId::named("PLEX1", "SYS1"))
        .get_request()
        .unwrap();
    assert_request(
        &request,
        Method::Get,
        "https://test.com/zosmf/variables/rest/1.0/systems/PLEX1.SYS1",
        &[],
        &[],
    );
    let builder = get_zosmf()
        .system_variables()
        .list()
        .system_id(SystemId::named("PLEX1", "SYS1"))
        .name("a")
        .names(&vec!["b".to_string(), "c".to_string()]);
    assert_eq!(builder.names, Some(vec!["a".to_string(), "b".to_string(), "c".to_string()]));
    let refused = builder.get_request();
    assert!(matches!(refused, Err(Error::Query(ref m)) if m == "unsupported value"));
    let refused = get_zosmf().system_variables().list().names(&Vec::new()).get_request();
    assert!(matches!(refused, Err(Error::Query(ref m)) if m == "unsupported value"));
    let request = get_zosmf().system_variables().symbols().get_request().unwrap();
    assert_request(
        &request,
        Method::Get,
        "https://test.com/zosmf/variables/rest/1.0/systems/local?source=symbol",
        &[],
        &[],
    );
    let refused = get_zosmf().system_variables().symbols().name("SYSNAME").get_request();
    assert!(matches!(refused, Err(Error::Query(ref m)) if m == "unsupported value"));
}

#[test]
fn variables_list_names() {
    let request = get_zosmf().variables().list().get_request().unwrap();
    assert_request(&request, Method::Get, "https://test.com/zosmf/variables/rest/1.0/systems/local", &[], &[]);
    let refused = get_zosmf().variables().list().name("V1").get_request();
    assert!(matches!(refused, Err(Error::Query(ref m)) if m == "unsupported value"));
}

#[test]
fn system_variable_create_delete_export() {
    let z = get_zosmf();
    let request = z
        .system_variables()
        .create("TESTPLEX", "TESTNODE", vec![NewSystemVariable::new("var1", "value1", "d1")])
        .get_request();
    assert_request(
        &request,
        Method::Post,
        "https://test.com/zosmf/variables/rest/1.0/systems/TESTPLEX.TESTNODE",
        &[],
        &[],
    );
    assert_eq!(
        json_of(&request),
        Some(parse_json(r#"{"system-variable-list": [{"name": "var1", "value": "value1", "description": "d1"}]}"#))
    );
    let request = z
        .system_variables()
        .delete("TESTPLEX", "TESTNODE", vec!["var1".to_string(), "var2".to_string()])
        .get_request();
    assert_eq!(request.method, Method::Delete);
    assert_eq!(json_of(&request), Some(parse_json(r#"["var1", "var2"]"#)));
    let request = z
        .system_variables()
        .export("TESTPLEX", "TESTNODE", "/u/testuser/backup-variables.csv")
        .overwrite(true)
        .get_request();
    assert_request(
        &request,
        Method::Post,
        "https://test.com/zosmf/variables/rest/1.0/systems/TESTPLEX.TESTNODE/actions/export",
        &[],
        &[],
    );
    assert_eq!(
        json_of(&request),
        Some(parse_json(r#"{"variables-export-file": "/u/testuser/backup-variables.csv", "overwrite": true}"#))
    );
}

#[test]
fn variables_builders() {
    let v = NewVariable::builder("n", "v").description("d").build();
    assert_eq!(v, NewVariable::new("n", "v", "d"));
    assert_eq!(NewVariableBuilder::new("n", "v").build().description, "");
    let request = get_zosmf().variables().create("P", "S", vec![v]).get_request();
    assert_eq!(
        json_of(&request),
        Some(parse_json(r#"{"system-variable-list": [{"name": "n", "value": "v", "description": "d"}]}"#))
    );
    let request = get_zosmf().variables().symbols().names(&vec!["A".to_string()]).name("B").get_request();
    assert_eq!(request.query, pairs(&[("var-name", "A"), ("var-name", "B")]));
}

#[test]
fn core_identifier_text() {
    assert_eq!(Identifier::NameId("JOB1".to_string(), "J0001".to_string()).to_string(), "JOB1/J0001");
    assert_eq!(Identifier::Correlator("C1".to_string()).to_string(), "C1");
}

fn to_value(j: &JsonValue) -> serde_json::Value {
    match j {
        JsonValue::Null => serde_json::Value::Null,
        JsonValue::Bool(b) => serde_json::Value::Bool(*b),
        JsonValue::Str(s) => serde_json::Value::String(s.clone()),
        JsonValue::Array(items) => serde_json::Value::Array(items.iter().map(to_value).collect()),
        JsonValue::Object(members) => {
            let mut m = serde_json::Map::new();
            for (k, v) in members {
                m.insert(k.clone(), to_value(v));
            }
            serde_json::Value::Object(m)
        }
    }
}

fn json_of(r: &Request) -> Option<serde_json::Value> {
    match &r.body {
        Body::Json(j) => Some(to_value(j)),
        _ => None,
    }
}

fn parse_json(s: &str) -> serde_json::Value {
    serde_json::from_str(s).unwrap()
}

fn pairs(v: &[(&str, &str)]) -> Vec<(String, String)> {
    v.iter().map(|(a, b)| (a.to_string(), b.to_string())).collect()
}

fn lower_names(v: &[(String, String)]) -> Vec<(String, String)> {
    v.iter().map(|(a, b)| (a.to_lowercase(), b.clone())).collect()
}

fn assert_request(r: &Request, method: Method, url: &str, query: &[(&str, &str)], headers: &[(&str, &str)]) {
    assert_eq!(r.method, method);
    assert_eq!(r.url, url);
    assert_eq!(r.query, pairs(query));
    assert_eq!(lower_names(&r.headers), lower_names(&pairs(headers)));
}
