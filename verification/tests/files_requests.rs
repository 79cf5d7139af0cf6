use z_osmf::request::{Body, JsonValue, Method, Request};
use z_osmf::files::change_mode::FileModeLinks;
use z_osmf::files::copy::{Links as CopyLinks, Preserve};
use z_osmf::files::copy_dataset::FileCopyDatasetType;
use z_osmf::files::create::CreateFileType;
use z_osmf::files::link::LinkType;
use z_osmf::files::list::{FileSize, FileSystem, FileType, Filter, SymLinks};
use z_osmf::files::list_tag::FileTag;
use z_osmf::files::owner::Links;
use z_osmf::files::{FileTagLinks, FileTagType, FileTagsLinks};
use z_osmf::ZOsmf;

fn get_zosmf() -> ZOsmf {
    ZOsmf::new("https://test.com")
}

#[test]
fn change_mode_maximal_request() {
    let request = get_zosmf()
        .files()
        .change_mode("/u/jiahj/text.txt", "755")
        .links(FileModeLinks::Suppress)
        .recursive(true)
        .get_request();
    assert_request(&request, Method::Put, "https://test.com/zosmf/restfiles/fs/u/jiahj/text.txt", &[], &[]);
    assert_eq!(
        json_of(&request),
        Some(parse_json(r#"{"request": "chmod", "mode": "755", "links": "suppress", "recursive": true}"#))
    );
}

#[test]
fn change_mode_minimal_request() {
    let request = get_zosmf().files().change_mode("/u/jiahj/text.txt", "755").get_request();
    assert_request(&request, Method::Put, "https://test.com/zosmf/restfiles/fs/u/jiahj/text.txt", &[], &[]);
    assert_eq!(
        json_of(&request),
        Some(parse_json(r#"{"request": "chmod", "mode": "755", "recursive": false}"#))
    );
}

#[test]
fn copy_maximal_request() {
    let request = get_zosmf()
        .files()
        .copy("/u/jiahj/sourceDir", "/u/jiahj/targetDir")
        .overwrite(true)
        .recursive(true)
        .links(CopyLinks::Source)
        .preserve(Preserve::ModificationTime)
        .get_request();
    assert_request(&request, Method::Put, "https://test.com/zosmf/restfiles/fs/u/jiahj/targetDir", &[], &[]);
    assert_eq!(
        json_of(&request),
        Some(parse_json(
            r#"{"request": "copy", "from": "/u/jiahj/sourceDir", "overwrite": true, "recursive": true, "links": "src", "preserve": "modtime"}"#
        ))
    );
}

#[test]
fn copy_minimal_request() {
    let request = get_zosmf()
        .files()
        .copy("/u/jiahj/sourceFile.txt", "/u/jiahj/targetFile.txt")
        .get_request();
    assert_request(&request, Method::Put, "https://test.com/zosmf/restfiles/fs/u/jiahj/targetFile.txt", &[], &[]);
    assert_eq!(
        json_of(&request),
        Some(parse_json(r#"{"request": "copy", "from": "/u/jiahj/sourceFile.txt", "overwrite": false, "recursive": false}"#))
    );
}

#[test]
fn copy_dataset_maximal_request() {
    let request = get_zosmf()
        .files()
        .copy_dataset("MY.TEST.PDS", "/u/jiahj/copyFile.txt")
        .from_member("TEST")
        .dataset_type(FileCopyDatasetType::Text)
        .get_request();
    assert_request(&request, Method::Put, "https://test.com/zosmf/restfiles/fs/u/jiahj/copyFile.txt", &[], &[]);
    assert_eq!(
        json_of(&request),
        Some(parse_json(
            r#"{"request": "copy", "from-dataset": {"dsn": "MY.TEST.PDS", "member": "TEST", "type": "text"}}"#
        ))
    );
}

#[test]
fn copy_dataset_minimal_request() {
    let request = get_zosmf()
        .files()
        .copy_dataset("MY.TEST.DS", "/u/jiahj/copyFile.txt")
        .get_request();
    assert_request(&request, Method::Put, "https://test.com/zosmf/restfiles/fs/u/jiahj/copyFile.txt", &[], &[]);
    assert_eq!(
        json_of(&request),
        Some(parse_json(r#"{"request": "copy", "from-dataset": {"dsn": "MY.TEST.DS"}}"#))
    );
}

#[test]
fn create_example_1() {
    let request = get_zosmf()
        .files()
        .create("/u/jiahj/text.txt")
        .file_type(CreateFileType::File)
        .mode("RWXRW-RW-")
        .get_request();
    assert_request(&request, Method::Post, "https://test.com/zosmf/restfiles/fs/u/jiahj/text.txt", &[], &[]);
    assert_eq!(json_of(&request), Some(parse_json(r#"{"type": "file", "mode": "RWXRW-RW-"}"#)));
}

#[test]
fn create_example_2() {
    let request = get_zosmf()
        .files()
        .create("/u/jiahj/testDir")
        .file_type(CreateFileType::Directory)
        .mode("rwxr-xrwx")
        .get_request();
    assert_request(&request, Method::Post, "https://test.com/zosmf/restfiles/fs/u/jiahj/testDir", &[], &[]);
    assert_eq!(json_of(&request), Some(parse_json(r#"{"type": "directory", "mode": "rwxr-xrwx"}"#)));
}

#[test]
fn delete_example_1() {
    let request = get_zosmf().files().delete("/u/jiahj/text.txt").get_request();
    assert_request(&request, Method::Delete, "https://test.com/zosmf/restfiles/fs/u/jiahj/text.txt", &[], &[]);
    assert_eq!(json_of(&request), None);
}

#[test]
fn delete_example_2() {
    let request = get_zosmf().files().delete("/u/jiahj/testDir").get_request();
    assert_request(&request, Method::Delete, "https://test.com/zosmf/restfiles/fs/u/jiahj/testDir", &[], &[]);
}

#[test]
fn delete_recursive_header() {
    let request = get_zosmf().files().delete("/u/jiahj/testDir").recursive(true).get_request();
    assert_request(
        &request,
        Method::Delete,
        "https://test.com/zosmf/restfiles/fs/u/jiahj/testDir",
        &[],
        &[("X-IBM-Option", "recursive")],
    );
}

#[test]
fn link_maximal() {
    let request = get_zosmf()
        .files()
        .link(LinkType::Symbol, "/u/jiahj/sourceFile.txt", "/u/jiahj/targetFile.txt")
        .recursive(true)
        .get_request();
    assert_request(&request, Method::Put, "https://test.com/zosmf/restfiles/fs/u/jiahj/targetFile.txt", &[], &[]);
    assert_eq!(
        json_of(&request),
        Some(parse_json(
            r#"{"request": "link", "from": "/u/jiahj/sourceFile.txt", "type": "symbol", "recursive": true, "force": false}"#
        ))
    );
}

#[test]
fn list_example_1() {
    let request = get_zosmf().files().list("/usr").get_request();
    assert_request(&request, Method::Get, "https://test.com/zosmf/restfiles/fs", &[("path", "/usr")], &[]);
}

#[test]
fn list_example_2() {
    let request = get_zosmf().files().list("/u/ibmuser/myFile.txt").get_request();
    assert_request(
        &request,
        Method::Get,
        "https://test.com/zosmf/restfiles/fs",
        &[("path", "/u/ibmuser/myFile.txt")],
        &[],
    );
}

#[test]
fn example_3() {
    let request = get_zosmf().files().list("/usr/include").name("f*.h").get_request();
    assert_request(
        &request,
        Method::Get,
        "https://test.com/zosmf/restfiles/fs",
        &[("path", "/usr/include"), ("name", "f*.h")],
        &[],
    );
}

#[test]
fn list_maximal_request() {
    let request = get_zosmf()
        .files()
        .list("/usr/include")
        .name("f*.h")
        .depth(5)
        .file_system(FileSystem::All)
        .file_type(FileType::File)
        .group("ibmgrp")
        .limit(100)
        .lstat(true)
        .modified_days(Filter::EqualTo(1))
        .permissions("755")
        .size(Filter::EqualTo(FileSize::Kilobytes(10)))
        .symlinks(SymLinks::Follow)
        .user("ibmuser")
        .get_request();
    assert_request(
        &request,
        Method::Get,
        "https://test.com/zosmf/restfiles/fs",
        &[
            ("path", "/usr/include"),
            ("group", "ibmgrp"),
            ("mtime", "1"),
            ("name", "f*.h"),
            ("size", "10K"),
            ("perm", "755"),
            ("type", "f"),
            ("user", "ibmuser"),
            ("depth", "5"),
            ("limit", "100"),
            ("filesys", "all"),
            ("symlinks", "follow"),
        ],
        &[("X-IBM-Lstat", "true")],
    );
}

#[test]
fn file_tag_from_str() {
    assert_eq!(
        FileTag::from_str("b untagged    T=off /tmp/file").unwrap(),
        FileTag { tag_type: Some(FileTagType::Binary), code_set: None, text_flag: false, path: "/tmp/file".into() }
    );
    assert_eq!(
        FileTag::from_str("m ISO8859-1   T=off /tmp/file").unwrap(),
        FileTag {
            tag_type: Some(FileTagType::Mixed),
            code_set: Some("ISO8859-1".into()),
            text_flag: false,
            path: "/tmp/file".into(),
        }
    );
    assert_eq!(
        FileTag::from_str("t IBM-1047    T=on  /tmp/file").unwrap(),
        FileTag {
            tag_type: Some(FileTagType::Text),
            code_set: Some("IBM-1047".into()),
            text_flag: true,
            path: "/tmp/file".into(),
        }
    );
    assert_eq!(
        FileTag::from_str("- untagged    T=off /tmp/file").unwrap(),
        FileTag { tag_type: None, code_set: None, text_flag: false, path: "/tmp/file".into() }
    );
    assert!(FileTag::from_str("some nonsense").is_err());
}

#[test]
fn list_tag_maximal_request() {
    let request = get_zosmf().files().list_tag("/u/jiahj/testDir").recursive(true).get_request();
    assert_request(&request, Method::Put, "https://test.com/zosmf/restfiles/fs/u/jiahj/testDir", &[], &[]);
    assert_eq!(
        json_of(&request),
        Some(parse_json(r#"{"request": "chtag", "action": "list", "recursive": true}"#))
    );
}

#[test]
fn owner_maximal_request() {
    let request = get_zosmf()
        .files()
        .change_owner("/u/jiahj/testDir", "ibmuser")
        .group("ibmgrp")
        .links(Links::Change)
        .recursive(true)
        .get_request();
    assert_request(&request, Method::Put, "https://test.com/zosmf/restfiles/fs/u/jiahj/testDir", &[], &[]);
    assert_eq!(
        json_of(&request),
        Some(parse_json(
            r#"{"request": "chown", "owner": "ibmuser", "group": "ibmgrp", "links": "change", "recursive": true}"#
        ))
    );
}

#[test]
fn owner_minimal_request() {
    let request = get_zosmf().files().change_owner("/u/jiahj/test.txt", "ibmuser").get_request();
    assert_request(&request, Method::Put, "https://test.com/zosmf/restfiles/fs/u/jiahj/test.txt", &[], &[]);
    assert_eq!(
        json_of(&request),
        Some(parse_json(r#"{"request": "chown", "owner": "ibmuser", "recursive": false}"#))
    );
}

#[test]
fn data_type() {
    let request = get_zosmf().files().read("/u/jiahj/testFile.txt").binary().get_request();
    assert_request(
        &request,
        Method::Get,
        "https://test.com/zosmf/restfiles/fs/u/jiahj/testFile.txt",
        &[],
        &[("X-IBM-Data-Type", "binary")],
    );
}

#[test]
fn etag() {
    let request = get_zosmf()
        .files()
        .read("/u/jiahj/testFile.txt")
        .binary()
        .text()
        .if_none_match("abcd1234")
        .binary()
        .text()
        .encoding("IBM-1047")
        .get_request();
    assert_request(
        &request,
        Method::Get,
        "https://test.com/zosmf/restfiles/fs/u/jiahj/testFile.txt",
        &[],
        &[("X-IBM-Data-Type", "text;fileEncoding=IBM-1047"), ("If-None-Match", "abcd1234")],
    );
}

#[test]
fn read_example_1() {
    let request = get_zosmf().files().read("/etc/inetd.conf").get_request();
    assert_request(&request, Method::Get, "https://test.com/zosmf/restfiles/fs/etc/inetd.conf", &[], &[]);
}

#[test]
fn read_encoding() {
    let request = get_zosmf().files().read("/u/jiahj/testFile.txt").encoding("ISO8859-1").get_request();
    assert_request(
        &request,
        Method::Get,
        "https://test.com/zosmf/restfiles/fs/u/jiahj/testFile.txt",
        &[],
        &[("X-IBM-Data-Type", "text;fileEncoding=ISO8859-1")],
    );
}

#[test]
fn regex() {
    let request = get_zosmf().files().read("/etc/inetd.conf").regex_search(".*").get_request();
    assert_request(
        &request,
        Method::Get,
        "https://test.com/zosmf/restfiles/fs/etc/inetd.conf",
        &[("research", ".*")],
        &[],
    );
}

#[test]
fn search() {
    let request = get_zosmf()
        .files()
        .read("/etc/inetd.conf")
        .search("something")
        .search_case_sensitive(true)
        .search_max_return(10)
        .get_request();
    assert_request(
        &request,
        Method::Get,
        "https://test.com/zosmf/restfiles/fs/etc/inetd.conf",
        &[("search", "something"), ("insensitive", "false"), ("maxreturnsize", "10")],
        &[],
    );
}

#[test]
fn overwrite() {
    let request = get_zosmf()
        .files()
        .rename("/u/jiahj/sourceFile.txt", "/u/jiahj/testFile.txt")
        .get_request();
    assert_request(&request, Method::Put, "https://test.com/zosmf/restfiles/fs/u/jiahj/testFile.txt", &[], &[]);
    assert_eq!(
        json_of(&request),
        Some(parse_json(r#"{"request": "move", "from": "/u/jiahj/sourceFile.txt", "overwrite": false}"#))
    );
}

#[test]
fn set_tag_maximal() {
    let request = get_zosmf()
        .files()
        .set_tag("/u/jiahj/testFile.txt")
        .tag_type(FileTagType::Mixed)
        .code_set("IBM-1047")
        .links(FileTagLinks::Suppress)
        .get_request();
    assert_request(&request, Method::Put, "https://test.com/zosmf/restfiles/fs/u/jiahj/testFile.txt", &[], &[]);
    assert_eq!(
        json_of(&request),
        Some(parse_json(
            r#"{"request": "chtag", "action": "set", "recursive": false, "type": "mixed", "codeset": "IBM-1047", "links": "suppress"}"#
        ))
    );
}

#[test]
fn remove_max() {
    let request = get_zosmf()
        .files()
        .remove_tag("/u/jiahj/testFile.txt")
        .links(FileTagsLinks::Suppress)
        .recursive(true)
        .get_request();
    assert_request(&request, Method::Put, "https://test.com/zosmf/restfiles/fs/u/jiahj/testFile.txt", &[], &[]);
    assert_eq!(
        json_of(&request),
        Some(parse_json(r#"{"request": "chtag", "action": "remove", "links": "suppress", "recursive": true}"#))
    );
}

#[test]
fn remove_tag_without_links_sends_null() {
    let request = get_zosmf().files().remove_tag("/u/jiahj/testFile.txt").get_request();
    assert_eq!(
        json_of(&request),
        Some(parse_json(r#"{"request": "chtag", "action": "remove", "links": null, "recursive": false}"#))
    );
}

#[test]
fn requests() {
    let request = get_zosmf().files().unlink("/u/jiahj/targetFile.txt").get_request();
    assert_request(&request, Method::Put, "https://test.com/zosmf/restfiles/fs/u/jiahj/targetFile.txt", &[], &[]);
    assert_eq!(
        json_of(&request),
        Some(parse_json(
            r#"
            {
                "request": "unlink"
            }
            "#
        ))
    );
}

#[test]
fn binary() {
    let request = get_zosmf()
        .files()
        .write("/u/jiahj/testFile.txt")
        .binary(b"some text".to_vec())
        .get_request();
    assert_request(
        &request,
        Method::Put,
        "https://test.com/zosmf/restfiles/fs/u/jiahj/testFile.txt",
        &[],
        &[("x-ibm-data-type", "binary")],
    );
    match &request.body {
        Body::Binary(b) => assert_eq!(b, &b"some text".to_vec()),
        _ => panic!("the body is not binary"),
    }
}

#[test]
fn write_encoding() {
    let request = get_zosmf()
        .files()
        .write("/u/jiahj/testFile.txt")
        .text("some data")
        .crlf_newlines(true)
        .encoding("IBM-1047")
        .get_request();
    assert_request(
        &request,
        Method::Put,
        "https://test.com/zosmf/restfiles/fs/u/jiahj/testFile.txt",
        &[],
        &[("x-ibm-data-type", "text;fileEncoding=IBM-1047;crlf=true")],
    );
}

#[test]
fn write_example_1() {
    let request = get_zosmf().files().write("/etc/inetd.conf").text("here is some text!").get_request();
    assert_request(&request, Method::Put, "https://test.com/zosmf/restfiles/fs/etc/inetd.conf", &[], &[]);
    match &request.body {
        Body::Text(t) => assert_eq!(t, "here is some text!"),
        _ => panic!("the body is not text"),
    }
}

fn to_value(j: &JsonValue) -> serde_json::Value {
    match j {
        JsonValue::Null => serde_json::Value::Null,
        JsonValue::Bool(b) => serde_json::Value::Bool(*b),
        JsonValue::Str(s) => serde_json::Value::String(s.clone()),
        JsonValue::Array(items) => serde_json::Value::Array(items.iter().map(to_value).collect()),
        JsonValue::Object(members) => {
            let mut m = serde_json::Map::new();
            for (k, v) in members {
                m.insert(k.clone(), to_value(v));
            }
            serde_json::Value::Object(m)
        }
    }
}

fn json_of(r: &Request) -> Option<serde_json::Value> {
    match &r.body {
        Body::Json(j) => Some(to_value(j)),
        _ => None,
    }
}

fn parse_json(s: &str) -> serde_json::Value {
    serde_json::from_str(s).unwrap()
}

fn pairs(v: &[(&str, &str)]) -> Vec<(String, String)> {
    v.iter().map(|(a, b)| (a.to_string(), b.to_string())).collect()
}

fn lower_names(v: &[(String, String)]) -> Vec<(String, String)> {
    v.iter().map(|(a, b)| (a.to_lowercase(), b.clone())).collect()
}

fn assert_request(r: &Request, method: Method, url: &str, query: &[(&str, &str)], headers: &[(&str, &str)]) {
    assert_eq!(r.method, method);
    assert_eq!(r.url, url);
    assert_eq!(r.query, pairs(query));
    assert_eq!(lower_names(&r.headers), lower_names(&pairs(headers)));
}
