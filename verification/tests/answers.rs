use z_osmf::request::{Body, JsonValue, Method, Request};
use z_osmf::auth::AuthToken;
use z_osmf::error::Error;
use z_osmf::files::access_control_list::FileGetAccessControlList;
use z_osmf::files::extra_attributes::ExtraAttributes;
use z_osmf::files::list::{FileSize, Filter};
use z_osmf::files::list_tag::{FileListTag, FileTag};
use z_osmf::files::read::{answer_carries_data, FileRead};
use z_osmf::files::write::Write;
use z_osmf::files::FileTagType;
use z_osmf::restfiles::{get_etag, get_transaction_id, header_value_text, Etag};
use z_osmf::text::IntErrorKind;
use z_osmf::ZOsmf;

fn lines(v: &[&str]) -> Vec<String> {
    v.iter().map(|s| s.to_string()).collect()
}

#[test]
fn test_get_etag() {
    assert_eq!(get_etag(&Some(b"1234".to_vec())).unwrap(), Some("1234".to_string()));
    assert_eq!(get_etag(&None).unwrap(), None);
}

#[test]
fn test_get_transaction_id() {
    assert_eq!(get_transaction_id(&Some(b"1234".to_vec())).unwrap(), "1234");
    assert!(get_transaction_id(&None).is_err());
}

#[test]
fn header_values_must_be_visible_ascii() {
    assert_eq!(header_value_text(&b"a\tb c~".to_vec()).unwrap(), "a\tb c~");
    assert!(matches!(header_value_text(&vec![b'a', 0x7f]), Err(Error::ToStr)));
    assert!(matches!(header_value_text(&vec![0xc3, 0xa9]), Err(Error::ToStr)));
    assert!(matches!(get_transaction_id(&None), Err(Error::TransactionId)));
}

#[test]
fn etag_reads_both_headers() {
    let e = Etag::from_headers(&Some(b"E1".to_vec()), &Some(b"T1".to_vec())).unwrap();
    assert_eq!(e.etag(), Some("E1"));
    assert_eq!(e.transaction_id(), "T1");
    assert!(matches!(Etag::from_headers(&None, &None), Err(Error::TransactionId)));
}

#[test]
fn write_answer_needs_an_etag() {
    let w = Write::from_headers(&Some(b"E1".to_vec()), &Some(b"T1".to_vec())).unwrap();
    assert_eq!(w.etag(), "E1");
    assert_eq!(w.transaction_id(), "T1");
    assert!(matches!(Write::from_headers(&None, &Some(b"T1".to_vec())), Err(Error::Etag)));
    assert!(matches!(Write::from_headers(&Some(b"E1".to_vec()), &None), Err(Error::TransactionId)));
}

#[test]
fn read_answer_headers_and_status() {
    let r = FileRead::from_headers("text".to_string(), &None, &Some(b"T9".to_vec())).unwrap();
    assert_eq!(r.data(), "text");
    assert_eq!(r.etag(), None);
    assert_eq!(r.transaction_id(), "T9");
    assert!(answer_carries_data(200));
    assert!(!answer_carries_data(304));
}

#[test]
fn access_control_list_from_lines() {
    let acl = FileGetAccessControlList::from_lines(
        "TX".to_string(),
        &lines(&["#file: /u/me/f ", "#owner:IBMUSER", "#group:  SYS1", "user::rwx", "group::r-x", "other::r--"]),
    )
    .unwrap();
    assert_eq!(acl.name(), "/u/me/f");
    assert_eq!(acl.owner(), "IBMUSER");
    assert_eq!(acl.group(), "SYS1");
    assert_eq!(acl.user_access(), Some("rwx"));
    assert_eq!(acl.group_access(), Some("r-x"));
    assert_eq!(acl.other_access(), Some("r--"));
    assert_eq!(acl.transaction_id(), "TX");

    let short = FileGetAccessControlList::from_lines("TX".to_string(), &lines(&["#file:a", "#owner:b", "#group:c", "user::rw-"]))
        .unwrap();
    assert_eq!(short.user_access(), Some("rw-"));
    assert_eq!(short.group_access(), None);

    match FileGetAccessControlList::from_lines("TX".to_string(), &lines(&["#file:a"])) {
        Err(Error::Custom(m)) => assert_eq!(m, "invalid get access control list data: failed to get owner"),
        _ => panic!("an access control list without its owner was accepted"),
    }
    match FileGetAccessControlList::from_lines("TX".to_string(), &lines(&[])) {
        Err(Error::Custom(m)) => assert_eq!(m, "invalid get access control list data: failed to get name"),
        _ => panic!("an empty access control list was accepted"),
    }
}

#[test]
fn extra_attributes_from_lines() {
    let e = ExtraAttributes::from_lines(
        "TX".to_string(),
        &lines(&["/bin/prog", "APF authorized = YES", "Program controlled = NO", "Shared address space = YES", "Shared library = NO"]),
    )
    .unwrap();
    assert_eq!(e.name(), "/bin/prog");
    assert!(e.apf_authorized());
    assert!(!e.program_controlled());
    assert!(e.shared_address_space());
    assert!(!e.shared_library());
    match ExtraAttributes::from_lines("TX".to_string(), &lines(&["a", "b"])) {
        Err(Error::Custom(m)) => assert_eq!(m, r#"invalid return value format: ["a", "b"]"#),
        _ => panic!("two lines were accepted"),
    }
}

#[test]
fn file_list_tag_from_lines() {
    let l = FileListTag::from_lines(
        "TX".to_string(),
        &lines(&["t IBM-1047    T=on  /a", "- untagged    T=off /b"]),
    )
    .unwrap();
    assert_eq!(l.tags().len(), 2);
    assert_eq!(l.tags()[0].tag_type(), Some(FileTagType::Text));
    assert_eq!(l.tags()[0].code_set(), Some("IBM-1047"));
    assert!(l.tags()[0].text_flag());
    assert_eq!(l.tags()[1].path(), "/b");
    assert!(FileListTag::from_lines("TX".to_string(), &lines(&["x nonsense"])).is_err());
}

#[test]
fn file_tag_with_wide_path() {
    let t = FileTag::from_str("t UTF-8       T=on  /tmp/caf\u{e9}").unwrap();
    assert_eq!(t.path(), "/tmp/caf\u{e9}");
    assert_eq!(t.code_set(), Some("UTF-8"));
}

#[test]
fn file_size_text_and_reading() {
    assert_eq!(FileSize::Kilobytes(10).to_string(), "10K");
    assert_eq!(FileSize::Bytes(7).to_string(), "7");
    assert_eq!(FileSize::from_str("10KK").unwrap(), FileSize::Kilobytes(10));
    assert_eq!(FileSize::from_str("3G").unwrap(), FileSize::Gigabytes(3));
    assert_eq!(FileSize::from_str("x"), Err(IntErrorKind::InvalidDigit));
    assert_eq!(FileSize::from_str("M"), Err(IntErrorKind::Empty));
    for s in [FileSize::Bytes(0), FileSize::Kilobytes(4294967295), FileSize::Megabytes(12), FileSize::Gigabytes(1)] {
        assert_eq!(FileSize::from_str(&s.to_string()).unwrap(), s);
    }
}

#[test]
fn filter_text_and_reading() {
    assert_eq!(Filter::<u32>::GreaterThan(5).to_string(), "+5");
    assert_eq!(Filter::<u32>::LessThan(5).to_string(), "-5");
    assert_eq!(Filter::<u32>::EqualTo(5).to_string(), "5");
    assert_eq!(Filter::<u32>::from_str("++5").unwrap(), Filter::GreaterThan(5));
    assert_eq!(Filter::<u32>::from_str("-5").unwrap(), Filter::LessThan(5));
    assert_eq!(Filter::<u32>::from_str(""), Err(IntErrorKind::Empty));
    assert_eq!(Filter::<FileSize>::from_str("+2M").unwrap(), Filter::GreaterThan(FileSize::Megabytes(2)));
    for f in [Filter::LessThan(FileSize::Gigabytes(9)), Filter::EqualTo(FileSize::Bytes(1)), Filter::GreaterThan(FileSize::Kilobytes(3))] {
        assert_eq!(Filter::<FileSize>::from_str(&f.to_string()).unwrap(), f);
    }
}

#[test]
fn auth_token_text_and_headers() {
    let t = AuthToken::from_str("jwtToken=abc").unwrap();
    assert_eq!(t, AuthToken::Jwt("abc".to_string()));
    assert_eq!(t.to_string(), "jwtToken=abc");
    assert_eq!(t.header(), ("authorization".to_string(), "Bearer abc".to_string()));
    let l = AuthToken::from_set_cookie("LtpaToken2=xyz; Path=/; Secure").unwrap();
    assert_eq!(l.header(), ("cookie".to_string(), "LtpaToken2=xyz".to_string()));
    assert!(AuthToken::from_str("other=1").is_err());
    assert!(AuthToken::from_set_cookie("jwtToken=abc").is_err());
}

#[test]
fn login_keeps_the_first_token() {
    let mut z = ZOsmf::new("https://test.com");
    let cookies = vec![
        b"LtpaToken2=bbb; Path=/".to_vec(),
        b"bad cookie".to_vec(),
        vec![0xff, b';'],
        b"jwtToken=zzz; Secure".to_vec(),
        b"LtpaToken2=aaa; Path=/".to_vec(),
    ];
    let tokens = z.login(&cookies);
    assert_eq!(
        tokens,
        vec![
            AuthToken::Jwt("zzz".to_string()),
            AuthToken::Ltpa2("aaa".to_string()),
            AuthToken::Ltpa2("bbb".to_string()),
        ]
    );
    assert_eq!(z.token, Some(AuthToken::Jwt("zzz".to_string())));
    assert_eq!(z.auth_header(), Some(("authorization".to_string(), "Bearer zzz".to_string())));
    z.logout();
    assert_eq!(z.token, None);
    assert_eq!(z.auth_header(), None);
    assert!(z.login(&vec![]).is_empty());
    assert_eq!(z.token, None);
}

#[test]
fn login_and_logout_requests() {
    let z = ZOsmf::new("https://test.com");
    assert_request(&z.login_request(), Method::Post, "https://test.com/zosmf/services/authenticate", &[], &[]);
    assert_request(&z.logout_request(), Method::Delete, "https://test.com/zosmf/services/authenticate", &[], &[]);
    assert_request(&z.info().get_request(), Method::Get, "https://test.com/zosmf/info", &[], &[]);
    assert_eq!(json_of(&z.info().get_request()), None);
}

fn to_value(j: &JsonValue) -> serde_json::Value {
    match j {
        JsonValue::Null => serde_json::Value::Null,
        JsonValue::Bool(b) => serde_json::Value::Bool(*b),
        JsonValue::Str(s) => serde_json::Value::String(s.clone()),
        JsonValue::Array(items) => serde_json::Value::Array(items.iter().map(to_value).collect()),
        JsonValue::Object(members) => {
            let mut m = serde_json::Map::new();
            for (k, v) in members {
                m.insert(k.clone(), to_value(v));
            }
            serde_json::Value::Object(m)
        }
    }
}

fn json_of(r: &Request) -> Option<serde_json::Value> {
    match &r.body {
        Body::Json(j) => Some(to_value(j)),
        _ => None,
    }
}

fn parse_json(s: &str) -> serde_json::Value {
    serde_json::from_str(s).unwrap()
}

fn pairs(v: &[(&str, &str)]) -> Vec<(String, String)> {
    v.iter().map(|(a, b)| (a.to_string(), b.to_string())).collect()
}

fn lower_names(v: &[(String, String)]) -> Vec<(String, String)> {
    v.iter().map(|(a, b)| (a.to_lowercase(), b.clone())).collect()
}

fn assert_request(r: &Request, method: Method, url: &str, query: &[(&str, &str)], headers: &[(&str, &str)]) {
    assert_eq!(r.method, method);
    assert_eq!(r.url, url);
    assert_eq!(r.query, pairs(query));
    assert_eq!(lower_names(&r.headers), lower_names(&pairs(headers)));
}
