use rbaserun::descriptor::{
    file_from_search, parse_base_file_form, parse_base_path, parse_base_server_form,
    parse_base_simple_form, parse_base_web_form, server_from_search, web_from_search,
    ClassificationError, ConnectionDescriptor,
};
use rbaserun::pattern::{find_groups, group};

fn server(host: &str, ref_name: &str) -> ConnectionDescriptor {
    ConnectionDescriptor::Server { host: host.to_string(), ref_name: ref_name.to_string() }
}

fn file(path: &str) -> ConnectionDescriptor {
    ConnectionDescriptor::File { path: path.to_string() }
}

fn web(url: &str) -> ConnectionDescriptor {
    ConnectionDescriptor::Web { url: url.to_string() }
}

#[test]
fn simple_form_is_lower_cased() {
    assert_eq!(parse_base_path("SomeHost;SomeRef"), Ok(server("somehost", "someref")));
}

#[test]
fn server_form_reads_two_quoted_names() {
    assert_eq!(parse_base_path(r#"Srvr="h";Ref="r";"#), Ok(server("h", "r")));
}

#[test]
fn server_form_is_lower_cased() {
    assert_eq!(
        parse_base_path(r#"Srvr="Cluster01";Ref="Trade";"#),
        Ok(server("cluster01", "trade"))
    );
}

#[test]
fn file_form_is_lower_cased() {
    assert_eq!(parse_base_path(r#"File="C:\base.1cd""#), Ok(file(r"c:\base.1cd")));
}

#[test]
fn garbage_is_unrecognized() {
    assert_eq!(
        parse_base_path("garbage"),
        Err(ClassificationError::UnrecognizedDescriptor("garbage".to_string()))
    );
}

#[test]
fn unrecognized_keeps_the_text_as_given() {
    assert_eq!(
        parse_base_path("  GarBage \n"),
        Err(ClassificationError::UnrecognizedDescriptor("  GarBage \n".to_string()))
    );
}

#[test]
fn web_form_keeps_case() {
    assert_eq!(
        parse_base_path(r#"ws="HTTP://Host/Base""#),
        Ok(web("HTTP://Host/Base"))
    );
}

#[test]
fn web_form_anywhere_in_the_text() {
    assert_eq!(
        parse_base_path(r#"Usr=Me;ws="http://host/base";"#),
        Ok(web("http://host/base"))
    );
}

#[test]
fn web_marker_wins_over_other_markers() {
    assert_eq!(
        parse_base_path(r#"File=x;Srvr=y;Ref=z;ws="http://Host""#),
        Ok(web("http://Host"))
    );
}

#[test]
fn web_marker_in_other_case_is_not_the_web_form() {
    assert_eq!(
        parse_base_path(r#"WS="http://host""#),
        Err(ClassificationError::UnrecognizedDescriptor(r#"WS="http://host""#.to_string()))
    );
    assert_eq!(
        parse_base_path(r#"Ws="a";b"#),
        Ok(server(r#"ws="a""#, "b"))
    );
}

#[test]
fn file_marker_wins_over_server_and_separator() {
    assert_eq!(
        parse_base_path(r#"Srvr=a;Ref=b;FILE="D:\Bases\One""#),
        Ok(file(r"d:\bases\one"))
    );
}

#[test]
fn server_markers_win_over_separator() {
    assert_eq!(parse_base_path("srvr=a;ref=b"), Err(ClassificationError::MalformedServerForm));
}

#[test]
fn one_server_marker_alone_is_the_simple_form() {
    assert_eq!(parse_base_path("srvr=a;b"), Ok(server("srvr=a", "b")));
}

#[test]
fn text_is_trimmed_first() {
    assert_eq!(parse_base_path("  Host;Base \t\n"), Ok(server("host", "base")));
}

#[test]
fn simple_form_splits_at_the_last_separator() {
    assert_eq!(parse_base_path("a;b;c"), Ok(server("a;b", "c")));
}

#[test]
fn quoted_segment_is_as_long_as_it_can_be() {
    assert_eq!(parse_base_path(r#"ws="a" and "b""#), Ok(web(r#"a" and "b"#)));
    assert_eq!(
        parse_base_path(r#"srvr="a";ref="b";x="c""#),
        Ok(server(r#"a";ref="b"#, "c"))
    );
}

#[test]
fn malformed_web_form() {
    assert_eq!(parse_base_path("ws=http://host"), Err(ClassificationError::MalformedWebForm));
    assert_eq!(parse_base_path(r#"ws="""#), Err(ClassificationError::MalformedWebForm));
}

#[test]
fn malformed_file_form() {
    assert_eq!(parse_base_path(r"File=C:\base"), Err(ClassificationError::MalformedFileForm));
}

#[test]
fn malformed_server_form() {
    assert_eq!(
        parse_base_path(r#"Srvr="h";Ref=r"#),
        Err(ClassificationError::MalformedServerForm)
    );
}

#[test]
fn malformed_simple_form() {
    assert_eq!(parse_base_path(";"), Err(ClassificationError::MalformedSimpleForm));
    assert_eq!(parse_base_path("host;"), Err(ClassificationError::MalformedSimpleForm));
    assert_eq!(parse_base_path(";base"), Err(ClassificationError::MalformedSimpleForm));
}

#[test]
fn forms_on_their_own() {
    assert_eq!(parse_base_web_form(r#"x "U" y"#), Ok(web("U")));
    assert_eq!(parse_base_file_form(r#"x "p" y"#), Ok(file("p")));
    assert_eq!(parse_base_server_form(r#""a" "b""#), Ok(server("a", "b")));
    assert_eq!(parse_base_simple_form("A;B"), Ok(server("A", "B")));
    assert_eq!(parse_base_web_form("none"), Err(ClassificationError::MalformedWebForm));
    assert_eq!(parse_base_file_form("none"), Err(ClassificationError::MalformedFileForm));
    assert_eq!(parse_base_server_form("none"), Err(ClassificationError::MalformedServerForm));
    assert_eq!(parse_base_simple_form("none"), Err(ClassificationError::MalformedSimpleForm));
}

#[test]
fn descriptors_from_given_groups() {
    let two = Some(vec![
        Some("h;r".to_string()),
        Some("h".to_string()),
        Some("r".to_string()),
    ]);
    assert_eq!(
        server_from_search(&two, ClassificationError::MalformedSimpleForm),
        Ok(server("h", "r"))
    );
    assert_eq!(web_from_search(&two), Ok(web("h")));
    assert_eq!(file_from_search(&two), Ok(file("h")));
    let one = Some(vec![Some("x".to_string()), Some("x".to_string())]);
    assert_eq!(
        server_from_search(&one, ClassificationError::MalformedServerForm),
        Err(ClassificationError::MalformedServerForm)
    );
    let unset = Some(vec![Some("x".to_string()), None]);
    assert_eq!(web_from_search(&unset), Err(ClassificationError::MalformedWebForm));
    assert_eq!(file_from_search(&None), Err(ClassificationError::MalformedFileForm));
}

#[test]
fn groups_of_a_match() {
    let found = find_groups("(a+)(b)?(c)", "xxaacyy");
    assert_eq!(
        found,
        Some(vec![Some("aac".to_string()), Some("aa".to_string()), None, Some("c".to_string())])
    );
    assert_eq!(group(&found, 0), Some("aac".to_string()));
    assert_eq!(group(&found, 1), Some("aa".to_string()));
    assert_eq!(group(&found, 2), None);
    assert_eq!(group(&found, 3), Some("c".to_string()));
    assert_eq!(group(&found, 4), None);
    assert_eq!(group(&None, 0), None);
}

#[test]
fn no_match_and_no_pattern_find_nothing() {
    assert_eq!(find_groups("(a+)", "bbb"), None);
    assert_eq!(find_groups("(a+", "aaa"), None);
}

#[test]
fn a_dot_does_not_cross_a_line() {
    assert_eq!(
        parse_base_path("ws=\"a\nb\""),
        Err(ClassificationError::MalformedWebForm)
    );
}

#[test]
fn messages_of_classification_errors() {
    assert_eq!(
        ClassificationError::MalformedWebForm.describe(),
        "expected pattern: ws=\"<url>\";"
    );
    assert_eq!(
        ClassificationError::MalformedFileForm.describe(),
        "expected pattern: File=\"<path>\";"
    );
    assert_eq!(
        ClassificationError::MalformedServerForm.describe(),
        "expected pattern: Srvr=\"host\";Ref=\"ref\";"
    );
    assert_eq!(ClassificationError::MalformedSimpleForm.describe(), "expected pattern: host;ref");
    assert_eq!(
        ClassificationError::UnrecognizedDescriptor("abc".to_string()).describe(),
        "Could not parse provided path: abc"
    );
}
