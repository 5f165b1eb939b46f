use windows_service::double_nul_terminated::{from_slice, parse_str_ptr};
use windows_service::shell_escape::escape;
use windows_service::wide::{read_wide_cstr, to_wide_cstring};

fn w(s: &str) -> Vec<u16> {
    s.encode_utf16().collect()
}

#[test]
fn test_from_slice() {
    assert_eq!(
        Some(w("Hello\0World\0\0")),
        from_slice(&[w("Hello"), w("World")]).unwrap(),
    );
}

#[test]
fn test_from_slice_empty() {
    assert_eq!(None, from_slice(&[]).unwrap());
}

#[test]
fn test_from_slice_with_nul() {
    assert!(from_slice(&[w("Hello"), w("\0World")]).is_err());
}

#[test]
fn test_nul_byte_string() {
    let raw_data: Vec<u16> = vec![0];
    assert!(parse_str_ptr(&raw_data).is_empty());
}

#[test]
fn test_nul_ptr_string() {
    assert!(parse_str_ptr(&[]).is_empty());
}

#[test]
fn test_with_values() {
    let raw_data = w("Hello\0World\0\0");
    assert_eq!(parse_str_ptr(&raw_data), vec![w("Hello"), w("World")]);
}

#[test]
fn from_slice_reports_first_nul() {
    let err = from_slice(&[w("ok"), w("ab\0c"), w("\0")]).unwrap_err();
    assert_eq!(err.nul_position(), 2);
    assert_eq!(err.into_vec(), Some(w("ab\0c")));
}

#[test]
fn from_slice_single_value() {
    assert_eq!(from_slice(&[w("a")]).unwrap(), Some(vec![0x61, 0, 0]));
}

#[test]
fn split_of_joined_gives_values_back() {
    let values = vec![w("netlogon"), w("+network"), w("x y")];
    let joined = from_slice(&values).unwrap().unwrap();
    assert_eq!(parse_str_ptr(&joined), values);
}

#[test]
fn split_stops_at_double_nul() {
    let raw = w("a\0b\0\0c\0\0");
    assert_eq!(parse_str_ptr(&raw), vec![w("a"), w("b")]);
}

#[test]
fn split_keeps_value_cut_off_by_buffer_end() {
    let raw = w("a\0bc");
    assert_eq!(parse_str_ptr(&raw), vec![w("a"), w("bc")]);
}

#[test]
fn wide_cstring_appends_terminator() {
    assert_eq!(to_wide_cstring(&w("abc")).unwrap(), w("abc\0"));
    let err = to_wide_cstring(&w("a\0b")).unwrap_err();
    assert_eq!(err.nul_position(), 1);
}

#[test]
fn read_wide_cstr_stops_at_nul() {
    assert_eq!(read_wide_cstr(&w("abc\0def")), w("abc"));
    assert_eq!(read_wide_cstr(&w("abc")), w("abc"));
}

#[test]
fn escape_leaves_safe_token_unchanged() {
    assert_eq!(escape(&w(r"C:\path\service.exe")), w(r"C:\path\service.exe"));
    assert_eq!(escape(&w("--flag=1")), w("--flag=1"));
}

#[test]
fn escape_quotes_token_with_space() {
    assert_eq!(escape(&w(r"C:\my dir\svc.exe")), w(r#""C:\my dir\svc.exe""#));
}

#[test]
fn escape_quotes_empty_token() {
    assert_eq!(escape(&[]), w(r#""""#));
}

#[test]
fn escape_escapes_quotes_and_backslashes() {
    assert_eq!(escape(&w(r#"a"b"#)), w(r#""a\"b""#));
    assert_eq!(escape(&w(r#"a\"b"#)), w(r#""a\\\"b""#));
    assert_eq!(escape(&w(r"a b\")), w(r#""a b\\""#));
    assert_eq!(escape(&w("tab\there")), w("\"tab\there\""));
}
