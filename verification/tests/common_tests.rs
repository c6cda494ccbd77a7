use http_socks5_proxy::common::{
    option_convert, std_res_convert, str_convert, OptionConvert, ProxyError, StdResAutoConvert,
    StdResConvert,
};
use http_socks5_proxy::upstream::proxy_uri;

#[test]
fn option_with_value_converts_to_ok() {
    assert_eq!(option_convert(Some(7u8), "missing"), Ok(7u8));
    assert_eq!(Some("x").option_to_res("missing"), Ok("x"));
}

#[test]
fn option_without_value_converts_to_the_message() {
    let none: Option<u8> = None;
    assert_eq!(
        option_convert(none, "Parse host error"),
        Err(ProxyError { message: "Parse host error".to_string() })
    );
    assert_eq!(
        none.option_to_res("Parse port error"),
        Err(ProxyError { message: "Parse port error".to_string() })
    );
}

#[test]
fn result_ok_is_kept() {
    let ok: Result<u8, u32> = Ok(1);
    assert_eq!(std_res_convert(ok, |e: u32| format!("code {}", e)), Ok(1));
    let ok: Result<u8, u32> = Ok(2);
    assert_eq!(ok.res_convert(|e: u32| format!("code {}", e)), Ok(2));
    let ok: Result<u8, u32> = Ok(3);
    assert_eq!(ok.res_auto_convert(), Ok(3));
}

#[test]
fn result_error_is_mapped_by_the_function() {
    let err: Result<u8, u32> = Err(404);
    assert_eq!(
        std_res_convert(err, |e: u32| format!("code {}", e)),
        Err(ProxyError { message: "code 404".to_string() })
    );
    let err: Result<u8, u32> = Err(9);
    assert_eq!(
        err.res_convert(|_| "Connect socks5 server error".to_string()),
        Err(ProxyError { message: "Connect socks5 server error".to_string() })
    );
}

#[test]
fn result_error_keeps_its_own_text() {
    let err: Result<u8, u32> = Err(404);
    assert_eq!(err.res_auto_convert(), Err(ProxyError { message: "404".to_string() }));
    let parsed: Result<u16, std::num::ParseIntError> = "x".parse::<u16>();
    let text = "x".parse::<u16>().unwrap_err().to_string();
    assert_eq!(parsed.res_auto_convert(), Err(ProxyError { message: text }));
}

#[test]
fn proxy_error_clone_is_equal() {
    let e = ProxyError { message: "m".to_string() };
    assert_eq!(e.clone(), e);
}

#[test]
fn str_convert_takes_the_prefix() {
    assert_eq!(str_convert(b"127.0.0.1:8080", 14), Ok("127.0.0.1:8080".to_string()));
    assert_eq!(str_convert(b"127.0.0.1:8080xyz", 14), Ok("127.0.0.1:8080".to_string()));
    assert_eq!(str_convert(b"abc", 0), Ok(String::new()));
    assert_eq!(str_convert(b"", 0), Ok(String::new()));
}

#[test]
fn str_convert_respects_character_boundaries() {
    let text = "h\u{e9}llo";
    assert_eq!(str_convert(text.as_bytes(), 3), Ok("h\u{e9}".to_string()));
    assert_eq!(str_convert(text.as_bytes(), 1), Ok("h".to_string()));
    assert_eq!(str_convert(text.as_bytes(), text.len()), Ok(text.to_string()));
}

#[test]
fn str_convert_refuses_bytes_that_are_no_text() {
    let bytes = [0x31u8, 0xff, 0x32];
    let r = str_convert(&bytes, 1);
    let expected = std::str::from_utf8(&bytes).unwrap_err().to_string();
    assert_eq!(r, Err(ProxyError { message: expected }));
    assert!(str_convert(&[0xc3u8], 0).is_err());
}

#[test]
fn proxy_uri_prefixes_the_scheme() {
    assert_eq!(proxy_uri("127.0.0.1:1080"), "socks5://127.0.0.1:1080");
    assert_eq!(proxy_uri("[::1]:9"), "socks5://[::1]:9");
    assert_eq!(proxy_uri(""), "socks5://");
}

#[test]
fn proxy_uri_is_a_uri_that_hyper_reads_back() {
    let uri: hyper::Uri = proxy_uri("127.0.0.1:1080").parse().unwrap();
    assert_eq!(uri.scheme_str(), Some("socks5"));
    assert_eq!(uri.host(), Some("127.0.0.1"));
    assert_eq!(uri.port_u16(), Some(1080));
}
