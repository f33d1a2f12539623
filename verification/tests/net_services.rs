use switcher::switcher::http_server::HttpRoutes;
use switcher::switcher::http_switcher::SwitcherPage;
use switcher::http::{
    header, header_line, parse_unsigned, prepare_content, req_or_resp, to_ascii_lowercase,
    usize_to_decimal, ContentError, HttpConnection, HttpHeaders, HttpResp, ReqOrResp,
};
use switcher::text::{read_char, read_line, read_line_utf8, Error as TextError};
use switcher::websocket::{
    accept_key, ext_len_count, frame_head, frame_head_fields, handshake_headers, payload_len,
    Opcode, WebsocketFrame,
};

#[test]
fn headers_are_found_in_any_case() {
    let mut h = HttpHeaders::new();
    h.header("Content-Type", "text/html");
    h.header("X-A", "1");
    h.header("x-a", "2");
    assert_eq!(h.get_header("content-type"), Some("text/html"));
    assert_eq!(h.get_header("CONTENT-TYPE"), Some("text/html"));
    assert_eq!(h.get_header("X-a"), Some("1"));
    assert_eq!(h.get_header("missing"), None);
    assert_eq!(h.get_content_length(), 0);
}

#[test]
fn content_length_header_sets_length() {
    let mut h = HttpHeaders::new();
    h.header("Content-Length", "42");
    assert_eq!(h.get_content_length(), 42);
    h.header_str("content-length", "abc".to_string());
    assert_eq!(h.get_content_length(), 0);
    assert_eq!(h.get_header("Content-Length"), Some("42"));
}

#[test]
fn header_lines_split_at_colon_space() {
    let mut h = HttpHeaders::new();
    header_line(&mut h, "Host: example.org");
    header_line(&mut h, "no separator here");
    header_line(&mut h, "A: b: c");
    assert_eq!(h.get_header("host"), Some("example.org"));
    assert_eq!(h.get_header("no separator here"), None);
    assert_eq!(h.get_header("a"), None);
}

#[test]
fn status_line_is_read() {
    let r = HttpResp::from_status_line("HTTP/1.1 404 Not Found").unwrap();
    assert_eq!(r.http_version, "HTTP/1.1");
    assert_eq!(r.status_code, 404);
    assert_eq!(r.reason, "Not Found");
    let r = HttpResp::from_status_line("HTTP/1.0 abc OK").unwrap();
    assert_eq!(r.status_code, 0);
    match HttpResp::from_status_line("GET / HTTP/1.1") {
        Err(m) => assert_eq!(m, "Bad http response: GET / HTTP/1.1"),
        Ok(_) => panic!("a request line is no status line"),
    }
}

#[test]
fn request_line_opens_connection() {
    let c = HttpConnection::from_request_line("GET /index.html HTTP/1.1").unwrap();
    assert_eq!(c.method, "GET");
    assert_eq!(c.path, "/index.html");
    assert_eq!(c.protocol, "HTTP/1.1");
    assert_eq!(c.resp.get_header("connection"), Some("close"));
    assert!(c.auto_content_length);
    assert!(HttpConnection::from_request_line("GET /").is_err());
}

#[test]
fn first_line_tells_request_from_response() {
    assert!(matches!(req_or_resp("HTTP/1.1 200 OK"), Ok(ReqOrResp::Resp(r)) if r.status_code == 200));
    assert!(matches!(req_or_resp("POST /x HTTP/1.1"), Ok(ReqOrResp::Req(c)) if c.method == "POST"));
    assert!(matches!(req_or_resp("garbage"), Err(m) if m == "garbage"));
}

#[test]
fn content_is_prepared_once() {
    let mut c = HttpConnection::from_request_line("GET / HTTP/1.1").unwrap();
    assert!(header(&mut c, "X-Test", "yes"));
    assert_eq!(prepare_content(&mut c, 5), Ok(true));
    assert_eq!(c.resp.get_header("content-length"), Some("5"));
    assert_eq!(c.resp.get_content_length(), 5);
    assert!(!header(&mut c, "X-Late", "no"));
    assert_eq!(prepare_content(&mut c, 3), Err(ContentError::OneWriteAllowed));
    c.auto_content_length = false;
    assert_eq!(prepare_content(&mut c, 3), Ok(false));
}

#[test]
fn numbers_and_case() {
    assert_eq!(parse_unsigned("65535", 65535), Some(65535));
    assert_eq!(parse_unsigned("65536", 65535), None);
    assert_eq!(parse_unsigned("+12", 100), Some(12));
    assert_eq!(parse_unsigned("", 100), None);
    assert_eq!(parse_unsigned("1a", 100), None);
    assert_eq!(usize_to_decimal(0), "0");
    assert_eq!(usize_to_decimal(1234567), "1234567");
    assert_eq!(to_ascii_lowercase("Content-LENGTH Ä"), "content-length Ä");
}

#[test]
fn chars_are_read_from_utf8() {
    assert_eq!(read_char(&[]), Ok(None));
    assert_eq!(read_char(b"a"), Ok(Some(('a', 1))));
    assert_eq!(read_char("é".as_bytes()), Ok(Some(('é', 2))));
    assert_eq!(read_char("€x".as_bytes()), Ok(Some(('€', 3))));
    assert_eq!(read_char("😀".as_bytes()), Ok(Some(('😀', 4))));
    assert_eq!(read_char(&[0xff]), Err(TextError::InvalidByte(0xff)));
    assert_eq!(read_char(&[0xc3, 0x41]), Err(TextError::InvalidByte(0x41)));
    assert_eq!(read_char(&[0xe2, 0x82]), Err(TextError::InputTruncated));
}

#[test]
fn lines_end_at_line_feed() {
    assert_eq!(read_line(b"ab\r\ncd"), ("ab".to_string(), 4));
    assert_eq!(read_line(b"xyz"), ("xyz".to_string(), 3));
    assert_eq!(read_line(b"\n"), ("".to_string(), 1));
    assert_eq!(read_line_utf8("zß\r\nrest".as_bytes()), Ok(("zß".to_string(), 5)));
    assert_eq!(read_line_utf8(&[b'a', 0x80]), Err(TextError::InvalidByte(0x80)));
}

#[test]
fn accept_key_of_the_standard_example() {
    assert_eq!(accept_key("dGhlIHNhbXBsZSBub25jZQ=="), "s3pPLMBiTxaQ9kYGzzhZRbK+xOo=");
}

#[test]
fn handshake_answers_key_and_protocol() {
    let mut c = HttpConnection::from_request_line("GET /ws HTTP/1.1").unwrap();
    c.req.header("Sec-WebSocket-Key", "dGhlIHNhbXBsZSBub25jZQ==");
    c.req.header("Sec-WebSocket-Protocol", "chat");
    handshake_headers(&mut c);
    assert_eq!(c.resp.get_header("upgrade"), Some("websocket"));
    assert_eq!(c.resp.get_header("sec-websocket-accept"), Some("s3pPLMBiTxaQ9kYGzzhZRbK+xOo="));
    assert_eq!(c.resp.get_header("sec-websocket-protocol"), Some("chat"));
    assert_eq!(c.resp.get_header("connection"), Some("close"));
}

#[test]
fn frame_heads() {
    assert_eq!(frame_head(Opcode::Text, 5), vec![0x81, 5]);
    assert_eq!(frame_head(Opcode::Binary, 125), vec![0x82, 125]);
    // extended lengths are written most significant byte first
    assert_eq!(frame_head(Opcode::Text, 300), vec![0x81, 126, 0x01, 0x2c]);
    assert_eq!(
        frame_head(Opcode::Text, 70000),
        vec![0x81, 127, 0x00, 0x00, 0x00, 0x00, 0x00, 0x01, 0x11, 0x70]
    );
}

#[test]
fn frame_head_length_reads_back() {
    for n in [0usize, 125, 126, 300, 0xffff, 0x10000, 70000, 0x1234_5678_9abc] {
        let h = frame_head(Opcode::Binary, n);
        let k = ext_len_count(h[1]);
        assert_eq!(h.len(), 2 + k);
        assert_eq!(payload_len(h[1], &h[2..]), n as u64);
    }
}

#[test]
fn frame_fields_and_lengths() {
    assert_eq!(frame_head_fields(0x81, 0x85), (true, Opcode::Text, true));
    assert_eq!(frame_head_fields(0x0a, 0x00), (false, Opcode::Pong, false));
    assert_eq!(frame_head_fields(0x03, 0x00).1, Opcode::Other(3));
    assert_eq!(ext_len_count(5), 0);
    assert_eq!(ext_len_count(0x80 | 126), 2);
    assert_eq!(ext_len_count(127), 8);
    assert_eq!(payload_len(0x85, &[]), 5);
    assert_eq!(payload_len(126, &[0x01, 0x2c]), 300);
    assert_eq!(payload_len(127, &[0, 0, 0, 0, 0, 1, 0x11, 0x70]), 70000);
}

#[test]
fn masked_payload_is_unmasked() {
    let key = [0x37, 0xfa, 0x21, 0x3d];
    let masked = vec![0x7f, 0x9f, 0x4d, 0x51, 0x58];
    let f = WebsocketFrame::from_parts(0x81, 0x85, key, masked.clone());
    assert_eq!(f.payload, b"Hello".to_vec());
    assert!(f.fin);
    assert_eq!(f.opcode, Opcode::Text);
    let g = WebsocketFrame::from_parts(0x82, 0x05, [0; 4], masked.clone());
    assert_eq!(g.payload, masked);
}

#[test]
fn opcode_bytes_round_trip() {
    for b in 0u8..16 {
        assert_eq!(Opcode::from_u8(b).to_u8(), b);
    }
    assert_eq!(Opcode::ConnectionClose.to_u8(), 8);
    assert_eq!(Opcode::from_u8(9), Opcode::Ping);
}

fn page_service(path: Option<&str>) -> switcher::switcher::http_switcher::HttpSwitcher {
    switcher::switcher::http_switcher::HttpSwitcher {
        server_id: None,
        path: path.map(|p| p.to_string()),
        dir: None,
        system: switcher::switcher::http_switcher::SwHttpSystem { id: "home".to_string(), pages: vec![] },
        mqtt_ip: None,
        mqtt_port: Some(1884),
    }
}

#[test]
fn page_service_routes() {
    let s = page_service(Some("/sw/"));
    assert_eq!(s.page("/sw/index.html"), Some(SwitcherPage::Index));
    assert_eq!(s.page("/sw/js.js"), Some(SwitcherPage::Js));
    assert_eq!(s.page("/sw/mqtt"), Some(SwitcherPage::Mqtt));
    assert_eq!(s.page("/sw/other"), None);
    assert_eq!(s.page("/s"), None);
    let d = page_service(None);
    assert_eq!(d.path(), "/");
    assert_eq!(d.dir(), "./");
    assert_eq!(d.page("/css.css"), Some(SwitcherPage::Css));
    assert_eq!(d.mqtt_addr("10.0.0.1"), "10.0.0.1:1884");
    assert_eq!(d.service_name("10.0.0.1"), "Switcher Server, mqtt to: 10.0.0.1:1884");
}

#[test]
fn http_routes_first_prefix() {
    let mut r = HttpRoutes::new();
    r.register("/sw/".to_string(), 3);
    r.register("/".to_string(), 4);
    assert_eq!(r.service_for("/sw/index.html"), Some(3));
    assert_eq!(r.service_for("/other"), Some(4));
    assert_eq!(r.service_for(""), None);
}
