use doctorfill::commands::{
    decimal, health_url, port_kill_script, sentinel_script, service_url, tree_kill_args, SERVICE_PORT,
};
use doctorfill::encoding::{base64_encode, loading_html, DATA_URI_PREFIX, LOADING_PAGE_HTML};

#[test]
fn base64_of_empty_input_is_empty() {
    assert_eq!(base64_encode(b""), "");
}

#[test]
fn base64_pads_short_last_group() {
    assert_eq!(base64_encode(b"f"), "Zg==");
    assert_eq!(base64_encode(b"fo"), "Zm8=");
    assert_eq!(base64_encode(b"foo"), "Zm9v");
    assert_eq!(base64_encode(b"foob"), "Zm9vYg==");
    assert_eq!(base64_encode(b"fooba"), "Zm9vYmE=");
    assert_eq!(base64_encode(b"foobar"), "Zm9vYmFy");
}

#[test]
fn base64_uses_plus_and_slash_for_high_values() {
    assert_eq!(base64_encode(&[0xff, 0xfe]), "//4=");
    assert_eq!(base64_encode(&[0xfb, 0xff]), "+/8=");
    assert_eq!(base64_encode(&[0, 0, 0]), "AAAA");
}

#[test]
fn base64_of_multibyte_text() {
    assert_eq!(base64_encode("é".as_bytes()), "w6k=");
}

#[test]
fn loading_page_is_a_base64_data_uri() {
    let uri = loading_html();
    assert!(uri.starts_with("data:text/html;base64,"));
    assert_eq!(DATA_URI_PREFIX, "data:text/html;base64,");
    let body = &uri[DATA_URI_PREFIX.len()..];
    assert_eq!(body, base64_encode(LOADING_PAGE_HTML.as_bytes()));
    assert_eq!(body.len() % 4, 0);
    assert_eq!(body.len(), (LOADING_PAGE_HTML.len() + 2) / 3 * 4);
    assert!(body.starts_with("PCFET0NUWVBFIGh0bWw+"));
}

#[test]
fn decimal_text_of_numbers() {
    assert_eq!(decimal(0), "0");
    assert_eq!(decimal(7), "7");
    assert_eq!(decimal(10), "10");
    assert_eq!(decimal(8000), "8000");
    assert_eq!(decimal(u32::MAX), "4294967295");
}

#[test]
fn service_addresses_on_the_fixed_port() {
    assert_eq!(SERVICE_PORT, 8000);
    assert_eq!(health_url(SERVICE_PORT), "http://localhost:8000/health");
    assert_eq!(service_url(SERVICE_PORT), "http://localhost:8000/");
    assert_eq!(health_url(65535), "http://localhost:65535/health");
}

#[test]
fn tree_kill_is_scoped_by_identifier() {
    let args = tree_kill_args(4242);
    assert_eq!(args, vec!["/F", "/PID", "4242", "/T"]);
}

#[test]
fn port_reclamation_command_names_the_port() {
    assert_eq!(
        port_kill_script(8000),
        "lsof -ti :8000 | xargs kill -9 2>/dev/null"
    );
}

#[test]
fn sentinel_watches_the_parent_then_reclaims_the_port() {
    assert_eq!(
        sentinel_script(1234, 8000),
        "while kill -0 1234 2>/dev/null; do sleep 1; done; sleep 2; \
         lsof -ti :8000 | xargs kill -9 2>/dev/null"
    );
}
