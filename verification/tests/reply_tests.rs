use hello_server::reply::{respond, RESPONSE, RESPONSE_LEN};

#[test]
fn reply_to_empty_request_is_the_greeting() {
    let request: Vec<u8> = Vec::new();
    assert_eq!(respond(&request), b"Hello, world!".to_vec());
}

#[test]
fn reply_is_thirteen_ascii_bytes() {
    let reply: Vec<u8> = respond(b"GET / HTTP/1.1\r\n\r\n");
    assert_eq!(reply.len(), 13);
    assert_eq!(reply.len(), RESPONSE_LEN);
    assert_eq!(
        reply,
        vec![72u8, 101u8, 108u8, 108u8, 111u8, 44u8, 32u8, 119u8, 111u8, 114u8, 108u8, 100u8, 33u8]
    );
    assert!(reply.iter().all(|byte| byte.is_ascii()));
}

#[test]
fn reply_does_not_depend_on_the_request() {
    let short: Vec<u8> = vec![0u8];
    let long: Vec<u8> = vec![0xffu8; 2000];
    assert_eq!(respond(&short), respond(&long));
    assert_eq!(respond(&long), RESPONSE.as_bytes().to_vec());
}

#[test]
fn reply_is_not_an_echo() {
    let request: Vec<u8> = b"ping".to_vec();
    assert_ne!(respond(&request), request);
}

#[test]
fn response_text_is_the_greeting() {
    assert_eq!(RESPONSE, "Hello, world!");
    assert_eq!(RESPONSE.len(), RESPONSE_LEN);
}
