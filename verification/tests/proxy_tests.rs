use cobweb::proxy::{forward_frames, PHRASE, STAND_IN_BODY};

#[test]
fn request_line_then_chunks() {
    let frames = forward_frames("GET", "/index.html", vec![vec![1, 2], vec![3]]);
    assert_eq!(frames.len(), 3);
    assert_eq!(frames[0], b"GET /index.html HTTP/1.1\r\nContent-Length: 6\r\n\r\nIGNORE".to_vec());
    assert_eq!(frames[1], vec![1, 2]);
    assert_eq!(frames[2], vec![3]);
}

#[test]
fn request_without_body_chunks() {
    let frames = forward_frames("POST", "*", vec![]);
    assert_eq!(frames, vec![b"POST * HTTP/1.1\r\nContent-Length: 6\r\n\r\nIGNORE".to_vec()]);
}

#[test]
fn proxy_constants() {
    assert_eq!(PHRASE, "Hello World!");
    assert_eq!(STAND_IN_BODY, "IGNORE");
}
