use pty_session::{after_read, default_shell, initial_size, ReadStep, READ_CHUNK_LEN};

#[test]
fn read_of_some_bytes_emits_them_as_text() {
    let mut buf = [0u8; READ_CHUNK_LEN];
    buf[..3].copy_from_slice(b"hi\n");
    assert_eq!(after_read(&buf, Some(3)), ReadStep::Emit("hi\n".to_string()));
}

#[test]
fn invalid_bytes_are_replaced_and_the_loop_goes_on() {
    let mut buf = [0u8; READ_CHUNK_LEN];
    buf[..4].copy_from_slice(&[b'o', 0xff, b'k', 0xc3]);
    assert_eq!(after_read(&buf, Some(4)), ReadStep::Emit("o\u{fffd}k\u{fffd}".to_string()));
}

#[test]
fn only_the_bytes_read_are_decoded() {
    let buf = *b"abcdef";
    assert_eq!(after_read(&buf, Some(2)), ReadStep::Emit("ab".to_string()));
}

#[test]
fn full_buffer_is_emitted_whole() {
    let buf = [b'x'; READ_CHUNK_LEN];
    assert_eq!(after_read(&buf, Some(READ_CHUNK_LEN)), ReadStep::Emit("x".repeat(1024)));
}

#[test]
fn empty_read_ends_the_loop() {
    let buf = [0u8; READ_CHUNK_LEN];
    assert_eq!(after_read(&buf, Some(0)), ReadStep::Stop);
}

#[test]
fn failed_read_ends_the_loop() {
    let buf = [0u8; READ_CHUNK_LEN];
    assert_eq!(after_read(&buf, None), ReadStep::Stop);
}

#[test]
fn initial_geometry_and_shells() {
    let size = initial_size();
    assert_eq!((size.rows, size.cols), (24, 80));
    assert_eq!(default_shell(false), "bash");
    assert_eq!(default_shell(true), "powershell");
}
