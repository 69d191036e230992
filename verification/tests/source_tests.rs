use rpassword::read_password_from_bufread;
use rpassword::read_reply_from_bufread;
use rpassword::FailingSource;
use rpassword::InputError;
use rpassword::MemSource;

#[test]
fn can_read_from_redirected_input_many_times() {
    let mut reader_crlf = MemSource::from_text("A mocked response.\r\nAnother mocked response.\r\n");

    let response = read_password_from_bufread(&mut reader_crlf).unwrap();
    assert_eq!(response, "A mocked response.");
    let response = read_password_from_bufread(&mut reader_crlf).unwrap();
    assert_eq!(response, "Another mocked response.");

    let mut reader_lf = MemSource::from_text("A mocked response.\nAnother mocked response.\n");
    let response = read_password_from_bufread(&mut reader_lf).unwrap();
    assert_eq!(response, "A mocked response.");
    let response = read_password_from_bufread(&mut reader_lf).unwrap();
    assert_eq!(response, "Another mocked response.");
}

#[test]
fn two_consecutive_lines_come_in_order() {
    let mut source = MemSource::from_text("first\nsecond\n");
    assert_eq!(read_reply_from_bufread(&mut source).unwrap(), "first");
    assert_eq!(read_reply_from_bufread(&mut source).unwrap(), "second");
}

#[test]
fn read_at_end_of_input_is_empty_not_an_error() {
    let mut empty = MemSource::from_text("");
    assert_eq!(read_password_from_bufread(&mut empty).unwrap(), "");

    let mut source = MemSource::from_text("only\n");
    assert_eq!(read_password_from_bufread(&mut source).unwrap(), "only");
    assert_eq!(read_password_from_bufread(&mut source).unwrap(), "");
    assert_eq!(read_password_from_bufread(&mut source).unwrap(), "");
}

#[test]
fn failing_source_surfaces_its_os_error() {
    let mut source = FailingSource::new(InputError::Os(5));
    assert_eq!(read_password_from_bufread(&mut source), Err(InputError::Os(5)));
}

#[test]
fn failing_source_surfaces_an_unknown_error() {
    let mut source = FailingSource::new(InputError::Unknown);
    assert_eq!(read_reply_from_bufread(&mut source), Err(InputError::Unknown));
}

#[test]
fn source_with_no_terminator_still_yields_its_text() {
    let mut source = MemSource::from_text("tail without newline");
    assert_eq!(read_password_from_bufread(&mut source).unwrap(), "tail without newline");
    assert_eq!(read_password_from_bufread(&mut source).unwrap(), "");
}
