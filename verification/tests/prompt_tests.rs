use rpassword::hidden::TermState;
use rpassword::prompt_and_read_secret_from;
use rpassword::prompt_reply_from_bufread;
use rpassword::MemSink;
use rpassword::MemSource;

const ECHO_MASK: u64 = 0x8;
const ECHONL_MASK: u64 = 0x40;

#[test]
fn prompt_and_read_secret_writes_prompt_and_returns_secret() {
    let mut source = MemSource::from_text("hunter2\n");
    let mut sink = MemSink::new();
    let mut term = TermState { flags: 0x4107 };
    let r = prompt_and_read_secret_from(
        &mut source,
        &mut sink,
        "Password: ",
        false,
        &mut term,
        ECHO_MASK,
        ECHONL_MASK,
    );
    assert_eq!(r.unwrap(), "hunter2");
    assert_eq!(sink.contents(), "Password: ");
    assert_eq!(term.flags, 0x4107);
}

#[test]
fn prompt_and_read_secret_on_a_terminal_restores_the_mode() {
    let mut source = MemSource::from_text("hunter2\n");
    let mut sink = MemSink::new();
    let mut term = TermState { flags: 0x4107 };
    let r = prompt_and_read_secret_from(
        &mut source,
        &mut sink,
        "Password: ",
        true,
        &mut term,
        ECHO_MASK,
        ECHONL_MASK,
    );
    assert_eq!(r.unwrap(), "hunter2");
    assert_eq!(sink.contents(), "Password: ");
    assert_eq!(term.flags, 0x4107);
}

#[test]
fn prompt_reply_writes_prompt_verbatim_and_reads_reply() {
    let mut source = MemSource::from_text("Alex\n");
    let mut sink = MemSink::new();
    let r = prompt_reply_from_bufread(&mut source, &mut sink, "What's your name? ");
    assert_eq!(r.unwrap(), "Alex");
    assert_eq!(sink.contents(), "What's your name? ");
}

#[test]
fn consecutive_prompts_accumulate_in_the_sink() {
    let mut source = MemSource::from_text("one\ntwo\n");
    let mut sink = MemSink::new();
    assert_eq!(prompt_reply_from_bufread(&mut source, &mut sink, "a: ").unwrap(), "one");
    assert_eq!(prompt_reply_from_bufread(&mut source, &mut sink, "b: ").unwrap(), "two");
    assert_eq!(sink.contents(), "a: b: ");
}
