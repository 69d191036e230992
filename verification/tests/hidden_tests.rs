use rpassword::hidden::{enter_hidden, hidden_mode_value, release_hidden, TermState};
use rpassword::read_password_from_fd;
use rpassword::FailingSource;
use rpassword::InputError;
use rpassword::MemSource;

const ECHO_MASK: u64 = 0x8;
const ECHONL_MASK: u64 = 0x40;

#[test]
fn mode_restored_after_successful_read() {
    let original: u64 = 0x4f3b;
    let mut term = TermState { flags: original };
    let mut source = MemSource::from_text("secret\n");
    let r = read_password_from_fd(&mut source, &mut term, ECHO_MASK, ECHONL_MASK);
    assert_eq!(r.unwrap(), "secret");
    assert_eq!(term.flags, original);
}

#[test]
fn mode_restored_after_failing_read() {
    let original: u64 = 0x4f3b;
    let mut term = TermState { flags: original };
    let mut source = FailingSource::new(InputError::Os(4));
    let r = read_password_from_fd(&mut source, &mut term, ECHO_MASK, ECHONL_MASK);
    assert_eq!(r, Err(InputError::Os(4)));
    assert_eq!(term.flags, original);
}

#[test]
fn hidden_mode_suppresses_echo_and_keeps_newline() {
    let flags: u64 = 0xffff;
    let hidden = hidden_mode_value(flags, ECHO_MASK, ECHONL_MASK);
    assert_eq!(hidden & ECHO_MASK, 0);
    assert_eq!(hidden & ECHONL_MASK, ECHONL_MASK);
    assert_eq!(hidden | ECHO_MASK, flags | ECHONL_MASK);
}

#[test]
fn scope_restores_mode_exactly() {
    let original: u64 = 0x20c5;
    let mut term = TermState { flags: original };
    let guard = enter_hidden(&mut term, ECHO_MASK, ECHONL_MASK);
    assert_eq!(term.flags & ECHO_MASK, 0);
    release_hidden(&mut term, guard);
    assert_eq!(term.flags, original);
}

#[test]
fn nested_guards_released_in_reverse_order_restore_mode() {
    let original: u64 = 0x1b2d;
    let mut term = TermState { flags: original };
    let first = enter_hidden(&mut term, ECHO_MASK, ECHONL_MASK);
    let after_first = term.flags;
    let second = enter_hidden(&mut term, ECHO_MASK, ECHONL_MASK);
    assert_eq!(term.flags, after_first);
    release_hidden(&mut term, second);
    assert_eq!(term.flags, after_first);
    release_hidden(&mut term, first);
    assert_eq!(term.flags, original);
}
