use evalsa_worker::wait_status::{decode, Termination};

#[test]
fn normal_exit_reports_its_code() {
    assert_eq!(decode(0), Termination::Exited(0));
    assert_eq!(decode(1 << 8), Termination::Exited(1));
    assert_eq!(decode(42 << 8), Termination::Exited(42));
    assert_eq!(decode(255 << 8), Termination::Exited(255));
}

#[test]
fn kill_signal_is_told_apart() {
    assert_eq!(decode(9), Termination::Killed);
    assert_eq!(decode(9 | 0x80), Termination::Killed);
}

#[test]
fn other_signals_keep_their_number() {
    assert_eq!(decode(11), Termination::Signaled(11));
    assert_eq!(decode(11 | 0x80), Termination::Signaled(11));
    assert_eq!(decode(6), Termination::Signaled(6));
    assert_eq!(decode(15), Termination::Signaled(15));
}

#[test]
fn exit_code_ignores_higher_bits() {
    assert_eq!(decode(0x1_2300), Termination::Exited(0x23));
}
