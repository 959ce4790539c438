use beatsmr::bindless::{background_dispatch, readable_dot_count, BackgroundDispatch};

#[test]
fn background_dispatch_sizes() {
    assert_eq!(background_dispatch(0), BackgroundDispatch { buffer_bytes: 0, workgroups: 0 });
    assert_eq!(background_dispatch(1), BackgroundDispatch { buffer_bytes: 16, workgroups: 1 });
    assert_eq!(background_dispatch(64), BackgroundDispatch { buffer_bytes: 1024, workgroups: 1 });
    assert_eq!(background_dispatch(65), BackgroundDispatch { buffer_bytes: 1040, workgroups: 2 });
    assert_eq!(background_dispatch(2000), BackgroundDispatch { buffer_bytes: 32000, workgroups: 32 });
}

#[test]
fn dots_read_back_while_both_buffers_hold_them() {
    assert_eq!(readable_dot_count(10, 160, 160), 10);
    assert_eq!(readable_dot_count(10, 1600, 1600), 10);
    assert_eq!(readable_dot_count(10, 159, 160), 9);
    assert_eq!(readable_dot_count(10, 160, 47), 2);
    assert_eq!(readable_dot_count(10, 0, 160), 0);
    assert_eq!(readable_dot_count(0, 160, 160), 0);
}
