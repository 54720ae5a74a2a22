use clash_service_ipc::barrier::{
    test_proxy_barrier_arm, test_proxy_barrier_block_if_armed,
    test_proxy_barrier_note_start_waiting, test_proxy_barrier_release, test_proxy_barrier_reset,
    test_proxy_barrier_wait, ProxyBarrier, TEST_PROXY_ENTERED, TEST_PROXY_RELEASED,
    TEST_START_WAITING,
};

#[test]
fn barrier_holds_one_application_until_it_is_released() {
    let mut barrier = ProxyBarrier::new();
    assert!(!test_proxy_barrier_block_if_armed(&mut barrier));
    test_proxy_barrier_arm(&mut barrier);
    assert_eq!(barrier.state, 1);
    assert!(!test_proxy_barrier_wait(&barrier, TEST_PROXY_ENTERED));
    assert!(test_proxy_barrier_block_if_armed(&mut barrier));
    assert_eq!(barrier.state, 3);
    assert!(test_proxy_barrier_wait(&barrier, TEST_PROXY_ENTERED));
    assert!(!test_proxy_barrier_block_if_armed(&mut barrier));
    assert!(!test_proxy_barrier_wait(&barrier, TEST_PROXY_RELEASED));
    test_proxy_barrier_release(&mut barrier);
    assert_eq!(barrier.state, 11);
    assert!(test_proxy_barrier_wait(&barrier, TEST_PROXY_RELEASED));
    assert!(!test_proxy_barrier_block_if_armed(&mut barrier));
    test_proxy_barrier_reset(&mut barrier);
    assert_eq!(barrier.state, 0);
}

#[test]
fn start_is_noted_only_while_it_waits_behind_the_barrier() {
    let mut barrier = ProxyBarrier::new();
    test_proxy_barrier_arm(&mut barrier);
    assert!(!test_proxy_barrier_note_start_waiting(&mut barrier, true));
    test_proxy_barrier_block_if_armed(&mut barrier);
    assert!(!test_proxy_barrier_note_start_waiting(&mut barrier, false));
    assert!(!test_proxy_barrier_wait(&barrier, TEST_START_WAITING));
    assert!(test_proxy_barrier_note_start_waiting(&mut barrier, true));
    assert!(test_proxy_barrier_wait(&barrier, TEST_START_WAITING));
    assert_eq!(barrier.state, 7);
    test_proxy_barrier_release(&mut barrier);
    assert!(!test_proxy_barrier_note_start_waiting(&mut barrier, true));
    assert_eq!(barrier.state, 15);
}
