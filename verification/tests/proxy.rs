use clash_service_ipc::error::ServiceErrorCode;
use clash_service_ipc::native::Platform;
use clash_service_ipc::proxy::{
    append_failure, apply_service_proxy_or_direct, clear_proxy_with_direct_compensation,
    clear_service_proxy, compensate_service_proxy, restore_direct_proxy, DirectRestoration,
    ProxyApplication, ProxyApplyOutcome, ProxyCall, ProxyClearing,
};

fn fails(text: &str) -> Result<(), String> {
    Err(text.to_string())
}

#[test]
fn proxy_is_managed_on_macos_outside_of_tests() {
    assert_eq!(clear_service_proxy(Platform::Macos, false), ProxyCall::System);
    assert_eq!(clear_service_proxy(Platform::Macos, true), ProxyCall::Nothing);
    assert_eq!(clear_service_proxy(Platform::Linux, false), ProxyCall::Nothing);
    assert_eq!(compensate_service_proxy(Platform::Macos, false), ProxyCall::System);
    assert_eq!(compensate_service_proxy(Platform::Windows, false), ProxyCall::Nothing);
    assert!(matches!(
        apply_service_proxy_or_direct(false, true),
        ProxyApplication::System
    ));
    assert!(matches!(
        apply_service_proxy_or_direct(true, true),
        ProxyApplication::Outcome(ProxyApplyOutcome::Applied)
    ));
    assert!(matches!(
        apply_service_proxy_or_direct(true, false),
        ProxyApplication::Outcome(ProxyApplyOutcome::NotRequested)
    ));
}

#[test]
fn uncleared_proxy_is_reported_even_if_compensated() {
    assert!(matches!(
        clear_proxy_with_direct_compensation(ProxyClearing::ClearProxy, Ok(())),
        ProxyClearing::Finished { result: Ok(()) }
    ));
    for (outcome, message) in [
        (Ok(()), "Failed to clear the active owner's proxy: c"),
        (
            fails("d"),
            "Failed to clear the active owner's proxy: c; direct compensation failed: d",
        ),
    ] {
        let pending = clear_proxy_with_direct_compensation(ProxyClearing::ClearProxy, fails("c"));
        match clear_proxy_with_direct_compensation(pending, outcome) {
            ProxyClearing::Finished { result: Err(error) } => {
                assert_eq!(error.code, ServiceErrorCode::ProxyClearFailed);
                assert_eq!(error.message, message);
            }
            _ => panic!("must be reported"),
        }
    }
}

#[test]
fn rejected_proxy_is_given_up_by_either_step() {
    assert!(matches!(
        restore_direct_proxy(DirectRestoration::ClearProxy, Ok(())),
        DirectRestoration::Finished { result: Ok(()) }
    ));
    let pending = restore_direct_proxy(DirectRestoration::ClearProxy, fails("c"));
    assert!(matches!(
        restore_direct_proxy(pending, Ok(())),
        DirectRestoration::Finished { result: Ok(()) }
    ));
    let pending = restore_direct_proxy(DirectRestoration::ClearProxy, fails("c"));
    match restore_direct_proxy(pending, fails("d")) {
        DirectRestoration::Finished { result } => assert_eq!(
            result,
            fails("failed to clear the rejected owner's proxy: c; direct compensation failed: d")
        ),
        _ => panic!("must be finished"),
    }
}

#[test]
fn second_failures_follow_the_first() {
    assert_eq!(append_failure("a".to_string(), "; b: ", &Ok(())), "a");
    assert_eq!(append_failure("a".to_string(), "; b: ", &fails("c")), "a; b: c");
}
