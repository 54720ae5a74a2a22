use clash_service_ipc::windows_service::{
    has_raw_error, remove_windows_service_if_exists, RemovalEvent, ServiceManagerError,
    ServiceRemoval, POLL_ATTEMPTS,
};

fn error(code: i32) -> ServiceManagerError {
    ServiceManagerError {
        raw_os_error: Some(code),
        text: format!("code {code}"),
    }
}

/// A service manager with one service, or none.
struct Manager {
    exists: bool,
    running: bool,
    marked: bool,
    stop_code: Option<i32>,
    polls_until_stopped: usize,
    polls_until_deleted: usize,
    pauses: usize,
    steps: Vec<&'static str>,
}

fn manager() -> Manager {
    Manager {
        exists: true,
        running: true,
        marked: false,
        stop_code: None,
        polls_until_stopped: 0,
        polls_until_deleted: 0,
        pauses: 0,
        steps: Vec::new(),
    }
}

impl Manager {
    fn perform(&mut self, pending: &ServiceRemoval) -> RemovalEvent {
        match pending {
            ServiceRemoval::Connect => RemovalEvent::Done,
            ServiceRemoval::Open => {
                self.steps.push("open");
                if !self.exists {
                    RemovalEvent::Failed(error(1060))
                } else if self.marked {
                    RemovalEvent::Failed(error(1072))
                } else {
                    RemovalEvent::Done
                }
            }
            ServiceRemoval::QueryStatus => RemovalEvent::Status {
                stopped: !self.running,
            },
            ServiceRemoval::Stop => {
                self.steps.push("stop");
                match self.stop_code {
                    Some(code) => RemovalEvent::Failed(error(code)),
                    None => RemovalEvent::Done,
                }
            }
            ServiceRemoval::AwaitStop { .. } => {
                let stopped = self.polls_until_stopped == 0;
                self.polls_until_stopped = self.polls_until_stopped.saturating_sub(1);
                RemovalEvent::Status { stopped }
            }
            ServiceRemoval::PauseStop { .. } | ServiceRemoval::PauseDeletion { .. } => {
                self.pauses += 1;
                RemovalEvent::Done
            }
            ServiceRemoval::Delete => {
                self.steps.push("delete");
                RemovalEvent::Done
            }
            ServiceRemoval::AwaitDeletion { .. } => {
                if self.polls_until_deleted == 0 {
                    self.exists = false;
                    return RemovalEvent::Failed(error(1060));
                }
                self.polls_until_deleted -= 1;
                if self.marked {
                    RemovalEvent::Failed(error(1072))
                } else {
                    RemovalEvent::Done
                }
            }
            ServiceRemoval::Finished { .. } => unreachable!(),
        }
    }

    fn remove(&mut self) -> Result<bool, String> {
        let mut pending = ServiceRemoval::Connect;
        loop {
            let event = self.perform(&pending);
            pending = remove_windows_service_if_exists("clash \"svc\"", pending, event);
            if let ServiceRemoval::Finished { result } = pending {
                return result;
            }
        }
    }
}

#[test]
fn removing_a_missing_service_is_idempotent() {
    let mut missing = manager();
    missing.exists = false;

    assert_eq!(missing.remove(), Ok(false));
    assert_eq!(missing.remove(), Ok(false));
    assert_eq!(missing.steps, ["open", "open"]);
}

#[test]
fn running_service_is_stopped_deleted_and_awaited() {
    let mut service = manager();
    service.polls_until_stopped = 2;
    service.polls_until_deleted = 3;
    assert_eq!(service.remove(), Ok(true));
    assert_eq!(service.steps, ["open", "stop", "delete"]);
    assert_eq!(service.pauses, 5);
    assert_eq!(service.remove(), Ok(false));
}

#[test]
fn stopped_service_is_only_deleted() {
    let mut service = manager();
    service.running = false;
    assert_eq!(service.remove(), Ok(true));
    assert_eq!(service.steps, ["open", "delete"]);
}

#[test]
fn marked_service_is_only_awaited() {
    let mut service = manager();
    service.marked = true;
    service.polls_until_deleted = 4;
    assert_eq!(service.remove(), Ok(true));
    assert_eq!(service.steps, ["open"]);
    assert_eq!(service.pauses, 4);
}

#[test]
fn service_that_stops_by_itself_counts_as_stopped() {
    let mut service = manager();
    service.stop_code = Some(1062);
    assert_eq!(service.remove(), Ok(true));
    let mut service = manager();
    service.stop_code = Some(5);
    assert_eq!(service.remove(), Err("code 5".to_string()));
}

#[test]
fn service_that_does_not_go_is_given_up() {
    let mut service = manager();
    service.polls_until_stopped = 10_000;
    assert_eq!(
        service.remove(),
        Err("timed out waiting for Windows service \"clash \\\"svc\\\"\" to stop".to_string())
    );
    assert_eq!(service.pauses, POLL_ATTEMPTS - 1);

    let mut service = manager();
    service.polls_until_deleted = 10_000;
    assert_eq!(
        service.remove(),
        Err(
            "timed out waiting for Windows service \"clash \\\"svc\\\"\" to be deleted"
                .to_string()
        )
    );
    assert_eq!(service.pauses, POLL_ATTEMPTS - 1);
}

#[test]
fn other_failures_end_the_removal() {
    let ends = |pending| {
        match remove_windows_service_if_exists("x", pending, RemovalEvent::Failed(error(5))) {
            ServiceRemoval::Finished { result } => assert_eq!(result, Err("code 5".to_string())),
            _ => panic!("must be finished"),
        }
    };
    ends(ServiceRemoval::Connect);
    ends(ServiceRemoval::Open);
    ends(ServiceRemoval::QueryStatus);
    ends(ServiceRemoval::AwaitStop { attempt: 0 });
    ends(ServiceRemoval::Delete);
    ends(ServiceRemoval::AwaitDeletion { attempt: 0 });
    for code in [1060, 1072] {
        assert!(matches!(
            remove_windows_service_if_exists(
                "x",
                ServiceRemoval::AwaitStop { attempt: 3 },
                RemovalEvent::Failed(error(code))
            ),
            ServiceRemoval::Delete
        ));
        assert!(matches!(
            remove_windows_service_if_exists(
                "x",
                ServiceRemoval::Delete,
                RemovalEvent::Failed(error(code))
            ),
            ServiceRemoval::AwaitDeletion { attempt: 0 }
        ));
    }
    assert!(has_raw_error(&error(1060), 1060));
    assert!(!has_raw_error(
        &ServiceManagerError {
            raw_os_error: None,
            text: String::new()
        },
        1060
    ));
}
