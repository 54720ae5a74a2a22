use clash_service_ipc::repair::{
    acquire_repair_mutex, acquire_service_repair_gate, enter_repair_gate, repair_mutex_name,
    GateAcquisition, GateEntry, GateEvent, MutexGate, ServiceRepairGate,
    REPAIR_IN_PROGRESS_EXIT_CODE,
};

/// The mutexes that exist, by name. Creating one that exists succeeds, and leaves
/// the code that tells so.
struct Mutexes {
    names: Vec<String>,
}

impl Mutexes {
    fn acquire(&mut self, name: &str) -> Option<ServiceRepairGate<String>> {
        let last_error = if self.names.iter().any(|held| held == name) {
            183
        } else {
            self.names.push(name.to_string());
            0
        };
        match acquire_repair_mutex(Ok(name.to_string()), last_error) {
            MutexGate::Held(gate) => Some(gate),
            MutexGate::Busy { close } => {
                assert_eq!(close, name);
                None
            }
            MutexGate::Failed(message) => panic!("{message}"),
        }
    }

    fn release(&mut self, gate: ServiceRepairGate<String>) {
        self.names.retain(|name| *name != gate.holder);
    }
}

#[test]
fn windows_repair_mutex_is_exclusive_and_released_on_drop() {
    let name = repair_mutex_name("stable");
    assert_eq!(name, r"Global\clash-service-stable-repair");
    let mut mutexes = Mutexes { names: Vec::new() };
    let first = mutexes
        .acquire(&name)
        .expect("first repair gate must be acquired");
    assert!(
        mutexes.acquire(&name).is_none(),
        "a concurrent repair gate must be rejected"
    );
    mutexes.release(first);
    assert!(
        mutexes.acquire(&name).is_some(),
        "repair gate must be reusable after release"
    );
}

#[test]
fn mutex_that_cannot_be_created_is_told() {
    match acquire_repair_mutex::<u32>(Err("denied".to_string()), 0) {
        MutexGate::Failed(message) => assert_eq!(
            message,
            "failed to create the service repair mutex: denied"
        ),
        _ => panic!("must fail"),
    }
}

fn lock(events: Vec<GateEvent<u32>>) -> Result<Option<u32>, String> {
    let mut pending = GateAcquisition::PrepareDirectory;
    for event in events {
        pending = acquire_service_repair_gate("\"/x/.repair.lock\"", pending, event);
        if let GateAcquisition::Finished { result } = pending {
            return result.map(|gate| gate.map(|gate| gate.holder));
        }
    }
    panic!("not finished")
}

#[test]
fn unix_lock_is_taken_or_left_to_another_repair() {
    let events = |last| {
        vec![
            GateEvent::Done,
            GateEvent::Opened(9),
            GateEvent::Done,
            last,
        ]
    };
    assert_eq!(lock(events(GateEvent::Done)), Ok(Some(9)));
    assert_eq!(lock(events(GateEvent::WouldBlock)), Ok(None));
    assert_eq!(
        lock(events(GateEvent::Failed("io".to_string()))),
        Err("failed to lock service repair gate \"/x/.repair.lock\": io".to_string())
    );
    assert_eq!(
        lock(vec![GateEvent::Failed("io".to_string())]),
        Err("io".to_string())
    );
    assert_eq!(
        lock(vec![GateEvent::Done, GateEvent::Failed("io".to_string())]),
        Err("failed to open service repair gate \"/x/.repair.lock\": io".to_string())
    );
    assert_eq!(
        lock(vec![
            GateEvent::Done,
            GateEvent::Opened(9),
            GateEvent::Failed("io".to_string())
        ]),
        Err("failed to secure service repair gate \"/x/.repair.lock\": io".to_string())
    );
}

#[test]
fn second_repair_leaves_with_its_own_code() {
    match enter_repair_gate::<u32>(None) {
        GateEntry::Leave { message, exit_code } => {
            assert_eq!(message, "Service repair is already in progress");
            assert_eq!(exit_code, REPAIR_IN_PROGRESS_EXIT_CODE);
            assert_eq!(exit_code, 75);
        }
        GateEntry::Enter(_) => panic!("must leave"),
    }
    assert!(matches!(
        enter_repair_gate(Some(ServiceRepairGate { holder: 4 })),
        GateEntry::Enter(ServiceRepairGate { holder: 4 })
    ));
}

#[test]
fn unix_lock_is_exclusive_and_free_again_after_release() {
    let mut holder: Option<u32> = None;
    let acquire = |file: u32, holder: &mut Option<u32>| {
        let answer = match holder {
            Some(_) => GateEvent::WouldBlock,
            None => {
                *holder = Some(file);
                GateEvent::Done
            }
        };
        lock(vec![
            GateEvent::Done,
            GateEvent::Opened(file),
            GateEvent::Done,
            answer,
        ])
    };
    assert_eq!(acquire(3, &mut holder), Ok(Some(3)));
    assert_eq!(acquire(4, &mut holder), Ok(None));
    holder = None;
    assert_eq!(acquire(5, &mut holder), Ok(Some(5)));
}
