use pwwwd::server::{TaskHandle, TaskHub, TaskHubError};

fn keep(handle: TaskHandle, tag: u32) -> (TaskHandle, u32) {
    (handle, tag)
}

#[test]
fn only_one_permit_at_a_time() {
    let hub = TaskHub::new();
    let (held, tag) = hub.exclusively_exec(keep, 1).unwrap();
    assert_eq!(tag, 1);
    match hub.exclusively_exec(keep, 2) {
        Err((e, arg)) => {
            assert_eq!(e, TaskHubError::Busy);
            assert_eq!(arg, 2);
        }
        Ok(_) => panic!("a second permit was granted"),
    }
    assert!(hub.exclusively_exec(keep, 3).is_err());
    drop(held);
    let (again, tag) = hub.exclusively_exec(keep, 4).unwrap();
    assert_eq!(tag, 4);
    drop(again);
}

#[test]
fn finishing_releases_once() {
    let hub = TaskHub::new();
    let (mut held, _) = hub.exclusively_exec(keep, 0).unwrap();
    assert!(held.finish());
    assert!(!held.finish());
    let (other, _) = hub.exclusively_exec(keep, 1).unwrap();
    drop(other);
}

#[test]
fn finished_permit_does_not_free_a_later_one() {
    let hub = TaskHub::new();
    let (mut held, _) = hub.exclusively_exec(keep, 0).unwrap();
    assert!(held.finish());
    let (other, _) = hub.exclusively_exec(keep, 1).unwrap();
    // Dropping the resolved permit leaves the later one in force.
    drop(held);
    assert!(hub.exclusively_exec(keep, 2).is_err());
    drop(other);
    assert!(hub.exclusively_exec(keep, 3).is_ok());
}

#[test]
fn busy_message_names_busy() {
    assert!(TaskHubError::Busy.message().contains("busy"));
}
