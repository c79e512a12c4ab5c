use pwwwd::cli::{ResizeOption, TransitionKind};
use pwwwd::dispatch::{
    busy_reply, conclude_image, plan, ImageArgs, Message, Plan, DEFAULT_TRANSITION_DURATION_NS,
    DEFAULT_TRANSITION_FPS,
};
use pwwwd::ipc::Reply;
use pwwwd::restore::Restore;
use pwwwd::server::{TaskHandle, TaskHub};
use pwwwd::transition_state::TransitionState;

fn image(path: &str, transition: TransitionKind, no_interrupt: bool) -> ImageArgs {
    ImageArgs {
        path: path.to_string(),
        resize: ResizeOption::Crop,
        transition,
        duration: None,
        fps: None,
        no_interrupt,
        fill_rgb: (1, 2, 3),
    }
}

#[test]
fn kill_shuts_down() {
    assert_eq!(plan(&Message::Kill), Plan::Shutdown);
}

#[test]
fn no_transition_switches_now() {
    let m = Message::Image { args: image("/tmp/a.png", TransitionKind::No, false) };
    assert_eq!(plan(&m), Plan::SwitchNow);
}

#[test]
fn transition_takes_defaults() {
    let m = Message::Image { args: image("/tmp/a.png", TransitionKind::Xfd, false) };
    assert_eq!(
        plan(&m),
        Plan::StartTransition {
            duration: DEFAULT_TRANSITION_DURATION_NS,
            fps: DEFAULT_TRANSITION_FPS,
            keep_permit: false
        }
    );
    assert_eq!(DEFAULT_TRANSITION_DURATION_NS, 3_000_000_000);
    assert_eq!(DEFAULT_TRANSITION_FPS, 30);
}

#[test]
fn transition_takes_given_timing() {
    let mut args = image("/tmp/b.png", TransitionKind::Wipe, true);
    args.duration = Some(500_000_000);
    args.fps = Some(60);
    assert_eq!(
        plan(&Message::Image { args }),
        Plan::StartTransition { duration: 500_000_000, fps: 60, keep_permit: true }
    );
}

#[test]
fn immediate_switch_records_restore() {
    let args = image("/tmp/a.png", TransitionKind::No, false);
    assert_eq!(plan(&Message::Image { args: image("/tmp/a.png", TransitionKind::No, false) }), Plan::SwitchNow);
    let (reply, record) = conclude_image(&args, Ok(()));
    assert!(matches!(reply, Reply::Success));
    let rec = record.unwrap();
    assert_eq!(rec.file_path, "/tmp/a.png");
    assert_eq!(rec.resize_option, ResizeOption::Crop);
    assert_eq!(rec.fill_rgb, (1, 2, 3));
}

#[test]
fn failed_switch_answers_error() {
    let args = image("/tmp/missing.png", TransitionKind::No, false);
    let (reply, record) = conclude_image(&args, Err("cannot open".to_string()));
    match reply {
        Reply::Error(m) => assert_eq!(m, "cannot open"),
        Reply::Success => panic!("expected an error reply"),
    }
    assert!(record.is_none());
}

#[test]
fn failed_transition_load_answers_error() {
    let args = image("/tmp/missing.png", TransitionKind::Xfd, false);
    let (reply, record) = conclude_image(&args, Err("cannot open".to_string()));
    match reply {
        Reply::Error(m) => assert_eq!(m, "cannot open"),
        Reply::Success => panic!("expected an error reply"),
    }
    assert!(record.is_none());
}

#[test]
fn transition_load_records_restore() {
    let args = image("/tmp/b.png", TransitionKind::Wipe, false);
    let (reply, record) = conclude_image(&args, Ok(()));
    assert!(matches!(reply, Reply::Success));
    assert_eq!(record.unwrap().file_path, "/tmp/b.png");
}

fn keep(handle: TaskHandle, _: ()) -> TaskHandle {
    handle
}

#[test]
fn request_during_uninterruptible_transition_is_busy() {
    let hub = TaskHub::new();
    let first = hub.exclusively_exec(keep, ()).unwrap();
    let m = Message::Image { args: image("/tmp/a.png", TransitionKind::Xfd, true) };
    let keep_permit = match plan(&m) {
        Plan::StartTransition { keep_permit, .. } => keep_permit,
        _ => panic!("expected a transition"),
    };
    assert!(keep_permit);
    let _running = TransitionState::new(0, 3_000_000_000, 30, Some(first));
    match hub.exclusively_exec(keep, ()) {
        Err((e, ())) => match busy_reply(e) {
            Reply::Error(m) => assert!(m.contains("busy")),
            Reply::Success => panic!("expected an error reply"),
        },
        Ok(_) => panic!("the transition was interrupted"),
    }
}

#[test]
fn restore_record_keeps_fields() {
    let r = Restore::new("/home/test/test.jpg", ResizeOption::No, (0, 0, 0));
    assert_eq!(r.file_path, "/home/test/test.jpg");
    assert_eq!(r.resize_option, ResizeOption::No);
    assert_eq!(r.fill_rgb, (0, 0, 0));
}
