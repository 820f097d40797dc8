use ratbagtui::action::{ButtonAction, Payload};
use ratbagtui::device::{
    DeviceError, MouseButton, MouseDevice, RemoteCall, RemotePath, Stage, Step,
};

fn path(text: &str) -> RemotePath {
    RemotePath::new(text.to_string())
}

fn sample() -> MouseDevice {
    MouseDevice {
        name: "Test Mouse".to_string(),
        dpi: 800,
        valid_dpis: vec![400, 800, 1600],
        buttons: vec![
            MouseButton { index: 0, action: ButtonAction::Button(1), path: path("/b/0") },
            MouseButton { index: 1, action: ButtonAction::Button(2), path: path("/b/1") },
            MouseButton { index: 2, action: ButtonAction::Unknown, path: path("/b/2") },
        ],
        device_path: path("/device/0"),
        resolution_path: path("/resolution/1"),
    }
}

#[test]
fn a_handle_keeps_its_text() {
    let handle = path("/org/freedesktop/ratbag1/device/x");
    assert_eq!(handle.as_str(), "/org/freedesktop/ratbag1/device/x");
    assert_eq!(handle.clone(), handle);
    assert_ne!(handle, path("/org/freedesktop/ratbag1/device/y"));
}

#[test]
fn set_dpi_begins_with_the_write() {
    let mut device = sample();
    let step = device.set_dpi(1600, Stage::Start);
    assert_eq!(
        step,
        Step::Call(RemoteCall::WriteResolution {
            path: path("/resolution/1"),
            value: Payload::Wrapped(Box::new(Payload::U32(1600))),
        })
    );
    assert_eq!(device, sample());
}

#[test]
fn set_dpi_commits_after_the_write() {
    let mut device = sample();
    let step = device.set_dpi(1600, Stage::Written(Ok(())));
    assert_eq!(step, Step::Call(RemoteCall::Commit { path: path("/device/0") }));
    assert_eq!(device, sample());
}

#[test]
fn set_dpi_takes_effect_after_the_commit() {
    let mut device = sample();
    let step = device.set_dpi(1600, Stage::Committed(Ok(())));
    assert_eq!(step, Step::Done(Ok(())));
    let mut expected = sample();
    expected.dpi = 1600;
    assert_eq!(device, expected);
}

#[test]
fn set_dpi_leaves_the_snapshot_when_the_write_fails() {
    let mut device = sample();
    let step = device.set_dpi(1600, Stage::Written(Err("no such object".to_string())));
    assert_eq!(step, Step::Done(Err(DeviceError::Protocol("no such object".to_string()))));
    assert_eq!(device, sample());
}

#[test]
fn set_dpi_leaves_the_snapshot_when_the_commit_fails() {
    let mut device = sample();
    let step = device.set_dpi(1600, Stage::Committed(Err("timed out".to_string())));
    assert_eq!(step, Step::Done(Err(DeviceError::Protocol("timed out".to_string()))));
    assert_eq!(device, sample());
}

#[test]
fn set_dpi_runs_through_all_stages() {
    let mut device = sample();
    let mut calls = Vec::new();
    let mut stage = Stage::Start;
    let result = loop {
        match device.set_dpi(400, stage) {
            Step::Call(call) => {
                stage = if calls.is_empty() {
                    Stage::Written(Ok(()))
                } else {
                    Stage::Committed(Ok(()))
                };
                calls.push(call);
            }
            Step::Done(result) => break result,
        }
    };
    assert_eq!(result, Ok(()));
    assert_eq!(
        calls,
        vec![
            RemoteCall::WriteResolution {
            path: path("/resolution/1"),
            value: Payload::Wrapped(Box::new(Payload::U32(400))),
        },
            RemoteCall::Commit { path: path("/device/0") },
        ]
    );
    assert_eq!(device.dpi, 400);
}

#[test]
fn set_button_begins_with_the_write() {
    let mut device = sample();
    let step = device.set_button(1, ButtonAction::Button(3), Stage::Start);
    assert_eq!(
        step,
        Step::Call(RemoteCall::WriteMapping {
            path: path("/b/1"),
            type_code: 1,
            value: Payload::U32(3),
        })
    );
    assert_eq!(device, sample());
}

#[test]
fn set_button_writes_no_action_as_zero() {
    let mut device = sample();
    let step = device.set_button(0, ButtonAction::NoAction, Stage::Start);
    assert_eq!(
        step,
        Step::Call(RemoteCall::WriteMapping {
            path: path("/b/0"),
            type_code: 0,
            value: Payload::U32(0),
        })
    );
}

#[test]
fn set_button_writes_special_and_key_actions() {
    let mut device = sample();
    assert_eq!(
        device.set_button(2, ButtonAction::Special(17), Stage::Start),
        Step::Call(RemoteCall::WriteMapping {
            path: path("/b/2"),
            type_code: 2,
            value: Payload::U32(17),
        })
    );
    assert_eq!(
        device.set_button(2, ButtonAction::Key(30), Stage::Start),
        Step::Call(RemoteCall::WriteMapping {
            path: path("/b/2"),
            type_code: 3,
            value: Payload::U32(30),
        })
    );
}

#[test]
fn set_button_commits_after_the_write() {
    let mut device = sample();
    let step = device.set_button(1, ButtonAction::Button(3), Stage::Written(Ok(())));
    assert_eq!(step, Step::Call(RemoteCall::Commit { path: path("/device/0") }));
    assert_eq!(device, sample());
}

#[test]
fn set_button_takes_effect_after_the_commit() {
    let mut device = sample();
    let step = device.set_button(1, ButtonAction::Button(3), Stage::Committed(Ok(())));
    assert_eq!(step, Step::Done(Ok(())));
    let mut expected = sample();
    expected.buttons[1].action = ButtonAction::Button(3);
    assert_eq!(device, expected);
    assert_eq!(device.buttons[1].index, 1);
    assert_eq!(device.buttons[1].path, path("/b/1"));
    assert_eq!(device.buttons[0].action, ButtonAction::Button(1));
}

#[test]
fn set_button_leaves_the_snapshot_when_a_call_fails() {
    let mut device = sample();
    let step = device.set_button(0, ButtonAction::Key(4), Stage::Written(Err("denied".to_string())));
    assert_eq!(step, Step::Done(Err(DeviceError::Protocol("denied".to_string()))));
    assert_eq!(device, sample());
    let step =
        device.set_button(0, ButtonAction::Key(4), Stage::Committed(Err("busy".to_string())));
    assert_eq!(step, Step::Done(Err(DeviceError::Protocol("busy".to_string()))));
    assert_eq!(device, sample());
}

#[test]
fn set_button_with_unknown_makes_no_call_and_succeeds() {
    let mut device = sample();
    assert_eq!(device.set_button(0, ButtonAction::Unknown, Stage::Start), Step::Done(Ok(())));
    assert_eq!(device, sample());
    assert_eq!(
        device.set_button(0, ButtonAction::Unknown, Stage::Committed(Ok(()))),
        Step::Done(Ok(()))
    );
    assert_eq!(device, sample());
    assert_eq!(
        device.set_button(0, ButtonAction::Unknown, Stage::Written(Err("x".to_string()))),
        Step::Done(Ok(()))
    );
    assert_eq!(device, sample());
}

#[test]
fn an_error_gives_its_reason() {
    assert_eq!(DeviceError::Protocol("write failed".to_string()).message(), "write failed");
    assert_eq!(DeviceError::Connection("no bus".to_string()).message(), "no bus");
}

#[test]
fn a_copy_of_a_snapshot_equals_it() {
    let device = sample();
    let copy = device.clone();
    assert_eq!(copy, device);
    assert_eq!(copy.buttons[2].clone(), device.buttons[2]);
    let empty = MouseDevice {
        name: String::new(),
        dpi: 0,
        valid_dpis: vec![],
        buttons: vec![],
        device_path: path(""),
        resolution_path: path(""),
    };
    assert_eq!(empty.clone(), empty);
}
