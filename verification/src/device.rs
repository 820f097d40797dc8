//! The local snapshot of one device and the protocol that changes it.
//!
//! The daemon owns the device. A change is written to the remote object,
//! then committed on the device object, and only then taken over into the
//! snapshot. The functions here decide which remote call comes next and what
//! an outcome means; a driver performs the calls.

use crate::action::{encode, encode_dpi, ButtonAction, Payload};
use vstd::prelude::*;

verus! {

/// The handle of a remote object. It is an identity: the snapshot keeps it
/// and hands it back in remote calls, and nothing in this crate looks inside.
#[derive(Debug, PartialEq, Eq)]
pub struct RemotePath {
    text: String,
}

impl View for RemotePath {
    type V = Seq<char>;

    closed spec fn view(&self) -> Seq<char> {
        self.text@
    }
}

impl RemotePath {
    /// The handle written as `text`.
    pub fn new(text: String) -> (path: RemotePath)
        ensures
            path@ == text@,
    {
        RemotePath { text }
    }

    /// The handle as text.
    pub fn as_str(&self) -> (text: &str)
        ensures
            text@ == self@,
    {
        self.text.as_str()
    }
}

impl Clone for RemotePath {
    fn clone(&self) -> (copy: RemotePath)
        ensures
            copy == *self,
    {
        RemotePath { text: self.text.clone() }
    }
}

/// One button of the device.
#[derive(Debug, PartialEq, Eq)]
pub struct MouseButton {
    /// The number the daemon gave the button.
    pub index: u32,
    /// What the button does.
    pub action: ButtonAction,
    /// The remote button object.
    pub path: RemotePath,
}

/// The snapshot of one device under its active profile.
#[derive(Debug, PartialEq, Eq)]
pub struct MouseDevice {
    /// The name shown for the device.
    pub name: String,
    /// The resolution in use; zero while none is known.
    pub dpi: u32,
    /// The resolutions the device offers, in the daemon's order.
    pub valid_dpis: Vec<u32>,
    /// The buttons, in the order in which they were found.
    pub buttons: Vec<MouseButton>,
    /// The remote device object.
    pub device_path: RemotePath,
    /// The remote object of the active resolution.
    pub resolution_path: RemotePath,
}

/// Why an operation on the remote device failed.
#[derive(Debug, PartialEq, Eq)]
pub enum DeviceError {
    /// The daemon cannot be reached.
    Connection(String),
    /// A remote read, write or commit failed.
    Protocol(String),
}

/// A call that changes the remote device.
#[derive(Debug, PartialEq, Eq)]
pub enum RemoteCall {
    /// Write the value of a resolution object.
    WriteResolution { path: RemotePath, value: Payload },
    /// Write the mapping of a button object.
    WriteMapping { path: RemotePath, type_code: u32, value: Payload },
    /// Have a device object apply what was written.
    Commit { path: RemotePath },
}

/// How far a change has come: what the driver has done for it so far, and
/// how the last call ended. A failed call carries the reason as text.
#[derive(Debug, PartialEq, Eq)]
pub enum Stage {
    /// No call was made yet.
    Start,
    /// The write was performed.
    Written(Result<(), String>),
    /// The write succeeded and the commit was performed.
    Committed(Result<(), String>),
}

/// What has to happen next for a change.
#[derive(Debug, PartialEq, Eq)]
pub enum Step {
    /// The driver performs this call and reports how it ended.
    Call(RemoteCall),
    /// The change is over, with this result.
    Done(Result<(), DeviceError>),
}

/// Whether the change is to be taken over into the snapshot at this stage:
/// only once the commit has succeeded.
pub open spec fn takes_effect(stage: Stage) -> bool {
    match stage {
        Stage::Committed(Ok(_)) => true,
        _ => false,
    }
}

/// The next step of a change that is written by `write` and committed by
/// `commit`. A failed call ends the change with the reason it gave; no call
/// is repeated.
pub open spec fn next_step(stage: Stage, write: RemoteCall, commit: RemoteCall) -> Step {
    match stage {
        Stage::Start => Step::Call(write),
        Stage::Written(Ok(_)) => Step::Call(commit),
        Stage::Written(Err(reason)) => Step::Done(Err(DeviceError::Protocol(reason))),
        Stage::Committed(Ok(_)) => Step::Done(Ok(())),
        Stage::Committed(Err(reason)) => Step::Done(Err(DeviceError::Protocol(reason))),
    }
}

/// An error as a mathematical value.
pub enum ErrorView {
    Connection(Seq<char>),
    Protocol(Seq<char>),
}

impl View for DeviceError {
    type V = ErrorView;

    open spec fn view(&self) -> ErrorView {
        match self {
            DeviceError::Connection(reason) => ErrorView::Connection(reason@),
            DeviceError::Protocol(reason) => ErrorView::Protocol(reason@),
        }
    }
}

impl DeviceError {
    /// The reason as text.
    pub open spec fn reason(self) -> Seq<char> {
        match self {
            DeviceError::Connection(reason) => reason@,
            DeviceError::Protocol(reason) => reason@,
        }
    }

    /// The reason as text.
    pub fn message(&self) -> (text: &str)
        ensures
            text@ == self.reason(),
    {
        match self {
            DeviceError::Connection(reason) => reason.as_str(),
            DeviceError::Protocol(reason) => reason.as_str(),
        }
    }
}

/// The snapshot as a mathematical value.
pub struct DeviceView {
    pub name: Seq<char>,
    pub dpi: u32,
    pub valid_dpis: Seq<u32>,
    pub buttons: Seq<MouseButton>,
    pub device_path: RemotePath,
    pub resolution_path: RemotePath,
}

impl DeviceView {
    /// The snapshot with another resolution in use.
    pub open spec fn with_dpi(self, dpi: u32) -> DeviceView {
        DeviceView { dpi, ..self }
    }

    /// The snapshot with another action on the button at position `slot`.
    pub open spec fn with_action(self, slot: int, action: ButtonAction) -> DeviceView
        recommends
            0 <= slot < self.buttons.len(),
    {
        DeviceView {
            buttons: self.buttons.update(slot, MouseButton { action, ..self.buttons[slot] }),
            ..self
        }
    }

    /// The call that writes `dpi` to the active resolution object.
    pub open spec fn resolution_write(self, dpi: u32) -> RemoteCall {
        RemoteCall::WriteResolution { path: self.resolution_path, value: encode_dpi(dpi) }
    }

    /// The call that writes a mapping to the button at position `slot`.
    pub open spec fn mapping_write(self, slot: int, mapping: (u32, Payload)) -> RemoteCall
        recommends
            0 <= slot < self.buttons.len(),
    {
        RemoteCall::WriteMapping {
            path: self.buttons[slot].path,
            type_code: mapping.0,
            value: mapping.1,
        }
    }

    /// The call that has the device apply what was written.
    pub open spec fn commit(self) -> RemoteCall {
        RemoteCall::Commit { path: self.device_path }
    }

    /// The step that a change of the resolution to `dpi` takes at `stage`.
    pub open spec fn dpi_step(self, dpi: u32, stage: Stage) -> Step {
        next_step(stage, self.resolution_write(dpi), self.commit())
    }

    /// The snapshot after that step.
    pub open spec fn after_dpi_step(self, dpi: u32, stage: Stage) -> DeviceView {
        if takes_effect(stage) {
            self.with_dpi(dpi)
        } else {
            self
        }
    }

    /// The step that a change of the button at position `slot` to `action`
    /// takes at `stage`. An action that cannot be written is never sent:
    /// the change is over at once, and counts as done.
    pub open spec fn button_step(self, slot: int, action: ButtonAction, stage: Stage) -> Step
        recommends
            0 <= slot < self.buttons.len(),
    {
        match encode(action) {
            Some(mapping) => next_step(stage, self.mapping_write(slot, mapping), self.commit()),
            None => Step::Done(Ok(())),
        }
    }

    /// The snapshot after that step.
    pub open spec fn after_button_step(
        self,
        slot: int,
        action: ButtonAction,
        stage: Stage,
    ) -> DeviceView
        recommends
            0 <= slot < self.buttons.len(),
    {
        if takes_effect(stage) && encode(action) is Some {
            self.with_action(slot, action)
        } else {
            self
        }
    }
}

impl View for MouseDevice {
    type V = DeviceView;

    open spec fn view(&self) -> DeviceView {
        DeviceView {
            name: self.name@,
            dpi: self.dpi,
            valid_dpis: self.valid_dpis@,
            buttons: self.buttons@,
            device_path: self.device_path,
            resolution_path: self.resolution_path,
        }
    }
}

impl Clone for MouseButton {
    fn clone(&self) -> (copy: MouseButton)
        ensures
            copy == *self,
    {
        MouseButton { index: self.index, action: self.action, path: self.path.clone() }
    }
}

impl Clone for MouseDevice {
    fn clone(&self) -> (copy: MouseDevice)
        ensures
            copy@ == self@,
    {
        let mut valid_dpis: Vec<u32> = Vec::new();
        let mut i: usize = 0;
        while i < self.valid_dpis.len()
            invariant
                i <= self.valid_dpis@.len(),
                valid_dpis@ == self.valid_dpis@.take(i as int),
            decreases self.valid_dpis@.len() - i,
        {
            valid_dpis.push(self.valid_dpis[i]);
            i = i + 1;
            assert(valid_dpis@ =~= self.valid_dpis@.take(i as int));
        }
        assert(valid_dpis@ =~= self.valid_dpis@);
        let mut buttons: Vec<MouseButton> = Vec::new();
        let mut k: usize = 0;
        while k < self.buttons.len()
            invariant
                k <= self.buttons@.len(),
                buttons@ == self.buttons@.take(k as int),
            decreases self.buttons@.len() - k,
        {
            buttons.push(self.buttons[k].clone());
            k = k + 1;
            assert(buttons@ =~= self.buttons@.take(k as int));
        }
        assert(buttons@ =~= self.buttons@);
        MouseDevice {
            name: self.name.clone(),
            dpi: self.dpi,
            valid_dpis,
            buttons,
            device_path: self.device_path.clone(),
            resolution_path: self.resolution_path.clone(),
        }
    }
}

impl MouseDevice {
    /// The call that has the device apply what was written.
    fn commit_call(&self) -> (call: RemoteCall)
        ensures
            call == self@.commit(),
    {
        RemoteCall::Commit { path: self.device_path.clone() }
    }

    /// Takes a change of the resolution to `dpi` one step further.
    ///
    /// The value is written to the active resolution object, then the device
    /// is asked to commit. The snapshot takes the new resolution when the
    /// commit has succeeded, and is left as it was at every other stage. A
    /// call that failed ends the change with the reason it gave.
    pub fn set_dpi(&mut self, dpi: u32, stage: Stage) -> (step: Step)
        ensures
            step == old(self)@.dpi_step(dpi, stage),
            final(self)@ == old(self)@.after_dpi_step(dpi, stage),
    {
        match stage {
            Stage::Start => Step::Call(
                RemoteCall::WriteResolution {
                    path: self.resolution_path.clone(),
                    value: Payload::from_dpi(dpi),
                },
            ),
            Stage::Written(Ok(_)) => Step::Call(self.commit_call()),
            Stage::Written(Err(reason)) => Step::Done(Err(DeviceError::Protocol(reason))),
            Stage::Committed(Ok(_)) => {
                self.dpi = dpi;
                Step::Done(Ok(()))
            },
            Stage::Committed(Err(reason)) => Step::Done(Err(DeviceError::Protocol(reason))),
        }
    }

    /// Takes a change of the button at position `button_index` to `action`
    /// one step further.
    ///
    /// `Unknown` is never written: the change then is over at once, without
    /// a call, and counts as done. Any other action is written to the button
    /// object and committed on the device. The snapshot takes the action
    /// when the commit has succeeded, and is left as it was at every other
    /// stage. A call that failed ends the change with the reason it gave.
    pub fn set_button(&mut self, button_index: usize, action: ButtonAction, stage: Stage) -> (step:
        Step)
        requires
            button_index < old(self).buttons@.len(),
        ensures
            step == old(self)@.button_step(button_index as int, action, stage),
            final(self)@ == old(self)@.after_button_step(button_index as int, action, stage),
    {
        let mapping = match action.to_mapping() {
            Some(mapping) => mapping,
            None => {
                return Step::Done(Ok(()));
            },
        };
        match stage {
            Stage::Start => Step::Call(
                RemoteCall::WriteMapping {
                    path: self.buttons[button_index].path.clone(),
                    type_code: mapping.0,
                    value: mapping.1,
                },
            ),
            Stage::Written(Ok(_)) => Step::Call(self.commit_call()),
            Stage::Written(Err(reason)) => Step::Done(Err(DeviceError::Protocol(reason))),
            Stage::Committed(Ok(_)) => {
                self.buttons[button_index].action = action;
                Step::Done(Ok(()))
            },
            Stage::Committed(Err(reason)) => Step::Done(Err(DeviceError::Protocol(reason))),
        }
    }
}

/// Whether the call that led to the stage failed.
pub open spec fn failed(stage: Stage) -> bool {
    match stage {
        Stage::Written(Err(_)) => true,
        Stage::Committed(Err(_)) => true,
        _ => false,
    }
}

/// A change goes through its calls in order: first the write, after the
/// write the commit, and after the commit nothing more.
pub proof fn lemma_change_in_order(device: DeviceView, dpi: u32, slot: int, action: ButtonAction)
    requires
        encode(action) is Some,
    ensures
        device.dpi_step(dpi, Stage::Start) == Step::Call(device.resolution_write(dpi)),
        device.dpi_step(dpi, Stage::Written(Ok(()))) == Step::Call(device.commit()),
        device.dpi_step(dpi, Stage::Committed(Ok(()))) == Step::Done(Ok(())),
        device.button_step(slot, action, Stage::Start) == Step::Call(
            device.mapping_write(slot, encode(action).unwrap()),
        ),
        device.button_step(slot, action, Stage::Written(Ok(()))) == Step::Call(device.commit()),
        device.button_step(slot, action, Stage::Committed(Ok(()))) == Step::Done(Ok(())),
{
}

/// A call that fails ends the change with an error and leaves the snapshot
/// as it was, whichever call it is.
pub proof fn lemma_failure_changes_nothing(
    device: DeviceView,
    dpi: u32,
    slot: int,
    action: ButtonAction,
    stage: Stage,
)
    requires
        failed(stage),
        encode(action) is Some,
    ensures
        device.after_dpi_step(dpi, stage) == device,
        device.after_button_step(slot, action, stage) == device,
        device.dpi_step(dpi, stage) matches Step::Done(Err(_)),
        device.button_step(slot, action, stage) matches Step::Done(Err(_)),
{
}

/// Until the commit has succeeded the snapshot is as it was.
pub proof fn lemma_no_effect_before_commit(
    device: DeviceView,
    dpi: u32,
    slot: int,
    action: ButtonAction,
    stage: Stage,
)
    requires
        !takes_effect(stage),
    ensures
        device.after_dpi_step(dpi, stage) == device,
        device.after_button_step(slot, action, stage) == device,
{
}

/// A change of the resolution that succeeds changes the resolution in use
/// and nothing else.
pub proof fn lemma_dpi_change_is_exact(device: DeviceView, dpi: u32)
    ensures
        device.after_dpi_step(dpi, Stage::Committed(Ok(()))) == (DeviceView { dpi, ..device }),
{
}

/// A change of a button that succeeds changes the action of that button
/// and nothing else: not its number, not its handle, no other button, no
/// other part of the snapshot.
pub proof fn lemma_button_change_is_exact(device: DeviceView, slot: int, action: ButtonAction)
    requires
        0 <= slot < device.buttons.len(),
        encode(action) is Some,
    ensures
        ({
            let after = device.after_button_step(slot, action, Stage::Committed(Ok(())));
            &&& after.buttons.len() == device.buttons.len()
            &&& after.buttons[slot].action == action
            &&& after.buttons[slot].index == device.buttons[slot].index
            &&& after.buttons[slot].path == device.buttons[slot].path
            &&& forall|other: int|
                0 <= other < device.buttons.len() && other != slot ==> after.buttons[other]
                    == device.buttons[other]
            &&& after == (DeviceView { buttons: after.buttons, ..device })
        }),
{
}

/// An action that cannot be written is never sent: at every stage the
/// change is over without a call, counts as done, and leaves the snapshot
/// as it was.
pub proof fn lemma_unknown_is_never_sent(device: DeviceView, slot: int, stage: Stage)
    ensures
        device.button_step(slot, ButtonAction::Unknown, stage) == Step::Done(Ok(())),
        device.after_button_step(slot, ButtonAction::Unknown, stage) == device,
{
}

/// Whether a payload has a form on the wire: it is a number, or a payload
/// of that kind in an envelope.
pub open spec fn is_writable(value: Payload) -> bool
    decreases value,
{
    match value {
        Payload::U32(_) => true,
        Payload::Wrapped(inner) => is_writable(*inner),
        Payload::Other => false,
    }
}

/// Every value that a change asks to write has a form on the wire.
pub proof fn lemma_written_values_are_writable(
    device: DeviceView,
    dpi: u32,
    slot: int,
    action: ButtonAction,
    stage: Stage,
)
    ensures
        device.dpi_step(dpi, stage) matches Step::Call(
            RemoteCall::WriteResolution { value, .. },
        ) ==> is_writable(value),
        device.button_step(slot, action, stage) matches Step::Call(
            RemoteCall::WriteMapping { value, .. },
        ) ==> is_writable(value),
{
    reveal_with_fuel(is_writable, 3);
}

} // verus!
