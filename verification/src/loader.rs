//! The snapshot loader: a walk over the daemon's objects that ends in one
//! snapshot for each active profile.
//!
//! The walk is a state machine. It names the remote read that it is waiting
//! for; the driver performs the read and hands in the reply, and the walk
//! names the next read or ends. The first read that fails ends the walk
//! with an error: a load yields all snapshots or none.

use crate::action::{decode, decode_dpi, ButtonAction, Payload};
use crate::device::{
    DeviceError, DeviceView, ErrorView, MouseButton, MouseDevice, RemotePath,
};
use vstd::prelude::*;
use vstd::string::*;

verus! {

/// A remote read.
#[derive(Debug, PartialEq, Eq)]
pub enum ReadRequest {
    /// Reach the daemon.
    Connect,
    /// The handles of all devices, from the manager object.
    Devices,
    /// The name of a device.
    DeviceName(RemotePath),
    /// The handles of a device's profiles.
    DeviceProfiles(RemotePath),
    /// Whether a profile is the active one.
    ProfileIsActive(RemotePath),
    /// The handles of a profile's resolutions.
    ProfileResolutions(RemotePath),
    /// Whether a resolution is the active one.
    ResolutionIsActive(RemotePath),
    /// The value of a resolution.
    ResolutionValue(RemotePath),
    /// The values that a resolution can take.
    ResolutionChoices(RemotePath),
    /// The handles of a profile's buttons.
    ProfileButtons(RemotePath),
    /// The number of a button.
    ButtonIndex(RemotePath),
    /// The mapping of a button: a type code and a payload.
    ButtonMapping(RemotePath),
}

/// What a remote read gave.
#[derive(Debug, PartialEq, Eq)]
pub enum ReadReply {
    /// The daemon was reached.
    Connected,
    /// A list of handles.
    Paths(Vec<RemotePath>),
    /// A text.
    Text(String),
    /// A truth value.
    Flag(bool),
    /// A number.
    Number(u32),
    /// A list of numbers.
    Numbers(Vec<u32>),
    /// A dynamically typed value.
    Value(Payload),
    /// A type code and a payload.
    Mapping(u32, Payload),
    /// The read failed, for this reason.
    Failed(String),
}

/// The read that a walk is waiting for, without the object it is on.
#[derive(Debug, Clone, Copy, PartialEq, Eq, Structural)]
pub enum Phase {
    Connect,
    Devices,
    DeviceName,
    DeviceProfiles,
    ProfileIsActive,
    ProfileResolutions,
    ResolutionIsActive,
    ResolutionValue,
    ResolutionChoices,
    ProfileButtons,
    ButtonIndex,
    ButtonMapping,
}

/// The state of a walk.
#[derive(Debug)]
pub struct Loader {
    phase: Phase,
    found: Vec<MouseDevice>,
    devices: Vec<RemotePath>,
    device_at: usize,
    name: String,
    profiles: Vec<RemotePath>,
    profile_at: usize,
    resolutions: Vec<RemotePath>,
    resolution_at: usize,
    dpi: u32,
    valid_dpis: Vec<u32>,
    resolution_path: Option<RemotePath>,
    button_paths: Vec<RemotePath>,
    button_at: usize,
    button_index: u32,
    buttons: Vec<MouseButton>,
}

/// Where a walk stands.
#[derive(Debug)]
pub enum LoadStage {
    /// At the beginning.
    Start,
    /// The read that the walk was waiting for has given this reply.
    Replied(Loader, ReadReply),
}

/// What has to happen next for a walk.
#[derive(Debug)]
pub enum LoadStep {
    /// The driver performs this read and hands in the reply with the walk.
    Read(Loader, ReadRequest),
    /// The walk is over, with this result.
    Done(Result<Vec<MouseDevice>, DeviceError>),
}

/// A reply as a mathematical value.
pub enum ReplyView {
    Connected,
    Paths(Seq<RemotePath>),
    Text(Seq<char>),
    Flag(bool),
    Number(u32),
    Numbers(Seq<u32>),
    Value(Payload),
    Mapping(u32, Payload),
    Failed(Seq<char>),
}

impl View for ReadReply {
    type V = ReplyView;

    open spec fn view(&self) -> ReplyView {
        match self {
            ReadReply::Connected => ReplyView::Connected,
            ReadReply::Paths(paths) => ReplyView::Paths(paths@),
            ReadReply::Text(text) => ReplyView::Text(text@),
            ReadReply::Flag(flag) => ReplyView::Flag(*flag),
            ReadReply::Number(number) => ReplyView::Number(*number),
            ReadReply::Numbers(numbers) => ReplyView::Numbers(numbers@),
            ReadReply::Value(value) => ReplyView::Value(*value),
            ReadReply::Mapping(type_code, payload) => ReplyView::Mapping(*type_code, *payload),
            ReadReply::Failed(reason) => ReplyView::Failed(reason@),
        }
    }
}

/// The state of a walk as a mathematical value. Each list holds what is
/// still to be visited, and begins with the object that is being visited.
pub struct LoaderView {
    /// The read that the walk is waiting for.
    pub phase: Phase,
    /// The snapshots that are complete.
    pub found: Seq<DeviceView>,
    /// The devices.
    pub devices: Seq<RemotePath>,
    /// The name of the device that is being visited.
    pub name: Seq<char>,
    /// The profiles of that device.
    pub profiles: Seq<RemotePath>,
    /// The resolutions of the profile that is being visited.
    pub resolutions: Seq<RemotePath>,
    /// The resolution in use, as far as the walk has seen.
    pub dpi: u32,
    /// The resolutions on offer, as far as the walk has seen.
    pub valid_dpis: Seq<u32>,
    /// The object of the resolution in use, as far as the walk has seen.
    pub resolution_path: Option<RemotePath>,
    /// The buttons of the profile that is being visited.
    pub button_paths: Seq<RemotePath>,
    /// The number of the button that is being visited.
    pub button_index: u32,
    /// The buttons that are complete.
    pub buttons: Seq<MouseButton>,
}

/// What has to happen next for a walk, as a mathematical value.
pub enum LoadStepView {
    Read(LoaderView, ReadRequest),
    Done(Result<Seq<DeviceView>, ErrorView>),
}

/// The reason given when a reply is not of the kind that the read gives.
pub open spec fn unexpected_reply() -> Seq<char> {
    "unexpected reply"@
}

/// The reason given when an active profile has no resolution.
pub open spec fn no_resolution() -> Seq<char> {
    "active profile without a resolution"@
}

/// The values of a list of snapshots.
pub open spec fn snapshots_of(devices: Seq<MouseDevice>) -> Seq<DeviceView> {
    Seq::new(devices.len(), |i: int| devices[i]@)
}

impl LoaderView {
    /// The state of a walk at its beginning.
    pub open spec fn initial() -> LoaderView {
        LoaderView {
            phase: Phase::Connect,
            found: Seq::empty(),
            devices: Seq::empty(),
            name: Seq::empty(),
            profiles: Seq::empty(),
            resolutions: Seq::empty(),
            dpi: 0,
            valid_dpis: Seq::empty(),
            resolution_path: None,
            button_paths: Seq::empty(),
            button_index: 0,
            buttons: Seq::empty(),
        }
    }

    /// Whatever the walk is waiting for is a read on an object that it is
    /// visiting.
    pub open spec fn wf(self) -> bool {
        match self.phase {
            Phase::Connect | Phase::Devices => true,
            Phase::DeviceName | Phase::DeviceProfiles => self.devices.len() > 0,
            Phase::ProfileIsActive | Phase::ProfileResolutions => {
                &&& self.devices.len() > 0
                &&& self.profiles.len() > 0
            },
            Phase::ResolutionIsActive | Phase::ResolutionValue | Phase::ResolutionChoices => {
                &&& self.devices.len() > 0
                &&& self.profiles.len() > 0
                &&& self.resolutions.len() > 0
                &&& self.resolution_path is Some
            },
            Phase::ProfileButtons => {
                &&& self.devices.len() > 0
                &&& self.profiles.len() > 0
                &&& self.resolution_path is Some
            },
            Phase::ButtonIndex | Phase::ButtonMapping => {
                &&& self.devices.len() > 0
                &&& self.profiles.len() > 0
                &&& self.resolution_path is Some
                &&& self.button_paths.len() > 0
            },
        }
    }

    /// The read that the walk is waiting for.
    pub open spec fn request(self) -> ReadRequest {
        match self.phase {
            Phase::Connect => ReadRequest::Connect,
            Phase::Devices => ReadRequest::Devices,
            Phase::DeviceName => ReadRequest::DeviceName(self.devices[0]),
            Phase::DeviceProfiles => ReadRequest::DeviceProfiles(self.devices[0]),
            Phase::ProfileIsActive => ReadRequest::ProfileIsActive(self.profiles[0]),
            Phase::ProfileResolutions => ReadRequest::ProfileResolutions(self.profiles[0]),
            Phase::ResolutionIsActive => ReadRequest::ResolutionIsActive(self.resolutions[0]),
            Phase::ResolutionValue => ReadRequest::ResolutionValue(self.resolutions[0]),
            Phase::ResolutionChoices => ReadRequest::ResolutionChoices(self.resolutions[0]),
            Phase::ProfileButtons => ReadRequest::ProfileButtons(self.profiles[0]),
            Phase::ButtonIndex => ReadRequest::ButtonIndex(self.button_paths[0]),
            Phase::ButtonMapping => ReadRequest::ButtonMapping(self.button_paths[0]),
        }
    }

    /// The walk waiting for the read of `phase`.
    pub open spec fn waiting_for(self, phase: Phase) -> LoadStepView {
        let next = LoaderView { phase, ..self };
        LoadStepView::Read(next, next.request())
    }

    /// The snapshot of the profile that is being visited, once its
    /// resolutions and buttons have been seen.
    pub open spec fn snapshot(self) -> DeviceView {
        DeviceView {
            name: self.name,
            dpi: self.dpi,
            valid_dpis: self.valid_dpis,
            buttons: self.buttons,
            device_path: self.devices[0],
            resolution_path: self.resolution_path.unwrap(),
        }
    }

    /// Goes on with the first device that is still to be visited: its name
    /// is read. Without one the walk is over, and yields what it has found.
    pub open spec fn visit_device(self) -> LoadStepView {
        if self.devices.len() == 0 {
            LoadStepView::Done(Ok(self.found))
        } else {
            self.waiting_for(Phase::DeviceName)
        }
    }

    /// Goes on with the first profile that is still to be visited: whether
    /// it is active is read. Without one the device is done.
    pub open spec fn visit_profile(self) -> LoadStepView {
        if self.profiles.len() == 0 {
            (LoaderView { devices: self.devices.drop_first(), ..self }).visit_device()
        } else {
            self.waiting_for(Phase::ProfileIsActive)
        }
    }

    /// Goes on with the first resolution that is still to be visited:
    /// whether it is active is read. Without one the buttons come next.
    pub open spec fn visit_resolution(self) -> LoadStepView {
        if self.resolutions.len() == 0 {
            self.waiting_for(Phase::ProfileButtons)
        } else {
            self.waiting_for(Phase::ResolutionIsActive)
        }
    }

    /// Goes on with the first button that is still to be visited: its
    /// number is read. Without one the profile is done: its snapshot joins
    /// those that were found.
    pub open spec fn visit_button(self) -> LoadStepView {
        if self.button_paths.len() == 0 {
            (LoaderView {
                found: self.found.push(self.snapshot()),
                profiles: self.profiles.drop_first(),
                valid_dpis: Seq::empty(),
                buttons: Seq::empty(),
                ..self
            }).visit_profile()
        } else {
            self.waiting_for(Phase::ButtonIndex)
        }
    }

    /// The end of a walk by an error for this reason.
    pub open spec fn fail(reason: Seq<char>) -> LoadStepView {
        LoadStepView::Done(Err(ErrorView::Protocol(reason)))
    }

    /// What follows when the read that the walk is waiting for gives
    /// `reply`.
    ///
    /// A read that failed ends the walk: with a connection error where the
    /// daemon could not be reached, with a protocol error everywhere else.
    /// So does a reply of a kind that the read does not give. An inactive
    /// profile is passed over without a read of what it holds. Of the
    /// resolutions of an active profile only an active one is read further;
    /// where several are active, the last one counts. An active profile
    /// without any resolution ends the walk with a protocol error.
    pub open spec fn feed(self, reply: ReplyView) -> LoadStepView {
        match (self.phase, reply) {
            (Phase::Connect, ReplyView::Failed(reason)) => LoadStepView::Done(
                Err(ErrorView::Connection(reason)),
            ),
            (_, ReplyView::Failed(reason)) => Self::fail(reason),
            (Phase::Connect, ReplyView::Connected) => self.waiting_for(Phase::Devices),
            (Phase::Devices, ReplyView::Paths(devices)) => (LoaderView {
                devices,
                ..self
            }).visit_device(),
            (Phase::DeviceName, ReplyView::Text(name)) => (LoaderView {
                name,
                ..self
            }).waiting_for(Phase::DeviceProfiles),
            (Phase::DeviceProfiles, ReplyView::Paths(profiles)) => (LoaderView {
                profiles,
                ..self
            }).visit_profile(),
            (Phase::ProfileIsActive, ReplyView::Flag(active)) => if active {
                self.waiting_for(Phase::ProfileResolutions)
            } else {
                (LoaderView { profiles: self.profiles.drop_first(), ..self }).visit_profile()
            },
            (Phase::ProfileResolutions, ReplyView::Paths(resolutions)) => if resolutions.len()
                == 0 {
                Self::fail(no_resolution())
            } else {
                (LoaderView {
                    resolutions,
                    dpi: 0,
                    valid_dpis: Seq::empty(),
                    resolution_path: Some(resolutions[0]),
                    ..self
                }).visit_resolution()
            },
            (Phase::ResolutionIsActive, ReplyView::Flag(active)) => if active {
                self.waiting_for(Phase::ResolutionValue)
            } else {
                (LoaderView {
                    resolutions: self.resolutions.drop_first(),
                    ..self
                }).visit_resolution()
            },
            (Phase::ResolutionValue, ReplyView::Value(value)) => (LoaderView {
                dpi: decode_dpi(value),
                ..self
            }).waiting_for(Phase::ResolutionChoices),
            (Phase::ResolutionChoices, ReplyView::Numbers(choices)) => (LoaderView {
                valid_dpis: choices,
                resolution_path: Some(self.resolutions[0]),
                resolutions: self.resolutions.drop_first(),
                ..self
            }).visit_resolution(),
            (Phase::ProfileButtons, ReplyView::Paths(button_paths)) => (LoaderView {
                button_paths,
                buttons: Seq::empty(),
                ..self
            }).visit_button(),
            (Phase::ButtonIndex, ReplyView::Number(index)) => (LoaderView {
                button_index: index,
                ..self
            }).waiting_for(Phase::ButtonMapping),
            (Phase::ButtonMapping, ReplyView::Mapping(type_code, payload)) => (LoaderView {
                buttons: self.buttons.push(
                    MouseButton {
                        index: self.button_index,
                        action: decode(type_code, payload),
                        path: self.button_paths[0],
                    },
                ),
                button_paths: self.button_paths.drop_first(),
                ..self
            }).visit_button(),
            _ => Self::fail(unexpected_reply()),
        }
    }
}

/// A read that fails ends the walk, wherever the walk stands: with a
/// connection error where the daemon could not be reached, with a protocol
/// error everywhere else. The error carries the reason of the read; what
/// the walk had found so far is not part of the result.
pub proof fn lemma_failed_read_ends_walk(walk: LoaderView, reason: Seq<char>)
    ensures
        walk.phase == Phase::Connect ==> walk.feed(ReplyView::Failed(reason))
            == LoadStepView::Done(Err(ErrorView::Connection(reason))),
        walk.phase != Phase::Connect ==> walk.feed(ReplyView::Failed(reason))
            == LoadStepView::Done(Err(ErrorView::Protocol(reason))),
{
}

/// A walk that goes on asks for the read that it is waiting for, and is in
/// a state in which that read is one on an object that it is visiting.
pub proof fn lemma_walk_goes_on(walk: LoaderView, reply: ReplyView)
    requires
        walk.wf(),
    ensures
        walk.feed(reply) matches LoadStepView::Read(next, request) ==> next.wf() && request
            == next.request(),
{
}

/// What follows at a stage of a walk.
pub open spec fn load_step(stage: LoadStage) -> LoadStepView {
    match stage {
        LoadStage::Start => LoaderView::initial().waiting_for(Phase::Connect),
        LoadStage::Replied(loader, reply) => loader@.feed(reply@),
    }
}

impl View for Loader {
    type V = LoaderView;

    closed spec fn view(&self) -> LoaderView {
        LoaderView {
            phase: self.phase,
            found: snapshots_of(self.found@),
            devices: self.devices@.skip(self.device_at as int),
            name: self.name@,
            profiles: self.profiles@.skip(self.profile_at as int),
            resolutions: self.resolutions@.skip(self.resolution_at as int),
            dpi: self.dpi,
            valid_dpis: self.valid_dpis@,
            resolution_path: self.resolution_path,
            button_paths: self.button_paths@.skip(self.button_at as int),
            button_index: self.button_index,
            buttons: self.buttons@,
        }
    }
}

impl View for LoadStep {
    type V = LoadStepView;

    open spec fn view(&self) -> LoadStepView {
        match self {
            LoadStep::Read(loader, request) => LoadStepView::Read(loader@, *request),
            LoadStep::Done(Ok(devices)) => LoadStepView::Done(Ok(snapshots_of(devices@))),
            LoadStep::Done(Err(error)) => LoadStepView::Done(Err(error@)),
        }
    }
}

impl LoadStage {
    /// The walk of the stage is in a state that a walk can reach.
    pub open spec fn wf(self) -> bool {
        match self {
            LoadStage::Start => true,
            LoadStage::Replied(loader, _) => loader.wf(),
        }
    }
}

impl LoadStep {
    /// The walk of the step is in a state that a walk can reach, and the
    /// read is the one that it is waiting for.
    pub open spec fn wf(self) -> bool {
        match self {
            LoadStep::Read(loader, request) => loader.wf() && request == loader@.request(),
            LoadStep::Done(_) => true,
        }
    }
}

impl Loader {
    /// Each list is visited from its beginning.
    closed spec fn within(self) -> bool {
        &&& self.device_at <= self.devices@.len()
        &&& self.profile_at <= self.profiles@.len()
        &&& self.resolution_at <= self.resolutions@.len()
        &&& self.button_at <= self.button_paths@.len()
    }

    /// The walk is in a state that a walk can reach.
    pub closed spec fn wf(self) -> bool {
        self.within() && self@.wf()
    }

    /// The state of a walk at its beginning.
    fn start() -> (loader: Loader)
        ensures
            loader@ == LoaderView::initial(),
            loader.within(),
    {
        let loader = Loader {
            phase: Phase::Connect,
            found: Vec::new(),
            devices: Vec::new(),
            device_at: 0,
            name: String::new(),
            profiles: Vec::new(),
            profile_at: 0,
            resolutions: Vec::new(),
            resolution_at: 0,
            dpi: 0,
            valid_dpis: Vec::new(),
            resolution_path: None,
            button_paths: Vec::new(),
            button_at: 0,
            button_index: 0,
            buttons: Vec::new(),
        };
        assert(loader@.found =~= Seq::<DeviceView>::empty());
        assert(loader@.devices =~= Seq::<RemotePath>::empty());
        assert(loader@.profiles =~= Seq::<RemotePath>::empty());
        assert(loader@.resolutions =~= Seq::<RemotePath>::empty());
        assert(loader@.button_paths =~= Seq::<RemotePath>::empty());
        loader
    }

    /// The read that the walk is waiting for.
    fn request(&self) -> (request: ReadRequest)
        requires
            self.wf(),
        ensures
            request == self@.request(),
    {
        match self.phase {
            Phase::Connect => ReadRequest::Connect,
            Phase::Devices => ReadRequest::Devices,
            Phase::DeviceName => ReadRequest::DeviceName(self.devices[self.device_at].clone()),
            Phase::DeviceProfiles => ReadRequest::DeviceProfiles(
                self.devices[self.device_at].clone(),
            ),
            Phase::ProfileIsActive => ReadRequest::ProfileIsActive(
                self.profiles[self.profile_at].clone(),
            ),
            Phase::ProfileResolutions => ReadRequest::ProfileResolutions(
                self.profiles[self.profile_at].clone(),
            ),
            Phase::ResolutionIsActive => ReadRequest::ResolutionIsActive(
                self.resolutions[self.resolution_at].clone(),
            ),
            Phase::ResolutionValue => ReadRequest::ResolutionValue(
                self.resolutions[self.resolution_at].clone(),
            ),
            Phase::ResolutionChoices => ReadRequest::ResolutionChoices(
                self.resolutions[self.resolution_at].clone(),
            ),
            Phase::ProfileButtons => ReadRequest::ProfileButtons(
                self.profiles[self.profile_at].clone(),
            ),
            Phase::ButtonIndex => ReadRequest::ButtonIndex(self.button_paths[self.button_at].clone()),
            Phase::ButtonMapping => ReadRequest::ButtonMapping(
                self.button_paths[self.button_at].clone(),
            ),
        }
    }

    /// The walk waiting for the read of `phase`.
    fn waiting_for(self, phase: Phase) -> (step: LoadStep)
        requires
            self.within(),
            (LoaderView { phase, ..self@ }).wf(),
        ensures
            step@ == self@.waiting_for(phase),
            step.wf(),
    {
        let mut walk = self;
        walk.phase = phase;
        let request = walk.request();
        LoadStep::Read(walk, request)
    }

    /// Goes on with the first device that is still to be visited.
    fn visit_device(self) -> (step: LoadStep)
        requires
            self.within(),
        ensures
            step@ == self@.visit_device(),
            step.wf(),
    {
        if self.device_at < self.devices.len() {
            self.waiting_for(Phase::DeviceName)
        } else {
            LoadStep::Done(Ok(self.found))
        }
    }

    /// Goes on with the first profile that is still to be visited.
    fn visit_profile(self) -> (step: LoadStep)
        requires
            self.within(),
            self@.devices.len() > 0,
        ensures
            step@ == self@.visit_profile(),
            step.wf(),
    {
        if self.profile_at < self.profiles.len() {
            self.waiting_for(Phase::ProfileIsActive)
        } else {
            let mut walk = self;
            let devices: usize = walk.devices.len();
            assert(self@.devices.len() == devices - self.device_at);
            walk.device_at = walk.device_at + 1;
            assert(walk@.devices =~= self@.devices.drop_first());
            walk.visit_device()
        }
    }

    /// Goes on with the first resolution that is still to be visited.
    fn visit_resolution(self) -> (step: LoadStep)
        requires
            self.within(),
            self@.devices.len() > 0,
            self@.profiles.len() > 0,
            self@.resolution_path is Some,
        ensures
            step@ == self@.visit_resolution(),
            step.wf(),
    {
        if self.resolution_at < self.resolutions.len() {
            self.waiting_for(Phase::ResolutionIsActive)
        } else {
            self.waiting_for(Phase::ProfileButtons)
        }
    }

    /// Goes on with the first button that is still to be visited.
    fn visit_button(self) -> (step: LoadStep)
        requires
            self.within(),
            self@.devices.len() > 0,
            self@.profiles.len() > 0,
            self@.resolution_path is Some,
        ensures
            step@ == self@.visit_button(),
            step.wf(),
    {
        if self.button_at < self.button_paths.len() {
            self.waiting_for(Phase::ButtonIndex)
        } else {
            let ghost before = self@;
            let mut walk = self;
            let resolution_path = match &walk.resolution_path {
                Some(path) => path.clone(),
                None => vstd::pervasive::unreached(),
            };
            let mut valid_dpis: Vec<u32> = Vec::new();
            std::mem::swap(&mut valid_dpis, &mut walk.valid_dpis);
            let mut buttons: Vec<MouseButton> = Vec::new();
            std::mem::swap(&mut buttons, &mut walk.buttons);
            let device = MouseDevice {
                name: walk.name.clone(),
                dpi: walk.dpi,
                valid_dpis,
                buttons,
                device_path: walk.devices[walk.device_at].clone(),
                resolution_path,
            };
            assert(device@ == before.snapshot());
            walk.found.push(device);
            let profiles: usize = walk.profiles.len();
            assert(before.profiles.len() == profiles - walk.profile_at);
            walk.profile_at = walk.profile_at + 1;
            assert(walk@.found =~= before.found.push(before.snapshot()));
            assert(walk@.profiles =~= before.profiles.drop_first());
            assert(walk@.valid_dpis =~= Seq::<u32>::empty());
            assert(walk@.buttons =~= Seq::<MouseButton>::empty());
            walk.visit_profile()
        }
    }
}

/// The end of a walk by a reply of a kind that the read does not give.
fn unexpected() -> (step: LoadStep)
    ensures
        step@ == LoaderView::fail(unexpected_reply()),
        step.wf(),
{
    LoadStep::Done(Err(DeviceError::Protocol(String::from_str("unexpected reply"))))
}

impl Loader {
    /// Takes a list of handles.
    fn feed_paths(self, paths: Vec<RemotePath>) -> (step: LoadStep)
        requires
            self.wf(),
        ensures
            step@ == self@.feed(ReplyView::Paths(paths@)),
            step.wf(),
    {
        let mut walk = self;
        match walk.phase {
            Phase::Devices => {
                walk.devices = paths;
                walk.device_at = 0;
                assert(walk@.devices =~= paths@);
                walk.visit_device()
            },
            Phase::DeviceProfiles => {
                walk.profiles = paths;
                walk.profile_at = 0;
                assert(walk@.profiles =~= paths@);
                walk.visit_profile()
            },
            Phase::ProfileResolutions => {
                if paths.len() == 0 {
                    LoadStep::Done(
                        Err(
                            DeviceError::Protocol(
                                String::from_str("active profile without a resolution"),
                            ),
                        ),
                    )
                } else {
                    walk.resolution_path = Some(paths[0].clone());
                    walk.resolutions = paths;
                    walk.resolution_at = 0;
                    walk.dpi = 0;
                    walk.valid_dpis = Vec::new();
                    assert(walk@.resolutions =~= paths@);
                    walk.visit_resolution()
                }
            },
            Phase::ProfileButtons => {
                walk.button_paths = paths;
                walk.button_at = 0;
                walk.buttons = Vec::new();
                assert(walk@.button_paths =~= paths@);
                walk.visit_button()
            },
            _ => unexpected(),
        }
    }

    /// Takes a truth value.
    fn feed_flag(self, flag: bool) -> (step: LoadStep)
        requires
            self.wf(),
        ensures
            step@ == self@.feed(ReplyView::Flag(flag)),
            step.wf(),
    {
        let mut walk = self;
        match walk.phase {
            Phase::ProfileIsActive => {
                if flag {
                    walk.waiting_for(Phase::ProfileResolutions)
                } else {
                    let profiles: usize = walk.profiles.len();
                    assert(self@.profiles.len() == profiles - self.profile_at);
                    walk.profile_at = walk.profile_at + 1;
                    assert(walk@.profiles =~= self@.profiles.drop_first());
                    walk.visit_profile()
                }
            },
            Phase::ResolutionIsActive => {
                if flag {
                    walk.waiting_for(Phase::ResolutionValue)
                } else {
                    let resolutions: usize = walk.resolutions.len();
                    assert(self@.resolutions.len() == resolutions - self.resolution_at);
                    walk.resolution_at = walk.resolution_at + 1;
                    assert(walk@.resolutions =~= self@.resolutions.drop_first());
                    walk.visit_resolution()
                }
            },
            _ => unexpected(),
        }
    }

    /// Takes a list of numbers.
    fn feed_numbers(self, numbers: Vec<u32>) -> (step: LoadStep)
        requires
            self.wf(),
        ensures
            step@ == self@.feed(ReplyView::Numbers(numbers@)),
            step.wf(),
    {
        let mut walk = self;
        match walk.phase {
            Phase::ResolutionChoices => {
                let resolutions: usize = walk.resolutions.len();
                assert(self@.resolutions.len() == resolutions - self.resolution_at);
                walk.valid_dpis = numbers;
                walk.resolution_path = Some(walk.resolutions[walk.resolution_at].clone());
                walk.resolution_at = walk.resolution_at + 1;
                assert(walk@.resolutions =~= self@.resolutions.drop_first());
                walk.visit_resolution()
            },
            _ => unexpected(),
        }
    }

    /// Takes a type code and a payload.
    fn feed_mapping(self, type_code: u32, payload: Payload) -> (step: LoadStep)
        requires
            self.wf(),
        ensures
            step@ == self@.feed(ReplyView::Mapping(type_code, payload)),
            step.wf(),
    {
        let mut walk = self;
        match walk.phase {
            Phase::ButtonMapping => {
                let button_paths: usize = walk.button_paths.len();
                assert(self@.button_paths.len() == button_paths - self.button_at);
                let button = MouseButton {
                    index: walk.button_index,
                    action: ButtonAction::from_mapping(type_code, &payload),
                    path: walk.button_paths[walk.button_at].clone(),
                };
                walk.buttons.push(button);
                walk.button_at = walk.button_at + 1;
                assert(walk@.button_paths =~= self@.button_paths.drop_first());
                walk.visit_button()
            },
            _ => unexpected(),
        }
    }

    /// Takes the reply to the read that the walk is waiting for.
    fn feed(self, reply: ReadReply) -> (step: LoadStep)
        requires
            self.wf(),
        ensures
            step@ == self@.feed(reply@),
            step.wf(),
    {
        let mut walk = self;
        match reply {
            ReadReply::Failed(reason) => match walk.phase {
                Phase::Connect => LoadStep::Done(Err(DeviceError::Connection(reason))),
                _ => LoadStep::Done(Err(DeviceError::Protocol(reason))),
            },
            ReadReply::Connected => match walk.phase {
                Phase::Connect => walk.waiting_for(Phase::Devices),
                _ => unexpected(),
            },
            ReadReply::Paths(paths) => walk.feed_paths(paths),
            ReadReply::Text(text) => match walk.phase {
                Phase::DeviceName => {
                    walk.name = text;
                    walk.waiting_for(Phase::DeviceProfiles)
                },
                _ => unexpected(),
            },
            ReadReply::Flag(flag) => walk.feed_flag(flag),
            ReadReply::Number(number) => match walk.phase {
                Phase::ButtonIndex => {
                    walk.button_index = number;
                    walk.waiting_for(Phase::ButtonMapping)
                },
                _ => unexpected(),
            },
            ReadReply::Numbers(numbers) => walk.feed_numbers(numbers),
            ReadReply::Value(value) => match walk.phase {
                Phase::ResolutionValue => {
                    walk.dpi = value.to_dpi();
                    walk.waiting_for(Phase::ResolutionChoices)
                },
                _ => unexpected(),
            },
            ReadReply::Mapping(type_code, payload) => walk.feed_mapping(type_code, payload),
        }
    }
}

impl MouseDevice {
    /// Takes the load of all snapshots one step further.
    ///
    /// At the start the walk asks to reach the daemon. With each reply it
    /// goes on: from the manager to the devices, from each device to its
    /// profiles, and into each active profile, to its resolutions and its
    /// buttons. It ends with one snapshot for each active profile, in the
    /// order in which the profiles were met, or with the error of the first
    /// read that failed.
    pub fn load(stage: LoadStage) -> (step: LoadStep)
        requires
            stage.wf(),
        ensures
            step@ == load_step(stage),
            step.wf(),
    {
        match stage {
            LoadStage::Start => Loader::start().waiting_for(Phase::Connect),
            LoadStage::Replied(loader, reply) => loader.feed(reply),
        }
    }
}

} // verus!
