//! What a load yields, stated over a model of the daemon.
//!
//! The model holds what the daemon would answer: devices, their profiles,
//! and the resolutions and buttons of each profile. From it follow the
//! snapshots that a load has to yield and the reads that a load has to
//! make. The main result of this module is that the walk of
//! [`crate::loader`] makes exactly those reads, in that order, and ends with
//! exactly those snapshots.

use crate::action::{decode, decode_dpi, Payload};
use crate::device::{DeviceView, ErrorView, MouseButton, RemotePath};
use crate::loader::{
    lemma_walk_goes_on, LoadStepView, LoaderView, Phase, ReadRequest, ReplyView,
};
use vstd::prelude::*;

verus! {

/// A button object of the daemon.
pub struct ButtonNode {
    pub path: RemotePath,
    pub index: u32,
    pub type_code: u32,
    pub payload: Payload,
}

/// A resolution object of the daemon.
pub struct ResolutionNode {
    pub path: RemotePath,
    pub active: bool,
    pub value: Payload,
    pub choices: Seq<u32>,
}

/// A profile object of the daemon.
pub struct ProfileNode {
    pub path: RemotePath,
    pub active: bool,
    pub resolutions: Seq<ResolutionNode>,
    pub buttons: Seq<ButtonNode>,
}

/// A device object of the daemon.
pub struct DeviceNode {
    pub path: RemotePath,
    pub name: Seq<char>,
    pub profiles: Seq<ProfileNode>,
}

/// A read and the reply to it.
pub struct Exchange {
    pub request: ReadRequest,
    pub reply: ReplyView,
}

/// The resolution that a profile has in use.
pub struct InUse {
    pub dpi: u32,
    pub valid_dpis: Seq<u32>,
    pub path: RemotePath,
}

/// The handles of a list of devices.
pub open spec fn device_paths(devices: Seq<DeviceNode>) -> Seq<RemotePath> {
    Seq::new(devices.len(), |i: int| devices[i].path)
}

/// The handles of a list of profiles.
pub open spec fn profile_paths(profiles: Seq<ProfileNode>) -> Seq<RemotePath> {
    Seq::new(profiles.len(), |i: int| profiles[i].path)
}

/// The handles of a list of resolutions.
pub open spec fn resolution_paths(resolutions: Seq<ResolutionNode>) -> Seq<RemotePath> {
    Seq::new(resolutions.len(), |i: int| resolutions[i].path)
}

/// The handles of a list of buttons.
pub open spec fn button_paths(buttons: Seq<ButtonNode>) -> Seq<RemotePath> {
    Seq::new(buttons.len(), |i: int| buttons[i].path)
}

/// The button of a snapshot that a button object stands for.
pub open spec fn button_of(node: ButtonNode) -> MouseButton {
    MouseButton {
        index: node.index,
        action: decode(node.type_code, node.payload),
        path: node.path,
    }
}

/// The buttons of a snapshot that the button objects stand for, in their
/// order.
pub open spec fn buttons_of(nodes: Seq<ButtonNode>) -> Seq<MouseButton> {
    nodes.map_values(|node: ButtonNode| button_of(node))
}

/// What a resolution object says when it is active.
pub open spec fn stated_by(node: ResolutionNode) -> InUse {
    InUse { dpi: decode_dpi(node.value), valid_dpis: node.choices, path: node.path }
}

/// What the last active one of the resolution objects says, and
/// `otherwise` where none of them is active.
pub open spec fn last_stated(nodes: Seq<ResolutionNode>, otherwise: InUse) -> InUse
    decreases nodes.len(),
{
    if nodes.len() == 0 {
        otherwise
    } else if nodes.last().active {
        stated_by(nodes.last())
    } else {
        last_stated(nodes.drop_last(), otherwise)
    }
}

/// What is taken for the resolution in use where no resolution object is
/// active: no value, no choices, and the first object.
pub open spec fn unsettled(nodes: Seq<ResolutionNode>) -> InUse
    recommends
        nodes.len() > 0,
{
    InUse { dpi: 0, valid_dpis: Seq::empty(), path: nodes[0].path }
}

/// The resolution that a profile with these resolution objects has in use.
pub open spec fn resolution_in_use(nodes: Seq<ResolutionNode>) -> InUse
    recommends
        nodes.len() > 0,
{
    last_stated(nodes, unsettled(nodes))
}

/// The snapshot of an active profile of a device.
pub open spec fn profile_snapshot(device: DeviceNode, profile: ProfileNode) -> DeviceView
    recommends
        profile.resolutions.len() > 0,
{
    let in_use = resolution_in_use(profile.resolutions);
    DeviceView {
        name: device.name,
        dpi: in_use.dpi,
        valid_dpis: in_use.valid_dpis,
        buttons: buttons_of(profile.buttons),
        device_path: device.path,
        resolution_path: in_use.path,
    }
}

/// The snapshots of a device: one for each of its active profiles, in
/// their order.
pub open spec fn device_snapshots(device: DeviceNode) -> Seq<DeviceView> {
    device.profiles.filter(|profile: ProfileNode| profile.active).map_values(
        |profile: ProfileNode| profile_snapshot(device, profile),
    )
}

/// The snapshots that a load over the daemon's devices has to yield: those
/// of the first device, then those of the second, and so on.
pub open spec fn snapshots(devices: Seq<DeviceNode>) -> Seq<DeviceView> {
    devices.map_values(|device: DeviceNode| device_snapshots(device)).flatten()
}

/// Every active profile has a resolution.
pub open spec fn profiles_servable(profiles: Seq<ProfileNode>) -> bool {
    forall|i: int|
        0 <= i < profiles.len() && (#[trigger] profiles[i]).active ==> profiles[i].resolutions.len()
            > 0
}

/// Every active profile of every device has a resolution.
pub open spec fn servable(devices: Seq<DeviceNode>) -> bool {
    forall|i: int| 0 <= i < devices.len() ==> profiles_servable((#[trigger] devices[i]).profiles)
}

/// One exchange, and then others.
pub open spec fn prepend(request: ReadRequest, reply: ReplyView, rest: Seq<Exchange>) -> Seq<
    Exchange,
> {
    seq![Exchange { request, reply }] + rest
}

/// The reads of the button objects, and then others: of each button its
/// number, then its mapping.
pub open spec fn button_reads(nodes: Seq<ButtonNode>, rest: Seq<Exchange>) -> Seq<Exchange>
    decreases nodes.len(),
{
    if nodes.len() == 0 {
        rest
    } else {
        prepend(
            ReadRequest::ButtonIndex(nodes[0].path),
            ReplyView::Number(nodes[0].index),
            prepend(
                ReadRequest::ButtonMapping(nodes[0].path),
                ReplyView::Mapping(nodes[0].type_code, nodes[0].payload),
                button_reads(nodes.drop_first(), rest),
            ),
        )
    }
}

/// The reads of the resolution objects, and then others: of each
/// resolution whether it is active, and of an active one its value and
/// its choices.
pub open spec fn resolution_reads(nodes: Seq<ResolutionNode>, rest: Seq<Exchange>) -> Seq<
    Exchange,
>
    decreases nodes.len(),
{
    if nodes.len() == 0 {
        rest
    } else if nodes[0].active {
        prepend(
            ReadRequest::ResolutionIsActive(nodes[0].path),
            ReplyView::Flag(true),
            prepend(
                ReadRequest::ResolutionValue(nodes[0].path),
                ReplyView::Value(nodes[0].value),
                prepend(
                    ReadRequest::ResolutionChoices(nodes[0].path),
                    ReplyView::Numbers(nodes[0].choices),
                    resolution_reads(nodes.drop_first(), rest),
                ),
            ),
        )
    } else {
        prepend(
            ReadRequest::ResolutionIsActive(nodes[0].path),
            ReplyView::Flag(false),
            resolution_reads(nodes.drop_first(), rest),
        )
    }
}

/// The reads of the profile objects, and then others: of each profile
/// whether it is active, and of an active one its resolutions and its
/// buttons. Nothing more is read of an inactive profile.
pub open spec fn profile_reads(profiles: Seq<ProfileNode>, rest: Seq<Exchange>) -> Seq<Exchange>
    decreases profiles.len(),
{
    if profiles.len() == 0 {
        rest
    } else if profiles[0].active {
        prepend(
            ReadRequest::ProfileIsActive(profiles[0].path),
            ReplyView::Flag(true),
            prepend(
                ReadRequest::ProfileResolutions(profiles[0].path),
                ReplyView::Paths(resolution_paths(profiles[0].resolutions)),
                resolution_reads(
                    profiles[0].resolutions,
                    prepend(
                        ReadRequest::ProfileButtons(profiles[0].path),
                        ReplyView::Paths(button_paths(profiles[0].buttons)),
                        button_reads(
                            profiles[0].buttons,
                            profile_reads(profiles.drop_first(), rest),
                        ),
                    ),
                ),
            ),
        )
    } else {
        prepend(
            ReadRequest::ProfileIsActive(profiles[0].path),
            ReplyView::Flag(false),
            profile_reads(profiles.drop_first(), rest),
        )
    }
}

/// The reads of the device objects, and then others: of each device its
/// name and its profiles.
pub open spec fn device_reads(devices: Seq<DeviceNode>, rest: Seq<Exchange>) -> Seq<Exchange>
    decreases devices.len(),
{
    if devices.len() == 0 {
        rest
    } else {
        prepend(
            ReadRequest::DeviceName(devices[0].path),
            ReplyView::Text(devices[0].name),
            prepend(
                ReadRequest::DeviceProfiles(devices[0].path),
                ReplyView::Paths(profile_paths(devices[0].profiles)),
                profile_reads(devices[0].profiles, device_reads(devices.drop_first(), rest)),
            ),
        )
    }
}

/// The reads that a load over the daemon's devices has to make, in their
/// order, each with the reply that the daemon gives.
pub open spec fn dialogue(devices: Seq<DeviceNode>) -> Seq<Exchange> {
    prepend(
        ReadRequest::Connect,
        ReplyView::Connected,
        prepend(
            ReadRequest::Devices,
            ReplyView::Paths(device_paths(devices)),
            device_reads(devices, Seq::empty()),
        ),
    )
}

/// Where a walk stands after the exchanges, played one after the other
/// from `step`: each exchange has to be the read that the walk is waiting
/// for, and its reply is what the walk is fed. There is no such place
/// where the walk waits for another read than the exchange has, or is over
/// before the exchanges are.
pub open spec fn play(step: LoadStepView, exchanges: Seq<Exchange>) -> Option<LoadStepView>
    decreases exchanges.len(),
{
    if exchanges.len() == 0 {
        Some(step)
    } else {
        match step {
            LoadStepView::Read(loader, request) => if request == exchanges[0].request {
                play(loader.feed(exchanges[0].reply), exchanges.drop_first())
            } else {
                None
            },
            LoadStepView::Done(_) => None,
        }
    }
}

/// The first step of a walk.
pub open spec fn first_step() -> LoadStepView {
    LoaderView::initial().waiting_for(Phase::Connect)
}

/// The end of a walk that yields `found`.
pub open spec fn yields(found: Seq<DeviceView>) -> Option<LoadStepView> {
    Some(LoadStepView::Done(Ok(found)))
}

/// The buttons found so far, and then those of the button objects, one
/// after the other.
spec fn buttons_found(found: Seq<MouseButton>, nodes: Seq<ButtonNode>) -> Seq<MouseButton>
    decreases nodes.len(),
{
    if nodes.len() == 0 {
        found
    } else {
        buttons_found(found.push(button_of(nodes[0])), nodes.drop_first())
    }
}

/// The resolution in use after a look at the resolution objects, one after
/// the other: each active one takes the place of what was seen before.
spec fn settled(seen: InUse, nodes: Seq<ResolutionNode>) -> InUse
    decreases nodes.len(),
{
    if nodes.len() == 0 {
        seen
    } else {
        settled(
            if nodes[0].active {
                stated_by(nodes[0])
            } else {
                seen
            },
            nodes.drop_first(),
        )
    }
}

/// The snapshots found so far, and then one for each active profile of
/// `profiles`, one after the other.
spec fn profiles_found(
    found: Seq<DeviceView>,
    device: DeviceNode,
    profiles: Seq<ProfileNode>,
) -> Seq<DeviceView>
    decreases profiles.len(),
{
    if profiles.len() == 0 {
        found
    } else {
        profiles_found(
            if profiles[0].active {
                found.push(profile_snapshot(device, profiles[0]))
            } else {
                found
            },
            device,
            profiles.drop_first(),
        )
    }
}

/// The snapshots found so far, and then those of the devices, one after
/// the other.
spec fn devices_found(found: Seq<DeviceView>, devices: Seq<DeviceNode>) -> Seq<DeviceView>
    decreases devices.len(),
{
    if devices.len() == 0 {
        found
    } else {
        devices_found(
            profiles_found(found, devices[0], devices[0].profiles),
            devices.drop_first(),
        )
    }
}

/// Going through the button objects one after the other gives the buttons
/// that they stand for.
proof fn lemma_buttons_found(found: Seq<MouseButton>, nodes: Seq<ButtonNode>)
    ensures
        buttons_found(found, nodes) == found + buttons_of(nodes),
    decreases nodes.len(),
{
    if nodes.len() == 0 {
        assert(found + buttons_of(nodes) =~= found);
    } else {
        lemma_buttons_found(found.push(button_of(nodes[0])), nodes.drop_first());
        assert(found.push(button_of(nodes[0])) + buttons_of(nodes.drop_first()) =~= found
            + buttons_of(nodes));
    }
}

/// Going through the resolution objects one after the other ends with what
/// the last active one says.
proof fn lemma_settled(seen: InUse, nodes: Seq<ResolutionNode>)
    ensures
        settled(seen, nodes) == last_stated(nodes, seen),
    decreases nodes.len(),
{
    if nodes.len() > 0 {
        let next = if nodes[0].active {
            stated_by(nodes[0])
        } else {
            seen
        };
        let rest = nodes.drop_first();
        lemma_settled(next, rest);
        if rest.len() == 0 {
            assert(nodes.drop_last() =~= rest);
        } else {
            assert(rest.last() == nodes.last());
            if !nodes.last().active {
                lemma_settled(next, rest.drop_last());
                lemma_settled(seen, nodes.drop_last());
                assert(nodes.drop_last().drop_first() =~= rest.drop_last());
                assert(nodes.drop_last()[0] == nodes[0]);
            }
        }
    }
}

/// Going through the profiles of a device one after the other gives the
/// snapshots of its active profiles.
proof fn lemma_profiles_found(
    found: Seq<DeviceView>,
    device: DeviceNode,
    profiles: Seq<ProfileNode>,
)
    ensures
        profiles_found(found, device, profiles) == found + profiles.filter(
            |profile: ProfileNode| profile.active,
        ).map_values(|profile: ProfileNode| profile_snapshot(device, profile)),
    decreases profiles.len(),
{
    let active = |profile: ProfileNode| profile.active;
    let snapshot = |profile: ProfileNode| profile_snapshot(device, profile);
    if profiles.len() == 0 {
        assert(profiles.filter(active) =~= Seq::<ProfileNode>::empty()) by {
            reveal(Seq::filter);
        }
        assert(found + profiles.filter(active).map_values(snapshot) =~= found);
    } else {
        let first = profiles[0];
        let rest = profiles.drop_first();
        let next = if first.active {
            found.push(profile_snapshot(device, first))
        } else {
            found
        };
        lemma_profiles_found(next, device, rest);
        assert(profiles =~= seq![first] + rest);
        rest.lemma_filter_prepend(first, active);
        assert(next + rest.filter(active).map_values(snapshot) =~= found + profiles.filter(
            active,
        ).map_values(snapshot));
    }
}

/// Going through the devices one after the other gives their snapshots.
proof fn lemma_devices_found(found: Seq<DeviceView>, devices: Seq<DeviceNode>)
    ensures
        devices_found(found, devices) == found + snapshots(devices),
    decreases devices.len(),
{
    let of_device = |device: DeviceNode| device_snapshots(device);
    if devices.len() == 0 {
        assert(found + snapshots(devices) =~= found);
    } else {
        let first = devices[0];
        let rest = devices.drop_first();
        lemma_profiles_found(found, first, first.profiles);
        lemma_devices_found(found + device_snapshots(first), rest);
        assert(devices.map_values(of_device).drop_first() =~= rest.map_values(of_device));
        assert(devices.map_values(of_device).first() == device_snapshots(first));
        assert((found + device_snapshots(first)) + snapshots(rest) =~= found + snapshots(devices));
    }
}

/// The walk is at a device of the model, with the others still to come.
spec fn at_device(
    walk: LoaderView,
    device: DeviceNode,
    later_devices: Seq<DeviceNode>,
) -> bool {
    &&& walk.devices.len() > 0
    &&& walk.devices[0] == device.path
    &&& walk.devices.drop_first() == device_paths(later_devices)
    &&& walk.name == device.name
    &&& servable(later_devices)
}

/// The walk is at an active profile of a device of the model, with the
/// others still to come.
spec fn at_profile(
    walk: LoaderView,
    device: DeviceNode,
    later_profiles: Seq<ProfileNode>,
    later_devices: Seq<DeviceNode>,
) -> bool {
    &&& at_device(walk, device, later_devices)
    &&& walk.profiles.len() > 0
    &&& walk.profiles.drop_first() == profile_paths(later_profiles)
    &&& walk.resolution_path is Some
    &&& profiles_servable(later_profiles)
}

/// The reads that follow a profile: those of the later profiles of the
/// device, then those of the later devices.
spec fn reads_after_profile(
    later_profiles: Seq<ProfileNode>,
    later_devices: Seq<DeviceNode>,
) -> Seq<Exchange> {
    profile_reads(later_profiles, device_reads(later_devices, Seq::empty()))
}

/// What a walk yields that has found `found` when it leaves a profile.
spec fn found_after_profile(
    found: Seq<DeviceView>,
    device: DeviceNode,
    later_profiles: Seq<ProfileNode>,
    later_devices: Seq<DeviceNode>,
) -> Seq<DeviceView> {
    devices_found(profiles_found(found, device, later_profiles), later_devices)
}

/// An exchange that a walk is waiting for feeds the walk its reply.
proof fn lemma_play_one(
    walk: LoaderView,
    phase: Phase,
    request: ReadRequest,
    reply: ReplyView,
    rest: Seq<Exchange>,
)
    requires
        (LoaderView { phase, ..walk }).request() == request,
    ensures
        play(walk.waiting_for(phase), prepend(request, reply, rest)) == play(
            (LoaderView { phase, ..walk }).feed(reply),
            rest,
        ),
{
    let all = prepend(request, reply, rest);
    assert(all[0] == Exchange { request, reply });
    assert(all.drop_first() =~= rest);
}

/// The handles of all but the first object are those of the objects after
/// the first.
proof fn lemma_paths_of_rest(
    devices: Seq<DeviceNode>,
    profiles: Seq<ProfileNode>,
    resolutions: Seq<ResolutionNode>,
    buttons: Seq<ButtonNode>,
)
    ensures
        devices.len() > 0 ==> device_paths(devices).drop_first() == device_paths(
            devices.drop_first(),
        ),
        profiles.len() > 0 ==> profile_paths(profiles).drop_first() == profile_paths(
            profiles.drop_first(),
        ),
        resolutions.len() > 0 ==> resolution_paths(resolutions).drop_first() == resolution_paths(
            resolutions.drop_first(),
        ),
        buttons.len() > 0 ==> button_paths(buttons).drop_first() == button_paths(
            buttons.drop_first(),
        ),
        devices.len() > 0 && servable(devices) ==> servable(devices.drop_first())
            && profiles_servable(devices[0].profiles),
        profiles.len() > 0 && profiles_servable(profiles) ==> profiles_servable(
            profiles.drop_first(),
        ),
{
    if devices.len() > 0 {
        assert(device_paths(devices).drop_first() =~= device_paths(devices.drop_first()));
        if servable(devices) {
            let rest = devices.drop_first();
            assert forall|i: int| 0 <= i < rest.len() implies profiles_servable(
                (#[trigger] rest[i]).profiles,
            ) by {
                assert(rest[i] == devices[i + 1]);
            }
        }
    }
    if profiles.len() > 0 {
        assert(profile_paths(profiles).drop_first() =~= profile_paths(profiles.drop_first()));
        if profiles_servable(profiles) {
            let rest = profiles.drop_first();
            assert forall|i: int| 0 <= i < rest.len() && (#[trigger] rest[i]).active implies rest[i].resolutions.len()
                > 0 by {
                assert(rest[i] == profiles[i + 1]);
            }
        }
    }
    if resolutions.len() > 0 {
        assert(resolution_paths(resolutions).drop_first() =~= resolution_paths(
            resolutions.drop_first(),
        ));
    }
    if buttons.len() > 0 {
        assert(button_paths(buttons).drop_first() =~= button_paths(buttons.drop_first()));
    }
}

/// From the devices on: the walk makes the reads of the devices and ends
/// with what it had found and what the devices give.
proof fn lemma_devices(walk: LoaderView, devices: Seq<DeviceNode>)
    requires
        walk.devices == device_paths(devices),
        servable(devices),
    ensures
        play(walk.visit_device(), device_reads(devices, Seq::empty())) == yields(
            devices_found(walk.found, devices),
        ),
    decreases devices.len(), 0nat, 0nat, 0nat,
{
    if devices.len() > 0 {
        let device = devices[0];
        let later = devices.drop_first();
        lemma_paths_of_rest(devices, Seq::empty(), Seq::empty(), Seq::empty());
        let after = device_reads(later, Seq::empty());
        let reads = profile_reads(device.profiles, after);
        lemma_play_one(
            walk,
            Phase::DeviceName,
            ReadRequest::DeviceName(device.path),
            ReplyView::Text(device.name),
            prepend(
                ReadRequest::DeviceProfiles(device.path),
                ReplyView::Paths(profile_paths(device.profiles)),
                reads,
            ),
        );
        let named = LoaderView { name: device.name, phase: Phase::DeviceName, ..walk };
        lemma_play_one(
            named,
            Phase::DeviceProfiles,
            ReadRequest::DeviceProfiles(device.path),
            ReplyView::Paths(profile_paths(device.profiles)),
            reads,
        );
        let entered = LoaderView {
            profiles: profile_paths(device.profiles),
            phase: Phase::DeviceProfiles,
            ..named
        };
        lemma_profiles(entered, device, device.profiles, later);
    }
}

/// From the profiles of a device on.
proof fn lemma_profiles(
    walk: LoaderView,
    device: DeviceNode,
    profiles: Seq<ProfileNode>,
    later_devices: Seq<DeviceNode>,
)
    requires
        at_device(walk, device, later_devices),
        walk.profiles == profile_paths(profiles),
        profiles_servable(profiles),
    ensures
        play(walk.visit_profile(), reads_after_profile(profiles, later_devices)) == yields(
            found_after_profile(walk.found, device, profiles, later_devices),
        ),
    decreases later_devices.len(), profiles.len(), 1nat, 0nat,
{
    if profiles.len() == 0 {
        let left = LoaderView { devices: walk.devices.drop_first(), ..walk };
        lemma_devices(left, later_devices);
    } else {
        let profile = profiles[0];
        let later = profiles.drop_first();
        lemma_paths_of_rest(Seq::empty(), profiles, Seq::empty(), Seq::empty());
        let after = reads_after_profile(later, later_devices);
        if profile.active {
            let button_part = prepend(
                ReadRequest::ProfileButtons(profile.path),
                ReplyView::Paths(button_paths(profile.buttons)),
                button_reads(profile.buttons, after),
            );
            let resolution_part = resolution_reads(profile.resolutions, button_part);
            lemma_play_one(
                walk,
                Phase::ProfileIsActive,
                ReadRequest::ProfileIsActive(profile.path),
                ReplyView::Flag(true),
                prepend(
                    ReadRequest::ProfileResolutions(profile.path),
                    ReplyView::Paths(resolution_paths(profile.resolutions)),
                    resolution_part,
                ),
            );
            let asked = LoaderView { phase: Phase::ProfileIsActive, ..walk };
            lemma_play_one(
                asked,
                Phase::ProfileResolutions,
                ReadRequest::ProfileResolutions(profile.path),
                ReplyView::Paths(resolution_paths(profile.resolutions)),
                resolution_part,
            );
            assert(profile.resolutions.len() > 0);
            let entered = LoaderView {
                resolutions: resolution_paths(profile.resolutions),
                dpi: 0,
                valid_dpis: Seq::empty(),
                resolution_path: Some(resolution_paths(profile.resolutions)[0]),
                phase: Phase::ProfileResolutions,
                ..walk
            };
            lemma_resolutions(
                entered,
                device,
                profile.resolutions,
                profile.buttons,
                later,
                later_devices,
            );
            lemma_settled(seen_by(entered), profile.resolutions);
            assert(seen_by(entered) == unsettled(profile.resolutions));
        } else {
            lemma_play_one(
                walk,
                Phase::ProfileIsActive,
                ReadRequest::ProfileIsActive(profile.path),
                ReplyView::Flag(false),
                after,
            );
            let passed = LoaderView {
                profiles: walk.profiles.drop_first(),
                phase: Phase::ProfileIsActive,
                ..walk
            };
            lemma_profiles(passed, device, later, later_devices);
        }
    }
}

/// What the walk takes for the resolution in use.
spec fn seen_by(walk: LoaderView) -> InUse
    recommends
        walk.resolution_path is Some,
{
    InUse { dpi: walk.dpi, valid_dpis: walk.valid_dpis, path: walk.resolution_path.unwrap() }
}

/// The snapshot that the walk makes of the profile it is at, for a
/// resolution in use and a list of buttons.
spec fn snapshot_with(walk: LoaderView, in_use: InUse, buttons: Seq<MouseButton>) -> DeviceView
    recommends
        walk.devices.len() > 0,
{
    DeviceView {
        name: walk.name,
        dpi: in_use.dpi,
        valid_dpis: in_use.valid_dpis,
        buttons,
        device_path: walk.devices[0],
        resolution_path: in_use.path,
    }
}

/// From the resolutions of a profile on.
proof fn lemma_resolutions(
    walk: LoaderView,
    device: DeviceNode,
    nodes: Seq<ResolutionNode>,
    buttons: Seq<ButtonNode>,
    later_profiles: Seq<ProfileNode>,
    later_devices: Seq<DeviceNode>,
)
    requires
        at_profile(walk, device, later_profiles, later_devices),
        walk.resolutions == resolution_paths(nodes),
    ensures
        play(
            walk.visit_resolution(),
            resolution_reads(
                nodes,
                prepend(
                    ReadRequest::ProfileButtons(walk.profiles[0]),
                    ReplyView::Paths(button_paths(buttons)),
                    button_reads(buttons, reads_after_profile(later_profiles, later_devices)),
                ),
            ),
        ) == yields(
            found_after_profile(
                walk.found.push(
                    snapshot_with(walk, settled(seen_by(walk), nodes), buttons_of(buttons)),
                ),
                device,
                later_profiles,
                later_devices,
            ),
        ),
    decreases later_devices.len(), later_profiles.len(), 3nat, nodes.len(),
{
    let after = reads_after_profile(later_profiles, later_devices);
    let button_part = prepend(
        ReadRequest::ProfileButtons(walk.profiles[0]),
        ReplyView::Paths(button_paths(buttons)),
        button_reads(buttons, after),
    );
    if nodes.len() == 0 {
        lemma_play_one(
            walk,
            Phase::ProfileButtons,
            ReadRequest::ProfileButtons(walk.profiles[0]),
            ReplyView::Paths(button_paths(buttons)),
            button_reads(buttons, after),
        );
        let entered = LoaderView {
            button_paths: button_paths(buttons),
            buttons: Seq::empty(),
            phase: Phase::ProfileButtons,
            ..walk
        };
        lemma_buttons(entered, device, buttons, later_profiles, later_devices);
        lemma_buttons_found(Seq::empty(), buttons);
        assert(Seq::<MouseButton>::empty() + buttons_of(buttons) =~= buttons_of(buttons));
    } else {
        let node = nodes[0];
        let later = nodes.drop_first();
        lemma_paths_of_rest(Seq::empty(), Seq::empty(), nodes, Seq::empty());
        let rest = resolution_reads(later, button_part);
        if node.active {
            lemma_play_one(
                walk,
                Phase::ResolutionIsActive,
                ReadRequest::ResolutionIsActive(node.path),
                ReplyView::Flag(true),
                prepend(
                    ReadRequest::ResolutionValue(node.path),
                    ReplyView::Value(node.value),
                    prepend(
                        ReadRequest::ResolutionChoices(node.path),
                        ReplyView::Numbers(node.choices),
                        rest,
                    ),
                ),
            );
            let asked = LoaderView { phase: Phase::ResolutionIsActive, ..walk };
            lemma_play_one(
                asked,
                Phase::ResolutionValue,
                ReadRequest::ResolutionValue(node.path),
                ReplyView::Value(node.value),
                prepend(
                    ReadRequest::ResolutionChoices(node.path),
                    ReplyView::Numbers(node.choices),
                    rest,
                ),
            );
            let valued = LoaderView {
                dpi: decode_dpi(node.value),
                phase: Phase::ResolutionValue,
                ..walk
            };
            lemma_play_one(
                valued,
                Phase::ResolutionChoices,
                ReadRequest::ResolutionChoices(node.path),
                ReplyView::Numbers(node.choices),
                rest,
            );
            let taken = LoaderView {
                valid_dpis: node.choices,
                resolution_path: Some(node.path),
                resolutions: walk.resolutions.drop_first(),
                phase: Phase::ResolutionChoices,
                ..valued
            };
            assert(seen_by(taken) == stated_by(node));
            lemma_resolutions(taken, device, later, buttons, later_profiles, later_devices);
        } else {
            lemma_play_one(
                walk,
                Phase::ResolutionIsActive,
                ReadRequest::ResolutionIsActive(node.path),
                ReplyView::Flag(false),
                rest,
            );
            let passed = LoaderView {
                resolutions: walk.resolutions.drop_first(),
                phase: Phase::ResolutionIsActive,
                ..walk
            };
            lemma_resolutions(passed, device, later, buttons, later_profiles, later_devices);
        }
    }
}

/// From the buttons of a profile on.
proof fn lemma_buttons(
    walk: LoaderView,
    device: DeviceNode,
    nodes: Seq<ButtonNode>,
    later_profiles: Seq<ProfileNode>,
    later_devices: Seq<DeviceNode>,
)
    requires
        at_profile(walk, device, later_profiles, later_devices),
        walk.button_paths == button_paths(nodes),
    ensures
        play(
            walk.visit_button(),
            button_reads(nodes, reads_after_profile(later_profiles, later_devices)),
        ) == yields(
            found_after_profile(
                walk.found.push(
                    snapshot_with(walk, seen_by(walk), buttons_found(walk.buttons, nodes)),
                ),
                device,
                later_profiles,
                later_devices,
            ),
        ),
    decreases later_devices.len(), later_profiles.len(), 2nat, nodes.len(),
{
    let after = reads_after_profile(later_profiles, later_devices);
    if nodes.len() == 0 {
        let left = LoaderView {
            found: walk.found.push(walk.snapshot()),
            profiles: walk.profiles.drop_first(),
            valid_dpis: Seq::empty(),
            buttons: Seq::empty(),
            ..walk
        };
        lemma_profiles(left, device, later_profiles, later_devices);
    } else {
        let node = nodes[0];
        let later = nodes.drop_first();
        lemma_paths_of_rest(Seq::empty(), Seq::empty(), Seq::empty(), nodes);
        let rest = button_reads(later, after);
        lemma_play_one(
            walk,
            Phase::ButtonIndex,
            ReadRequest::ButtonIndex(node.path),
            ReplyView::Number(node.index),
            prepend(
                ReadRequest::ButtonMapping(node.path),
                ReplyView::Mapping(node.type_code, node.payload),
                rest,
            ),
        );
        let numbered = LoaderView {
            button_index: node.index,
            phase: Phase::ButtonIndex,
            ..walk
        };
        lemma_play_one(
            numbered,
            Phase::ButtonMapping,
            ReadRequest::ButtonMapping(node.path),
            ReplyView::Mapping(node.type_code, node.payload),
            rest,
        );
        let taken = LoaderView {
            buttons: walk.buttons.push(button_of(node)),
            button_paths: walk.button_paths.drop_first(),
            phase: Phase::ButtonMapping,
            ..numbered
        };
        lemma_buttons(taken, device, later, later_profiles, later_devices);
    }
}

/// A load over the daemon's devices makes the reads of the dialogue, in
/// their order, and ends with the snapshots of the devices: one for each
/// active profile, with the name of its device, the resolution that its
/// last active resolution states, and its buttons decoded.
pub proof fn lemma_load_yields_snapshots(devices: Seq<DeviceNode>)
    requires
        servable(devices),
    ensures
        play(first_step(), dialogue(devices)) == yields(snapshots(devices)),
{
    let start = LoaderView::initial();
    let reads = device_reads(devices, Seq::empty());
    lemma_play_one(
        start,
        Phase::Connect,
        ReadRequest::Connect,
        ReplyView::Connected,
        prepend(ReadRequest::Devices, ReplyView::Paths(device_paths(devices)), reads),
    );
    lemma_play_one(
        start,
        Phase::Devices,
        ReadRequest::Devices,
        ReplyView::Paths(device_paths(devices)),
        reads,
    );
    let entered = LoaderView { devices: device_paths(devices), phase: Phase::Devices, ..start };
    lemma_devices(entered, devices);
    lemma_devices_found(Seq::empty(), devices);
    assert(Seq::<DeviceView>::empty() + snapshots(devices) =~= snapshots(devices));
}

/// The step of a walk is one that a walk can come to: where it asks for a
/// read, it is the read that the walk is waiting for.
spec fn in_step(step: LoadStepView) -> bool {
    match step {
        LoadStepView::Read(walk, request) => walk.wf() && request == walk.request(),
        LoadStepView::Done(_) => true,
    }
}

/// A walk that plays a list of exchanges to the end is, before each of
/// them, waiting for the read of that exchange.
proof fn lemma_play_before(step: LoadStepView, exchanges: Seq<Exchange>, before: int)
    requires
        in_step(step),
        play(step, exchanges) is Some,
        0 <= before < exchanges.len(),
    ensures
        play(step, exchanges.take(before)) matches Some(LoadStepView::Read(walk, request))
            && walk.wf() && request == walk.request() && request == exchanges[before].request,
    decreases before,
{
    if before == 0 {
        assert(exchanges.take(0) =~= Seq::<Exchange>::empty());
    } else {
        match step {
            LoadStepView::Read(walk, request) => {
                let next = walk.feed(exchanges[0].reply);
                lemma_walk_goes_on(walk, exchanges[0].reply);
                lemma_play_before(next, exchanges.drop_first(), before - 1);
                assert(exchanges.take(before).drop_first() =~= exchanges.drop_first().take(
                    before - 1,
                ));
                assert(exchanges.take(before)[0] == exchanges[0]);
            },
            LoadStepView::Done(_) => {},
        }
    }
}

/// One more exchange after a list of exchanges is played from where the
/// list has led.
proof fn lemma_play_one_more(step: LoadStepView, exchanges: Seq<Exchange>, last: Exchange)
    ensures
        play(step, exchanges.push(last)) == match play(step, exchanges) {
            Some(LoadStepView::Read(walk, request)) => if request == last.request {
                Some(walk.feed(last.reply))
            } else {
                None
            },
            _ => None,
        },
    decreases exchanges.len(),
{
    let all = exchanges.push(last);
    if exchanges.len() == 0 {
        assert(all.drop_first() =~= Seq::<Exchange>::empty());
        assert(all[0] == last);
        match step {
            LoadStepView::Read(walk, request) => {
                assert(play(walk.feed(last.reply), all.drop_first()) == Some(
                    walk.feed(last.reply),
                ));
            },
            LoadStepView::Done(_) => {},
        }
    } else {
        assert(all[0] == exchanges[0]);
        assert(all.drop_first() =~= exchanges.drop_first().push(last));
        match step {
            LoadStepView::Read(walk, request) => {
                if request == exchanges[0].request {
                    lemma_play_one_more(
                        walk.feed(exchanges[0].reply),
                        exchanges.drop_first(),
                        last,
                    );
                }
            },
            LoadStepView::Done(_) => {},
        }
    }
}

/// A load yields all snapshots or none: where one of its reads fails, the
/// load ends there with the reason of that read, whatever it has read
/// before. The error is a connection error where the daemon could not be
/// reached, and a protocol error for every other read.
pub proof fn lemma_failed_read_ends_load(
    devices: Seq<DeviceNode>,
    failing: int,
    reason: Seq<char>,
)
    requires
        servable(devices),
        0 <= failing < dialogue(devices).len(),
    ensures
        play(
            first_step(),
            dialogue(devices).take(failing).push(
                Exchange {
                    request: dialogue(devices)[failing].request,
                    reply: ReplyView::Failed(reason),
                },
            ),
        ) == Some(
            LoadStepView::Done(
                Err(
                    if dialogue(devices)[failing].request == ReadRequest::Connect {
                        ErrorView::Connection(reason)
                    } else {
                        ErrorView::Protocol(reason)
                    },
                ),
            ),
        ),
{
    let reads = dialogue(devices);
    lemma_load_yields_snapshots(devices);
    lemma_play_before(first_step(), reads, failing);
    lemma_play_one_more(
        first_step(),
        reads.take(failing),
        Exchange { request: reads[failing].request, reply: ReplyView::Failed(reason) },
    );
}

/// Where several resolutions of a profile are active, the last one counts.
pub proof fn lemma_last_active_counts(nodes: Seq<ResolutionNode>, last: int)
    requires
        0 <= last < nodes.len(),
        nodes[last].active,
        forall|later: int| last < later < nodes.len() ==> !nodes[later].active,
    ensures
        resolution_in_use(nodes) == stated_by(nodes[last]),
{
    lemma_last_stated(nodes, unsettled(nodes), last);
}

/// Where no resolution of a profile is active, the resolution in use is
/// zero, nothing is on offer, and the first resolution object is kept.
pub proof fn lemma_none_active(nodes: Seq<ResolutionNode>)
    requires
        forall|i: int| 0 <= i < nodes.len() ==> !nodes[i].active,
    ensures
        resolution_in_use(nodes) == unsettled(nodes),
{
    lemma_none_stated(nodes, unsettled(nodes));
}

/// What the last active resolution says is what `last_stated` gives.
proof fn lemma_last_stated(nodes: Seq<ResolutionNode>, otherwise: InUse, last: int)
    requires
        0 <= last < nodes.len(),
        nodes[last].active,
        forall|later: int| last < later < nodes.len() ==> !nodes[later].active,
    ensures
        last_stated(nodes, otherwise) == stated_by(nodes[last]),
    decreases nodes.len(),
{
    if last < nodes.len() - 1 {
        lemma_last_stated(nodes.drop_last(), otherwise, last);
    }
}

/// Without an active resolution `last_stated` gives what it was told to.
proof fn lemma_none_stated(nodes: Seq<ResolutionNode>, otherwise: InUse)
    requires
        forall|i: int| 0 <= i < nodes.len() ==> !nodes[i].active,
    ensures
        last_stated(nodes, otherwise) == otherwise,
    decreases nodes.len(),
{
    if nodes.len() > 0 {
        lemma_none_stated(nodes.drop_last(), otherwise);
    }
}

} // verus!
