//! The interaction state machine: which list has the focus, where the
//! cursors stand, whether the button editor is open, and what a key does.
//!
//! The machine is driven by two kinds of events: a key that was pressed and
//! the outcome of a remote call. Each event yields the next state and a
//! command for the driver: wait for a key, perform a remote call, or quit.

use crate::action::{label_text, ButtonAction, Payload};
use crate::cursor::{Cursor, CursorView};
use crate::device::{DeviceError, DeviceView, MouseDevice, RemoteCall, Stage, Step};
use crate::text::{decimal, push_decimal};
use vstd::prelude::*;
use vstd::string::*;

verus! {

/// The list that has the focus.
#[derive(Debug, Clone, Copy, PartialEq, Eq, Structural)]
pub enum Panel {
    /// The list of resolutions.
    Dpi,
    /// The list of buttons.
    Buttons,
}

/// Whether the button editor is open.
#[derive(Debug, Clone, Copy, PartialEq, Eq, Structural)]
pub enum Mode {
    /// The two lists are in use.
    Normal,
    /// The editor for the selected button lies over the lists.
    EditingButton,
}

/// A key as the terminal reports it.
#[derive(Debug, Clone, Copy, PartialEq, Eq, Structural)]
pub enum KeyInput {
    /// A character key.
    Char(char),
    /// The tabulator key.
    Tab,
    /// The up arrow.
    Up,
    /// The down arrow.
    Down,
    /// The enter key.
    Enter,
    /// The escape key.
    Esc,
    /// Any other key.
    Other,
}

/// What a key asks for.
#[derive(Debug, Clone, Copy, PartialEq, Eq, Structural)]
pub enum Intent {
    /// End the session.
    Quit,
    /// Give the focus to the other list.
    SwitchPanel,
    /// Move the cursor in focus one entry down.
    MoveDown,
    /// Move the cursor in focus one entry up.
    MoveUp,
    /// Apply the selection, or open the editor.
    Confirm,
    /// Leave the editor without a change.
    Cancel,
    /// The key has no meaning here.
    Nothing,
}

/// A change of the device that the session has asked for.
#[derive(Debug, Clone, Copy, PartialEq, Eq, Structural)]
pub enum Change {
    /// Use this resolution.
    Dpi(u32),
    /// Give the button at position `slot` this action.
    Button { slot: usize, action: ButtonAction },
}

/// A change that is under way.
#[derive(Debug, Clone, Copy, PartialEq, Eq, Structural)]
pub struct Pending {
    /// The change.
    pub change: Change,
    /// Whether its write has succeeded, so that the commit is under way.
    pub written: bool,
}

/// What the driver has to do next.
#[derive(Debug, PartialEq, Eq)]
pub enum Command {
    /// Wait for the next key and hand it in.
    WaitForKey,
    /// Perform this remote call and hand in its outcome.
    Perform(RemoteCall),
    /// End the session.
    Quit,
}

/// The meaning of a key in a mode.
pub open spec fn intent_of(mode: Mode, key: KeyInput) -> Intent {
    match mode {
        Mode::Normal => match key {
            KeyInput::Char(c) => if c == 'q' {
                Intent::Quit
            } else if c == 'j' {
                Intent::MoveDown
            } else if c == 'k' {
                Intent::MoveUp
            } else {
                Intent::Nothing
            },
            KeyInput::Tab => Intent::SwitchPanel,
            KeyInput::Down => Intent::MoveDown,
            KeyInput::Up => Intent::MoveUp,
            KeyInput::Enter => Intent::Confirm,
            _ => Intent::Nothing,
        },
        Mode::EditingButton => match key {
            KeyInput::Char(c) => if c == 'j' {
                Intent::MoveDown
            } else if c == 'k' {
                Intent::MoveUp
            } else {
                Intent::Nothing
            },
            KeyInput::Esc => Intent::Cancel,
            KeyInput::Down => Intent::MoveDown,
            KeyInput::Up => Intent::MoveUp,
            KeyInput::Enter => Intent::Confirm,
            _ => Intent::Nothing,
        },
    }
}

/// Whether `index` is the first position at which `value` stands in `list`.
pub open spec fn is_first_position<T>(list: Seq<T>, value: T, index: int) -> bool {
    &&& 0 <= index < list.len()
    &&& list[index] == value
    &&& forall|earlier: int| 0 <= earlier < index ==> list[earlier] != value
}

/// The first position at which `value` stands in `list`, or zero where it
/// stands nowhere.
pub open spec fn first_position_or_zero<T>(list: Seq<T>, value: T) -> nat {
    if exists|index: int| is_first_position(list, value, index) {
        (choose|index: int| is_first_position(list, value, index)) as nat
    } else {
        0
    }
}

/// The actions that the button editor offers: no action, then the mouse
/// buttons one to eight.
pub open spec fn editor_options() -> Seq<ButtonAction> {
    Seq::new(
        9,
        |i: int|
            if i == 0 {
                ButtonAction::NoAction
            } else {
                ButtonAction::Button(i as u32)
            },
    )
}

/// The message shown after the resolution was set.
pub open spec fn dpi_set_text(dpi: u32) -> Seq<char> {
    "DPI set to "@ + decimal(dpi as nat)
}

/// The message shown after a button was set.
pub open spec fn button_set_text(slot: nat, action: ButtonAction) -> Seq<char> {
    "Button "@ + decimal(slot) + " set to "@ + label_text(action)
}

/// The message shown after a change failed.
pub open spec fn error_text(reason: Seq<char>) -> Seq<char> {
    "Error: "@ + reason
}

/// The message shown when a change is over.
pub open spec fn result_text(change: Change, result: Result<(), DeviceError>) -> Seq<char> {
    match result {
        Ok(_) => match change {
            Change::Dpi(dpi) => dpi_set_text(dpi),
            Change::Button { slot, action } => button_set_text(slot as nat, action),
        },
        Err(error) => error_text(error.reason()),
    }
}

/// The session as a mathematical value.
pub struct AppView {
    pub device: DeviceView,
    pub panel: Panel,
    pub mode: Mode,
    pub dpi_cursor: CursorView,
    pub button_cursor: CursorView,
    pub popup_cursor: CursorView,
    pub popup_options: Seq<ButtonAction>,
    pub status: Option<Seq<char>>,
    pub pending: Option<Pending>,
}

impl AppView {
    /// Each cursor is a position of its list, and the positions of the
    /// buttons are numbers of the machine; the editor is open only on a
    /// button that exists, with its options; a change of a button that is
    /// under way is one of a button that exists, to an action that can be
    /// written.
    pub open spec fn wf(self) -> bool {
        &&& self.dpi_cursor.wf()
        &&& self.dpi_cursor.len == self.device.valid_dpis.len()
        &&& self.button_cursor.wf()
        &&& self.button_cursor.len == self.device.buttons.len()
        &&& self.device.buttons.len() <= usize::MAX
        &&& self.popup_cursor.wf()
        &&& self.popup_cursor.len == self.popup_options.len()
        &&& self.mode == Mode::EditingButton ==> {
            &&& self.device.buttons.len() > 0
            &&& self.popup_options == editor_options()
        }
        &&& match self.pending {
            Some(Pending { change: Change::Button { slot, action }, written }) => {
                &&& slot < self.device.buttons.len()
                &&& crate::action::encode(action) is Some
            },
            _ => true,
        }
    }

    /// The session at its start on a snapshot: focus on the resolutions,
    /// editor closed, the resolution cursor on the resolution in use (on the
    /// first entry where the list does not hold it), the button cursor on
    /// the first button, no message.
    pub open spec fn initial(device: DeviceView) -> AppView {
        AppView {
            device,
            panel: Panel::Dpi,
            mode: Mode::Normal,
            dpi_cursor: CursorView {
                index: first_position_or_zero(device.valid_dpis, device.dpi),
                len: device.valid_dpis.len(),
            },
            button_cursor: CursorView { index: 0, len: device.buttons.len() },
            popup_cursor: CursorView { index: 0, len: 0 },
            popup_options: Seq::empty(),
            status: None,
            pending: None,
        }
    }

    /// The resolution under the cursor; the resolution in use where the
    /// list is empty.
    pub open spec fn selected_dpi(self) -> u32 {
        if self.dpi_cursor.index < self.device.valid_dpis.len() {
            self.device.valid_dpis[self.dpi_cursor.index as int]
        } else {
            self.device.dpi
        }
    }

    /// The session with the editor opened on the selected button: the
    /// options are laid out and the editor's cursor stands on the option
    /// that equals the button's action, or on the first option where none
    /// does. Without a button there is nothing to edit.
    pub open spec fn with_editor_open(self) -> AppView {
        if self.button_cursor.index < self.device.buttons.len() {
            let current = self.device.buttons[self.button_cursor.index as int].action;
            AppView {
                mode: Mode::EditingButton,
                popup_options: editor_options(),
                popup_cursor: CursorView {
                    index: first_position_or_zero(editor_options(), current),
                    len: editor_options().len(),
                },
                ..self
            }
        } else {
            self
        }
    }

    /// The session once a change is over: the message is shown, and the
    /// editor, through which a button is changed, is closed.
    pub open spec fn finished(self, change: Change, result: Result<(), DeviceError>) -> AppView {
        AppView {
            status: Some(result_text(change, result)),
            pending: None,
            mode: match change {
                Change::Dpi(_) => self.mode,
                Change::Button { .. } => Mode::Normal,
            },
            ..self
        }
    }

    /// The session and the command after a change has taken `step`, which
    /// left the snapshot as `device`.
    pub open spec fn proceed(self, pending: Pending, step: Step, device: DeviceView) -> (
        AppView,
        Command,
    ) {
        match step {
            Step::Call(call) => (
                AppView { pending: Some(pending), device, ..self },
                Command::Perform(call),
            ),
            Step::Done(result) => (
                AppView { device, ..self.finished(pending.change, result) },
                Command::WaitForKey,
            ),
        }
    }

    /// The session and the command after the selected resolution was
    /// confirmed: a change begins where the selection differs from the
    /// resolution in use, and nothing happens where it does not.
    pub open spec fn confirm_dpi(self) -> (AppView, Command) {
        let dpi = self.selected_dpi();
        if dpi != self.device.dpi {
            self.proceed(
                Pending { change: Change::Dpi(dpi), written: false },
                self.device.dpi_step(dpi, Stage::Start),
                self.device,
            )
        } else {
            (self, Command::WaitForKey)
        }
    }

    /// The session and the command after the editor's selection was
    /// confirmed.
    pub open spec fn confirm_action(self) -> (AppView, Command) {
        let slot = self.button_cursor.index;
        let action = self.popup_options[self.popup_cursor.index as int];
        self.proceed(
            Pending { change: Change::Button { slot: slot as usize, action }, written: false },
            self.device.button_step(slot as int, action, Stage::Start),
            self.device,
        )
    }

    /// The session and the command after a key. While a change is under
    /// way keys are not looked at: the state stays and the call that is
    /// owed is named again.
    pub open spec fn on_key(self, key: KeyInput) -> (AppView, Command) {
        match self.pending {
            Some(pending) => (self, Command::Perform(self.owed_call(pending))),
            None => match self.mode {
                Mode::Normal => match intent_of(self.mode, key) {
                    Intent::Quit => (self, Command::Quit),
                    Intent::SwitchPanel => (
                        AppView {
                            panel: match self.panel {
                                Panel::Dpi => Panel::Buttons,
                                Panel::Buttons => Panel::Dpi,
                            },
                            status: None,
                            ..self
                        },
                        Command::WaitForKey,
                    ),
                    Intent::MoveDown => (
                        match self.panel {
                            Panel::Dpi => AppView { dpi_cursor: self.dpi_cursor.down(), ..self },
                            Panel::Buttons => AppView {
                                button_cursor: self.button_cursor.down(),
                                ..self
                            },
                        },
                        Command::WaitForKey,
                    ),
                    Intent::MoveUp => (
                        match self.panel {
                            Panel::Dpi => AppView { dpi_cursor: self.dpi_cursor.up(), ..self },
                            Panel::Buttons => AppView {
                                button_cursor: self.button_cursor.up(),
                                ..self
                            },
                        },
                        Command::WaitForKey,
                    ),
                    Intent::Confirm => match self.panel {
                        Panel::Dpi => self.confirm_dpi(),
                        Panel::Buttons => (self.with_editor_open(), Command::WaitForKey),
                    },
                    _ => (self, Command::WaitForKey),
                },
                Mode::EditingButton => match intent_of(self.mode, key) {
                    Intent::Cancel => (AppView { mode: Mode::Normal, ..self }, Command::WaitForKey),
                    Intent::MoveDown => (
                        AppView { popup_cursor: self.popup_cursor.down(), ..self },
                        Command::WaitForKey,
                    ),
                    Intent::MoveUp => (
                        AppView { popup_cursor: self.popup_cursor.up(), ..self },
                        Command::WaitForKey,
                    ),
                    Intent::Confirm => self.confirm_action(),
                    _ => (self, Command::WaitForKey),
                },
            },
        }
    }

    /// The stage that a change under way reaches with the outcome of the
    /// call that was owed.
    pub open spec fn stage_reached(pending: Pending, outcome: Result<(), String>) -> Stage {
        if pending.written {
            Stage::Committed(outcome)
        } else {
            Stage::Written(outcome)
        }
    }

    /// The call that is owed for a change under way.
    pub open spec fn owed_call(self, pending: Pending) -> RemoteCall {
        if pending.written {
            self.device.commit()
        } else {
            match pending.change {
                Change::Dpi(dpi) => self.device.resolution_write(dpi),
                Change::Button { slot, action } => self.device.mapping_write(
                    slot as int,
                    crate::action::encode(action).unwrap(),
                ),
            }
        }
    }

    /// The session and the command after the outcome of a remote call. An
    /// outcome that no change waits for is not looked at.
    pub open spec fn on_outcome(self, outcome: Result<(), String>) -> (AppView, Command) {
        match self.pending {
            None => (self, Command::WaitForKey),
            Some(pending) => {
                let stage = Self::stage_reached(pending, outcome);
                let next = Pending { written: true, ..pending };
                match pending.change {
                    Change::Dpi(dpi) => self.proceed(
                        next,
                        self.device.dpi_step(dpi, stage),
                        self.device.after_dpi_step(dpi, stage),
                    ),
                    Change::Button { slot, action } => self.proceed(
                        next,
                        self.device.button_step(slot as int, action, stage),
                        self.device.after_button_step(slot as int, action, stage),
                    ),
                }
            },
        }
    }
}

/// The session: the snapshot of the device and the state of the interface.
#[derive(Debug)]
pub struct App {
    device: MouseDevice,
    panel: Panel,
    mode: Mode,
    dpi_cursor: Cursor,
    button_cursor: Cursor,
    popup_cursor: Cursor,
    popup_options: Vec<ButtonAction>,
    status: Option<String>,
    pending: Option<Pending>,
}

impl View for App {
    type V = AppView;

    closed spec fn view(&self) -> AppView {
        AppView {
            device: self.device@,
            panel: self.panel,
            mode: self.mode,
            dpi_cursor: self.dpi_cursor@,
            button_cursor: self.button_cursor@,
            popup_cursor: self.popup_cursor@,
            popup_options: self.popup_options@,
            status: match self.status {
                Some(text) => Some(text@),
                None => None,
            },
            pending: self.pending,
        }
    }
}

/// The first position of a value is the only one, so it is the one that
/// `first_position_or_zero` names.
pub proof fn lemma_first_position<T>(list: Seq<T>, value: T, index: int)
    requires
        is_first_position(list, value, index),
    ensures
        first_position_or_zero(list, value) == index,
{
    let chosen = choose|i: int| is_first_position(list, value, i);
    assert(is_first_position(list, value, chosen));
    if chosen < index {
        assert(list[chosen] != value);
    }
    if index < chosen {
        assert(list[index] != value);
    }
}

/// The first position at which `value` stands in `list`, or zero.
fn position_of_dpi(list: &Vec<u32>, value: u32) -> (index: usize)
    ensures
        index == first_position_or_zero(list@, value),
{
    let mut i: usize = 0;
    while i < list.len()
        invariant
            i <= list.len(),
            forall|earlier: int| 0 <= earlier < i ==> list@[earlier] != value,
        decreases list.len() - i,
    {
        if list[i] == value {
            proof {
                lemma_first_position(list@, value, i as int);
            }
            return i;
        }
        i = i + 1;
    }
    0
}

/// The first position at which `value` stands in `list`, or zero.
fn position_of_action(list: &Vec<ButtonAction>, value: ButtonAction) -> (index: usize)
    ensures
        index == first_position_or_zero(list@, value),
{
    let mut i: usize = 0;
    while i < list.len()
        invariant
            i <= list.len(),
            forall|earlier: int| 0 <= earlier < i ==> list@[earlier] != value,
        decreases list.len() - i,
    {
        if list[i] == value {
            proof {
                lemma_first_position(list@, value, i as int);
            }
            return i;
        }
        i = i + 1;
    }
    0
}

/// Lays out the options of the button editor.
fn make_editor_options() -> (options: Vec<ButtonAction>)
    ensures
        options@ == editor_options(),
{
    let mut options: Vec<ButtonAction> = Vec::new();
    options.push(ButtonAction::NoAction);
    let mut n: u32 = 1;
    while n <= 8
        invariant
            1 <= n <= 9,
            options@.len() == n,
            forall|i: int| 0 <= i < n ==> options@[i] == editor_options()[i],
        decreases 9 - n,
    {
        options.push(ButtonAction::Button(n));
        n = n + 1;
    }
    assert(options@ =~= editor_options());
    options
}

impl KeyInput {
    /// The meaning of the key in a mode.
    pub fn intent(&self, mode: Mode) -> (intent: Intent)
        ensures
            intent == intent_of(mode, *self),
    {
        match mode {
            Mode::Normal => match self {
                KeyInput::Char(c) => if *c == 'q' {
                    Intent::Quit
                } else if *c == 'j' {
                    Intent::MoveDown
                } else if *c == 'k' {
                    Intent::MoveUp
                } else {
                    Intent::Nothing
                },
                KeyInput::Tab => Intent::SwitchPanel,
                KeyInput::Down => Intent::MoveDown,
                KeyInput::Up => Intent::MoveUp,
                KeyInput::Enter => Intent::Confirm,
                _ => Intent::Nothing,
            },
            Mode::EditingButton => match self {
                KeyInput::Char(c) => if *c == 'j' {
                    Intent::MoveDown
                } else if *c == 'k' {
                    Intent::MoveUp
                } else {
                    Intent::Nothing
                },
                KeyInput::Esc => Intent::Cancel,
                KeyInput::Down => Intent::MoveDown,
                KeyInput::Up => Intent::MoveUp,
                KeyInput::Enter => Intent::Confirm,
                _ => Intent::Nothing,
            },
        }
    }
}

/// Builds the message shown when a change is over.
fn make_result_text(change: Change, result: &Result<(), DeviceError>) -> (text: String)
    ensures
        text@ == result_text(change, *result),
{
    match result {
        Ok(_) => match change {
            Change::Dpi(dpi) => {
                let mut text = String::from_str("DPI set to ");
                push_decimal(&mut text, dpi as u64);
                text
            },
            Change::Button { slot, action } => {
                let mut text = String::from_str("Button ");
                push_decimal(&mut text, slot as u64);
                text.append(" set to ");
                let label = action.label();
                text.append(label.as_str());
                text
            },
        },
        Err(error) => {
            let mut text = String::from_str("Error: ");
            text.append(error.message());
            text
        },
    }
}

impl App {
    /// Starts a session on a snapshot.
    pub fn new(device: MouseDevice) -> (app: App)
        ensures
            app@ == AppView::initial(device@),
            app@.wf(),
    {
        let dpi_index: usize = position_of_dpi(&device.valid_dpis, device.dpi);
        let dpi_cursor = Cursor::at(dpi_index, device.valid_dpis.len());
        let button_cursor = Cursor::at(0, device.buttons.len());
        let popup_cursor = Cursor::at(0, 0);
        proof {
            let list = device@.valid_dpis;
            if exists|index: int| is_first_position(list, device.dpi, index) {
                let chosen = choose|index: int| is_first_position(list, device.dpi, index);
                assert(is_first_position(list, device.dpi, chosen));
            }
        }
        App {
            device,
            panel: Panel::Dpi,
            mode: Mode::Normal,
            dpi_cursor,
            button_cursor,
            popup_cursor,
            popup_options: Vec::new(),
            status: None,
            pending: None,
        }
    }

    /// Starts a session on what a load has yielded. The session is bound to
    /// the first snapshot and the others are let go; without a snapshot
    /// there is no session.
    pub fn start(devices: Vec<MouseDevice>) -> (session: Option<App>)
        ensures
            match session {
                Some(app) => {
                    &&& devices@.len() > 0
                    &&& app@ == AppView::initial(devices@[0]@)
                    &&& app@.wf()
                },
                None => devices@.len() == 0,
            },
    {
        let mut devices = devices;
        if devices.len() == 0 {
            None
        } else {
            Some(App::new(devices.remove(0)))
        }
    }

    /// The snapshot of the device.
    pub fn device(&self) -> (device: &MouseDevice)
        ensures
            device@ == self@.device,
    {
        &self.device
    }

    /// The list that has the focus.
    pub fn panel(&self) -> (panel: Panel)
        ensures
            panel == self@.panel,
    {
        self.panel
    }

    /// Whether the button editor is open.
    pub fn mode(&self) -> (mode: Mode)
        ensures
            mode == self@.mode,
    {
        self.mode
    }

    /// The cursor in the list of resolutions.
    pub fn dpi_cursor(&self) -> (cursor: Cursor)
        ensures
            cursor@ == self@.dpi_cursor,
    {
        self.dpi_cursor
    }

    /// The cursor in the list of buttons.
    pub fn button_cursor(&self) -> (cursor: Cursor)
        ensures
            cursor@ == self@.button_cursor,
    {
        self.button_cursor
    }

    /// The cursor in the button editor.
    pub fn popup_cursor(&self) -> (cursor: Cursor)
        ensures
            cursor@ == self@.popup_cursor,
    {
        self.popup_cursor
    }

    /// The actions that the button editor offers.
    pub fn popup_options(&self) -> (options: &Vec<ButtonAction>)
        ensures
            options@ == self@.popup_options,
    {
        &self.popup_options
    }

    /// The message about the last change, if one is shown.
    pub fn status(&self) -> (status: Option<&String>)
        ensures
            match status {
                Some(text) => self@.status == Some(text@),
                None => self@.status is None,
            },
    {
        match &self.status {
            Some(text) => Some(text),
            None => None,
        }
    }

    /// Whether a change is under way, so that the driver owes a remote call.
    pub fn is_busy(&self) -> (busy: bool)
        ensures
            busy == self@.pending is Some,
    {
        self.pending.is_some()
    }

    /// Moves the resolution cursor one entry down.
    pub fn next_dpi(&mut self)
        ensures
            final(self)@ == (AppView { dpi_cursor: old(self)@.dpi_cursor.down(), ..old(self)@ }),
            old(self)@.wf() ==> final(self)@.wf(),
    {
        self.dpi_cursor.down();
    }

    /// Moves the resolution cursor one entry up.
    pub fn prev_dpi(&mut self)
        ensures
            final(self)@ == (AppView { dpi_cursor: old(self)@.dpi_cursor.up(), ..old(self)@ }),
            old(self)@.wf() ==> final(self)@.wf(),
    {
        self.dpi_cursor.up();
    }

    /// Moves the button cursor one entry down.
    pub fn next_button(&mut self)
        ensures
            final(self)@ == (AppView {
                button_cursor: old(self)@.button_cursor.down(),
                ..old(self)@
            }),
            old(self)@.wf() ==> final(self)@.wf(),
    {
        self.button_cursor.down();
    }

    /// Moves the button cursor one entry up.
    pub fn prev_button(&mut self)
        ensures
            final(self)@ == (AppView { button_cursor: old(self)@.button_cursor.up(), ..old(self)@ }),
            old(self)@.wf() ==> final(self)@.wf(),
    {
        self.button_cursor.up();
    }

    /// Moves the editor's cursor one entry down.
    pub fn next_popup(&mut self)
        ensures
            final(self)@ == (AppView {
                popup_cursor: old(self)@.popup_cursor.down(),
                ..old(self)@
            }),
            old(self)@.wf() ==> final(self)@.wf(),
    {
        self.popup_cursor.down();
    }

    /// Moves the editor's cursor one entry up.
    pub fn prev_popup(&mut self)
        ensures
            final(self)@ == (AppView { popup_cursor: old(self)@.popup_cursor.up(), ..old(self)@ }),
            old(self)@.wf() ==> final(self)@.wf(),
    {
        self.popup_cursor.up();
    }

    /// The resolution under the cursor; the resolution in use where the
    /// list is empty.
    pub fn selected_dpi(&self) -> (dpi: u32)
        ensures
            dpi == self@.selected_dpi(),
    {
        let index: usize = self.dpi_cursor.index();
        if index < self.device.valid_dpis.len() {
            self.device.valid_dpis[index]
        } else {
            self.device.dpi
        }
    }

    /// Opens the editor on the selected button.
    pub fn open_button_editor(&mut self)
        ensures
            final(self)@ == old(self)@.with_editor_open(),
            old(self)@.wf() ==> final(self)@.wf(),
    {
        let current: usize = self.button_cursor.index();
        if current < self.device.buttons.len() {
            let options = make_editor_options();
            let current_action = self.device.buttons[current].action;
            let selected: usize = position_of_action(&options, current_action);
            proof {
                let list = options@;
                if exists|index: int| is_first_position(list, current_action, index) {
                    let chosen = choose|index: int| is_first_position(list, current_action, index);
                    assert(is_first_position(list, current_action, chosen));
                }
            }
            self.popup_cursor = Cursor::at(selected, options.len());
            self.popup_options = options;
            self.mode = Mode::EditingButton;
        }
    }

    /// Takes note of the step that a change has taken.
    fn proceed(&mut self, pending: Pending, step: Step) -> (command: Command)
        ensures
            (final(self)@, command) == old(self)@.proceed(pending, step, old(self)@.device),
    {
        match step {
            Step::Call(call) => {
                self.pending = Some(pending);
                Command::Perform(call)
            },
            Step::Done(result) => {
                self.status = Some(make_result_text(pending.change, &result));
                self.pending = None;
                match pending.change {
                    Change::Dpi(_) => {},
                    Change::Button { .. } => {
                        self.mode = Mode::Normal;
                    },
                }
                Command::WaitForKey
            },
        }
    }

    /// The call that is owed for the change under way.
    fn owed_call(&self, pending: Pending) -> (call: RemoteCall)
        requires
            self@.wf(),
            self@.pending == Some(pending),
        ensures
            call == self@.owed_call(pending),
    {
        if pending.written {
            return RemoteCall::Commit { path: self.device.device_path.clone() };
        }
        match pending.change {
            Change::Dpi(dpi) => RemoteCall::WriteResolution {
                path: self.device.resolution_path.clone(),
                value: Payload::from_dpi(dpi),
            },
            Change::Button { slot, action } => match action.to_mapping() {
                Some(mapping) => RemoteCall::WriteMapping {
                    path: self.device.buttons[slot].path.clone(),
                    type_code: mapping.0,
                    value: mapping.1,
                },
                None => vstd::pervasive::unreached(),
            },
        }
    }

    /// Takes a key that was pressed and says what the driver has to do next.
    pub fn handle_key(&mut self, key: KeyInput) -> (command: Command)
        requires
            old(self)@.wf(),
        ensures
            (final(self)@, command) == old(self)@.on_key(key),
            final(self)@.wf(),
    {
        if let Some(pending) = self.pending {
            return Command::Perform(self.owed_call(pending));
        }
        match self.mode {
            Mode::Normal => match key.intent(self.mode) {
                Intent::Quit => Command::Quit,
                Intent::SwitchPanel => {
                    self.panel = match self.panel {
                        Panel::Dpi => Panel::Buttons,
                        Panel::Buttons => Panel::Dpi,
                    };
                    self.status = None;
                    Command::WaitForKey
                },
                Intent::MoveDown => {
                    match self.panel {
                        Panel::Dpi => self.next_dpi(),
                        Panel::Buttons => self.next_button(),
                    }
                    Command::WaitForKey
                },
                Intent::MoveUp => {
                    match self.panel {
                        Panel::Dpi => self.prev_dpi(),
                        Panel::Buttons => self.prev_button(),
                    }
                    Command::WaitForKey
                },
                Intent::Confirm => match self.panel {
                    Panel::Dpi => {
                        let new_dpi: u32 = self.selected_dpi();
                        if new_dpi != self.device.dpi {
                            let step = self.device.set_dpi(new_dpi, Stage::Start);
                            self.proceed(
                                Pending { change: Change::Dpi(new_dpi), written: false },
                                step,
                            )
                        } else {
                            Command::WaitForKey
                        }
                    },
                    Panel::Buttons => {
                        self.open_button_editor();
                        Command::WaitForKey
                    },
                },
                _ => Command::WaitForKey,
            },
            Mode::EditingButton => match key.intent(self.mode) {
                Intent::Cancel => {
                    self.mode = Mode::Normal;
                    Command::WaitForKey
                },
                Intent::MoveDown => {
                    self.next_popup();
                    Command::WaitForKey
                },
                Intent::MoveUp => {
                    self.prev_popup();
                    Command::WaitForKey
                },
                Intent::Confirm => {
                    let button_index: usize = self.button_cursor.index();
                    let action_index: usize = self.popup_cursor.index();
                    let action = self.popup_options[action_index];
                    let step = self.device.set_button(button_index, action, Stage::Start);
                    self.proceed(
                        Pending {
                            change: Change::Button { slot: button_index, action },
                            written: false,
                        },
                        step,
                    )
                },
                _ => Command::WaitForKey,
            },
        }
    }

    /// Takes the outcome of the remote call that was owed and says what the
    /// driver has to do next.
    pub fn remote_finished(&mut self, outcome: Result<(), String>) -> (command: Command)
        requires
            old(self)@.wf(),
        ensures
            (final(self)@, command) == old(self)@.on_outcome(outcome),
            final(self)@.wf(),
    {
        match self.pending {
            None => Command::WaitForKey,
            Some(pending) => {
                let stage = if pending.written {
                    Stage::Committed(outcome)
                } else {
                    Stage::Written(outcome)
                };
                let step = match pending.change {
                    Change::Dpi(dpi) => self.device.set_dpi(dpi, stage),
                    Change::Button { slot, action } => self.device.set_button(slot, action, stage),
                };
                self.proceed(Pending { written: true, ..pending }, step)
            },
        }
    }
}

/// Every action that the editor offers stands at one position of its
/// options: no action first, then each mouse button at its number.
pub proof fn lemma_editor_positions(action: ButtonAction)
    ensures
        action == ButtonAction::NoAction ==> first_position_or_zero(editor_options(), action) == 0,
        forall|n: u32|
            1 <= n <= 8 && action == ButtonAction::Button(n) ==> first_position_or_zero(
                editor_options(),
                action,
            ) == n,
        !editor_options().contains(action) ==> first_position_or_zero(editor_options(), action)
            == 0,
{
    let options = editor_options();
    if action == ButtonAction::NoAction {
        assert(is_first_position(options, action, 0));
        lemma_first_position(options, action, 0);
    }
    assert forall|n: u32| 1 <= n <= 8 && action == ButtonAction::Button(n) implies
        first_position_or_zero(options, action) == n by {
        assert(is_first_position(options, action, n as int));
        lemma_first_position(options, action, n as int);
    }
    if !options.contains(action) {
        if exists|index: int| is_first_position(options, action, index) {
            let index = choose|index: int| is_first_position(options, action, index);
            assert(options[index] == action);
        }
    }
}

/// The editor opens with its cursor on the option that equals the action
/// of the selected button, where the options hold it, and on the first
/// option where they do not.
pub proof fn lemma_editor_opens_on_current_action(app: AppView)
    requires
        app.wf(),
        app.device.buttons.len() > 0,
    ensures
        ({
            let current = app.device.buttons[app.button_cursor.index as int].action;
            let opened = app.with_editor_open();
            &&& opened.mode == Mode::EditingButton
            &&& opened.wf()
            &&& editor_options().contains(current) ==> opened.popup_options[
                opened.popup_cursor.index as int
            ] == current
            &&& !editor_options().contains(current) ==> opened.popup_cursor.index == 0
        }),
{
    let current = app.device.buttons[app.button_cursor.index as int].action;
    let options = editor_options();
    lemma_editor_positions(current);
    if options.contains(current) {
        let at = choose|at: int| 0 <= at < options.len() && options[at] == current;
        if at == 0 {
            assert(current == ButtonAction::NoAction);
        } else {
            assert(current == ButtonAction::Button(at as u32));
        }
    }
}

/// The state of a session that is well formed stays well formed, whatever
/// the key and whatever the outcome of a call.
pub proof fn lemma_wf_is_kept(app: AppView, key: KeyInput, outcome: Result<(), String>)
    requires
        app.wf(),
    ensures
        app.on_key(key).0.wf(),
        app.on_outcome(outcome).0.wf(),
{
    if app.device.buttons.len() > 0 {
        lemma_editor_opens_on_current_action(app);
    }
}

/// A change of the resolution from beginning to end: confirming a
/// selection that differs from the resolution in use asks for the write,
/// the write's success asks for the commit, and the commit's success puts
/// the selection into the snapshot and shows the message. Nothing else of
/// the session changes.
pub proof fn lemma_dpi_change_end_to_end(app: AppView, key: KeyInput)
    requires
        app.wf(),
        app.pending is None,
        app.mode == Mode::Normal,
        app.panel == Panel::Dpi,
        intent_of(app.mode, key) == Intent::Confirm,
        app.selected_dpi() != app.device.dpi,
    ensures
        ({
            let dpi = app.selected_dpi();
            let (confirmed, first) = app.on_key(key);
            let (written, second) = confirmed.on_outcome(Ok(()));
            let (committed, third) = written.on_outcome(Ok(()));
            &&& first == Command::Perform(app.device.resolution_write(dpi))
            &&& second == Command::Perform(app.device.commit())
            &&& third == Command::WaitForKey
            &&& confirmed.device == app.device
            &&& written.device == app.device
            &&& committed == (AppView {
                device: app.device.with_dpi(dpi),
                status: Some(dpi_set_text(dpi)),
                ..app
            })
        }),
{
}

/// A change of a button from beginning to end: confirming an option of
/// the editor asks for the write, the write's success asks for the commit,
/// and the commit's success puts the action on the selected button, shows
/// the message and closes the editor. Nothing else of the session changes.
pub proof fn lemma_button_change_end_to_end(app: AppView, key: KeyInput)
    requires
        app.wf(),
        app.pending is None,
        app.mode == Mode::EditingButton,
        intent_of(app.mode, key) == Intent::Confirm,
    ensures
        ({
            let slot = app.button_cursor.index;
            let action = app.popup_options[app.popup_cursor.index as int];
            let (confirmed, first) = app.on_key(key);
            let (written, second) = confirmed.on_outcome(Ok(()));
            let (committed, third) = written.on_outcome(Ok(()));
            &&& crate::action::encode(action) matches Some(mapping) && first == Command::Perform(
                app.device.mapping_write(slot as int, mapping),
            )
            &&& second == Command::Perform(app.device.commit())
            &&& third == Command::WaitForKey
            &&& confirmed.device == app.device
            &&& written.device == app.device
            &&& committed == (AppView {
                device: app.device.with_action(slot as int, action),
                status: Some(button_set_text(slot, action)),
                mode: Mode::Normal,
                ..app
            })
        }),
{
}

/// A change that fails leaves the snapshot as it was: the session shows
/// the error, owes no call, and has the editor closed where a button was
/// to be changed.
pub proof fn lemma_failed_call_keeps_snapshot(app: AppView, reason: String)
    requires
        app.wf(),
        app.pending is Some,
    ensures
        ({
            let (after, command) = app.on_outcome(Err(reason));
            &&& after.device == app.device
            &&& after.pending is None
            &&& after.status == Some(error_text(reason@))
            &&& command == Command::WaitForKey
            &&& app.pending.unwrap().change is Button ==> after.mode == Mode::Normal
        }),
{
}

/// A message stays while the cursor moves and goes when the focus moves
/// to the other list.
pub proof fn lemma_message_lifetime(app: AppView, key: KeyInput)
    requires
        app.pending is None,
        app.mode == Mode::Normal,
    ensures
        intent_of(app.mode, key) == Intent::SwitchPanel ==> app.on_key(key).0.status is None,
        intent_of(app.mode, key) == Intent::MoveUp || intent_of(app.mode, key) == Intent::MoveDown
            ==> app.on_key(key).0.status == app.status,
{
}

/// The resolution in use is one that the device offers, and so is one that
/// a change under way asks for.
pub open spec fn dpi_is_listed(app: AppView) -> bool {
    &&& app.device.valid_dpis.contains(app.device.dpi)
    &&& match app.pending {
        Some(Pending { change: Change::Dpi(dpi), written }) => app.device.valid_dpis.contains(dpi),
        _ => true,
    }
}

/// A session never leads away from the resolutions that the device offers:
/// where the resolution in use is one of them, it still is after every key
/// and after every outcome of a call.
pub proof fn lemma_dpi_stays_listed(app: AppView, key: KeyInput, outcome: Result<(), String>)
    requires
        app.wf(),
        dpi_is_listed(app),
    ensures
        dpi_is_listed(app.on_key(key).0),
        dpi_is_listed(app.on_outcome(outcome).0),
{
}

} // verus!
