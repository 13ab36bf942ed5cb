//! Catching key bindings and finding the functions assigned to them.
//!
//! As in `vim`, bindings live in modes that are switched on and off, so that
//! the same keys can mean different things at different times. The functions
//! themselves stay with the caller; a mode knows each by its identifier.

use vstd::prelude::*;
use crate::collections::{Keyed, Table};
use crate::enums::{Action, Direction, InteractionMode, KeyState};
use crate::mode_name;

verus! {

/// Code of a key or button.
pub type InputCode = u16;

/// Value of an input event.
pub type InputValue = i32;

/// State of the modifier keys, one bit each.
pub type ModifierType = u16;

/// A key or button together with the modifiers held.
#[derive(Clone, Copy, Debug, PartialEq, Eq, Structural)]
pub struct Binding {
    pub code: InputCode,
    pub modifiers: ModifierType,
}

impl Binding {
    pub fn create(code: InputCode, modifiers: ModifierType) -> (binding: Self)
        ensures
            binding == (Binding { code, modifiers }),
    {
        Binding { code, modifiers }
    }
}

impl Keyed for Binding {
    open spec fn key(self) -> u64 {
        (self.code * 65536 + self.modifiers) as u64
    }

    fn to_key(self) -> (key: u64) {
        let code: u64 = self.code as u64;
        let modifiers: u64 = self.modifiers as u64;
        code * 65536 + modifiers
    }

    proof fn lemma_key_injective(a: Self, b: Self) {
    }
}

/// Stands for a function that a binding executes.
#[derive(Clone, Copy, Debug, PartialEq, Eq, Structural)]
pub struct ExecutorId {
    pub value: u64,
}

/// Whether an input event was consumed by a binding.
#[derive(Clone, Copy, Debug, PartialEq, Eq, Structural)]
pub enum CatchResult {
    Caught,
    Passed,
}

/// Which half of a key stroke an executor is to handle.
#[derive(Clone, Copy, Debug, PartialEq, Eq, Structural)]
pub enum Stroke {
    Activate,
    Release,
}

/// What was last changed in the command under construction.
#[derive(Clone, Copy, Debug, PartialEq, Eq, Structural)]
pub enum PreviousModification {
    Action,
    Direction,
    Magnitude,
    String,
    Nothing,
}

/// A command for the compositor, built up key by key.
#[derive(Debug)]
pub struct Command {
    pub action: Action,
    pub direction: Direction,
    pub magnitude: i32,
    pub string: String,
}

/// A command as plain mathematics.
pub struct CommandView {
    pub action: Action,
    pub direction: Direction,
    pub magnitude: i32,
    pub string: Seq<char>,
}

impl View for Command {
    type V = CommandView;

    open spec fn view(&self) -> CommandView {
        CommandView {
            action: self.action,
            direction: self.direction,
            magnitude: self.magnitude,
            string: self.string@,
        }
    }
}

/// The command that does nothing.
pub open spec fn empty_command() -> CommandView {
    CommandView {
        action: Action::Nothing,
        direction: Direction::Nowhere,
        magnitude: 0,
        string: Seq::empty(),
    }
}

impl Default for Command {
    fn default() -> (command: Self)
        ensures
            command@ == empty_command(),
    {
        Command {
            action: Action::Nothing,
            direction: Direction::Nowhere,
            magnitude: 0,
            string: String::new(),
        }
    }
}

impl Clone for Command {
    fn clone(&self) -> (command: Self)
        ensures
            command@ == self@,
    {
        Command {
            action: self.action,
            direction: self.direction,
            magnitude: self.magnitude,
            string: self.string.clone(),
        }
    }
}

/// One binding of a configuration, with the function it executes.
#[derive(Clone, Copy, Debug, PartialEq, Eq, Structural)]
pub struct BindingEntry {
    pub binding: Binding,
    pub executor: ExecutorId,
}

/// The configured bindings, mode by mode.
pub struct KeybindingsConfig {
    pub common: Vec<BindingEntry>,
    pub insert: Vec<BindingEntry>,
    pub normal: Vec<BindingEntry>,
    pub visual: Vec<BindingEntry>,
}

/// A mode: a named set of bindings that is active or not.
pub struct Mode {
    active: bool,
    name: String,
    bindings: Table<Binding, ExecutorId>,
    default_executor: Option<ExecutorId>,
}

/// A mode as plain mathematics.
pub struct ModeView {
    pub active: bool,
    pub name: Seq<char>,
    pub bindings: Map<Binding, ExecutorId>,
    pub default_executor: Option<ExecutorId>,
}

impl ModeView {
    /// The executor this mode has for a binding: the one bound, or else the
    /// mode's default.
    pub open spec fn executor(self, binding: Binding) -> Option<ExecutorId> {
        if self.bindings.contains_key(binding) {
            Some(self.bindings[binding])
        } else {
            self.default_executor
        }
    }
}

impl View for Mode {
    type V = ModeView;

    closed spec fn view(&self) -> ModeView {
        ModeView {
            active: self.active,
            name: self.name@,
            bindings: self.bindings.map(),
            default_executor: self.default_executor,
        }
    }
}

impl Mode {
    /// The table of bindings keeps its invariant.
    pub closed spec fn wf(&self) -> bool {
        self.bindings.wf()
    }

    /// Constructs new `Mode`, without bindings.
    pub fn new(active: bool, name: String, default_executor: Option<ExecutorId>) -> (mode: Self)
        ensures
            mode.wf(),
            mode@ == (ModeView { active, name: name@, bindings: Map::empty(), default_executor }),
    {
        Mode { active, name, bindings: Table::new(), default_executor }
    }

    /// Checks if mode is active.
    pub fn is_active(&self) -> (active: bool)
        ensures
            active == self@.active,
    {
        self.active
    }

    /// Returns name of the mode.
    pub fn get_name(&self) -> (name: String)
        ensures
            name@ == self@.name,
    {
        self.name.clone()
    }

    /// Sets mode active or inactive.
    pub fn make_active(&mut self, active: bool)
        ensures
            final(self).wf() == old(self).wf(),
            final(self)@ == (ModeView { active, ..old(self)@ }),
    {
        self.active = active;
    }

    /// Add new binding, in place of what the binding executed before.
    pub fn add_binding(&mut self, binding: Binding, executor: ExecutorId)
        requires
            old(self).wf(),
        ensures
            final(self).wf(),
            final(self)@ == (ModeView {
                bindings: old(self)@.bindings.insert(binding, executor),
                ..old(self)@
            }),
    {
        self.bindings.insert(binding, executor);
    }

    /// Returns executor for given binding.
    pub fn get_executor(&self, binding: &Binding) -> (executor: Option<ExecutorId>)
        requires
            self.wf(),
        ensures
            executor == self@.executor(*binding),
    {
        let mut executor = self.bindings.get(*binding);
        if self.default_executor.is_some() && executor.is_none() {
            executor = self.default_executor;
        }
        executor
    }
}

/// The executor for a binding: that of the first active mode, in order,
/// that has one.
pub open spec fn found_executor(modes: Seq<ModeView>, binding: Binding) -> Option<ExecutorId>
    decreases modes.len(),
{
    if modes.len() == 0 {
        None
    } else if modes.first().active && modes.first().executor(binding) is Some {
        modes.first().executor(binding)
    } else {
        found_executor(modes.drop_first(), binding)
    }
}

/// The position of the first mode of a name; the number of modes if there
/// is none.
pub open spec fn mode_position(modes: Seq<ModeView>, name: Seq<char>) -> int
    decreases modes.len(),
{
    if modes.len() == 0 {
        0
    } else if modes.first().name == name {
        0
    } else {
        1 + mode_position(modes.drop_first(), name)
    }
}

/// The modes after the first mode of a name was switched on or off.
pub open spec fn with_mode_active(modes: Seq<ModeView>, name: Seq<char>, active: bool) -> Seq<
    ModeView,
> {
    let i = mode_position(modes, name);
    if i < modes.len() {
        modes.update(i, ModeView { active, ..modes[i] })
    } else {
        modes
    }
}

/// The modes after a binding was added to the first mode of a name. Where
/// no mode has the name, a new inactive mode with only this binding is
/// added at the end.
pub open spec fn with_binding(
    modes: Seq<ModeView>,
    name: Seq<char>,
    binding: Binding,
    executor: ExecutorId,
) -> Seq<ModeView> {
    let i = mode_position(modes, name);
    if i < modes.len() {
        modes.update(i, ModeView { bindings: modes[i].bindings.insert(binding, executor), ..modes[i] })
    } else {
        modes.push(
            ModeView {
                active: false,
                name,
                bindings: Map::empty().insert(binding, executor),
                default_executor: None,
            },
        )
    }
}

/// The modes after the bindings in `entries` were added, one after the
/// other, to the mode of a name.
pub open spec fn with_bindings(modes: Seq<ModeView>, name: Seq<char>, entries: Seq<BindingEntry>) -> Seq<
    ModeView,
>
    decreases entries.len(),
{
    if entries.len() == 0 {
        modes
    } else {
        let earlier = with_bindings(modes, name, entries.drop_last());
        with_binding(earlier, name, entries.last().binding, entries.last().executor)
    }
}

/// The modes after a configuration was applied: the bindings of the common,
/// the insert, the normal and the visual mode, in this order.
pub open spec fn configured(modes: Seq<ModeView>, config: KeybindingsConfig) -> Seq<ModeView> {
    let common = with_bindings(modes, mode_name::COMMON@, config.common@);
    let insert = with_bindings(common, mode_name::INSERT@, config.insert@);
    let normal = with_bindings(insert, mode_name::NORMAL@, config.normal@);
    with_bindings(normal, mode_name::VISUAL@, config.visual@)
}

/// The modes every manager starts with: common and insert, both active, and
/// normal, inactive, which passes nothing on: what is not bound in it goes
/// to `nop`.
pub open spec fn default_modes(nop: ExecutorId) -> Seq<ModeView> {
    seq![
        ModeView {
            active: true,
            name: mode_name::COMMON@,
            bindings: Map::empty(),
            default_executor: None,
        },
        ModeView {
            active: true,
            name: mode_name::INSERT@,
            bindings: Map::empty(),
            default_executor: None,
        },
        ModeView {
            active: false,
            name: mode_name::NORMAL@,
            bindings: Map::empty(),
            default_executor: Some(nop),
        },
    ]
}

/// The number a key code stands for: the digits of the number row and of the
/// numeric keys are themselves, and both minus keys stand for -1.
pub open spec fn code_number(code: InputCode) -> Option<i32> {
    if code == 12 || code == 74 {
        Some(-1i32)
    } else if code == 11 || code == 0x200 {
        Some(0i32)
    } else if 2 <= code <= 10 {
        Some((code - 1) as i32)
    } else if 0x201 <= code <= 0x209 {
        Some((code - 0x200) as i32)
    } else {
        None
    }
}

/// What catching an input event results in: with an executor for the
/// binding the event is caught, and the executor handles a press or a
/// release; any other value is caught and handled by nobody.
pub open spec fn caught(modes: Seq<ModeView>, binding: Binding, value: InputValue) -> (
    CatchResult,
    Option<(ExecutorId, Stroke)>,
) {
    match found_executor(modes, binding) {
        Some(executor) => (
            CatchResult::Caught,
            if value == 1 {
                Some((executor, Stroke::Activate))
            } else if value == 0 {
                Some((executor, Stroke::Release))
            } else {
                None
            },
        ),
        None => (CatchResult::Passed, None),
    }
}

/// The keys `KEY_MINUS` and `KEY_KPMINUS` of `uinput_sys`, which are defined
/// as 12 and 74.
#[verifier::external_body]
fn minus_keys() -> (keys: [i32; 2])
    ensures
        keys@ == seq![12i32, 74i32],
{
    [uinput_sys::KEY_MINUS, uinput_sys::KEY_KPMINUS]
}

/// The digit keys of the number row in `uinput_sys`, zero first: `KEY_10`,
/// then `KEY_1` to `KEY_9`, which are defined as 11 and as 2 to 10.
#[verifier::external_body]
fn row_keys() -> (keys: [i32; 10])
    ensures
        keys@ == seq![11i32, 2i32, 3i32, 4i32, 5i32, 6i32, 7i32, 8i32, 9i32, 10i32],
{
    [
        uinput_sys::KEY_10,
        uinput_sys::KEY_1,
        uinput_sys::KEY_2,
        uinput_sys::KEY_3,
        uinput_sys::KEY_4,
        uinput_sys::KEY_5,
        uinput_sys::KEY_6,
        uinput_sys::KEY_7,
        uinput_sys::KEY_8,
        uinput_sys::KEY_9,
    ]
}

/// The numeric keys `KEY_NUMERIC_0` to `KEY_NUMERIC_9` of `uinput_sys`, which
/// are defined as 0x200 to 0x209.
#[verifier::external_body]
fn numeric_keys() -> (keys: [i32; 10])
    ensures
        keys@ == seq![
            0x200i32,
            0x201i32,
            0x202i32,
            0x203i32,
            0x204i32,
            0x205i32,
            0x206i32,
            0x207i32,
            0x208i32,
            0x209i32,
        ],
{
    [
        uinput_sys::KEY_NUMERIC_0,
        uinput_sys::KEY_NUMERIC_1,
        uinput_sys::KEY_NUMERIC_2,
        uinput_sys::KEY_NUMERIC_3,
        uinput_sys::KEY_NUMERIC_4,
        uinput_sys::KEY_NUMERIC_5,
        uinput_sys::KEY_NUMERIC_6,
        uinput_sys::KEY_NUMERIC_7,
        uinput_sys::KEY_NUMERIC_8,
        uinput_sys::KEY_NUMERIC_9,
    ]
}

/// This structure manages key bindings and modes.
///
/// Its task is to identify key sequences as bindings and to find the
/// function assigned to each.
pub struct InnerInputManager {
    modes: Vec<Mode>,
    code: InputCode,
    command: Command,
    previous_modification: PreviousModification,
}

/// An input manager as plain mathematics.
pub struct InputManagerView {
    /// The modes, in the order in which they are searched.
    pub modes: Seq<ModeView>,
    /// The code of the event caught last.
    pub code: InputCode,
    /// The command under construction.
    pub command: CommandView,
    /// What was last changed in the command.
    pub previous_modification: PreviousModification,
}

impl View for InnerInputManager {
    type V = InputManagerView;

    closed spec fn view(&self) -> InputManagerView {
        InputManagerView {
            modes: self.modes@.map_values(|mode: Mode| mode@),
            code: self.code,
            command: self.command@,
            previous_modification: self.previous_modification,
        }
    }
}

impl InnerInputManager {
    /// Every mode keeps its invariant.
    pub closed spec fn wf(&self) -> bool {
        forall|i: int| 0 <= i < self.modes@.len() ==> (#[trigger] self.modes@[i]).wf()
    }

    /// Constructs new `InnerInputManager` with the default modes and the
    /// bindings of `config`. `nop` stands for the function that does
    /// nothing.
    pub fn new(config: &KeybindingsConfig, nop: ExecutorId) -> (inner: Self)
        ensures
            inner.wf(),
            inner@ == (InputManagerView {
                modes: configured(default_modes(nop), *config),
                code: 0,
                command: empty_command(),
                previous_modification: PreviousModification::Nothing,
            }),
    {
        let common_mode = Mode::new(true, mode_name::COMMON.to_owned(), None);
        let insert_mode = Mode::new(true, mode_name::INSERT.to_owned(), None);
        let normal_mode = Mode::new(false, mode_name::NORMAL.to_owned(), Some(nop));
        let mut modes: Vec<Mode> = Vec::new();
        modes.push(common_mode);
        modes.push(insert_mode);
        modes.push(normal_mode);
        let mut inner = InnerInputManager {
            modes,
            code: 0,
            command: Command::default(),
            previous_modification: PreviousModification::Nothing,
        };
        assert(inner@.modes =~= default_modes(nop));
        inner.apply_configuration(config);
        inner
    }

    /// Applies the configuration.
    pub fn apply_configuration(&mut self, config: &KeybindingsConfig)
        requires
            old(self).wf(),
        ensures
            final(self).wf(),
            final(self)@ == (InputManagerView {
                modes: configured(old(self)@.modes, *config),
                ..old(self)@
            }),
    {
        self.add_bindings(mode_name::COMMON, &config.common);
        self.add_bindings(mode_name::INSERT, &config.insert);
        self.add_bindings(mode_name::NORMAL, &config.normal);
        self.add_bindings(mode_name::VISUAL, &config.visual);
    }

    fn add_bindings(&mut self, name: &'static str, entries: &Vec<BindingEntry>)
        requires
            old(self).wf(),
        ensures
            final(self).wf(),
            final(self)@ == (InputManagerView {
                modes: with_bindings(old(self)@.modes, name@, entries@),
                ..old(self)@
            }),
    {
        let mut i: usize = 0;
        while i < entries.len()
            invariant
                self.wf(),
                i <= entries@.len(),
                self@ == (InputManagerView {
                    modes: with_bindings(old(self)@.modes, name@, entries@.take(i as int)),
                    ..old(self)@
                }),
            decreases entries@.len() - i,
        {
            let entry = entries[i];
            self.add_binding(name.to_owned(), entry.binding, entry.executor);
            proof {
                assert(entries@.take(i + 1).drop_last() =~= entries@.take(i as int));
            }
            i += 1;
        }
        assert(entries@.take(i as int) =~= entries@);
    }

    /// Finds the executor for given binding in the active modes.
    pub fn find_executor(&self, binding: &Binding) -> (executor: Option<ExecutorId>)
        requires
            self.wf(),
        ensures
            executor == found_executor(self@.modes, *binding),
    {
        let ghost modes = self@.modes;
        assert(modes.skip(0) =~= modes);
        let mut i: usize = 0;
        while i < self.modes.len()
            invariant
                self.wf(),
                modes == self@.modes,
                i <= modes.len(),
                found_executor(modes, *binding) == found_executor(modes.skip(i as int), *binding),
            decreases modes.len() - i,
        {
            let mode = &self.modes[i];
            proof {
                assert(modes.skip(i as int).first() == self.modes@[i as int]@);
                assert(modes.skip(i as int).drop_first() =~= modes.skip(i + 1));
            }
            if mode.is_active() {
                if let Some(executor) = mode.get_executor(binding) {
                    return Some(executor);
                }
            }
            i += 1;
        }
        None
    }

    /// Tries to find the executor matching the given key and state of
    /// modifiers.
    pub fn catch_key(&mut self, code: InputCode, value: InputValue, modifiers: ModifierType) -> (result:
        (CatchResult, Option<(ExecutorId, Stroke)>))
        requires
            old(self).wf(),
        ensures
            final(self).wf(),
            final(self)@ == (InputManagerView { code, ..old(self)@ }),
            result == caught(old(self)@.modes, Binding { code, modifiers }, value),
    {
        self.catch(code, value, modifiers)
    }

    /// Tries to find the executor matching the given button and state of
    /// modifiers.
    pub fn catch_button(&mut self, code: InputCode, value: InputValue, modifiers: ModifierType) -> (result:
        (CatchResult, Option<(ExecutorId, Stroke)>))
        requires
            old(self).wf(),
        ensures
            final(self).wf(),
            final(self)@ == (InputManagerView { code, ..old(self)@ }),
            result == caught(old(self)@.modes, Binding { code, modifiers }, value),
    {
        self.catch(code, value, modifiers)
    }

    fn catch(&mut self, code: InputCode, value: InputValue, modifiers: ModifierType) -> (result: (
        CatchResult,
        Option<(ExecutorId, Stroke)>,
    ))
        requires
            old(self).wf(),
        ensures
            final(self).wf(),
            final(self)@ == (InputManagerView { code, ..old(self)@ }),
            result == caught(old(self)@.modes, Binding { code, modifiers }, value),
    {
        self.code = code;
        if let Some(executor) = self.find_executor(&Binding::create(code, modifiers)) {
            let stroke = if value == KeyState::Pressed.value() {
                Some((executor, Stroke::Activate))
            } else if value == KeyState::Released.value() {
                Some((executor, Stroke::Release))
            } else {
                None
            };
            (CatchResult::Caught, stroke)
        } else {
            (CatchResult::Passed, None)
        }
    }

    fn find_mode(&self, name: &String) -> (position: usize)
        ensures
            position == mode_position(self@.modes, name@),
            position <= self@.modes.len(),
            position <= self.modes@.len(),
    {
        let ghost modes = self@.modes;
        assert(modes.skip(0) =~= modes);
        let mut i: usize = 0;
        while i < self.modes.len()
            invariant
                modes == self@.modes,
                i <= modes.len(),
                mode_position(modes, name@) == i + mode_position(modes.skip(i as int), name@),
            decreases modes.len() - i,
        {
            proof {
                assert(modes.skip(i as int).first() == self.modes@[i as int]@);
                assert(modes.skip(i as int).drop_first() =~= modes.skip(i + 1));
            }
            if self.modes[i].get_name() == *name {
                return i;
            }
            i += 1;
        }
        i
    }

    /// Activates or deactivates mode identified by name.
    pub fn make_mode_active(&mut self, mode_name: String, active: bool)
        requires
            old(self).wf(),
        ensures
            final(self).wf(),
            final(self)@ == (InputManagerView {
                modes: with_mode_active(old(self)@.modes, mode_name@, active),
                ..old(self)@
            }),
    {
        let i = self.find_mode(&mode_name);
        if i < self.modes.len() {
            self.modes[i].make_active(active);
            assert(self@.modes =~= with_mode_active(old(self)@.modes, mode_name@, active));
        }
    }

    /// Adds given binding to mode identified by name.
    pub fn add_binding(&mut self, mode_name: String, binding: Binding, executor: ExecutorId)
        requires
            old(self).wf(),
        ensures
            final(self).wf(),
            final(self)@ == (InputManagerView {
                modes: with_binding(old(self)@.modes, mode_name@, binding, executor),
                ..old(self)@
            }),
    {
        let i = self.find_mode(&mode_name);
        if i < self.modes.len() {
            self.modes[i].add_binding(binding, executor);
            assert(self@.modes =~= with_binding(old(self)@.modes, mode_name@, binding, executor));
        } else {
            let mut mode = Mode::new(false, mode_name, None);
            mode.add_binding(binding, executor);
            self.modes.push(mode);
            assert(self@.modes =~= with_binding(old(self)@.modes, mode_name@, binding, executor));
        }
    }

    pub fn set_action(&mut self, action: Action)
        ensures
            final(self).wf() == old(self).wf(),
            final(self)@ == (InputManagerView {
                command: CommandView { action, ..old(self)@.command },
                previous_modification: PreviousModification::Action,
                ..old(self)@
            }),
    {
        self.command.action = action;
        self.previous_modification = PreviousModification::Action;
    }

    pub fn set_direction(&mut self, direction: Direction)
        ensures
            final(self).wf() == old(self).wf(),
            final(self)@ == (InputManagerView {
                command: CommandView { direction, ..old(self)@.command },
                previous_modification: PreviousModification::Direction,
                ..old(self)@
            }),
    {
        self.command.direction = direction;
        self.previous_modification = PreviousModification::Direction;
    }

    pub fn set_magnitude(&mut self, magnitude: i32)
        ensures
            final(self).wf() == old(self).wf(),
            final(self)@ == (InputManagerView {
                command: CommandView { magnitude, ..old(self)@.command },
                previous_modification: PreviousModification::Magnitude,
                ..old(self)@
            }),
    {
        self.command.magnitude = magnitude;
        self.previous_modification = PreviousModification::Magnitude;
    }

    pub fn set_string(&mut self, string: String)
        ensures
            final(self).wf() == old(self).wf(),
            final(self)@ == (InputManagerView {
                command: CommandView { string: string@, ..old(self)@.command },
                previous_modification: PreviousModification::String,
                ..old(self)@
            }),
    {
        self.command.string = string;
        self.previous_modification = PreviousModification::String;
    }

    pub fn previous_modification(&self) -> (previous: PreviousModification)
        ensures
            previous == self@.previous_modification,
    {
        self.previous_modification
    }

    pub fn get_action(&self) -> (action: Action)
        ensures
            action == self@.command.action,
    {
        self.command.action
    }

    pub fn get_direction(&self) -> (direction: Direction)
        ensures
            direction == self@.command.direction,
    {
        self.command.direction
    }

    pub fn get_magnitude(&self) -> (magnitude: i32)
        ensures
            magnitude == self@.command.magnitude,
    {
        self.command.magnitude
    }

    pub fn get_string(&self) -> (string: String)
        ensures
            string@ == self@.command.string,
    {
        self.command.string.clone()
    }

    /// The command to execute: a copy of the one under construction.
    pub fn execute_command(&self) -> (command: Command)
        ensures
            command@ == self@.command,
    {
        self.command.clone()
    }

    /// Starts a new command.
    pub fn clean_command(&mut self)
        ensures
            final(self).wf() == old(self).wf(),
            final(self)@ == (InputManagerView {
                command: empty_command(),
                previous_modification: PreviousModification::Nothing,
                ..old(self)@
            }),
    {
        self.command = Command::default();
        self.previous_modification = PreviousModification::Nothing;
    }

    /// Switches a mode on or off. For the visual mode the change is to be
    /// announced, and the mode to announce is returned.
    pub fn activate_mode(&mut self, mode_name: &'static str, active: bool) -> (announce: Option<
        InteractionMode,
    >)
        requires
            old(self).wf(),
        ensures
            final(self).wf(),
            final(self)@ == (InputManagerView {
                modes: with_mode_active(old(self)@.modes, mode_name@, active),
                ..old(self)@
            }),
            announce == (if mode_name@ == mode_name::VISUAL@ {
                Some(InteractionMode::Visual)
            } else {
                None
            }),
    {
        self.make_mode_active(mode_name.to_owned(), active);
        if mode_name.to_owned() == mode_name::VISUAL.to_owned() {
            Some(InteractionMode::Visual)
        } else {
            None
        }
    }

    /// The code of the event caught last.
    pub fn get_code(&self) -> (code: InputCode)
        ensures
            code == self@.code,
    {
        self.code
    }

    /// The number that the key caught last stands for, if it stands for one.
    pub fn get_code_as_number(&self) -> (number: Option<i32>)
        ensures
            number == code_number(self@.code),
    {
        let code: i32 = self.code as i32;
        let minus = minus_keys();
        if code == minus[0] || code == minus[1] {
            return Some(-1);
        }
        let row = row_keys();
        let numeric = numeric_keys();
        let mut digit: usize = 0;
        while digit < 10
            invariant
                digit <= 10,
                code == self@.code,
                code != 12 && code != 74,
                row@ == seq![11i32, 2i32, 3i32, 4i32, 5i32, 6i32, 7i32, 8i32, 9i32, 10i32],
                numeric@ == seq![
                    0x200i32,
                    0x201i32,
                    0x202i32,
                    0x203i32,
                    0x204i32,
                    0x205i32,
                    0x206i32,
                    0x207i32,
                    0x208i32,
                    0x209i32,
                ],
                forall|d: int| 0 <= d < digit ==> row@[d] != code && numeric@[d] != code,
            decreases 10 - digit,
        {
            if code == row[digit] || code == numeric[digit] {
                return Some(digit as i32);
            }
            digit += 1;
        }
        proof {
            if code_number(self@.code) is Some {
                let c = self@.code as int;
                if c == 11 || c == 0x200 {
                    assert(row@[0] == 11 && numeric@[0] == 0x200);
                } else if 2 <= c <= 10 {
                    assert(row@[c - 1] == c);
                } else {
                    assert(numeric@[c - 0x200] == c);
                }
            }
        }
        None
    }
}

} // verus!
