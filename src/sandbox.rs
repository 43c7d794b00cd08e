//! Decisions of the sandbox host: which guest entry points are resolved and
//! whether the guest may start, what a guest call's outcome becomes, and how
//! the driving loop turns presentation events into guest calls.
//!
//! The engine itself (compiling, linking, calling into the guest) is driven
//! by the application around this library, which reports the engine's
//! results here as plain values.
use vstd::prelude::*;

verus! {

/// The entry points a guest may export, each with a fixed signature.
#[derive(PartialEq, Eq, Structural, Clone, Copy, Debug)]
pub enum EntryPoint {
    /// `update(dt: f64)`, required.
    Update,
    /// `on_resize(width: i32, height: i32)`.
    OnResize,
    /// `on_pointer_move(x: i32, y: i32)`.
    OnPointerMove,
    /// `on_pointer_down(x: i32, y: i32, button: i32)`.
    OnPointerDown,
    /// `on_pointer_up(x: i32, y: i32, button: i32)`.
    OnPointerUp,
    /// `on_key_down(code: i32)`.
    OnKeyDown,
    /// `on_key_up(code: i32)`.
    OnKeyUp,
}

/// The export name of an entry point.
pub open spec fn entry_name(e: EntryPoint) -> &'static str {
    match e {
        EntryPoint::Update => "update",
        EntryPoint::OnResize => "on_resize",
        EntryPoint::OnPointerMove => "on_pointer_move",
        EntryPoint::OnPointerDown => "on_pointer_down",
        EntryPoint::OnPointerUp => "on_pointer_up",
        EntryPoint::OnKeyDown => "on_key_down",
        EntryPoint::OnKeyUp => "on_key_up",
    }
}

impl EntryPoint {
    /// The name under which the guest exports this entry point.
    pub fn name(&self) -> (r: &'static str)
        ensures
            r@ == entry_name(*self)@,
    {
        match self {
            EntryPoint::Update => "update",
            EntryPoint::OnResize => "on_resize",
            EntryPoint::OnPointerMove => "on_pointer_move",
            EntryPoint::OnPointerDown => "on_pointer_down",
            EntryPoint::OnPointerUp => "on_pointer_up",
            EntryPoint::OnKeyDown => "on_key_down",
            EntryPoint::OnKeyUp => "on_key_up",
        }
    }
}

/// Which entry points the guest exports with the right signature.
#[derive(PartialEq, Eq, Structural, Clone, Copy, Debug)]
pub struct EntryTable {
    pub update: bool,
    pub on_resize: bool,
    pub on_pointer_move: bool,
    pub on_pointer_down: bool,
    pub on_pointer_up: bool,
    pub on_key_down: bool,
    pub on_key_up: bool,
}

/// Whether `t` holds the entry point `e`.
pub open spec fn has_entry(t: EntryTable, e: EntryPoint) -> bool {
    match e {
        EntryPoint::Update => t.update,
        EntryPoint::OnResize => t.on_resize,
        EntryPoint::OnPointerMove => t.on_pointer_move,
        EntryPoint::OnPointerDown => t.on_pointer_down,
        EntryPoint::OnPointerUp => t.on_pointer_up,
        EntryPoint::OnKeyDown => t.on_key_down,
        EntryPoint::OnKeyUp => t.on_key_up,
    }
}

impl EntryTable {
    /// Whether the guest exports `e`; a call to an absent entry point is
    /// skipped.
    pub fn is_present(&self, e: EntryPoint) -> (r: bool)
        ensures
            r == has_entry(*self, e),
    {
        match e {
            EntryPoint::Update => self.update,
            EntryPoint::OnResize => self.on_resize,
            EntryPoint::OnPointerMove => self.on_pointer_move,
            EntryPoint::OnPointerDown => self.on_pointer_down,
            EntryPoint::OnPointerUp => self.on_pointer_up,
            EntryPoint::OnKeyDown => self.on_key_down,
            EntryPoint::OnKeyUp => self.on_key_up,
        }
    }
}

/// Why the sandbox could not start.
#[derive(PartialEq, Eq, Structural, Clone, Copy, Debug)]
pub enum SandboxError {
    /// The payload is not a module the engine can compile.
    CompileFailed,
    /// The module could not be instantiated against the host's imports.
    InstantiateFailed,
    /// The guest does not export its linear memory.
    MissingMemoryExport,
    /// The guest does not export `update` with its signature.
    MissingRequiredExport,
}

/// The outcome of resolving the exports of an instantiated guest: a missing
/// memory is reported first, then a missing `update`; the optional entry
/// points may each be absent.
pub open spec fn resolve_spec(has_memory: bool, exports: EntryTable) -> Result<EntryTable, SandboxError> {
    if !has_memory {
        Err(SandboxError::MissingMemoryExport)
    } else if !exports.update {
        Err(SandboxError::MissingRequiredExport)
    } else {
        Ok(exports)
    }
}

/// Decide whether an instantiated guest may run, from whether it exports its
/// linear memory and which entry points it exports.
pub fn resolve_entry_points(has_memory: bool, exports: EntryTable) -> (r: Result<EntryTable, SandboxError>)
    ensures
        r == resolve_spec(has_memory, exports),
{
    if !has_memory {
        Err(SandboxError::MissingMemoryExport)
    } else if !exports.update {
        Err(SandboxError::MissingRequiredExport)
    } else {
        Ok(exports)
    }
}

/// A guest that exports its memory and `update` alone starts, and one that
/// exports no `update` is refused with `MissingRequiredExport`.
pub proof fn lemma_update_is_required(exports: EntryTable)
    ensures
        resolve_spec(
            true,
            (EntryTable {
                update: true,
                on_resize: false,
                on_pointer_move: false,
                on_pointer_down: false,
                on_pointer_up: false,
                on_key_down: false,
                on_key_up: false,
            }),
        ) is Ok,
        !exports.update ==> resolve_spec(true, exports) == Err::<EntryTable, _>(
            SandboxError::MissingRequiredExport,
        ),
{
}

/// What the guest may reach of the host's operating system.
#[derive(PartialEq, Eq, Structural, Clone, Copy, Debug)]
pub struct CapabilityPolicy {
    /// The guest writes to the host's standard output.
    pub inherit_stdout: bool,
    /// The guest writes to the host's standard error.
    pub inherit_stderr: bool,
    /// The guest reads the clocks.
    pub clock: bool,
    /// The guest draws random numbers.
    pub random: bool,
    /// The guest opens host files or directories.
    pub filesystem: bool,
    /// The guest opens network connections.
    pub network: bool,
    /// The guest reads the host's environment variables.
    pub environment: bool,
}

/// The policy every guest runs under: output streams, clock and random
/// numbers only.
pub open spec fn guest_policy_spec() -> CapabilityPolicy {
    CapabilityPolicy {
        inherit_stdout: true,
        inherit_stderr: true,
        clock: true,
        random: true,
        filesystem: false,
        network: false,
        environment: false,
    }
}

/// The policy every guest runs under: it inherits the output streams for
/// diagnostics and may read the clock and draw random numbers; files, the
/// network and the environment are denied.
pub fn guest_policy() -> (r: CapabilityPolicy)
    ensures
        r == guest_policy_spec(),
{
    CapabilityPolicy {
        inherit_stdout: true,
        inherit_stderr: true,
        clock: true,
        random: true,
        filesystem: false,
        network: false,
        environment: false,
    }
}

/// How a guest call ended, as the engine reports it.
#[derive(PartialEq, Eq, Structural, Clone, Copy, Debug)]
pub enum CallOutcome {
    /// The call returned.
    Completed,
    /// The guest trapped.
    Trapped,
    /// The guest ran past its execution deadline.
    TimedOut,
}

/// A failed guest call, tagged with the entry point that failed.
#[derive(PartialEq, Eq, Structural, Clone, Copy, Debug)]
pub enum GuestError {
    /// The guest trapped inside the entry point.
    Trap(EntryPoint),
    /// The guest exceeded its execution deadline inside the entry point.
    Timeout(EntryPoint),
}

/// What a call of `e` that ended with `outcome` reports to the driving loop.
pub open spec fn call_result_spec(e: EntryPoint, outcome: CallOutcome) -> Result<(), GuestError> {
    match outcome {
        CallOutcome::Completed => Ok(()),
        CallOutcome::Trapped => Err(GuestError::Trap(e)),
        CallOutcome::TimedOut => Err(GuestError::Timeout(e)),
    }
}

/// Classify the outcome of a call of `e`.
pub fn call_result(e: EntryPoint, outcome: CallOutcome) -> (r: Result<(), GuestError>)
    ensures
        r == call_result_spec(e, outcome),
{
    match outcome {
        CallOutcome::Completed => Ok(()),
        CallOutcome::Trapped => Err(GuestError::Trap(e)),
        CallOutcome::TimedOut => Err(GuestError::Timeout(e)),
    }
}

/// A pointer button as the presentation layer reports it.
#[derive(PartialEq, Eq, Structural, Clone, Copy, Debug)]
pub enum PointerButton {
    Primary,
    Middle,
    Secondary,
    Other,
}

/// The button code handed to the guest: 1 primary, 2 middle, 3 secondary,
/// 0 for any other button.
pub open spec fn button_code_spec(b: PointerButton) -> i32 {
    match b {
        PointerButton::Primary => 1,
        PointerButton::Middle => 2,
        PointerButton::Secondary => 3,
        PointerButton::Other => 0,
    }
}

impl PointerButton {
    /// The code of this button in the guest's ABI.
    pub fn code(&self) -> (r: i32)
        ensures
            r == button_code_spec(*self),
    {
        match self {
            PointerButton::Primary => 1,
            PointerButton::Middle => 2,
            PointerButton::Secondary => 3,
            PointerButton::Other => 0,
        }
    }
}

/// An event from the presentation layer.
#[derive(PartialEq, Eq, Structural, Clone, Copy, Debug)]
pub enum InputEvent {
    Quit,
    Resized(i32, i32),
    PointerMoved(i32, i32),
    PointerPressed(i32, i32, PointerButton),
    PointerReleased(i32, i32, PointerButton),
    KeyPressed(i32),
    KeyReleased(i32),
    /// Any event the guest is not told of.
    Other,
}

/// A call into the guest, with its arguments.
#[derive(PartialEq, Eq, Structural, Clone, Copy, Debug)]
pub enum GuestCall {
    Resize(i32, i32),
    PointerMove(i32, i32),
    PointerDown(i32, i32, i32),
    PointerUp(i32, i32, i32),
    KeyDown(i32),
    KeyUp(i32),
}

/// The entry point a guest call goes to.
pub open spec fn call_entry_spec(c: GuestCall) -> EntryPoint {
    match c {
        GuestCall::Resize(..) => EntryPoint::OnResize,
        GuestCall::PointerMove(..) => EntryPoint::OnPointerMove,
        GuestCall::PointerDown(..) => EntryPoint::OnPointerDown,
        GuestCall::PointerUp(..) => EntryPoint::OnPointerUp,
        GuestCall::KeyDown(..) => EntryPoint::OnKeyDown,
        GuestCall::KeyUp(..) => EntryPoint::OnKeyUp,
    }
}

impl GuestCall {
    /// The entry point this call goes to.
    pub fn entry(&self) -> (r: EntryPoint)
        ensures
            r == call_entry_spec(*self),
    {
        match self {
            GuestCall::Resize(..) => EntryPoint::OnResize,
            GuestCall::PointerMove(..) => EntryPoint::OnPointerMove,
            GuestCall::PointerDown(..) => EntryPoint::OnPointerDown,
            GuestCall::PointerUp(..) => EntryPoint::OnPointerUp,
            GuestCall::KeyDown(..) => EntryPoint::OnKeyDown,
            GuestCall::KeyUp(..) => EntryPoint::OnKeyUp,
        }
    }
}

/// What the driving loop does with an event.
#[derive(PartialEq, Eq, Structural, Clone, Copy, Debug)]
pub enum LoopAction {
    /// Leave the loop.
    Quit,
    /// Make this call into the guest.
    Call(GuestCall),
    /// Nothing.
    Ignore,
}

/// The action for an event.
pub open spec fn route_spec(e: InputEvent) -> LoopAction {
    match e {
        InputEvent::Quit => LoopAction::Quit,
        InputEvent::Resized(w, h) => LoopAction::Call(GuestCall::Resize(w, h)),
        InputEvent::PointerMoved(x, y) => LoopAction::Call(GuestCall::PointerMove(x, y)),
        InputEvent::PointerPressed(x, y, b) => LoopAction::Call(
            GuestCall::PointerDown(x, y, button_code_spec(b)),
        ),
        InputEvent::PointerReleased(x, y, b) => LoopAction::Call(
            GuestCall::PointerUp(x, y, button_code_spec(b)),
        ),
        InputEvent::KeyPressed(code) => LoopAction::Call(GuestCall::KeyDown(code)),
        InputEvent::KeyReleased(code) => LoopAction::Call(GuestCall::KeyUp(code)),
        InputEvent::Other => LoopAction::Ignore,
    }
}

/// Turn a presentation event into the driving loop's action.
pub fn route_event(e: InputEvent) -> (r: LoopAction)
    ensures
        r == route_spec(e),
{
    match e {
        InputEvent::Quit => LoopAction::Quit,
        InputEvent::Resized(w, h) => LoopAction::Call(GuestCall::Resize(w, h)),
        InputEvent::PointerMoved(x, y) => LoopAction::Call(GuestCall::PointerMove(x, y)),
        InputEvent::PointerPressed(x, y, b) => LoopAction::Call(GuestCall::PointerDown(x, y, b.code())),
        InputEvent::PointerReleased(x, y, b) => LoopAction::Call(GuestCall::PointerUp(x, y, b.code())),
        InputEvent::KeyPressed(code) => LoopAction::Call(GuestCall::KeyDown(code)),
        InputEvent::KeyReleased(code) => LoopAction::Call(GuestCall::KeyUp(code)),
        InputEvent::Other => LoopAction::Ignore,
    }
}

} // verus!
