//! Decisions about the main window.
//!
//! The window itself belongs to the user interface. What is decided here is
//! decided on a [`WindowProbe`], the answers that the window gave when it was
//! asked for its state, and comes back as a [`WindowPlan`] for the caller to
//! carry out.

use crate::lightweight::LightWeightState;
use crate::service::VergeConfig;
use vstd::prelude::*;

verus! {

/// Window operations closer together than this many milliseconds are
/// dropped.
pub const WINDOW_OPERATION_DEBOUNCE_MS: u64 = 500;

/// What came of a window operation.
#[derive(Debug, Clone, Copy, PartialEq, Eq, Structural)]
pub enum WindowOperationResult {
    /// The window is shown and has the focus.
    Shown,
    /// The window is hidden.
    Hidden,
    /// A new window was created.
    Created,
    /// The operation failed.
    Failed,
    /// Nothing had to be done.
    NoAction,
}

/// The state of the main window.
#[derive(Debug, Clone, Copy, PartialEq, Eq, Structural)]
pub enum WindowState {
    /// Visible, with the focus.
    VisibleFocused,
    /// Visible, without the focus.
    VisibleUnfocused,
    Minimized,
    Hidden,
    /// There is no window.
    NotExist,
}

impl WindowState {
    pub open spec fn name_model(self) -> Seq<char> {
        match self {
            WindowState::VisibleFocused => "VisibleFocused"@,
            WindowState::VisibleUnfocused => "VisibleUnfocused"@,
            WindowState::Minimized => "Minimized"@,
            WindowState::Hidden => "Hidden"@,
            WindowState::NotExist => "NotExist"@,
        }
    }

    pub fn name(&self) -> (text: &'static str)
        ensures
            text@ == self.name_model(),
    {
        match self {
            WindowState::VisibleFocused => "VisibleFocused",
            WindowState::VisibleUnfocused => "VisibleUnfocused",
            WindowState::Minimized => "Minimized",
            WindowState::Hidden => "Hidden",
            WindowState::NotExist => "NotExist",
        }
    }
}

/// What the window answered when asked for its state. A question that
/// failed has no answer and counts as answered with no.
#[derive(Debug, Clone, Copy, PartialEq, Eq)]
pub struct WindowProbe {
    pub minimized: Option<bool>,
    pub visible: Option<bool>,
    pub focused: Option<bool>,
}

/// An answer, with no for a question that failed.
pub open spec fn answer(reply: Option<bool>) -> bool {
    match reply {
        Some(yes) => yes,
        None => false,
    }
}

fn answer_of(reply: Option<bool>) -> (yes: bool)
    ensures
        yes == answer(reply),
{
    match reply {
        Some(yes) => yes,
        None => false,
    }
}

/// The state that a probe stands for. A minimized window counts as
/// minimized whatever else it says; a window that is not visible as hidden.
pub open spec fn state_of(window: Option<WindowProbe>) -> WindowState {
    match window {
        Some(probe) => if answer(probe.minimized) {
            WindowState::Minimized
        } else if !answer(probe.visible) {
            WindowState::Hidden
        } else if answer(probe.focused) {
            WindowState::VisibleFocused
        } else {
            WindowState::VisibleUnfocused
        },
        None => WindowState::NotExist,
    }
}

/// `"true"` or `"false"`.
pub open spec fn bool_text(value: bool) -> Seq<char> {
    if value {
        "true"@
    } else {
        "false"@
    }
}

fn bool_name(value: bool) -> (text: &'static str)
    ensures
        text@ == bool_text(value),
{
    if value {
        "true"
    } else {
        "false"
    }
}

/// The line that describes a window for the log.
pub open spec fn status_info(window: Option<WindowProbe>) -> Seq<char> {
    "WindowState: "@ + state_of(window).name_model() + " | visible: "@ + bool_text(
        visible(window),
    ) + " | focused: "@ + bool_text(focused(window)) + " | minimized: "@ + bool_text(
        minimized(window),
    )
}

pub open spec fn visible(window: Option<WindowProbe>) -> bool {
    match window {
        Some(probe) => answer(probe.visible),
        None => false,
    }
}

pub open spec fn focused(window: Option<WindowProbe>) -> bool {
    match window {
        Some(probe) => answer(probe.focused),
        None => false,
    }
}

pub open spec fn minimized(window: Option<WindowProbe>) -> bool {
    match window {
        Some(probe) => answer(probe.minimized),
        None => false,
    }
}

/// What the caller is to do with the window.
#[derive(Debug, Clone, Copy, PartialEq, Eq, Structural)]
pub enum WindowPlan {
    /// Nothing: the operation was dropped or the window is as wanted.
    Nothing,
    /// Create the window.
    Create,
    /// Hide the window.
    Hide,
    /// Bring the window up: restore it first where it is minimized, then
    /// show it and give it the focus.
    Activate { unminimize: bool },
}

/// What came of carrying out a plan. Only the steps that the plan calls for
/// are looked at.
#[derive(Debug, Clone, Copy, PartialEq, Eq)]
pub struct WindowEffects {
    pub created: bool,
    pub hidden: bool,
    pub unminimized: bool,
    pub shown: bool,
    pub focus_set: bool,
}

/// The result of a plan, given what came of carrying it out.
pub open spec fn result_of(plan: WindowPlan, effects: WindowEffects) -> WindowOperationResult {
    match plan {
        WindowPlan::Nothing => WindowOperationResult::NoAction,
        WindowPlan::Create => if effects.created {
            WindowOperationResult::Created
        } else {
            WindowOperationResult::Failed
        },
        WindowPlan::Hide => if effects.hidden {
            WindowOperationResult::Hidden
        } else {
            WindowOperationResult::Failed
        },
        WindowPlan::Activate { unminimize } => if (!unminimize || effects.unminimized)
            && effects.shown && effects.focus_set {
            WindowOperationResult::Shown
        } else {
            WindowOperationResult::Failed
        },
    }
}

/// The plan that shows the window.
pub open spec fn show_plan(window: Option<WindowProbe>) -> WindowPlan {
    match state_of(window) {
        WindowState::NotExist => WindowPlan::Create,
        WindowState::VisibleFocused => WindowPlan::Nothing,
        _ => WindowPlan::Activate { unminimize: minimized(window) },
    }
}

/// The plan that shows a hidden window and hides a visible one.
pub open spec fn toggle_plan(window: Option<WindowProbe>) -> WindowPlan {
    match state_of(window) {
        WindowState::NotExist => WindowPlan::Create,
        WindowState::VisibleFocused => WindowPlan::Hide,
        WindowState::VisibleUnfocused => WindowPlan::Hide,
        _ => WindowPlan::Activate { unminimize: minimized(window) },
    }
}

/// The mathematical content of a [`WindowManager`].
pub struct WindowManagerModel {
    /// When the last operation was let through, in milliseconds of a clock
    /// that does not go back.
    pub last_operation: Option<u64>,
    /// Whether an operation is being carried out.
    pub in_progress: bool,
}

impl WindowManagerModel {
    /// Whether an operation at `now` is let through: none is under way, and
    /// the last one is long enough ago.
    pub open spec fn lets_through(self, now: u64) -> bool {
        !self.in_progress && match self.last_operation {
            Some(last) => now >= last && now - last >= WINDOW_OPERATION_DEBOUNCE_MS,
            None => true,
        }
    }

    /// The state after an operation at `now` asked to be let through.
    pub open spec fn asked(self, now: u64) -> Self {
        if self.lets_through(now) {
            WindowManagerModel { last_operation: Some(now), in_progress: true }
        } else {
            self
        }
    }

    /// The state after the operation under way has ended.
    pub open spec fn finished(self) -> Self {
        WindowManagerModel { in_progress: false, ..self }
    }

    /// The plan of an operation at `now`, and the state after it was made.
    /// An operation that is let through and has nothing to do is over at
    /// once.
    pub open spec fn planned(self, wanted: WindowPlan, now: u64) -> (Self, WindowPlan) {
        if !self.lets_through(now) {
            (self, WindowPlan::Nothing)
        } else if wanted == WindowPlan::Nothing {
            (self.asked(now).finished(), WindowPlan::Nothing)
        } else {
            (self.asked(now), wanted)
        }
    }
}

/// Decides on window operations and keeps them apart in time.
#[derive(Debug, PartialEq, Eq)]
pub struct WindowManager {
    last_operation: Option<u64>,
    in_progress: bool,
}

impl View for WindowManager {
    type V = WindowManagerModel;

    closed spec fn view(&self) -> WindowManagerModel {
        WindowManagerModel { last_operation: self.last_operation, in_progress: self.in_progress }
    }
}

impl WindowManager {
    pub fn new() -> (manager: Self)
        ensures
            manager@ == (WindowManagerModel { last_operation: None, in_progress: false }),
    {
        WindowManager { last_operation: None, in_progress: false }
    }

    /// Asks to let an operation through at `now`. Where the answer is yes
    /// the operation counts as under way until it is finished.
    pub fn should_handle_window_operation(&mut self, now: u64) -> (allowed: bool)
        ensures
            allowed == old(self)@.lets_through(now),
            final(self)@ == old(self)@.asked(now),
    {
        if self.in_progress {
            return false;
        }
        let far_enough = match self.last_operation {
            Some(last) => now >= last && now - last >= WINDOW_OPERATION_DEBOUNCE_MS,
            None => true,
        };
        if far_enough {
            self.last_operation = Some(now);
            self.in_progress = true;
            true
        } else {
            false
        }
    }

    /// Notes that the operation under way has ended.
    pub fn finish_window_operation(&mut self)
        ensures
            final(self)@ == old(self)@.finished(),
    {
        self.in_progress = false;
    }

    /// The state of the main window.
    pub fn get_main_window_state(window: Option<&WindowProbe>) -> (state: WindowState)
        ensures
            state == state_of(probe_model(window)),
    {
        match window {
            Some(probe) => {
                if answer_of(probe.minimized) {
                    return WindowState::Minimized;
                }
                if !answer_of(probe.visible) {
                    return WindowState::Hidden;
                }
                if answer_of(probe.focused) {
                    WindowState::VisibleFocused
                } else {
                    WindowState::VisibleUnfocused
                }
            },
            None => WindowState::NotExist,
        }
    }

    pub fn is_main_window_visible(window: Option<&WindowProbe>) -> (yes: bool)
        ensures
            yes == visible(probe_model(window)),
    {
        match window {
            Some(probe) => answer_of(probe.visible),
            None => false,
        }
    }

    pub fn is_main_window_focused(window: Option<&WindowProbe>) -> (yes: bool)
        ensures
            yes == focused(probe_model(window)),
    {
        match window {
            Some(probe) => answer_of(probe.focused),
            None => false,
        }
    }

    pub fn is_main_window_minimized(window: Option<&WindowProbe>) -> (yes: bool)
        ensures
            yes == minimized(probe_model(window)),
    {
        match window {
            Some(probe) => answer_of(probe.minimized),
            None => false,
        }
    }

    /// The line that describes the window for the log.
    pub fn get_window_status_info(window: Option<&WindowProbe>) -> (line: String)
        ensures
            line@ == status_info(probe_model(window)),
    {
        let state = Self::get_main_window_state(window);
        let is_visible = Self::is_main_window_visible(window);
        let is_focused = Self::is_main_window_focused(window);
        let is_minimized = Self::is_main_window_minimized(window);
        let mut line = "WindowState: ".to_owned();
        line.append(state.name());
        line.append(" | visible: ");
        line.append(bool_name(is_visible));
        line.append(" | focused: ");
        line.append(bool_name(is_focused));
        line.append(" | minimized: ");
        line.append(bool_name(is_minimized));
        line
    }

    /// The result of hiding the main window: `hidden` is `None` where there
    /// is no window, and else says whether hiding it worked.
    pub fn hide_main_window(hidden: Option<bool>) -> (result: WindowOperationResult)
        ensures
            result == (match hidden {
                Some(true) => WindowOperationResult::Hidden,
                Some(false) => WindowOperationResult::Failed,
                None => WindowOperationResult::NoAction,
            }),
    {
        match hidden {
            Some(true) => WindowOperationResult::Hidden,
            Some(false) => WindowOperationResult::Failed,
            None => WindowOperationResult::NoAction,
        }
    }

    fn plan(&mut self, wanted: WindowPlan, now: u64) -> (plan: WindowPlan)
        ensures
            (final(self)@, plan) == old(self)@.planned(wanted, now),
    {
        if !self.should_handle_window_operation(now) {
            return WindowPlan::Nothing;
        }
        match wanted {
            WindowPlan::Nothing => {
                self.finish_window_operation();
                WindowPlan::Nothing
            },
            _ => wanted,
        }
    }

    /// Plans to show the main window at `now`. A plan other than `Nothing`
    /// is to be carried out and then concluded.
    pub fn show_main_window(&mut self, window: Option<&WindowProbe>, now: u64) -> (plan:
        WindowPlan)
        ensures
            (final(self)@, plan) == old(self)@.planned(show_plan(probe_model(window)), now),
    {
        let wanted = match Self::get_main_window_state(window) {
            WindowState::NotExist => WindowPlan::Create,
            WindowState::VisibleFocused => WindowPlan::Nothing,
            _ => WindowPlan::Activate { unminimize: Self::is_main_window_minimized(window) },
        };
        self.plan(wanted, now)
    }

    /// Plans to show the main window where it is hidden and to hide it where
    /// it is visible.
    pub fn toggle_main_window(&mut self, window: Option<&WindowProbe>, now: u64) -> (plan:
        WindowPlan)
        ensures
            (final(self)@, plan) == old(self)@.planned(toggle_plan(probe_model(window)), now),
    {
        let wanted = match Self::get_main_window_state(window) {
            WindowState::NotExist => WindowPlan::Create,
            WindowState::VisibleFocused => WindowPlan::Hide,
            WindowState::VisibleUnfocused => WindowPlan::Hide,
            _ => WindowPlan::Activate { unminimize: Self::is_main_window_minimized(window) },
        };
        self.plan(wanted, now)
    }

    /// Concludes a plan that was carried out: the operation is over, and its
    /// result is read off what came of it.
    pub fn conclude(&mut self, plan: WindowPlan, effects: WindowEffects) -> (result:
        WindowOperationResult)
        ensures
            result == result_of(plan, effects),
            final(self)@ == (if plan == WindowPlan::Nothing {
                old(self)@
            } else {
                old(self)@.finished()
            }),
    {
        match plan {
            WindowPlan::Nothing => WindowOperationResult::NoAction,
            WindowPlan::Create => {
                self.finish_window_operation();
                if effects.created {
                    WindowOperationResult::Created
                } else {
                    WindowOperationResult::Failed
                }
            },
            WindowPlan::Hide => {
                self.finish_window_operation();
                if effects.hidden {
                    WindowOperationResult::Hidden
                } else {
                    WindowOperationResult::Failed
                }
            },
            WindowPlan::Activate { unminimize } => {
                self.finish_window_operation();
                if (!unminimize || effects.unminimized) && effects.shown && effects.focus_set {
                    WindowOperationResult::Shown
                } else {
                    WindowOperationResult::Failed
                }
            },
        }
    }
}

/// The probe behind an optional reference.
pub open spec fn probe_model(window: Option<&WindowProbe>) -> Option<WindowProbe> {
    match window {
        Some(probe) => Some(*probe),
        None => None,
    }
}

/// What is to be done when the dashboard is asked for.
#[derive(Debug, Clone, Copy, PartialEq, Eq, Structural)]
pub struct DashboardAction {
    /// What to do with the window.
    pub plan: WindowPlan,
    /// Whether lightweight mode was left on the way.
    pub left_lightweight: bool,
    /// Whether the plan is to be handed to the main thread rather than
    /// carried out where the request came in.
    pub deferred: bool,
}

/// The plan for the dashboard: a window that was given up for lightweight
/// mode is shown again, any other is toggled.
pub open spec fn dashboard_plan(lightweight: bool, window: Option<WindowProbe>) -> WindowPlan {
    if lightweight {
        show_plan(window)
    } else {
        toggle_plan(window)
    }
}

fn dashboard(
    state: &mut LightWeightState,
    manager: &mut WindowManager,
    window: Option<&WindowProbe>,
    now: u64,
    deferred: bool,
) -> (action: DashboardAction)
    ensures
        final(state).is_lightweight == false,
        action.left_lightweight == old(state).is_lightweight,
        action.deferred == deferred,
        (final(manager)@, action.plan) == old(manager)@.planned(
            dashboard_plan(old(state).is_lightweight, probe_model(window)),
            now,
        ),
{
    if state.is_lightweight {
        state.set_lightweight_mode(false);
        let plan = manager.show_main_window(window, now);
        DashboardAction { plan, left_lightweight: true, deferred }
    } else {
        let plan = manager.toggle_main_window(window, now);
        DashboardAction { plan, left_lightweight: false, deferred }
    }
}

/// Opens or closes the dashboard on a request from the menu.
pub fn open_or_close_dashboard(
    state: &mut LightWeightState,
    manager: &mut WindowManager,
    window: Option<&WindowProbe>,
    now: u64,
) -> (action: DashboardAction)
    ensures
        final(state).is_lightweight == false,
        action.left_lightweight == old(state).is_lightweight,
        !action.deferred,
        (final(manager)@, action.plan) == old(manager)@.planned(
            dashboard_plan(old(state).is_lightweight, probe_model(window)),
            now,
        ),
{
    dashboard(state, manager, window, now, false)
}

/// Opens or closes the dashboard on a hotkey. The decision is the same; the
/// plan is to be carried out on the main thread.
pub fn open_or_close_dashboard_hotkey(
    state: &mut LightWeightState,
    manager: &mut WindowManager,
    window: Option<&WindowProbe>,
    now: u64,
) -> (action: DashboardAction)
    ensures
        final(state).is_lightweight == false,
        action.left_lightweight == old(state).is_lightweight,
        action.deferred,
        (final(manager)@, action.plan) == old(manager)@.planned(
            dashboard_plan(old(state).is_lightweight, probe_model(window)),
            now,
        ),
{
    dashboard(state, manager, window, now, true)
}

/// What hiding the application comes to.
#[derive(Debug, Clone, Copy, PartialEq, Eq, Structural)]
pub struct HideAction {
    /// Whether the timer that leads into lightweight mode is to be started.
    pub start_lightweight_timer: bool,
    /// Whether the window is to be hidden.
    pub hide_window: bool,
}

/// Decides what hiding the application comes to: the timer is started where
/// the configuration asks for lightweight mode, and the window is hidden
/// where it is visible.
pub fn hide_window(config: &VergeConfig, window: Option<&WindowProbe>) -> (action: HideAction)
    ensures
        action.start_lightweight_timer == answer(config.enable_auto_light_weight_mode),
        action.hide_window == visible(probe_model(window)),
{
    HideAction {
        start_lightweight_timer: answer_of(config.enable_auto_light_weight_mode),
        hide_window: WindowManager::is_main_window_visible(window),
    }
}

/// While an operation is under way no other is let through, and once it is
/// finished none is let through before the pause is over.
pub proof fn lemma_operations_are_kept_apart(manager: WindowManagerModel, first: u64, second: u64)
    requires
        manager.lets_through(first),
        first <= second,
    ensures
        !manager.asked(first).lets_through(second),
        manager.asked(first).finished().lets_through(second) <==> second - first
            >= WINDOW_OPERATION_DEBOUNCE_MS,
{
}

} // verus!
