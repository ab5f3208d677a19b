use vstd::prelude::*;

use crate::interface::left_widget::{
    LeftCommand, LeftContent, LeftInputResult, LeftList, LeftStep, LeftType,
};
use crate::interface::right_widget::{
    RightCommand, RightInputResult, RightStep, RightType, RightWidget,
};
use crate::interface::Key;
use crate::models::Api;

verus! {

/// Which panel receives the keys.
#[derive(Debug, Copy, Clone, PartialEq, Eq, Structural)]
pub enum Focus {
    Left,
    Right,
}

/// What the frame loop does after a key: redraw, stop, or outside work
/// first.
#[derive(Debug, Clone, PartialEq, Eq)]
pub enum WindowStep {
    Continue,
    Exit,
    /// Store work for the navigator (see `LeftCommand`).
    Left(LeftCommand),
    /// Store or network work for the detail panel (see `RightCommand`).
    Right(RightCommand),
    /// Load the detail panel's content for this selection and hand it to
    /// the panel's `set_type`.
    Show(RightType),
    /// Load this level again and hand it to the navigator's `refresh`.
    Reload(LeftType),
}

/// The detail content that a navigator result asks for.
pub open spec fn spec_right_type_for(result: LeftInputResult) -> RightType {
    match result {
        LeftInputResult::ShowApi(id) => RightType::Api(id),
        LeftInputResult::ShowResource(id) => RightType::Resource(id),
        LeftInputResult::ShowRequest(id) => RightType::Request(id),
        _ => RightType::Empty,
    }
}

pub fn right_type_for(result: LeftInputResult) -> (r: RightType)
    ensures
        r == spec_right_type_for(result),
{
    match result {
        LeftInputResult::ShowApi(id) => RightType::Api(id),
        LeftInputResult::ShowResource(id) => RightType::Resource(id),
        LeftInputResult::ShowRequest(id) => RightType::Request(id),
        _ => RightType::Empty,
    }
}

/// The window: the navigator on the left, the detail panel on the right,
/// and which of them has the focus.
#[derive(Debug)]
pub struct MainWindow {
    pub left: LeftList,
    pub right: RightWidget,
    pub focus: Focus,
}

impl MainWindow {
    pub open spec fn wf(self) -> bool {
        self.left.wf() && self.right.wf()
    }

    /// The step the window takes on a navigator result, and the focus it
    /// takes it with.
    pub open spec fn left_outcome(result: LeftInputResult) -> (WindowStep, Option<Focus>) {
        match result {
            LeftInputResult::ShowApi(_) | LeftInputResult::ShowResource(_)
            | LeftInputResult::ShowRequest(_) => (
                WindowStep::Show(spec_right_type_for(result)),
                None,
            ),
            LeftInputResult::EditRequest(_) => (WindowStep::Continue, Some(Focus::Right)),
            LeftInputResult::Exit => (WindowStep::Exit, None),
            _ => (WindowStep::Continue, None),
        }
    }

    /// The step the window takes on a detail panel result, given the level
    /// the navigator shows.
    pub open spec fn right_outcome(result: RightInputResult, level: LeftContent) -> (
        WindowStep,
        Option<Focus>,
    ) {
        match result {
            RightInputResult::LoseFocus => (WindowStep::Continue, Some(Focus::Left)),
            RightInputResult::RefreshRequests => match level {
                LeftContent::Requests(_, resource_id) => (
                    WindowStep::Reload(LeftType::Requests(resource_id)),
                    None,
                ),
                _ => (WindowStep::Continue, None),
            },
            RightInputResult::Exit => (WindowStep::Exit, None),
            RightInputResult::NoOp => (WindowStep::Continue, None),
        }
    }

    /// The focus after an outcome that may move it.
    pub open spec fn focus_after(focus: Focus, moved: Option<Focus>) -> Focus {
        match moved {
            Some(f) => f,
            None => focus,
        }
    }

    /// A window on the list of APIs, with the focus on the navigator.
    pub fn new(apis: Vec<Api>) -> (r: MainWindow)
        ensures
            r.wf(),
            r.left.content == LeftContent::Apis(apis),
            r.left.input is None,
            r.left.selected_item is None,
            r.right.content is None,
            r.focus == Focus::Left,
    {
        MainWindow { left: LeftList::new(apis), right: RightWidget::new(None), focus: Focus::Left }
    }

    /// Acts on a navigator result: asks for the detail content of a new
    /// selection, clears the panel when nothing is selected, hands the
    /// focus over to edit a request, or stops.
    pub fn on_left(&mut self, result: LeftInputResult) -> (r: WindowStep)
        requires
            old(self).wf(),
        ensures
            final(self).wf(),
            final(self).left == old(self).left,
            r == MainWindow::left_outcome(result).0,
            final(self).focus == MainWindow::focus_after(
                old(self).focus,
                MainWindow::left_outcome(result).1,
            ),
            final(self).right.content == if result == LeftInputResult::ShowNothing {
                None
            } else {
                old(self).right.content
            },
    {
        match result {
            LeftInputResult::ShowApi(_) | LeftInputResult::ShowResource(_)
            | LeftInputResult::ShowRequest(_) => WindowStep::Show(right_type_for(result)),
            LeftInputResult::ShowNothing => {
                self.right.set_type(None);
                WindowStep::Continue
            },
            LeftInputResult::EditRequest(_) => {
                self.focus = Focus::Right;
                WindowStep::Continue
            },
            LeftInputResult::Exit => WindowStep::Exit,
            _ => WindowStep::Continue,
        }
    }

    /// Acts on a detail panel result: gives the focus back, asks for the
    /// navigator's requests to be reloaded, or stops.
    pub fn on_right(&mut self, result: RightInputResult) -> (r: WindowStep)
        requires
            old(self).wf(),
        ensures
            final(self).wf(),
            final(self).left == old(self).left,
            final(self).right == old(self).right,
            r == MainWindow::right_outcome(result, old(self).left.content).0,
            final(self).focus == MainWindow::focus_after(
                old(self).focus,
                MainWindow::right_outcome(result, old(self).left.content).1,
            ),
    {
        match result {
            RightInputResult::LoseFocus => {
                self.focus = Focus::Left;
                WindowStep::Continue
            },
            RightInputResult::RefreshRequests => match &self.left.content {
                LeftContent::Requests(_, resource_id) => WindowStep::Reload(
                    LeftType::Requests(*resource_id),
                ),
                _ => WindowStep::Continue,
            },
            RightInputResult::Exit => WindowStep::Exit,
            RightInputResult::NoOp => WindowStep::Continue,
        }
    }

    /// Routes a key to the panel with the focus and acts on its answer.
    pub fn handle_input(&mut self, key: Key) -> (r: WindowStep)
        requires
            old(self).wf(),
        ensures
            final(self).wf(),
            old(self).focus == Focus::Left ==> exists|left: LeftList, step: LeftStep|
                {
                    &&& #[trigger] old(self).left.key_step(key, left, step)
                    &&& final(self).left == left
                    &&& match step {
                        LeftStep::Run(c) => {
                            &&& r == WindowStep::Left(c)
                            &&& final(self).focus == old(self).focus
                            &&& final(self).right == old(self).right
                        },
                        LeftStep::Reply(res) => {
                            &&& r == MainWindow::left_outcome(res).0
                            &&& final(self).focus == MainWindow::focus_after(
                                old(self).focus,
                                MainWindow::left_outcome(res).1,
                            )
                            &&& final(self).right.content == if res
                                == LeftInputResult::ShowNothing {
                                None
                            } else {
                                old(self).right.content
                            }
                        },
                    }
                },
            old(self).focus == Focus::Right ==> exists|right: RightWidget, step: RightStep|
                {
                    &&& #[trigger] old(self).right.key_step(key, right, step)
                    &&& final(self).left == old(self).left
                    &&& final(self).right == right
                    &&& match step {
                        RightStep::Run(c) => r == WindowStep::Right(c) && final(self).focus
                            == old(self).focus,
                        RightStep::Reply(res) => {
                            &&& r == MainWindow::right_outcome(res, old(self).left.content).0
                            &&& final(self).focus == MainWindow::focus_after(
                                old(self).focus,
                                MainWindow::right_outcome(res, old(self).left.content).1,
                            )
                        },
                    }
                },
    {
        match self.focus {
            Focus::Left => match self.left.handle_input(key) {
                LeftStep::Reply(result) => self.on_left(result),
                LeftStep::Run(command) => WindowStep::Left(command),
            },
            Focus::Right => match self.right.handle_input(key) {
                RightStep::Reply(result) => self.on_right(result),
                RightStep::Run(command) => WindowStep::Right(command),
            },
        }
    }
}

} // verus!
