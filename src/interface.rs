pub mod left_widget;
pub mod main_window;
pub mod right_widget;

use vstd::prelude::*;

use crate::api::{Api, HasName, Request, Resource};
use crate::text::push_char;

verus! {

/// A key press, as the state machines of the interface see it.
#[derive(Debug, Copy, Clone, PartialEq, Eq, Structural)]
pub enum Key {
    Char(char),
    Enter,
    Backspace,
    Other,
}

/// The in-memory list a single-list interface shows.
#[derive(Debug, Clone)]
pub enum ListType {
    API(Vec<Api>),
    Resource(Vec<Resource>),
    Request(Vec<Request>),
}

/// A single-list interface over in-memory APIs: `a` starts typing a name,
/// Enter adds an API of that name, `q` quits.
#[derive(Debug)]
pub struct Interface {
    pub active_list: ListType,
    pub input_mode: bool,
    pub input: String,
}

impl Interface {
    pub fn new(list: ListType) -> (r: Interface)
        ensures
            r.active_list == list,
            !r.input_mode,
            r.input@ == Seq::<char>::empty(),
    {
        Interface { active_list: list, input_mode: false, input: String::new() }
    }

    /// Applies one key press; the answer tells whether to quit.
    pub fn handle_input(&mut self, key: Key) -> (quit: bool)
        ensures
            quit == (!old(self).input_mode && key == Key::Char('q')),
            match key {
                Key::Char(c) => if old(self).input_mode {
                    &&& final(self).input_mode
                    &&& final(self).input@ == old(self).input@.push(c)
                    &&& final(self).active_list == old(self).active_list
                } else if c == 'a' {
                    &&& final(self).input_mode
                    &&& final(self).input@ == Seq::<char>::empty()
                    &&& final(self).active_list == old(self).active_list
                } else {
                    &&& !final(self).input_mode
                    &&& final(self).input@ == old(self).input@
                    &&& final(self).active_list == old(self).active_list
                },
                Key::Enter => {
                    &&& !final(self).input_mode
                    &&& final(self).input@ == old(self).input@
                    &&& match old(self).active_list {
                        ListType::API(apis) => if old(self).input_mode {
                            final(self).active_list matches ListType::API(after) && after@.len()
                                == apis@.len() + 1 && after@.drop_last() == apis@
                                && after@.last().spec_name() == old(self).input@
                                && after@.last().spec_resources() == Seq::<Resource>::empty()
                        } else {
                            final(self).active_list == old(self).active_list
                        },
                        _ => final(self).active_list == old(self).active_list,
                    }
                },
                _ => {
                    &&& final(self).input_mode == old(self).input_mode
                    &&& final(self).input@ == old(self).input@
                    &&& final(self).active_list == old(self).active_list
                },
            },
    {
        match key {
            Key::Char(c) => {
                if self.input_mode {
                    push_char(&mut self.input, c);
                    false
                } else if c == 'q' {
                    true
                } else if c == 'a' {
                    self.input = String::new();
                    self.input_mode = true;
                    false
                } else {
                    false
                }
            },
            Key::Enter => {
                if self.input_mode {
                    match &mut self.active_list {
                        ListType::API(apis) => {
                            let new_api = Api::new(self.input.as_str());
                            apis.push(new_api);
                        },
                        _ => {},
                    }
                    self.input_mode = false;
                }
                false
            },
            _ => false,
        }
    }

    pub fn active_list(&self) -> (r: &ListType)
        ensures
            *r == self.active_list,
    {
        &self.active_list
    }

    pub fn set_active_list(&mut self, list: ListType)
        ensures
            final(self).active_list == list,
            final(self).input_mode == old(self).input_mode,
            final(self).input == old(self).input,
    {
        self.active_list = list
    }
}

} // verus!
