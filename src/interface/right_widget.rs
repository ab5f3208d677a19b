use vstd::prelude::*;

use crate::interface::Key;
use crate::models::{Api, Header, NewHeader, Request, Resource};
use crate::text::{pop_char, push_char, text_of, without_last};
use crate::types::HttpMethod;

verus! {

/// What the detail panel is asked to show, by kind and id.
#[derive(Debug, Copy, Clone, PartialEq, Eq, Structural)]
pub enum RightType {
    Api(i32),
    Resource(i32),
    Request(i32),
    Empty,
}

/// What a key press on the detail panel amounts to for the rest of the
/// window.
#[derive(Debug, Copy, Clone, PartialEq, Eq, Structural)]
pub enum RightInputResult {
    Exit,
    LoseFocus,
    RefreshRequests,
    NoOp,
}

/// Outside work that the request editor waits on before it can go on.
#[derive(Debug, Clone, PartialEq, Eq)]
pub enum RightCommand {
    /// Store this route on the edited request, then hand the reloaded
    /// request to `request_saved`.
    SaveRoute(String),
    /// Store this method on the edited request, then hand the reloaded
    /// request to `request_saved`.
    SaveMethod(HttpMethod),
    /// Store this value on the header at this position (its key and request
    /// kept), then reload the headers and hand them to `headers_loaded`.
    SaveHeaderValue(usize, String),
    /// Store a header with this key and an empty value on the edited
    /// request, then reload the headers and hand them to `headers_loaded`.
    AddHeader(String),
    /// Send the edited request, then hand the response text to
    /// `response_received`.
    Send,
}

/// The detail panel's answer to a key: a result at once, or outside work
/// first.
#[derive(Debug, Clone, PartialEq, Eq)]
pub enum RightStep {
    Reply(RightInputResult),
    Run(RightCommand),
}

/// The tabs of the request editor, in order.
pub const DETAILS_TAB: usize = 0;

pub const HEADERS_TAB: usize = 1;

pub const PARAMS_TAB: usize = 2;

pub const BODY_TAB: usize = 3;

/// The tab after `t`, wrapping from the last to the first.
pub open spec fn next_tab_of(t: usize) -> usize {
    if t < 3 {
        (t + 1) as usize
    } else {
        0
    }
}

/// The tab before `t`, wrapping from the first to the last.
pub open spec fn previous_tab_of(t: usize) -> usize {
    if t > 0 {
        (t - 1) as usize
    } else {
        3
    }
}

/// The tab a shortcut key jumps to: D, H, P and B for Details, Headers,
/// Params and Body.
pub open spec fn shortcut_tab(c: char) -> Option<usize> {
    if c == 'D' {
        Some(0usize)
    } else if c == 'H' {
        Some(1usize)
    } else if c == 'P' {
        Some(2usize)
    } else if c == 'B' {
        Some(3usize)
    } else {
        None
    }
}

/// The Details table's cursor after `j` or `k`: both keys flip between the
/// Route row and the Method row, and start on the Route row.
pub open spec fn toggled_row(sel: Option<usize>) -> Option<usize> {
    match sel {
        Some(r) => if r == 0 {
            Some(1usize)
        } else {
            Some(0usize)
        },
        None => Some(0usize),
    }
}

/// The header cursor one row down, held at the last row; no move without a
/// cursor.
pub open spec fn header_down(sel: Option<usize>, len: nat) -> Option<usize> {
    match sel {
        Some(c) => if c + 1 < len {
            Some((c + 1) as usize)
        } else {
            Some(c)
        },
        None => None,
    }
}

/// The header cursor one row up, held at the first row; no move without a
/// cursor.
pub open spec fn header_up(sel: Option<usize>) -> Option<usize> {
    match sel {
        Some(c) => if c > 0 {
            Some((c - 1) as usize)
        } else {
            Some(c)
        },
        None => None,
    }
}

/// The header stored when a key typed on the Headers tab is committed: an
/// empty value under the edited request.
pub fn header_to_add<'a>(key: &'a str, request_id: i32) -> (r: NewHeader<'a>)
    ensures
        r.key@ == key@,
        r.value@ == Seq::<char>::empty(),
        r.request_id == request_id,
{
    proof {
        reveal_strlit("");
    }
    NewHeader { key, value: "", request_id }
}

/// The header written back when a value typed for a header is committed:
/// key and request as they were, the new value.
pub fn header_update<'a>(existing: &'a Header, value: &'a str) -> (r: NewHeader<'a>)
    ensures
        r.key@ == existing.key@,
        r.value@ == value@,
        r.request_id == existing.request_id,
{
    NewHeader { key: existing.key.as_str(), value, request_id: existing.request_id }
}

/// A read-only view of an API and its resources.
#[derive(Debug)]
pub struct ApiWidget {
    pub api: Api,
    pub resources: Vec<Resource>,
}

/// A read-only view of a resource and its requests.
#[derive(Debug)]
pub struct ResourceWidget {
    pub resource: Resource,
    pub requests: Vec<Request>,
}

/// The request editor: a request, the tab shown, the cursors of its
/// tables, an optional edit buffer and the last response.
#[derive(Debug)]
pub struct RequestWidget {
    pub tab_index: usize,
    pub request: Request,
    pub request_details_table_state: Option<usize>,
    pub header_table_state: Option<usize>,
    pub param_table_state: Option<usize>,
    pub headers: Vec<Header>,
    pub input: Option<String>,
    pub response: Option<String>,
}

impl ApiWidget {
    pub fn new(api: Api, resources: Vec<Resource>) -> (r: ApiWidget)
        ensures
            r.api == api,
            r.resources == resources,
    {
        ApiWidget { api, resources }
    }
}

impl ResourceWidget {
    pub fn new(resource: Resource, requests: Vec<Request>) -> (r: ResourceWidget)
        ensures
            r.resource == resource,
            r.requests == requests,
    {
        ResourceWidget { resource, requests }
    }
}

impl RequestWidget {
    /// One of the four tabs is shown and each cursor stands on a row.
    pub open spec fn wf(self) -> bool {
        &&& self.tab_index < 4
        &&& match self.request_details_table_state {
            Some(r) => r < 2,
            None => true,
        }
        &&& match self.header_table_state {
            Some(h) => (h as nat) < self.headers@.len(),
            None => true,
        }
    }

    /// Everything but the edit buffer as in `other`.
    pub open spec fn same_but_input(self, other: RequestWidget) -> bool {
        &&& self.tab_index == other.tab_index
        &&& self.request == other.request
        &&& self.request_details_table_state == other.request_details_table_state
        &&& self.header_table_state == other.header_table_state
        &&& self.param_table_state == other.param_table_state
        &&& self.headers == other.headers
        &&& self.response == other.response
    }

    pub open spec fn with_tab(self, t: usize) -> RequestWidget {
        RequestWidget { tab_index: t, ..self }
    }

    /// The editor with reloaded headers; the cursor stays where it still
    /// stands on a row.
    pub open spec fn with_headers(self, headers: Vec<Header>) -> RequestWidget {
        RequestWidget {
            headers,
            header_table_state: match self.header_table_state {
                Some(h) => if (h as nat) < headers@.len() {
                    Some(h)
                } else {
                    None
                },
                None => None,
            },
            ..self
        }
    }

    /// The editor after `j`.
    pub open spec fn moved_down(self) -> RequestWidget {
        if self.tab_index == 0 {
            RequestWidget {
                request_details_table_state: toggled_row(self.request_details_table_state),
                ..self
            }
        } else if self.tab_index == 1 {
            RequestWidget {
                header_table_state: header_down(self.header_table_state, self.headers@.len()),
                ..self
            }
        } else {
            self
        }
    }

    /// The editor after `k`.
    pub open spec fn moved_up(self) -> RequestWidget {
        if self.tab_index == 0 {
            RequestWidget {
                request_details_table_state: toggled_row(self.request_details_table_state),
                ..self
            }
        } else if self.tab_index == 1 {
            RequestWidget { header_table_state: header_up(self.header_table_state), ..self }
        } else {
            self
        }
    }

    /// The editor after a key without a buffer that neither edits nor
    /// leaves: cursor moves and tab changes.
    pub open spec fn after_key(self, c: char) -> RequestWidget {
        if c == 'j' {
            self.moved_down()
        } else if c == 'k' {
            self.moved_up()
        } else if c == 'l' {
            self.with_tab(next_tab_of(self.tab_index))
        } else if c == 'h' {
            self.with_tab(previous_tab_of(self.tab_index))
        } else if shortcut_tab(c) is Some {
            self.with_tab(shortcut_tab(c).unwrap())
        } else {
            self
        }
    }

    /// The text `e` starts the buffer with: the route on the Route row, the
    /// value of the header under the cursor on the Headers tab.
    pub open spec fn edit_start(self) -> Option<Seq<char>> {
        if self.tab_index == 0 && self.request_details_table_state == Some(0usize) {
            Some(self.request.route@)
        } else if self.tab_index == 1 && self.header_table_state is Some {
            Some(self.headers@[self.header_table_state.unwrap() as int].value@)
        } else {
            None
        }
    }

    /// Whether `a` starts a buffer for a new header.
    pub open spec fn add_start(self) -> bool {
        self.tab_index == 1 && self.header_table_state is None
    }

    /// The step Enter takes to commit the buffer `buf`.
    pub open spec fn commit_step(self, r: RightStep, buf: Seq<char>) -> bool {
        if self.tab_index == 0 {
            if self.request_details_table_state == Some(0usize) {
                r matches RightStep::Run(RightCommand::SaveRoute(s)) && s@ == buf
            } else {
                r == RightStep::Reply(RightInputResult::NoOp)
            }
        } else if self.tab_index == 1 {
            match self.header_table_state {
                Some(h) => r matches RightStep::Run(RightCommand::SaveHeaderValue(i, s)) && i == h
                    && s@ == buf,
                None => r matches RightStep::Run(RightCommand::AddHeader(s)) && s@ == buf,
            }
        } else {
            r == RightStep::Reply(RightInputResult::NoOp)
        }
    }

    /// An editor on `request` and its headers, on the Details tab, with no
    /// cursor, buffer or response.
    pub fn new(request: Request, headers: Vec<Header>) -> (r: RequestWidget)
        ensures
            r.wf(),
            r.tab_index == 0,
            r.request == request,
            r.headers == headers,
            r.request_details_table_state is None,
            r.header_table_state is None,
            r.param_table_state is None,
            r.input is None,
            r.response is None,
    {
        RequestWidget {
            tab_index: 0,
            request,
            request_details_table_state: None,
            header_table_state: None,
            param_table_state: None,
            headers,
            input: None,
            response: None,
        }
    }

    pub fn next_tab(&mut self)
        ensures
            *final(self) == old(self).with_tab(next_tab_of(old(self).tab_index)),
    {
        if self.tab_index < 3 {
            self.tab_index = self.tab_index + 1;
        } else {
            self.tab_index = 0;
        }
    }

    pub fn previous_tab(&mut self)
        ensures
            *final(self) == old(self).with_tab(previous_tab_of(old(self).tab_index)),
    {
        if self.tab_index > 0 {
            self.tab_index = self.tab_index - 1;
        } else {
            self.tab_index = 3;
        }
    }

    pub fn move_down(&mut self)
        requires
            old(self).wf(),
        ensures
            *final(self) == old(self).moved_down(),
            final(self).wf(),
    {
        if self.tab_index == 0 {
            self.request_details_table_state = match self.request_details_table_state {
                Some(0) => Some(1),
                Some(_) | None => Some(0),
            };
        } else if self.tab_index == 1 {
            let len = self.headers.len();
            if let Some(current) = self.header_table_state {
                if current < len - 1 {
                    self.header_table_state = Some(current + 1);
                }
            }
        }
    }

    pub fn move_up(&mut self)
        requires
            old(self).wf(),
        ensures
            *final(self) == old(self).moved_up(),
            final(self).wf(),
    {
        if self.tab_index == 0 {
            self.request_details_table_state = match self.request_details_table_state {
                Some(0) => Some(1),
                Some(_) | None => Some(0),
            };
        } else if self.tab_index == 1 {
            if let Some(current) = self.header_table_state {
                if current > 0 {
                    self.header_table_state = Some(current - 1);
                }
            }
        }
    }

    /// How one key press takes the editor from `self` to `after`, with
    /// answer `r`.
    pub open spec fn key_step(self, key: Key, after: RequestWidget, r: RightStep) -> bool {
        match key {
            Key::Char(c) => match text_of(self.input) {
                Some(buf) => {
                    &&& after.same_but_input(self)
                    &&& text_of(after.input) == Some(buf.push(c))
                    &&& r == RightStep::Reply(RightInputResult::NoOp)
                },
                None => if c == 'e' {
                    &&& after.same_but_input(self)
                    &&& text_of(after.input) == self.edit_start()
                    &&& r == RightStep::Reply(RightInputResult::NoOp)
                } else if c == 'a' {
                    &&& after.same_but_input(self)
                    &&& text_of(after.input) == if self.add_start() {
                        Some(Seq::<char>::empty())
                    } else {
                        None
                    }
                    &&& r == RightStep::Reply(RightInputResult::NoOp)
                } else {
                    &&& after == self.after_key(c)
                    &&& r == if c == 'q' {
                        RightStep::Reply(RightInputResult::Exit)
                    } else if c == 'r' {
                        RightStep::Run(RightCommand::Send)
                    } else {
                        RightStep::Reply(RightInputResult::NoOp)
                    }
                },
            },
            Key::Enter => match text_of(self.input) {
                Some(buf) => {
                    &&& after.same_but_input(self)
                    &&& after.input is None
                    &&& self.commit_step(r, buf)
                },
                None => if self.tab_index == 0 && self.request_details_table_state
                    == Some(0usize) {
                    &&& after.same_but_input(self)
                    &&& text_of(after.input) == Some(self.request.route@)
                    &&& r == RightStep::Reply(RightInputResult::NoOp)
                } else if self.tab_index == 0 && self.request_details_table_state
                    == Some(1usize) {
                    &&& after == self
                    &&& r == RightStep::Run(
                        RightCommand::SaveMethod(self.request.method.spec_next()),
                    )
                } else {
                    &&& after == self
                    &&& r == RightStep::Reply(RightInputResult::NoOp)
                },
            },
            Key::Backspace => match text_of(self.input) {
                Some(buf) => {
                    &&& after.same_but_input(self)
                    &&& text_of(after.input) == Some(without_last(buf))
                    &&& r == RightStep::Reply(RightInputResult::NoOp)
                },
                None => after == self && r == RightStep::Reply(
                    RightInputResult::LoseFocus,
                ),
            },
            Key::Other => after == self && r == RightStep::Reply(
                RightInputResult::NoOp,
            ),
        }
    }

    /// Applies one key press.
    pub fn handle_input(&mut self, key: Key) -> (r: RightStep)
        requires
            old(self).wf(),
        ensures
            final(self).wf(),
            old(self).key_step(key, *final(self), r),
    {
        match key {
            Key::Char(character) => {
                if let Some(input) = &mut self.input {
                    push_char(input, character);
                    RightStep::Reply(RightInputResult::NoOp)
                } else if character == 'q' {
                    RightStep::Reply(RightInputResult::Exit)
                } else if character == 'e' {
                    if self.tab_index == DETAILS_TAB {
                        if let Some(0) = self.request_details_table_state {
                            self.input = Some(self.request.route.clone());
                        }
                    } else if self.tab_index == HEADERS_TAB {
                        if let Some(h) = self.header_table_state {
                            self.input = Some(self.headers[h].value.clone());
                        }
                    }
                    RightStep::Reply(RightInputResult::NoOp)
                } else if character == 'a' {
                    if self.tab_index == HEADERS_TAB && self.header_table_state.is_none() {
                        self.input = Some(String::new());
                    }
                    RightStep::Reply(RightInputResult::NoOp)
                } else if character == 'j' {
                    self.move_down();
                    RightStep::Reply(RightInputResult::NoOp)
                } else if character == 'k' {
                    self.move_up();
                    RightStep::Reply(RightInputResult::NoOp)
                } else if character == 'l' {
                    self.next_tab();
                    RightStep::Reply(RightInputResult::NoOp)
                } else if character == 'h' {
                    self.previous_tab();
                    RightStep::Reply(RightInputResult::NoOp)
                } else if character == 'r' {
                    RightStep::Run(RightCommand::Send)
                } else {
                    if character == 'D' {
                        self.tab_index = DETAILS_TAB;
                    } else if character == 'H' {
                        self.tab_index = HEADERS_TAB;
                    } else if character == 'P' {
                        self.tab_index = PARAMS_TAB;
                    } else if character == 'B' {
                        self.tab_index = BODY_TAB;
                    }
                    RightStep::Reply(RightInputResult::NoOp)
                }
            },
            Key::Backspace => {
                if let Some(input) = &mut self.input {
                    pop_char(input);
                    RightStep::Reply(RightInputResult::NoOp)
                } else {
                    RightStep::Reply(RightInputResult::LoseFocus)
                }
            },
            Key::Enter => {
                if let Some(input) = self.input.take() {
                    if self.tab_index == DETAILS_TAB {
                        if let Some(0) = self.request_details_table_state {
                            RightStep::Run(RightCommand::SaveRoute(input))
                        } else {
                            RightStep::Reply(RightInputResult::NoOp)
                        }
                    } else if self.tab_index == HEADERS_TAB {
                        if let Some(h) = self.header_table_state {
                            RightStep::Run(RightCommand::SaveHeaderValue(h, input))
                        } else {
                            RightStep::Run(RightCommand::AddHeader(input))
                        }
                    } else {
                        RightStep::Reply(RightInputResult::NoOp)
                    }
                } else if self.tab_index == DETAILS_TAB {
                    match self.request_details_table_state {
                        Some(0) => {
                            self.input = Some(self.request.route.clone());
                            RightStep::Reply(RightInputResult::NoOp)
                        },
                        Some(1) => RightStep::Run(RightCommand::SaveMethod(self.request.method.next())),
                        _ => RightStep::Reply(RightInputResult::NoOp),
                    }
                } else {
                    RightStep::Reply(RightInputResult::NoOp)
                }
            },
            Key::Other => RightStep::Reply(RightInputResult::NoOp),
        }
    }

    /// Takes the request as the store holds it after a route or method
    /// change; the navigator's list of requests is then out of date.
    pub fn request_saved(&mut self, updated: Request) -> (r: RightInputResult)
        requires
            old(self).wf(),
        ensures
            final(self).wf(),
            *final(self) == (RequestWidget { request: updated, ..*old(self) }),
            r == RightInputResult::RefreshRequests,
    {
        self.request = updated;
        RightInputResult::RefreshRequests
    }

    /// Takes the headers as the store holds them after a change; the cursor
    /// stays where it still stands on a row.
    pub fn headers_loaded(&mut self, headers: Vec<Header>)
        requires
            old(self).wf(),
        ensures
            final(self).wf(),
            *final(self) == old(self).with_headers(headers),
    {
        if let Some(h) = self.header_table_state {
            if h >= headers.len() {
                self.header_table_state = None;
            }
        }
        self.headers = headers;
    }

    /// Keeps the text the executor gave back for the edited request.
    pub fn response_received(&mut self, text: String)
        requires
            old(self).wf(),
        ensures
            final(self).wf(),
            *final(self) == (RequestWidget { response: Some(text), ..*old(self) }),
    {
        self.response = Some(text);
    }
}

/// What the detail panel hosts.
#[derive(Debug)]
pub enum Content {
    Api(ApiWidget),
    Resource(ResourceWidget),
    Request(RequestWidget),
}

/// Whether hosted content, if any, is well formed.
pub open spec fn content_wf(content: Option<Content>) -> bool {
    match content {
        Some(Content::Request(w)) => w.wf(),
        _ => true,
    }
}

/// The detail panel: a read view of the selected API or resource, or the
/// editor of the selected request, or nothing.
#[derive(Debug)]
pub struct RightWidget {
    pub content: Option<Content>,
}

impl RightWidget {
    pub open spec fn wf(self) -> bool {
        content_wf(self.content)
    }

    /// Whether the panel hosts a request editor.
    pub open spec fn edits(self) -> bool {
        self.content matches Some(Content::Request(_))
    }

    /// The hosted editor went from `w` to `w2`, as `step` says; content
    /// without an editor stays as it was.
    pub open spec fn editor_step(
        self,
        after: RightWidget,
        step: spec_fn(RequestWidget, RequestWidget) -> bool,
    ) -> bool {
        match self.content {
            Some(Content::Request(w)) => after.content matches Some(Content::Request(w2)) && step(
                w,
                w2,
            ),
            _ => after.content == self.content,
        }
    }

    /// How one key press takes the panel from `self` to `after`, with
    /// answer `r`: the hosted editor takes the key; without one nothing
    /// happens.
    pub open spec fn key_step(self, key: Key, after: RightWidget, r: RightStep) -> bool {
        &&& self.editor_step(after, |w: RequestWidget, w2: RequestWidget| w.key_step(key, w2, r))
        &&& !self.edits() ==> r == RightStep::Reply(RightInputResult::NoOp)
    }

    pub fn new(content: Option<Content>) -> (r: RightWidget)
        requires
            content_wf(content),
        ensures
            r.wf(),
            r.content == content,
    {
        RightWidget { content }
    }

    /// Swaps the hosted content for freshly loaded content; nothing of the
    /// former content, an editor's buffer included, is kept.
    pub fn set_type(&mut self, content: Option<Content>)
        requires
            content_wf(content),
        ensures
            final(self).wf(),
            final(self).content == content,
    {
        self.content = content;
    }

    /// Hands a key to the request editor; without one there is nothing to
    /// do.
    pub fn handle_input(&mut self, key: Key) -> (r: RightStep)
        requires
            old(self).wf(),
        ensures
            final(self).wf(),
            old(self).key_step(key, *final(self), r),
    {
        match &mut self.content {
            Some(Content::Request(request_widget)) => request_widget.handle_input(key),
            _ => RightStep::Reply(RightInputResult::NoOp),
        }
    }

    /// Hands the stored request to the editor after a route or method change.
    pub fn request_saved(&mut self, updated: Request) -> (r: RightInputResult)
        requires
            old(self).wf(),
        ensures
            final(self).wf(),
            old(self).editor_step(*final(self), |w: RequestWidget, w2: RequestWidget| w2 == (RequestWidget { request: updated, ..w })),
            r == if old(self).edits() {
                RightInputResult::RefreshRequests
            } else {
                RightInputResult::NoOp
            },
    {
        match &mut self.content {
            Some(Content::Request(request_widget)) => request_widget.request_saved(updated),
            _ => RightInputResult::NoOp,
        }
    }

    /// Hands the reloaded headers to the editor.
    pub fn headers_loaded(&mut self, headers: Vec<Header>)
        requires
            old(self).wf(),
        ensures
            final(self).wf(),
            old(self).editor_step(
                *final(self),
                |w: RequestWidget, w2: RequestWidget| w2 == w.with_headers(headers),
            ),
    {
        match &mut self.content {
            Some(Content::Request(request_widget)) => request_widget.headers_loaded(headers),
            _ => {},
        }
    }

    /// Hands the response text to the editor.
    pub fn response_received(&mut self, text: String)
        requires
            old(self).wf(),
        ensures
            final(self).wf(),
            old(self).editor_step(*final(self), |w: RequestWidget, w2: RequestWidget| w2 == (RequestWidget { response: Some(text), ..w })),
    {
        match &mut self.content {
            Some(Content::Request(request_widget)) => request_widget.response_received(text),
            _ => {},
        }
    }
}

impl RequestWidget {
    /// The editor after a sequence of keys, none of which edits or leaves.
    pub open spec fn after_keys(self, keys: Seq<char>) -> RequestWidget
        decreases keys.len(),
    {
        if keys.len() == 0 {
            self
        } else {
            self.after_keys(keys.drop_last()).after_key(keys.last())
        }
    }
}

/// `l` on the last tab goes to the first and `h` on the first goes to the
/// last; from the first tab, `l` and `h` alone reach none but the four tabs.
pub proof fn lemma_tab_cycle(w: RequestWidget, keys: Seq<char>)
    requires
        w.tab_index == 0,
        forall|i: int| 0 <= i < keys.len() ==> keys[i] == 'l' || keys[i] == 'h',
    ensures
        w.with_tab(3).after_key('l').tab_index == 0,
        w.after_key('h').tab_index == 3,
        w.after_keys(keys).tab_index < 4,
    decreases keys.len(),
{
    if keys.len() > 0 {
        let rest = keys.drop_last();
        assert forall|i: int| 0 <= i < rest.len() implies rest[i] == 'l' || rest[i] == 'h' by {
            assert(rest[i] == keys[i]);
        }
        lemma_tab_cycle(w, rest);
    }
}

} // verus!
