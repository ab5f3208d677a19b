use vstd::prelude::*;

use crate::interface::Key;
use crate::models::{Api, NewRequest, Request, Resource};
use crate::types::HttpMethod;
use crate::text::{pop_char, push_char, text_of, without_last};

verus! {

/// A level of the hierarchy, named by what has to be loaded to show it.
#[derive(Debug, Copy, Clone, PartialEq, Eq, Structural)]
pub enum LeftType {
    Apis,
    Resources(i32),
    Requests(i32),
}

/// The level the navigator shows: every API, the resources of one API, or
/// the requests of one resource.
#[derive(Debug, Clone, PartialEq, Eq)]
pub enum LeftContent {
    Apis(Vec<Api>),
    Resources(Vec<Resource>, i32),
    Requests(Vec<Request>, i32),
}

/// What a key press on the navigator amounts to for the rest of the window.
#[derive(Debug, Copy, Clone, PartialEq, Eq, Structural)]
pub enum LeftInputResult {
    Exit,
    NoOp,
    ShowApi(i32),
    ShowResource(i32),
    ShowRequest(i32),
    ShowNothing,
    IntoApi(i32),
    IntoResource(i32),
    EditRequest(i32),
}

/// The entry under the cursor, by kind and id.
#[derive(Debug, Copy, Clone, PartialEq, Eq, Structural)]
pub enum SelectedItem {
    Nothing,
    Api(i32),
    Resource(i32),
    Request(i32),
}

/// Store work that the navigator waits on before it can go on.
#[derive(Debug, Clone, PartialEq, Eq)]
pub enum LeftCommand {
    /// Load this level, then hand it to `descend`.
    Descend(LeftType),
    /// Load every API, then hand them to `ascend`.
    AscendToApis,
    /// Look up this resource's API, load that API's resources, then hand
    /// them to `ascend`.
    AscendToResources(i32),
    /// Store an API of this name, reload the APIs and hand them to `refresh`.
    CreateApi(String),
    /// Store a resource of this name under the API, then reload and `refresh`.
    CreateResource(String, i32),
    /// Store a GET request with this route under the resource, then reload
    /// and `refresh`.
    CreateRequest(String, i32),
}

/// The navigator's answer to a key: a result at once, or store work first.
#[derive(Debug, Clone, PartialEq, Eq)]
pub enum LeftStep {
    Reply(LeftInputResult),
    Run(LeftCommand),
}

/// The request stored when a route typed into the navigator is committed:
/// a GET request without a body.
pub fn request_to_create<'a>(route: &'a str, resource_id: i32) -> (r: NewRequest<'a>)
    ensures
        r.route@ == route@,
        r.resource_id == resource_id,
        r.method == HttpMethod::Get,
        r.body is None,
{
    NewRequest { resource_id, route, method: HttpMethod::Get, body: None }
}

/// Whether `i` is the first position of `id` in `ids`.
pub open spec fn is_first_index(ids: Seq<i32>, id: i32, i: int) -> bool {
    &&& 0 <= i < ids.len()
    &&& ids[i] == id
    &&& forall|j: int| 0 <= j < i ==> ids[j] != id
}

/// The first position of `id` in `ids`, if it occurs.
pub open spec fn first_index(ids: Seq<i32>, id: i32) -> Option<usize> {
    if exists|i: int| is_first_index(ids, id, i) {
        Some((choose|i: int| is_first_index(ids, id, i)) as usize)
    } else {
        None
    }
}

/// Whether no id occurs twice in `ids`.
pub open spec fn ids_unique(ids: Seq<i32>) -> bool {
    forall|i: int, j: int| 0 <= i < ids.len() && 0 <= j < ids.len() && i != j ==> ids[i] != ids[j]
}

/// The cursor after one step down in a list of `len` entries: the next
/// entry, the first one after the last, the first one when none was
/// selected.
pub open spec fn down_from(sel: Option<usize>, len: nat) -> Option<usize> {
    if len == 0 {
        sel
    } else {
        match sel {
            Some(i) => if i + 1 < len {
                Some((i + 1) as usize)
            } else {
                Some(0)
            },
            None => Some(0),
        }
    }
}

/// The cursor after one step up in a list of `len` entries: the previous
/// entry, the last one before the first, the first one when none was
/// selected.
pub open spec fn up_from(sel: Option<usize>, len: nat) -> Option<usize> {
    if len == 0 {
        sel
    } else {
        match sel {
            Some(i) => if i > 0 {
                Some((i - 1) as usize)
            } else {
                Some((len - 1) as usize)
            },
            None => Some(0),
        }
    }
}

/// The cursor after `n` steps down.
pub open spec fn down_n(sel: Option<usize>, len: nat, n: nat) -> Option<usize>
    decreases n,
{
    if n == 0 {
        sel
    } else {
        down_from(down_n(sel, len, (n - 1) as nat), len)
    }
}

/// A selection kept where it still falls inside a list of `len` entries.
pub open spec fn kept_within(sel: Option<usize>, len: nat) -> Option<usize> {
    match sel {
        Some(i) => if (i as nat) < len {
            sel
        } else {
            None
        },
        None => None,
    }
}

impl LeftContent {
    /// The ids of the shown entries, in order.
    pub open spec fn ids(self) -> Seq<i32> {
        match self {
            LeftContent::Apis(v) => v@.map_values(|a: Api| a.id),
            LeftContent::Resources(v, _) => v@.map_values(|r: Resource| r.id),
            LeftContent::Requests(v, _) => v@.map_values(|r: Request| r.id),
        }
    }

    pub open spec fn len(self) -> nat {
        match self {
            LeftContent::Apis(v) => v@.len(),
            LeftContent::Resources(v, _) => v@.len(),
            LeftContent::Requests(v, _) => v@.len(),
        }
    }

    /// The id of the API or resource whose children this level shows.
    pub open spec fn level_id(self) -> Option<i32> {
        match self {
            LeftContent::Apis(_) => None,
            LeftContent::Resources(_, a) => Some(a),
            LeftContent::Requests(_, r) => Some(r),
        }
    }

    pub open spec fn kind(self) -> LeftType {
        match self {
            LeftContent::Apis(_) => LeftType::Apis,
            LeftContent::Resources(_, a) => LeftType::Resources(a),
            LeftContent::Requests(_, r) => LeftType::Requests(r),
        }
    }

    /// The entry at position `i`, by kind and id.
    pub open spec fn item_at(self, i: int) -> SelectedItem {
        match self {
            LeftContent::Apis(v) => SelectedItem::Api(v@[i].id),
            LeftContent::Resources(v, _) => SelectedItem::Resource(v@[i].id),
            LeftContent::Requests(v, _) => SelectedItem::Request(v@[i].id),
        }
    }

    pub proof fn lemma_ids_len(self)
        ensures
            self.ids().len() == self.len(),
            forall|i: int| 0 <= i < self.len() ==> #[trigger] self.ids()[i] == match self.item_at(i) {
                SelectedItem::Api(id) => id,
                SelectedItem::Resource(id) => id,
                SelectedItem::Request(id) => id,
                SelectedItem::Nothing => 0,
            },
    {
    }

    pub fn length(&self) -> (r: usize)
        ensures
            r == self.len(),
    {
        match self {
            LeftContent::Apis(apis) => apis.len(),
            LeftContent::Resources(resources, _) => resources.len(),
            LeftContent::Requests(requests, _) => requests.len(),
        }
    }

    pub fn kind_of(&self) -> (r: LeftType)
        ensures
            r == self.kind(),
    {
        match self {
            LeftContent::Apis(_) => LeftType::Apis,
            LeftContent::Resources(_, a) => LeftType::Resources(*a),
            LeftContent::Requests(_, r) => LeftType::Requests(*r),
        }
    }

    /// The first position of the entry with this id.
    pub fn position(&self, id: i32) -> (r: Option<usize>)
        ensures
            r == first_index(self.ids(), id),
    {
        proof {
            self.lemma_ids_len();
        }
        let n = self.length();
        let mut i: usize = 0;
        while i < n
            invariant
                n == self.len(),
                self.ids().len() == self.len(),
                i <= n,
                forall|j: int| 0 <= j < i ==> self.ids()[j] != id,
            decreases n - i,
        {
            let found = match self {
                LeftContent::Apis(apis) => apis[i].id == id,
                LeftContent::Resources(resources, _) => resources[i].id == id,
                LeftContent::Requests(requests, _) => requests[i].id == id,
            };
            if found {
                proof {
                    let ids = self.ids();
                    assert(is_first_index(ids, id, i as int));
                    let k = choose|k: int| is_first_index(ids, id, k);
                    assert(k == i as int) by {
                        if k < i as int {
                            assert(ids[k] != id);
                        } else if k > i as int {
                            assert(ids[i as int] != id);
                        }
                    }
                }
                return Some(i);
            }
            i = i + 1;
        }
        proof {
            let ids = self.ids();
            assert forall|k: int| !is_first_index(ids, id, k) by {
                if 0 <= k < ids.len() {
                    assert(ids[k] != id);
                }
            }
        }
        None
    }
}

/// The navigator: one level of the hierarchy, a cursor over it, and an
/// optional buffer for the name of a new entry.
#[derive(Debug)]
pub struct LeftList {
    pub content: LeftContent,
    pub input: Option<String>,
    pub selected_item: Option<usize>,
}

impl LeftList {
    /// The cursor, when there is one, stands on an entry.
    pub open spec fn wf(self) -> bool {
        match self.selected_item {
            Some(i) => (i as nat) < self.content.len(),
            None => true,
        }
    }

    /// The navigator right after it went down into `child`.
    pub open spec fn descended(self, child: LeftContent) -> LeftList {
        LeftList { content: child, input: None, selected_item: None }
    }

    /// The navigator right after it went up into `parent`: the cursor is
    /// on the entry it came from, found by id.
    pub open spec fn ascended(self, parent: LeftContent) -> LeftList {
        LeftList {
            content: parent,
            input: None,
            selected_item: match self.content.level_id() {
                Some(id) => first_index(parent.ids(), id),
                None => None,
            },
        }
    }

    /// The entry under the cursor.
    pub open spec fn selection(self) -> SelectedItem {
        match self.selected_item {
            Some(i) => self.content.item_at(i as int),
            None => SelectedItem::Nothing,
        }
    }

    /// What the window is told when the cursor has come to rest.
    pub open spec fn shown(self) -> LeftInputResult {
        match self.selection() {
            SelectedItem::Api(id) => LeftInputResult::ShowApi(id),
            SelectedItem::Resource(id) => LeftInputResult::ShowResource(id),
            SelectedItem::Request(id) => LeftInputResult::ShowRequest(id),
            SelectedItem::Nothing => LeftInputResult::ShowNothing,
        }
    }

    /// Level, buffer and cursor all as they were.
    pub open spec fn same_as(self, other: LeftList) -> bool {
        &&& self.content == other.content
        &&& self.selected_item == other.selected_item
        &&& text_of(self.input) == text_of(other.input)
    }

    /// The store command that commits `text` as a new entry of `content`.
    pub open spec fn creates(c: LeftCommand, content: LeftContent, text: Seq<char>) -> bool {
        match content {
            LeftContent::Apis(_) => match c {
                LeftCommand::CreateApi(name) => name@ == text,
                _ => false,
            },
            LeftContent::Resources(_, api_id) => match c {
                LeftCommand::CreateResource(name, a) => name@ == text && a == api_id,
                _ => false,
            },
            LeftContent::Requests(_, resource_id) => match c {
                LeftCommand::CreateRequest(route, r) => route@ == text && r == resource_id,
                _ => false,
            },
        }
    }

    /// What Enter does without a buffer: open the entry under the cursor.
    pub open spec fn enter_step(self) -> LeftStep {
        match self.selected_item {
            None => LeftStep::Reply(LeftInputResult::NoOp),
            Some(i) => match self.content {
                LeftContent::Apis(v) => LeftStep::Run(
                    LeftCommand::Descend(LeftType::Resources(v@[i as int].id)),
                ),
                LeftContent::Resources(v, _) => LeftStep::Run(
                    LeftCommand::Descend(LeftType::Requests(v@[i as int].id)),
                ),
                LeftContent::Requests(v, _) => LeftStep::Reply(
                    LeftInputResult::EditRequest(v@[i as int].id),
                ),
            },
        }
    }

    /// What Backspace does without a buffer: go up one level.
    pub open spec fn back_step(self) -> LeftStep {
        match self.content {
            LeftContent::Apis(_) => LeftStep::Reply(LeftInputResult::NoOp),
            LeftContent::Resources(_, _) => LeftStep::Run(LeftCommand::AscendToApis),
            LeftContent::Requests(_, r) => LeftStep::Run(LeftCommand::AscendToResources(r)),
        }
    }

    /// A navigator on the list of APIs, with nothing selected.
    pub fn new(apis: Vec<Api>) -> (r: LeftList)
        ensures
            r.content == LeftContent::Apis(apis),
            r.input is None,
            r.selected_item is None,
            r.wf(),
    {
        LeftList { content: LeftContent::Apis(apis), input: None, selected_item: None }
    }

    /// The cursor position.
    pub fn selected(&self) -> (r: Option<usize>)
        ensures
            r == self.selected_item,
    {
        self.selected_item
    }

    pub fn select_down(&mut self)
        requires
            old(self).wf(),
        ensures
            final(self).wf(),
            final(self).content == old(self).content,
            final(self).input == old(self).input,
            final(self).selected_item == down_from(old(self).selected_item, old(self).content.len()),
    {
        let len = self.content.length();
        if let Some(selected_item) = self.selected_item {
            if selected_item + 1 < len {
                self.selected_item = Some(selected_item + 1);
            } else {
                self.select_first();
            }
        } else {
            self.select_first();
        }
    }

    pub fn select_up(&mut self)
        requires
            old(self).wf(),
        ensures
            final(self).wf(),
            final(self).content == old(self).content,
            final(self).input == old(self).input,
            final(self).selected_item == up_from(old(self).selected_item, old(self).content.len()),
    {
        if let Some(selected_item) = self.selected_item {
            if selected_item > 0 {
                self.selected_item = Some(selected_item - 1);
            } else {
                self.select_last();
            }
        } else {
            self.select_first();
        }
    }

    /// Puts the cursor on `index` when it names an entry, else clears it.
    pub fn select(&mut self, index: Option<usize>)
        ensures
            final(self).wf(),
            final(self).content == old(self).content,
            final(self).input == old(self).input,
            final(self).selected_item == kept_within(index, old(self).content.len()),
    {
        let new_index = match index {
            Some(i) => if i < self.content.length() {
                index
            } else {
                None
            },
            None => None,
        };
        self.selected_item = new_index;
    }

    pub fn select_first(&mut self)
        ensures
            final(self).content == old(self).content,
            final(self).input == old(self).input,
            final(self).selected_item == if old(self).content.len() > 0 {
                Some(0usize)
            } else {
                old(self).selected_item
            },
    {
        if self.content.length() > 0 {
            self.selected_item = Some(0);
        }
    }

    pub fn select_last(&mut self)
        ensures
            final(self).content == old(self).content,
            final(self).input == old(self).input,
            final(self).selected_item == if old(self).content.len() > 0 {
                Some((old(self).content.len() - 1) as usize)
            } else {
                old(self).selected_item
            },
    {
        let len = self.content.length();
        if len > 0 {
            self.selected_item = Some(len - 1);
        }
    }

    /// The entry under the cursor.
    pub fn selected_entry(&self) -> (r: SelectedItem)
        requires
            self.wf(),
        ensures
            r == self.selection(),
    {
        match self.selected_item {
            Some(i) => match &self.content {
                LeftContent::Apis(apis) => SelectedItem::Api(apis[i].id),
                LeftContent::Resources(resources, _) => SelectedItem::Resource(resources[i].id),
                LeftContent::Requests(requests, _) => SelectedItem::Request(requests[i].id),
            },
            None => SelectedItem::Nothing,
        }
    }

    fn changed_show(&self) -> (r: LeftInputResult)
        requires
            self.wf(),
        ensures
            r == self.shown(),
    {
        match self.selected_entry() {
            SelectedItem::Api(id) => LeftInputResult::ShowApi(id),
            SelectedItem::Resource(id) => LeftInputResult::ShowResource(id),
            SelectedItem::Request(id) => LeftInputResult::ShowRequest(id),
            SelectedItem::Nothing => LeftInputResult::ShowNothing,
        }
    }

    /// Shows `child`, the level under the selected entry, with nothing
    /// selected.
    pub fn descend(&mut self, child: LeftContent) -> (r: LeftInputResult)
        ensures
            *final(self) == old(self).descended(child),
            final(self).wf(),
            r == LeftInputResult::ShowNothing,
    {
        self.content = child;
        self.input = None;
        self.selected_item = None;
        LeftInputResult::ShowNothing
    }

    /// Shows `parent`, the level above, with the cursor on the entry that
    /// was left.
    pub fn ascend(&mut self, parent: LeftContent) -> (r: LeftInputResult)
        ensures
            *final(self) == old(self).ascended(parent),
            final(self).wf(),
            r == final(self).shown(),
    {
        let from = match &self.content {
            LeftContent::Apis(_) => None,
            LeftContent::Resources(_, api_id) => Some(*api_id),
            LeftContent::Requests(_, resource_id) => Some(*resource_id),
        };
        let index = match from {
            Some(id) => parent.position(id),
            None => None,
        };
        proof {
            parent.lemma_ids_len();
        }
        self.content = parent;
        self.input = None;
        self.selected_item = index;
        self.changed_show()
    }

    /// Replaces the shown entries by a fresh load of the same level,
    /// keeping buffer and cursor where the cursor still stands on an entry.
    pub fn refresh(&mut self, content: LeftContent)
        ensures
            final(self).wf(),
            final(self).content == content,
            final(self).input == old(self).input,
            final(self).selected_item == kept_within(old(self).selected_item, content.len()),
    {
        self.content = content;
        let sel = self.selected_item;
        self.select(sel);
    }

    /// How one key press takes the navigator from `self` to `after`, with
    /// answer `r`.
    pub open spec fn key_step(self, key: Key, after: LeftList, r: LeftStep) -> bool {
        match key {
            Key::Char(c) => match text_of(self.input) {
                Some(buf) => {
                    &&& after.content == self.content
                    &&& after.selected_item == self.selected_item
                    &&& text_of(after.input) == Some(buf.push(c))
                    &&& r == LeftStep::Reply(LeftInputResult::NoOp)
                },
                None => if c == 'j' {
                    &&& after.content == self.content
                    &&& after.input is None
                    &&& after.selected_item == down_from(
                        self.selected_item,
                        self.content.len(),
                    )
                    &&& r == LeftStep::Reply(after.shown())
                } else if c == 'k' {
                    &&& after.content == self.content
                    &&& after.input is None
                    &&& after.selected_item == up_from(
                        self.selected_item,
                        self.content.len(),
                    )
                    &&& r == LeftStep::Reply(after.shown())
                } else if c == 'a' {
                    &&& after.content == self.content
                    &&& after.selected_item == self.selected_item
                    &&& text_of(after.input) == Some(Seq::<char>::empty())
                    &&& r == LeftStep::Reply(LeftInputResult::NoOp)
                } else {
                    &&& after.same_as(self)
                    &&& r == LeftStep::Reply(
                        if c == 'q' {
                            LeftInputResult::Exit
                        } else {
                            LeftInputResult::NoOp
                        },
                    )
                },
            },
            Key::Enter => match text_of(self.input) {
                Some(buf) => {
                    &&& after.content == self.content
                    &&& after.selected_item == self.selected_item
                    &&& after.input is None
                    &&& r matches LeftStep::Run(c) && LeftList::creates(c, self.content, buf)
                },
                None => after.same_as(self) && r == self.enter_step(),
            },
            Key::Backspace => match text_of(self.input) {
                Some(buf) => {
                    &&& after.content == self.content
                    &&& after.selected_item == self.selected_item
                    &&& text_of(after.input) == Some(without_last(buf))
                    &&& r == LeftStep::Reply(LeftInputResult::NoOp)
                },
                None => after.same_as(self) && r == self.back_step(),
            },
            Key::Other => after.same_as(self) && r == LeftStep::Reply(
                LeftInputResult::NoOp,
            ),
        }
    }

    /// Applies one key press.
    pub fn handle_input(&mut self, key: Key) -> (r: LeftStep)
        requires
            old(self).wf(),
        ensures
            final(self).wf(),
            old(self).key_step(key, *final(self), r),
    {
        match key {
            Key::Char(character) => {
                if let Some(input) = &mut self.input {
                    push_char(input, character);
                    LeftStep::Reply(LeftInputResult::NoOp)
                } else if character == 'j' {
                    self.select_down();
                    LeftStep::Reply(self.changed_show())
                } else if character == 'k' {
                    self.select_up();
                    LeftStep::Reply(self.changed_show())
                } else if character == 'q' {
                    LeftStep::Reply(LeftInputResult::Exit)
                } else if character == 'a' {
                    self.input = Some(String::new());
                    LeftStep::Reply(LeftInputResult::NoOp)
                } else {
                    LeftStep::Reply(LeftInputResult::NoOp)
                }
            },
            Key::Enter => {
                if let Some(input) = self.input.take() {
                    let command = match &self.content {
                        LeftContent::Apis(_) => LeftCommand::CreateApi(input),
                        LeftContent::Resources(_, api_id) => LeftCommand::CreateResource(
                            input,
                            *api_id,
                        ),
                        LeftContent::Requests(_, resource_id) => LeftCommand::CreateRequest(
                            input,
                            *resource_id,
                        ),
                    };
                    LeftStep::Run(command)
                } else if let Some(selected_index) = self.selected_item {
                    match &self.content {
                        LeftContent::Requests(requests, _) => LeftStep::Reply(
                            LeftInputResult::EditRequest(requests[selected_index].id),
                        ),
                        LeftContent::Apis(apis) => LeftStep::Run(
                            LeftCommand::Descend(LeftType::Resources(apis[selected_index].id)),
                        ),
                        LeftContent::Resources(resources, _) => LeftStep::Run(
                            LeftCommand::Descend(
                                LeftType::Requests(resources[selected_index].id),
                            ),
                        ),
                    }
                } else {
                    LeftStep::Reply(LeftInputResult::NoOp)
                }
            },
            Key::Backspace => {
                if let Some(input) = &mut self.input {
                    pop_char(input);
                    LeftStep::Reply(LeftInputResult::NoOp)
                } else {
                    match &self.content {
                        LeftContent::Resources(_, _) => LeftStep::Run(LeftCommand::AscendToApis),
                        LeftContent::Requests(_, resource_id) => LeftStep::Run(
                            LeftCommand::AscendToResources(*resource_id),
                        ),
                        LeftContent::Apis(_) => LeftStep::Reply(LeftInputResult::NoOp),
                    }
                }
            },
            Key::Other => LeftStep::Reply(LeftInputResult::NoOp),
        }
    }
}

/// After `k` steps down from entry `i` of a non-empty list, the cursor is on
/// entry `(i + k) % len`.
proof fn lemma_down_n_offset(len: nat, i: usize, k: nat)
    requires
        (i as nat) < len,
        len <= usize::MAX,
    ensures
        down_n(Some(i), len, k) == Some(((i + k) % (len as int)) as usize),
    decreases k,
{
    if k == 0 {
        vstd::arithmetic::div_mod::lemma_small_mod(i as nat, len);
    } else {
        lemma_down_n_offset(len, i, (k - 1) as nat);
        let r = (i + k - 1) % (len as int);
        vstd::arithmetic::div_mod::lemma_mod_bound((i + k - 1) as int, len as int);
        vstd::arithmetic::div_mod::lemma_add_mod_noop((i + k - 1) as int, 1, len as int);
        if len == 1 {
            vstd::arithmetic::div_mod::lemma_mod_self_0(1);
            assert(1int % 1 == 0);
            assert((i + k) % (len as int) == 0) by {
                vstd::arithmetic::div_mod::lemma_mod_bound((i + k) as int, 1);
            }
        } else {
            vstd::arithmetic::div_mod::lemma_small_mod(1, len);
            if r + 1 < len {
                vstd::arithmetic::div_mod::lemma_small_mod((r + 1) as nat, len);
            } else {
                vstd::arithmetic::div_mod::lemma_mod_self_0(len as int);
            }
        }
    }
}

/// Moving the cursor down once per entry of a non-empty list brings it back
/// to the entry it started on.
pub proof fn lemma_select_down_cycle(len: nat, i: usize)
    requires
        (i as nat) < len,
        len <= usize::MAX,
    ensures
        down_n(Some(i), len, len) == Some(i),
{
    lemma_down_n_offset(len, i, len);
    vstd::arithmetic::div_mod::lemma_mod_add_multiples_vanish(i as int, len as int);
    vstd::arithmetic::div_mod::lemma_small_mod(i as nat, len);
}

/// Going up right after going down, with the parent level loaded again
/// unchanged, puts the cursor back on the entry it was on before.
pub proof fn lemma_ascend_after_descend(nav: LeftList, child: LeftContent)
    requires
        nav.wf(),
        nav.selected_item is Some,
        ids_unique(nav.content.ids()),
        nav.enter_step() == LeftStep::Run(LeftCommand::Descend(child.kind())),
    ensures
        nav.descended(child).ascended(nav.content).selected_item == nav.selected_item,
{
    nav.content.lemma_ids_len();
    let i = nav.selected_item.unwrap() as int;
    let ids = nav.content.ids();
    let id = ids[i];
    assert(child.level_id() == Some(id));
    assert(is_first_index(ids, id, i));
    let k = choose|k: int| is_first_index(ids, id, k);
    assert(k == i) by {
        if k != i {
            assert(ids[k] != ids[i]);
        }
    }
}

} // verus!
