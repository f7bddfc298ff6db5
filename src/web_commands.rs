//! The web command dispatcher: Vim-style modal key handling for a browser
//! tab, proved against the transition function of `web_model`.
use std::collections::HashMap;
use vstd::prelude::*;

use crate::text::{pop_char, push_char};
use crate::web_laws::lemma_step_keeps_wf;
use crate::web_model::{
    ascii_lower, base_step, escape_step, find_next_step, find_step, hint_step, initial_model,
    insert_step, mark_jump_step, mark_set_step, model_wf, needs_url, no_calls, normal_step,
    prefix_command, set_mark_step, single, start_hints_step, step, take_pending_step,
    toggle_help_step, toggle_visual_step, visual_step, with_mode, SinkCall, Spot, WebDirection,
    WebGranularity, WebHintAction, WebKey, WebMode, WebModel, WebPending, WEB_SCROLL_STEP,
};

verus! {

broadcast use vstd::std_specs::hash::group_hash_axioms;

/// One call on the action sink, as the dispatcher decides it.
#[derive(Debug, PartialEq)]
pub enum WebAction {
    ScrollBy(i64, i64),
    ScrollHalfPage(bool),
    ScrollTop,
    ScrollBottom,
    ScrollFarLeft,
    ScrollFarRight,
    ScrollTo(i64, i64),
    GoBack,
    GoForward,
    OpenCommandBar(String),
    StartFindPrompt,
    Find(String, bool),
    HintsStart(WebHintAction),
    HintsUpdate(String, WebHintAction),
    HintsCancel,
    CopySelection,
    ClearSelection,
    StartVisualSelection,
    VisualMove(WebDirection, WebGranularity),
    FocusInput,
    BlurActiveElement,
    InsertText(String),
    DeleteBackward,
    DeleteForward,
    InsertParagraph,
    InsertTab,
    CaretMove(WebDirection, WebGranularity),
    ViewSource,
    /// Follow the page's `rel` link: `next` when true, `prev` when false.
    FollowRel(bool),
    CopyUrl,
    OpenClipboard(bool),
    UpUrl(bool),
    NewTab,
    CloseTab,
    RestoreTab,
    SelectPreviousTab,
    SelectNextTab,
    SelectTabAtIndex(usize),
    SelectLastTab,
    Reload,
    ShowHelp,
    HideHelp,
    RequestMarkSet(char, String),
    OpenUrl(String),
    PushError(String),
}

impl View for WebAction {
    type V = SinkCall;

    open spec fn view(&self) -> SinkCall {
        match self {
            WebAction::ScrollBy(dx, dy) => SinkCall::ScrollBy(*dx, *dy),
            WebAction::ScrollHalfPage(down) => SinkCall::ScrollHalfPage(*down),
            WebAction::ScrollTop => SinkCall::ScrollTop,
            WebAction::ScrollBottom => SinkCall::ScrollBottom,
            WebAction::ScrollFarLeft => SinkCall::ScrollFarLeft,
            WebAction::ScrollFarRight => SinkCall::ScrollFarRight,
            WebAction::ScrollTo(x, y) => SinkCall::ScrollTo(*x, *y),
            WebAction::GoBack => SinkCall::GoBack,
            WebAction::GoForward => SinkCall::GoForward,
            WebAction::OpenCommandBar(input) => SinkCall::OpenCommandBar(input@),
            WebAction::StartFindPrompt => SinkCall::StartFindPrompt,
            WebAction::Find(query, backwards) => SinkCall::Find(query@, *backwards),
            WebAction::HintsStart(action) => SinkCall::HintsStart(*action),
            WebAction::HintsUpdate(keys, action) => SinkCall::HintsUpdate(keys@, *action),
            WebAction::HintsCancel => SinkCall::HintsCancel,
            WebAction::CopySelection => SinkCall::CopySelection,
            WebAction::ClearSelection => SinkCall::ClearSelection,
            WebAction::StartVisualSelection => SinkCall::StartVisualSelection,
            WebAction::VisualMove(d, g) => SinkCall::VisualMove(*d, *g),
            WebAction::FocusInput => SinkCall::FocusInput,
            WebAction::BlurActiveElement => SinkCall::BlurActiveElement,
            WebAction::InsertText(text) => SinkCall::InsertText(text@),
            WebAction::DeleteBackward => SinkCall::DeleteBackward,
            WebAction::DeleteForward => SinkCall::DeleteForward,
            WebAction::InsertParagraph => SinkCall::InsertParagraph,
            WebAction::InsertTab => SinkCall::InsertTab,
            WebAction::CaretMove(d, g) => SinkCall::CaretMove(*d, *g),
            WebAction::ViewSource => SinkCall::ViewSource,
            WebAction::FollowRel(next) => SinkCall::FollowRel(*next),
            WebAction::CopyUrl => SinkCall::CopyUrl,
            WebAction::OpenClipboard(new_tab) => SinkCall::OpenClipboard(*new_tab),
            WebAction::UpUrl(root) => SinkCall::UpUrl(*root),
            WebAction::NewTab => SinkCall::NewTab,
            WebAction::CloseTab => SinkCall::CloseTab,
            WebAction::RestoreTab => SinkCall::RestoreTab,
            WebAction::SelectPreviousTab => SinkCall::SelectPreviousTab,
            WebAction::SelectNextTab => SinkCall::SelectNextTab,
            WebAction::SelectTabAtIndex(i) => SinkCall::SelectTabAtIndex(*i),
            WebAction::SelectLastTab => SinkCall::SelectLastTab,
            WebAction::Reload => SinkCall::Reload,
            WebAction::ShowHelp => SinkCall::ShowHelp,
            WebAction::HideHelp => SinkCall::HideHelp,
            WebAction::RequestMarkSet(name, url) => SinkCall::RequestMarkSet(*name, url@),
            WebAction::OpenUrl(url) => SinkCall::OpenUrl(url@),
            WebAction::PushError(message) => SinkCall::PushError(message@),
        }
    }
}

/// The sink calls that a list of actions stands for.
pub open spec fn calls_of(actions: Seq<WebAction>) -> Seq<SinkCall> {
    actions.map_values(|a: WebAction| a@)
}

/// The capability set through which the dispatcher acts on a page.
pub trait WebActions {
    fn scroll_by(&mut self, dx: i64, dy: i64);

    fn scroll_half_page(&mut self, down: bool);

    fn scroll_top(&mut self);

    fn scroll_bottom(&mut self);

    fn scroll_far_left(&mut self);

    fn scroll_far_right(&mut self);

    fn scroll_to(&mut self, x: i64, y: i64);

    fn go_back(&mut self);

    fn go_forward(&mut self);

    fn open_command_bar(&mut self, input: &str);

    fn start_find_prompt(&mut self);

    fn find(&mut self, query: &str, backwards: bool);

    fn hints_start(&mut self, action: WebHintAction);

    fn hints_update(&mut self, keys: &str, action: WebHintAction);

    fn hints_cancel(&mut self);

    fn copy_selection(&mut self);

    fn clear_selection(&mut self);

    fn start_visual_selection(&mut self);

    fn visual_move(&mut self, direction: &str, granularity: &str);

    fn focus_input(&mut self);

    fn blur_active_element(&mut self);

    fn insert_text(&mut self, text: &str);

    fn delete_backward(&mut self);

    fn delete_forward(&mut self);

    fn insert_paragraph(&mut self);

    fn insert_tab(&mut self);

    fn caret_move(&mut self, direction: &str, granularity: &str);

    fn view_source(&mut self);

    fn follow_rel(&mut self, rel: &str);

    fn copy_url(&mut self);

    fn open_clipboard(&mut self, new_tab: bool);

    fn up_url(&mut self, root: bool);

    fn new_tab(&mut self);

    fn close_tab(&mut self);

    fn restore_tab(&mut self);

    fn select_previous_tab(&mut self);

    fn select_next_tab(&mut self);

    fn select_tab_at_index(&mut self, index: usize);

    fn select_last_tab(&mut self);

    fn reload(&mut self);

    fn show_help(&mut self);

    fn hide_help(&mut self);

    fn request_mark_set(&mut self, name: char, url: String);

    fn current_url(&mut self) -> Option<String>;

    fn open_url(&mut self, url: String);

    fn push_error(&mut self, message: String);
}

struct WebHintState {
    action: WebHintAction,
    keys: String,
}

struct WebMark {
    url: String,
    scroll_x: i64,
    scroll_y: i64,
}

impl WebMark {
    closed spec fn spot(&self) -> Spot {
        Spot { url: self.url@, x: self.scroll_x, y: self.scroll_y }
    }

    fn duplicate(&self) -> (r: WebMark)
        ensures
            r.spot() == self.spot(),
    {
        WebMark { url: self.url.clone(), scroll_x: self.scroll_x, scroll_y: self.scroll_y }
    }
}

/// The state of one tab's dispatcher.
pub struct WebCommandState {
    mode: WebMode,
    pending: WebPending,
    hint: Option<WebHintState>,
    last_find: Option<String>,
    last_find_backward: bool,
    marks: HashMap<u32, WebMark>,
    pending_scroll: Option<WebMark>,
    help_visible: bool,
}

impl View for WebCommandState {
    type V = WebModel;

    closed spec fn view(&self) -> WebModel {
        WebModel {
            mode: self.mode,
            pending: self.pending,
            hint: match self.hint {
                Some(h) => Some((h.action, h.keys@)),
                None => None,
            },
            last_find: match self.last_find {
                Some(q) => Some(q@),
                None => None,
            },
            last_find_backward: self.last_find_backward,
            marks: self.marks@.map_values(|m: WebMark| m.spot()),
            pending_scroll: match self.pending_scroll {
                Some(p) => Some(p.spot()),
                None => None,
            },
            help_visible: self.help_visible,
        }
    }
}

/// The label of each mode, as the status line shows it.
pub open spec fn mode_label(m: WebMode) -> Seq<char> {
    match m {
        WebMode::Normal => "NORMAL"@,
        WebMode::Insert => "INSERT"@,
        WebMode::Visual => "VISUAL"@,
        WebMode::VisualLine => "VISUAL LINE"@,
        WebMode::Hint => "HINT"@,
        WebMode::MarkSet => "MARK SET"@,
        WebMode::MarkJump => "MARK JUMP"@,
    }
}

impl WebCommandState {
    /// The state's invariant, stated over its model.
    pub open spec fn wf(&self) -> bool {
        model_wf(self@)
    }

    fn set_mode(&mut self, mode: WebMode)
        ensures
            final(self)@ == with_mode(old(self)@, mode),
    {
        self.mode = mode;
        if mode != WebMode::Hint {
            self.hint = None;
        }
        if !(mode == WebMode::Hint || mode == WebMode::MarkSet || mode == WebMode::MarkJump) {
            self.pending = WebPending::Empty;
        }
    }

    /// Return to normal mode, as leaving the tab does.
    pub fn reset_mode(&mut self)
        requires
            old(self).wf(),
        ensures
            final(self)@ == with_mode(old(self)@, WebMode::Normal),
            final(self).wf(),
    {
        self.set_mode(WebMode::Normal);
    }

    pub fn mode(&self) -> (r: WebMode)
        ensures
            r == self@.mode,
    {
        self.mode
    }

    pub fn help_visible(&self) -> (r: bool)
        ensures
            r == self@.help_visible,
    {
        self.help_visible
    }

    pub fn has_pending_scroll(&self) -> (r: bool)
        ensures
            r == self@.pending_scroll is Some,
    {
        self.pending_scroll.is_some()
    }

    /// The status-line label of the current mode.
    pub fn status_label(&self) -> (r: &'static str)
        ensures
            r@ == mode_label(self@.mode),
    {
        match self.mode {
            WebMode::Normal => "NORMAL",
            WebMode::Insert => "INSERT",
            WebMode::Visual => "VISUAL",
            WebMode::VisualLine => "VISUAL LINE",
            WebMode::Hint => "HINT",
            WebMode::MarkSet => "MARK SET",
            WebMode::MarkJump => "MARK JUMP",
        }
    }

    /// Record mark `name` at `url` with the given scroll offset, replacing any
    /// earlier mark of that name.
    pub fn set_mark(&mut self, name: char, url: String, scroll_x: i64, scroll_y: i64)
        requires
            old(self).wf(),
        ensures
            final(self)@ == set_mark_step(old(self)@, name, url@, scroll_x, scroll_y),
            final(self).wf(),
    {
        let ghost before = self.marks@;
        let mark = WebMark { url, scroll_x, scroll_y };
        let ghost spot = mark.spot();
        self.marks.insert(name as u32, mark);
        assert(self.marks@.map_values(|m: WebMark| m.spot()) =~= before.map_values(
            |m: WebMark| m.spot(),
        ).insert(name as u32, spot));
    }

    /// Hand out the pending scroll offset if it was left for `url`; a pending
    /// offset for another URL stays.
    pub fn take_pending_scroll(&mut self, url: &str) -> (r: Option<(i64, i64)>)
        requires
            old(self).wf(),
        ensures
            (final(self)@, r) == take_pending_step(old(self)@, url@),
            final(self).wf(),
    {
        match self.pending_scroll.take() {
            None => None,
            Some(pending) => {
                let target = String::from_str(url);
                if pending.url == target {
                    Some((pending.scroll_x, pending.scroll_y))
                } else {
                    self.pending_scroll = Some(pending);
                    None
                }
            },
        }
    }
}

impl Default for WebCommandState {
    fn default() -> (r: Self)
        ensures
            r@ == initial_model(),
            r.wf(),
    {
        let r = WebCommandState {
            mode: WebMode::Normal,
            pending: WebPending::Empty,
            hint: None,
            last_find: None,
            last_find_backward: false,
            marks: HashMap::new(),
            pending_scroll: None,
            help_visible: false,
        };
        assert(r@.marks =~= Map::empty());
        r
    }
}

fn no_actions() -> (r: Vec<WebAction>)
    ensures
        calls_of(r@) == no_calls(),
{
    let r = Vec::new();
    assert(calls_of(r@) =~= no_calls());
    r
}

fn one_action(a: WebAction) -> (r: Vec<WebAction>)
    ensures
        calls_of(r@) == seq![a@],
{
    let mut r = Vec::new();
    r.push(a);
    assert(calls_of(r@) =~= seq![a@]);
    r
}

fn two_actions(a: WebAction, b: WebAction) -> (r: Vec<WebAction>)
    ensures
        calls_of(r@) == seq![a@, b@],
{
    let mut r = Vec::new();
    r.push(a);
    r.push(b);
    assert(calls_of(r@) =~= seq![a@, b@]);
    r
}

fn single_char(text: &str) -> (r: Option<char>)
    ensures
        r == single(text@),
{
    if text.unicode_len() == 1 {
        Some(text.get_char(0))
    } else {
        None
    }
}

fn lower_ascii(c: char) -> (r: char)
    ensures
        r == ascii_lower(c),
{
    if 'A' <= c && c <= 'Z' {
        ((c as u8) + 32) as char
    } else {
        c
    }
}

fn handle_escape(state: &mut WebCommandState) -> (r: Vec<WebAction>)
    ensures
        (final(state)@, calls_of(r@)) == escape_step(old(state)@),
{
    if state.help_visible {
        state.help_visible = false;
        return one_action(WebAction::HideHelp);
    }
    let r = match state.mode {
        WebMode::Hint => one_action(WebAction::HintsCancel),
        WebMode::Visual | WebMode::VisualLine => one_action(WebAction::ClearSelection),
        WebMode::Insert => one_action(WebAction::BlurActiveElement),
        _ => no_actions(),
    };
    state.set_mode(WebMode::Normal);
    r
}

fn handle_insert(state: &WebCommandState, key: WebKey, text: &str) -> (r: Vec<WebAction>)
    ensures
        (state@, calls_of(r@)) == insert_step(state@, key, text@),
{
    match key {
        WebKey::Backspace => one_action(WebAction::DeleteBackward),
        WebKey::Delete => one_action(WebAction::DeleteForward),
        WebKey::Enter => one_action(WebAction::InsertParagraph),
        WebKey::Tab => one_action(WebAction::InsertTab),
        WebKey::ArrowLeft => one_action(
            WebAction::CaretMove(WebDirection::Backward, WebGranularity::Character),
        ),
        WebKey::ArrowRight => one_action(
            WebAction::CaretMove(WebDirection::Forward, WebGranularity::Character),
        ),
        WebKey::ArrowUp => one_action(
            WebAction::CaretMove(WebDirection::Backward, WebGranularity::Line),
        ),
        WebKey::ArrowDown => one_action(
            WebAction::CaretMove(WebDirection::Forward, WebGranularity::Line),
        ),
        _ => if text.unicode_len() > 0 {
            one_action(WebAction::InsertText(String::from_str(text)))
        } else {
            no_actions()
        },
    }
}

fn handle_hint(state: &mut WebCommandState, key: WebKey, text: &str) -> (r: Vec<WebAction>)
    ensures
        (final(state)@, calls_of(r@)) == hint_step(old(state)@, key, text@),
{
    let ch = single_char(text);
    match &mut state.hint {
        None => {
            state.set_mode(WebMode::Normal);
            no_actions()
        },
        Some(hint) => {
            if key == WebKey::Backspace {
                pop_char(&mut hint.keys);
                one_action(WebAction::HintsUpdate(hint.keys.clone(), hint.action))
            } else if key == WebKey::Enter {
                one_action(WebAction::HintsUpdate(hint.keys.clone(), hint.action))
            } else {
                match ch {
                    None => no_actions(),
                    Some(c) => {
                        push_char(&mut hint.keys, lower_ascii(c));
                        one_action(WebAction::HintsUpdate(hint.keys.clone(), hint.action))
                    },
                }
            }
        },
    }
}

fn start_hints(state: &mut WebCommandState, action: WebHintAction) -> (r: Vec<WebAction>)
    ensures
        (final(state)@, calls_of(r@)) == start_hints_step(old(state)@, action),
{
    state.set_mode(WebMode::Hint);
    state.hint = Some(WebHintState { action, keys: String::new() });
    one_action(WebAction::HintsStart(action))
}

pub open spec fn url_view(url: Option<String>) -> Option<Seq<char>> {
    match url {
        Some(u) => Some(u@),
        None => None,
    }
}

fn handle_mark_set(state: &mut WebCommandState, text: &str, url: Option<String>) -> (r: Vec<
    WebAction,
>)
    ensures
        (final(state)@, calls_of(r@)) == mark_set_step(old(state)@, text@, url_view(url)),
{
    match single_char(text) {
        None => no_actions(),
        Some(name) => {
            state.set_mode(WebMode::Normal);
            match url {
                None => one_action(
                    WebAction::PushError(String::from_str("No active URL for mark")),
                ),
                Some(u) => one_action(WebAction::RequestMarkSet(name, u)),
            }
        },
    }
}

fn handle_mark_jump(state: &mut WebCommandState, text: &str, url: Option<String>) -> (r: Vec<
    WebAction,
>)
    ensures
        (final(state)@, calls_of(r@)) == mark_jump_step(old(state)@, text@, url_view(url)),
{
    match single_char(text) {
        None => no_actions(),
        Some(name) => {
            state.set_mode(WebMode::Normal);
            let key = name as u32;
            match state.marks.get(&key) {
                None => {
                    let mut message = String::from_str("Unknown mark: ");
                    push_char(&mut message, name);
                    one_action(WebAction::PushError(message))
                },
                Some(found) => {
                    let mark = found.duplicate();
                    let same_page = match url {
                        Some(u) => u == mark.url,
                        None => false,
                    };
                    if same_page {
                        one_action(WebAction::ScrollTo(mark.scroll_x, mark.scroll_y))
                    } else {
                        let target = mark.url.clone();
                        state.pending_scroll = Some(mark);
                        one_action(WebAction::OpenUrl(target))
                    }
                },
            }
        },
    }
}

fn toggle_visual(state: &mut WebCommandState, line_mode: bool) -> (r: Vec<WebAction>)
    ensures
        (final(state)@, calls_of(r@)) == toggle_visual_step(old(state)@, line_mode),
{
    let target = if line_mode {
        WebMode::VisualLine
    } else {
        WebMode::Visual
    };
    if state.mode == target {
        state.set_mode(WebMode::Normal);
        return one_action(WebAction::ClearSelection);
    }
    state.set_mode(target);
    one_action(WebAction::StartVisualSelection)
}

fn handle_visual(state: &mut WebCommandState, text: &str) -> (r: Vec<WebAction>)
    ensures
        (final(state)@, calls_of(r@)) == visual_step(old(state)@, text@),
{
    let horizontal = if state.mode == WebMode::VisualLine {
        WebGranularity::Line
    } else {
        WebGranularity::Character
    };
    match single_char(text) {
        None => no_actions(),
        Some(c) => {
            if c == 'y' {
                state.set_mode(WebMode::Normal);
                two_actions(WebAction::CopySelection, WebAction::ClearSelection)
            } else if c == 'v' {
                toggle_visual(state, false)
            } else if c == 'V' {
                toggle_visual(state, true)
            } else if c == 'h' {
                one_action(WebAction::VisualMove(WebDirection::Backward, horizontal))
            } else if c == 'l' {
                one_action(WebAction::VisualMove(WebDirection::Forward, horizontal))
            } else if c == 'k' {
                one_action(WebAction::VisualMove(WebDirection::Backward, WebGranularity::Line))
            } else if c == 'j' {
                one_action(WebAction::VisualMove(WebDirection::Forward, WebGranularity::Line))
            } else {
                no_actions()
            }
        },
    }
}

fn toggle_help(state: &mut WebCommandState) -> (r: Vec<WebAction>)
    ensures
        (final(state)@, calls_of(r@)) == toggle_help_step(old(state)@),
{
    if state.help_visible {
        state.help_visible = false;
        one_action(WebAction::HideHelp)
    } else {
        state.help_visible = true;
        one_action(WebAction::ShowHelp)
    }
}

fn find_next(state: &mut WebCommandState, backwards: bool) -> (r: Vec<WebAction>)
    ensures
        (final(state)@, calls_of(r@)) == find_next_step(old(state)@, backwards),
{
    match &state.last_find {
        None => one_action(WebAction::PushError(String::from_str("No active search"))),
        Some(query) => {
            let q = query.clone();
            state.last_find_backward = backwards;
            one_action(WebAction::Find(q, backwards))
        },
    }
}

fn command_bar(c: char) -> (r: Vec<WebAction>)
    ensures
        calls_of(r@) == seq![SinkCall::OpenCommandBar(seq![c, ' '])],
{
    let mut input = String::new();
    push_char(&mut input, c);
    push_char(&mut input, ' ');
    assert(input@ =~= seq![c, ' ']);
    one_action(WebAction::OpenCommandBar(input))
}

fn handle_base(state: &mut WebCommandState, c: char) -> (r: Vec<WebAction>)
    ensures
        (final(state)@, calls_of(r@)) == base_step(old(state)@, c),
{
    if c == 'j' {
        one_action(WebAction::ScrollBy(0, WEB_SCROLL_STEP))
    } else if c == 'k' {
        one_action(WebAction::ScrollBy(0, -WEB_SCROLL_STEP))
    } else if c == 'h' {
        one_action(WebAction::ScrollBy(-WEB_SCROLL_STEP, 0))
    } else if c == 'l' {
        one_action(WebAction::ScrollBy(WEB_SCROLL_STEP, 0))
    } else if c == 'd' {
        one_action(WebAction::ScrollHalfPage(true))
    } else if c == 'u' {
        one_action(WebAction::ScrollHalfPage(false))
    } else if c == 'G' {
        one_action(WebAction::ScrollBottom)
    } else if c == 'g' {
        state.pending = WebPending::G;
        no_actions()
    } else if c == 'z' {
        state.pending = WebPending::Z;
        no_actions()
    } else if c == 'y' {
        state.pending = WebPending::Y;
        no_actions()
    } else if c == '[' || c == ']' {
        state.pending = WebPending::Bracket(c);
        no_actions()
    } else if c == 'f' {
        start_hints(state, WebHintAction::Open)
    } else if c == 'F' {
        start_hints(state, WebHintAction::OpenNewTab)
    } else if c == 'H' {
        one_action(WebAction::GoBack)
    } else if c == 'L' {
        one_action(WebAction::GoForward)
    } else if c == '/' {
        one_action(WebAction::StartFindPrompt)
    } else if c == 'n' {
        find_next(state, false)
    } else if c == 'N' {
        find_next(state, true)
    } else if c == 'v' {
        toggle_visual(state, false)
    } else if c == 'V' {
        toggle_visual(state, true)
    } else if c == 'p' {
        one_action(WebAction::OpenClipboard(false))
    } else if c == 'P' {
        one_action(WebAction::OpenClipboard(true))
    } else if c == 't' {
        one_action(WebAction::NewTab)
    } else if c == 'x' {
        one_action(WebAction::CloseTab)
    } else if c == 'X' {
        one_action(WebAction::RestoreTab)
    } else if c == 'J' {
        one_action(WebAction::SelectPreviousTab)
    } else if c == 'K' {
        one_action(WebAction::SelectNextTab)
    } else if c == 'o' || c == 'O' || c == 'b' || c == 'B' || c == 'T' {
        command_bar(c)
    } else if c == 'r' {
        one_action(WebAction::Reload)
    } else if c == 'm' {
        state.set_mode(WebMode::MarkSet);
        no_actions()
    } else if c == '`' {
        state.set_mode(WebMode::MarkJump);
        no_actions()
    } else if c == '?' {
        toggle_help(state)
    } else {
        no_actions()
    }
}

/// Completes the pending prefix with `c` when `c` completes it; otherwise
/// leaves the state alone.
fn handle_prefix(state: &mut WebCommandState, c: char) -> (r: Option<Vec<WebAction>>)
    ensures
        match prefix_command(old(state)@, c) {
            Some(out) => r is Some && (final(state)@, calls_of(r->0@)) == out,
            None => r is None && final(state)@ == old(state)@,
        },
{
    let pending = state.pending;
    match pending {
        WebPending::Empty => None,
        WebPending::G => {
            if c == 'g' {
                state.pending = WebPending::Empty;
                Some(one_action(WebAction::ScrollTop))
            } else if c == '0' {
                state.pending = WebPending::Empty;
                Some(one_action(WebAction::SelectTabAtIndex(0)))
            } else if c == '$' {
                state.pending = WebPending::Empty;
                Some(one_action(WebAction::SelectLastTab))
            } else if c == 'u' {
                state.pending = WebPending::Empty;
                Some(one_action(WebAction::UpUrl(false)))
            } else if c == 'U' {
                state.pending = WebPending::Empty;
                Some(one_action(WebAction::UpUrl(true)))
            } else if c == 's' {
                state.pending = WebPending::Empty;
                Some(one_action(WebAction::ViewSource))
            } else if c == 'i' {
                state.pending = WebPending::Empty;
                state.set_mode(WebMode::Insert);
                Some(one_action(WebAction::FocusInput))
            } else {
                None
            }
        },
        WebPending::Z => {
            if c == 'h' || c == 'H' {
                state.pending = WebPending::Empty;
                Some(one_action(WebAction::ScrollFarLeft))
            } else if c == 'l' || c == 'L' {
                state.pending = WebPending::Empty;
                Some(one_action(WebAction::ScrollFarRight))
            } else {
                None
            }
        },
        WebPending::Y => {
            if c == 'y' {
                state.pending = WebPending::Empty;
                Some(one_action(WebAction::CopyUrl))
            } else if c == 'f' {
                state.pending = WebPending::Empty;
                Some(start_hints(state, WebHintAction::CopyLink))
            } else {
                None
            }
        },
        WebPending::Bracket(b) => {
            if b == c {
                state.pending = WebPending::Empty;
                Some(one_action(WebAction::FollowRel(b == ']')))
            } else {
                None
            }
        },
    }
}

fn handle_normal(state: &mut WebCommandState, text: &str) -> (r: Vec<WebAction>)
    ensures
        (final(state)@, calls_of(r@)) == normal_step(old(state)@, text@),
{
    match single_char(text) {
        None => no_actions(),
        Some(c) => match handle_prefix(state, c) {
            Some(r) => r,
            None => {
                state.pending = WebPending::Empty;
                handle_base(state, c)
            },
        },
    }
}

/// Whether handling this key asks the sink for the current URL.
fn wants_url(state: &WebCommandState, key: WebKey, text: &str) -> (r: bool)
    ensures
        r == needs_url(state@, key, text@),
{
    if key == WebKey::Escape {
        return false;
    }
    match single_char(text) {
        None => false,
        Some(name) => match state.mode {
            WebMode::MarkSet => true,
            WebMode::MarkJump => state.marks.contains_key(&(name as u32)),
            _ => false,
        },
    }
}

/// Decide what one key press does: the state moves to the next state of
/// `step`, and the returned actions are the sink calls of `step`, in order.
/// `current_url` is what the sink reports as the page's URL.
pub fn dispatch_key(
    state: &mut WebCommandState,
    key: WebKey,
    text: &str,
    current_url: Option<String>,
) -> (r: Vec<WebAction>)
    requires
        old(state).wf(),
    ensures
        (final(state)@, calls_of(r@)) == step(old(state)@, key, text@, url_view(current_url)),
        final(state).wf(),
{
    proof {
        lemma_step_keeps_wf(state@, key, text@, url_view(current_url));
    }
    if key == WebKey::Escape {
        return handle_escape(state);
    }
    match state.mode {
        WebMode::Insert => handle_insert(state, key, text),
        WebMode::Hint => handle_hint(state, key, text),
        WebMode::MarkSet => handle_mark_set(state, text, current_url),
        WebMode::MarkJump => handle_mark_jump(state, text, current_url),
        WebMode::Visual | WebMode::VisualLine => handle_visual(state, text),
        WebMode::Normal => handle_normal(state, text),
    }
}

fn direction_name(d: WebDirection) -> (r: &'static str)
    ensures
        r@ == (if d == WebDirection::Backward {
            "backward"@
        } else {
            "forward"@
        }),
{
    match d {
        WebDirection::Backward => "backward",
        WebDirection::Forward => "forward",
    }
}

fn granularity_name(g: WebGranularity) -> (r: &'static str)
    ensures
        r@ == (if g == WebGranularity::Character {
            "character"@
        } else {
            "line"@
        }),
{
    match g {
        WebGranularity::Character => "character",
        WebGranularity::Line => "line",
    }
}

/// Make the sink call that `action` stands for.
fn perform<A: WebActions>(actions: &mut A, action: WebAction) {
    match action {
        WebAction::ScrollBy(dx, dy) => actions.scroll_by(dx, dy),
        WebAction::ScrollHalfPage(down) => actions.scroll_half_page(down),
        WebAction::ScrollTop => actions.scroll_top(),
        WebAction::ScrollBottom => actions.scroll_bottom(),
        WebAction::ScrollFarLeft => actions.scroll_far_left(),
        WebAction::ScrollFarRight => actions.scroll_far_right(),
        WebAction::ScrollTo(x, y) => actions.scroll_to(x, y),
        WebAction::GoBack => actions.go_back(),
        WebAction::GoForward => actions.go_forward(),
        WebAction::OpenCommandBar(input) => actions.open_command_bar(input.as_str()),
        WebAction::StartFindPrompt => actions.start_find_prompt(),
        WebAction::Find(query, backwards) => actions.find(query.as_str(), backwards),
        WebAction::HintsStart(action) => actions.hints_start(action),
        WebAction::HintsUpdate(keys, action) => actions.hints_update(keys.as_str(), action),
        WebAction::HintsCancel => actions.hints_cancel(),
        WebAction::CopySelection => actions.copy_selection(),
        WebAction::ClearSelection => actions.clear_selection(),
        WebAction::StartVisualSelection => actions.start_visual_selection(),
        WebAction::VisualMove(d, g) => actions.visual_move(direction_name(d), granularity_name(g)),
        WebAction::FocusInput => actions.focus_input(),
        WebAction::BlurActiveElement => actions.blur_active_element(),
        WebAction::InsertText(text) => actions.insert_text(text.as_str()),
        WebAction::DeleteBackward => actions.delete_backward(),
        WebAction::DeleteForward => actions.delete_forward(),
        WebAction::InsertParagraph => actions.insert_paragraph(),
        WebAction::InsertTab => actions.insert_tab(),
        WebAction::CaretMove(d, g) => actions.caret_move(direction_name(d), granularity_name(g)),
        WebAction::ViewSource => actions.view_source(),
        WebAction::FollowRel(next) => actions.follow_rel(
            if next {
                "next"
            } else {
                "prev"
            },
        ),
        WebAction::CopyUrl => actions.copy_url(),
        WebAction::OpenClipboard(new_tab) => actions.open_clipboard(new_tab),
        WebAction::UpUrl(root) => actions.up_url(root),
        WebAction::NewTab => actions.new_tab(),
        WebAction::CloseTab => actions.close_tab(),
        WebAction::RestoreTab => actions.restore_tab(),
        WebAction::SelectPreviousTab => actions.select_previous_tab(),
        WebAction::SelectNextTab => actions.select_next_tab(),
        WebAction::SelectTabAtIndex(i) => actions.select_tab_at_index(i),
        WebAction::SelectLastTab => actions.select_last_tab(),
        WebAction::Reload => actions.reload(),
        WebAction::ShowHelp => actions.show_help(),
        WebAction::HideHelp => actions.hide_help(),
        WebAction::RequestMarkSet(name, url) => actions.request_mark_set(name, url),
        WebAction::OpenUrl(url) => actions.open_url(url),
        WebAction::PushError(message) => actions.push_error(message),
    }
}

/// Handle one key press against a live sink. The sink is asked for the
/// current URL only when the key needs it (naming a mark to set, or a known
/// mark to jump to); the state then moves as `step` says for the URL that
/// came back, and the calls of `step` are made on the sink in order. Every
/// key is claimed, so the result is always true.
pub fn handle_key<A: WebActions>(
    state: &mut WebCommandState,
    actions: &mut A,
    key: WebKey,
    text: &str,
) -> (r: bool)
    requires
        old(state).wf(),
    ensures
        r,
        final(state).wf(),
        exists|url: Option<Seq<char>>| final(state)@ == #[trigger] step(old(state)@, key, text@, url).0,
        !needs_url(old(state)@, key, text@) ==> final(state)@ == step(
            old(state)@,
            key,
            text@,
            None,
        ).0,
{
    let current_url = if wants_url(state, key, text) {
        actions.current_url()
    } else {
        None
    };
    let ghost reported = url_view(current_url);
    let mut calls = dispatch_key(state, key, text, current_url);
    assert(state@ == step(old(state)@, key, text@, reported).0);
    while calls.len() > 0
        invariant
            state@ == step(old(state)@, key, text@, reported).0,
            state.wf(),
        decreases calls.len(),
    {
        let action = calls.remove(0);
        perform(actions, action);
    }
    true
}

/// Search for `query` and remember it, with its direction, for `n` and `N`.
pub fn find<A: WebActions>(state: &mut WebCommandState, actions: &mut A, query: &str, backwards: bool)
    requires
        old(state).wf(),
    ensures
        final(state)@ == find_step(old(state)@, query@, backwards).0,
        final(state).wf(),
{
    actions.find(query, backwards);
    state.last_find = Some(String::from_str(query));
    state.last_find_backward = backwards;
}

} // verus!
