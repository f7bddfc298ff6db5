use tabor::web_commands::{dispatch_key, find, handle_key, WebAction, WebActions, WebCommandState};
use tabor::web_model::{WebDirection, WebGranularity, WebHintAction, WebKey, WebMode, WEB_SCROLL_STEP};

#[derive(Debug, Clone, PartialEq)]
enum ActionCall {
    ScrollBy(i64, i64),
    ScrollHalfPage(bool),
    ScrollTop,
    ScrollBottom,
    ScrollFarLeft,
    ScrollFarRight,
    ScrollTo(i64, i64),
    GoBack,
    GoForward,
    OpenCommandBar(String),
    StartFindPrompt,
    Find(String, bool),
    HintsStart(WebHintAction),
    HintsUpdate(String, WebHintAction),
    HintsCancel,
    CopySelection,
    ClearSelection,
    StartVisualSelection,
    VisualMove(String, String),
    FocusInput,
    BlurActiveElement,
    InsertText(String),
    DeleteBackward,
    DeleteForward,
    InsertParagraph,
    InsertTab,
    CaretMove(String, String),
    ViewSource,
    FollowRel(String),
    CopyUrl,
    OpenClipboard(bool),
    UpUrl(bool),
    NewTab,
    CloseTab,
    RestoreTab,
    SelectPreviousTab,
    SelectNextTab,
    SelectTabAtIndex(usize),
    SelectLastTab,
    Reload,
    ShowHelp,
    HideHelp,
    RequestMarkSet(char, String),
    OpenUrl(String),
    PushError(String),
}

#[derive(Default)]
struct MockActions {
    calls: Vec<ActionCall>,
    current_url: Option<String>,
    url_queries: usize,
}

impl MockActions {
    fn last_call(&self) -> Option<&ActionCall> {
        self.calls.last()
    }
}

impl WebActions for MockActions {
    fn scroll_by(&mut self, dx: i64, dy: i64) {
        self.calls.push(ActionCall::ScrollBy(dx, dy));
    }

    fn scroll_half_page(&mut self, down: bool) {
        self.calls.push(ActionCall::ScrollHalfPage(down));
    }

    fn scroll_top(&mut self) {
        self.calls.push(ActionCall::ScrollTop);
    }

    fn scroll_bottom(&mut self) {
        self.calls.push(ActionCall::ScrollBottom);
    }

    fn scroll_far_left(&mut self) {
        self.calls.push(ActionCall::ScrollFarLeft);
    }

    fn scroll_far_right(&mut self) {
        self.calls.push(ActionCall::ScrollFarRight);
    }

    fn scroll_to(&mut self, x: i64, y: i64) {
        self.calls.push(ActionCall::ScrollTo(x, y));
    }

    fn go_back(&mut self) {
        self.calls.push(ActionCall::GoBack);
    }

    fn go_forward(&mut self) {
        self.calls.push(ActionCall::GoForward);
    }

    fn open_command_bar(&mut self, input: &str) {
        self.calls.push(ActionCall::OpenCommandBar(input.to_string()));
    }

    fn start_find_prompt(&mut self) {
        self.calls.push(ActionCall::StartFindPrompt);
    }

    fn find(&mut self, query: &str, backwards: bool) {
        self.calls.push(ActionCall::Find(query.to_string(), backwards));
    }

    fn hints_start(&mut self, action: WebHintAction) {
        self.calls.push(ActionCall::HintsStart(action));
    }

    fn hints_update(&mut self, keys: &str, action: WebHintAction) {
        self.calls.push(ActionCall::HintsUpdate(keys.to_string(), action));
    }

    fn hints_cancel(&mut self) {
        self.calls.push(ActionCall::HintsCancel);
    }

    fn copy_selection(&mut self) {
        self.calls.push(ActionCall::CopySelection);
    }

    fn clear_selection(&mut self) {
        self.calls.push(ActionCall::ClearSelection);
    }

    fn start_visual_selection(&mut self) {
        self.calls.push(ActionCall::StartVisualSelection);
    }

    fn visual_move(&mut self, direction: &str, granularity: &str) {
        self.calls.push(ActionCall::VisualMove(direction.to_string(), granularity.to_string()));
    }

    fn focus_input(&mut self) {
        self.calls.push(ActionCall::FocusInput);
    }

    fn blur_active_element(&mut self) {
        self.calls.push(ActionCall::BlurActiveElement);
    }

    fn insert_text(&mut self, text: &str) {
        self.calls.push(ActionCall::InsertText(text.to_string()));
    }

    fn delete_backward(&mut self) {
        self.calls.push(ActionCall::DeleteBackward);
    }

    fn delete_forward(&mut self) {
        self.calls.push(ActionCall::DeleteForward);
    }

    fn insert_paragraph(&mut self) {
        self.calls.push(ActionCall::InsertParagraph);
    }

    fn insert_tab(&mut self) {
        self.calls.push(ActionCall::InsertTab);
    }

    fn caret_move(&mut self, direction: &str, granularity: &str) {
        self.calls.push(ActionCall::CaretMove(direction.to_string(), granularity.to_string()));
    }

    fn view_source(&mut self) {
        self.calls.push(ActionCall::ViewSource);
    }

    fn follow_rel(&mut self, rel: &str) {
        self.calls.push(ActionCall::FollowRel(rel.to_string()));
    }

    fn copy_url(&mut self) {
        self.calls.push(ActionCall::CopyUrl);
    }

    fn open_clipboard(&mut self, new_tab: bool) {
        self.calls.push(ActionCall::OpenClipboard(new_tab));
    }

    fn up_url(&mut self, root: bool) {
        self.calls.push(ActionCall::UpUrl(root));
    }

    fn new_tab(&mut self) {
        self.calls.push(ActionCall::NewTab);
    }

    fn close_tab(&mut self) {
        self.calls.push(ActionCall::CloseTab);
    }

    fn restore_tab(&mut self) {
        self.calls.push(ActionCall::RestoreTab);
    }

    fn select_previous_tab(&mut self) {
        self.calls.push(ActionCall::SelectPreviousTab);
    }

    fn select_next_tab(&mut self) {
        self.calls.push(ActionCall::SelectNextTab);
    }

    fn select_tab_at_index(&mut self, index: usize) {
        self.calls.push(ActionCall::SelectTabAtIndex(index));
    }

    fn select_last_tab(&mut self) {
        self.calls.push(ActionCall::SelectLastTab);
    }

    fn reload(&mut self) {
        self.calls.push(ActionCall::Reload);
    }

    fn show_help(&mut self) {
        self.calls.push(ActionCall::ShowHelp);
    }

    fn hide_help(&mut self) {
        self.calls.push(ActionCall::HideHelp);
    }

    fn request_mark_set(&mut self, name: char, url: String) {
        self.calls.push(ActionCall::RequestMarkSet(name, url));
    }

    fn current_url(&mut self) -> Option<String> {
        self.url_queries += 1;
        self.current_url.clone()
    }

    fn open_url(&mut self, url: String) {
        self.calls.push(ActionCall::OpenUrl(url));
    }

    fn push_error(&mut self, message: String) {
        self.calls.push(ActionCall::PushError(message));
    }
}

fn press(state: &mut WebCommandState, actions: &mut MockActions, ch: char) {
    let mut text = String::new();
    text.push(ch);
    assert!(handle_key(state, actions, WebKey::Other, &text));
}

fn press_key(state: &mut WebCommandState, actions: &mut MockActions, key: WebKey) {
    assert!(handle_key(state, actions, key, ""));
}

#[test]
fn navigation_commands() {
    let mut state = WebCommandState::default();
    let mut actions = MockActions::default();

    press(&mut state, &mut actions, 'j');
    assert_eq!(actions.last_call(), Some(&ActionCall::ScrollBy(0, WEB_SCROLL_STEP)));
    press(&mut state, &mut actions, 'k');
    assert_eq!(actions.last_call(), Some(&ActionCall::ScrollBy(0, -WEB_SCROLL_STEP)));
    press(&mut state, &mut actions, 'h');
    assert_eq!(actions.last_call(), Some(&ActionCall::ScrollBy(-WEB_SCROLL_STEP, 0)));
    press(&mut state, &mut actions, 'l');
    assert_eq!(actions.last_call(), Some(&ActionCall::ScrollBy(WEB_SCROLL_STEP, 0)));

    press(&mut state, &mut actions, 'd');
    assert_eq!(actions.last_call(), Some(&ActionCall::ScrollHalfPage(true)));
    press(&mut state, &mut actions, 'u');
    assert_eq!(actions.last_call(), Some(&ActionCall::ScrollHalfPage(false)));

    press(&mut state, &mut actions, 'G');
    assert_eq!(actions.last_call(), Some(&ActionCall::ScrollBottom));

    press(&mut state, &mut actions, 'g');
    press(&mut state, &mut actions, 'g');
    assert_eq!(actions.last_call(), Some(&ActionCall::ScrollTop));

    press(&mut state, &mut actions, 'z');
    press(&mut state, &mut actions, 'H');
    assert_eq!(actions.last_call(), Some(&ActionCall::ScrollFarLeft));
    press(&mut state, &mut actions, 'z');
    press(&mut state, &mut actions, 'L');
    assert_eq!(actions.last_call(), Some(&ActionCall::ScrollFarRight));
}

#[test]
fn link_and_input_commands() {
    let mut state = WebCommandState::default();
    let mut actions = MockActions::default();

    press(&mut state, &mut actions, 'f');
    assert_eq!(state.mode(), WebMode::Hint);
    assert_eq!(actions.last_call(), Some(&ActionCall::HintsStart(WebHintAction::Open)));

    state = WebCommandState::default();
    press(&mut state, &mut actions, 'F');
    assert_eq!(state.mode(), WebMode::Hint);
    assert_eq!(actions.last_call(), Some(&ActionCall::HintsStart(WebHintAction::OpenNewTab)));

    state = WebCommandState::default();
    press(&mut state, &mut actions, 'y');
    press(&mut state, &mut actions, 'f');
    assert_eq!(state.mode(), WebMode::Hint);
    assert_eq!(actions.last_call(), Some(&ActionCall::HintsStart(WebHintAction::CopyLink)));

    state = WebCommandState::default();
    press(&mut state, &mut actions, 'g');
    press(&mut state, &mut actions, 'i');
    assert_eq!(state.mode(), WebMode::Insert);
    assert_eq!(actions.last_call(), Some(&ActionCall::FocusInput));
}

#[test]
fn find_and_visual_commands() {
    let mut state = WebCommandState::default();
    let mut actions = MockActions::default();

    press(&mut state, &mut actions, '/');
    assert_eq!(actions.last_call(), Some(&ActionCall::StartFindPrompt));

    state = WebCommandState::default();
    press(&mut state, &mut actions, 'n');
    assert_eq!(
        actions.last_call(),
        Some(&ActionCall::PushError(String::from("No active search")))
    );

    state = WebCommandState::default();
    find(&mut state, &mut actions, "needle", false);
    press(&mut state, &mut actions, 'n');
    assert_eq!(actions.last_call(), Some(&ActionCall::Find(String::from("needle"), false)));
    press(&mut state, &mut actions, 'N');
    assert_eq!(actions.last_call(), Some(&ActionCall::Find(String::from("needle"), true)));

    state = WebCommandState::default();
    press(&mut state, &mut actions, 'v');
    assert_eq!(state.mode(), WebMode::Visual);
    assert_eq!(actions.last_call(), Some(&ActionCall::StartVisualSelection));
    press(&mut state, &mut actions, 'y');
    assert_eq!(state.mode(), WebMode::Normal);
    assert_eq!(actions.last_call(), Some(&ActionCall::ClearSelection));

    state = WebCommandState::default();
    press(&mut state, &mut actions, 'V');
    assert_eq!(state.mode(), WebMode::VisualLine);
    assert_eq!(actions.last_call(), Some(&ActionCall::StartVisualSelection));
}

#[test]
fn history_and_url_commands() {
    let mut state = WebCommandState::default();
    let mut actions = MockActions::default();

    press(&mut state, &mut actions, 'H');
    assert_eq!(actions.last_call(), Some(&ActionCall::GoBack));
    press(&mut state, &mut actions, 'L');
    assert_eq!(actions.last_call(), Some(&ActionCall::GoForward));

    press(&mut state, &mut actions, 'y');
    press(&mut state, &mut actions, 'y');
    assert_eq!(actions.last_call(), Some(&ActionCall::CopyUrl));

    press(&mut state, &mut actions, 'p');
    assert_eq!(actions.last_call(), Some(&ActionCall::OpenClipboard(false)));
    press(&mut state, &mut actions, 'P');
    assert_eq!(actions.last_call(), Some(&ActionCall::OpenClipboard(true)));

    press(&mut state, &mut actions, 'g');
    press(&mut state, &mut actions, 'u');
    assert_eq!(actions.last_call(), Some(&ActionCall::UpUrl(false)));
    press(&mut state, &mut actions, 'g');
    press(&mut state, &mut actions, 'U');
    assert_eq!(actions.last_call(), Some(&ActionCall::UpUrl(true)));
}

#[test]
fn tabs_and_omnibar_commands() {
    let mut state = WebCommandState::default();
    let mut actions = MockActions::default();

    press(&mut state, &mut actions, 't');
    assert_eq!(actions.last_call(), Some(&ActionCall::NewTab));
    press(&mut state, &mut actions, 'x');
    assert_eq!(actions.last_call(), Some(&ActionCall::CloseTab));
    press(&mut state, &mut actions, 'X');
    assert_eq!(actions.last_call(), Some(&ActionCall::RestoreTab));

    press(&mut state, &mut actions, 'J');
    assert_eq!(actions.last_call(), Some(&ActionCall::SelectPreviousTab));
    press(&mut state, &mut actions, 'K');
    assert_eq!(actions.last_call(), Some(&ActionCall::SelectNextTab));

    press(&mut state, &mut actions, 'g');
    press(&mut state, &mut actions, '0');
    assert_eq!(actions.last_call(), Some(&ActionCall::SelectTabAtIndex(0)));
    press(&mut state, &mut actions, 'g');
    press(&mut state, &mut actions, '$');
    assert_eq!(actions.last_call(), Some(&ActionCall::SelectLastTab));

    press(&mut state, &mut actions, 'o');
    assert_eq!(actions.last_call(), Some(&ActionCall::OpenCommandBar(String::from("o "))));
    press(&mut state, &mut actions, 'O');
    assert_eq!(actions.last_call(), Some(&ActionCall::OpenCommandBar(String::from("O "))));
    press(&mut state, &mut actions, 'b');
    assert_eq!(actions.last_call(), Some(&ActionCall::OpenCommandBar(String::from("b "))));
    press(&mut state, &mut actions, 'B');
    assert_eq!(actions.last_call(), Some(&ActionCall::OpenCommandBar(String::from("B "))));
    press(&mut state, &mut actions, 'T');
    assert_eq!(actions.last_call(), Some(&ActionCall::OpenCommandBar(String::from("T "))));
}

#[test]
fn misc_commands() {
    let mut state = WebCommandState::default();
    let mut actions = MockActions::default();

    press(&mut state, &mut actions, 'r');
    assert_eq!(actions.last_call(), Some(&ActionCall::Reload));

    press(&mut state, &mut actions, 'g');
    press(&mut state, &mut actions, 's');
    assert_eq!(actions.last_call(), Some(&ActionCall::ViewSource));

    press(&mut state, &mut actions, '[');
    press(&mut state, &mut actions, '[');
    assert_eq!(actions.last_call(), Some(&ActionCall::FollowRel(String::from("prev"))));
    press(&mut state, &mut actions, ']');
    press(&mut state, &mut actions, ']');
    assert_eq!(actions.last_call(), Some(&ActionCall::FollowRel(String::from("next"))));

    state = WebCommandState::default();
    actions.current_url = Some(String::from("https://example.com"));
    press(&mut state, &mut actions, 'm');
    press(&mut state, &mut actions, 'a');
    assert_eq!(
        actions.last_call(),
        Some(&ActionCall::RequestMarkSet('a', String::from("https://example.com")))
    );

    state = WebCommandState::default();
    state.set_mark('a', String::from("https://example.com"), 10, 20);
    actions.current_url = Some(String::from("https://example.com"));
    press(&mut state, &mut actions, '`');
    press(&mut state, &mut actions, 'a');
    assert_eq!(actions.last_call(), Some(&ActionCall::ScrollTo(10, 20)));

    state = WebCommandState::default();
    state.set_mark('a', String::from("https://example.com"), 1, 2);
    actions.current_url = Some(String::from("https://other.com"));
    press(&mut state, &mut actions, '`');
    press(&mut state, &mut actions, 'a');
    assert_eq!(
        actions.last_call(),
        Some(&ActionCall::OpenUrl(String::from("https://example.com")))
    );
    assert!(state.has_pending_scroll());

    state = WebCommandState::default();
    press(&mut state, &mut actions, '?');
    assert_eq!(actions.last_call(), Some(&ActionCall::ShowHelp));
    assert!(state.help_visible());
    press_key(&mut state, &mut actions, WebKey::Escape);
    assert_eq!(actions.last_call(), Some(&ActionCall::HideHelp));
    assert!(!state.help_visible());
}

fn type_text(state: &mut WebCommandState, actions: &mut MockActions, text: &str) {
    assert!(handle_key(state, actions, WebKey::Other, text));
}

#[test]
fn escape_returns_to_normal_from_every_mode() {
    let mut state = WebCommandState::default();
    let mut actions = MockActions::default();

    press(&mut state, &mut actions, 'g');
    press(&mut state, &mut actions, 'i');
    press_key(&mut state, &mut actions, WebKey::Escape);
    assert_eq!(state.mode(), WebMode::Normal);
    assert_eq!(actions.last_call(), Some(&ActionCall::BlurActiveElement));

    press(&mut state, &mut actions, 'f');
    press_key(&mut state, &mut actions, WebKey::Escape);
    assert_eq!(state.mode(), WebMode::Normal);
    assert_eq!(actions.last_call(), Some(&ActionCall::HintsCancel));

    press(&mut state, &mut actions, 'v');
    press_key(&mut state, &mut actions, WebKey::Escape);
    assert_eq!(state.mode(), WebMode::Normal);
    assert_eq!(actions.last_call(), Some(&ActionCall::ClearSelection));

    press(&mut state, &mut actions, 'V');
    press_key(&mut state, &mut actions, WebKey::Escape);
    assert_eq!(state.mode(), WebMode::Normal);
    assert_eq!(actions.last_call(), Some(&ActionCall::ClearSelection));

    let before = actions.calls.len();
    press(&mut state, &mut actions, 'm');
    press_key(&mut state, &mut actions, WebKey::Escape);
    assert_eq!(state.mode(), WebMode::Normal);
    press(&mut state, &mut actions, '`');
    press_key(&mut state, &mut actions, WebKey::Escape);
    assert_eq!(state.mode(), WebMode::Normal);
    assert_eq!(actions.calls.len(), before);

    // A pending prefix is dropped too: the next `g` only arms it again.
    press(&mut state, &mut actions, 'g');
    press_key(&mut state, &mut actions, WebKey::Escape);
    press(&mut state, &mut actions, 'g');
    assert_eq!(actions.calls.len(), before);
    press(&mut state, &mut actions, 'g');
    assert_eq!(actions.last_call(), Some(&ActionCall::ScrollTop));
}

#[test]
fn scroll_keys_after_other_prefixes() {
    let mut state = WebCommandState::default();
    let mut actions = MockActions::default();

    press(&mut state, &mut actions, '[');
    press(&mut state, &mut actions, 'j');
    assert_eq!(actions.calls, vec![ActionCall::ScrollBy(0, 48)]);
    press(&mut state, &mut actions, 'z');
    press(&mut state, &mut actions, 'k');
    assert_eq!(actions.last_call(), Some(&ActionCall::ScrollBy(0, -48)));
    press(&mut state, &mut actions, 'y');
    press(&mut state, &mut actions, 'l');
    assert_eq!(actions.last_call(), Some(&ActionCall::ScrollBy(48, 0)));
    assert_eq!(actions.calls.len(), 3);
}

#[test]
fn abandoned_prefix_runs_the_key_alone() {
    let mut state = WebCommandState::default();
    let mut actions = MockActions::default();

    press(&mut state, &mut actions, 'g');
    press(&mut state, &mut actions, 'h');
    assert_eq!(actions.calls, vec![ActionCall::ScrollBy(-48, 0)]);

    press(&mut state, &mut actions, 'g');
    press(&mut state, &mut actions, 'x');
    assert_eq!(actions.last_call(), Some(&ActionCall::CloseTab));
    press(&mut state, &mut actions, 'y');
    press(&mut state, &mut actions, 't');
    assert_eq!(actions.last_call(), Some(&ActionCall::NewTab));
    press(&mut state, &mut actions, 'z');
    press(&mut state, &mut actions, 'r');
    assert_eq!(actions.last_call(), Some(&ActionCall::Reload));

    // `[` then `]` abandons `[` and arms `]`.
    press(&mut state, &mut actions, '[');
    press(&mut state, &mut actions, ']');
    assert_eq!(actions.calls.len(), 4);
    press(&mut state, &mut actions, ']');
    assert_eq!(actions.last_call(), Some(&ActionCall::FollowRel(String::from("next"))));

    // An unknown key after a prefix does nothing and clears the prefix.
    press(&mut state, &mut actions, 'g');
    press(&mut state, &mut actions, 'q');
    press(&mut state, &mut actions, 's');
    assert_eq!(actions.calls.len(), 5);
}

#[test]
fn hint_filter_grows_and_shrinks() {
    let mut state = WebCommandState::default();
    let mut actions = MockActions::default();

    press(&mut state, &mut actions, 'f');
    assert_eq!(state.mode(), WebMode::Hint);
    press(&mut state, &mut actions, 'a');
    assert_eq!(state.mode(), WebMode::Hint);
    press(&mut state, &mut actions, 'b');
    assert_eq!(state.mode(), WebMode::Hint);
    assert_eq!(
        actions.calls,
        vec![
            ActionCall::HintsStart(WebHintAction::Open),
            ActionCall::HintsUpdate(String::from("a"), WebHintAction::Open),
            ActionCall::HintsUpdate(String::from("ab"), WebHintAction::Open),
        ]
    );

    press(&mut state, &mut actions, 'C');
    assert_eq!(
        actions.last_call(),
        Some(&ActionCall::HintsUpdate(String::from("abc"), WebHintAction::Open))
    );
    press_key(&mut state, &mut actions, WebKey::Backspace);
    assert_eq!(
        actions.last_call(),
        Some(&ActionCall::HintsUpdate(String::from("ab"), WebHintAction::Open))
    );
    press_key(&mut state, &mut actions, WebKey::Enter);
    assert_eq!(
        actions.last_call(),
        Some(&ActionCall::HintsUpdate(String::from("ab"), WebHintAction::Open))
    );
    let before = actions.calls.len();
    type_text(&mut state, &mut actions, "xy");
    assert_eq!(actions.calls.len(), before);
    press_key(&mut state, &mut actions, WebKey::Backspace);
    press_key(&mut state, &mut actions, WebKey::Backspace);
    press_key(&mut state, &mut actions, WebKey::Backspace);
    assert_eq!(
        actions.last_call(),
        Some(&ActionCall::HintsUpdate(String::new(), WebHintAction::Open))
    );
    press_key(&mut state, &mut actions, WebKey::Escape);
    assert_eq!(state.mode(), WebMode::Normal);
    assert_eq!(actions.last_call(), Some(&ActionCall::HintsCancel));
}

#[test]
fn repeat_search_needs_a_query() {
    let mut state = WebCommandState::default();
    let mut actions = MockActions::default();

    press(&mut state, &mut actions, 'n');
    press(&mut state, &mut actions, 'N');
    assert_eq!(
        actions.calls,
        vec![
            ActionCall::PushError(String::from("No active search")),
            ActionCall::PushError(String::from("No active search")),
        ]
    );

    find(&mut state, &mut actions, "needle", true);
    assert_eq!(actions.last_call(), Some(&ActionCall::Find(String::from("needle"), true)));
    press(&mut state, &mut actions, 'n');
    assert_eq!(actions.last_call(), Some(&ActionCall::Find(String::from("needle"), false)));
}

#[test]
fn mark_jump_scrolls_or_navigates() {
    let u1 = "https://one.example/page";
    let u2 = "https://two.example/";
    let mut state = WebCommandState::default();
    let mut actions = MockActions::default();
    state.set_mark('a', String::from(u1), 10, 20);

    actions.current_url = Some(String::from(u1));
    press(&mut state, &mut actions, '`');
    assert_eq!(state.mode(), WebMode::MarkJump);
    press(&mut state, &mut actions, 'a');
    assert_eq!(actions.calls, vec![ActionCall::ScrollTo(10, 20)]);
    assert_eq!(state.mode(), WebMode::Normal);
    assert!(!state.has_pending_scroll());

    actions.current_url = Some(String::from(u2));
    press(&mut state, &mut actions, '`');
    press(&mut state, &mut actions, 'a');
    assert_eq!(actions.last_call(), Some(&ActionCall::OpenUrl(String::from(u1))));
    assert!(state.has_pending_scroll());

    assert_eq!(state.take_pending_scroll(u2), None);
    assert!(state.has_pending_scroll());
    assert_eq!(state.take_pending_scroll(u1), Some((10, 20)));
    assert!(!state.has_pending_scroll());
    assert_eq!(state.take_pending_scroll(u1), None);

    // A later mark of the same name replaces the earlier one.
    state.set_mark('a', String::from(u2), 3, 4);
    press(&mut state, &mut actions, '`');
    press(&mut state, &mut actions, 'a');
    assert_eq!(actions.last_call(), Some(&ActionCall::ScrollTo(3, 4)));
}

#[test]
fn mark_errors() {
    let mut state = WebCommandState::default();
    let mut actions = MockActions::default();

    press(&mut state, &mut actions, '`');
    type_text(&mut state, &mut actions, "");
    type_text(&mut state, &mut actions, "ab");
    assert_eq!(state.mode(), WebMode::MarkJump);
    press(&mut state, &mut actions, 'q');
    assert_eq!(
        actions.calls,
        vec![ActionCall::PushError(String::from("Unknown mark: q"))]
    );
    assert_eq!(actions.url_queries, 0);

    press(&mut state, &mut actions, 'm');
    press(&mut state, &mut actions, 'b');
    assert_eq!(state.mode(), WebMode::Normal);
    assert_eq!(
        actions.last_call(),
        Some(&ActionCall::PushError(String::from("No active URL for mark")))
    );
    assert_eq!(actions.url_queries, 1);
}

#[test]
fn visual_toggles_and_moves() {
    let mut state = WebCommandState::default();
    let mut actions = MockActions::default();

    press(&mut state, &mut actions, 'v');
    press(&mut state, &mut actions, 'v');
    assert_eq!(state.mode(), WebMode::Normal);
    assert_eq!(
        actions.calls,
        vec![ActionCall::StartVisualSelection, ActionCall::ClearSelection]
    );

    press(&mut state, &mut actions, 'v');
    press(&mut state, &mut actions, 'y');
    assert_eq!(state.mode(), WebMode::Normal);
    assert_eq!(
        actions.calls[2..],
        [ActionCall::StartVisualSelection, ActionCall::CopySelection, ActionCall::ClearSelection]
    );

    let mv = |d: &str, g: &str| ActionCall::VisualMove(d.to_string(), g.to_string());
    press(&mut state, &mut actions, 'v');
    press(&mut state, &mut actions, 'h');
    assert_eq!(actions.last_call(), Some(&mv("backward", "character")));
    press(&mut state, &mut actions, 'l');
    assert_eq!(actions.last_call(), Some(&mv("forward", "character")));
    press(&mut state, &mut actions, 'j');
    assert_eq!(actions.last_call(), Some(&mv("forward", "line")));
    press(&mut state, &mut actions, 'V');
    assert_eq!(state.mode(), WebMode::VisualLine);
    assert_eq!(actions.last_call(), Some(&ActionCall::StartVisualSelection));
    press(&mut state, &mut actions, 'h');
    assert_eq!(actions.last_call(), Some(&mv("backward", "line")));
    press(&mut state, &mut actions, 'k');
    assert_eq!(actions.last_call(), Some(&mv("backward", "line")));
    press(&mut state, &mut actions, 'V');
    assert_eq!(state.mode(), WebMode::Normal);
    assert_eq!(actions.last_call(), Some(&ActionCall::ClearSelection));
}

#[test]
fn help_escape_skips_mode_cleanup() {
    let mut state = WebCommandState::default();
    let mut actions = MockActions::default();

    press(&mut state, &mut actions, '?');
    press(&mut state, &mut actions, 'v');
    assert_eq!(state.mode(), WebMode::Visual);
    press_key(&mut state, &mut actions, WebKey::Escape);
    assert_eq!(
        actions.calls,
        vec![ActionCall::ShowHelp, ActionCall::StartVisualSelection, ActionCall::HideHelp]
    );
    assert_eq!(state.mode(), WebMode::Visual);
    assert!(!state.help_visible());

    press_key(&mut state, &mut actions, WebKey::Escape);
    assert_eq!(actions.last_call(), Some(&ActionCall::ClearSelection));
    assert_eq!(state.mode(), WebMode::Normal);

    press(&mut state, &mut actions, '?');
    press(&mut state, &mut actions, '?');
    assert_eq!(actions.last_call(), Some(&ActionCall::HideHelp));
    assert!(!state.help_visible());
}

#[test]
fn insert_mode_edits() {
    let mut state = WebCommandState::default();
    let mut actions = MockActions::default();
    press(&mut state, &mut actions, 'g');
    press(&mut state, &mut actions, 'i');
    actions.calls.clear();

    let caret = |d: &str, g: &str| ActionCall::CaretMove(d.to_string(), g.to_string());
    press_key(&mut state, &mut actions, WebKey::Backspace);
    press_key(&mut state, &mut actions, WebKey::Delete);
    press_key(&mut state, &mut actions, WebKey::Enter);
    press_key(&mut state, &mut actions, WebKey::Tab);
    press_key(&mut state, &mut actions, WebKey::ArrowLeft);
    press_key(&mut state, &mut actions, WebKey::ArrowRight);
    press_key(&mut state, &mut actions, WebKey::ArrowUp);
    press_key(&mut state, &mut actions, WebKey::ArrowDown);
    type_text(&mut state, &mut actions, "");
    type_text(&mut state, &mut actions, "héllo");
    press(&mut state, &mut actions, 'j');
    assert_eq!(
        actions.calls,
        vec![
            ActionCall::DeleteBackward,
            ActionCall::DeleteForward,
            ActionCall::InsertParagraph,
            ActionCall::InsertTab,
            caret("backward", "character"),
            caret("forward", "character"),
            caret("backward", "line"),
            caret("forward", "line"),
            ActionCall::InsertText(String::from("héllo")),
            ActionCall::InsertText(String::from("j")),
        ]
    );
    assert_eq!(state.mode(), WebMode::Insert);
}

#[test]
fn normal_mode_ignores_longer_text() {
    let mut state = WebCommandState::default();
    let mut actions = MockActions::default();
    type_text(&mut state, &mut actions, "jj");
    type_text(&mut state, &mut actions, "");
    press(&mut state, &mut actions, 'Q');
    assert!(actions.calls.is_empty());
    assert_eq!(state.mode(), WebMode::Normal);
}

#[test]
fn status_labels() {
    let mut state = WebCommandState::default();
    let mut actions = MockActions::default();
    assert_eq!(state.status_label(), "NORMAL");
    press(&mut state, &mut actions, 'V');
    assert_eq!(state.status_label(), "VISUAL LINE");
    state.reset_mode();
    assert_eq!(state.status_label(), "NORMAL");
    press(&mut state, &mut actions, 'm');
    assert_eq!(state.status_label(), "MARK SET");
    press_key(&mut state, &mut actions, WebKey::Escape);
    press(&mut state, &mut actions, '`');
    assert_eq!(state.status_label(), "MARK JUMP");
    press_key(&mut state, &mut actions, WebKey::Escape);
    press(&mut state, &mut actions, 'F');
    assert_eq!(state.status_label(), "HINT");
}

#[test]
fn dispatch_returns_the_calls() {
    let mut state = WebCommandState::default();
    assert_eq!(dispatch_key(&mut state, WebKey::Other, "y", None), vec![]);
    assert_eq!(
        dispatch_key(&mut state, WebKey::Other, "f", None),
        vec![WebAction::HintsStart(WebHintAction::CopyLink)]
    );
    assert_eq!(
        dispatch_key(&mut state, WebKey::Escape, "", None),
        vec![WebAction::HintsCancel]
    );
    assert_eq!(
        dispatch_key(&mut state, WebKey::Other, "v", None),
        vec![WebAction::StartVisualSelection]
    );
    assert_eq!(
        dispatch_key(&mut state, WebKey::Other, "l", None),
        vec![WebAction::VisualMove(WebDirection::Forward, WebGranularity::Character)]
    );
    assert_eq!(
        dispatch_key(&mut state, WebKey::Other, "y", None),
        vec![WebAction::CopySelection, WebAction::ClearSelection]
    );
    assert_eq!(dispatch_key(&mut state, WebKey::Other, "m", None), vec![]);
    assert_eq!(
        dispatch_key(&mut state, WebKey::Other, "z", Some(String::from("about:blank"))),
        vec![WebAction::RequestMarkSet('z', String::from("about:blank"))]
    );
}
