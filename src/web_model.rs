//! The mathematical model of the web command dispatcher: its state, the calls
//! it makes on the action sink, and the transition function that every
//! executable operation is proved against.
use vstd::prelude::*;

verus! {

/// Distance, in pixels, of one `h`/`j`/`k`/`l` scroll.
pub const WEB_SCROLL_STEP: i64 = 48;

/// Classification of a pressed key; printable keys are `Other` and carry
/// their text separately.
#[derive(Clone, Copy, Debug, PartialEq, Eq, Structural)]
pub enum WebKey {
    Escape,
    Enter,
    Backspace,
    Delete,
    Tab,
    ArrowLeft,
    ArrowRight,
    ArrowUp,
    ArrowDown,
    Other,
}

/// The dispatcher's top-level mode.
#[derive(Clone, Copy, Debug, PartialEq, Eq, Structural)]
pub enum WebMode {
    Normal,
    Insert,
    Visual,
    VisualLine,
    Hint,
    MarkSet,
    MarkJump,
}

/// What following a hinted link does.
#[derive(Clone, Copy, Debug, PartialEq, Eq, Structural)]
pub enum WebHintAction {
    Open,
    OpenNewTab,
    CopyLink,
}

/// A partially typed two-key command of normal mode.
#[derive(Clone, Copy, Debug, PartialEq, Eq, Structural)]
pub enum WebPending {
    Empty,
    G,
    Z,
    Y,
    Bracket(char),
}

/// Direction of a caret or selection movement.
#[derive(Clone, Copy, Debug, PartialEq, Eq, Structural)]
pub enum WebDirection {
    Backward,
    Forward,
}

/// Unit of a caret or selection movement.
#[derive(Clone, Copy, Debug, PartialEq, Eq, Structural)]
pub enum WebGranularity {
    Character,
    Line,
}

/// A page location: the page's URL and a scroll offset on it.
pub struct Spot {
    pub url: Seq<char>,
    pub x: i64,
    pub y: i64,
}

/// The abstract state of a dispatcher.
pub struct WebModel {
    pub mode: WebMode,
    pub pending: WebPending,
    /// The hint action and the lower-cased label filter typed so far.
    pub hint: Option<(WebHintAction, Seq<char>)>,
    pub last_find: Option<Seq<char>>,
    pub last_find_backward: bool,
    /// Marks, keyed by the code point of their name.
    pub marks: Map<u32, Spot>,
    pub pending_scroll: Option<Spot>,
    pub help_visible: bool,
}

/// One call on the action sink, with its arguments.
pub enum SinkCall {
    ScrollBy(i64, i64),
    ScrollHalfPage(bool),
    ScrollTop,
    ScrollBottom,
    ScrollFarLeft,
    ScrollFarRight,
    ScrollTo(i64, i64),
    GoBack,
    GoForward,
    OpenCommandBar(Seq<char>),
    StartFindPrompt,
    Find(Seq<char>, bool),
    HintsStart(WebHintAction),
    HintsUpdate(Seq<char>, WebHintAction),
    HintsCancel,
    CopySelection,
    ClearSelection,
    StartVisualSelection,
    VisualMove(WebDirection, WebGranularity),
    FocusInput,
    BlurActiveElement,
    InsertText(Seq<char>),
    DeleteBackward,
    DeleteForward,
    InsertParagraph,
    InsertTab,
    CaretMove(WebDirection, WebGranularity),
    ViewSource,
    FollowRel(bool),
    CopyUrl,
    OpenClipboard(bool),
    UpUrl(bool),
    NewTab,
    CloseTab,
    RestoreTab,
    SelectPreviousTab,
    SelectNextTab,
    SelectTabAtIndex(usize),
    SelectLastTab,
    Reload,
    ShowHelp,
    HideHelp,
    RequestMarkSet(char, Seq<char>),
    OpenUrl(Seq<char>),
    PushError(Seq<char>),
}

/// A hint filter exists exactly in hint mode, and a pending bracket is one
/// of the two bracket characters.
pub open spec fn model_wf(s: WebModel) -> bool {
    &&& (s.hint is Some <==> s.mode == WebMode::Hint)
    &&& (s.pending matches WebPending::Bracket(b) ==> (b == '[' || b == ']'))
}

/// The state a dispatcher starts in.
pub open spec fn initial_model() -> WebModel {
    WebModel {
        mode: WebMode::Normal,
        pending: WebPending::Empty,
        hint: None,
        last_find: None,
        last_find_backward: false,
        marks: Map::empty(),
        pending_scroll: None,
        help_visible: false,
    }
}

/// The character of a text made of exactly one character.
pub open spec fn single(text: Seq<char>) -> Option<char> {
    if text.len() == 1 {
        Some(text[0])
    } else {
        None
    }
}

/// ASCII upper-case letters become lower-case; every other character stays.
pub open spec fn ascii_lower(c: char) -> char {
    if 'A' <= c && c <= 'Z' {
        ((c as u32) + 32) as char
    } else {
        c
    }
}

/// Changing mode drops the hint filter outside hint mode, and drops a
/// pending prefix outside hint and mark modes.
pub open spec fn with_mode(s: WebModel, m: WebMode) -> WebModel {
    WebModel {
        mode: m,
        hint: if m == WebMode::Hint {
            s.hint
        } else {
            None
        },
        pending: if m == WebMode::Hint || m == WebMode::MarkSet || m == WebMode::MarkJump {
            s.pending
        } else {
            WebPending::Empty
        },
        ..s
    }
}

pub open spec fn with_pending(s: WebModel, p: WebPending) -> WebModel {
    WebModel { pending: p, ..s }
}

pub open spec fn no_calls() -> Seq<SinkCall> {
    Seq::empty()
}

pub open spec fn mark_error(name: char) -> Seq<char> {
    "Unknown mark: "@.push(name)
}

/// Escape: hide the help overlay if it is shown; otherwise clean up after the
/// current mode and return to normal mode.
pub open spec fn escape_step(s: WebModel) -> (WebModel, Seq<SinkCall>) {
    if s.help_visible {
        (WebModel { help_visible: false, ..s }, seq![SinkCall::HideHelp])
    } else {
        let cleanup = match s.mode {
            WebMode::Hint => seq![SinkCall::HintsCancel],
            WebMode::Visual | WebMode::VisualLine => seq![SinkCall::ClearSelection],
            WebMode::Insert => seq![SinkCall::BlurActiveElement],
            _ => no_calls(),
        };
        (with_mode(s, WebMode::Normal), cleanup)
    }
}

/// Insert mode: control keys edit the focused field, text is typed into it.
pub open spec fn insert_step(s: WebModel, key: WebKey, text: Seq<char>) -> (
    WebModel,
    Seq<SinkCall>,
) {
    let calls = match key {
        WebKey::Backspace => seq![SinkCall::DeleteBackward],
        WebKey::Delete => seq![SinkCall::DeleteForward],
        WebKey::Enter => seq![SinkCall::InsertParagraph],
        WebKey::Tab => seq![SinkCall::InsertTab],
        WebKey::ArrowLeft => seq![
            SinkCall::CaretMove(WebDirection::Backward, WebGranularity::Character),
        ],
        WebKey::ArrowRight => seq![
            SinkCall::CaretMove(WebDirection::Forward, WebGranularity::Character),
        ],
        WebKey::ArrowUp => seq![SinkCall::CaretMove(WebDirection::Backward, WebGranularity::Line)],
        WebKey::ArrowDown => seq![SinkCall::CaretMove(WebDirection::Forward, WebGranularity::Line)],
        _ => if text.len() > 0 {
            seq![SinkCall::InsertText(text)]
        } else {
            no_calls()
        },
    };
    (s, calls)
}

/// Hint mode: typed characters extend the filter, Backspace shortens it,
/// Enter re-announces it; every change is announced to the sink.
pub open spec fn hint_step(s: WebModel, key: WebKey, text: Seq<char>) -> (
    WebModel,
    Seq<SinkCall>,
) {
    match s.hint {
        None => (with_mode(s, WebMode::Normal), no_calls()),
        Some((action, keys)) => {
            if key == WebKey::Backspace {
                let shorter = if keys.len() > 0 {
                    keys.drop_last()
                } else {
                    keys
                };
                (
                    WebModel { hint: Some((action, shorter)), ..s },
                    seq![SinkCall::HintsUpdate(shorter, action)],
                )
            } else if key == WebKey::Enter {
                (s, seq![SinkCall::HintsUpdate(keys, action)])
            } else {
                match single(text) {
                    None => (s, no_calls()),
                    Some(c) => {
                        let longer = keys.push(ascii_lower(c));
                        (
                            WebModel { hint: Some((action, longer)), ..s },
                            seq![SinkCall::HintsUpdate(longer, action)],
                        )
                    },
                }
            }
        },
    }
}

/// Enter hint mode with an empty filter.
pub open spec fn start_hints_step(s: WebModel, action: WebHintAction) -> (
    WebModel,
    Seq<SinkCall>,
) {
    (
        WebModel { hint: Some((action, Seq::empty())), ..with_mode(s, WebMode::Hint) },
        seq![SinkCall::HintsStart(action)],
    )
}

/// Mark-set mode: one character names a mark at the current URL.
pub open spec fn mark_set_step(s: WebModel, text: Seq<char>, url: Option<Seq<char>>) -> (
    WebModel,
    Seq<SinkCall>,
) {
    match single(text) {
        None => (s, no_calls()),
        Some(name) => {
            let n = with_mode(s, WebMode::Normal);
            match url {
                None => (n, seq![SinkCall::PushError("No active URL for mark"@)]),
                Some(u) => (n, seq![SinkCall::RequestMarkSet(name, u)]),
            }
        },
    }
}

/// Mark-jump mode: one character names the mark to go to; on the same page
/// it scrolls there, on another page it opens that page and leaves the
/// offset pending.
pub open spec fn mark_jump_step(s: WebModel, text: Seq<char>, url: Option<Seq<char>>) -> (
    WebModel,
    Seq<SinkCall>,
) {
    match single(text) {
        None => (s, no_calls()),
        Some(name) => {
            let n = with_mode(s, WebMode::Normal);
            if !s.marks.contains_key(name as u32) {
                (n, seq![SinkCall::PushError(mark_error(name))])
            } else {
                let m = s.marks[name as u32];
                if url == Some(m.url) {
                    (n, seq![SinkCall::ScrollTo(m.x, m.y)])
                } else {
                    (WebModel { pending_scroll: Some(m), ..n }, seq![SinkCall::OpenUrl(m.url)])
                }
            }
        },
    }
}

/// `v` or `V`: leave the visual mode that is already active, or enter it.
pub open spec fn toggle_visual_step(s: WebModel, line_mode: bool) -> (WebModel, Seq<SinkCall>) {
    let target = if line_mode {
        WebMode::VisualLine
    } else {
        WebMode::Visual
    };
    if s.mode == target {
        (with_mode(s, WebMode::Normal), seq![SinkCall::ClearSelection])
    } else {
        (with_mode(s, target), seq![SinkCall::StartVisualSelection])
    }
}

/// Visual modes: yank, toggle, or move the selection.
pub open spec fn visual_step(s: WebModel, text: Seq<char>) -> (WebModel, Seq<SinkCall>) {
    let horizontal = if s.mode == WebMode::VisualLine {
        WebGranularity::Line
    } else {
        WebGranularity::Character
    };
    match single(text) {
        None => (s, no_calls()),
        Some(c) => {
            if c == 'y' {
                (
                    with_mode(s, WebMode::Normal),
                    seq![SinkCall::CopySelection, SinkCall::ClearSelection],
                )
            } else if c == 'v' {
                toggle_visual_step(s, false)
            } else if c == 'V' {
                toggle_visual_step(s, true)
            } else if c == 'h' {
                (s, seq![SinkCall::VisualMove(WebDirection::Backward, horizontal)])
            } else if c == 'l' {
                (s, seq![SinkCall::VisualMove(WebDirection::Forward, horizontal)])
            } else if c == 'k' {
                (s, seq![SinkCall::VisualMove(WebDirection::Backward, WebGranularity::Line)])
            } else if c == 'j' {
                (s, seq![SinkCall::VisualMove(WebDirection::Forward, WebGranularity::Line)])
            } else {
                (s, no_calls())
            }
        },
    }
}

pub open spec fn toggle_help_step(s: WebModel) -> (WebModel, Seq<SinkCall>) {
    if s.help_visible {
        (WebModel { help_visible: false, ..s }, seq![SinkCall::HideHelp])
    } else {
        (WebModel { help_visible: true, ..s }, seq![SinkCall::ShowHelp])
    }
}

/// Repeat the last search in the given direction, which becomes the last
/// direction.
pub open spec fn find_next_step(s: WebModel, backwards: bool) -> (WebModel, Seq<SinkCall>) {
    match s.last_find {
        None => (s, seq![SinkCall::PushError("No active search"@)]),
        Some(q) => (
            WebModel { last_find_backward: backwards, ..s },
            seq![SinkCall::Find(q, backwards)],
        ),
    }
}

/// Start a search for `query` and remember it for `n` and `N`.
pub open spec fn find_step(s: WebModel, query: Seq<char>, backwards: bool) -> (
    WebModel,
    Seq<SinkCall>,
) {
    (
        WebModel { last_find: Some(query), last_find_backward: backwards, ..s },
        seq![SinkCall::Find(query, backwards)],
    )
}

/// The single-key commands of normal mode, with no prefix pending.
pub open spec fn base_step(s: WebModel, c: char) -> (WebModel, Seq<SinkCall>) {
    if c == 'j' {
        (s, seq![SinkCall::ScrollBy(0, WEB_SCROLL_STEP)])
    } else if c == 'k' {
        (s, seq![SinkCall::ScrollBy(0, (-WEB_SCROLL_STEP) as i64)])
    } else if c == 'h' {
        (s, seq![SinkCall::ScrollBy((-WEB_SCROLL_STEP) as i64, 0)])
    } else if c == 'l' {
        (s, seq![SinkCall::ScrollBy(WEB_SCROLL_STEP, 0)])
    } else if c == 'd' {
        (s, seq![SinkCall::ScrollHalfPage(true)])
    } else if c == 'u' {
        (s, seq![SinkCall::ScrollHalfPage(false)])
    } else if c == 'G' {
        (s, seq![SinkCall::ScrollBottom])
    } else if c == 'g' {
        (with_pending(s, WebPending::G), no_calls())
    } else if c == 'z' {
        (with_pending(s, WebPending::Z), no_calls())
    } else if c == 'y' {
        (with_pending(s, WebPending::Y), no_calls())
    } else if c == '[' || c == ']' {
        (with_pending(s, WebPending::Bracket(c)), no_calls())
    } else if c == 'f' {
        start_hints_step(s, WebHintAction::Open)
    } else if c == 'F' {
        start_hints_step(s, WebHintAction::OpenNewTab)
    } else if c == 'H' {
        (s, seq![SinkCall::GoBack])
    } else if c == 'L' {
        (s, seq![SinkCall::GoForward])
    } else if c == '/' {
        (s, seq![SinkCall::StartFindPrompt])
    } else if c == 'n' {
        find_next_step(s, false)
    } else if c == 'N' {
        find_next_step(s, true)
    } else if c == 'v' {
        toggle_visual_step(s, false)
    } else if c == 'V' {
        toggle_visual_step(s, true)
    } else if c == 'p' {
        (s, seq![SinkCall::OpenClipboard(false)])
    } else if c == 'P' {
        (s, seq![SinkCall::OpenClipboard(true)])
    } else if c == 't' {
        (s, seq![SinkCall::NewTab])
    } else if c == 'x' {
        (s, seq![SinkCall::CloseTab])
    } else if c == 'X' {
        (s, seq![SinkCall::RestoreTab])
    } else if c == 'J' {
        (s, seq![SinkCall::SelectPreviousTab])
    } else if c == 'K' {
        (s, seq![SinkCall::SelectNextTab])
    } else if c == 'o' || c == 'O' || c == 'b' || c == 'B' || c == 'T' {
        (s, seq![SinkCall::OpenCommandBar(seq![c, ' '])])
    } else if c == 'r' {
        (s, seq![SinkCall::Reload])
    } else if c == 'm' {
        (with_mode(s, WebMode::MarkSet), no_calls())
    } else if c == '`' {
        (with_mode(s, WebMode::MarkJump), no_calls())
    } else if c == '?' {
        toggle_help_step(s)
    } else {
        (s, no_calls())
    }
}

/// The second key after `g`, when it completes a command.
pub open spec fn g_command(s: WebModel, c: char) -> Option<(WebModel, Seq<SinkCall>)> {
    if c == 'g' {
        Some((s, seq![SinkCall::ScrollTop]))
    } else if c == '0' {
        Some((s, seq![SinkCall::SelectTabAtIndex(0)]))
    } else if c == '$' {
        Some((s, seq![SinkCall::SelectLastTab]))
    } else if c == 'u' {
        Some((s, seq![SinkCall::UpUrl(false)]))
    } else if c == 'U' {
        Some((s, seq![SinkCall::UpUrl(true)]))
    } else if c == 's' {
        Some((s, seq![SinkCall::ViewSource]))
    } else if c == 'i' {
        Some((with_mode(s, WebMode::Insert), seq![SinkCall::FocusInput]))
    } else {
        None
    }
}

/// The second key after `z`, when it completes a command.
pub open spec fn z_command(s: WebModel, c: char) -> Option<(WebModel, Seq<SinkCall>)> {
    if c == 'h' || c == 'H' {
        Some((s, seq![SinkCall::ScrollFarLeft]))
    } else if c == 'l' || c == 'L' {
        Some((s, seq![SinkCall::ScrollFarRight]))
    } else {
        None
    }
}

/// The second key after `y`, when it completes a command.
pub open spec fn y_command(s: WebModel, c: char) -> Option<(WebModel, Seq<SinkCall>)> {
    if c == 'y' {
        Some((s, seq![SinkCall::CopyUrl]))
    } else if c == 'f' {
        Some(start_hints_step(s, WebHintAction::CopyLink))
    } else {
        None
    }
}

/// The completion of a pending prefix by `c`, if `c` completes it.
pub open spec fn prefix_command(s: WebModel, c: char) -> Option<(WebModel, Seq<SinkCall>)> {
    let cleared = with_pending(s, WebPending::Empty);
    match s.pending {
        WebPending::Empty => None,
        WebPending::G => g_command(cleared, c),
        WebPending::Z => z_command(cleared, c),
        WebPending::Y => y_command(cleared, c),
        WebPending::Bracket(b) => if b == c {
            Some((cleared, seq![SinkCall::FollowRel(b == ']')]))
        } else {
            None
        },
    }
}

/// Normal mode: a character that completes the pending prefix runs that
/// command; any other character abandons the prefix and runs its own
/// single-key command.
pub open spec fn normal_step(s: WebModel, text: Seq<char>) -> (WebModel, Seq<SinkCall>) {
    match single(text) {
        None => (s, no_calls()),
        Some(c) => match prefix_command(s, c) {
            Some(r) => r,
            None => base_step(with_pending(s, WebPending::Empty), c),
        },
    }
}

/// Whether handling this key asks the sink for the current URL.
pub open spec fn needs_url(s: WebModel, key: WebKey, text: Seq<char>) -> bool {
    &&& key != WebKey::Escape
    &&& single(text) is Some
    &&& (s.mode == WebMode::MarkSet || (s.mode == WebMode::MarkJump && s.marks.contains_key(
        single(text)->0 as u32,
    )))
}

/// One key press: the next state and the calls made on the sink, in order.
/// `url` is what the sink reports as the current URL, when it is asked.
pub open spec fn step(s: WebModel, key: WebKey, text: Seq<char>, url: Option<Seq<char>>) -> (
    WebModel,
    Seq<SinkCall>,
) {
    if key == WebKey::Escape {
        escape_step(s)
    } else {
        match s.mode {
            WebMode::Insert => insert_step(s, key, text),
            WebMode::Hint => hint_step(s, key, text),
            WebMode::MarkSet => mark_set_step(s, text, url),
            WebMode::MarkJump => mark_jump_step(s, text, url),
            WebMode::Visual | WebMode::VisualLine => visual_step(s, text),
            WebMode::Normal => normal_step(s, text),
        }
    }
}

/// Record mark `name`; a mark of the same name is replaced.
pub open spec fn set_mark_step(s: WebModel, name: char, url: Seq<char>, x: i64, y: i64) -> WebModel {
    WebModel { marks: s.marks.insert(name as u32, Spot { url, x, y }), ..s }
}

/// Consume the pending scroll offset when it was left for `url`; a pending
/// offset for any other URL stays where it is.
pub open spec fn take_pending_step(s: WebModel, url: Seq<char>) -> (WebModel, Option<(i64, i64)>) {
    match s.pending_scroll {
        Some(p) => if p.url == url {
            (WebModel { pending_scroll: None, ..s }, Some((p.x, p.y)))
        } else {
            (s, None)
        },
        None => (s, None),
    }
}

} // verus!
