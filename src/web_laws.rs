//! Laws of the web command dispatcher, proved over its model.
use vstd::prelude::*;

use crate::web_model::{
    find_step, model_wf, set_mark_step, step, take_pending_step, with_mode, with_pending,
    SinkCall, Spot, WebHintAction, WebKey, WebMode, WebModel, WebPending, WEB_SCROLL_STEP,
};

verus! {

/// Every key press keeps the dispatcher's invariant: a hint filter exists
/// exactly in hint mode, and a pending bracket is `[` or `]`.
pub proof fn lemma_step_keeps_wf(s: WebModel, key: WebKey, text: Seq<char>, url: Option<Seq<char>>)
    requires
        model_wf(s),
    ensures
        model_wf(step(s, key, text, url).0),
{
}

/// Escape, with the help overlay hidden, ends in normal mode with no hint
/// filter and no pending prefix, whatever mode or prefix came before.
pub proof fn lemma_escape_resets(s: WebModel, text: Seq<char>, url: Option<Seq<char>>)
    requires
        model_wf(s),
        !s.help_visible,
    ensures
        step(s, WebKey::Escape, text, url).0.mode == WebMode::Normal,
        step(s, WebKey::Escape, text, url).0.hint is None,
        step(s, WebKey::Escape, text, url).0.pending == WebPending::Empty,
{
}

/// In normal mode `j`, `k`, `h` and `l` scroll by one step down, up, left and
/// right; only a pending `z` turns `h` and `l` into other commands.
pub proof fn lemma_scroll_keys(s: WebModel, key: WebKey, c: char, url: Option<Seq<char>>)
    requires
        model_wf(s),
        s.mode == WebMode::Normal,
        key != WebKey::Escape,
        c == 'j' || c == 'k' || c == 'h' || c == 'l',
        !(s.pending == WebPending::Z && (c == 'h' || c == 'l')),
    ensures
        c == 'j' ==> step(s, key, seq![c], url).1 == seq![SinkCall::ScrollBy(0, WEB_SCROLL_STEP)],
        c == 'k' ==> step(s, key, seq![c], url).1 == seq![
            SinkCall::ScrollBy(0, (-WEB_SCROLL_STEP) as i64),
        ],
        c == 'h' ==> step(s, key, seq![c], url).1 == seq![
            SinkCall::ScrollBy((-WEB_SCROLL_STEP) as i64, 0),
        ],
        c == 'l' ==> step(s, key, seq![c], url).1 == seq![SinkCall::ScrollBy(WEB_SCROLL_STEP, 0)],
{
}

/// A `g` that the next character does not complete is forgotten: `g` then
/// `x` does what `x` alone does.
pub proof fn lemma_abandoned_g_prefix(s: WebModel, x: char, url: Option<Seq<char>>)
    requires
        model_wf(s),
        s.mode == WebMode::Normal,
        s.pending == WebPending::Empty,
        x != 'g' && x != '0' && x != '$' && x != 'u' && x != 'U' && x != 's' && x != 'i',
    ensures
        step(s, WebKey::Other, seq!['g'], url).1 == Seq::<SinkCall>::empty(),
        step(step(s, WebKey::Other, seq!['g'], url).0, WebKey::Other, seq![x], url) == step(
            s,
            WebKey::Other,
            seq![x],
            url,
        ),
{
    assert(with_pending(with_pending(s, WebPending::G), WebPending::Empty) == s);
}

/// `f`, `a`, `b` start hints for opening a link and then announce the
/// filters "a" and "ab", staying in hint mode throughout.
pub proof fn lemma_hint_typing(s: WebModel, url: Option<Seq<char>>)
    requires
        model_wf(s),
        s.mode == WebMode::Normal,
        s.pending != WebPending::Y,
    ensures
        ({
            let (s1, c1) = step(s, WebKey::Other, seq!['f'], url);
            let (s2, c2) = step(s1, WebKey::Other, seq!['a'], url);
            let (s3, c3) = step(s2, WebKey::Other, seq!['b'], url);
            &&& c1 == seq![SinkCall::HintsStart(WebHintAction::Open)]
            &&& c2 == seq![SinkCall::HintsUpdate(seq!['a'], WebHintAction::Open)]
            &&& c3 == seq![SinkCall::HintsUpdate(seq!['a', 'b'], WebHintAction::Open)]
            &&& s1.mode == WebMode::Hint && s2.mode == WebMode::Hint && s3.mode == WebMode::Hint
        }),
{
    let (s1, c1) = step(s, WebKey::Other, seq!['f'], url);
    assert(Seq::<char>::empty().push('a') =~= seq!['a']);
    let (s2, c2) = step(s1, WebKey::Other, seq!['a'], url);
    assert(seq!['a'].push('b') =~= seq!['a', 'b']);
}

/// `n` with no earlier search reports "No active search" and searches for
/// nothing.
pub proof fn lemma_repeat_without_search(s: WebModel, url: Option<Seq<char>>)
    requires
        model_wf(s),
        s.mode == WebMode::Normal,
        s.last_find is None,
    ensures
        step(s, WebKey::Other, seq!['n'], url).1 == seq![SinkCall::PushError("No active search"@)],
{
}

/// After a search for `q`, `n` repeats it forwards and `N` backwards.
pub proof fn lemma_repeat_search(
    s: WebModel,
    q: Seq<char>,
    backwards: bool,
    url: Option<Seq<char>>,
)
    requires
        model_wf(s),
        s.mode == WebMode::Normal,
    ensures
        ({
            let s1 = find_step(s, q, backwards).0;
            let (s2, c2) = step(s1, WebKey::Other, seq!['n'], url);
            let (s3, c3) = step(s2, WebKey::Other, seq!['N'], url);
            &&& c2 == seq![SinkCall::Find(q, false)]
            &&& c3 == seq![SinkCall::Find(q, true)]
        }),
{
}

/// A mark set at `u1` and then jumped to scrolls straight to its offset when
/// the current page is `u1`; on any other page it opens `u1` and leaves the
/// offset pending for `u1`, where only a report of `u1` itself consumes it.
pub proof fn lemma_mark_round_trip(
    s: WebModel,
    name: char,
    u1: Seq<char>,
    x: i64,
    y: i64,
    current: Seq<char>,
    later: Seq<char>,
)
    requires
        model_wf(s),
        s.mode == WebMode::Normal,
    ensures
        ({
            let s1 = set_mark_step(s, name, u1, x, y);
            let s2 = step(s1, WebKey::Other, seq!['`'], None).0;
            let (s3, c3) = step(s2, WebKey::Other, seq![name], Some(current));
            &&& s2.mode == WebMode::MarkJump
            &&& s3.mode == WebMode::Normal
            &&& current == u1 ==> c3 == seq![SinkCall::ScrollTo(x, y)]
            &&& current != u1 ==> {
                &&& c3 == seq![SinkCall::OpenUrl(u1)]
                &&& s3.pending_scroll == Some(Spot { url: u1, x, y })
                &&& later != u1 ==> take_pending_step(s3, later) == (s3, None::<(i64, i64)>)
                &&& take_pending_step(s3, u1).1 == Some((x, y))
                &&& take_pending_step(s3, u1).0.pending_scroll is None
            }
        }),
{
    let s1 = set_mark_step(s, name, u1, x, y);
    assert(s1.marks.contains_key(name as u32));
}

/// `v` enters visual mode and starts a selection; then `y` copies and clears
/// it and returns to normal mode, while a second `v` only clears it and
/// returns to normal mode.
pub proof fn lemma_visual_toggle(s: WebModel, url: Option<Seq<char>>)
    requires
        model_wf(s),
        s.mode == WebMode::Normal,
    ensures
        ({
            let (s1, c1) = step(s, WebKey::Other, seq!['v'], url);
            let (yanked, cy) = step(s1, WebKey::Other, seq!['y'], url);
            let (toggled, cv) = step(s1, WebKey::Other, seq!['v'], url);
            &&& s1.mode == WebMode::Visual
            &&& c1 == seq![SinkCall::StartVisualSelection]
            &&& yanked.mode == WebMode::Normal
            &&& cy == seq![SinkCall::CopySelection, SinkCall::ClearSelection]
            &&& toggled.mode == WebMode::Normal
            &&& cv == seq![SinkCall::ClearSelection]
        }),
{
}

/// `?` shows the help overlay once; the next Escape only hides it, leaving
/// the mode and everything else as they were.
pub proof fn lemma_help_then_escape(s: WebModel, text: Seq<char>, url: Option<Seq<char>>)
    requires
        model_wf(s),
        s.mode == WebMode::Normal,
        !s.help_visible,
    ensures
        ({
            let (s1, c1) = step(s, WebKey::Other, seq!['?'], url);
            let (s2, c2) = step(s1, WebKey::Escape, text, url);
            &&& c1 == seq![SinkCall::ShowHelp]
            &&& s1.help_visible
            &&& c2 == seq![SinkCall::HideHelp]
            &&& s2 == WebModel { help_visible: false, ..s1 }
        }),
{
}

/// With the help overlay shown, Escape hides it and does nothing else, in
/// every mode.
pub proof fn lemma_escape_hides_help_first(s: WebModel, text: Seq<char>, url: Option<Seq<char>>)
    requires
        s.help_visible,
    ensures
        step(s, WebKey::Escape, text, url) == (
            WebModel { help_visible: false, ..s },
            seq![SinkCall::HideHelp],
        ),
{
}

} // verus!
