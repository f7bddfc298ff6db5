//! Values exchanged between the tab panel and the tab manager.
use vstd::prelude::*;

use crate::tabs::TabId;
use crate::text::push_char;
use crate::window_kind::TabKind;

verus! {

/// One tab as the panel lists it.
#[derive(Clone, Debug, PartialEq, Eq)]
pub struct TabPanelTab {
    pub tab_id: TabId,
    pub title: String,
    pub is_active: bool,
    pub kind: TabKind,
}

/// A named group of tabs, in display order.
#[derive(Clone, Debug, PartialEq, Eq)]
pub struct TabPanelGroup {
    pub id: usize,
    pub label: String,
    pub tabs: Vec<TabPanelTab>,
}

/// What a click or a drag in the panel asks the tab manager to do.
#[derive(Clone, Debug)]
pub enum TabPanelCommand {
    Focus(TabId),
    Move { tab_id: TabId, target_group: Option<usize> },
}

/// The item whose name is being edited in the panel.
#[derive(Clone, Copy, Debug, PartialEq, Eq, Structural)]
pub enum TabPanelEditTarget {
    Tab(TabId),
    Group(usize),
}

/// A finished edit: the item and its new name.
#[derive(Clone, Debug, PartialEq, Eq)]
pub struct TabPanelEditCommit {
    pub target: TabPanelEditTarget,
    pub text: String,
}

/// The result of a key press while a name is being edited.
#[derive(Clone, Debug, PartialEq, Eq)]
pub enum TabPanelEditOutcome {
    Unchanged,
    Changed,
    Commit(TabPanelEditCommit),
    Cancelled,
}

/// The result of a mouse event on the panel.
#[derive(Clone, Debug)]
pub struct TabPanelMouseUpdate {
    pub capture: bool,
    pub needs_redraw: bool,
    pub command: Option<TabPanelCommand>,
}

impl Default for TabPanelMouseUpdate {
    fn default() -> (r: Self)
        ensures
            !r.capture,
            !r.needs_redraw,
            r.command is None,
    {
        TabPanelMouseUpdate { capture: false, needs_redraw: false, command: None }
    }
}

/// Control characters (general category `Cc`), as `char::is_control` knows them.
pub open spec fn is_control(c: char) -> bool {
    (c as u32) <= 0x1f || (0x7f <= (c as u32) && (c as u32) <= 0x9f)
}

/// `s` without its control characters.
pub open spec fn printable(s: Seq<char>) -> Seq<char>
    decreases s.len(),
{
    if s.len() == 0 {
        s
    } else if is_control(s.last()) {
        printable(s.drop_last())
    } else {
        printable(s.drop_last()).push(s.last())
    }
}

/// The model of a name being edited: its text and the caret's position in
/// characters.
pub struct EditModel {
    pub target: TabPanelEditTarget,
    pub text: Seq<char>,
    pub cursor: nat,
}

/// The text with `|` drawn at the caret.
pub open spec fn rendered(text: Seq<char>, cursor: nat) -> Seq<char> {
    let c = if cursor <= text.len() {
        cursor as int
    } else {
        text.len() as int
    };
    text.subrange(0, c) + seq!['|'] + text.subrange(c, text.len() as int)
}

/// The name of a tab or a group while the user edits it in the panel.
#[derive(Debug)]
pub struct EditState {
    target: TabPanelEditTarget,
    text: String,
    cursor: usize,
}

/// A key as the name editor tells keys apart; printable keys are `Other`
/// and carry their text separately.
#[derive(Clone, Copy, Debug, PartialEq, Eq, Structural)]
pub enum EditKey {
    Escape,
    Enter,
    Backspace,
    Delete,
    ArrowLeft,
    ArrowRight,
    Home,
    End,
    Tab,
    Other,
}

impl View for EditState {
    type V = EditModel;

    closed spec fn view(&self) -> EditModel {
        EditModel { target: self.target, text: self.text@, cursor: self.cursor as nat }
    }
}

fn printable_text(text: &str) -> (r: String)
    ensures
        r@ == printable(text@),
{
    let n = text.unicode_len();
    let mut out = String::new();
    let mut k: usize = 0;
    assert(text@.subrange(0, 0) =~= Seq::<char>::empty());
    while k < n
        invariant
            n == text@.len(),
            0 <= k <= n,
            out@ == printable(text@.subrange(0, k as int)),
        decreases n - k,
    {
        let c = text.get_char(k);
        assert(text@.subrange(0, k + 1).drop_last() =~= text@.subrange(0, k as int));
        let code = c as u32;
        if !(code <= 0x1f || (0x7f <= code && code <= 0x9f)) {
            push_char(&mut out, c);
        }
        k = k + 1;
    }
    assert(text@.subrange(0, n as int) =~= text@);
    out
}

impl EditState {
    /// The caret is never past the end of the text.
    pub open spec fn wf(&self) -> bool {
        self@.cursor <= self@.text.len()
    }

    /// Start editing `text`, with the caret at its end.
    pub fn new(target: TabPanelEditTarget, text: String) -> (r: Self)
        ensures
            r@ == (EditModel { target, text: text@, cursor: text@.len() }),
            r.wf(),
    {
        let cursor = text.as_str().unicode_len();
        EditState { target, text, cursor }
    }

    pub fn target(&self) -> (r: TabPanelEditTarget)
        ensures
            r == self@.target,
    {
        self.target
    }

    pub fn text(&self) -> (r: &str)
        ensures
            r@ == self@.text,
    {
        self.text.as_str()
    }

    pub fn cursor(&self) -> (r: usize)
        ensures
            r == self@.cursor,
    {
        self.cursor
    }

    /// Move the caret one character left; false when it is at the start.
    pub fn move_left(&mut self) -> (r: bool)
        requires
            old(self).wf(),
        ensures
            r == (old(self)@.cursor > 0),
            final(self)@ == (if r {
                (EditModel { cursor: (old(self)@.cursor - 1) as nat, ..old(self)@ })
            } else {
                old(self)@
            }),
            final(self).wf(),
    {
        if self.cursor == 0 {
            return false;
        }
        self.cursor = self.cursor - 1;
        true
    }

    /// Move the caret one character right; false when it is at the end.
    pub fn move_right(&mut self) -> (r: bool)
        requires
            old(self).wf(),
        ensures
            r == (old(self)@.cursor < old(self)@.text.len()),
            final(self)@ == (if r {
                (EditModel { cursor: old(self)@.cursor + 1, ..old(self)@ })
            } else {
                old(self)@
            }),
            final(self).wf(),
    {
        let len = self.text.as_str().unicode_len();
        if self.cursor >= len {
            return false;
        }
        self.cursor = self.cursor + 1;
        true
    }

    /// Move the caret to the start; false when it is there already.
    pub fn move_home(&mut self) -> (r: bool)
        requires
            old(self).wf(),
        ensures
            r == (old(self)@.cursor != 0),
            final(self)@ == (EditModel { cursor: 0, ..old(self)@ }),
            final(self).wf(),
    {
        if self.cursor == 0 {
            return false;
        }
        self.cursor = 0;
        true
    }

    /// Move the caret to the end; false when it is there already.
    pub fn move_end(&mut self) -> (r: bool)
        requires
            old(self).wf(),
        ensures
            r == (old(self)@.cursor != old(self)@.text.len()),
            final(self)@ == (EditModel { cursor: old(self)@.text.len(), ..old(self)@ }),
            final(self).wf(),
    {
        let len = self.text.as_str().unicode_len();
        if self.cursor == len {
            return false;
        }
        self.cursor = len;
        true
    }

    /// Delete the character before the caret; false when there is none.
    pub fn backspace(&mut self) -> (r: bool)
        requires
            old(self).wf(),
        ensures
            r == (old(self)@.cursor > 0),
            r ==> final(self)@ == (EditModel {
                text: old(self)@.text.remove(old(self)@.cursor - 1),
                cursor: (old(self)@.cursor - 1) as nat,
                ..old(self)@
            }),
            !r ==> final(self)@ == old(self)@,
            final(self).wf(),
    {
        if self.cursor == 0 {
            return false;
        }
        let len = self.text.as_str().unicode_len();
        let c = self.cursor;
        let mut next = String::from_str(self.text.as_str().substring_char(0, c - 1));
        next.append(self.text.as_str().substring_char(c, len));
        assert(next@ =~= self.text@.remove(c - 1));
        self.text = next;
        self.cursor = c - 1;
        true
    }

    /// Delete the character after the caret; false when there is none.
    pub fn delete(&mut self) -> (r: bool)
        requires
            old(self).wf(),
        ensures
            r == (old(self)@.cursor < old(self)@.text.len()),
            r ==> final(self)@ == (EditModel {
                text: old(self)@.text.remove(old(self)@.cursor as int),
                ..old(self)@
            }),
            !r ==> final(self)@ == old(self)@,
            final(self).wf(),
    {
        let len = self.text.as_str().unicode_len();
        let c = self.cursor;
        if c >= len {
            return false;
        }
        let mut next = String::from_str(self.text.as_str().substring_char(0, c));
        next.append(self.text.as_str().substring_char(c + 1, len));
        assert(next@ =~= self.text@.remove(c as int));
        self.text = next;
        true
    }

    /// Insert the printable characters of `text` at the caret and move the
    /// caret past them; false when `text` has none.
    pub fn insert_text(&mut self, text: &str) -> (r: bool)
        requires
            old(self).wf(),
        ensures
            r == (printable(text@).len() > 0),
            r ==> final(self)@ == (EditModel {
                text: old(self)@.text.subrange(0, old(self)@.cursor as int) + printable(text@)
                    + old(self)@.text.subrange(
                    old(self)@.cursor as int,
                    old(self)@.text.len() as int,
                ),
                cursor: old(self)@.cursor + printable(text@).len(),
                ..old(self)@
            }),
            !r ==> final(self)@ == old(self)@,
            final(self).wf(),
    {
        let filtered = printable_text(text);
        let added = filtered.as_str().unicode_len();
        if added == 0 {
            return false;
        }
        let len = self.text.as_str().unicode_len();
        let c = self.cursor;
        let mut next = String::from_str(self.text.as_str().substring_char(0, c));
        next.append(filtered.as_str());
        next.append(self.text.as_str().substring_char(c, len));
        let total = next.as_str().unicode_len();
        self.text = next;
        self.cursor = total - (len - c);
        true
    }

    /// The text with `|` drawn at the caret.
    pub fn render(&self) -> (r: String)
        requires
            self.wf(),
        ensures
            r@ == rendered(self@.text, self@.cursor),
    {
        let len = self.text.as_str().unicode_len();
        let mut out = String::from_str(self.text.as_str().substring_char(0, self.cursor));
        out.append("|");
        out.append(self.text.as_str().substring_char(self.cursor, len));
        proof {
            reveal_strlit("|");
        }
        assert(out@ =~= rendered(self@.text, self@.cursor));
        out
    }

    /// The finished edit.
    pub fn into_commit(self) -> (r: TabPanelEditCommit)
        ensures
            r.target == self@.target,
            r.text@ == self@.text,
    {
        TabPanelEditCommit { target: self.target, text: self.text }
    }
}

/// The edit after a key that moves the caret or deletes a character, when
/// the key has that effect here.
pub open spec fn motion(m: EditModel, key: EditKey) -> Option<EditModel> {
    let len = m.text.len();
    match key {
        EditKey::Backspace => if m.cursor > 0 {
            Some(
                EditModel { text: m.text.remove(m.cursor - 1), cursor: (m.cursor - 1) as nat, ..m },
            )
        } else {
            None
        },
        EditKey::Delete => if m.cursor < len {
            Some(EditModel { text: m.text.remove(m.cursor as int), ..m })
        } else {
            None
        },
        EditKey::ArrowLeft => if m.cursor > 0 {
            Some(EditModel { cursor: (m.cursor - 1) as nat, ..m })
        } else {
            None
        },
        EditKey::ArrowRight => if m.cursor < len {
            Some(EditModel { cursor: m.cursor + 1, ..m })
        } else {
            None
        },
        EditKey::Home => if m.cursor != 0 {
            Some(EditModel { cursor: 0, ..m })
        } else {
            None
        },
        EditKey::End => if m.cursor != len {
            Some(EditModel { cursor: len, ..m })
        } else {
            None
        },
        _ => None,
    }
}

/// The edit after typing `text` at the caret.
pub open spec fn inserted(m: EditModel, text: Seq<char>) -> EditModel {
    EditModel {
        text: m.text.subrange(0, m.cursor as int) + printable(text) + m.text.subrange(
            m.cursor as int,
            m.text.len() as int,
        ),
        cursor: m.cursor + printable(text).len(),
        ..m
    }
}

pub open spec fn edit_view(edit: Option<EditState>) -> Option<EditModel> {
    match edit {
        Some(e) => Some(e@),
        None => None,
    }
}

pub open spec fn edit_wf(edit: Option<EditState>) -> bool {
    edit matches Some(e) ==> e.wf()
}

/// Type `text` into the edit in progress, if any.
pub fn handle_ime_commit(edit: &mut Option<EditState>, text: &str) -> (r: TabPanelEditOutcome)
    requires
        edit_wf(*old(edit)),
    ensures
        edit_wf(*final(edit)),
        match edit_view(*old(edit)) {
            None => r is Unchanged && *final(edit) is None,
            Some(m) => if printable(text@).len() > 0 {
                r is Changed && edit_view(*final(edit)) == Some(inserted(m, text@))
            } else {
                r is Unchanged && edit_view(*final(edit)) == Some(m)
            },
        },
{
    match edit {
        None => TabPanelEditOutcome::Unchanged,
        Some(e) => if e.insert_text(text) {
            TabPanelEditOutcome::Changed
        } else {
            TabPanelEditOutcome::Unchanged
        },
    }
}

/// One key press while a name may be edited: Escape cancels the edit,
/// Enter commits it, Tab does nothing, caret and delete keys act when they
/// can, and otherwise the key's text is typed.
pub fn handle_edit_key(edit: &mut Option<EditState>, key: EditKey, text: &str) -> (r:
    TabPanelEditOutcome)
    requires
        edit_wf(*old(edit)),
    ensures
        edit_wf(*final(edit)),
        match edit_view(*old(edit)) {
            None => r is Unchanged && *final(edit) is None,
            Some(m) => if key == EditKey::Escape {
                r is Cancelled && *final(edit) is None
            } else if key == EditKey::Enter {
                &&& r matches TabPanelEditOutcome::Commit(c)
                &&& r->Commit_0.target == m.target
                &&& r->Commit_0.text@ == m.text
                &&& *final(edit) is None
            } else if key == EditKey::Tab {
                r is Unchanged && edit_view(*final(edit)) == Some(m)
            } else if motion(m, key) is Some {
                r is Changed && edit_view(*final(edit)) == motion(m, key)
            } else if printable(text@).len() > 0 {
                r is Changed && edit_view(*final(edit)) == Some(inserted(m, text@))
            } else {
                r is Unchanged && edit_view(*final(edit)) == Some(m)
            },
        },
{
    if edit.is_none() {
        return TabPanelEditOutcome::Unchanged;
    }
    if key == EditKey::Escape {
        *edit = None;
        return TabPanelEditOutcome::Cancelled;
    }
    if key == EditKey::Enter {
        let taken = edit.take();
        match taken {
            Some(e) => return TabPanelEditOutcome::Commit(e.into_commit()),
            None => return TabPanelEditOutcome::Unchanged,
        }
    }
    if key == EditKey::Tab {
        return TabPanelEditOutcome::Unchanged;
    }
    match edit {
        None => TabPanelEditOutcome::Unchanged,
        Some(e) => {
            let moved = match key {
                EditKey::Backspace => e.backspace(),
                EditKey::Delete => e.delete(),
                EditKey::ArrowLeft => e.move_left(),
                EditKey::ArrowRight => e.move_right(),
                EditKey::Home => e.move_home(),
                EditKey::End => e.move_end(),
                _ => false,
            };
            if moved {
                TabPanelEditOutcome::Changed
            } else if e.insert_text(text) {
                TabPanelEditOutcome::Changed
            } else {
                TabPanelEditOutcome::Unchanged
            }
        },
    }
}

/// Start editing `text` for `target`, with the caret at its end; true when
/// this differs from the edit already in progress.
pub fn begin_edit(edit: &mut Option<EditState>, target: TabPanelEditTarget, text: String) -> (r:
    bool)
    ensures
        edit_view(*final(edit)) == Some(EditModel { target, text: text@, cursor: text@.len() }),
        edit_wf(*final(edit)),
        r == (edit_view(*old(edit)) != edit_view(*final(edit))),
{
    let next = EditState::new(target, text);
    let changed = match edit {
        None => true,
        Some(e) => !(e.target == next.target && e.text == next.text && e.cursor == next.cursor),
    };
    *edit = Some(next);
    changed
}

/// Drop the edit in progress; true when there was one.
pub fn cancel_edit(edit: &mut Option<EditState>) -> (r: bool)
    ensures
        r == (*old(edit) is Some),
        *final(edit) is None,
{
    edit.take().is_some()
}

/// Whether `group` is, or lists, the item that `target` names.
pub open spec fn group_lists(group: TabPanelGroup, target: TabPanelEditTarget) -> bool {
    match target {
        TabPanelEditTarget::Tab(id) => exists|t: int|
            0 <= t < group.tabs@.len() && #[trigger] group.tabs@[t].tab_id == id,
        TabPanelEditTarget::Group(gid) => group.id == gid,
    }
}

/// Whether the panel still lists the item that `target` names.
pub open spec fn target_listed(groups: Seq<TabPanelGroup>, target: TabPanelEditTarget) -> bool {
    exists|g: int| 0 <= g < groups.len() && #[trigger] group_lists(groups[g], target)
}

fn listed(groups: &Vec<TabPanelGroup>, target: TabPanelEditTarget) -> (r: bool)
    ensures
        r == target_listed(groups@, target),
{
    let mut g: usize = 0;
    while g < groups.len()
        invariant
            0 <= g <= groups@.len(),
            forall|h: int| 0 <= h < g ==> !#[trigger] group_lists(groups@[h], target),
        decreases groups@.len() - g,
    {
        let group = &groups[g];
        match target {
            TabPanelEditTarget::Group(gid) => {
                if group.id == gid {
                    assert(group_lists(groups@[g as int], target));
                    return true;
                }
            },
            TabPanelEditTarget::Tab(id) => {
                let mut t: usize = 0;
                while t < group.tabs.len()
                    invariant
                        0 <= g < groups@.len(),
                        *group == groups@[g as int],
                        target == TabPanelEditTarget::Tab(id),
                        0 <= t <= group.tabs@.len(),
                        forall|u: int| 0 <= u < t ==> group.tabs@[u].tab_id != id,
                    decreases group.tabs@.len() - t,
                {
                    if group.tabs[t].tab_id == id {
                        assert(group.tabs@[t as int].tab_id == id);
                        assert(group_lists(groups@[g as int], target));
                        return true;
                    }
                    t = t + 1;
                }
            },
        }
        g = g + 1;
    }
    false
}

/// Drop the edit in progress when the panel no longer lists its item.
pub fn validate_edit_target(edit: &mut Option<EditState>, groups: &Vec<TabPanelGroup>)
    requires
        edit_wf(*old(edit)),
    ensures
        edit_wf(*final(edit)),
        match edit_view(*old(edit)) {
            None => *final(edit) is None,
            Some(m) => if target_listed(groups@, m.target) {
                edit_view(*final(edit)) == Some(m)
            } else {
                *final(edit) is None
            },
        },
{
    let keep = match edit {
        None => return,
        Some(e) => listed(groups, e.target),
    };
    if !keep {
        *edit = None;
    }
}

} // verus!
