//! Command-line and IPC option values, and the parsers for their arguments.
use vstd::prelude::*;

use crate::window_kind::WindowKind;

verus! {

// ----- parsing -----

/// The value of digit `c` in base `radix`, if it is one.
pub open spec fn digit_value(c: char, radix: u32) -> Option<nat> {
    let v: int = if '0' <= c && c <= '9' {
        c as u32 - '0' as u32
    } else if 'a' <= c && c <= 'z' {
        c as u32 - 'a' as u32 + 10
    } else if 'A' <= c && c <= 'Z' {
        c as u32 - 'A' as u32 + 10
    } else {
        radix as int
    };
    if v < radix {
        Some(v as nat)
    } else {
        None
    }
}

/// The number that a run of digits spells in base `radix`; `None` when a
/// character is not a digit.
pub open spec fn digits_value(s: Seq<char>, radix: u32) -> Option<nat>
    decreases s.len(),
{
    if s.len() == 0 {
        Some(0)
    } else {
        match (digits_value(s.drop_last(), radix), digit_value(s.last(), radix)) {
            (Some(a), Some(d)) => Some((a * radix + d) as nat),
            _ => None,
        }
    }
}

/// An unsigned 32-bit number in base `radix`, as `u32::from_str_radix`
/// reads it: an optional `+`, then at least one digit, and a value that fits.
pub open spec fn parse_u32(s: Seq<char>, radix: u32) -> Option<u32> {
    let body = if s.len() > 0 && s[0] == '+' {
        s.drop_first()
    } else {
        s
    };
    if body.len() == 0 {
        None
    } else {
        match digits_value(body, radix) {
            Some(v) => if v <= u32::MAX {
                Some(v as u32)
            } else {
                None
            },
            None => None,
        }
    }
}

/// A number written in hexadecimal after `0x`, or else in decimal.
pub open spec fn hex_or_decimal(s: Seq<char>) -> Option<u32> {
    let rest = s.subrange(2, s.len() as int);
    if s.len() >= 2 && s[0] == '0' && s[1] == 'x' && parse_u32(rest, 16) is Some {
        parse_u32(rest, 16)
    } else {
        parse_u32(s, 10)
    }
}

/// A digit run that spells a number spells, in each of its prefixes, a
/// number no larger.
proof fn lemma_prefix_value(s: Seq<char>, k: int, radix: u32)
    requires
        0 <= k <= s.len(),
        digits_value(s, radix) is Some,
    ensures
        digits_value(s.subrange(0, k), radix) is Some,
        digits_value(s.subrange(0, k), radix)->0 <= digits_value(s, radix)->0,
    decreases s.len(),
{
    if k == s.len() {
        assert(s.subrange(0, k) =~= s);
    } else {
        let t = s.drop_last();
        lemma_prefix_value(t, k, radix);
        assert(t.subrange(0, k) =~= s.subrange(0, k));
        let a = digits_value(t, radix)->0;
        let d = digit_value(s.last(), radix)->0;
        assert(a <= a * radix + d) by (nonlinear_arith)
            requires
                radix >= 1,
        ;
    }
}

fn digit(c: char, radix: u32) -> (r: Option<u32>)
    requires
        2 <= radix <= 36,
    ensures
        match digit_value(c, radix) {
            Some(v) => r == Some(v as u32),
            None => r is None,
        },
{
    let v: u32 = if '0' <= c && c <= '9' {
        c as u32 - '0' as u32
    } else if 'a' <= c && c <= 'z' {
        c as u32 - 'a' as u32 + 10
    } else if 'A' <= c && c <= 'Z' {
        c as u32 - 'A' as u32 + 10
    } else {
        radix
    };
    if v < radix {
        Some(v)
    } else {
        None
    }
}

/// Reads an unsigned 32-bit number in base `radix`.
pub fn parse_u32_radix(s: &str, radix: u32) -> (r: Option<u32>)
    requires
        2 <= radix <= 36,
    ensures
        r == parse_u32(s@, radix),
{
    let n = s.unicode_len();
    let start: usize = if n > 0 && s.get_char(0) == '+' {
        1
    } else {
        0
    };
    let body = s.substring_char(start, n);
    assert(body@ == (if s@.len() > 0 && s@[0] == '+' {
        s@.drop_first()
    } else {
        s@
    })) by {
        if start == 1 {
            assert(s@.subrange(1, n as int) =~= s@.drop_first());
        } else {
            assert(s@.subrange(0, n as int) =~= s@);
        }
    }
    let m = n - start;
    if m == 0 {
        return None;
    }
    let mut acc: u64 = 0;
    let mut k: usize = 0;
    assert(body@.subrange(0, 0) =~= Seq::<char>::empty());
    while k < m
        invariant
            m == body@.len(),
            m > 0,
            body@ == (if s@.len() > 0 && s@[0] == '+' {
                s@.drop_first()
            } else {
                s@
            }),
            0 <= k <= m,
            2 <= radix <= 36,
            digits_value(body@.subrange(0, k as int), radix) == Some(acc as nat),
            acc <= u32::MAX,
        decreases m - k,
    {
        assert(body@.subrange(0, k + 1).drop_last() =~= body@.subrange(0, k as int));
        assert(body@.subrange(0, k + 1).last() == body@[k as int]);
        match digit(body.get_char(k), radix) {
            None => {
                proof {
                    assert(digits_value(body@.subrange(0, k + 1), radix) is None);
                    if digits_value(body@, radix) is Some {
                        lemma_prefix_value(body@, k + 1, radix);
                    }
                    assert(digits_value(body@, radix) is None);
                }
                return None;
            },
            Some(d) => {
                assert(acc * (radix as u64) <= 0xffff_ffff * 36) by (nonlinear_arith)
                    requires
                        acc <= 0xffff_ffff,
                        radix <= 36,
                ;
                let next = acc * (radix as u64) + (d as u64);
                assert(digits_value(body@.subrange(0, k + 1), radix) == Some(next as nat));
                if next > 0xffff_ffff {
                    proof {
                        if digits_value(body@, radix) is Some {
                            lemma_prefix_value(body@, k + 1, radix);
                        }
                        assert(digits_value(body@, radix) is None || digits_value(body@, radix)->0
                            > u32::MAX);
                    }
                    return None;
                }
                acc = next;
                k = k + 1;
            },
        }
    }
    assert(body@.subrange(0, m as int) =~= body@);
    Some(acc as u32)
}

/// Reads a number written in hexadecimal after `0x`, or else in decimal.
pub fn parse_hex_or_decimal(input: &str) -> (r: Option<u32>)
    ensures
        r == hex_or_decimal(input@),
{
    let n = input.unicode_len();
    if n >= 2 && input.get_char(0) == '0' && input.get_char(1) == 'x' {
        let rest = input.substring_char(2, n);
        let hex = parse_u32_radix(rest, 16);
        if hex.is_some() {
            return hex;
        }
    }
    parse_u32_radix(input, 10)
}

/// No character of `s` is `c`.
pub open spec fn lacks(s: Seq<char>, c: char) -> bool {
    forall|k: int| 0 <= k < s.len() ==> s[k] != c
}

/// `i` is the position of the first `c` in `s`.
pub open spec fn first_at(s: Seq<char>, c: char, i: int) -> bool {
    0 <= i < s.len() && s[i] == c && lacks(s.subrange(0, i), c)
}

fn find_char(s: &str, c: char) -> (r: Option<usize>)
    ensures
        match r {
            Some(i) => first_at(s@, c, i as int),
            None => lacks(s@, c),
        },
{
    let n = s.unicode_len();
    let mut k: usize = 0;
    while k < n
        invariant
            n == s@.len(),
            0 <= k <= n,
            forall|t: int| 0 <= t < k ==> s@[t] != c,
        decreases n - k,
    {
        if s.get_char(k) == c {
            assert(lacks(s@.subrange(0, k as int), c));
            return Some(k);
        }
        k = k + 1;
    }
    None
}

/// A window class: the general class and the instance name.
#[derive(Clone, Debug, PartialEq, Eq)]
pub struct Class {
    pub general: String,
    pub instance: String,
}

/// Reads `<general>` (both parts the same) or `<general>,<instance>`.
pub fn parse_class(input: &str) -> (r: Result<Class, String>)
    ensures
        lacks(input@, ',') ==> r is Ok && r->Ok_0.general@ == input@ && r->Ok_0.instance@
            == input@,
        forall|i: int|
            first_at(input@, ',', i) ==> {
                let instance = input@.subrange(i + 1, input@.len() as int);
                if lacks(instance, ',') {
                    &&& r is Ok
                    &&& r->Ok_0.general@ == input@.subrange(0, i)
                    &&& r->Ok_0.instance@ == instance
                } else {
                    r is Err && r->Err_0@ == "Too many parameters"@
                }
            },
{
    let n = input.unicode_len();
    match find_char(input, ',') {
        None => Ok(Class { general: String::from_str(input), instance: String::from_str(input) }),
        Some(i) => {
            let instance = input.substring_char(i + 1, n);
            proof {
                assert forall|j: int| first_at(input@, ',', j) implies j == i by {
                    if j < i {
                        assert(input@.subrange(0, i as int)[j] == input@[j]);
                    } else if j > i {
                        assert(input@.subrange(0, j)[i as int] == input@[i as int]);
                    }
                }
            }
            match find_char(instance, ',') {
                Some(_) => Err(String::from_str("Too many parameters")),
                None => Ok(
                    Class {
                        general: String::from_str(input.substring_char(0, i)),
                        instance: String::from_str(instance),
                    },
                ),
            }
        },
    }
}

/// A tab id given on the command line.
#[derive(Debug, Clone, Copy, PartialEq, Eq, Structural)]
pub struct TabIdArg {
    pub index: u32,
    pub generation: u32,
}

/// The two parts of `<index>:<generation>` around separator `i`, read as numbers.
pub open spec fn tab_id_parts(s: Seq<char>, i: int) -> Result<TabIdArg, Seq<char>> {
    match parse_u32(s.subrange(0, i), 10) {
        None => Err("tab id index must be a u32"@),
        Some(index) => match parse_u32(s.subrange(i + 1, s.len() as int), 10) {
            None => Err("tab id generation must be a u32"@),
            Some(generation) => Ok(TabIdArg { index, generation }),
        },
    }
}

/// Reads `<index>:<generation>`; a `,` may stand for the `:` when there is
/// no `:`.
pub fn parse_tab_id(input: &str) -> (r: Result<TabIdArg, String>)
    ensures
        lacks(input@, ':') && lacks(input@, ',') ==> r is Err && r->Err_0@
            == "tab id must be <index>:<generation>"@,
        forall|i: int|
            (first_at(input@, ':', i) || (lacks(input@, ':') && first_at(input@, ',', i))) ==> match (
            tab_id_parts(input@, i)) {
                Ok(id) => r == Ok::<TabIdArg, String>(id),
                Err(e) => r is Err && r->Err_0@ == e,
            },
{
    let n = input.unicode_len();
    let sep = match find_char(input, ':') {
        Some(i) => Some(i),
        None => find_char(input, ','),
    };
    match sep {
        None => Err(String::from_str("tab id must be <index>:<generation>")),
        Some(i) => {
            proof {
                assert forall|j: int|
                    (first_at(input@, ':', j) || (lacks(input@, ':') && first_at(
                        input@,
                        ',',
                        j,
                    ))) implies j == i by {
                    if j < i {
                        assert(input@.subrange(0, i as int)[j] == input@[j]);
                    } else if j > i {
                        assert(input@.subrange(0, j)[i as int] == input@[i as int]);
                    }
                }
            }
            match parse_u32_radix(input.substring_char(0, i), 10) {
                None => Err(String::from_str("tab id index must be a u32")),
                Some(index) => match parse_u32_radix(input.substring_char(i + 1, n), 10) {
                    None => Err(String::from_str("tab id generation must be a u32")),
                    Some(generation) => Ok(TabIdArg { index, generation }),
                },
            }
        },
    }
}

// ----- option values -----

/// The views of a list of strings.
pub open spec fn strings_view(v: Seq<String>) -> Seq<Seq<char>> {
    v.map_values(|s: String| s@)
}

/// A program to run, with or without arguments.
#[derive(Clone, Debug, PartialEq, Eq)]
pub enum Program {
    Just(String),
    WithArgs { program: String, args: Vec<String> },
}

/// Terminal options that can be passed to new windows over IPC.
#[derive(Clone, Debug, PartialEq, Eq)]
pub struct TerminalOptions {
    /// Working directory of the shell.
    pub working_directory: Option<String>,
    /// Keep the window open after the child process exits.
    pub hold: bool,
    /// Command and arguments to run in place of the shell.
    pub command: Vec<String>,
}

impl Default for TerminalOptions {
    fn default() -> (r: Self)
        ensures
            r.working_directory is None,
            !r.hold,
            r.command@.len() == 0,
    {
        TerminalOptions { working_directory: None, hold: false, command: Vec::new() }
    }
}

impl TerminalOptions {
    /// The shell override: the first word is the program, the rest its
    /// arguments; none when no command was given.
    pub fn command(&self) -> (r: Option<Program>)
        ensures
            self.command@.len() == 0 ==> r is None,
            self.command@.len() > 0 ==> {
                &&& r matches Some(Program::WithArgs { program, args })
                &&& r->0->WithArgs_program@ == self.command@[0]@
                &&& strings_view(r->0->WithArgs_args@) == strings_view(
                    self.command@.subrange(1, self.command@.len() as int),
                )
            },
    {
        let n = self.command.len();
        if n == 0 {
            return None;
        }
        let program = self.command[0].clone();
        let mut args: Vec<String> = Vec::new();
        let mut k: usize = 1;
        while k < n
            invariant
                n == self.command@.len(),
                1 <= k <= n,
                strings_view(args@) == strings_view(self.command@.subrange(1, k as int)),
            decreases n - k,
        {
            let item = self.command[k].clone();
            let ghost before = args@;
            args.push(item);
            assert(args@ == before.push(item));
            assert(strings_view(args@) =~= strings_view(before).push(item@));
            assert(strings_view(self.command@.subrange(1, k + 1)) =~= strings_view(
                self.command@.subrange(1, k as int),
            ).push(self.command@[k as int]@));
            k = k + 1;
        }
        Some(Program::WithArgs { program, args })
    }
}

/// The title and class a window is created with.
#[derive(Clone, Debug, PartialEq, Eq)]
pub struct Identity {
    pub title: String,
    pub class: Class,
}

/// Window identity options that can be passed to new windows over IPC.
#[derive(Clone, Debug, PartialEq, Eq)]
pub struct WindowIdentity {
    pub title: Option<String>,
    pub class: Option<Class>,
}

impl Default for WindowIdentity {
    fn default() -> (r: Self)
        ensures
            r.title is None,
            r.class is None,
    {
        WindowIdentity { title: None, class: None }
    }
}

impl WindowIdentity {
    /// Replace the title and the class of `identity` by those given here.
    pub fn override_identity_config(&self, identity: &mut Identity)
        ensures
            final(identity).title@ == match self.title {
                Some(t) => t@,
                None => old(identity).title@,
            },
            final(identity).class.general@ == match self.class {
                Some(c) => c.general@,
                None => old(identity).class.general@,
            },
            final(identity).class.instance@ == match self.class {
                Some(c) => c.instance@,
                None => old(identity).class.instance@,
            },
    {
        if let Some(title) = &self.title {
            identity.title = title.clone();
        }
        if let Some(class) = &self.class {
            identity.class = Class { general: class.general.clone(), instance: class.instance.clone() };
        }
    }
}

/// The window options that can be passed over IPC.
#[derive(Clone, Debug, PartialEq, Eq)]
pub struct WindowOptions {
    pub terminal_options: TerminalOptions,
    pub window_kind: WindowKind,
    pub window_identity: WindowIdentity,
    pub command_input: Option<String>,
    pub activation_token: Option<String>,
    /// Configuration overrides, each `key=value` in TOML.
    pub option: Vec<String>,
}

/// Options of the `migrate` subcommand.
#[derive(Clone, Debug)]
pub struct MigrateOptions {
    pub config_file: Option<String>,
    pub dry_run: bool,
    pub skip_imports: bool,
    pub skip_renames: bool,
    pub silent: bool,
}

/// Parameters of the `config` IPC message.
#[derive(Clone, Debug, PartialEq, Eq)]
pub struct IpcConfig {
    pub options: Vec<String>,
    /// The window to change; `-1` changes every window.
    pub window_id: Option<i128>,
    pub reset: bool,
}

/// Parameters of the `get-config` IPC message.
#[derive(Clone, Debug, PartialEq, Eq)]
pub struct IpcGetConfig {
    /// The window to ask; `-1` asks for the global configuration.
    pub window_id: Option<i128>,
}

/// Get the state of one tab.
#[derive(Clone, Debug, PartialEq, Eq)]
pub struct MsgGetTabState {
    pub tab_id: TabIdArg,
}

/// Create a tab, a web tab when `web` holds a URL.
#[derive(Clone, Debug, PartialEq, Eq)]
pub struct MsgCreateTab {
    pub web: Option<String>,
    pub group_id: Option<usize>,
    pub group_name: Option<String>,
    pub terminal_options: TerminalOptions,
    pub window_identity: WindowIdentity,
}

/// Create a tab group.
#[derive(Clone, Debug, PartialEq, Eq)]
pub struct MsgCreateGroup {
    pub name: Option<String>,
}

/// Close a tab; the active one when no id is given.
#[derive(Clone, Debug, PartialEq, Eq)]
pub struct MsgCloseTab {
    pub tab_id: Option<TabIdArg>,
}

/// Select a tab by one of the means given.
#[derive(Clone, Debug, PartialEq, Eq)]
pub struct MsgSelectTab {
    pub active: bool,
    pub next: bool,
    pub previous: bool,
    pub last: bool,
    pub index: Option<usize>,
    pub tab_id: Option<TabIdArg>,
}

/// Move a tab within its group or to another group.
#[derive(Clone, Debug, PartialEq, Eq)]
pub struct MsgMoveTab {
    pub tab_id: TabIdArg,
    pub target_group_id: Option<usize>,
    pub target_index: Option<usize>,
}

/// Set or clear a tab's title.
#[derive(Clone, Debug, PartialEq, Eq)]
pub struct MsgSetTabTitle {
    pub tab_id: Option<TabIdArg>,
    pub title: Option<String>,
    pub clear: bool,
}

/// Set or clear a group's name.
#[derive(Clone, Debug, PartialEq, Eq)]
pub struct MsgSetGroupName {
    pub group_id: usize,
    pub name: Option<String>,
    pub clear: bool,
}

/// Open a URL in a tab.
#[derive(Clone, Debug, PartialEq, Eq)]
pub struct MsgOpenUrl {
    pub url: String,
    pub new_tab: bool,
    pub tab_id: Option<TabIdArg>,
}

/// Set the URL of a web tab.
#[derive(Clone, Debug, PartialEq, Eq)]
pub struct MsgSetWebUrl {
    pub url: String,
    pub tab_id: Option<TabIdArg>,
}

/// Reload a web tab.
#[derive(Clone, Debug, PartialEq, Eq)]
pub struct MsgReloadWeb {
    pub tab_id: Option<TabIdArg>,
}

/// Open the inspector of a web tab.
#[derive(Clone, Debug, PartialEq, Eq)]
pub struct MsgOpenInspector {
    pub tab_id: Option<TabIdArg>,
}

/// Show, hide or resize the tab panel.
#[derive(Clone, Debug, PartialEq, Eq)]
pub struct MsgSetTabPanel {
    pub enable: bool,
    pub disable: bool,
    pub width: Option<usize>,
}

/// Send literal input to a tab.
#[derive(Clone, Debug, PartialEq, Eq)]
pub struct MsgSendInput {
    pub text: String,
    pub tab_id: Option<TabIdArg>,
}

/// Run a command in the command bar of a tab.
#[derive(Clone, Debug, PartialEq, Eq)]
pub struct MsgRunCommandBar {
    pub input: String,
    pub tab_id: Option<TabIdArg>,
}

/// Inspector commands.
#[derive(Clone, Debug, PartialEq, Eq)]
pub enum MsgInspector {
    ListTargets,
    Attach(MsgInspectorAttach),
    Detach(MsgInspectorDetach),
    Send(MsgInspectorSend),
    Poll(MsgInspectorPoll),
}

/// Attach the inspector to a tab or to a target.
#[derive(Clone, Debug, PartialEq, Eq)]
pub struct MsgInspectorAttach {
    pub tab_id: Option<TabIdArg>,
    pub target_id: Option<u64>,
}

/// Detach an inspector session.
#[derive(Clone, Debug, PartialEq, Eq)]
pub struct MsgInspectorDetach {
    pub session_id: String,
}

/// Send a message to an inspector session.
#[derive(Clone, Debug, PartialEq, Eq)]
pub struct MsgInspectorSend {
    pub session_id: String,
    pub message: String,
}

/// Poll an inspector session for at most `max` messages.
#[derive(Clone, Debug, PartialEq, Eq)]
pub struct MsgInspectorPoll {
    pub session_id: String,
    pub max: Option<usize>,
}

} // verus!
