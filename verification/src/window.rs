//! Which top-level windows the tool lists.

use vstd::prelude::*;

verus! {

/// What the system reports of a top-level window, as far as the choice of
/// listed windows depends on it.
#[derive(Clone, Copy, Debug, PartialEq, Eq, Structural)]
pub struct WindowStatus {
    /// The window has the visible style.
    pub visible: bool,
    /// The window is minimized.
    pub minimized: bool,
    /// The window is maximized.
    pub maximized: bool,
    /// The window has an owner window (tooltips, popups and other auxiliary
    /// windows do).
    pub owned: bool,
    /// The Desktop Window Manager hides the window though it is visible.
    pub cloaked: bool,
}

/// Whether a window can be manipulated by the user and is listed: it is
/// visible, neither minimized nor maximized, has no owner and is not cloaked.
pub fn is_active(status: WindowStatus) -> (active: bool)
    ensures
        active == (status.visible && !status.minimized && !status.maximized && !status.owned
            && !status.cloaked),
{
    status.visible && !status.minimized && !status.maximized && !status.owned && !status.cloaked
}

/// Whether a window is cloaked, from the outcome of the query of its
/// cloaked attribute and the attribute's value: the query succeeded and the
/// value is not zero.
pub fn is_cloaked(query_succeeded: bool, cloaked: u32) -> (is: bool)
    ensures
        is == (query_succeeded && cloaked != 0),
{
    query_succeeded && cloaked != 0
}

/// What `str::to_lowercase` returns for a string: each character replaced
/// by its lowercase mapping in Unicode.
pub uninterp spec fn lowercase(s: Seq<char>) -> Seq<char>;

/// Calls `str::to_lowercase`. Claimed: the result is `lowercase` of the
/// argument's characters, a function of those characters alone.
#[verifier::external_body]
fn to_lowercase(s: &str) -> (lower: String)
    ensures
        lower@ == lowercase(s@),
{
    s.to_lowercase()
}

/// Whether two strings hold the same characters.
fn same_text(a: &str, b: &str) -> (same: bool)
    ensures
        same == (a@ == b@),
{
    let n = a.unicode_len();
    if n != b.unicode_len() {
        return false;
    }
    let mut i: usize = 0;
    while i < n
        invariant
            n == a@.len(),
            n == b@.len(),
            i <= n,
            forall|j: int| 0 <= j < i ==> a@[j] == b@[j],
        decreases n - i,
    {
        if a.get_char(i) != b.get_char(i) {
            return false;
        }
        i = i + 1;
    }
    assert(a@ =~= b@);
    true
}

/// The title of the desktop shell's window.
pub open spec fn shell_title() -> Seq<char> {
    "Program Manager"@
}

/// The file name, in lowercase, of the desktop shell's executable.
pub open spec fn shell_executable() -> Seq<char> {
    "explorer.exe"@
}

/// The shell's window is recognised by the title `Program Manager` and the
/// executable file name `explorer.exe`, character for character.
pub proof fn lemma_shell_names()
    ensures
        shell_title() =~= seq![
            'P', 'r', 'o', 'g', 'r', 'a', 'm', ' ', 'M', 'a', 'n', 'a', 'g', 'e', 'r'
        ],
        shell_executable() =~= seq!['e', 'x', 'p', 'l', 'o', 'r', 'e', 'r', '.', 'e', 'x', 'e'],
{
    reveal_strlit("Program Manager");
    reveal_strlit("explorer.exe");
}

/// Whether a window is the desktop shell's: its title is `Program Manager`
/// and its executable's file name, already in lowercase, is `explorer.exe`.
pub fn is_shell_window(window_text: &str, lowercase_file_name: Option<&str>) -> (shell: bool)
    ensures
        shell == (window_text@ == shell_title() && match lowercase_file_name {
            Some(name) => name@ == shell_executable(),
            None => false,
        }),
{
    if !same_text(window_text, "Program Manager") {
        return false;
    }
    match lowercase_file_name {
        Some(name) => same_text(name, "explorer.exe"),
        None => false,
    }
}

/// Whether a window with title `window_text`, whose executable has the file
/// name `executable_file_name` when it is known, is listed: its title is not
/// empty and it is not the desktop shell's window (title `Program Manager`,
/// executable `explorer.exe` in any case).
pub fn is_listed(window_text: &str, executable_file_name: Option<&str>) -> (listed: bool)
    ensures
        listed == (window_text@.len() > 0 && !(window_text@ == shell_title()
            && match executable_file_name {
            Some(name) => lowercase(name@) == shell_executable(),
            None => false,
        })),
{
    if window_text.unicode_len() == 0 {
        return false;
    }
    match executable_file_name {
        Some(name) => {
            let lower = to_lowercase(name);
            !is_shell_window(window_text, Some(lower.as_str()))
        },
        None => !is_shell_window(window_text, None),
    }
}

} // verus!
