//! The dashboard state machine: selection, pending action, dialog state and
//! the transition taken for each confirmed action. Every transition is a pure
//! function of the state and its input; the driver that owns the terminal
//! performs the real Git work between transitions and refreshes the record
//! list through the gateway.

use vstd::prelude::*;
use crate::cleanup::{BranchFacts, stale_spec, stale_decision};
use crate::error::GitGardenerError;
use crate::git::worktree::{WorktreeInfo, has_name_or_path, add_record};
use crate::hooks::{parent_of, parent_dir};
use crate::text::{
    has_char, str_has_char, trimmed, trim_str, joined, join_strings, dec_digits, usize_string,
    replaced, replace_all, contains_seq, contains_str, is_space_char, is_space_exec, str_eq,
    push_char, pop_char, trimmed_front, split_tokens, has_trimmed_token, scan_for_token,
    first_eq,
};

verus! {

/// The actions the dashboard can take on the selected worktree.
#[derive(Debug, Clone, Copy, PartialEq, Eq, Structural)]
pub enum TuiAction {
    Add,
    Delete,
    Pull,
    Clean,
    Open,
    Navigate,
}

/// The dialogs an action can open before it is carried out.
#[derive(Debug, Clone, Copy, PartialEq, Eq, Structural)]
pub enum DialogMode {
    BranchInput,
    DeleteConfirmation,
    CleanOptions,
}

/// A branch name typed into the add dialog is rejected when blank or when it
/// carries a space or an exclamation mark.
pub open spec fn invalid_branch_name(s: Seq<char>) -> bool {
    trimmed(s).len() == 0 || has_char(s, ' ') || has_char(s, '!')
}

/// The comma-separated pieces of `s`.
pub open spec fn comma_tokens(s: Seq<char>) -> Seq<Seq<char>> {
    split_tokens(s, ',')
}

/// Some comma-separated piece of `s`, blanks trimmed, reads exactly `w`.
pub open spec fn has_token(s: Seq<char>, w: Seq<char>) -> bool {
    has_trimmed_token(s, ',', w)
}

/// The first maximal run of non-blank characters of `s`.
pub open spec fn leading_word(s: Seq<char>) -> Seq<char>
    decreases s.len(),
{
    if s.len() == 0 || is_space_char(s[0]) {
        Seq::empty()
    } else {
        seq![s[0]] + leading_word(s.skip(1))
    }
}

/// The first word of `s`: the first non-blank run after leading blanks.
pub open spec fn first_word(s: Seq<char>) -> Seq<char> {
    leading_word(trimmed_front(s))
}

/// The state behind the dashboard.
pub struct TuiState {
    /// The records currently shown, in listing order.
    pub worktrees: Vec<WorktreeInfo>,
    /// Which record the cursor is on.
    pub selected_index: usize,
    /// The action awaiting confirmation, when one is pending.
    pub current_action: Option<TuiAction>,
    /// The line shown after the last action, when one was shown.
    pub status_message: Option<String>,
    /// The open dialog, when one is open.
    pub dialog_mode: Option<DialogMode>,
    /// What has been typed into the open dialog.
    pub input_text: String,
    /// The cleanup grounds toggled on in the clean dialog.
    pub clean_options: Vec<String>,
    /// The editor command the driver resolved from configuration or
    /// environment; a plain `vim` stands in when none is set.
    pub editor: Option<String>,
    /// The repository root the driver resolved; absent outside a repository.
    pub repo_root: Option<String>,
    /// The directory under the root's parent that receives new worktrees.
    pub root_dir: String,
    /// Per-record branch facts the driver resolved for cleaning, parallel to
    /// `worktrees`; absent when the repository could not be asked.
    pub branch_facts: Option<Vec<BranchFacts>>,
    /// The timestamp staleness is measured against.
    pub now: i64,
}

/// A record survives a clean pass when it is not eligible under the chosen
/// grounds: merged only when asked and known merged, stale only when asked
/// and strictly older than 30 days.
pub open spec fn clean_keeps(fact: BranchFacts, merged: bool, stale: bool, now: i64) -> bool {
    !((merged && fact.merged_into_base) || (stale && stale_spec(fact.last_commit_time, now, 30)))
}

/// The records that survive a clean pass, in order.
pub open spec fn clean_survivors(
    rs: Seq<WorktreeInfo>,
    facts: Seq<BranchFacts>,
    merged: bool,
    stale: bool,
    now: i64,
) -> Seq<WorktreeInfo>
    decreases rs.len(),
{
    if rs.len() == 0 || facts.len() == 0 {
        rs
    } else {
        let rest = clean_survivors(rs.skip(1), facts.skip(1), merged, stale, now);
        if clean_keeps(facts[0], merged, stale, now) {
            seq![rs[0]] + rest
        } else {
            rest
        }
    }
}

impl TuiState {
    /// A fresh dashboard over `worktrees`: cursor on the first record, no
    /// action, no dialog, nothing typed, no message, and no repository
    /// context resolved yet.
    pub fn new(worktrees: Vec<WorktreeInfo>) -> (r: TuiState)
        ensures
            r.worktrees == worktrees,
            r.selected_index == 0,
            r.current_action is None,
            r.status_message is None,
            r.dialog_mode is None,
            r.input_text@.len() == 0,
            r.clean_options@.len() == 0,
            r.editor is None,
            r.repo_root is None,
            r.root_dir@ == ".gardener"@,
            r.branch_facts is None,
            r.now == 0,
    {
        let root_dir = ".gardener";
        TuiState {
            worktrees,
            selected_index: 0,
            current_action: None,
            status_message: None,
            dialog_mode: None,
            input_text: String::new(),
            clean_options: Vec::new(),
            editor: None,
            repo_root: None,
            root_dir: root_dir.to_owned(),
            branch_facts: None,
            now: 0,
        }
    }

    /// Moves the cursor one record down, stopping at the last record.
    pub fn move_down(&mut self)
        ensures
            *final(self) == (TuiState { selected_index: final(self).selected_index, ..*old(self) }),
            final(self).selected_index == (if old(self).worktrees@.len() > 0 && old(self).selected_index < old(self).worktrees@.len() - 1 {
                old(self).selected_index + 1
            } else {
                old(self).selected_index as int
            }),
    {
        let n = self.worktrees.len();
        if n > 0 && self.selected_index < n - 1 {
            self.selected_index += 1;
        }
    }

    /// Moves the cursor one record up, stopping at the first record.
    pub fn move_up(&mut self)
        ensures
            *final(self) == (TuiState { selected_index: final(self).selected_index, ..*old(self) }),
            final(self).selected_index == (if old(self).selected_index > 0 {
                old(self).selected_index - 1
            } else {
                0int
            }),
    {
        if self.selected_index > 0 {
            self.selected_index -= 1;
        }
    }

    /// Moves the cursor to the first record.
    pub fn move_to_start(&mut self)
        ensures
            *final(self) == (TuiState { selected_index: 0, ..*old(self) }),
    {
        self.selected_index = 0;
    }

    /// Moves the cursor to the last record, when there is one.
    pub fn move_to_end(&mut self)
        ensures
            *final(self) == (TuiState { selected_index: final(self).selected_index, ..*old(self) }),
            final(self).selected_index == (if old(self).worktrees@.len() > 0 {
                old(self).worktrees@.len() - 1
            } else {
                old(self).selected_index as int
            }),
    {
        let n = self.worktrees.len();
        if n > 0 {
            self.selected_index = n - 1;
        }
    }

    /// The record under the cursor, when the cursor is on one.
    pub fn get_selected(&self) -> (r: Option<&WorktreeInfo>)
        ensures
            self.selected_index < self.worktrees@.len() ==> (r matches Some(w) && *w
                == self.worktrees@[self.selected_index as int]),
            self.selected_index >= self.worktrees@.len() ==> r is None,
    {
        if self.selected_index < self.worktrees.len() {
            Some(&self.worktrees[self.selected_index])
        } else {
            None
        }
    }

    /// The action awaiting confirmation.
    pub fn get_current_action(&self) -> (r: Option<TuiAction>)
        ensures
            r == self.current_action,
    {
        self.current_action
    }

    /// Sets or clears the pending action.
    pub fn set_action(&mut self, action: Option<TuiAction>)
        ensures
            *final(self) == (TuiState { current_action: action, ..*old(self) }),
    {
        self.current_action = action;
    }

    /// Clears the pending action.
    pub fn clear_action(&mut self)
        ensures
            *final(self) == (TuiState { current_action: None, ..*old(self) }),
    {
        self.current_action = None;
    }

    /// Shows a status line.
    pub fn set_status_message(&mut self, message: String)
        ensures
            *final(self) == (TuiState { status_message: Some(message), ..*old(self) }),
    {
        self.status_message = Some(message);
    }

    /// Clears the status line.
    pub fn clear_status_message(&mut self)
        ensures
            *final(self) == (TuiState { status_message: None, ..*old(self) }),
    {
        self.status_message = None;
    }

    /// The open dialog, when one is open.
    pub fn get_dialog_mode(&self) -> (r: Option<DialogMode>)
        ensures
            r == self.dialog_mode,
    {
        self.dialog_mode
    }

    /// Whether a dialog is open.
    pub fn is_in_dialog(&self) -> (r: bool)
        ensures
            r == (self.dialog_mode is Some),
    {
        match &self.dialog_mode {
            Some(_) => true,
            None => false,
        }
    }

    /// Opens a dialog with a cleared input line.
    pub fn enter_dialog_mode(&mut self, mode: DialogMode)
        ensures
            *final(self) == (TuiState {
                dialog_mode: Some(mode),
                input_text: final(self).input_text,
                ..*old(self)
            }),
            final(self).input_text@.len() == 0,
    {
        self.dialog_mode = Some(mode);
        self.input_text = String::new();
    }

    /// Closes the dialog, dropping the typed input, the pending action and
    /// any toggled cleanup grounds.
    pub fn exit_dialog_mode(&mut self)
        ensures
            *final(self) == (TuiState {
                dialog_mode: None,
                input_text: final(self).input_text,
                current_action: None,
                clean_options: final(self).clean_options,
                ..*old(self)
            }),
            final(self).input_text@.len() == 0,
            final(self).clean_options@.len() == 0,
    {
        self.dialog_mode = None;
        self.input_text = String::new();
        self.current_action = None;
        self.clean_options = Vec::new();
    }

    /// What has been typed into the open dialog.
    pub fn get_input_text(&self) -> (r: &str)
        ensures
            r@ == self.input_text@,
    {
        self.input_text.as_str()
    }

    /// Types one character into the dialog.
    pub fn input_char(&mut self, c: char)
        ensures
            *final(self) == (TuiState { input_text: final(self).input_text, ..*old(self) }),
            final(self).input_text@ == old(self).input_text@.push(c),
    {
        push_char(&mut self.input_text, c);
    }

    /// Deletes the last typed character, if any.
    pub fn delete_char(&mut self)
        ensures
            *final(self) == (TuiState { input_text: final(self).input_text, ..*old(self) }),
            old(self).input_text@.len() > 0 ==> final(self).input_text@ == old(self).input_text@.drop_last(),
            old(self).input_text@.len() == 0 ==> final(self).input_text@ == old(self).input_text@,
    {
        pop_char(&mut self.input_text);
    }

    /// The name of the record under the cursor, when the cursor is on one.
    pub fn get_selected_worktree_name(&self) -> (r: Option<String>)
        ensures
            self.selected_index < self.worktrees@.len() ==> (r matches Some(n) && n@
                == self.worktrees@[self.selected_index as int].name@),
            self.selected_index >= self.worktrees@.len() ==> r is None,
    {
        if self.selected_index < self.worktrees.len() {
            Some(self.worktrees[self.selected_index].name.clone())
        } else {
            None
        }
    }

    /// The cleanup grounds toggled on, joined by commas.
    pub fn get_clean_options(&self) -> (r: String)
        ensures
            r@ == joined(self.clean_options@.map_values(|p: String| p@), ","@),
    {
        join_strings(&self.clean_options, ",")
    }

    /// Toggles one cleanup ground: `m` for merged, `s` for stale; any other
    /// key is ignored. A ground already on leaves the list at its first
    /// position; one not yet on is appended.
    pub fn toggle_clean_option(&mut self, option: char)
        ensures
            option != 'm' && option != 's' ==> *final(self) == *old(self),
            *final(self) == (TuiState { clean_options: final(self).clean_options, ..*old(self) }),
            option == 'm' || option == 's' ==> ({
                let w = if option == 'm' {
                    "merged"@
                } else {
                    "stale"@
                };
                let pre = old(self).clean_options@.map_values(|p: String| p@);
                let post = final(self).clean_options@.map_values(|p: String| p@);
                if first_eq(pre, w) >= 0 {
                    post == pre.remove(first_eq(pre, w))
                } else {
                    post == pre.push(w)
                }
            }),
    {
        if option != 'm' && option != 's' {
            return ;
        }
        proof {
            reveal_strlit("merged");
            reveal_strlit("stale");
        }
        let option_str: &str = if option == 'm' {
            "merged"
        } else {
            "stale"
        };
        let ghost w: Seq<char> = option_str@;
        let ghost pre = self.clean_options@.map_values(|p: String| p@);
        let n = self.clean_options.len();
        let mut i: usize = 0;
        while i < n
            invariant
                i <= n == self.clean_options@.len(),
                *self == *old(self),
                option == 'm' || option == 's',
                w == (if option == 'm' {
                    "merged"@
                } else {
                    "stale"@
                }),
                option_str@ == w,
                pre == self.clean_options@.map_values(|p: String| p@),
                forall|k: int| 0 <= k < i ==> #[trigger] pre[k] != w,
            decreases n - i,
        {
            if str_eq(self.clean_options[i].as_str(), option_str) {
                proof {
                    assert(pre[i as int] == self.clean_options@[i as int]@);
                    crate::text::lemma_first_eq_at(pre, w, i as int);
                }
                self.clean_options.remove(i);
                proof {
                    assert(self.clean_options@.map_values(|p: String| p@) =~= pre.remove(i as int));
                }
                return ;
            }
            proof {
                assert(pre[i as int] == self.clean_options@[i as int]@);
            }
            i += 1;
        }
        proof {
            crate::text::lemma_first_eq_none(pre, w);
        }
        self.clean_options.push(option_str.to_owned());
        proof {
            assert(self.clean_options@.map_values(|p: String| p@) =~= pre.push(w));
        }
    }

    /// The key help for the current mode.
    pub fn get_help_text(&self) -> (r: String)
        ensures
            self.current_action is None ==> r@
                == "[j/k,\u{2193}/\u{2191}] navigate  [g/G] first/last  [a] add  [d] delete  [p] pull  [c] clean  [n] navigate  [Enter] go to directory  [q] quit"@,
    {
        match &self.current_action {
            Some(action) => {
                let t: &str = match action {
                    TuiAction::Add => "[Enter] confirm add  [Esc] cancel",
                    TuiAction::Delete => "[Enter] confirm delete  [Esc] cancel",
                    TuiAction::Pull => "[Enter] confirm pull  [Esc] cancel",
                    TuiAction::Clean => "[Enter] confirm clean  [Esc] cancel",
                    TuiAction::Open => "[Enter] confirm open  [Esc] cancel",
                    TuiAction::Navigate => "[Enter] confirm navigate  [Esc] cancel",
                };
                t.to_owned()
            },
            None => {
                let t =
                    "[j/k,\u{2193}/\u{2191}] navigate  [g/G] first/last  [a] add  [d] delete  [p] pull  [c] clean  [n] navigate  [Enter] go to directory  [q] quit";
                t.to_owned()
            },
        }
    }

    /// Confirms the open dialog. A branch input is handed back trimmed, and
    /// rejected — dialog kept open — when blank or malformed; a delete
    /// confirmation always confirms; a clean dialog confirms its toggled
    /// grounds joined by commas, and is kept open while none is toggled.
    pub fn confirm_dialog(&mut self) -> (r: Option<String>)
        ensures
            old(self).dialog_mode is None ==> (r is None && *final(self) == *old(self)),
            old(self).dialog_mode == Some(DialogMode::BranchInput) ==> ({
                let t = trimmed(old(self).input_text@);
                if t.len() == 0 || has_char(t, ' ') || has_char(t, '!') {
                    r is None && *final(self) == *old(self)
                } else {
                    (r matches Some(v) && v@ == t) && final(self).dialog_mode is None && final(self).current_action is None
                }
            }),
            old(self).dialog_mode == Some(DialogMode::DeleteConfirmation) ==> ((r matches Some(v)
                && v@ == "y"@) && final(self).dialog_mode is None),
            old(self).dialog_mode == Some(DialogMode::CleanOptions) ==> ({
                if old(self).clean_options@.len() == 0 {
                    r is None && *final(self) == *old(self)
                } else {
                    (r matches Some(v) && v@ == joined(
                        old(self).clean_options@.map_values(|p: String| p@),
                        ","@,
                    )) && final(self).dialog_mode is None
                }
            }),
    {
        let mode = match &self.dialog_mode {
            Some(m) => *m,
            None => {
                return None;
            },
        };
        match mode {
            DialogMode::BranchInput => {
                let input = trim_str(self.input_text.as_str());
                if input.unicode_len() == 0 || str_has_char(input.as_str(), ' ')
                    || str_has_char(input.as_str(), '!') {
                    return None;
                }
                self.exit_dialog_mode();
                Some(input)
            },
            DialogMode::DeleteConfirmation => {
                self.exit_dialog_mode();
                let y = "y";
                Some(y.to_owned())
            },
            DialogMode::CleanOptions => {
                if self.clean_options.len() == 0 {
                    return None;
                }
                let result = join_strings(&self.clean_options, ",");
                self.exit_dialog_mode();
                Some(result)
            },
        }
    }
}


/// The line confirming a created worktree.
pub open spec fn msg_created(name: Seq<char>) -> Seq<char> {
    ("Created worktree '"@ + name) + "'"@
}

/// The line confirming a deleted worktree.
pub open spec fn msg_deleted(name: Seq<char>) -> Seq<char> {
    ("Deleted worktree '"@ + name) + "'"@
}

/// The line a clean pass reports when it removed `n` worktrees under the
/// grounds the user typed.
pub open spec fn msg_cleaned(n: nat, opts: Seq<char>) -> Seq<char> {
    (("Successfully deleted "@ + dec_digits(n)) + " worktree(s) using options: "@) + opts
}

/// The line a clean pass reports when nothing was removed.
pub open spec fn msg_none_cleaned(opts: Seq<char>) -> Seq<char> {
    "No worktrees were removed with options: "@ + opts
}

/// The editor command in force: the configured one, or plain `vim`.
pub open spec fn editor_of(st: TuiState) -> Seq<char> {
    match st.editor {
        Some(e) => e@,
        None => "vim"@,
    }
}

/// The line the open action reports: the editor's first word — `editor`
/// when the command is blank — and either the worktree path, when the
/// expanded command mentions it or still holds the placeholder, or the
/// worktree name otherwise.
pub open spec fn open_message(editor: Seq<char>, path: Seq<char>, name: Seq<char>) -> Seq<char> {
    let cmd = replaced(editor, "${WORKTREE_PATH}"@, path);
    let fw = first_word(cmd);
    let shown = if fw.len() == 0 {
        "editor"@
    } else {
        fw
    };
    if contains_seq(cmd, path) || contains_seq(cmd, "${WORKTREE_PATH}"@) {
        (("Editor launched: "@ + shown) + " opened worktree at "@) + path
    } else {
        (("Editor launched: "@ + shown) + " opened worktree "@) + name
    }
}

/// Unfolding `leading_word` one character at a time.
proof fn lemma_leading_word_step(s: Seq<char>, j: int)
    requires
        0 <= j < s.len(),
        !is_space_char(s[j]),
    ensures
        leading_word(s.skip(j)) == seq![s[j]] + leading_word(s.skip(j + 1)),
{
    let rest = s.skip(j);
    assert(rest[0] == s[j]);
    assert(rest.skip(1) =~= s.skip(j + 1));
}

/// The first word of `s`: the first maximal non-blank run after leading
/// blanks, empty when `s` is all blanks.
pub fn first_word_str(s: &str) -> (r: String)
    ensures
        r@ == first_word(s@),
{
    let n = s.unicode_len();
    let mut a: usize = 0;
    proof {
        assert(s@.skip(0) =~= s@);
    }
    while a < n && is_space_exec(s.get_char(a))
        invariant
            a <= n == s@.len(),
            trimmed_front(s@) == trimmed_front(s@.skip(a as int)),
        decreases n - a,
    {
        proof {
            assert(s@.skip(a as int).skip(1) =~= s@.skip(a + 1));
        }
        a += 1;
    }
    proof {
        if a < n {
            assert(trimmed_front(s@.skip(a as int)) == s@.skip(a as int));
        } else {
            assert(s@.skip(a as int) =~= Seq::<char>::empty());
        }
    }
    let ghost t = s@.skip(a as int);
    let mut out = String::new();
    let mut j: usize = a;
    proof {
        assert(t.skip(0) =~= t);
        assert(Seq::<char>::empty() + leading_word(t) =~= leading_word(t));
    }
    while j < n && !is_space_exec(s.get_char(j))
        invariant
            a <= j <= n == s@.len(),
            t == s@.skip(a as int),
            out@ + leading_word(t.skip(j - a as int)) == leading_word(t),
        decreases n - j,
    {
        proof {
            assert(t[j - a as int] == s@[j as int]);
            lemma_leading_word_step(t, j - a as int);
            assert(t.skip(j - a as int).skip(1) =~= t.skip(j + 1 - a as int));
            assert(s@.subrange(j as int, j + 1) =~= seq![s@[j as int]]);
            assert((out@ + seq![s@[j as int]]) + leading_word(t.skip(j + 1 - a as int)) =~= out@
                + (seq![s@[j as int]] + leading_word(t.skip(j + 1 - a as int))));
        }
        let c = s.substring_char(j, j + 1);
        out.append(c);
        j += 1;
    }
    proof {
        let rest = t.skip(j - a as int);
        if j < n {
            assert(rest[0] == s@[j as int]);
            assert(leading_word(rest) == Seq::<char>::empty());
        } else {
            assert(rest =~= Seq::<char>::empty());
        }
        assert(out@ + Seq::<char>::empty() =~= out@);
    }
    out
}


/// Reads the cleanup grounds out of a comma-separated list: whether some
/// piece, trimmed, reads `merged`, and whether some piece reads `stale`.
pub fn parse_clean_options(s: &str) -> (r: (bool, bool))
    ensures
        r.0 == has_token(s@, "merged"@),
        r.1 == has_token(s@, "stale"@),
{
    let merged = scan_for_token(s, ',', "merged");
    let stale = scan_for_token(s, ',', "stale");
    (merged, stale)
}

/// The add transition: a malformed name, a missing repository and a name or
/// path collision are each rejected with the state unchanged; otherwise one
/// record for the branch — named with slashes turned to dashes, placed under
/// the root directory beside the repository — joins the set.
pub open spec fn add_transition(
    pre: TuiState,
    post: TuiState,
    branch_name: Seq<char>,
    r: Result<String, GitGardenerError>,
) -> bool {
    &&& (invalid_branch_name(branch_name) ==> (post == pre && (r matches Err(e) && (e
        matches GitGardenerError::Custom(m) && m@ == "Invalid branch name"@))))
    &&& (!invalid_branch_name(branch_name) && pre.repo_root is None ==> (post == pre && (r
        matches Err(e) && e is NotInRepository)))
    &&& (!invalid_branch_name(branch_name) && pre.repo_root is Some ==> ({
        let root = pre.repo_root.unwrap();
        let name = replaced(branch_name, "/"@, "-"@);
        let path = (((parent_of(root@) + "/"@) + pre.root_dir@) + "/"@) + name;
        if has_name_or_path(pre.worktrees@, name, path) {
            &&& post.worktrees@ == pre.worktrees@
            &&& (post == (TuiState { worktrees: post.worktrees, ..pre }))
            &&& (r matches Err(e) && (e matches GitGardenerError::WorktreeExists { name: n } && n@
                == name))
        } else {
            &&& (post == (TuiState { worktrees: post.worktrees, ..pre }))
            &&& post.worktrees@.len() == pre.worktrees@.len() + 1
            &&& post.worktrees@ == pre.worktrees@.push(post.worktrees@.last())
            &&& post.worktrees@.last().name@ == name
            &&& post.worktrees@.last().path@ == path
            &&& post.worktrees@.last().branch@ == branch_name
            &&& post.worktrees@.last().is_prunable == false
            &&& post.worktrees@.last().status is None
            &&& (r matches Ok(m) && m@ == msg_created(name))
        }
    }))
}

/// The delete transition: anything but `y` cancels; with a selection the
/// selected record leaves the set and the cursor is pulled back onto the
/// list when the last record was selected.
pub open spec fn delete_transition(
    pre: TuiState,
    post: TuiState,
    confirmation: Seq<char>,
    r: Result<String, GitGardenerError>,
) -> bool {
    &&& (confirmation != "y"@ ==> (post == pre && (r matches Ok(m) && m@ == "Delete cancelled"@)))
    &&& (confirmation == "y"@ && pre.selected_index >= pre.worktrees@.len() ==> (post == pre && (r
        matches Err(e) && (e matches GitGardenerError::Custom(m) && m@
        == "No worktree selected"@))))
    &&& (confirmation == "y"@ && pre.selected_index < pre.worktrees@.len() ==> ({
        let idx = pre.selected_index as int;
        &&& post.worktrees@ == pre.worktrees@.remove(idx)
        &&& (post == (TuiState {
            worktrees: post.worktrees,
            selected_index: post.selected_index,
            ..pre
        }))
        &&& post.selected_index as int == (if idx >= pre.worktrees@.len() - 1
            && pre.worktrees@.len() > 1 {
            pre.worktrees@.len() - 2
        } else {
            idx
        })
        &&& (r matches Ok(m) && m@ == msg_deleted(pre.worktrees@[idx].name@))
    }))
}

/// The clean transition: an empty option list is rejected unchanged; with
/// resolved facts matching the records, exactly the eligible records leave
/// the set and the message counts them; without usable facts nothing is
/// removed.
pub open spec fn clean_transition(
    pre: TuiState,
    post: TuiState,
    options: Seq<char>,
    r: Result<String, GitGardenerError>,
) -> bool {
    &&& (options.len() == 0 ==> (post == pre && (r matches Err(e) && (e
        matches GitGardenerError::Custom(m) && m@ == "No clean options selected"@))))
    &&& (options.len() > 0 ==> ({
        let merged = has_token(options, "merged"@);
        let stale = has_token(options, "stale"@);
        match pre.branch_facts {
            Some(facts) => {
                if facts@.len() == pre.worktrees@.len() {
                    &&& post.worktrees@ == clean_survivors(
                        pre.worktrees@,
                        facts@,
                        merged,
                        stale,
                        pre.now,
                    )
                    &&& (post == (TuiState { worktrees: post.worktrees, ..pre }))
                    &&& (r matches Ok(m) && m@ == (if pre.worktrees@.len()
                        > post.worktrees@.len() {
                        msg_cleaned(
                            (pre.worktrees@.len() - post.worktrees@.len()) as nat,
                            options,
                        )
                    } else {
                        msg_none_cleaned(options)
                    }))
                } else {
                    post == pre && (r matches Ok(m) && m@ == msg_none_cleaned(options))
                }
            },
            None => post == pre && (r matches Ok(m) && m@ == msg_none_cleaned(options)),
        }
    }))
}

/// The pull report: a selection answers success, no selection is an error;
/// the state never changes.
pub open spec fn pull_outcome(st: TuiState, r: Result<String, GitGardenerError>) -> bool {
    &&& (st.selected_index < st.worktrees@.len() ==> (r matches Ok(m) && m@
        == "Pull completed successfully"@))
    &&& (st.selected_index >= st.worktrees@.len() ==> (r matches Err(e) && (e
        matches GitGardenerError::Custom(m) && m@ == "No worktree selected"@)))
}

/// The open report: the editor line for the selected worktree, or an error
/// without a selection; the state never changes.
pub open spec fn open_outcome(st: TuiState, r: Result<String, GitGardenerError>) -> bool {
    &&& (st.selected_index >= st.worktrees@.len() ==> (r matches Err(e) && (e
        matches GitGardenerError::Custom(m) && m@ == "No worktree selected"@)))
    &&& (st.selected_index < st.worktrees@.len() ==> (r matches Ok(m) && m@ == open_message(
        editor_of(st),
        st.worktrees@[st.selected_index as int].path@,
        st.worktrees@[st.selected_index as int].name@,
    )))
}

/// The navigate report: the selected worktree's path, or an error without a
/// selection; the state never changes.
pub open spec fn navigate_outcome(st: TuiState, r: Result<String, GitGardenerError>) -> bool {
    &&& (st.selected_index >= st.worktrees@.len() ==> (r matches Err(e) && (e
        matches GitGardenerError::Custom(m) && m@ == "No worktree selected"@)))
    &&& (st.selected_index < st.worktrees@.len() ==> (r matches Ok(m) && m@ == "Navigate to: "@
        + st.worktrees@[st.selected_index as int].path@))
}

impl TuiState {
    /// Carries out the pending action with the dialog's input; without a
    /// pending action nothing happens and the caller is told so.
    pub fn execute_current_action(&mut self, input: &str) -> (r: Result<String, GitGardenerError>)
        ensures
            old(self).current_action is None ==> (*final(self) == *old(self) && (r matches Err(e)
                && (e matches GitGardenerError::Custom(m) && m@ == "No action set"@))),
            old(self).current_action == Some(TuiAction::Add) ==> add_transition(
                *old(self),
                *final(self),
                input@,
                r,
            ),
            old(self).current_action == Some(TuiAction::Delete) ==> delete_transition(
                *old(self),
                *final(self),
                input@,
                r,
            ),
            old(self).current_action == Some(TuiAction::Clean) ==> clean_transition(
                *old(self),
                *final(self),
                input@,
                r,
            ),
            old(self).current_action == Some(TuiAction::Pull) ==> (*final(self) == *old(self)
                && pull_outcome(*old(self), r)),
            old(self).current_action == Some(TuiAction::Open) ==> (*final(self) == *old(self)
                && open_outcome(*old(self), r)),
            old(self).current_action == Some(TuiAction::Navigate) ==> (*final(self) == *old(self)
                && navigate_outcome(*old(self), r)),
    {
        let action = match &self.current_action {
            Some(a) => *a,
            None => {
                let m = "No action set";
                return Err(GitGardenerError::Custom(m.to_owned()));
            },
        };
        match action {
            TuiAction::Add => self.execute_add_action(input),
            TuiAction::Pull => self.execute_pull_action(),
            TuiAction::Delete => self.execute_delete_action(input),
            TuiAction::Clean => self.execute_clean_action(input),
            TuiAction::Open => self.execute_open_action(),
            TuiAction::Navigate => self.execute_navigate_action(),
        }
    }

    /// Registers a worktree for a new branch: the name is the branch with
    /// slashes turned into dashes, the path lies under the configured root
    /// directory beside the repository. A malformed name, a missing
    /// repository and a name or path collision are each rejected, leaving
    /// the state unchanged; the driver performs the actual creation.
    pub fn execute_add_action(&mut self, branch_name: &str) -> (r: Result<
        String,
        GitGardenerError,
    >)
        ensures
            add_transition(*old(self), *final(self), branch_name@, r),
    {
        let t = trim_str(branch_name);
        if t.unicode_len() == 0 || str_has_char(branch_name, ' ') || str_has_char(branch_name, '!')
        {
            let m = "Invalid branch name";
            return Err(GitGardenerError::Custom(m.to_owned()));
        }
        let root = match &self.repo_root {
            Some(root) => root.clone(),
            None => {
                return Err(GitGardenerError::NotInRepository);
            },
        };
        let worktree_name = replace_all(branch_name, "/", "-");
        let mut path = parent_dir(root.as_str());
        path.append("/");
        path.append(self.root_dir.as_str());
        path.append("/");
        path.append(worktree_name.as_str());
        let rec = WorktreeInfo {
            name: worktree_name.clone(),
            path,
            branch: branch_name.to_owned(),
            is_prunable: false,
            status: None,
        };
        match add_record(&mut self.worktrees, rec) {
            Ok(()) => {
                let mut m = String::new();
                m.append("Created worktree '");
                m.append(worktree_name.as_str());
                m.append("'");
                proof {
                    assert(((Seq::<char>::empty() + "Created worktree '"@) + worktree_name@)
                        + "'"@ =~= msg_created(worktree_name@));
                }
                Ok(m)
            },
            Err(e) => Err(e),
        }
    }

    /// Reports a pull of the selected worktree; the driver performs the
    /// fetch between transitions. Without a selection there is nothing to
    /// pull.
    pub fn execute_pull_action(&self) -> (r: Result<String, GitGardenerError>)
        ensures
            pull_outcome(*self, r),
    {
        if self.selected_index < self.worktrees.len() {
            let m = "Pull completed successfully";
            Ok(m.to_owned())
        } else {
            let m = "No worktree selected";
            Err(GitGardenerError::Custom(m.to_owned()))
        }
    }

    /// Deletes the selected worktree once confirmed with `y`; any other
    /// confirmation cancels. The cursor is pulled back onto the list when
    /// the last record was selected.
    pub fn execute_delete_action(&mut self, confirmation: &str) -> (r: Result<
        String,
        GitGardenerError,
    >)
        ensures
            delete_transition(*old(self), *final(self), confirmation@, r),
    {
        if !str_eq(confirmation, "y") {
            let m = "Delete cancelled";
            return Ok(m.to_owned());
        }
        if self.selected_index >= self.worktrees.len() {
            let m = "No worktree selected";
            return Err(GitGardenerError::Custom(m.to_owned()));
        }
        let worktree_name = self.worktrees[self.selected_index].name.clone();
        self.worktrees.remove(self.selected_index);
        if self.selected_index >= self.worktrees.len() && self.worktrees.len() > 0 {
            self.selected_index = self.worktrees.len() - 1;
        }
        let mut m = String::new();
        m.append("Deleted worktree '");
        m.append(worktree_name.as_str());
        m.append("'");
        proof {
            assert(((Seq::<char>::empty() + "Deleted worktree '"@) + worktree_name@) + "'"@
                =~= msg_deleted(worktree_name@));
        }
        Ok(m)
    }

    /// Cleans the shown worktrees under the typed grounds: `merged` removes
    /// records whose branch the driver resolved as merged, `stale` removes
    /// records strictly older than 30 days. Without resolved facts nothing
    /// is removed; the driver performs the real removals.
    pub fn execute_clean_action(&mut self, clean_options: &str) -> (r: Result<
        String,
        GitGardenerError,
    >)
        ensures
            clean_transition(*old(self), *final(self), clean_options@, r),
    {
        if clean_options.unicode_len() == 0 {
            let m = "No clean options selected";
            return Err(GitGardenerError::Custom(m.to_owned()));
        }
        let parsed = parse_clean_options(clean_options);
        let merged = parsed.0;
        let stale = parsed.1;
        let usable = match &self.branch_facts {
            Some(f) => f.len() == self.worktrees.len(),
            None => false,
        };
        if !usable {
            let mut m = String::new();
            m.append("No worktrees were removed with options: ");
            m.append(clean_options);
            proof {
                assert((Seq::<char>::empty() + "No worktrees were removed with options: "@)
                    + clean_options@ =~= msg_none_cleaned(clean_options@));
            }
            return Ok(m);
        }
        let initial_count = self.worktrees.len();
        let mut kept: Vec<WorktreeInfo> = Vec::new();
        let ghost all = self.worktrees@;
        let ghost fax = self.branch_facts.unwrap()@;
        proof {
            assert(all.skip(0) =~= all);
            assert(fax.skip(0) =~= fax);
            assert(Seq::<WorktreeInfo>::empty() + clean_survivors(
                all,
                fax,
                merged,
                stale,
                self.now,
            ) =~= clean_survivors(all, fax, merged, stale, self.now));
        }
        let now = self.now;
        let mut i: usize = 0;
        while i < initial_count
            invariant
                i <= initial_count,
                initial_count == all.len() == fax.len(),
                self.worktrees@ == all,
                self.branch_facts matches Some(f) && f@ == fax,
                kept@.len() <= i,
                kept@ + clean_survivors(
                    all.skip(i as int),
                    fax.skip(i as int),
                    merged,
                    stale,
                    now,
                ) == clean_survivors(all, fax, merged, stale, now),
            decreases initial_count - i,
        {
            let fact = match &self.branch_facts {
                Some(f) => f[i],
                None => {
                    proof {
                        assert(false);
                    }
                    BranchFacts { merged_into_base: false, last_commit_time: None }
                },
            };
            let eligible = (merged && fact.merged_into_base) || (stale && stale_decision(
                fact.last_commit_time,
                now,
                30,
            ));
            proof {
                assert(all.skip(i as int)[0] == all[i as int]);
                assert(fax.skip(i as int)[0] == fax[i as int]);
                assert(all.skip(i as int).skip(1) =~= all.skip(i + 1));
                assert(fax.skip(i as int).skip(1) =~= fax.skip(i + 1));
                if !eligible {
                    assert((kept@ + seq![all[i as int]]) + clean_survivors(
                        all.skip(i + 1),
                        fax.skip(i + 1),
                        merged,
                        stale,
                        now,
                    ) =~= kept@ + (seq![all[i as int]] + clean_survivors(
                        all.skip(i + 1),
                        fax.skip(i + 1),
                        merged,
                        stale,
                        now,
                    )));
                }
            }
            if !eligible {
                let w = crate::git::worktree::clone_record(&self.worktrees[i]);
                kept.push(w);
            }
            i += 1;
        }
        proof {
            assert(all.skip(initial_count as int) =~= Seq::<WorktreeInfo>::empty());
            assert(fax.skip(initial_count as int) =~= Seq::<BranchFacts>::empty());
            assert(kept@ + Seq::<WorktreeInfo>::empty() =~= kept@);
        }
        let remaining = kept.len();
        self.worktrees = kept;
        if remaining < initial_count {
            let removed = initial_count - remaining;
            let mut m = String::new();
            m.append("Successfully deleted ");
            let count_text = usize_string(removed);
            m.append(count_text.as_str());
            m.append(" worktree(s) using options: ");
            m.append(clean_options);
            proof {
                assert((((Seq::<char>::empty() + "Successfully deleted "@) + dec_digits(
                    removed as nat,
                )) + " worktree(s) using options: "@) + clean_options@ =~= msg_cleaned(
                    removed as nat,
                    clean_options@,
                ));
            }
            Ok(m)
        } else {
            let mut m = String::new();
            m.append("No worktrees were removed with options: ");
            m.append(clean_options);
            proof {
                assert((Seq::<char>::empty() + "No worktrees were removed with options: "@)
                    + clean_options@ =~= msg_none_cleaned(clean_options@));
            }
            Ok(m)
        }
    }

    /// Reports the editor launch for the selected worktree, the placeholder
    /// in the configured command expanded to the worktree path; the driver
    /// spawns the editor.
    pub fn execute_open_action(&self) -> (r: Result<String, GitGardenerError>)
        ensures
            open_outcome(*self, r),
    {
        if self.selected_index >= self.worktrees.len() {
            let m = "No worktree selected";
            return Err(GitGardenerError::Custom(m.to_owned()));
        }
        let selected = &self.worktrees[self.selected_index];
        let editor_command = match &self.editor {
            Some(e) => e.clone(),
            None => {
                let v = "vim";
                v.to_owned()
            },
        };
        let command = replace_all(editor_command.as_str(), "${WORKTREE_PATH}", selected.path.as_str());
        let fw = first_word_str(command.as_str());
        let shown = if fw.unicode_len() == 0 {
            let e = "editor";
            e.to_owned()
        } else {
            fw
        };
        let mentions_path = contains_str(command.as_str(), selected.path.as_str()) || contains_str(
            command.as_str(),
            "${WORKTREE_PATH}",
        );
        let mut m = String::new();
        m.append("Editor launched: ");
        m.append(shown.as_str());
        if mentions_path {
            m.append(" opened worktree at ");
            m.append(selected.path.as_str());
            proof {
                assert((((Seq::<char>::empty() + "Editor launched: "@) + shown@)
                    + " opened worktree at "@) + selected.path@ =~= open_message(
                    editor_of(*self),
                    selected.path@,
                    selected.name@,
                ));
            }
        } else {
            m.append(" opened worktree ");
            m.append(selected.name.as_str());
            proof {
                assert((((Seq::<char>::empty() + "Editor launched: "@) + shown@)
                    + " opened worktree "@) + selected.name@ =~= open_message(
                    editor_of(*self),
                    selected.path@,
                    selected.name@,
                ));
            }
        }
        Ok(m)
    }

    /// Reports the path to change into for the selected worktree.
    pub fn execute_navigate_action(&self) -> (r: Result<String, GitGardenerError>)
        ensures
            navigate_outcome(*self, r),
    {
        if self.selected_index >= self.worktrees.len() {
            let m = "No worktree selected";
            return Err(GitGardenerError::Custom(m.to_owned()));
        }
        let selected = &self.worktrees[self.selected_index];
        let mut m = String::new();
        m.append("Navigate to: ");
        m.append(selected.path.as_str());
        proof {
            assert((Seq::<char>::empty() + "Navigate to: "@) + selected.path@ =~= "Navigate to: "@
                + selected.path@);
        }
        Ok(m)
    }
}

/// One dashboard session's switches.
pub struct TuiCommand {
    /// Whether the dashboard takes the whole screen.
    pub fullscreen: bool,
    /// Whether mouse capture is left off.
    pub no_mouse: bool,
}

impl TuiCommand {
    /// A session with the given switches.
    pub fn new(fullscreen: bool, no_mouse: bool) -> (r: TuiCommand)
        ensures
            r.fullscreen == fullscreen,
            r.no_mouse == no_mouse,
    {
        TuiCommand { fullscreen, no_mouse }
    }
}

} // verus!

