//! The post-creation hook pipeline: placeholder expansion, validation of the
//! declared hooks into concrete actions, and a fail-fast run state machine.
//! Performing an action (copying a file, spawning a shell) is the caller's
//! side; everything decided here is verified.

use vstd::prelude::*;
use crate::config::{Hook, HookType};
use crate::error::GitGardenerError;
use crate::text::{
    last_index_of, lemma_replaced_absent, contains_seq, replace_all, replaced,
};

verus! {

/// `p` without its trailing `/` characters.
pub open spec fn stripped_slashes(p: Seq<char>) -> Seq<char>
    decreases p.len(),
{
    if p.len() > 0 && p.last() == '/' {
        stripped_slashes(p.drop_last())
    } else {
        p
    }
}

/// The directory prefix of `p`: trailing separators are ignored, the parent
/// is everything before the last remaining separator, itself stripped of
/// trailing separators. A path under the root keeps the lone `/`; a path
/// without any separator has the empty parent; the empty path and a bare
/// root are their own parent.
pub open spec fn parent_of(p: Seq<char>) -> Seq<char> {
    let q = stripped_slashes(p);
    if q.len() == 0 {
        p
    } else {
        let i = last_index_of(q, '/');
        if i < 0 {
            Seq::empty()
        } else {
            let r = stripped_slashes(q.take(i));
            if r.len() == 0 {
                if q[0] == '/' {
                    q.take(1)
                } else {
                    r
                }
            } else {
                r
            }
        }
    }
}

/// `s` with each placeholder replaced: `${WORKTREE_PATH}` by the worktree
/// path, `${BRANCH}` by the branch name, `${REPO_ROOT}` by the worktree's
/// parent directory, in that order.
pub open spec fn expanded(s: Seq<char>, wt: Seq<char>, branch: Seq<char>) -> Seq<char> {
    replaced(
        replaced(replaced(s, "${WORKTREE_PATH}"@, wt), "${BRANCH}"@, branch),
        "${REPO_ROOT}"@,
        parent_of(wt),
    )
}

/// Expanding a string that holds none of the three placeholders returns it
/// unchanged.
pub proof fn lemma_expand_no_placeholders(s: Seq<char>, wt: Seq<char>, branch: Seq<char>)
    requires
        !contains_seq(s, "${WORKTREE_PATH}"@),
        !contains_seq(s, "${BRANCH}"@),
        !contains_seq(s, "${REPO_ROOT}"@),
    ensures
        expanded(s, wt, branch) == s,
{
    lemma_replaced_absent(s, "${WORKTREE_PATH}"@, wt);
    lemma_replaced_absent(s, "${BRANCH}"@, branch);
    lemma_replaced_absent(s, "${REPO_ROOT}"@, parent_of(wt));
}

/// Where a copy hook's expanded `to` lands: taken as given when absolute,
/// otherwise resolved under the worktree path, the way the destination of a
/// relative path joined onto the worktree directory resolves.
pub open spec fn copy_destination(wt: Seq<char>, to: Seq<char>) -> Seq<char> {
    if to.len() > 0 && to[0] == '/' {
        to
    } else {
        (wt + "/"@) + to
    }
}

/// One concrete unit of work a hook was resolved to, every string expanded.
#[derive(Debug, Clone)]
pub enum HookAction {
    /// Copy the file at `from` to the destination `to`, already resolved
    /// under the new worktree.
    CopyFile { from: String, to: String },
    /// Run `command` through a shell in `workdir` with `env` added.
    RunCommand { command: String, env: Vec<(String, String)>, workdir: String },
}

/// A hook declares every field its kind needs.
pub open spec fn hook_valid(h: Hook) -> bool {
    match h.hook_type {
        HookType::Copy => h.from is Some && h.to is Some,
        HookType::Command => h.command is Some,
    }
}

/// The complaint raised for a hook that is missing a field.
pub open spec fn missing_field_message(h: Hook) -> Seq<char> {
    match h.hook_type {
        HookType::Copy => {
            if h.from is None {
                "Copy hook requires 'from' field"@
            } else {
                "Copy hook requires 'to' field"@
            }
        },
        HookType::Command => "Command hook requires 'command' field"@,
    }
}

/// The action `a` is exactly what hook `h` declares, with every string field
/// expanded against the worktree path and branch.
pub open spec fn action_matches(h: Hook, a: HookAction, wt: Seq<char>, br: Seq<char>) -> bool {
    match h.hook_type {
        HookType::Copy => match a {
            HookAction::CopyFile { from, to } => {
                &&& h.from matches Some(f) && from@ == expanded(f@, wt, br)
                &&& h.to matches Some(t) && to@ == copy_destination(wt, expanded(t@, wt, br))
            },
            _ => false,
        },
        HookType::Command => match a {
            HookAction::RunCommand { command, env, workdir } => {
                &&& h.command matches Some(c) && command@ == expanded(c@, wt, br)
                &&& workdir@ == wt
                &&& match h.env {
                    Some(he) => {
                        &&& env@.len() == he@.len()
                        &&& forall|i: int|
                            0 <= i < he@.len() ==> env@[i].0@ == he@[i].0@ && env@[i].1@
                                == expanded(he@[i].1@, wt, br)
                    },
                    None => env@.len() == 0,
                }
            },
            _ => false,
        },
    }
}

/// The position of the first invalid hook, or -1 when all are valid.
pub open spec fn first_invalid(hs: Seq<Hook>) -> int
    decreases hs.len(),
{
    if hs.len() == 0 {
        -1
    } else if !hook_valid(hs[0]) {
        0
    } else {
        let r = first_invalid(hs.skip(1));
        if r < 0 {
            -1
        } else {
            r + 1
        }
    }
}

proof fn lemma_first_invalid_at(hs: Seq<Hook>, i: int)
    requires
        0 <= i < hs.len(),
        forall|k: int| 0 <= k < i ==> hook_valid(#[trigger] hs[k]),
        !hook_valid(hs[i]),
    ensures
        first_invalid(hs) == i,
    decreases i,
{
    if i == 0 {
    } else {
        lemma_first_invalid_at(hs.skip(1), i - 1);
    }
}

proof fn lemma_first_invalid_none(hs: Seq<Hook>)
    requires
        forall|k: int| 0 <= k < hs.len() ==> hook_valid(#[trigger] hs[k]),
    ensures
        first_invalid(hs) == -1,
    decreases hs.len(),
{
    if hs.len() > 0 {
        lemma_first_invalid_none(hs.skip(1));
    }
}

/// Runs the declared hooks, here meaning: resolves them, strictly in order,
/// into the actions the caller is to perform, stopping at the first hook
/// that is missing a field its kind needs.
pub struct HookExecutor;

impl HookExecutor {
    /// A fresh executor; it carries no state.
    pub fn new() -> (r: Self) {
        HookExecutor
    }

    /// Stand-in used by tests that only need a hook run to be observable.
    pub fn mock_execute() -> (r: bool)
        ensures
            r,
    {
        true
    }

    /// Expands the three placeholders in `command` for the given worktree
    /// path and branch.
    pub fn expand_variables(&self, command: &str, worktree_path: &str, branch: &str) -> (r: String)
        ensures
            r@ == expanded(command@, worktree_path@, branch@),
    {
        let root = parent_dir(worktree_path);
        let step1 = replace_all(command, "${WORKTREE_PATH}", worktree_path);
        let step2 = replace_all(step1.as_str(), "${BRANCH}", branch);
        replace_all(step2.as_str(), "${REPO_ROOT}", root.as_str())
    }

    /// Resolves one copy hook, rejecting it when `from` or `to` is missing.
    pub fn plan_copy_hook(&self, hook: &Hook, worktree_path: &str, branch: &str) -> (r: Result<
        HookAction,
        GitGardenerError,
    >)
        requires
            hook.hook_type is Copy,
        ensures
            hook_valid(*hook) ==> (r matches Ok(a) && action_matches(
                *hook,
                a,
                worktree_path@,
                branch@,
            )),
            !hook_valid(*hook) ==> (r matches Err(e) && (e matches GitGardenerError::Custom(m)
                && m@ == missing_field_message(*hook))),
    {
        let from = match &hook.from {
            Some(f) => f,
            None => {
                let m = "Copy hook requires 'from' field";
                return Err(GitGardenerError::Custom(m.to_owned()));
            },
        };
        let to = match &hook.to {
            Some(t) => t,
            None => {
                let m = "Copy hook requires 'to' field";
                return Err(GitGardenerError::Custom(m.to_owned()));
            },
        };
        let expanded_to = self.expand_variables(to.as_str(), worktree_path, branch);
        let destination = if expanded_to.unicode_len() > 0 && expanded_to.as_str().get_char(0)
            == '/' {
            expanded_to
        } else {
            let mut d = worktree_path.to_owned();
            d.append("/");
            d.append(expanded_to.as_str());
            d
        };
        Ok(
            HookAction::CopyFile {
                from: self.expand_variables(from.as_str(), worktree_path, branch),
                to: destination,
            },
        )
    }

    /// Resolves one command hook, rejecting it when `command` is missing;
    /// the command and every environment value are expanded.
    pub fn plan_command_hook(&self, hook: &Hook, worktree_path: &str, branch: &str) -> (r: Result<
        HookAction,
        GitGardenerError,
    >)
        requires
            hook.hook_type is Command,
        ensures
            hook_valid(*hook) ==> (r matches Ok(a) && action_matches(
                *hook,
                a,
                worktree_path@,
                branch@,
            )),
            !hook_valid(*hook) ==> (r matches Err(e) && (e matches GitGardenerError::Custom(m)
                && m@ == missing_field_message(*hook))),
    {
        let command = match &hook.command {
            Some(c) => c,
            None => {
                let m = "Command hook requires 'command' field";
                return Err(GitGardenerError::Custom(m.to_owned()));
            },
        };
        let mut env: Vec<(String, String)> = Vec::new();
        match &hook.env {
            Some(pairs) => {
                let mut i: usize = 0;
                while i < pairs.len()
                    invariant
                        i <= pairs@.len(),
                        env@.len() == i,
                        forall|k: int|
                            0 <= k < i ==> env@[k].0@ == pairs@[k].0@ && env@[k].1@ == expanded(
                                pairs@[k].1@,
                                worktree_path@,
                                branch@,
                            ),
                    decreases pairs@.len() - i,
                {
                    let key = pairs[i].0.clone();
                    let value = self.expand_variables(pairs[i].1.as_str(), worktree_path, branch);
                    env.push((key, value));
                    i += 1;
                }
            },
            None => {},
        }
        Ok(
            HookAction::RunCommand {
                command: self.expand_variables(command.as_str(), worktree_path, branch),
                env,
                workdir: worktree_path.to_owned(),
            },
        )
    }

    /// Resolves the declared hooks, strictly in order, into the concrete
    /// actions to perform. The first hook missing a required field aborts
    /// the whole plan with that hook's complaint; hooks after it are not
    /// looked at, so nothing of theirs is ever performed.
    pub fn execute_hooks(&self, worktree_path: &str, branch: &str, hooks: &[Hook]) -> (r: Result<
        Vec<HookAction>,
        GitGardenerError,
    >)
        ensures
            first_invalid(hooks@) < 0 ==> (r matches Ok(v) && v@.len() == hooks@.len() && (forall|
                i: int,
            |
                0 <= i < hooks@.len() ==> action_matches(
                    hooks@[i],
                    #[trigger] v@[i],
                    worktree_path@,
                    branch@,
                ))),
            first_invalid(hooks@) >= 0 ==> (r matches Err(e) && (e
                matches GitGardenerError::Custom(m) && m@ == missing_field_message(
                hooks@[first_invalid(hooks@)],
            ))),
    {
        let mut actions: Vec<HookAction> = Vec::new();
        let n = hooks.len();
        let mut i: usize = 0;
        while i < n
            invariant
                i <= n == hooks@.len(),
                actions@.len() == i,
                forall|k: int| 0 <= k < i ==> hook_valid(#[trigger] hooks@[k]),
                forall|k: int|
                    0 <= k < i ==> action_matches(
                        hooks@[k],
                        #[trigger] actions@[k],
                        worktree_path@,
                        branch@,
                    ),
            decreases n - i,
        {
            let hook = &hooks[i];
            let planned = match hook.hook_type {
                HookType::Copy => self.plan_copy_hook(hook, worktree_path, branch),
                HookType::Command => self.plan_command_hook(hook, worktree_path, branch),
            };
            match planned {
                Ok(a) => {
                    actions.push(a);
                },
                Err(e) => {
                    proof {
                        lemma_first_invalid_at(hooks@, i as int);
                    }
                    return Err(e);
                },
            }
            i += 1;
        }
        proof {
            lemma_first_invalid_none(hooks@);
        }
        Ok(actions)
    }

    /// Resolves a plain list of post-creation commands by expanding each
    /// one; such a list has no fields to miss, so it always resolves.
    pub fn execute_post_create(&self, worktree_path: &str, branch: &str, commands: &[String]) -> (r:
        Result<Vec<String>, GitGardenerError>)
        ensures
            r matches Ok(v) && v@.len() == commands@.len() && (forall|i: int|
                0 <= i < commands@.len() ==> (#[trigger] v@[i])@ == expanded(
                    commands@[i]@,
                    worktree_path@,
                    branch@,
                )),
    {
        let mut out: Vec<String> = Vec::new();
        let n = commands.len();
        let mut i: usize = 0;
        while i < n
            invariant
                i <= n == commands@.len(),
                out@.len() == i,
                forall|k: int|
                    0 <= k < i ==> (#[trigger] out@[k])@ == expanded(
                        commands@[k]@,
                        worktree_path@,
                        branch@,
                    ),
            decreases n - i,
        {
            let expanded_cmd = self.expand_variables(
                commands[i].as_str(),
                worktree_path,
                branch,
            );
            out.push(expanded_cmd);
            i += 1;
        }
        Ok(out)
    }
}

/// A path whose stripped form is empty is made of separators only.
proof fn lemma_stripped_empty(s: Seq<char>)
    requires
        stripped_slashes(s).len() == 0,
    ensures
        forall|x: int| 0 <= x < s.len() ==> s[x] == '/',
    decreases s.len(),
{
    if s.len() > 0 {
        if s.last() == '/' {
            lemma_stripped_empty(s.drop_last());
            assert forall|x: int| 0 <= x < s.len() implies s[x] == '/' by {
                if x < s.len() - 1 {
                    assert(s.drop_last()[x] == s[x]);
                }
            }
        }
    }
}

/// The directory prefix of `path`, as `parent_of` describes.
pub fn parent_dir(path: &str) -> (r: String)
    ensures
        r@ == parent_of(path@),
{
    let n = path.unicode_len();
    let mut m: usize = n;
    proof {
        assert(path@.take(n as int) =~= path@);
    }
    while m > 0 && path.get_char(m - 1) == '/'
        invariant
            m <= n == path@.len(),
            stripped_slashes(path@) == stripped_slashes(path@.take(m as int)),
        decreases m,
    {
        proof {
            let cur = path@.take(m as int);
            assert(cur.last() == path@[m - 1]);
            assert(cur.drop_last() =~= path@.take(m as int - 1));
        }
        m -= 1;
    }
    let ghost q = path@.take(m as int);
    proof {
        if m > 0 {
            assert(q.last() == path@[m - 1]);
            assert(stripped_slashes(q) == q);
        } else {
            assert(q =~= Seq::<char>::empty());
        }
    }
    if m == 0 {
        // empty, or separators only: such a path is its own parent
        return path.to_owned();
    }
    let mut k: usize = m;
    proof {
        assert(q.take(m as int) =~= q);
    }
    while k > 0
        invariant
            0 < m <= n == path@.len(),
            k <= m,
            q == path@.take(m as int),
            stripped_slashes(path@) == q,
            last_index_of(q, '/') == last_index_of(q.take(k as int), '/'),
        decreases k,
    {
        if path.get_char(k - 1) == '/' {
            proof {
                assert(q.take(k as int)[k - 1] == path@[k as int - 1]);
                assert(q.take(k as int).last() == q[k as int - 1]);
                assert(last_index_of(q.take(k as int), '/') == k - 1);
            }
            let ghost i = k as int - 1;
            let mut j: usize = k - 1;
            proof {
                assert(q.take(i) =~= path@.take(i));
            }
            while j > 0 && path.get_char(j - 1) == '/'
                invariant
                    j <= k - 1 < m <= n == path@.len(),
                    q == path@.take(m as int),
                    i == k as int - 1,
                    stripped_slashes(q.take(i)) == stripped_slashes(path@.take(j as int)),
                decreases j,
            {
                proof {
                    let cur = path@.take(j as int);
                    assert(cur.last() == path@[j - 1]);
                    assert(cur.drop_last() =~= path@.take(j as int - 1));
                }
                j -= 1;
            }
            if j == 0 {
                proof {
                    assert(path@.take(0int) =~= Seq::<char>::empty());
                    assert(stripped_slashes(q.take(i)).len() == 0);
                    lemma_stripped_empty(q.take(i));
                    if i > 0 {
                        assert(q.take(i)[0] == q[0]);
                    } else {
                        assert(q[i] == '/');
                    }
                    assert(q[0] == '/');
                    assert(path@.subrange(0, 1) =~= q.take(1));
                }
                let root = path.substring_char(0, 1);
                return root.to_owned();
            }
            proof {
                let pre = path@.take(j as int);
                assert(pre.last() == path@[j - 1]);
                assert(stripped_slashes(pre) == pre);
                assert(path@.subrange(0, j as int) =~= pre);
            }
            let prefix = path.substring_char(0, j);
            return prefix.to_owned();
        }
        proof {
            let cur = q.take(k as int);
            assert(cur[k - 1] == path@[k as int - 1]);
            assert(cur.last() != '/');
            assert(cur.take(cur.len() - 1) =~= q.take(k as int - 1));
        }
        k -= 1;
    }
    proof {
        assert(q.take(0int) =~= Seq::<char>::empty());
        assert(last_index_of(q, '/') == -1);
    }
    String::new()
}

/// What a run in a given state offers to perform next: the index of the
/// pending action, or nothing once every action ran or one has failed.
pub open spec fn pipeline_offers(run: HookRun) -> Option<int> {
    if run.failure is Some {
        None
    } else if run.next_index < run.actions@.len() {
        Some(run.next_index as int)
    } else {
        None
    }
}

/// One pipeline run over resolved hook actions. The caller asks for the next
/// action, performs it, and reports how it went; the run hands out actions
/// strictly in order and stops at the first reported failure.
pub struct HookRun {
    /// The resolved actions, in declaration order.
    pub actions: Vec<HookAction>,
    /// How many actions have been handed out and reported on.
    pub next_index: usize,
    /// The detail of the first reported failure, once one was reported.
    pub failure: Option<String>,
}

impl HookRun {
    /// The cursor never passes the end of the action list.
    pub open spec fn wf(&self) -> bool {
        self.next_index <= self.actions@.len()
    }

    /// A run over `actions` with nothing performed yet.
    pub fn new(actions: Vec<HookAction>) -> (r: HookRun)
        ensures
            r.actions == actions,
            r.next_index == 0,
            r.failure is None,
            r.wf(),
    {
        HookRun { actions, next_index: 0, failure: None }
    }

    /// The action to perform next, or nothing when the run is over —
    /// either because every action ran or because one failed.
    pub fn next_action(&self) -> (r: Option<&HookAction>)
        ensures
            pipeline_offers(*self) is None ==> r is None,
            pipeline_offers(*self) matches Some(i) ==> (r matches Some(a) && *a
                == self.actions@[i]),
    {
        match &self.failure {
            Some(_) => None,
            None => {
                if self.next_index < self.actions.len() {
                    Some(&self.actions[self.next_index])
                } else {
                    None
                }
            },
        }
    }

    /// Reports that the pending action succeeded; the run moves on.
    pub fn record_success(&mut self)
        requires
            old(self).wf(),
            pipeline_offers(*old(self)) is Some,
        ensures
            final(self).actions == old(self).actions,
            final(self).failure is None,
            final(self).next_index == old(self).next_index + 1,
            final(self).wf(),
    {
        let n = self.actions.len();
        assert(self.next_index < n);
        self.next_index += 1;
    }

    /// Reports that the pending action failed. Only a run without a failure
    /// accepts a report, so the detail kept is always the first failure's,
    /// and afterwards the run offers no further action.
    pub fn record_failure(&mut self, detail: String)
        requires
            old(self).wf(),
            pipeline_offers(*old(self)) is Some,
        ensures
            final(self).actions == old(self).actions,
            final(self).next_index == old(self).next_index,
            final(self).failure matches Some(d) && d == detail,
            pipeline_offers(*final(self)) is None,
            final(self).wf(),
    {
        self.failure = Some(detail);
    }

    /// How many actions completed before the run stopped or finished.
    pub fn completed_count(&self) -> (r: usize)
        ensures
            r == self.next_index,
    {
        self.next_index
    }

    /// The result of the whole run: the first failure, or success when
    /// every action was performed.
    pub fn outcome(&self) -> (r: Result<(), GitGardenerError>)
        ensures
            self.failure is None ==> r is Ok,
            self.failure matches Some(d) ==> (r matches Err(e) && (e
                matches GitGardenerError::Custom(m) && m@ == d@)),
    {
        match &self.failure {
            None => Ok(()),
            Some(d) => Err(GitGardenerError::Custom(d.clone())),
        }
    }
}

/// Fail-fast law: a run that has seen a failure never offers another action,
/// so the side effects of the hooks after the failing one are never asked
/// for, and the error reported is the first failure's, since a run accepts a
/// failure report only while it has none.
pub proof fn lemma_hook_fail_fast(run: HookRun)
    requires
        run.failure is Some,
    ensures
        pipeline_offers(run) is None,
{
}

} // verus!
