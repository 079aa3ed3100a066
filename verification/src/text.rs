//! Character-level string utilities: substring search, replacement,
//! trimming and decimal rendering, each specified over `Seq<char>` views.

use vstd::prelude::*;

verus! {

/// `pat` occurs in `s` starting at index `i`.
pub open spec fn matches_at(s: Seq<char>, pat: Seq<char>, i: int) -> bool {
    0 <= i && i + pat.len() <= s.len() && s.subrange(i, i + pat.len() as int) == pat
}

/// `pat` occurs somewhere in `s`.
pub open spec fn contains_seq(s: Seq<char>, pat: Seq<char>) -> bool {
    exists|i: int| matches_at(s, pat, i)
}

/// `s` with every occurrence of `pat` replaced by `sub`, scanning left to
/// right without overlap. An empty pattern leaves `s` unchanged.
pub open spec fn replaced(s: Seq<char>, pat: Seq<char>, sub: Seq<char>) -> Seq<char>
    decreases s.len(),
{
    if pat.len() == 0 || s.len() < pat.len() {
        s
    } else if s.subrange(0, pat.len() as int) == pat {
        sub + replaced(s.skip(pat.len() as int), pat, sub)
    } else {
        seq![s[0]] + replaced(s.skip(1), pat, sub)
    }
}

/// Replacement leaves a string without any occurrence of the pattern unchanged.
pub proof fn lemma_replaced_absent(s: Seq<char>, pat: Seq<char>, sub: Seq<char>)
    requires
        !contains_seq(s, pat),
    ensures
        replaced(s, pat, sub) == s,
    decreases s.len(),
{
    if pat.len() == 0 || s.len() < pat.len() {
    } else if s.subrange(0, pat.len() as int) == pat {
        assert(matches_at(s, pat, 0));
    } else {
        assert forall|i: int| !matches_at(s.skip(1), pat, i) by {
            if matches_at(s.skip(1), pat, i) {
                assert(s.subrange(i + 1, i + 1 + pat.len() as int) == s.skip(1).subrange(
                    i,
                    i + pat.len() as int,
                ));
                assert(matches_at(s, pat, i + 1));
            }
        }
        lemma_replaced_absent(s.skip(1), pat, sub);
        assert(seq![s[0]] + s.skip(1) =~= s);
    }
}

/// `pat` occurs in `s` at `i`, checked by comparing characters.
pub fn match_at(s: &str, pat: &str, i: usize) -> (r: bool)
    requires
        i + pat@.len() <= s@.len(),
    ensures
        r == matches_at(s@, pat@, i as int),
{
    let n = pat.unicode_len();
    let sl = s.unicode_len();
    let mut j: usize = 0;
    while j < n
        invariant
            j <= n,
            n == pat@.len(),
            sl == s@.len(),
            i + n <= s@.len(),
            forall|k: int| 0 <= k < j ==> s@[i + k] == pat@[k],
        decreases n - j,
    {
        if s.get_char(i + j) != pat.get_char(j) {
            assert(s@.subrange(i as int, i + n as int)[j as int] != pat@[j as int]);
            return false;
        }
        j += 1;
    }
    assert(s@.subrange(i as int, i + n as int) =~= pat@);
    true
}

/// Whether `pat` occurs anywhere in `s`.
pub fn contains_str(s: &str, pat: &str) -> (r: bool)
    ensures
        r == contains_seq(s@, pat@),
{
    let n = s.unicode_len();
    let p = pat.unicode_len();
    if p > n {
        assert forall|i: int| !matches_at(s@, pat@, i) by {}
        return false;
    }
    if p == 0 {
        proof {
            assert(s@.subrange(0, 0) =~= pat@);
            assert(matches_at(s@, pat@, 0));
        }
        return true;
    }
    let mut i: usize = 0;
    while i <= n - p
        invariant
            1 <= p <= n,
            n == s@.len(),
            p == pat@.len(),
            i <= n - p + 1,
            forall|k: int| 0 <= k < i ==> !matches_at(s@, pat@, k),
        decreases n + 1 - i,
    {
        if match_at(s, pat, i) {
            return true;
        }
        i += 1;
    }
    assert forall|k: int| !matches_at(s@, pat@, k) by {
        if matches_at(s@, pat@, k) {
            assert(0 <= k < i);
        }
    }
    false
}

/// After a match at `i`, replacement of the tail from `i` starts with `sub`.
proof fn lemma_replaced_step_match(s: Seq<char>, pat: Seq<char>, sub: Seq<char>, i: int)
    requires
        0 < pat.len(),
        matches_at(s, pat, i),
    ensures
        replaced(s.skip(i), pat, sub) == sub + replaced(s.skip(i + pat.len()), pat, sub),
{
    let rest = s.skip(i);
    assert(rest.subrange(0, pat.len() as int) =~= s.subrange(i, i + pat.len() as int));
    assert(rest.skip(pat.len() as int) =~= s.skip(i + pat.len()));
}

/// Without a match at `i`, replacement of the tail from `i` keeps `s[i]`.
proof fn lemma_replaced_step_nomatch(s: Seq<char>, pat: Seq<char>, sub: Seq<char>, i: int)
    requires
        0 < pat.len(),
        0 <= i < s.len(),
        !matches_at(s, pat, i),
    ensures
        replaced(s.skip(i), pat, sub) == seq![s[i]] + replaced(s.skip(i + 1), pat, sub),
{
    let rest = s.skip(i);
    assert(rest.skip(1) =~= s.skip(i + 1));
    if rest.len() < pat.len() {
        assert(replaced(rest, pat, sub) == rest);
        assert(s.skip(i + 1).len() < pat.len());
        assert(replaced(s.skip(i + 1), pat, sub) == s.skip(i + 1));
        assert(rest =~= seq![rest[0]] + s.skip(i + 1));
        assert(rest[0] == s[i]);
    } else {
        assert(rest.subrange(0, pat.len() as int) =~= s.subrange(i, i + pat.len() as int));
        assert(rest.subrange(0, pat.len() as int) != pat);
        assert(replaced(rest, pat, sub) == seq![rest[0]] + replaced(rest.skip(1), pat, sub));
        assert(rest[0] == s[i]);
    }
}

/// `s` with every occurrence of `pat` replaced by `sub`, scanning left to
/// right without overlap.
pub fn replace_all(s: &str, pat: &str, sub: &str) -> (r: String)
    ensures
        r@ == replaced(s@, pat@, sub@),
{
    let n = s.unicode_len();
    let p = pat.unicode_len();
    if p == 0 {
        return s.to_owned();
    }
    let mut out = String::new();
    let mut i: usize = 0;
    proof {
        assert(s@.skip(0) =~= s@);
        assert(Seq::<char>::empty() + replaced(s@, pat@, sub@) =~= replaced(s@, pat@, sub@));
    }
    while i < n
        invariant
            0 < p == pat@.len(),
            n == s@.len(),
            i <= n,
            out@ + replaced(s@.skip(i as int), pat@, sub@) == replaced(s@, pat@, sub@),
        decreases n - i,
    {
        let ghost pre = out@;
        if p <= n - i && match_at(s, pat, i) {
            proof {
                lemma_replaced_step_match(s@, pat@, sub@, i as int);
                assert((pre + sub@) + replaced(s@.skip(i + p as int), pat@, sub@) =~= pre + (sub@
                    + replaced(s@.skip(i + p as int), pat@, sub@)));
            }
            out.append(sub);
            i += p;
        } else {
            proof {
                if p <= n - i {
                } else {
                    assert(s@.skip(i as int).len() < p);
                    assert(!matches_at(s@, pat@, i as int));
                }
                lemma_replaced_step_nomatch(s@, pat@, sub@, i as int);
                assert(s@.subrange(i as int, i + 1) =~= seq![s@[i as int]]);
                assert((pre + seq![s@[i as int]]) + replaced(s@.skip(i + 1), pat@, sub@) =~= pre
                    + (seq![s@[i as int]] + replaced(s@.skip(i + 1), pat@, sub@)));
            }
            let c = s.substring_char(i, i + 1);
            out.append(c);
            i += 1;
        }
    }
    proof {
        assert(s@.skip(n as int) =~= Seq::<char>::empty());
        assert(replaced(s@.skip(n as int), pat@, sub@) == s@.skip(n as int));
        assert(out@ + Seq::<char>::empty() =~= out@);
    }
    out
}

/// The largest index at which `c` occurs in `s`, or -1 when it does not.
pub open spec fn last_index_of(s: Seq<char>, c: char) -> int
    decreases s.len(),
{
    if s.len() == 0 {
        -1
    } else if s[s.len() - 1] == c {
        s.len() - 1
    } else {
        last_index_of(s.take(s.len() - 1), c)
    }
}

/// The characters treated as blank when trimming.
pub open spec fn is_space_char(c: char) -> bool {
    c == ' ' || c == '\t' || c == '\n' || c == '\r'
}

/// `s` without leading blank characters.
pub open spec fn trimmed_front(s: Seq<char>) -> Seq<char>
    decreases s.len(),
{
    if s.len() > 0 && is_space_char(s[0]) {
        trimmed_front(s.skip(1))
    } else {
        s
    }
}

/// `s` without trailing blank characters.
pub open spec fn trimmed_back(s: Seq<char>) -> Seq<char>
    decreases s.len(),
{
    if s.len() > 0 && is_space_char(s[s.len() - 1]) {
        trimmed_back(s.take(s.len() - 1))
    } else {
        s
    }
}

/// `s` without leading and trailing blank characters.
pub open spec fn trimmed(s: Seq<char>) -> Seq<char> {
    trimmed_back(trimmed_front(s))
}

/// `s` with leading and trailing blanks removed.
pub fn trim_str(s: &str) -> (r: String)
    ensures
        r@ == trimmed(s@),
{
    let n = s.unicode_len();
    let mut a: usize = 0;
    proof {
        assert(s@.skip(0) =~= s@);
    }
    while a < n && is_space_exec(s.get_char(a))
        invariant
            a <= n,
            n == s@.len(),
            trimmed_front(s@) == trimmed_front(s@.skip(a as int)),
            forall|k: int| 0 <= k < a ==> is_space_char(s@[k]),
        decreases n - a,
    {
        proof {
            assert(s@.skip(a as int).skip(1) =~= s@.skip(a + 1));
        }
        a += 1;
    }
    proof {
        if a < n {
            assert(trimmed_front(s@.skip(a as int)) == s@.skip(a as int));
        } else {
            assert(s@.skip(a as int) =~= Seq::<char>::empty());
        }
    }
    let mut b: usize = n;
    proof {
        assert(s@.skip(a as int).take(n as int - a as int) =~= s@.skip(a as int));
    }
    while b > a && is_space_exec(s.get_char(b - 1))
        invariant
            a <= b <= n,
            n == s@.len(),
            trimmed_front(s@) == s@.skip(a as int),
            trimmed_back(s@.skip(a as int)) == trimmed_back(
                s@.skip(a as int).take(b as int - a as int),
            ),
        decreases b,
    {
        proof {
            let cur = s@.skip(a as int).take(b as int - a as int);
            assert(cur.len() == b - a);
            assert(cur[b as int - a as int - 1] == s@[b as int - 1]);
            assert(cur.take(cur.len() - 1) =~= s@.skip(a as int).take(
                b as int - 1 - a as int,
            ));
        }
        b -= 1;
    }
    proof {
        let cur = s@.skip(a as int).take(b as int - a as int);
        if b > a {
            assert(cur[b as int - a as int - 1] == s@[b as int - 1]);
            assert(trimmed_back(cur) == cur);
        } else {
            assert(cur =~= Seq::<char>::empty());
        }
        assert(cur =~= s@.subrange(a as int, b as int));
    }
    let r = s.substring_char(a, b);
    r.to_owned()
}

/// Whether `c` is a blank character.
pub fn is_space_exec(c: char) -> (r: bool)
    ensures
        r == is_space_char(c),
{
    c == ' ' || c == '\t' || c == '\n' || c == '\r'
}

/// Character-for-character equality of two strings.
pub fn str_eq(a: &str, b: &str) -> (r: bool)
    ensures
        r == (a@ == b@),
{
    let n = a.unicode_len();
    if n != b.unicode_len() {
        return false;
    }
    let mut i: usize = 0;
    while i < n
        invariant
            i <= n,
            n == a@.len() == b@.len(),
            forall|k: int| 0 <= k < i ==> a@[k] == b@[k],
        decreases n - i,
    {
        if a.get_char(i) != b.get_char(i) {
            return false;
        }
        i += 1;
    }
    proof {
        assert(a@ =~= b@);
    }
    true
}

/// The decimal digit character for `n` (0 through 9).
pub open spec fn digit_char(n: nat) -> char {
    if n == 0 {
        '0'
    } else if n == 1 {
        '1'
    } else if n == 2 {
        '2'
    } else if n == 3 {
        '3'
    } else if n == 4 {
        '4'
    } else if n == 5 {
        '5'
    } else if n == 6 {
        '6'
    } else if n == 7 {
        '7'
    } else if n == 8 {
        '8'
    } else {
        '9'
    }
}

/// The decimal rendering of `n`, most significant digit first.
pub open spec fn dec_digits(n: nat) -> Seq<char>
    decreases n,
{
    if n < 10 {
        seq![digit_char(n)]
    } else {
        dec_digits(n / 10) + seq![digit_char(n % 10)]
    }
}

/// The decimal rendering of `n` as a string.
pub fn usize_string(n: usize) -> (r: String)
    ensures
        r@ == dec_digits(n as nat),
    decreases n,
{
    let digits = "0123456789";
    proof {
        reveal_strlit("0123456789");
    }
    let d = n % 10;
    assert(digits@[d as int] == digit_char((n % 10) as nat));
    let dch = digits.substring_char(d, d + 1);
    assert(dch@ =~= seq![digit_char((n % 10) as nat)]);
    if n < 10 {
        dch.to_owned()
    } else {
        let mut r = usize_string(n / 10);
        r.append(dch);
        r
    }
}

/// The strings in `parts` joined by `sep`, in order.
pub open spec fn joined(parts: Seq<Seq<char>>, sep: Seq<char>) -> Seq<char>
    decreases parts.len(),
{
    if parts.len() == 0 {
        Seq::empty()
    } else if parts.len() == 1 {
        parts[0]
    } else {
        parts[0] + sep + joined(parts.skip(1), sep)
    }
}

/// The strings in `parts` joined by `sep`.
pub fn join_strings(parts: &Vec<String>, sep: &str) -> (r: String)
    ensures
        r@ == joined(parts@.map_values(|p: String| p@), sep@),
{
    let ghost views = parts@.map_values(|p: String| p@);
    let mut out = String::new();
    let mut i: usize = 0;
    while i < parts.len()
        invariant
            i <= parts.len(),
            views == parts@.map_values(|p: String| p@),
            views.len() == parts@.len(),
            out@ == joined(views.take(i as int), sep@),
        decreases parts.len() - i,
    {
        if i > 0 {
            out.append(sep);
        }
        let part = &parts[i];
        out.append(part.as_str());
        proof {
            let upto = views.take(i + 1);
            assert(upto[0] == views[0]);
            if i == 0 {
                assert(upto.len() == 1);
                assert(joined(upto, sep@) == views[0]);
                assert(views.take(0int) =~= Seq::<Seq<char>>::empty());
            } else {
                lemma_joined_split(upto, sep@, i as int);
                assert(upto.take(i as int) =~= views.take(i as int));
                assert(upto.skip(i as int) =~= seq![views[i as int]]);
                assert(joined(seq![views[i as int]], sep@) == views[i as int]);
            }
        }
        i += 1;
    }
    proof {
        assert(views.take(parts@.len() as int) =~= views);
    }
    out
}

/// Splitting a join at an interior position.
proof fn lemma_joined_split(parts: Seq<Seq<char>>, sep: Seq<char>, i: int)
    requires
        0 < i < parts.len(),
    ensures
        joined(parts, sep) == joined(parts.take(i), sep) + sep + joined(parts.skip(i), sep),
    decreases i,
{
    if i == 1 {
        assert(parts.take(1int).len() == 1);
        assert(parts.take(1int)[0] == parts[0]);
        assert(joined(parts.take(1int), sep) == parts[0]);
        assert(joined(parts, sep) == parts[0] + sep + joined(parts.skip(1), sep));
    } else {
        let tail = parts.skip(1);
        lemma_joined_split(tail, sep, i - 1);
        assert(tail.take(i - 1) =~= parts.subrange(1, i));
        assert(tail.skip(i - 1) =~= parts.skip(i));
        let front = parts.take(i);
        assert(front.len() >= 2);
        assert(front[0] == parts[0]);
        assert(front.skip(1) =~= parts.subrange(1, i));
        assert(joined(front, sep) == parts[0] + sep + joined(parts.subrange(1, i), sep));
        assert(joined(parts, sep) == parts[0] + sep + joined(tail, sep));
        assert(joined(parts, sep) == parts[0] + sep + (joined(parts.subrange(1, i), sep) + sep
            + joined(parts.skip(i), sep)));
        assert(parts[0] + sep + (joined(parts.subrange(1, i), sep) + sep + joined(
            parts.skip(i),
            sep,
        )) =~= (parts[0] + sep + joined(parts.subrange(1, i), sep)) + sep + joined(
            parts.skip(i),
            sep,
        ));
    }
}


/// Some character of `s` is `c`.
pub open spec fn has_char(s: Seq<char>, c: char) -> bool {
    exists|i: int| 0 <= i < s.len() && s[i] == c
}

/// Whether `c` occurs in `s`.
pub fn str_has_char(s: &str, c: char) -> (r: bool)
    ensures
        r == has_char(s@, c),
{
    let n = s.unicode_len();
    let mut i: usize = 0;
    while i < n
        invariant
            i <= n == s@.len(),
            forall|k: int| 0 <= k < i ==> s@[k] != c,
        decreases n - i,
    {
        if s.get_char(i) == c {
            return true;
        }
        i += 1;
    }
    false
}

/// Relies on std: `String::push` appends one character.
#[verifier::external_body]
pub fn push_char(s: &mut String, c: char)
    ensures
        final(s)@ == old(s)@.push(c),
{
    s.push(c);
}

/// Relies on std: `String::pop` takes the last character off; an empty
/// string stays empty.
#[verifier::external_body]
pub fn pop_char(s: &mut String)
    ensures
        old(s)@.len() > 0 ==> final(s)@ == old(s)@.drop_last(),
        old(s)@.len() == 0 ==> final(s)@ == old(s)@,
{
    let _ = s.pop();
}


/// `s` split at every occurrence of `sep`, `cur` being the piece already
/// begun; each piece is kept as written.
pub open spec fn split_acc(s: Seq<char>, cur: Seq<char>, sep: char) -> Seq<Seq<char>>
    decreases s.len(),
{
    if s.len() == 0 {
        seq![cur]
    } else if s[0] == sep {
        seq![cur] + split_acc(s.skip(1), Seq::empty(), sep)
    } else {
        split_acc(s.skip(1), cur.push(s[0]), sep)
    }
}

/// The pieces of `s` between occurrences of `sep`.
pub open spec fn split_tokens(s: Seq<char>, sep: char) -> Seq<Seq<char>> {
    split_acc(s, Seq::empty(), sep)
}

/// Some piece of `s` between occurrences of `sep`, blanks trimmed, reads
/// exactly `w`.
pub open spec fn has_trimmed_token(s: Seq<char>, sep: char, w: Seq<char>) -> bool {
    exists|i: int|
        0 <= i < split_tokens(s, sep).len() && trimmed(#[trigger] split_tokens(s, sep)[i]) == w
}

/// Recording one more scanned piece keeps the found-flag exact: it holds
/// afterwards exactly when it held before or the new piece, trimmed, reads
/// `w`.
proof fn lemma_token_flag_push(done_pre: Seq<Seq<char>>, t: Seq<char>, w: Seq<char>, flag: bool)
    requires
        flag == ((exists|k: int|
            0 <= k < done_pre.len() && trimmed(#[trigger] done_pre[k]) == w) || trimmed(t) == w),
    ensures
        flag == (exists|k: int|
            0 <= k < done_pre.push(t).len() && trimmed(#[trigger] done_pre.push(t)[k]) == w),
{
    let done = done_pre.push(t);
    if flag {
        if exists|k: int| 0 <= k < done_pre.len() && trimmed(#[trigger] done_pre[k]) == w {
            let k = choose|k: int| 0 <= k < done_pre.len() && trimmed(#[trigger] done_pre[k]) == w;
            assert(done[k] == done_pre[k]);
            assert(trimmed(done[k]) == w);
        } else {
            assert(done[done.len() - 1] == t);
            assert(trimmed(done[done.len() - 1]) == w);
        }
    } else {
        assert forall|k: int| 0 <= k < done.len() implies trimmed(#[trigger] done[k]) != w by {
            if k < done_pre.len() {
                assert(done[k] == done_pre[k]);
            } else {
                assert(done[k] == t);
            }
        }
    }
}

/// Whether some piece of `s` between occurrences of `sep`, trimmed, reads
/// exactly `w`.
pub fn scan_for_token(s: &str, sep: char, w: &str) -> (r: bool)
    ensures
        r == has_trimmed_token(s@, sep, w@),
{
    let n = s.unicode_len();
    let mut cur = String::new();
    let mut found = false;
    let ghost mut done: Seq<Seq<char>> = Seq::empty();
    let mut i: usize = 0;
    proof {
        assert(s@.skip(0) =~= s@);
        assert(Seq::<Seq<char>>::empty() + split_acc(s@, Seq::empty(), sep) =~= split_acc(
            s@,
            Seq::empty(),
            sep,
        ));
    }
    while i < n
        invariant
            i <= n == s@.len(),
            split_tokens(s@, sep) == done + split_acc(s@.skip(i as int), cur@, sep),
            found == (exists|k: int| 0 <= k < done.len() && trimmed(#[trigger] done[k]) == w@),
        decreases n - i,
    {
        let ghost rest = s@.skip(i as int);
        let c = s.get_char(i);
        proof {
            assert(rest[0] == s@[i as int]);
            assert(rest.skip(1) =~= s@.skip(i + 1));
        }
        if c == sep {
            proof {
                assert(split_acc(rest, cur@, sep) == seq![cur@] + split_acc(
                    s@.skip(i + 1),
                    Seq::empty(),
                    sep,
                ));
                assert(done + (seq![cur@] + split_acc(s@.skip(i + 1), Seq::empty(), sep)) =~= (
                done.push(cur@)) + split_acc(s@.skip(i + 1), Seq::empty(), sep));
            }
            let token = trim_str(cur.as_str());
            let ghost done_pre = done;
            if str_eq(token.as_str(), w) {
                found = true;
            }
            proof {
                done = done.push(cur@);
                lemma_token_flag_push(done_pre, cur@, w@, found);
            }
            cur = String::new();
        } else {
            proof {
                assert(split_acc(rest, cur@, sep) == split_acc(s@.skip(i + 1), cur@.push(c), sep));
            }
            push_char(&mut cur, c);
        }
        i += 1;
    }
    proof {
        assert(s@.skip(n as int) =~= Seq::<char>::empty());
        assert(split_acc(s@.skip(n as int), cur@, sep) == seq![cur@]);
        assert(split_tokens(s@, sep) == done.push(cur@));
    }
    let token = trim_str(cur.as_str());
    let ghost done_pre = done;
    if str_eq(token.as_str(), w) {
        found = true;
    }
    proof {
        done = done.push(cur@);
        assert(done =~= split_tokens(s@, sep));
        lemma_token_flag_push(done_pre, cur@, w@, found);
    }
    found
}


/// The position of the first string in `s` that reads exactly `w`, or -1.
pub open spec fn first_eq(s: Seq<Seq<char>>, w: Seq<char>) -> int
    decreases s.len(),
{
    if s.len() == 0 {
        -1
    } else if s[0] == w {
        0
    } else {
        let r = first_eq(s.skip(1), w);
        if r < 0 {
            -1
        } else {
            r + 1
        }
    }
}

pub proof fn lemma_first_eq_at(s: Seq<Seq<char>>, w: Seq<char>, i: int)
    requires
        0 <= i < s.len(),
        forall|k: int| 0 <= k < i ==> #[trigger] s[k] != w,
        s[i] == w,
    ensures
        first_eq(s, w) == i,
    decreases i,
{
    if i > 0 {
        lemma_first_eq_at(s.skip(1), w, i - 1);
    }
}

pub proof fn lemma_first_eq_none(s: Seq<Seq<char>>, w: Seq<char>)
    requires
        forall|k: int| 0 <= k < s.len() ==> #[trigger] s[k] != w,
    ensures
        first_eq(s, w) == -1,
    decreases s.len(),
{
    if s.len() > 0 {
        lemma_first_eq_none(s.skip(1), w);
    }
}

} // verus!



