//! Whitespace classification and whitespace-separated tokenization.
//!
//! A configured base command is a single string such as `npx -y @cline/cli`;
//! before it can be spawned it is split into its whitespace-separated tokens,
//! the first of which names the program.  Validation likewise rejects
//! commands that consist of whitespace alone.  Both notions are defined here
//! over sequences of characters and proved about the executable splitter.

use vstd::prelude::*;
use vstd::string::StrSliceExecFns;

verus! {

/// A character with the Unicode `White_Space` property: the set that
/// `str::trim` and `char::is_whitespace` recognize.
pub open spec fn ws_char(c: char) -> bool {
    let n = c as u32;
    n == 0x09 || n == 0x0A || n == 0x0B || n == 0x0C || n == 0x0D || n == 0x20 || n == 0x85
        || n == 0xA0 || n == 0x1680 || (0x2000 <= n && n <= 0x200A) || n == 0x2028 || n == 0x2029
        || n == 0x202F || n == 0x205F || n == 0x3000
}

/// Whether `s` is empty or consists of whitespace characters alone.
pub open spec fn blank(s: Seq<char>) -> bool {
    forall|i: int| 0 <= i < s.len() ==> ws_char(#[trigger] s[i])
}

/// Runtime test for [`ws_char`].
pub fn is_ws_char(c: char) -> (r: bool)
    ensures
        r == ws_char(c),
{
    let n = c as u32;
    n == 0x09 || n == 0x0A || n == 0x0B || n == 0x0C || n == 0x0D || n == 0x20 || n == 0x85
        || n == 0xA0 || n == 0x1680 || (0x2000 <= n && n <= 0x200A) || n == 0x2028 || n == 0x2029
        || n == 0x202F || n == 0x205F || n == 0x3000
}

/// Runtime test for [`blank`].
pub fn is_blank(s: &str) -> (r: bool)
    ensures
        r == blank(s@),
{
    let n = s.unicode_len();
    let mut i: usize = 0;
    while i < n
        invariant
            i <= n,
            n == s@.len(),
            forall|k: int| 0 <= k < i ==> ws_char(#[trigger] s@[k]),
        decreases n - i,
    {
        if !is_ws_char(s.get_char(i)) {
            return false;
        }
        i = i + 1;
    }
    true
}

/// Length of the leading run of non-whitespace characters of `s`.
pub open spec fn head_run(s: Seq<char>) -> nat
    decreases s.len(),
{
    if s.len() == 0 || ws_char(s[0]) {
        0
    } else {
        (1 + head_run(s.skip(1))) as nat
    }
}

pub proof fn lemma_head_run_le_len(s: Seq<char>)
    ensures
        head_run(s) <= s.len(),
    decreases s.len(),
{
    if s.len() == 0 || ws_char(s[0]) {
    } else {
        lemma_head_run_le_len(s.skip(1));
    }
}

/// `head_run` is pinned down by its boundary: `n` non-whitespace characters
/// followed by the end of the string or a whitespace character.
pub proof fn lemma_head_run_exact(s: Seq<char>, n: int)
    requires
        0 <= n <= s.len(),
        forall|i: int| 0 <= i < n ==> !ws_char(#[trigger] s[i]),
        n < s.len() ==> ws_char(s[n]),
    ensures
        head_run(s) == n,
    decreases n,
{
    if n == 0 {
    } else {
        let t = s.skip(1);
        assert forall|i: int| 0 <= i < n - 1 implies !ws_char(#[trigger] t[i]) by {
            assert(t[i] == s[i + 1]);
        }
        if n - 1 < t.len() {
            assert(t[n - 1] == s[n]);
        }
        lemma_head_run_exact(t, n - 1);
    }
}

/// The whitespace-separated tokens of `s`, in order: its maximal runs of
/// non-whitespace characters.
pub open spec fn tokens_of(s: Seq<char>) -> Seq<Seq<char>>
    decreases s.len(),
    via tokens_of_decreases
{
    if s.len() == 0 {
        Seq::empty()
    } else if ws_char(s[0]) {
        tokens_of(s.skip(1))
    } else {
        seq![s.take(head_run(s) as int)] + tokens_of(s.skip(head_run(s) as int))
    }
}

#[via_fn]
proof fn tokens_of_decreases(s: Seq<char>) {
    if s.len() > 0 && !ws_char(s[0]) {
        lemma_head_run_le_len(s);
    }
}

/// Dropping a leading whitespace character leaves the tokens unchanged.
pub proof fn lemma_tokens_of_skip_ws(s: Seq<char>)
    requires
        s.len() > 0,
        ws_char(s[0]),
    ensures
        tokens_of(s) == tokens_of(s.skip(1)),
{
}

/// A maximal leading run of `j` non-whitespace characters is the first token.
pub proof fn lemma_tokens_of_step(s: Seq<char>, j: int)
    requires
        0 < j <= s.len(),
        forall|i: int| 0 <= i < j ==> !ws_char(#[trigger] s[i]),
        j < s.len() ==> ws_char(s[j]),
    ensures
        tokens_of(s) == seq![s.take(j)] + tokens_of(s.skip(j)),
{
    lemma_head_run_exact(s, j);
}

/// A string has no tokens exactly when it is blank.
pub proof fn lemma_tokens_of_blank(s: Seq<char>)
    ensures
        tokens_of(s).len() == 0 <==> blank(s),
    decreases s.len(),
{
    if s.len() == 0 {
    } else if ws_char(s[0]) {
        let t = s.skip(1);
        lemma_tokens_of_blank(t);
        if blank(t) {
            assert forall|i: int| 0 <= i < s.len() implies ws_char(#[trigger] s[i]) by {
                if i > 0 {
                    assert(t[i - 1] == s[i]);
                }
            }
        } else {
            let w = choose|i: int| 0 <= i < t.len() && !ws_char(t[i]);
            assert(s[w + 1] == t[w]);
            assert(!blank(s));
        }
    } else {
        assert(!ws_char(s[0]));
        assert(!blank(s));
        assert(tokens_of(s).len() >= 1);
    }
}

/// Split `s` into its whitespace-separated tokens.
pub fn tokenize(s: &str) -> (tokens: Vec<String>)
    ensures
        tokens.deep_view() == tokens_of(s@),
{
    let n = s.unicode_len();
    let mut tokens: Vec<String> = Vec::new();
    let mut i: usize = 0;
    proof {
        assert(s@.skip(0) =~= s@);
        assert(tokens.deep_view() =~= Seq::<Seq<char>>::empty());
    }
    while i < n
        invariant
            i <= n,
            n == s@.len(),
            tokens_of(s@) == tokens.deep_view() + tokens_of(s@.skip(i as int)),
        decreases n - i,
    {
        if is_ws_char(s.get_char(i)) {
            proof {
                let t = s@.skip(i as int);
                assert(t[0] == s@[i as int]);
                lemma_tokens_of_skip_ws(t);
                assert(t.skip(1) =~= s@.skip(i as int + 1));
            }
            i = i + 1;
        } else {
            let start = i;
            let mut j = i + 1;
            while j < n && !is_ws_char(s.get_char(j))
                invariant
                    start < j <= n,
                    n == s@.len(),
                    start < n,
                    forall|k: int| start <= k < j ==> !ws_char(#[trigger] s@[k]),
                decreases n - j,
            {
                j = j + 1;
            }
            let tok = s.substring_char(start, j).to_owned();
            let ghost prev = tokens.deep_view();
            tokens.push(tok);
            proof {
                let t = s@.skip(start as int);
                let jj = (j - start) as int;
                assert forall|k: int| 0 <= k < jj implies !ws_char(#[trigger] t[k]) by {
                    assert(t[k] == s@[start + k]);
                }
                if jj < t.len() {
                    assert(t[jj] == s@[j as int]);
                }
                lemma_tokens_of_step(t, jj);
                assert(t.take(jj) =~= s@.subrange(start as int, j as int));
                assert(t.skip(jj) =~= s@.skip(j as int));
                assert(tok@ == t.take(jj));
                assert(tokens.deep_view() =~= prev.push(tok@));
                assert(prev + (seq![tok@] + tokens_of(s@.skip(j as int))) =~= (prev.push(tok@))
                    + tokens_of(s@.skip(j as int)));
            }
            i = j;
        }
    }
    proof {
        assert(s@.skip(n as int) =~= Seq::<char>::empty());
        assert(tokens_of(Seq::<char>::empty()) =~= Seq::<Seq<char>>::empty());
        assert(tokens.deep_view() + Seq::<Seq<char>>::empty() =~= tokens.deep_view());
    }
    tokens
}

} // verus!
