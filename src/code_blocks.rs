use vstd::prelude::*;
use vstd::string::StrSliceExecFns;
use vstd::string::StringExecFns;

use crate::text::chars_of;

verus! {

broadcast use vstd::string::group_string_axioms;

/// Whether `c` is in the Unicode word class `\w` (letters, marks, decimal
/// digits, connector punctuation and join controls).
pub uninterp spec fn is_word_char(c: char) -> bool;

/// Relies on `regex_syntax::is_word_character`: the Unicode `\w` class, the
/// same table that regular expressions use for `\w`.
#[verifier::external_body]
fn word_char(c: char) -> (r: bool)
    ensures
        r == is_word_char(c),
{
    regex_syntax::is_word_character(c)
}

/// Three backticks start at `i`.
pub open spec fn fence_at(t: Seq<char>, i: int) -> bool {
    &&& 0 <= i
    &&& i + 3 <= t.len()
    &&& t[i] == '`'
    &&& t[i + 1] == '`'
    &&& t[i + 2] == '`'
}

/// The length of the run of word characters that starts at `j`.
pub open spec fn word_run(t: Seq<char>, j: int) -> nat
    decreases t.len() - j,
{
    if 0 <= j < t.len() && is_word_char(t[j]) {
        1 + word_run(t, j + 1)
    } else {
        0
    }
}

/// Where the line that opens a block at `i` ends: after the fence and its
/// optional language word.
pub open spec fn tag_end(t: Seq<char>, i: int) -> int {
    i + 3 + word_run(t, i + 3)
}

/// An opening fence stands at `i`: three backticks, an optional language word
/// and a line feed.
pub open spec fn opener_at(t: Seq<char>, i: int) -> bool {
    &&& fence_at(t, i)
    &&& tag_end(t, i) < t.len()
    &&& t[tag_end(t, i)] == '\n'
}

/// A closing fence stands at `k`: a line feed and three backticks.
pub open spec fn closer_at(t: Seq<char>, k: int) -> bool {
    &&& 0 <= k
    &&& k + 4 <= t.len()
    &&& t[k] == '\n'
    &&& fence_at(t, k + 1)
}

/// The first closing fence at or after `k`.
pub open spec fn first_closer(t: Seq<char>, k: int) -> Option<int>
    decreases t.len() - k,
{
    if k < 0 || k + 4 > t.len() {
        None
    } else if closer_at(t, k) {
        Some(k)
    } else {
        first_closer(t, k + 1)
    }
}

/// A whole block starts at `i`: an opening fence and, later, a closing one.
pub open spec fn block_at(t: Seq<char>, i: int) -> bool {
    opener_at(t, i) && first_closer(t, tag_end(t, i) + 1) is Some
}

/// The bodies of the blocks found by scanning from `p`: the leftmost block is
/// taken, with the shortest body, and the scan goes on after its closing fence.
pub open spec fn blocks_from(t: Seq<char>, p: int) -> Seq<Seq<char>>
    decreases t.len() - p via blocks_from_decreases
{
    if p < 0 || p >= t.len() {
        seq![]
    } else if block_at(t, p) {
        let k = first_closer(t, tag_end(t, p) + 1)->0;
        seq![t.subrange(tag_end(t, p) + 1, k)] + blocks_from(t, k + 4)
    } else {
        blocks_from(t, p + 1)
    }
}

/// The fenced code block bodies of `t`, in order.
pub open spec fn code_blocks(t: Seq<char>) -> Seq<Seq<char>> {
    blocks_from(t, 0)
}

pub(crate) proof fn lemma_first_closer(t: Seq<char>, k: int)
    ensures
        first_closer(t, k) matches Some(x) ==> k <= x && closer_at(t, x),
        0 <= k && first_closer(t, k) is None ==> forall|x: int| k <= x ==> !closer_at(t, x),
    decreases t.len() - k,
{
    if k < 0 || k + 4 > t.len() {
    } else if closer_at(t, k) {
    } else {
        lemma_first_closer(t, k + 1);
        if first_closer(t, k) is None {
            assert forall|x: int| k <= x implies !closer_at(t, x) by {
                if x == k {
                } else {
                }
            }
        }
    }
}

#[via_fn]
proof fn blocks_from_decreases(t: Seq<char>, p: int) {
    if 0 <= p < t.len() && block_at(t, p) {
        lemma_first_closer(t, tag_end(t, p) + 1);
    }
}

fn is_fence(cs: &Vec<char>, i: usize) -> (r: bool)
    ensures
        r == fence_at(cs@, i as int),
{
    i <= cs.len() && cs.len() - i >= 3 && cs[i] == '`' && cs[i + 1] == '`' && cs[i + 2] == '`'
}

fn word_run_len(cs: &Vec<char>, start: usize) -> (r: usize)
    requires
        start <= cs.len(),
    ensures
        r as nat == word_run(cs@, start as int),
        start + r <= cs.len(),
{
    let mut j: usize = start;
    while j < cs.len() && word_char(cs[j])
        invariant
            start <= j <= cs.len(),
            word_run(cs@, start as int) == (j - start) + word_run(cs@, j as int),
        decreases cs.len() - j,
    {
        j = j + 1;
    }
    j - start
}

fn find_closer(cs: &Vec<char>, start: usize) -> (r: Option<usize>)
    requires
        start <= cs.len(),
    ensures
        r matches Some(k) ==> first_closer(cs@, start as int) == Some(k as int) && k + 4
            <= cs.len(),
        r is None ==> first_closer(cs@, start as int) is None,
{
    let mut k: usize = start;
    while k <= cs.len() && cs.len() - k >= 4
        invariant
            start <= k,
            first_closer(cs@, start as int) == first_closer(cs@, k as int),
        decreases cs.len() - k,
    {
        if cs[k] == '\n' && is_fence(cs, k + 1) {
            return Some(k);
        }
        k = k + 1;
    }
    None
}

/// The bodies of the fenced code blocks of `text`, in order. A block opens
/// with three backticks, an optional language word and a line feed, and
/// closes at the next line feed followed by three backticks.
pub fn extract_code_blocks(text: &str) -> (r: Vec<String>)
    ensures
        r@.map_values(|s: String| s@) == code_blocks(text@),
{
    let cs = chars_of(text);
    let n = cs.len();
    let mut r: Vec<String> = Vec::new();
    let mut p: usize = 0;
    while p < n
        invariant
            n == cs.len(),
            cs@ == text@,
            p <= n,
            r@.map_values(|s: String| s@) + blocks_from(cs@, p as int) == code_blocks(cs@),
        decreases n - p,
    {
        if is_fence(&cs, p) {
            let w = word_run_len(&cs, p + 3);
            let e = p + 3 + w;
            if e < n && cs[e] == '\n' {
                match find_closer(&cs, e + 1) {
                    Some(k) => {
                        proof {
                            lemma_first_closer(cs@, e + 1);
                        }
                        let body = String::from_str(text.substring_char(e + 1, k));
                        let ghost before = r@.map_values(|s: String| s@);
                        r.push(body);
                        assert(r@.map_values(|s: String| s@) =~= before.push(body@));
                        assert(blocks_from(cs@, p as int) == seq![cs@.subrange(e + 1, k as int)]
                            + blocks_from(cs@, k + 4));
                        assert(before.push(body@) + blocks_from(cs@, k + 4) =~= before
                            + blocks_from(cs@, p as int));
                        p = k + 4;
                        continue ;
                    },
                    None => {},
                }
            }
        }
        p = p + 1;
    }
    assert(r@.map_values(|s: String| s@) + blocks_from(cs@, p as int) =~= r@.map_values(
        |s: String| s@,
    ));
    r
}

/// A text with no three backticks in a row has no code blocks.
pub proof fn lemma_no_fence_no_blocks(t: Seq<char>)
    requires
        forall|i: int| !fence_at(t, i),
    ensures
        code_blocks(t) == Seq::<Seq<char>>::empty(),
{
    lemma_no_fence_from(t, 0);
}

proof fn lemma_no_fence_from(t: Seq<char>, p: int)
    requires
        forall|i: int| !fence_at(t, i),
    ensures
        blocks_from(t, p) == Seq::<Seq<char>>::empty(),
    decreases t.len() - p,
{
    if 0 <= p < t.len() {
        lemma_no_fence_from(t, p + 1);
    }
}

} // verus!
