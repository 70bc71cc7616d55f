//! Whitespace splitting of command strings.
//!
//! A compilation database gives each file's compiler invocation as one
//! string; the library splits it into its argument vector on Unicode
//! whitespace, keeping the arguments' order. [`split_whitespace`] is the
//! executable splitter, [`split_ws`] the mathematical statement it is
//! proved against: the maximal runs of non-whitespace characters, in
//! order.

use vstd::prelude::*;

verus! {

/// Relies on str::chars: the characters of a string, in order.
#[verifier::external_body]
pub fn chars_of(s: &str) -> (r: Vec<char>)
    ensures
        r@ == s@,
{
    s.chars().collect()
}

/// Relies on String's FromIterator over chars: the string with exactly
/// these characters, in order.
#[verifier::external_body]
pub fn chars_to_string(chars: &Vec<char>) -> (r: String)
    ensures
        r@ == chars@,
{
    chars.iter().collect()
}

/// Whether a character has the Unicode white-space property — the
/// characters `str::split_whitespace` splits on.
pub open spec fn is_ws_char(c: char) -> bool {
    let u = c as u32;
    ||| u == 0x09
    ||| u == 0x0A
    ||| u == 0x0B
    ||| u == 0x0C
    ||| u == 0x0D
    ||| u == 0x20
    ||| u == 0x85
    ||| u == 0xA0
    ||| u == 0x1680
    ||| (0x2000 <= u && u <= 0x200A)
    ||| u == 0x2028
    ||| u == 0x2029
    ||| u == 0x202F
    ||| u == 0x205F
    ||| u == 0x3000
}

/// Returns whether the character has the Unicode white-space property.
fn is_ws(c: char) -> (r: bool)
    ensures
        r == is_ws_char(c),
{
    let u = c as u32;
    u == 0x09 || u == 0x0A || u == 0x0B || u == 0x0C || u == 0x0D || u == 0x20 || u == 0x85 || u
        == 0xA0 || u == 0x1680 || (0x2000 <= u && u <= 0x200A) || u == 0x2028 || u == 0x2029 || u
        == 0x202F || u == 0x205F || u == 0x3000
}

/// Length of the leading run of non-whitespace characters.
pub open spec fn token_run(s: Seq<char>) -> int
    decreases s.len(),
{
    if s.len() == 0 || is_ws_char(s[0]) {
        0
    } else {
        1 + token_run(s.drop_first())
    }
}

pub proof fn lemma_token_run_bounds(s: Seq<char>)
    ensures
        0 <= token_run(s) <= s.len(),
    decreases s.len(),
{
    if s.len() > 0 && !is_ws_char(s[0]) {
        lemma_token_run_bounds(s.drop_first());
    }
}

/// The leading run is the unique `k` bounded by the first whitespace
/// character (or the end).
pub proof fn lemma_token_run_is(s: Seq<char>, k: int)
    requires
        0 <= k <= s.len(),
        forall|j: int| 0 <= j < k ==> !is_ws_char(s[j]),
        k == s.len() || is_ws_char(s[k]),
    ensures
        token_run(s) == k,
    decreases k,
{
    if k == 0 {
    } else {
        lemma_token_run_is(s.drop_first(), k - 1);
    }
}

/// The split of a character sequence on whitespace: the maximal runs of
/// non-whitespace characters, in order, with all whitespace dropped.
pub open spec fn split_ws(s: Seq<char>) -> Seq<Seq<char>>
    decreases s.len(),
    via split_ws_decreases
{
    if s.len() == 0 {
        Seq::empty()
    } else if is_ws_char(s[0]) {
        split_ws(s.drop_first())
    } else {
        seq![s.take(token_run(s))] + split_ws(s.skip(token_run(s)))
    }
}

#[via_fn]
proof fn split_ws_decreases(s: Seq<char>) {
    if s.len() > 0 && !is_ws_char(s[0]) {
        lemma_token_run_bounds(s);
        lemma_token_run_bounds(s.drop_first());
        assert(token_run(s) >= 1);
    }
}

/// The images of a sequence of strings, element-wise.
pub open spec fn strings_view(v: Seq<String>) -> Seq<Seq<char>> {
    v.map_values(|t: String| t@)
}

/// Splits a string into the maximal runs of non-whitespace characters,
/// in order — the argument vector a command string denotes.
pub fn split_whitespace(s: &str) -> (r: Vec<String>)
    ensures
        strings_view(r@) == split_ws(s@),
{
    let chars = chars_of(s);
    let mut tokens: Vec<String> = Vec::new();
    let mut i: usize = 0;
    proof {
        assert(strings_view(tokens@) =~= Seq::<Seq<char>>::empty());
        assert(chars@.skip(0) =~= chars@);
        assert(strings_view(tokens@) + split_ws(chars@) =~= split_ws(chars@));
    }
    while i < chars.len()
        invariant
            i <= chars@.len(),
            chars@ == s@,
            split_ws(s@) == strings_view(tokens@) + split_ws(chars@.skip(i as int)),
        decreases chars@.len() - i,
    {
        let ghost remaining = chars@.skip(i as int);
        if is_ws(chars[i]) {
            proof {
                assert(remaining[0] == chars@[i as int]);
                assert(remaining.drop_first() =~= chars@.skip(i as int + 1));
            }
            i += 1;
        } else {
            let start = i;
            let mut tok: Vec<char> = Vec::new();
            while i < chars.len() && !is_ws(chars[i])
                invariant
                    start <= i <= chars@.len(),
                    chars@ == s@,
                    tok@ == chars@.subrange(start as int, i as int),
                    forall|j: int| start <= j < i ==> !is_ws_char(chars@[j]),
                decreases chars@.len() - i,
            {
                let c = chars[i];
                tok.push(c);
                proof {
                    assert(tok@ =~= chars@.subrange(start as int, i as int + 1));
                }
                i += 1;
            }
            let token = chars_to_string(&tok);
            let ghost before = tokens@;
            tokens.push(token);
            proof {
                let run = token_run(remaining);
                lemma_token_run_is(remaining, i as int - start as int);
                assert(remaining.take(run) =~= tok@);
                assert(remaining.skip(run) =~= chars@.skip(i as int));
                assert(strings_view(before.push(token)) =~= strings_view(before) + seq![
                    token@,
                ]);
                assert(split_ws(remaining) == seq![tok@] + split_ws(chars@.skip(i as int)));
                assert(strings_view(tokens@) + split_ws(chars@.skip(i as int)) =~= (
                strings_view(before) + split_ws(remaining)));
            }
        }
    }
    proof {
        assert(chars@.skip(i as int) =~= Seq::<char>::empty());
        assert(strings_view(tokens@) + split_ws(chars@.skip(i as int)) =~= strings_view(
            tokens@,
        ));
    }
    tokens
}

} // verus!
