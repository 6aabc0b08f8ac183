//! Random short phrases: lorem words joined by single spaces, and the
//! word-count model that the task name's contract is stated over.

use vstd::prelude::*;
use fake::Fake;

verus! {

/// The whitespace characters that separate words.
pub open spec fn is_space(c: char) -> bool {
    c == ' ' || c == '\t' || c == '\n' || c == '\r'
}

/// A single word: non-empty and free of whitespace.
pub open spec fn is_word(w: Seq<char>) -> bool {
    w.len() > 0 && (forall|i: int| 0 <= i < w.len() ==> !is_space(w[i]))
}

/// Number of maximal whitespace-free runs in `s`, scanned left to right;
/// `after_gap` says whether the character before `s` (if any) was whitespace.
pub open spec fn word_count_from(s: Seq<char>, after_gap: bool) -> int
    decreases s.len(),
{
    if s.len() == 0 {
        0
    } else {
        (if !is_space(s[0]) && after_gap {
            1int
        } else {
            0int
        }) + word_count_from(s.drop_first(), is_space(s[0]))
    }
}

/// How many whitespace-separated words `s` splits into.
pub open spec fn word_count(s: Seq<char>) -> int {
    word_count_from(s, true)
}

/// The words of `ws` joined by single spaces.
pub open spec fn joined(ws: Seq<Seq<char>>) -> Seq<char>
    decreases ws.len(),
{
    if ws.len() == 0 {
        Seq::empty()
    } else if ws.len() == 1 {
        ws[0]
    } else {
        ws[0] + seq![' '] + joined(ws.drop_first())
    }
}

/// Scanning a whitespace-free block before `r` counts one word when a gap
/// precedes it and the block is non-empty, and leaves the scan of `r` in
/// the no-gap state.
proof fn lemma_scan_nonspace(w: Seq<char>, r: Seq<char>)
    requires
        forall|i: int| 0 <= i < w.len() ==> !is_space(w[i]),
    ensures
        word_count_from(w + r, false) == word_count_from(r, false),
        word_count_from(w + r, true) == if w.len() == 0 {
            word_count_from(r, true)
        } else {
            1 + word_count_from(r, false)
        },
    decreases w.len(),
{
    if w.len() == 0 {
        assert(w + r =~= r);
    } else {
        assert((w + r).drop_first() =~= w.drop_first() + r);
        lemma_scan_nonspace(w.drop_first(), r);
    }
}

/// A leading space resets the scan to the gap state.
proof fn lemma_scan_space(r: Seq<char>, after_gap: bool)
    ensures
        word_count_from(seq![' '] + r, after_gap) == word_count_from(r, true),
{
    assert((seq![' '] + r).drop_first() =~= r);
}

/// Joining words by single spaces yields exactly one whitespace-separated
/// word per element.
pub proof fn lemma_joined_word_count(ws: Seq<Seq<char>>)
    requires
        forall|i: int| 0 <= i < ws.len() ==> is_word(ws[i]),
    ensures
        word_count(joined(ws)) == ws.len(),
    decreases ws.len(),
{
    if ws.len() == 0 {
    } else if ws.len() == 1 {
        lemma_scan_nonspace(ws[0], Seq::empty());
        assert(ws[0] + Seq::<char>::empty() =~= ws[0]);
    } else {
        let rest = ws.drop_first();
        let tail = joined(rest);
        assert(ws[0] + seq![' '] + tail =~= ws[0] + (seq![' '] + tail));
        lemma_scan_nonspace(ws[0], seq![' '] + tail);
        lemma_scan_space(tail, false);
        lemma_joined_word_count(rest);
    }
}

/// Appending one more word to a join appends a separating space and the
/// word, except onto an empty join.
proof fn lemma_joined_push(ws: Seq<Seq<char>>, w: Seq<char>)
    ensures
        joined(ws.push(w)) == if ws.len() == 0 {
            w
        } else {
            joined(ws) + seq![' '] + w
        },
    decreases ws.len(),
{
    if ws.len() == 0 {
        assert(joined(ws.push(w)) == ws.push(w)[0]);
        assert(ws.push(w)[0] =~= w);
    } else {
        assert(ws.push(w).drop_first() =~= ws.drop_first().push(w));
        lemma_joined_push(ws.drop_first(), w);
        if ws.len() == 1 {
            assert(joined(ws.push(w)) =~= joined(ws) + seq![' '] + w);
        } else {
            assert(ws[0] + seq![' '] + (joined(ws.drop_first()) + seq![' '] + w) =~= (ws[0]
                + seq![' '] + joined(ws.drop_first())) + seq![' '] + w);
        }
    }
}

/// Joins the words with single spaces, exactly as the `joined` model says.
pub fn join_words(ws: &Vec<String>) -> (r: String)
    ensures
        r@ == joined(ws@.map_values(|w: String| w@)),
{
    let ghost gws = ws@.map_values(|w: String| w@);
    let mut r = String::new();
    let mut i: usize = 0;
    while i < ws.len()
        invariant
            i <= ws.len(),
            gws == ws@.map_values(|w: String| w@),
            r@ == joined(gws.subrange(0, i as int)),
        decreases ws.len() - i,
    {
        proof {
            lemma_joined_push(gws.subrange(0, i as int), gws[i as int]);
            assert(gws.subrange(0, i as int).push(gws[i as int]) =~= gws.subrange(
                0,
                i as int + 1,
            ));
            reveal_strlit(" ");
            assert(" "@ =~= seq![' ']);
        }
        if i > 0 {
            r.append(" ");
        }
        r.append(ws[i].as_str());
        i += 1;
    }
    proof {
        assert(gws.subrange(0, ws.len() as int) =~= gws);
    }
    r
}

/// Relies on fake's `faker::lorem::en::Words`: the word count is drawn
/// uniformly from the half-open range, and each word comes from fake's
/// fixed lorem list, whose entries are non-empty and hold no whitespace.
#[verifier::external_body]
fn fake_words(lo: usize, hi: usize) -> (ws: Vec<String>)
    requires
        1 <= lo < hi,
    ensures
        lo <= ws@.len() < hi,
        forall|i: int| 0 <= i < ws@.len() ==> is_word(ws@[i]@),
{
    fake::faker::lorem::en::Words(lo..hi).fake()
}

/// A random phrase of at least `lo` and fewer than `hi` lorem words,
/// joined by single spaces.
pub fn random_phrase(lo: usize, hi: usize) -> (r: String)
    requires
        1 <= lo < hi,
    ensures
        lo <= word_count(r@) < hi,
{
    let ws = fake_words(lo, hi);
    let r = join_words(&ws);
    proof {
        let gws = ws@.map_values(|w: String| w@);
        assert(forall|i: int| 0 <= i < gws.len() ==> is_word(gws[i]));
        lemma_joined_word_count(gws);
    }
    r
}

} // verus!
