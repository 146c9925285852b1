//! How a note's title follows from its text.

use vstd::prelude::*;
use vstd::std_specs::iter::IteratorSpec;

verus! {

/// The title of a freshly created note, which is also its initial body.
pub const NEW_NOTE_TITLE: &'static str = "New note..";

/// The title of a note whose text has nothing before its first line break.
pub const UNNAMED_TITLE: &'static str = "Unamed note";

/// The number of characters that stand before the first line break of `text`
/// (all of them, where it has none).
pub open spec fn line_end(text: Seq<char>) -> nat
    decreases text.len(),
{
    if text.len() == 0 || text[0] == '\n' {
        0
    } else {
        1 + line_end(text.drop_first())
    }
}

/// The first line of `text`, without its line break.
pub open spec fn first_line(text: Seq<char>) -> Seq<char> {
    text.take(line_end(text) as int)
}

/// The title that a note with body `text` carries: its first line, or the
/// fixed label where that line is empty.
pub open spec fn title_of(text: Seq<char>) -> Seq<char> {
    if line_end(text) == 0 {
        UNNAMED_TITLE@
    } else {
        first_line(text)
    }
}

/// `line_end` is the one position that has no line break before it and is
/// either the end of the text or a line break.
pub proof fn lemma_line_end(text: Seq<char>, k: int)
    ensures
        line_end(text) <= text.len(),
        forall|i: int| 0 <= i < line_end(text) ==> text[i] != '\n',
        line_end(text) < text.len() ==> text[line_end(text) as int] == '\n',
        (0 <= k <= text.len() && (forall|i: int| 0 <= i < k ==> text[i] != '\n') && (k
            < text.len() ==> text[k] == '\n')) ==> k == line_end(text),
    decreases text.len(),
{
    if text.len() == 0 || text[0] == '\n' {
    } else {
        let rest = text.drop_first();
        lemma_line_end(rest, k - 1);
        assert forall|i: int| 0 <= i < line_end(text) implies text[i] != '\n' by {
            if i > 0 {
                assert(rest[i - 1] == text[i]);
            }
        }
        if 0 <= k <= text.len() && (forall|i: int| 0 <= i < k ==> text[i] != '\n') && (k
            < text.len() ==> text[k] == '\n') {
            assert(k > 0);
            assert forall|i: int| 0 <= i < k - 1 implies rest[i] != '\n' by {
                assert(rest[i] == text[i + 1]);
            }
        }
    }
}

/// Counts the characters before the first line break of `text`.
pub fn first_line_len(text: &str) -> (k: usize)
    ensures
        k == line_end(text@),
{
    let n: usize = text.unicode_len();
    let mut it = text.chars();
    let mut k: usize = 0;
    let mut found: bool = false;
    while k < n && !found
        invariant
            n == text@.len(),
            k <= n,
            it.obeys_prophetic_iter_laws(),
            !found ==> it.remaining() == text@.skip(k as int),
            forall|i: int| 0 <= i < k ==> text@[i] != '\n',
            found ==> k < n && text@[k as int] == '\n',
        decreases n - k, if found { 0int } else { 1int },
    {
        let ghost before = it;
        let next = it.next();
        proof {
            vstd::string::next_postcondition(&before, &it, next);
            assert(text@.skip(k as int)[0] == text@[k as int]);
            assert(text@.skip(k as int).drop_first() =~= text@.skip(k as int + 1));
        }
        match next {
            Some(c) => {
                if c == '\n' {
                    found = true;
                } else {
                    k = k + 1;
                }
            },
            None => {},
        }
    }
    proof {
        lemma_line_end(text@, k as int);
    }
    k
}

/// Derives the title of a note from its text.
pub fn derive_title(text: &str) -> (title: String)
    ensures
        title@ == title_of(text@),
        title@.len() > 0,
{
    let k: usize = first_line_len(text);
    proof {
        lemma_line_end(text@, 0);
        reveal_strlit("Unamed note");
    }
    if k == 0 {
        UNNAMED_TITLE.to_owned()
    } else {
        text.substring_char(0, k).to_owned()
    }
}

} // verus!
