//! What the library has from std on text: lower case and trimming.

use vstd::prelude::*;

verus! {

/// The character in lower case if it is a letter of the English alphabet in
/// upper case, else the character itself.
pub open spec fn spec_ascii_lower(c: char) -> char {
    if 'A' <= c && c <= 'Z' {
        ((c as u8) + 32) as char
    } else {
        c
    }
}

/// The text with each upper-case letter of the English alphabet in lower
/// case.
pub open spec fn spec_lowercase(s: Seq<char>) -> Seq<char> {
    s.map_values(|c: char| spec_ascii_lower(c))
}

/// Whether Unicode counts the character as white space, which is what
/// `char::is_whitespace` of std goes by: the characters with the property
/// White_Space. They are tab, line feed, vertical tab, form feed and carriage
/// return, the space, next line, the no-break space, the Ogham space mark,
/// the spaces from en quad to hair space, the line and the paragraph
/// separator, the narrow no-break space, the medium mathematical space and
/// the ideographic space.
pub open spec fn white_space(c: char) -> bool {
    ('\u{9}' <= c && c <= '\u{d}') || c == ' ' || c == '\u{85}' || c == '\u{a0}' || c
        == '\u{1680}' || ('\u{2000}' <= c && c <= '\u{200a}') || c == '\u{2028}' || c
        == '\u{2029}' || c == '\u{202f}' || c == '\u{205f}' || c == '\u{3000}'
}

/// The text without the white space at its start.
pub open spec fn trim_start(s: Seq<char>) -> Seq<char>
    decreases s.len(),
{
    if s.len() > 0 && white_space(s.first()) {
        trim_start(s.drop_first())
    } else {
        s
    }
}

/// The text without the white space at its end.
pub open spec fn trim_end(s: Seq<char>) -> Seq<char>
    decreases s.len(),
{
    if s.len() > 0 && white_space(s.last()) {
        trim_end(s.drop_last())
    } else {
        s
    }
}

/// The text without the white space at its start and at its end.
pub open spec fn spec_trim(s: Seq<char>) -> Seq<char> {
    trim_end(trim_start(s))
}

/// Whether the text is white space throughout.
pub open spec fn all_white_space(s: Seq<char>) -> bool {
    forall|i: int| 0 <= i < s.len() ==> white_space(#[trigger] s[i])
}

/// `str::to_ascii_lowercase` of std: a copy of the text in which the letters
/// `A` to `Z` are `a` to `z` and every other character is as it was.
#[verifier::external_body]
pub(crate) fn to_ascii_lowercase(s: &str) -> (lower: String)
    ensures
        lower@ == spec_lowercase(s@),
{
    s.to_ascii_lowercase()
}

/// `str::trim` of std: the slice of the text that is left when the white
/// space at its start and at its end is taken off, white space being the
/// characters with Unicode's property White_Space.
#[verifier::external_body]
pub(crate) fn trim<'a>(s: &'a str) -> (trimmed: &'a str)
    ensures
        trimmed@ == spec_trim(s@),
{
    s.trim()
}

proof fn lemma_trim_start(s: Seq<char>)
    ensures
        trim_start(s).len() <= s.len(),
        trim_start(s) == s.subrange(s.len() - trim_start(s).len(), s.len() as int),
        all_white_space(s.subrange(0, s.len() - trim_start(s).len())),
        trim_start(s).len() > 0 ==> !white_space(trim_start(s).first()),
    decreases s.len(),
{
    if s.len() > 0 && white_space(s.first()) {
        let rest = s.drop_first();
        lemma_trim_start(rest);
        let kept = trim_start(rest);
        assert(kept == s.subrange(s.len() - kept.len(), s.len() as int)) by {
            assert(rest.subrange(rest.len() - kept.len(), rest.len() as int) =~= s.subrange(
                s.len() - kept.len(),
                s.len() as int,
            ));
        }
        let cut = s.subrange(0, s.len() - kept.len());
        assert forall|i: int| 0 <= i < cut.len() implies white_space(#[trigger] cut[i]) by {
            if i > 0 {
                assert(cut[i] == rest.subrange(0, rest.len() - kept.len())[i - 1]);
            }
        }
    } else {
        assert(s =~= s.subrange(0, s.len() as int));
    }
}

proof fn lemma_trim_end(s: Seq<char>)
    ensures
        trim_end(s).len() <= s.len(),
        trim_end(s) == s.subrange(0, trim_end(s).len() as int),
        all_white_space(s.subrange(trim_end(s).len() as int, s.len() as int)),
        trim_end(s).len() > 0 ==> !white_space(trim_end(s).last()),
    decreases s.len(),
{
    if s.len() > 0 && white_space(s.last()) {
        let rest = s.drop_last();
        lemma_trim_end(rest);
        let kept = trim_end(rest);
        assert(kept == s.subrange(0, kept.len() as int)) by {
            assert(rest.subrange(0, kept.len() as int) =~= s.subrange(0, kept.len() as int));
        }
        let cut = s.subrange(kept.len() as int, s.len() as int);
        assert forall|i: int| 0 <= i < cut.len() implies white_space(#[trigger] cut[i]) by {
            if i < cut.len() - 1 {
                assert(cut[i] == rest.subrange(kept.len() as int, rest.len() as int)[i]);
            }
        }
    } else {
        assert(s =~= s.subrange(0, s.len() as int));
    }
}

/// What trimming leaves is a stretch of the text, with nothing but white
/// space before it and after it, and no white space at either of its ends.
pub proof fn lemma_trim_is_the_core(s: Seq<char>) -> (bounds: (int, int))
    ensures
        0 <= bounds.0 <= bounds.1 <= s.len(),
        spec_trim(s) == s.subrange(bounds.0, bounds.1),
        all_white_space(s.subrange(0, bounds.0)),
        all_white_space(s.subrange(bounds.1, s.len() as int)),
        bounds.0 < bounds.1 ==> !white_space(s[bounds.0]) && !white_space(s[bounds.1 - 1]),
{
    let front = trim_start(s);
    lemma_trim_start(s);
    lemma_trim_end(front);
    let core = trim_end(front);
    let from = s.len() - front.len();
    let to = from + core.len();
    assert(core =~= s.subrange(from, to));
    let tail = s.subrange(to, s.len() as int);
    assert forall|i: int| 0 <= i < tail.len() implies white_space(#[trigger] tail[i]) by {
        assert(tail[i] == front.subrange(core.len() as int, front.len() as int)[i]);
    }
    if from < to {
        assert(core.first() == front.first());
        assert(s[from] == front.first());
        assert(s[to - 1] == core.last());
    }
    (from, to)
}

/// Trimming leaves nothing exactly of the texts that are white space
/// throughout.
pub proof fn lemma_trim_leaves_nothing_of_white_space(s: Seq<char>)
    ensures
        spec_trim(s).len() == 0 <==> all_white_space(s),
{
    let (from, to) = lemma_trim_is_the_core(s);
    if from < to {
        assert(!white_space(s[from]));
    } else {
        assert forall|i: int| 0 <= i < s.len() implies white_space(#[trigger] s[i]) by {
            if i < from {
                assert(s[i] == s.subrange(0, from)[i]);
            } else {
                assert(s[i] == s.subrange(to, s.len() as int)[i - to]);
            }
        }
    }
}

} // verus!
