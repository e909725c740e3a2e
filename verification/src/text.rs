//! Text helpers: trimming, suffixes and equality over character sequences.

use vstd::prelude::*;

verus! {

/// The characters with the Unicode property `White_Space`.
pub open spec fn is_white_space(c: char) -> bool {
    ||| 0x9 <= c as u32 <= 0xd
    ||| c as u32 == 0x20
    ||| c as u32 == 0x85
    ||| c as u32 == 0xa0
    ||| c as u32 == 0x1680
    ||| 0x2000 <= c as u32 <= 0x200a
    ||| c as u32 == 0x2028
    ||| c as u32 == 0x2029
    ||| c as u32 == 0x202f
    ||| c as u32 == 0x205f
    ||| c as u32 == 0x3000
}

/// `s` without its longest prefix of characters in `drop`.
pub open spec fn without_leading(s: Seq<char>, drop: spec_fn(char) -> bool) -> Seq<char>
    decreases s.len(),
{
    if s.len() > 0 && drop(s.first()) {
        without_leading(s.drop_first(), drop)
    } else {
        s
    }
}

/// `s` without its longest suffix of characters in `drop`.
pub open spec fn without_trailing(s: Seq<char>, drop: spec_fn(char) -> bool) -> Seq<char>
    decreases s.len(),
{
    if s.len() > 0 && drop(s.last()) {
        without_trailing(s.drop_last(), drop)
    } else {
        s
    }
}

/// `s` without white space at either end.
pub open spec fn trimmed(s: Seq<char>) -> Seq<char> {
    without_trailing(
        without_leading(s, |c: char| is_white_space(c)),
        |c: char| is_white_space(c),
    )
}

/// The one character `c`.
pub open spec fn just(c: char) -> spec_fn(char) -> bool {
    |d: char| d == c
}

/// `s` without the run of `c` at its end.
pub open spec fn stripped_of(s: Seq<char>, c: char) -> Seq<char> {
    without_trailing(s, just(c))
}

/// The text inside an optional string.
pub open spec fn text_of(s: Option<String>) -> Option<Seq<char>> {
    match s {
        Some(t) => Some(t@),
        None => None,
    }
}

/// The texts inside a result of two strings.
pub open spec fn outcome_of(r: Result<String, String>) -> Result<Seq<char>, Seq<char>> {
    match r {
        Ok(t) => Ok(t@),
        Err(e) => Err(e@),
    }
}

/// `str::trim` removes the characters with the property `White_Space` from both
/// ends of the text and keeps everything between.
pub assume_specification[ str::trim ](s: &str) -> (r: &str)
    ensures
        r@ == trimmed(s@),
;

/// `==` on `str` compares the two texts.
pub assume_specification[ <str as PartialEq>::eq ](a: &str, b: &str) -> (r: bool)
    ensures
        r == (a@ == b@),
;

/// Calls `str::trim_end_matches` with a single character as the pattern, which
/// removes every repetition of that character from the end of the text.
#[verifier::external_body]
pub(crate) fn strip_trailing(s: &str, c: char) -> (r: &str)
    ensures
        r@ == stripped_of(s@, c),
{
    s.trim_end_matches(c)
}

/// Calls `str::ends_with` with a text as the pattern, which holds exactly when
/// that text is a suffix.
#[verifier::external_body]
pub(crate) fn has_suffix(s: &str, suffix: &str) -> (r: bool)
    ensures
        r == suffix@.is_suffix_of(s@),
{
    s.ends_with(suffix)
}

/// What `without_leading` keeps is a suffix that does not start in `drop`.
pub proof fn lemma_without_leading(s: Seq<char>, drop: spec_fn(char) -> bool)
    ensures
        without_leading(s, drop).len() <= s.len(),
        without_leading(s, drop).is_suffix_of(s),
        without_leading(s, drop).len() > 0 ==> !drop(without_leading(s, drop).first()),
        forall|i: int|
            0 <= i < s.len() - without_leading(s, drop).len() ==> #[trigger] drop(s[i]),
    decreases s.len(),
{
    if s.len() > 0 && drop(s.first()) {
        let rest = s.drop_first();
        lemma_without_leading(rest, drop);
        assert forall|i: int| 0 <= i < s.len() - without_leading(s, drop).len() implies #[trigger] drop(s[i]) by {
            if i > 0 {
                assert(drop(rest[i - 1]));
            }
        }
    }
}

/// What `without_trailing` keeps is a prefix that does not end in `drop`.
pub proof fn lemma_without_trailing(s: Seq<char>, drop: spec_fn(char) -> bool)
    ensures
        without_trailing(s, drop).len() <= s.len(),
        without_trailing(s, drop).is_prefix_of(s),
        without_trailing(s, drop).len() > 0 ==> !drop(without_trailing(s, drop).last()),
        forall|i: int|
            without_trailing(s, drop).len() <= i < s.len() ==> #[trigger] drop(s[i]),
    decreases s.len(),
{
    if s.len() > 0 && drop(s.last()) {
        let rest = s.drop_last();
        lemma_without_trailing(rest, drop);
        assert forall|i: int| without_trailing(s, drop).len() <= i < s.len() implies #[trigger] drop(s[i]) by {
            if i < s.len() - 1 {
                assert(drop(rest[i]));
            }
        }
    }
}

/// What `stripped_of` keeps is a prefix that does not end with the character.
pub proof fn lemma_stripped(s: Seq<char>, c: char)
    ensures
        stripped_of(s, c).is_prefix_of(s),
        stripped_of(s, c).len() > 0 ==> stripped_of(s, c).last() != c,
        s.len() == 0 || s.last() != c ==> stripped_of(s, c) == s,
{
    lemma_without_trailing(s, just(c));
    if stripped_of(s, c).len() > 0 {
        assert(!just(c)(stripped_of(s, c).last()));
    }
}

/// Dropping some of the characters from the end first makes no difference.
pub proof fn lemma_dropping_in_steps(
    s: Seq<char>,
    some: spec_fn(char) -> bool,
    all: spec_fn(char) -> bool,
)
    requires
        forall|c: char| #[trigger] some(c) ==> all(c),
    ensures
        without_trailing(without_trailing(s, some), all) == without_trailing(s, all),
    decreases s.len(),
{
    if s.len() > 0 && some(s.last()) {
        lemma_dropping_in_steps(s.drop_last(), some, all);
    }
}

/// A trimmed text has no white space at either end, and trimming a text without
/// white space at either end changes nothing.
pub proof fn law_trimming(s: Seq<char>)
    ensures
        trimmed(s).len() > 0 ==> !is_white_space(trimmed(s).first()) && !is_white_space(
            trimmed(s).last(),
        ),
        s.len() == 0 || (!is_white_space(s.first()) && !is_white_space(s.last())) ==> trimmed(s)
            == s,
{
    let space = |c: char| is_white_space(c);
    let rest = without_leading(s, space);
    lemma_without_leading(s, space);
    lemma_without_trailing(rest, space);
    if trimmed(s).len() > 0 {
        assert(trimmed(s).first() == rest.first());
        assert(!space(rest.first()));
        assert(!space(trimmed(s).last()));
    }
}

proof fn lemma_leading_run(s: Seq<char>, drop: spec_fn(char) -> bool, i: int)
    requires
        0 <= i <= s.len(),
        forall|k: int| 0 <= k < i ==> drop(#[trigger] s[k]),
        i < s.len() ==> !drop(s[i]),
    ensures
        without_leading(s, drop) == s.skip(i),
    decreases i,
{
    if i == 0 {
        assert(s.skip(0) =~= s);
    } else {
        let rest = s.drop_first();
        assert(drop(s[0]));
        assert forall|k: int| 0 <= k < i - 1 implies drop(#[trigger] rest[k]) by {
            assert(rest[k] == s[k + 1]);
        }
        lemma_leading_run(rest, drop, i - 1);
        assert(rest.skip(i - 1) =~= s.skip(i));
    }
}

/// Where everything from `j` on is dropped and what stands before is not, that is
/// what is kept.
pub proof fn lemma_trailing_run(s: Seq<char>, drop: spec_fn(char) -> bool, j: int)
    requires
        0 <= j <= s.len(),
        forall|k: int| j <= k < s.len() ==> drop(#[trigger] s[k]),
        j > 0 ==> !drop(s[j - 1]),
    ensures
        without_trailing(s, drop) == s.take(j),
    decreases s.len(),
{
    if j == s.len() {
        assert(s.take(j) =~= s);
    } else {
        assert(drop(s[s.len() - 1]));
        lemma_trailing_run(s.drop_last(), drop, j);
        assert(s.drop_last().take(j) =~= s.take(j));
    }
}

/// Trimming gives the part of a text that has white space before it and after it
/// and none at its own ends, whatever that part holds.
pub proof fn law_trimming_keeps_the_middle(s: Seq<char>, i: int, j: int)
    requires
        0 <= i <= j <= s.len(),
        forall|k: int| 0 <= k < i ==> is_white_space(#[trigger] s[k]),
        forall|k: int| j <= k < s.len() ==> is_white_space(#[trigger] s[k]),
        i < j ==> !is_white_space(s[i]) && !is_white_space(s[j - 1]),
    ensures
        trimmed(s) == s.subrange(i, j),
{
    let space = |c: char| is_white_space(c);
    if i < j {
        assert(!space(s[i]));
        lemma_leading_run(s, space, i);
        let rest = s.skip(i);
        assert(!space(rest[j - i - 1]));
        lemma_trailing_run(rest, space, j - i);
        assert(rest.take(j - i) =~= s.subrange(i, j));
    } else {
        lemma_leading_run(s, space, s.len() as int);
        assert(s.skip(s.len() as int) =~= s.subrange(i, j));
    }
}

/// An optional string and a result of strings stand for just the texts in them.
pub proof fn law_texts_are_taken_whole(s: String, t: String)
    ensures
        text_of(Some(s)) == Some(s@),
        text_of(None) is None,
        outcome_of(Ok(s)) == Ok::<Seq<char>, Seq<char>>(s@),
        outcome_of(Err(t)) == Err::<Seq<char>, Seq<char>>(t@),
{
}

}
