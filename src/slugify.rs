use vstd::prelude::*;
use vstd::std_specs::iter::IteratorSpec;

use crate::text::{join_with, lemma_join_push, push_char};

verus! {

broadcast use vstd::string::group_string_axioms;

/// Whether `char::is_alphanumeric` holds of a character (Unicode letters and numbers).
pub uninterp spec fn alphanumeric(c: char) -> bool;

/// Relies on `char::is_alphanumeric`, which depends on the character alone.
#[verifier::external_body]
fn is_alphanumeric(c: char) -> (r: bool)
    ensures
        r == alphanumeric(c),
{
    c.is_alphanumeric()
}

pub open spec fn is_quote(c: char) -> bool {
    c == '\'' || c == '"'
}

/// Characters that belong to a word: letters, numbers and quotation marks,
/// so that contractions and possessives stay together.
pub open spec fn is_word_char(c: char) -> bool {
    is_quote(c) || alphanumeric(c)
}

pub open spec fn ascii_lower(c: char) -> char {
    if 'A' <= c && c <= 'Z' {
        ((c as u32) + 32) as char
    } else {
        c
    }
}

/// Whether each position of `s` holds a word character.
pub open spec fn word_flags(s: Seq<char>) -> Seq<bool> {
    Seq::new(s.len(), |i: int| is_word_char(s[i]))
}

/// The maximal runs of `s` over positions whose flag in `word` is set, in order.
pub open spec fn runs(s: Seq<char>, word: Seq<bool>) -> Seq<Seq<char>>
    decreases s.len(),
{
    if s.len() == 0 {
        seq![]
    } else {
        let w = runs(s.drop_last(), word);
        let n = s.len() - 1;
        if !word[n] {
            w
        } else if n >= 1 && word[n - 1] {
            w.update(w.len() - 1, w.last().push(s[n]))
        } else {
            w.push(seq![s[n]])
        }
    }
}

/// A word without its quotation marks, ASCII letters in lower case.
pub open spec fn clean(w: Seq<char>) -> Seq<char>
    decreases w.len(),
{
    if w.len() == 0 {
        seq![]
    } else if is_quote(w.last()) {
        clean(w.drop_last())
    } else {
        clean(w.drop_last()).push(ascii_lower(w.last()))
    }
}

/// The runs of `s` marked by `word`, cleaned, joined by hyphens.
pub open spec fn slug_from(s: Seq<char>, word: Seq<bool>) -> Seq<char> {
    join_with(runs(s, word).map_values(|w: Seq<char>| clean(w)), seq!['-'])
}

/// The slug of a title: its words, cleaned, joined by hyphens.
pub open spec fn slug_of(s: Seq<char>) -> Seq<char> {
    slug_from(s, word_flags(s))
}

proof fn lemma_runs_open(s: Seq<char>, word: Seq<bool>)
    requires
        s.len() > 0,
        word[s.len() - 1],
    ensures
        runs(s, word).len() > 0,
    decreases s.len(),
{
    if s.len() >= 2 && word[s.len() - 2] {
        lemma_runs_open(s.drop_last(), word);
    }
}

proof fn lemma_join_extend_last(parts: Seq<Seq<char>>, sep: Seq<char>, x: Seq<char>)
    requires
        parts.len() > 0,
    ensures
        join_with(parts.update(parts.len() - 1, parts.last() + x), sep) == join_with(parts, sep) + x,
{
    let u = parts.update(parts.len() - 1, parts.last() + x);
    if parts.len() == 1 {
        assert(u[0] == parts[0] + x);
    } else {
        assert(u.drop_last() =~= parts.drop_last());
        assert(u.last() == parts.last() + x);
        assert(join_with(u, sep) =~= join_with(parts, sep) + x);
    }
}

proof fn lemma_clean_push(w: Seq<char>, c: char)
    ensures
        clean(w.push(c)) == if is_quote(c) {
            clean(w)
        } else {
            clean(w).push(ascii_lower(c))
        },
{
    assert(w.push(c).drop_last() =~= w);
}

/// One more character extends the slug as the loop below does.
proof fn lemma_slug_step(t: Seq<char>, c: char, word: Seq<bool>)
    requires
        word.len() > t.len(),
    ensures
        ({
            let here = word[t.len() as int];
            let prev_word = t.len() > 0 && word[t.len() - 1];
            let tail: Seq<char> = if is_quote(c) {
                seq![]
            } else {
                seq![ascii_lower(c)]
            };
            &&& !here ==> slug_from(t.push(c), word) == slug_from(t, word)
            &&& here && prev_word ==> slug_from(t.push(c), word) == slug_from(t, word) + tail
            &&& here && !prev_word && runs(t, word).len() == 0 ==> slug_from(t.push(c), word) == tail
            &&& here && !prev_word && runs(t, word).len() > 0 ==> slug_from(t.push(c), word)
                == slug_from(t, word) + seq!['-'] + tail
            &&& here ==> runs(t.push(c), word).len() > 0
            &&& !here ==> runs(t.push(c), word) == runs(t, word)
        }),
{
    let s = t.push(c);
    assert(s.drop_last() =~= t);
    assert(s[t.len() as int] == c);
    let f = |w: Seq<char>| clean(w);
    let w = runs(t, word);
    let tail: Seq<char> = if is_quote(c) {
        seq![]
    } else {
        seq![ascii_lower(c)]
    };
    lemma_clean_push(seq![], c);
    assert(seq![c] =~= Seq::<char>::empty().push(c));
    assert(clean(seq![c]) =~= tail);
    if word[t.len() as int] {
        if t.len() > 0 && word[t.len() - 1] {
            lemma_runs_open(t, word);
            let m = w.map_values(f);
            lemma_clean_push(w.last(), c);
            assert(clean(w.last().push(c)) =~= clean(w.last()) + tail);
            assert(w.update(w.len() - 1, w.last().push(c)).map_values(f) =~= m.update(
                m.len() - 1,
                m.last() + tail,
            ));
            lemma_join_extend_last(m, seq!['-'], tail);
        } else {
            assert(w.push(seq![c]).map_values(f) =~= w.map_values(f).push(tail));
            lemma_join_push(w.map_values(f), seq!['-'], tail);
        }
    }
}

/// Marks the word characters of a title: letters, numbers and quotation marks.
pub fn word_char_flags(string: &str) -> (r: Vec<bool>)
    ensures
        r@ == word_flags(string@),
{
    let mut flags: Vec<bool> = Vec::new();
    let mut chars = string.chars();
    loop
        invariant
            flags@.len() <= string@.len(),
            chars.remaining() == string@.skip(flags@.len() as int),
            forall|j: int| 0 <= j < flags@.len() ==> flags@[j] == is_word_char(string@[j]),
        ensures
            flags@ == word_flags(string@),
        decreases string@.len() - flags@.len(),
    {
        let ghost i = flags@.len() as int;
        match chars.next() {
            None => {
                assert(string@.skip(i).len() == 0);
                assert(flags@ =~= word_flags(string@));
                break;
            },
            Some(c) => {
                assert(c == string@[i]);
                let word = c == '\'' || c == '"' || is_alphanumeric(c);
                flags.push(word);
                assert(string@.skip(i + 1) =~= string@.skip(i).drop_first());
            },
        }
    }
    flags
}

/// The slug of a title whose word characters are marked in `word`: the marked
/// runs, without quotation marks and with ASCII letters in lower case, joined
/// by hyphens.
pub fn slug_from_flags(string: &str, word: &Vec<bool>) -> (r: String)
    requires
        word@.len() == string@.len(),
    ensures
        r@ == slug_from(string@, word@),
{
    let n = word.len();
    let mut out = String::new();
    let mut chars = string.chars();
    let mut i: usize = 0;
    let mut prev_word = false;
    let mut any_word = false;
    loop
        invariant
            word@.len() == string@.len(),
            n == string@.len(),
            i <= string@.len(),
            chars.remaining() == string@.skip(i as int),
            out@ == slug_from(string@.take(i as int), word@),
            prev_word == (i > 0 && word@[i - 1]),
            any_word == (runs(string@.take(i as int), word@).len() > 0),
        ensures
            out@ == slug_from(string@, word@),
        decreases string@.len() - i,
    {
        let ghost t = string@.take(i as int);
        match chars.next() {
            None => {
                assert(string@.skip(i as int).len() == 0);
                assert(string@.take(i as int) =~= string@);
                break;
            },
            Some(c) => {
                assert(c == string@[i as int]);
                assert(string@.take(i + 1) =~= t.push(c));
                proof {
                    lemma_slug_step(t, c, word@);
                }
                let here = word[i];
                if here {
                    if !prev_word && any_word {
                        push_char(&mut out, '-');
                    }
                    if c != '\'' && c != '"' {
                        let lower = if 'A' <= c && c <= 'Z' {
                            ((c as u32 + 32) as u8) as char
                        } else {
                            c
                        };
                        push_char(&mut out, lower);
                    }
                    assert(out@ =~= slug_from(t.push(c), word@));
                    any_word = true;
                }
                prev_word = here;
                assert(string@.skip(i + 1) =~= string@.skip(i as int).drop_first());
                i = i + 1;
            },
        }
    }
    out
}

/// The slug of a title: its runs of letters, numbers and quotation marks,
/// without the quotation marks and with ASCII letters in lower case, joined by
/// hyphens.
pub fn slugify(string: &str) -> (r: String)
    ensures
        r@ == slug_of(string@),
{
    let word = word_char_flags(string);
    slug_from_flags(string, &word)
}

} // verus!
