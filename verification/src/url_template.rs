//! URL templates: text with placeholders such as `{API_KEY}`, each filled
//! with a value.

use vstd::prelude::*;
use vstd::string::{StrSliceExecFns, StringExecFns};

verus! {

/// A placeholder of a URL template and the value that takes its place.
#[derive(Debug)]
pub struct URLPlaceholder {
    pub placeholder: String,
    pub value: String,
}

/// `text` with every occurrence of `from` replaced by `to`. Occurrences are
/// found from the left and do not overlap: after one, the search goes on
/// behind it. An empty `from` occurs before every character and at the end.
pub open spec fn replace_all(text: Seq<char>, from: Seq<char>, to: Seq<char>) -> Seq<char>
    decreases text.len(),
{
    if text.len() == 0 {
        if from.len() == 0 {
            to
        } else {
            text
        }
    } else if from.len() == 0 {
        to + text.take(1) + replace_all(text.skip(1), from, to)
    } else if from.is_prefix_of(text) {
        to + replace_all(text.skip(from.len() as int), from, to)
    } else {
        text.take(1) + replace_all(text.skip(1), from, to)
    }
}

impl View for URLPlaceholder {
    type V = (Seq<char>, Seq<char>);

    /// The placeholder and its value, as characters.
    open spec fn view(&self) -> (Seq<char>, Seq<char>) {
        (self.placeholder@, self.value@)
    }
}

/// A template with its placeholders filled one after the other, in the order
/// given: each pair holds a placeholder and its value, and each placeholder
/// is replaced in what the ones before it left.
pub open spec fn fill_placeholders(url: Seq<char>, pairs: Seq<(Seq<char>, Seq<char>)>) -> Seq<char>
    decreases pairs.len(),
{
    if pairs.len() == 0 {
        url
    } else {
        fill_placeholders(replace_all(url, pairs[0].0, pairs[0].1), pairs.skip(1))
    }
}

/// The placeholders as pairs of characters.
pub open spec fn placeholder_pairs(placeholders: Seq<URLPlaceholder>) -> Seq<(Seq<char>, Seq<char>)> {
    placeholders.map_values(|p: URLPlaceholder| p@)
}

/// The characters of a string, one by one.
fn chars_of(text: &str) -> (chars: Vec<char>)
    ensures
        chars@ == text@,
{
    let n = text.unicode_len();
    let mut chars: Vec<char> = Vec::new();
    let mut i: usize = 0;
    while i < n
        invariant
            i <= n,
            n == text@.len(),
            chars@ == text@.take(i as int),
        decreases n - i,
    {
        chars.push(text.get_char(i));
        i += 1;
        assert(chars@ =~= text@.take(i as int));
    }
    assert(text@.take(n as int) =~= text@);
    chars
}

/// Whether `pattern` stands in `text` at the position `at`.
fn occurs_at(text: &Vec<char>, at: usize, pattern: &Vec<char>) -> (found: bool)
    requires
        at <= text.len(),
    ensures
        found == pattern@.is_prefix_of(text@.skip(at as int)),
{
    let m = pattern.len();
    if m > text.len() - at {
        return false;
    }
    let mut j: usize = 0;
    while j < m
        invariant
            j <= m,
            m == pattern.len(),
            at + m <= text.len(),
            forall|k: int| 0 <= k < j ==> pattern@[k] == text@[at + k],
        decreases m - j,
    {
        if pattern[j] != text[at + j] {
            assert(pattern@[j as int] != text@.skip(at as int)[j as int]);
            return false;
        }
        j += 1;
    }
    assert(pattern@ =~= text@.skip(at as int).subrange(0, m as int));
    true
}

/// Replaces every occurrence of `from` in `text` by `to`.
pub fn replace_occurrences(text: &str, from: &str, to: &str) -> (replaced: String)
    ensures
        replaced@ == replace_all(text@, from@, to@),
{
    let chars = chars_of(text);
    let pattern = chars_of(from);
    let n = chars.len();
    let m = pattern.len();
    let mut replaced = String::new();
    let mut i: usize = 0;
    proof {
        assert(text@.skip(0) =~= text@);
        assert(replaced@ + replace_all(text@, from@, to@) =~= replace_all(text@, from@, to@));
    }
    while i < n
        invariant
            i <= n,
            n == text@.len(),
            m == from@.len(),
            chars@ == text@,
            pattern@ == from@,
            replaced@ + replace_all(text@.skip(i as int), from@, to@) == replace_all(
                text@,
                from@,
                to@,
            ),
        decreases n - i,
    {
        let ghost rest = text@.skip(i as int);
        let ghost before = replaced@;
        if m == 0 {
            replaced.append(to);
            replaced.append(text.substring_char(i, i + 1));
            proof {
                assert(rest.take(1) =~= text@.subrange(i as int, i + 1));
                assert(rest.skip(1) =~= text@.skip(i + 1));
                assert(replaced@ + replace_all(rest.skip(1), from@, to@) =~= before + (to@
                    + rest.take(1) + replace_all(rest.skip(1), from@, to@)));
            }
            i += 1;
        } else if occurs_at(&chars, i, &pattern) {
            replaced.append(to);
            proof {
                assert(rest.skip(m as int) =~= text@.skip(i + m));
                assert(replaced@ + replace_all(rest.skip(m as int), from@, to@) =~= before + (to@
                    + replace_all(rest.skip(m as int), from@, to@)));
            }
            i += m;
        } else {
            replaced.append(text.substring_char(i, i + 1));
            proof {
                assert(rest.take(1) =~= text@.subrange(i as int, i + 1));
                assert(rest.skip(1) =~= text@.skip(i + 1));
                assert(replaced@ + replace_all(rest.skip(1), from@, to@) =~= before + (rest.take(1)
                    + replace_all(rest.skip(1), from@, to@)));
            }
            i += 1;
        }
    }
    if m == 0 {
        replaced.append(to);
    }
    proof {
        assert(text@.skip(n as int).len() == 0);
        assert(replaced@ =~= replace_all(text@, from@, to@));
    }
    replaced
}

/// Fills the placeholders of the template `url`, in the order given.
pub fn replace_url_placeholders(url: &str, url_placeholders: &[URLPlaceholder]) -> (replaced_url:
    String)
    ensures
        replaced_url@ == fill_placeholders(url@, placeholder_pairs(url_placeholders@)),
{
    let ghost pairs = placeholder_pairs(url_placeholders@);
    let mut replaced_url = String::from_str(url);
    let mut i: usize = 0;
    proof {
        assert(pairs.skip(0) =~= pairs);
    }
    while i < url_placeholders.len()
        invariant
            i <= url_placeholders.len(),
            pairs == placeholder_pairs(url_placeholders@),
            fill_placeholders(replaced_url@, pairs.skip(i as int)) == fill_placeholders(
                url@,
                pairs,
            ),
        decreases url_placeholders.len() - i,
    {
        let filled = replace_occurrences(
            replaced_url.as_str(),
            url_placeholders[i].placeholder.as_str(),
            url_placeholders[i].value.as_str(),
        );
        proof {
            assert(pairs.skip(i as int).skip(1) =~= pairs.skip(i + 1));
            assert(pairs.skip(i as int)[0] == url_placeholders@[i as int]@);
        }
        replaced_url = filled;
        i += 1;
    }
    replaced_url
}

} // verus!
