//! String normalisation used to compare generated code with expected code.
use vstd::prelude::*;

use crate::text::{chars_of, is_whitespace, remove_char, remove_char_chars, string_of, trim, trim_chars, trim_end, trim_start};

verus! {

/// `s` with its spaces removed, then trimmed, then with its line feeds removed.
pub open spec fn compare_handle_spec(s: Seq<char>) -> Seq<char> {
    remove_char(trim(remove_char(s, ' ')), '\n')
}

/// Extra operations on strings.
pub trait StringExtend {
    /// The string normalised for comparison: spaces removed, surrounding
    /// whitespace trimmed, line feeds removed.
    fn compare_handle(&self) -> String;
}

impl StringExtend for String {
    fn compare_handle(&self) -> (r: String)
        ensures
            r@ == compare_handle_spec(self@),
    {
        let cs = chars_of(self.as_str());
        let no_space = remove_char_chars(cs.as_slice(), ' ');
        let trimmed = trim_chars(no_space.as_slice());
        let no_newline = remove_char_chars(trimmed.as_slice(), '\n');
        string_of(no_newline.as_slice())
    }
}

/// `s` holds no occurrence of `x`.
pub open spec fn lacks(s: Seq<char>, x: char) -> bool {
    forall|i: int| 0 <= i < s.len() ==> s[i] != x
}

/// `remove_char(s, x)` holds no `x`, and holds no character that `s` lacks.
pub proof fn lemma_remove_char_lacks(s: Seq<char>, x: char, y: char)
    ensures
        lacks(remove_char(s, x), x),
        lacks(s, y) ==> lacks(remove_char(s, x), y),
    decreases s.len(),
{
    if s.len() > 0 {
        lemma_remove_char_lacks(s.drop_last(), x, y);
    }
}

/// `remove_char` leaves a sequence without the removed character unchanged.
pub proof fn lemma_remove_char_absent(s: Seq<char>, x: char)
    requires
        lacks(s, x),
    ensures
        remove_char(s, x) == s,
    decreases s.len(),
{
    if s.len() > 0 {
        lemma_remove_char_absent(s.drop_last(), x);
        assert(s.drop_last().push(s.last()) =~= s);
    }
}

/// `remove_char` keeps the first character when it is not the removed one.
pub proof fn lemma_remove_char_first(s: Seq<char>, x: char)
    requires
        s.len() > 0,
        s[0] != x,
    ensures
        remove_char(s, x).len() > 0,
        remove_char(s, x)[0] == s[0],
    decreases s.len(),
{
    if s.len() > 1 {
        lemma_remove_char_first(s.drop_last(), x);
        let r0 = remove_char(s.drop_last(), x);
        assert(r0[0] == s[0]);
        if s.last() != x {
            assert(remove_char(s, x) == r0.push(s.last()));
        }
    } else {
        assert(remove_char(s.drop_last(), x) =~= Seq::<char>::empty());
        assert(remove_char(s, x) == Seq::<char>::empty().push(s[0]));
    }
}

/// `trim_start` gives a suffix of its input that does not start with whitespace.
pub proof fn lemma_trim_start_shape(s: Seq<char>)
    ensures
        trim_start(s).len() <= s.len(),
        forall|i: int|
            0 <= i < trim_start(s).len() ==> #[trigger] trim_start(s)[i] == s[i + (s.len()
                - trim_start(s).len())],
        trim_start(s).len() > 0 ==> !is_whitespace(trim_start(s)[0]),
    decreases s.len(),
{
    if s.len() > 0 && is_whitespace(s[0]) {
        lemma_trim_start_shape(s.drop_first());
    }
}

/// `trim_end` gives a prefix of its input that does not end with whitespace.
pub proof fn lemma_trim_end_shape(s: Seq<char>)
    ensures
        trim_end(s).len() <= s.len(),
        forall|i: int| 0 <= i < trim_end(s).len() ==> #[trigger] trim_end(s)[i] == s[i],
        trim_end(s).len() > 0 ==> !is_whitespace(trim_end(s).last()),
    decreases s.len(),
{
    if s.len() > 0 && is_whitespace(s.last()) {
        lemma_trim_end_shape(s.drop_last());
    }
}

/// `trim` gives a part of its input whose ends are not whitespace.
pub proof fn lemma_trim_shape(s: Seq<char>, y: char)
    ensures
        lacks(s, y) ==> lacks(trim(s), y),
        trim(s).len() > 0 ==> !is_whitespace(trim(s)[0]) && !is_whitespace(trim(s).last()),
{
    let t = trim_start(s);
    lemma_trim_start_shape(s);
    lemma_trim_end_shape(t);
    if lacks(s, y) {
        assert forall|i: int| 0 <= i < trim(s).len() implies trim(s)[i] != y by {
            assert(trim(s)[i] == t[i]);
            assert(t[i] == s[i + (s.len() - t.len())]);
        }
    }
    if trim(s).len() > 0 {
        assert(trim(s)[0] == t[0]);
    }
}

/// Normalising twice gives what normalising once gives, and a normalised
/// string holds no space and no line feed.
pub proof fn lemma_compare_handle_idempotent(s: Seq<char>)
    ensures
        compare_handle_spec(compare_handle_spec(s)) == compare_handle_spec(s),
        lacks(compare_handle_spec(s), ' '),
        lacks(compare_handle_spec(s), '\n'),
{
    let a = remove_char(s, ' ');
    let b = trim(a);
    let c = remove_char(b, '\n');
    lemma_remove_char_lacks(s, ' ', ' ');
    lemma_trim_shape(a, ' ');
    lemma_remove_char_lacks(b, '\n', ' ');
    lemma_remove_char_absent(c, ' ');
    if c.len() > 0 {
        assert(b.len() > 0);
        lemma_remove_char_first(b, '\n');
        assert(b.last() != '\n');
        assert(c == remove_char(b.drop_last(), '\n').push(b.last()));
        assert(trim_start(c) == c);
        assert(trim_end(c) == c);
    } else {
        assert(trim_start(c) == c);
        assert(trim_end(c) == c);
    }
    assert(trim(c) == c);
    lemma_remove_char_absent(c, '\n');
}

} // verus!
