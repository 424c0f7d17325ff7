//! The text of a row: white space around it, and the commas that part it.

use vstd::prelude::*;

verus! {

/// Whether a character has the Unicode property `White_Space`.
pub uninterp spec fn white_space(c: char) -> bool;

/// A text without the white space it begins with.
pub open spec fn trimmed_start(s: Seq<char>) -> Seq<char>
    decreases s.len(),
{
    if s.len() > 0 && white_space(s.first()) {
        trimmed_start(s.drop_first())
    } else {
        s
    }
}

/// A text without the white space it ends with.
pub open spec fn trimmed_end(s: Seq<char>) -> Seq<char>
    decreases s.len(),
{
    if s.len() > 0 && white_space(s.last()) {
        trimmed_end(s.drop_last())
    } else {
        s
    }
}

/// A text without the white space around it.
pub open spec fn trimmed(s: Seq<char>) -> Seq<char> {
    trimmed_end(trimmed_start(s))
}

/// How many characters of white space a text begins with.
pub open spec fn leading_white_space(s: Seq<char>) -> nat
    decreases s.len(),
{
    if s.len() > 0 && white_space(s.first()) {
        1 + leading_white_space(s.drop_first())
    } else {
        0
    }
}

/// How many characters of white space a text ends with.
pub open spec fn trailing_white_space(s: Seq<char>) -> nat
    decreases s.len(),
{
    if s.len() > 0 && white_space(s.last()) {
        1 + trailing_white_space(s.drop_last())
    } else {
        0
    }
}

/// Trimming at the start takes off the leading white space and nothing else.
pub proof fn start_is_trimmed_to_the_first_mark(s: Seq<char>)
    ensures
        leading_white_space(s) <= s.len(),
        trimmed_start(s) == s.skip(leading_white_space(s) as int),
        forall|i: int| 0 <= i < leading_white_space(s) ==> white_space(#[trigger] s[i]),
        trimmed_start(s).len() > 0 ==> !white_space(trimmed_start(s).first()),
    decreases s.len(),
{
    if s.len() > 0 && white_space(s.first()) {
        let rest = s.drop_first();
        start_is_trimmed_to_the_first_mark(rest);
        let n = leading_white_space(rest);
        assert(rest.skip(n as int) =~= s.skip(n as int + 1));
        assert forall|i: int| 0 <= i < leading_white_space(s) implies white_space(
            #[trigger] s[i],
        ) by {
            if i > 0 {
                assert(s[i] == rest[i - 1]);
            }
        }
    } else {
        assert(s.skip(0) =~= s);
    }
}

/// Trimming at the end takes off the trailing white space and nothing else.
pub proof fn end_is_trimmed_to_the_last_mark(s: Seq<char>)
    ensures
        trailing_white_space(s) <= s.len(),
        trimmed_end(s) == s.take(s.len() - trailing_white_space(s)),
        forall|i: int|
            s.len() - trailing_white_space(s) <= i < s.len() ==> white_space(#[trigger] s[i]),
        trimmed_end(s).len() > 0 ==> !white_space(trimmed_end(s).last()),
    decreases s.len(),
{
    if s.len() > 0 && white_space(s.last()) {
        let rest = s.drop_last();
        end_is_trimmed_to_the_last_mark(rest);
        let n = trailing_white_space(rest);
        assert(rest.take(rest.len() - n) =~= s.take(s.len() - (n + 1)));
        assert forall|i: int| s.len() - trailing_white_space(s) <= i < s.len() implies white_space(
            #[trigger] s[i],
        ) by {
            if i < s.len() - 1 {
                assert(s[i] == rest[i]);
            }
        }
    } else {
        assert(s.take(s.len() as int) =~= s);
    }
}

/// A trimmed text is the part of the text between its leading and its
/// trailing white space, and neither begins nor ends with white space.
pub proof fn trimmed_is_the_marked_part(s: Seq<char>)
    ensures
        trimmed(s).len() > 0 ==> !white_space(trimmed(s).first()) && !white_space(
            trimmed(s).last(),
        ),
        leading_white_space(s) <= s.len(),
        trimmed(s).len() <= s.len() - leading_white_space(s),
        trimmed(s) == s.subrange(
            leading_white_space(s) as int,
            leading_white_space(s) as int + trimmed(s).len(),
        ),
{
    start_is_trimmed_to_the_first_mark(s);
    let t = trimmed_start(s);
    end_is_trimmed_to_the_last_mark(t);
    let a = leading_white_space(s) as int;
    assert(trimmed(s) =~= s.subrange(a, a + trimmed(s).len()));
    if trimmed(s).len() > 0 {
        assert(trimmed(s).first() == t.first());
    }
}

/// The pieces of a text between its commas, in order. Read from the left, a
/// comma opens a new piece and any other character joins the latest one: a
/// text with `n` commas has `n + 1` pieces, and the empty text is one empty
/// piece.
pub open spec fn comma_fields(s: Seq<char>) -> Seq<Seq<char>>
    decreases s.len(),
{
    if s.len() == 0 {
        seq![Seq::empty()]
    } else {
        let before = comma_fields(s.drop_last());
        if s.last() == ',' {
            before.push(Seq::empty())
        } else {
            before.drop_last().push(before.last().push(s.last()))
        }
    }
}

/// Pieces put together again, with a comma between neighbours.
pub open spec fn joined(fields: Seq<Seq<char>>) -> Seq<char>
    decreases fields.len(),
{
    if fields.len() == 0 {
        Seq::empty()
    } else if fields.len() == 1 {
        fields[0]
    } else {
        joined(fields.drop_last()) + seq![','] + fields.last()
    }
}

/// The pieces of a text are cut at its commas and nowhere else: there is at
/// least one piece, no piece holds a comma, and the pieces with commas put
/// back between them are the text.
pub proof fn pieces_are_cut_at_the_commas(s: Seq<char>)
    ensures
        comma_fields(s).len() >= 1,
        forall|k: int|
            0 <= k < comma_fields(s).len() ==> !(#[trigger] comma_fields(s)[k]).contains(','),
        joined(comma_fields(s)) == s,
    decreases s.len(),
{
    if s.len() == 0 {
        assert(joined(comma_fields(s)) =~= s);
    } else {
        let front = s.drop_last();
        let before = comma_fields(front);
        pieces_are_cut_at_the_commas(front);
        let fields = comma_fields(s);
        if s.last() == ',' {
            assert(fields.drop_last() =~= before);
            assert(joined(fields) =~= s);
        } else {
            let grown = before.last().push(s.last());
            assert(fields.last() == grown);
            assert forall|i: int| 0 <= i < grown.len() implies grown[i] != ',' by {
                if i < before.last().len() && grown[i] == ',' {
                    assert(before.last()[i] == ',');
                }
            }
            if before.len() == 1 {
                assert(joined(fields) =~= s);
            } else {
                assert(fields.drop_last() =~= before.drop_last());
                assert(joined(fields) =~= joined(before).push(s.last()));
                assert(joined(fields) =~= s);
            }
        }
    }
}

/// The columns of a row: the pieces between the commas of the trimmed line.
pub open spec fn row_fields(line: Seq<char>) -> Seq<Seq<char>> {
    comma_fields(trimmed(line))
}

/// `str::trim`: the slice that is left when leading and trailing white space,
/// in Unicode's sense, are taken off.
#[verifier::external_body]
pub(crate) fn trim(s: &str) -> (r: &str)
    ensures
        r@ == trimmed(s@),
        r@.len() > 0 ==> !white_space(r@.first()) && !white_space(r@.last()),
{
    s.trim()
}

/// `str::split` on a comma: the substrings between the commas, in order, one
/// more than there are commas.
#[verifier::external_body]
pub(crate) fn split_commas(s: &str) -> (r: Vec<&str>)
    ensures
        r@.len() == comma_fields(s@).len(),
        forall|k: int| 0 <= k < r@.len() ==> (#[trigger] r@[k])@ == comma_fields(s@)[k],
{
    s.split(',').collect()
}

} // verus!
