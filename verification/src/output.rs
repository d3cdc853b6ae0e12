//! Lines of text, and how they are appended to the output.

use vstd::prelude::*;

verus! {

/// `text` followed by a newline.
pub open spec fn line(text: Seq<char>) -> Seq<char> {
    text.push('\n')
}

/// What a call has added to the output, if it found `before` there and left `after`.
pub open spec fn appended(before: Seq<char>, after: Seq<char>) -> Seq<char>
    recommends
        before.is_prefix_of(after),
{
    after.skip(before.len() as int)
}

/// Appends `text` and a newline to `out`.
pub(crate) fn write_line(out: &mut String, text: &str)
    ensures
        final(out)@ == old(out)@ + line(text@),
{
    out.append(text);
    out.append("\n");
    proof {
        reveal_strlit("\n");
        assert("\n"@ =~= seq!['\n']);
        assert(out@ =~= old(out)@ + line(text@));
    }
}

/// Appending keeps what was there and adds exactly what was appended.
pub proof fn lemma_appended(before: Seq<char>, added: Seq<char>)
    ensures
        before.is_prefix_of(before + added),
        appended(before, before + added) == added,
{
    assert((before + added).skip(before.len() as int) =~= added);
}

} // verus!
