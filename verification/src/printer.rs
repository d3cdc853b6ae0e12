//! The printer: one fixed line, whatever the circumstances.

use vstd::prelude::*;

use crate::greeter::greet_output;
use crate::output::{appended, lemma_appended, line, write_line};

verus! {

/// The text that the printer writes, without its newline.
pub open spec fn untested() -> Seq<char> {
    "untested"@
}

/// Appends the line `untested` to `out`.
///
/// The call cannot fail, and what it adds depends on nothing: not on what `out` held,
/// not on earlier calls, not on the terminal, which it never asks about.
pub fn i_am_untested(out: &mut String)
    ensures
        final(out)@ == old(out)@ + line(untested()),
{
    write_line(out, "untested");
}

/// The output after `count` calls of `i_am_untested` in a row that started on `before`:
/// each call finds what the one before it left.
pub open spec fn after_untested_calls(before: Seq<char>, count: nat) -> Seq<char>
    decreases count,
{
    if count == 0 {
        before
    } else {
        after_untested_calls(before, (count - 1) as nat) + line(untested())
    }
}

/// Calls of the printer in a row do not wear it out: whatever the output held at first
/// and however many calls came before, each call adds the one line `untested` and
/// leaves in place all that was written until then.
pub proof fn lemma_untested_calls_repeat(before: Seq<char>, count: nat)
    ensures
        ({
            let last = after_untested_calls(before, count);
            &&& last.len() == before.len() + count * line(untested()).len()
            &&& before.is_prefix_of(last)
            &&& forall|k: nat|
                k < count ==> {
                    let found = #[trigger] after_untested_calls(before, k);
                    let left = after_untested_calls(before, k + 1);
                    &&& appended(found, left) == line(untested())
                    &&& found.is_prefix_of(left)
                    &&& found.is_prefix_of(last)
                }
        }),
    decreases count,
{
    if count > 0 {
        let width = line(untested()).len();
        let earlier = (count - 1) as nat;
        let found = after_untested_calls(before, earlier);
        let last = after_untested_calls(before, count);
        lemma_untested_calls_repeat(before, earlier);
        lemma_appended(found, line(untested()));
        assert(count * width == earlier * width + width) by (nonlinear_arith)
            requires
                count == earlier + 1,
        ;
        assert forall|k: nat| k < count implies {
            let at_k = #[trigger] after_untested_calls(before, k);
            let next = after_untested_calls(before, k + 1);
            &&& appended(at_k, next) == line(untested())
            &&& at_k.is_prefix_of(next)
            &&& at_k.is_prefix_of(last)
        } by {
            let at_k = after_untested_calls(before, k);
            lemma_appended(at_k, line(untested()));
            if k < earlier {
                assert(at_k.is_prefix_of(found));
            }
        }
    }
}

/// The printer and the greeter do not touch each other. For either answer of the
/// terminal probe, the printer adds its line after the greeter as it does without it,
/// and the greeter adds after the printer what it adds without it.
pub proof fn lemma_printer_greeter_independent(attached: bool, before: Seq<char>)
    ensures
        ({
            let greeted = before + greet_output(attached);
            let printed = before + line(untested());
            &&& appended(greeted, greeted + line(untested())) == appended(before, printed)
            &&& appended(printed, printed + greet_output(attached)) == appended(before, greeted)
        }),
{
    let greeted = before + greet_output(attached);
    let printed = before + line(untested());
    lemma_appended(before, line(untested()));
    lemma_appended(before, greet_output(attached));
    lemma_appended(greeted, line(untested()));
    lemma_appended(printed, greet_output(attached));
}

} // verus!
