//! Text for the peer log.
use vstd::prelude::*;

verus! {

/// No line ends inside this text.
pub open spec fn unbroken(text: Seq<char>) -> bool {
    forall|i: int| 0 <= i < text.len() ==> text[i] != '\n'
}

/// A complete line: unbroken text and its line end.
pub open spec fn one_line(text: Seq<char>) -> bool {
    text.len() > 0 && text.last() == '\n' && unbroken(text.drop_last())
}

/// A text as `{:?}` shows it, in quotes and with escapes.
pub uninterp spec fn debug_text(text: Seq<char>) -> Seq<char>;

/// `format!("{:?}", ..)` of the standard library on a string.
///
/// The contract names what comes out, and claims that no line ends inside it: a line end is
/// shown as an escape.
#[verifier::external_body]
fn debug_string(text: &String) -> (shown: String)
    ensures
        shown@ == debug_text(text@),
        unbroken(shown@),
{
    format!("{:?}", text)
}

/// The items of a list as `{:?}` shows them, with a comma and a space between two.
pub open spec fn debug_items(items: Seq<String>) -> Seq<char>
    decreases items.len(),
{
    if items.len() == 0 {
        Seq::empty()
    } else if items.len() == 1 {
        debug_text(items[0]@)
    } else {
        debug_items(items.drop_last()) + ", "@ + debug_text(items.last()@)
    }
}

/// A list as `{:?}` shows it: its items in square brackets.
pub open spec fn debug_list_text(items: Seq<String>) -> Seq<char> {
    "["@ + debug_items(items) + "]"@
}

/// Shows a list of strings as `{:?}` does.
pub fn debug_list(items: &Vec<String>) -> (shown: String)
    ensures
        shown@ == debug_list_text(items@),
        unbroken(shown@),
{
    let mut shown = "[".to_string();
    let mut done: usize = 0;
    proof {
        reveal_strlit("[");
        assert(unbroken("["@));
        assert(shown@ =~= "["@ + debug_items(items@.take(0)));
    }
    while done < items.len()
        invariant
            done <= items.len(),
            shown@ == "["@ + debug_items(items@.take(done as int)),
            unbroken(shown@),
        decreases items.len() - done,
    {
        if done > 0 {
            shown.append(", ");
        }
        let item = debug_string(&items[done]);
        shown.append(item.as_str());
        proof {
            reveal_strlit(", ");
            let next = items@.take(done + 1);
            assert(next.drop_last() =~= items@.take(done as int));
            assert(next.last() == items@[done as int]);
            assert(shown@ =~= "["@ + debug_items(next));
        }
        done += 1;
    }
    shown.append("]");
    proof {
        reveal_strlit("]");
        assert(items@.take(items@.len() as int) =~= items@);
    }
    shown
}

/// A text is unbroken where the line end does not occur in it, and a line is one where the line end
/// occurs in it once: as the last character.
pub proof fn law_one_line_has_one_line_end(text: Seq<char>)
    ensures
        unbroken(text) <==> !text.contains('\n'),
        one_line(text) <==> text.len() > 0 && forall|i: int|
            0 <= i < text.len() ==> (#[trigger] text[i] == '\n' <==> i == text.len() - 1),
{
    if text.contains('\n') {
        let i = text.index_of('\n');
        assert(text[i] == '\n');
    }
    if text.len() > 0 {
        let inside = text.drop_last();
        if unbroken(inside) && text.last() == '\n' {
            assert forall|i: int| 0 <= i < text.len() implies (#[trigger] text[i] == '\n' <==> i
                == text.len() - 1) by {
                if i < text.len() - 1 {
                    assert(inside[i] == text[i]);
                }
            }
        }
        if forall|i: int|
            0 <= i < text.len() ==> (#[trigger] text[i] == '\n' <==> i == text.len() - 1) {
            assert(text[text.len() - 1] == '\n');
            assert forall|i: int| 0 <= i < inside.len() implies inside[i] != '\n' by {
                assert(inside[i] == text[i]);
            }
        }
    }
}

/// An empty list is shown as two brackets, and a list of one item as that item in brackets.
pub proof fn law_short_lists_are_shown_in_brackets(item: String)
    ensures
        debug_list_text(Seq::<String>::empty()) == "["@ + "]"@,
        debug_list_text(seq![item]) == "["@ + debug_text(item@) + "]"@,
{
    assert(debug_list_text(Seq::<String>::empty()) =~= "["@ + "]"@);
}

/// One more item goes behind what is shown already, after a comma and a space, however many items
/// there are.
pub proof fn law_lists_are_shown_item_by_item(items: Seq<String>, item: String)
    requires
        items.len() > 0,
    ensures
        debug_list_text(items.push(item)) == debug_list_text(items).drop_last() + ", "@
            + debug_text(item@) + "]"@,
{
    reveal_strlit("]");
    assert(items.push(item).drop_last() =~= items);
    assert(debug_list_text(items).drop_last() =~= "["@ + debug_items(items));
}

} // verus!
