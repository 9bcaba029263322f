//! Lists of texts from which one text is left out.

use vstd::prelude::*;

use crate::text::text_equal;
use crate::text::texts;

verus! {

/// A list without the copies of one text, in the same order.
pub open spec fn others(list: Seq<Seq<char>>, dropped: Seq<char>) -> Seq<Seq<char>> {
    list.filter(|text: Seq<char>| text != dropped)
}

/// The strings of a list that differ from `dropped`, in the same order.
pub fn retain_others(list: Vec<String>, dropped: &str) -> (kept: Vec<String>)
    ensures
        texts(kept@) == others(texts(list@), dropped@),
        kept@.len() <= list@.len(),
{
    let mut kept: Vec<String> = Vec::new();
    let mut i: usize = 0;
    proof {
        lemma_others_of_nothing(dropped@);
        assert(texts(list@).take(0) =~= Seq::<Seq<char>>::empty());
        assert(texts(kept@) =~= Seq::<Seq<char>>::empty());
    }
    while i < list.len()
        invariant
            i <= list@.len(),
            kept@.len() <= i,
            texts(kept@) == others(texts(list@).take(i as int), dropped@),
        decreases list@.len() - i,
    {
        proof {
            assert(texts(list@).take(i + 1) =~= texts(list@).take(i as int).push(
                list@[i as int]@,
            ));
            lemma_others_of_push(texts(list@).take(i as int), list@[i as int]@, dropped@);
        }
        if !text_equal(list[i].as_str(), dropped) {
            let ghost before = kept@;
            kept.push(list[i].clone());
            assert(texts(kept@) =~= texts(before).push(list@[i as int]@));
        }
        i += 1;
    }
    assert(texts(list@).take(i as int) =~= texts(list@));
    kept
}

pub(crate) proof fn lemma_others_of_nothing(dropped: Seq<char>)
    ensures
        others(Seq::empty(), dropped) == Seq::<Seq<char>>::empty(),
{
    reveal(Seq::filter);
}

pub(crate) proof fn lemma_others_of_push(list: Seq<Seq<char>>, text: Seq<char>, dropped: Seq<char>)
    ensures
        others(list.push(text), dropped) == if text == dropped {
            others(list, dropped)
        } else {
            others(list, dropped).push(text)
        },
{
    reveal(Seq::filter);
    assert(list.push(text).drop_last() =~= list);
}

/// Leaving one text out keeps exactly the other texts, and no more copies of them than there
/// were.
pub proof fn others_keeps_exactly_the_others(list: Seq<Seq<char>>, dropped: Seq<char>)
    ensures
        forall|text: Seq<char>| #[trigger]
            others(list, dropped).contains(text) <==> list.contains(text) && text != dropped,
        others(list, dropped).len() <= list.len(),
        list.no_duplicates() ==> others(list, dropped).no_duplicates(),
        !list.contains(dropped) ==> others(list, dropped) == list,
    decreases list.len(),
{
    if list.len() == 0 {
        lemma_others_of_nothing(dropped);
        assert(list =~= Seq::empty());
    } else {
        let rest = list.drop_last();
        let last = list.last();
        others_keeps_exactly_the_others(rest, dropped);
        lemma_others_of_push(rest, last, dropped);
        assert(rest.push(last) =~= list);
        let kept = others(rest, dropped);
        assert forall|text: Seq<char>| #[trigger]
            others(list, dropped).contains(text) <==> list.contains(text) && text != dropped by {
            assert(list.contains(text) <==> rest.contains(text) || text == last) by {
                if rest.contains(text) {
                    let i = rest.index_of(text);
                    assert(list[i] == text);
                }
                if text == last {
                    assert(list[list.len() - 1] == text);
                }
                if list.contains(text) && text != last {
                    let i = list.index_of(text);
                    assert(rest[i] == text);
                }
            }
            assert(kept.push(last).contains(text) <==> kept.contains(text) || text == last) by {
                if kept.contains(text) {
                    let i = kept.index_of(text);
                    assert(kept.push(last)[i] == text);
                }
                if text == last {
                    assert(kept.push(last)[kept.len() as int] == text);
                }
            }
        }
        if list.no_duplicates() {
            assert(rest.no_duplicates());
            assert(!rest.contains(last)) by {
                if rest.contains(last) {
                    let i = rest.index_of(last);
                    assert(list[i] == list[list.len() - 1]);
                }
            }
            assert(!kept.contains(last));
            assert forall|i: int, j: int|
                0 <= i < kept.push(last).len() && 0 <= j < kept.push(last).len() && i
                    != j implies kept.push(last)[i] != kept.push(last)[j] by {
                if i == kept.len() {
                    assert(kept.contains(kept[j]));
                } else if j == kept.len() {
                    assert(kept.contains(kept[i]));
                }
            }
        }
        if !list.contains(dropped) {
            assert(!rest.contains(dropped)) by {
                if rest.contains(dropped) {
                    let i = rest.index_of(dropped);
                    assert(list[i] == dropped);
                }
            }
            assert(last != dropped) by {
                assert(list[list.len() - 1] == last);
            }
        }
    }
}

/// Leaving a text out of two lists, one behind the other, leaves it out of each. Of a list of one
/// text, nothing stays if it is the text to leave out, and all of it otherwise.
pub proof fn others_are_found_piece_by_piece(
    first: Seq<Seq<char>>,
    second: Seq<Seq<char>>,
    text: Seq<char>,
    dropped: Seq<char>,
)
    ensures
        others(first + second, dropped) == others(first, dropped) + others(second, dropped),
        others(seq![text], dropped) == if text == dropped {
            Seq::<Seq<char>>::empty()
        } else {
            seq![text]
        },
    decreases second.len(),
{
    lemma_others_of_nothing(dropped);
    lemma_others_of_push(Seq::empty(), text, dropped);
    assert(Seq::<Seq<char>>::empty().push(text) =~= seq![text]);
    if second.len() == 0 {
        assert(second =~= Seq::empty());
        assert(first + second =~= first);
        assert(others(first, dropped) + Seq::<Seq<char>>::empty() =~= others(first, dropped));
    } else {
        let rest = second.drop_last();
        let last = second.last();
        others_are_found_piece_by_piece(first, rest, text, dropped);
        assert(rest.push(last) =~= second);
        assert((first + rest).push(last) =~= first + second);
        lemma_others_of_push(rest, last, dropped);
        lemma_others_of_push(first + rest, last, dropped);
        assert((others(first, dropped) + others(rest, dropped)).push(last) =~= others(
            first,
            dropped,
        ) + others(rest, dropped).push(last));
    }
}

} // verus!
