//! Comparing text.

use vstd::prelude::*;

verus! {

/// Whether the text is made of the given characters.
pub fn same_text(a: &String, b: &str) -> (r: bool)
    ensures
        r == (a@ == b@),
{
    let other: String = b.to_owned();
    *a == other
}

/// The texts of a list.
pub open spec fn texts(list: Seq<String>) -> Seq<Seq<char>> {
    Seq::new(list.len(), |i: int| list[i]@)
}

/// Whether one of the texts is made of the given characters.
pub fn contains_text(list: &Vec<String>, text: &str) -> (r: bool)
    ensures
        r == texts(list@).contains(text@),
{
    for i in 0..list.len()
        invariant
            forall|j: int| 0 <= j < i ==> (#[trigger] list@[j])@ != text@,
    {
        if same_text(&list[i], text) {
            assert(texts(list@)[i as int] == text@);
            return true;
        }
    }
    proof {
        let all = texts(list@);
        assert forall|j: int| 0 <= j < all.len() implies all[j] != text@ by {
            assert(list@[j]@ != text@);
        }
    }
    false
}

} // verus!
