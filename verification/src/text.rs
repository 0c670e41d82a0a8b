//! Operations on strings, specified over their characters.

use vstd::prelude::*;

verus! {

/// The first text, and behind it each further one with `sep` in front.
pub open spec fn joined(texts: Seq<Seq<char>>, sep: Seq<char>) -> Seq<char> {
    if texts.len() == 0 {
        seq![]
    } else {
        texts[0] + texts.skip(1).flat_map(|text: Seq<char>| sep + text)
    }
}

/// Joined by nothing, the texts simply follow each other.
pub proof fn lemma_joined_by_nothing(texts: Seq<Seq<char>>)
    ensures
        joined(texts, seq![]) == texts.flatten(),
{
    let behind = |text: Seq<char>| Seq::<char>::empty() + text;
    if texts.len() > 0 {
        assert(texts.skip(1) == texts.drop_first());
        assert(texts.skip(1).map_values(behind) =~~= texts.skip(1));
    }
}

/// One more text comes behind one more separator.
proof fn lemma_joined_step(texts: Seq<Seq<char>>, sep: Seq<char>, i: int)
    requires
        0 < i < texts.len(),
    ensures
        joined(texts.take(i + 1), sep) == joined(texts.take(i), sep) + sep + texts[i],
{
    let behind = |text: Seq<char>| sep + text;
    let further = texts.take(i).skip(1).map_values(behind);
    assert(texts.take(i + 1).skip(1).map_values(behind) == further.push(behind(texts[i])));
    further.lemma_flatten_push(behind(texts[i]));
}

/// Concatenates `texts`, with `sep` between each two neighbours.
pub fn join(texts: &Vec<&str>, sep: &str) -> (result: String)
    ensures
        result@ == joined(texts.deep_view(), sep@),
{
    let ghost all = texts.deep_view();
    if texts.is_empty() {
        return String::new();
    }
    let mut result = texts[0].to_string();
    proof {
        let behind = |text: Seq<char>| sep@ + text;
        assert(all.take(1).skip(1).map_values(behind) == Seq::<Seq<char>>::empty());
    }
    for i in 1..texts.len()
        invariant
            all == texts.deep_view(),
            result@ == joined(all.take(i as int), sep@),
    {
        proof {
            lemma_joined_step(all, sep@, i as int);
        }
        result.append(sep);
        result.append(texts[i]);
    }
    assert(all.take(all.len() as int) == all);
    result
}

/// Whether the two strings hold the same characters.
pub fn same_text(left: &str, right: &str) -> (result: bool)
    ensures
        result == (left@ == right@),
{
    // Equality is specified for owned strings.
    left.to_string() == right.to_string()
}

} // verus!
