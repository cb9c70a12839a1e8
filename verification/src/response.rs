//! The answer of the service: the choices of a response, and the one text
//! that they make.
use vstd::prelude::*;
use vstd::string::*;

verus! {

/// The texts of a list of choices, in order.
pub open spec fn texts(choices: Seq<String>) -> Seq<Seq<char>> {
    Seq::new(choices.len(), |i: int| choices[i]@)
}

/// All texts written one after the other, with nothing between them.
pub open spec fn joined(parts: Seq<Seq<char>>) -> Seq<char>
    decreases parts.len(),
{
    if parts.len() == 0 {
        Seq::<char>::empty()
    } else {
        joined(parts.drop_last()) + parts.last()
    }
}

/// What the service answered: the text of each choice, in the order of the
/// response.
#[derive(Clone, Debug, PartialEq, Eq)]
pub struct ChatResponse {
    pub choices: Vec<String>,
}

impl ChatResponse {
    /// The answer as one text: the texts of the choices written one after
    /// the other. A response without choices has the empty answer.
    pub open spec fn spec_answer(self) -> Seq<char> {
        joined(texts(self.choices@))
    }

    /// The answer as one text.
    pub fn answer(&self) -> (r: String)
        ensures
            r@ == self.spec_answer(),
    {
        let choices = &self.choices;
        let mut answer = String::new();
        let mut i: usize = 0;
        while i < choices.len()
            invariant
                i <= choices.len(),
                answer@ == joined(texts(choices@).take(i as int)),
            decreases choices.len() - i,
        {
            proof {
                let before = texts(choices@).take(i as int);
                let after = texts(choices@).take(i + 1);
                assert(after.drop_last() =~= before);
                assert(after.last() == choices@[i as int]@);
            }
            answer.append(choices[i].as_str());
            i = i + 1;
        }
        proof {
            assert(texts(choices@).take(i as int) =~= texts(choices@));
        }
        answer
    }
}

/// A response without choices has the empty answer.
pub proof fn lemma_no_choice_is_empty(choices: Seq<String>)
    requires
        choices.len() == 0,
    ensures
        joined(texts(choices)) == Seq::<char>::empty(),
{
}

/// A response with two choices has the first text followed at once by the
/// second as its answer.
pub proof fn lemma_two_choices_in_order(choices: Seq<String>)
    requires
        choices.len() == 2,
    ensures
        joined(texts(choices)) == choices[0]@ + choices[1]@,
{
    let parts = texts(choices);
    reveal_with_fuel(joined, 3);
    assert(parts.drop_last().drop_last().len() == 0);
    assert(parts.drop_last().last() == choices[0]@);
    assert(Seq::<char>::empty() + choices[0]@ =~= choices[0]@);
}

/// The answer of a response read in two parts is the answer of the first
/// part followed by the answer of the second.
pub proof fn lemma_joined_concat(first: Seq<Seq<char>>, second: Seq<Seq<char>>)
    ensures
        joined(first + second) == joined(first) + joined(second),
    decreases second.len(),
{
    if second.len() == 0 {
        assert(first + second =~= first);
        assert(joined(first) + joined(second) =~= joined(first));
    } else {
        lemma_joined_concat(first, second.drop_last());
        assert((first + second).drop_last() =~= first + second.drop_last());
        assert((first + second).last() == second.last());
        assert(joined(first) + (joined(second.drop_last()) + second.last()) =~= (joined(first)
            + joined(second.drop_last())) + second.last());
    }
}

} // verus!
