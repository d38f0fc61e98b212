//! What a generation step adds to the output, and how steps follow one another.

use vstd::prelude::*;

use crate::error::{CodegenError, ErrorView};

verus! {

/// The text that a generation step appends, and the error that it stops at, if
/// it does. A step that stops has appended what it wrote before the error.
pub struct Emission {
    /// The text appended.
    pub text: Seq<char>,
    /// The error that ended the step.
    pub error: Option<ErrorView>,
}

impl Emission {
    /// A step that appends a text and succeeds.
    pub open spec fn text(text: Seq<char>) -> Self {
        Emission { text, error: None }
    }

    /// A step that appends nothing and succeeds.
    pub open spec fn nothing() -> Self {
        Emission { text: Seq::empty(), error: None }
    }

    /// A step that appends nothing and stops at an error.
    pub open spec fn fail(error: ErrorView) -> Self {
        Emission { text: Seq::empty(), error: Some(error) }
    }

    /// This step, and where it succeeds the next one after it.
    pub open spec fn followed_by(self, next: Self) -> Self {
        if self.error is Some {
            self
        } else {
            Emission { text: self.text + next.text, error: next.error }
        }
    }

    /// This step, and where it succeeds a text after it.
    pub open spec fn say(self, text: Seq<char>) -> Self {
        self.followed_by(Emission::text(text))
    }

    /// One step per item, in order, up to the first that stops.
    pub open spec fn each<A>(items: Seq<A>, step: spec_fn(A) -> Self) -> Self
        decreases items.len(),
    {
        if items.len() == 0 {
            Emission::nothing()
        } else {
            Emission::each(items.drop_last(), step).followed_by(step(items.last()))
        }
    }

    /// The step took the output from `before` to `after` with this outcome.
    pub open spec fn takes(
        self,
        before: Seq<char>,
        after: Seq<char>,
        outcome: Result<(), CodegenError>,
    ) -> bool {
        &&& after == before + self.text
        &&& match outcome {
            Ok(_) => self.error is None,
            Err(e) => self.error == Some(e@),
        }
    }
}

/// Appending two texts one after the other appends their concatenation.
pub broadcast proof fn lemma_append_twice(a: Seq<char>, b: Seq<char>, c: Seq<char>)
    ensures
        #[trigger] (a + (b + c)) == (a + b) + c,
{
    assert(a + (b + c) =~= (a + b) + c);
}

/// Appending nothing changes nothing.
pub broadcast proof fn lemma_append_nothing(a: Seq<char>)
    ensures
        #[trigger] (a + Seq::<char>::empty()) == a,
{
    assert(a + Seq::<char>::empty() =~= a);
}

pub broadcast group group_append {
    lemma_append_twice,
    lemma_append_nothing,
}

/// The steps for one more item: those so far, and where they succeed the step
/// of that item.
pub proof fn lemma_each_next<A>(items: Seq<A>, step: spec_fn(A) -> Emission, i: int)
    requires
        0 <= i < items.len(),
    ensures
        Emission::each(items.take(i + 1), step) == Emission::each(items.take(i), step).followed_by(
            step(items[i]),
        ),
{
    assert(items.take(i + 1).drop_last() =~= items.take(i));
    assert(items.take(i + 1).last() == items[i]);
}

/// Where the steps of the first items stop, those of all the items stop there.
pub proof fn lemma_each_stops<A>(items: Seq<A>, step: spec_fn(A) -> Emission, i: int)
    requires
        0 <= i <= items.len(),
        Emission::each(items.take(i), step).error is Some,
    ensures
        Emission::each(items, step) == Emission::each(items.take(i), step),
    decreases items.len(),
{
    if i == items.len() {
        assert(items.take(i) =~= items);
    } else {
        assert(items.drop_last().take(i) =~= items.take(i));
        lemma_each_stops(items.drop_last(), step, i);
    }
}

} // verus!
