//! The acknowledgement side of reliably broadcasting a commit message: who
//! still has to acknowledge, and what counts as an acknowledgement.

use vstd::prelude::*;
use crate::identity::PeerId;

verus! {

/// A validator, by its address.
pub type Author = PeerId;

/// What validators send each other about a commit: a vote, a decision, or
/// the acknowledgement of either. `V` and `D` are the vote and the
/// decision, which this layer carries and does not read.
#[derive(Debug)]
pub enum CommitMessage<V, D> {
    Vote(V),
    Decision(D),
    Ack(()),
}

/// An acknowledgement came from someone who is not, or no longer, awaited.
#[derive(Clone, Copy, Debug, PartialEq, Eq, Structural)]
pub struct UnknownAuthor {
    pub author: Author,
}

/// The response to a broadcast commit message was not an acknowledgement.
#[derive(Clone, Copy, Debug, PartialEq, Eq, Structural)]
pub struct InvalidResponse {}

impl<V, D> CommitMessage<V, D> {
    pub fn is_ack(&self) -> (r: bool)
        ensures
            r == (*self is Ack),
    {
        match self {
            CommitMessage::Ack(_) => true,
            _ => false,
        }
    }
}

/// The response to a broadcast commit message, if it is what it has to be:
/// an acknowledgement.
pub fn expect_ack<V, D>(response: CommitMessage<V, D>) -> (r: Result<
    CommitMessage<V, D>,
    InvalidResponse,
>)
    ensures
        r == (if response is Ack {
            Ok::<CommitMessage<V, D>, InvalidResponse>(response)
        } else {
            Err(InvalidResponse {  })
        }),
{
    if response.is_ack() {
        Ok(response)
    } else {
        Err(InvalidResponse {  })
    }
}

/// The validators whose acknowledgement is still awaited.
#[derive(Debug)]
pub struct AckState {
    validators: Vec<Author>,
}

spec fn no_author_twice(validators: Seq<Author>) -> bool {
    forall|i: int, j: int| 0 <= i < j < validators.len() ==> validators[i] != validators[j]
}

impl View for AckState {
    type V = Set<Author>;

    closed spec fn view(&self) -> Set<Author> {
        self.validators@.to_set()
    }
}

impl AckState {
    #[verifier::type_invariant]
    spec fn awaited_once(&self) -> bool {
        no_author_twice(self.validators@)
    }

    fn position(validators: &Vec<Author>, author: Author) -> (r: Option<usize>)
        ensures
            match r {
                Some(i) => i < validators.len() && validators@[i as int] == author,
                None => !validators@.contains(author),
            },
    {
        let mut i: usize = 0;
        while i < validators.len()
            invariant
                i <= validators.len(),
                forall|j: int| 0 <= j < i ==> validators@[j] != author,
            decreases validators.len() - i,
        {
            if validators[i] == author {
                return Some(i);
            }
            i = i + 1;
        }
        None
    }

    /// Awaits an acknowledgement from each of `validators`, once from each.
    pub fn new(validators: Vec<Author>) -> (r: Self)
        ensures
            r@ == validators@.to_set(),
    {
        let mut awaited: Vec<Author> = Vec::new();
        let mut i: usize = 0;
        while i < validators.len()
            invariant
                i <= validators.len(),
                no_author_twice(awaited@),
                awaited@.to_set() == validators@.take(i as int).to_set(),
            decreases validators.len() - i,
        {
            let author = validators[i];
            let ghost before = awaited@;
            let found = Self::position(&awaited, author);
            if found.is_none() {
                awaited.push(author);
            }
            i = i + 1;
            proof {
                let prev = validators@.take(i - 1);
                let taken = validators@.take(i as int);
                assert(taken == prev.push(author));
                assert forall|a: Author| awaited@.to_set().contains(a) == taken.to_set().contains(
                    a,
                ) by {
                    assert(before.to_set().contains(a) == prev.to_set().contains(a));
                    if before.contains(a) {
                        let j = choose|j: int| 0 <= j < before.len() && before[j] == a;
                        assert(awaited@[j] == a);
                    }
                    if prev.contains(a) {
                        let j = choose|j: int| 0 <= j < prev.len() && prev[j] == a;
                        assert(taken[j] == a);
                    }
                    if a == author {
                        assert(taken[i - 1] == a);
                        if found is None {
                            assert(awaited@[before.len() as int] == a);
                        }
                    }
                    if awaited@.contains(a) && a != author {
                        let j = choose|j: int| 0 <= j < awaited@.len() && awaited@[j] == a;
                        assert(before[j] == a);
                    }
                    if taken.contains(a) && a != author {
                        let j = choose|j: int| 0 <= j < taken.len() && taken[j] == a;
                        assert(prev[j] == a);
                    }
                }
                assert(awaited@.to_set() =~= taken.to_set());
            }
        }
        assert(validators@.take(validators.len() as int) == validators@);
        AckState { validators: awaited }
    }

    /// Takes the acknowledgement of `peer`. Of someone who is not awaited
    /// it is refused, and nothing changes. Otherwise `peer` is awaited no
    /// longer, and the result tells whether that was the last one:
    /// `Some(())` when nobody is awaited any more.
    pub fn add<V, D>(&mut self, peer: Author, _ack: CommitMessage<V, D>) -> (r: Result<
        Option<()>,
        UnknownAuthor,
    >)
        ensures
            r == (if !old(self)@.contains(peer) {
                Err::<Option<()>, UnknownAuthor>(UnknownAuthor { author: peer })
            } else if old(self)@.remove(peer) == Set::<Author>::empty() {
                Ok(Some(()))
            } else {
                Ok(None)
            }),
            final(self)@ == old(self)@.remove(peer),
    {
        proof {
            use_type_invariant(&*self);
        }
        let ghost before = self.validators@;
        match Self::position(&self.validators, peer) {
            None => {
                assert(before.to_set().remove(peer) =~= before.to_set());
                Err(UnknownAuthor { author: peer })
            },
            Some(i) => {
                let mut validators: Vec<Author> = Vec::new();
                std::mem::swap(&mut self.validators, &mut validators);
                validators.remove(i);
                let ghost after = validators@;
                let last = validators.len() == 0;
                proof {
                    assert(after == before.remove(i as int));
                    assert forall|j: int| 0 <= j < after.len() implies #[trigger] after[j] == (if j
                        < i {
                        before[j]
                    } else {
                        before[j + 1]
                    }) by {}
                    assert(no_author_twice(after)) by {
                        assert forall|a: int, b: int| 0 <= a < b < after.len() implies after[a]
                            != after[b] by {
                            let a0 = if a < i { a } else { a + 1 };
                            let b0 = if b < i { b } else { b + 1 };
                            assert(before[a0] != before[b0]);
                        }
                    }
                    assert(after.to_set() =~= before.to_set().remove(peer)) by {
                        assert forall|a: Author| after.to_set().contains(a) == before.to_set().remove(
                            peer,
                        ).contains(a) by {
                            if after.contains(a) {
                                let j = choose|j: int| 0 <= j < after.len() && after[j] == a;
                                let j0 = if j < i { j } else { j + 1 };
                                assert(before[j0] == a);
                                assert(before[i as int] == peer);
                            }
                            if before.contains(a) && a != peer {
                                let j = choose|j: int| 0 <= j < before.len() && before[j] == a;
                                let j1 = if j < i { j } else { j - 1 };
                                assert(after[j1] == a);
                            }
                        }
                    }
                    if last {
                        assert(after.to_set() =~= Set::<Author>::empty());
                    } else {
                        assert(after.to_set().contains(after[0]));
                    }
                }
                self.validators = validators;
                if last {
                    Ok(Some(()))
                } else {
                    Ok(None)
                }
            },
        }
    }
}

} // verus!
