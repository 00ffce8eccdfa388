//! Random bytes from the operating system.

use rand::TryRng;
use vstd::prelude::*;

verus! {

/// `SysRng::try_fill_bytes` fills the whole buffer or gives the reason why it could not. Which
/// bytes come is a matter of chance, and whether any come is up to the operating system.
#[verifier::external_body]
fn entropy(len: usize) -> (r: Result<Vec<u8>, String>)
    requires
        len <= isize::MAX,
    ensures
        r is Ok ==> r->Ok_0@.len() == len,
{
    let mut bytes = vec![0u8; len];
    match rand::rngs::SysRng.try_fill_bytes(&mut bytes) {
        Ok(()) => Ok(bytes),
        Err(error) => Err(error.to_string()),
    }
}

/// This is an answer of the operating system to a request for so many random bytes: the bytes, or
/// why there are none. Only asking shows which one it gives.
pub closed spec fn may_draw(len: usize, answer: Result<Vec<u8>, String>) -> bool {
    call_ensures(entropy, (len,), answer)
}

/// Random bytes, or why there are none.
pub(crate) fn draw(len: usize) -> (answer: Result<Vec<u8>, String>)
    requires
        len <= isize::MAX,
    ensures
        may_draw(len, answer),
        answer is Ok ==> answer->Ok_0@.len() == len,
{
    entropy(len)
}

/// A place from which random bytes are drawn, with every answer that the operating system gave
/// through it so far.
pub struct RandomSource {
    answers: Ghost<Seq<Result<Vec<u8>, String>>>,
}

impl View for RandomSource {
    type V = Seq<Result<Vec<u8>, String>>;

    closed spec fn view(&self) -> Seq<Result<Vec<u8>, String>> {
        self.answers@
    }
}

impl RandomSource {
    /// Nothing was drawn.
    pub fn new() -> (source: Self)
        ensures
            source@ == Seq::<Result<Vec<u8>, String>>::empty(),
    {
        RandomSource { answers: Ghost(Seq::empty()) }
    }

    /// Random bytes, or why there are none. The answer is one more that was given here.
    pub(crate) fn draw(&mut self, len: usize) -> (answer: Result<Vec<u8>, String>)
        requires
            len <= isize::MAX,
        ensures
            final(self)@ == old(self)@.push(answer),
            may_draw(len, answer),
            answer is Ok ==> answer->Ok_0@.len() == len,
    {
        let answer = draw(len);
        self.answers = Ghost(self.answers@.push(answer));
        answer
    }
}

} // verus!
