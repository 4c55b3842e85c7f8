use vstd::prelude::*;

use rand::seq::SliceRandom;
use rand_xoshiro::Xoshiro256Plus;

use super::piece::{ip, Block, Mino, Ori};

verus! {

#[verifier::external_type_specification]
#[verifier::external_body]
pub struct ExXoshiro256Plus(Xoshiro256Plus);

/// One of each block type.
pub open spec fn all_blocks() -> Seq<Block> {
    seq![Block::I, Block::T, Block::O, Block::L, Block::J, Block::S, Block::Z]
}

/// `s` is an ordering of one full set of the seven block types.
pub open spec fn is_full_set(s: Seq<Block>) -> bool {
    s.to_multiset() == all_blocks().to_multiset()
}

/// A full set holds seven blocks, and each block type exactly once.
pub proof fn lemma_full_set_has_each_once(s: Seq<Block>)
    requires
        is_full_set(s),
    ensures
        s.len() == 7,
        forall|b: Block| #[trigger] s.to_multiset().count(b) == 1,
{
    broadcast use vstd::seq_lib::group_to_multiset_ensures;

    let a = all_blocks();
    assert(a.no_duplicates());
    a.lemma_multiset_has_no_duplicates();
    assert forall|b: Block| #[trigger] s.to_multiset().count(b) == 1 by {
        assert(a.contains(b)) by {
            match b {
                Block::I => assert(a[0] == b),
                Block::T => assert(a[1] == b),
                Block::O => assert(a[2] == b),
                Block::L => assert(a[3] == b),
                Block::J => assert(a[4] == b),
                Block::S => assert(a[5] == b),
                Block::Z => assert(a[6] == b),
            }
        }
    }
    assert(s.len() == s.to_multiset().len());
    assert(a.len() == a.to_multiset().len());
}

/// A well-formed queue holds at least eight blocks, and its last seven, the
/// set appended by the latest refill, hold each block type exactly once.
pub proof fn lemma_bag_window(bag: MinoBag)
    requires
        bag.wf(),
    ensures
        bag.minos@.len() >= 8,
        forall|b: Block|
            #[trigger] bag.minos@.subrange(bag.minos@.len() - 7, bag.minos@.len() as int).to_multiset().count(
                b,
            ) == 1,
{
    let n = bag.minos@.len() as int;
    lemma_full_set_has_each_once(bag.minos@.subrange(n - 7, n));
}

/// Relies on rand's `SliceRandom::shuffle` for `Xoshiro256Plus`: it reorders
/// the slice by swaps, so the result is a permutation of the input.
#[verifier::external_body]
fn shuffle_blocks(blocks: &mut [Block; 7], rng: &mut Xoshiro256Plus)
    ensures
        final(blocks)@.to_multiset() == old(blocks)@.to_multiset(),
{
    blocks.shuffle(rng)
}

/// One full set of the seven blocks in an order drawn from `rng`.
pub fn random_minos(rng: &mut Xoshiro256Plus) -> (r: [Block; 7])
    ensures
        is_full_set(r@),
{
    let mut minos = [Block::I, Block::T, Block::O, Block::L, Block::J, Block::S, Block::Z];
    assert(minos@ =~= all_blocks());
    shuffle_blocks(&mut minos, rng);
    minos
}

/// The queue of upcoming blocks and the hold slot.
#[derive(Debug)]
pub struct MinoBag {
    /// The hold slot was used since the last piece locked.
    pub is_held: bool,
    pub held: Option<Block>,
    pub minos: Vec<Block>,
}

impl MinoBag {
    /// Between 8 and 14 blocks are queued, and the last seven of them are one
    /// full set.
    pub open spec fn wf(self) -> bool {
        let n = self.minos@.len() as int;
        &&& 8 <= n <= 14
        &&& is_full_set(self.minos@.subrange(n - 7, n))
    }

    /// The queue after one draw from `old`: the first block leaves, and where
    /// no more than seven are left one full set is appended.
    pub open spec fn drawn_from(self, old: MinoBag) -> bool {
        let n = old.minos@.len() as int;
        &&& self.is_held == old.is_held
        &&& self.held == old.held
        &&& self.minos@.subrange(0, n - 1) == old.minos@.drop_first()
        &&& if n - 1 <= 7 {
            self.minos@.len() == n + 6 && is_full_set(self.minos@.subrange(n - 1, n + 6))
        } else {
            self.minos@.len() == n - 1
        }
    }

    /// Two full sets queued, nothing held.
    pub fn new(rng: &mut Xoshiro256Plus) -> (r: Self)
        ensures
            r.wf(),
            !r.is_held,
            r.held is None,
            r.minos@.len() == 14,
            is_full_set(r.minos@.subrange(0, 7)),
            is_full_set(r.minos@.subrange(7, 14)),
    {
        let first = random_minos(rng);
        let second = random_minos(rng);
        let mut minos: Vec<Block> = Vec::new();
        append_set(&mut minos, first);
        append_set(&mut minos, second);
        assert(minos@.subrange(0, 7) =~= first@);
        assert(minos@.subrange(7, 14) =~= second@);
        MinoBag { is_held: false, held: None, minos }
    }

    /// A fresh piece of the next block.
    pub fn gen_mino(&mut self, rng: &mut Xoshiro256Plus) -> (r: Mino)
        requires
            old(self).wf(),
        ensures
            final(self).wf(),
            final(self).drawn_from(*old(self)),
            r.block == old(self).minos@[0],
            r.ori == Ori::Up,
            r.pos == ip(3, 3),
            r.wf(),
    {
        Mino::new(self.next_block(rng))
    }

    /// Takes the next block from the front of the queue, refilling the queue
    /// with one full set where no more than seven are left.
    pub fn next_block(&mut self, rng: &mut Xoshiro256Plus) -> (r: Block)
        requires
            old(self).wf(),
        ensures
            final(self).wf(),
            final(self).drawn_from(*old(self)),
            r == old(self).minos@[0],
    {
        let block = self.minos.remove(0);
        assert(self.minos@ =~= old(self).minos@.drop_first());
        if self.minos.len() <= 7 {
            let set = random_minos(rng);
            append_set(&mut self.minos, set);
            let ghost n = old(self).minos@.len() as int;
            assert(self.minos@.subrange(n - 1, n + 6) =~= set@);
            assert(self.minos@.subrange(0, n - 1) =~= old(self).minos@.drop_first());
        } else {
            let ghost n = old(self).minos@.len() as int;
            assert(self.minos@.subrange(n - 8, n - 1) =~= old(self).minos@.subrange(n - 7, n));
            assert(self.minos@.subrange(0, n - 1) =~= old(self).minos@.drop_first());
        }
        block
    }
}

fn append_set(minos: &mut Vec<Block>, set: [Block; 7])
    ensures
        final(minos)@ == old(minos)@ + set@,
{
    let mut i: usize = 0;
    while i < 7
        invariant
            i <= 7,
            minos@ == old(minos)@ + set@.subrange(0, i as int),
        decreases 7 - i,
    {
        minos.push(set[i]);
        i += 1;
        assert(minos@ =~= old(minos)@ + set@.subrange(0, i as int));
    }
    assert(set@.subrange(0, 7) =~= set@);
}

} // verus!
