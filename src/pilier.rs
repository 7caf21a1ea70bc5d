use vstd::prelude::*;

use crate::error::P4Error;
use crate::player::PlayerID;

verus! {

/// A stack of up to four marks, filled from the bottom slot up.
#[derive(Clone, Copy, Debug)]
pub struct Pillar {
    pub data: [PlayerID; 4],
    height: u8,
}

/// The sixteen marks found at one height across all the pillars, by cell index.
pub struct Plane {
    pub data: [PlayerID; 16],
}

impl View for Pillar {
    type V = Seq<PlayerID>;

    /// The marks stacked so far, from the bottom.
    closed spec fn view(&self) -> Seq<PlayerID> {
        self.data@.take(self.height as int)
    }
}

impl Pillar {
    /// The four slots, from the bottom.
    pub closed spec fn slots(&self) -> Seq<PlayerID> {
        self.data@
    }

    /// Number of occupied slots.
    pub closed spec fn level(&self) -> int {
        self.height as int
    }

    /// Slots below the height hold marks, the slots above are empty.
    pub open spec fn wf(&self) -> bool {
        &&& self.slots().len() == 4
        &&& 0 <= self.level() <= 4
        &&& forall|i: int| 0 <= i < self.level() ==> self.slots()[i] != PlayerID::Empty
        &&& forall|i: int| self.level() <= i < 4 ==> self.slots()[i] == PlayerID::Empty
    }

    pub open spec fn full(&self) -> bool {
        self.level() >= 4
    }

    #[allow(dead_code)]
    fn new(v: Vec<PlayerID>) -> (r: Pillar)
        requires
            v@.len() == 4,
        ensures
            r.slots() == v@,
            r.level() == 0,
    {
        let temp: [PlayerID; 4] = [v[0], v[1], v[2], v[3]];
        assert(temp@ =~= v@);
        Pillar { data: temp, height: 0 }
    }

    pub fn is_full(&self) -> (r: bool)
        ensures
            r == self.full(),
    {
        self.height >= 4
    }

    /// Tells whether the pillar has no gap: marks below its height, empty slots above.
    fn validate(&self) -> (r: bool)
        requires
            self.wf(),
        ensures
            r == self.wf(),
    {
        if self.height > 4 {
            return false;
        }
        let mut i: usize = 0;
        while i < 4
            invariant
                0 <= i <= 4,
                self.level() <= 4,
                forall|j: int| 0 <= j < i && j < self.level() ==> self.data[j] != PlayerID::Empty,
                forall|j: int| 0 <= j < i && self.level() <= j ==> self.data[j] == PlayerID::Empty,
            decreases 4 - i,
        {
            let below = i < self.height as usize;
            if below == (self.data[i] == PlayerID::Empty) {
                return false;
            }
            i += 1;
        }
        true
    }

    /// Drops a mark on top of the pillar.
    pub fn add_player(&mut self, p: PlayerID) -> (r: Result<(), P4Error>)
        requires
            old(self).wf(),
            p != PlayerID::Empty,
        ensures
            final(self).wf(),
            old(self).full() ==> r == Err::<(), P4Error>(P4Error::OverFilledPillar(None))
                && *final(self) == *old(self),
            !old(self).full() ==> r is Ok && final(self).level() == old(self).level() + 1
                && final(self).slots() == old(self).slots().update(old(self).level(), p)
                && final(self)@ == old(self)@.push(p),
    {
        if self.height >= 4 {
            return Err(P4Error::OverFilledPillar(None));
        }
        self.data[self.height as usize] = p;
        self.height += 1;
        let consistent = self.validate();
        assert(consistent);
        assert(self@ =~= old(self)@.push(p));
        Ok(())
    }

    pub fn get_height(&self) -> (r: u8)
        ensures
            r == self.level(),
    {
        self.height
    }

    pub fn get_player(&self, i: usize) -> (r: PlayerID)
        requires
            i < 4,
        ensures
            r == self.slots()[i as int],
    {
        self.data[i]
    }
}

impl Default for Pillar {
    fn default() -> (r: Self)
        ensures
            r.wf(),
            r.level() == 0,
            r@ == Seq::<PlayerID>::empty(),
            r.slots().len() == 4,
            forall|i: int| 0 <= i < 4 ==> r.slots()[i] == PlayerID::Empty,
    {
        let e = PlayerID::Empty;
        let r = Pillar { data: [e, e, e, e], height: 0 };
        assert(r@ =~= Seq::<PlayerID>::empty());
        r
    }
}

/// A pillar takes exactly four marks: while it holds fewer it is not full, and
/// once it holds four it is full and refuses a fifth.
pub proof fn lemma_pillar_capacity(p: Pillar)
    requires
        p.wf(),
    ensures
        p@.len() == p.level(),
        p@.len() <= 4,
        p.full() <==> p@.len() == 4,
        forall|i: int| 0 <= i < p@.len() ==> p@[i] != PlayerID::Empty,
{
}

/// Along a run of drops that start from an empty pillar, each of the first four
/// finds the pillar not full, and the pillar is full after the fourth.
pub proof fn lemma_four_drops_fill(states: Seq<Pillar>, marks: Seq<PlayerID>)
    requires
        states.len() == 5,
        marks.len() == 4,
        forall|k: int| 0 <= k < 5 ==> (#[trigger] states[k]).wf(),
        states[0]@ == Seq::<PlayerID>::empty(),
        forall|k: int| 0 <= k < 4 ==> #[trigger] states[k + 1]@ == states[k]@.push(marks[k]),
    ensures
        forall|k: int| 0 <= k < 4 ==> !(#[trigger] states[k]).full(),
        states[4].full(),
{
    assert(states[0int + 1]@ == states[0]@.push(marks[0]));
    assert(states[1int + 1]@ == states[1]@.push(marks[1]));
    assert(states[2int + 1]@ == states[2]@.push(marks[2]));
    assert(states[3int + 1]@ == states[3]@.push(marks[3]));
    assert forall|k: int| 0 <= k < 5 implies (#[trigger] states[k]).full() <==> k == 4 by {
        lemma_pillar_capacity(states[k]);
    }
}

} // verus!
