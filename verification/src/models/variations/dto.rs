use vstd::prelude::*;

use crate::models::error::Error;
use crate::models::variations::model::{is_weapon, Variation};

verus! {

/// A list of weapon variations, as a request names them.
#[derive(Debug, Clone, PartialEq, Eq)]
pub struct Weapons {
    pub weapons: Vec<String>,
}

/// The texts of a list of strings.
pub open spec fn texts(v: Seq<String>) -> Seq<Seq<char>> {
    v.map_values(|s: String| s@)
}

/// Whether every text of a list names a weapon variation.
pub open spec fn all_weapons(ws: Seq<Seq<char>>) -> bool {
    forall|i: int| 0 <= i < ws.len() ==> is_weapon(#[trigger] ws[i])
}

/// Whether a weapon list names a variation, and which one, depends only on
/// the set of names it holds: neither their order nor repetitions matter.
pub proof fn lemma_order_irrelevant(a: Seq<Seq<char>>, b: Seq<Seq<char>>)
    requires
        a.to_set() == b.to_set(),
    ensures
        all_weapons(a) == all_weapons(b),
{
    assert(all_weapons(a) ==> all_weapons(b)) by {
        if all_weapons(a) {
            assert forall|i: int| 0 <= i < b.len() implies is_weapon(#[trigger] b[i]) by {
                assert(b.to_set().contains(b[i]));
                let j = choose|j: int| 0 <= j < a.len() && a[j] == b[i];
                assert(is_weapon(a[j]));
            }
        }
    }
    assert(all_weapons(b) ==> all_weapons(a)) by {
        if all_weapons(b) {
            assert forall|i: int| 0 <= i < a.len() implies is_weapon(#[trigger] a[i]) by {
                assert(a.to_set().contains(a[i]));
                let j = choose|j: int| 0 <= j < b.len() && b[j] == a[i];
                assert(is_weapon(b[j]));
            }
        }
    }
}

impl Weapons {
    /// The texts of the weapon list.
    pub open spec fn names(&self) -> Seq<Seq<char>> {
        texts(self.weapons@)
    }

    /// The variation that the weapon list names: one that is not stored yet
    /// and uses exactly the listed weapon variations. Fails with
    /// `InvalidWeapons` when an entry names no weapon variation.
    pub fn try_into(self) -> (r: Result<Variation, Error>)
        ensures
            r is Ok <==> all_weapons(self.names()),
            r matches Ok(v) ==> v.id is None && v@ == self.names().to_set(),
            r matches Err(e) ==> e == Error::InvalidWeapons,
    {
        let ghost names = self.names();
        let mut variation = Variation::default();
        let n = self.weapons.len();
        let mut i: usize = 0;
        while i < n
            invariant
                n == self.weapons@.len(),
                names == self.names(),
                names.len() == n,
                i <= n,
                all_weapons(names.take(i as int)),
                variation.id is None,
                variation@ == names.take(i as int).to_set(),
            decreases n - i,
        {
            let ghost before = variation@;
            if !variation.try_use(self.weapons[i].as_str()) {
                assert(!all_weapons(names)) by {
                    assert(names[i as int] == self.weapons@[i as int]@);
                }
                return Err(Error::InvalidWeapons);
            }
            proof {
                assert(names[i as int] == self.weapons@[i as int]@);
                let next = names.take(i + 1);
                assert(next =~= names.take(i as int).push(names[i as int]));
                assert forall|j: int| 0 <= j < next.len() implies is_weapon(#[trigger] next[j]) by {
                    if j < i {
                        assert(next[j] == names.take(i as int)[j]);
                    }
                }
                assert forall|w: Seq<char>| #[trigger] next.to_set().contains(w) == before.insert(
                    names[i as int],
                ).contains(w) by {
                    if next.to_set().contains(w) {
                        let j = choose|j: int| 0 <= j < next.len() && next[j] == w;
                        if j < i {
                            assert(names.take(i as int)[j] == w);
                        }
                    }
                    if names.take(i as int).to_set().contains(w) {
                        let j = choose|j: int|
                            0 <= j < names.take(i as int).len() && names.take(i as int)[j] == w;
                        assert(next[j] == w);
                    }
                    if w == names[i as int] {
                        assert(next[i as int] == w);
                    }
                }
                assert(next.to_set() =~= before.insert(names[i as int]));
            }
            i = i + 1;
        }
        assert(names.take(n as int) =~= names);
        Ok(variation)
    }
}

} // verus!
