//! Set membership with controlled mutation: operators may add or remove any
//! account but themselves, and only operators may mutate the set.

use vstd::prelude::*;

use crate::pallet::Error;
use crate::types::AccountId;

verus! {

/// The set of accounts authorized to report results and to mutate the set
/// itself.  Seeded once at system initialization; afterwards membership only
/// changes through [`OperatorRegistry::add`] and [`OperatorRegistry::remove`].
pub struct OperatorRegistry {
    members: Vec<AccountId>,
}

impl OperatorRegistry {
    /// The members, as a mathematical set.
    pub closed spec fn view(&self) -> Set<AccountId> {
        Set::new(|a: AccountId| self.members@.contains(a))
    }

    /// Each account is listed at most once.
    pub closed spec fn wf(&self) -> bool {
        forall|i: int, j: int|
            0 <= i < j < self.members@.len() ==> self.members@[i] != self.members@[j]
    }

    /// An empty registry.
    pub fn new() -> (r: OperatorRegistry)
        ensures
            r.wf(),
            r@ == Set::<AccountId>::empty(),
    {
        let r = OperatorRegistry { members: Vec::new() };
        proof {
            assert(r@ =~= Set::<AccountId>::empty());
        }
        r
    }

    /// Whether `id` is authorized.
    pub fn is_member(&self, id: AccountId) -> (r: bool)
        ensures
            r == self@.contains(id),
    {
        let n = self.members.len();
        let mut i: usize = 0;
        while i < n
            invariant
                n == self.members@.len(),
                i <= n,
                forall|k: int| 0 <= k < i ==> self.members@[k] != id,
            decreases n - i,
        {
            if self.members[i] == id {
                return true;
            }
            i += 1;
        }
        false
    }

    /// Inserts `id` without any authorization check; used only while seeding
    /// the registry from the bootstrap list.  Idempotent.
    pub fn seed_member(&mut self, id: AccountId)
        requires
            old(self).wf(),
        ensures
            final(self).wf(),
            final(self)@ == old(self)@.insert(id),
    {
        let present = self.is_member(id);
        if !present {
            let ghost prev = self.members@;
            self.members.push(id);
            proof {
                assert forall|a: AccountId| #[trigger]
                    self.members@.contains(a) implies (prev.contains(a) || a == id) by {
                    let k = choose|k: int| 0 <= k < self.members@.len() && self.members@[k] == a;
                    if k < prev.len() {
                        assert(prev[k] == a);
                    }
                };
                assert forall|a: AccountId|
                    prev.contains(a) || a == id implies #[trigger] self.members@.contains(a) by {
                    if prev.contains(a) {
                        let k = choose|k: int| 0 <= k < prev.len() && prev[k] == a;
                        assert(self.members@[k] == a);
                    } else {
                        assert(self.members@[prev.len() as int] == id);
                    }
                };
                assert forall|p: int, q: int|
                    0 <= p < q < self.members@.len() implies self.members@[p]
                    != self.members@[q] by {
                    if q == self.members@.len() - 1 {
                        assert(self.members@[q] == id);
                        assert(self.members@[p] == prev[p]);
                        if prev[p] == id {
                            assert(prev.contains(id));
                        }
                    }
                };
            }
        }
        proof {
            assert(self@ =~= old(self)@.insert(id));
        }
    }

    /// Inserts `target` on behalf of `caller`: fails `UnauthorizedOperator`
    /// if the caller is not a member and `OperatorSelfAddition` if the caller
    /// names itself; otherwise inserts (idempotently) and succeeds.
    pub fn add(&mut self, caller: AccountId, target: AccountId) -> (r: Result<(), Error>)
        requires
            old(self).wf(),
        ensures
            final(self).wf(),
            match r {
                Ok(()) => {
                    &&& old(self)@.contains(caller)
                    &&& target != caller
                    &&& final(self)@ == old(self)@.insert(target)
                },
                Err(e) => {
                    &&& final(self)@ == old(self)@
                    &&& match e {
                        Error::UnauthorizedOperator => !old(self)@.contains(caller),
                        Error::OperatorSelfAddition => old(self)@.contains(caller) && target
                            == caller,
                        _ => false,
                    }
                },
            },
    {
        if !self.is_member(caller) {
            return Err(Error::UnauthorizedOperator);
        }
        if target == caller {
            return Err(Error::OperatorSelfAddition);
        }
        self.seed_member(target);
        Ok(())
    }

    /// Removes `target` on behalf of `caller`: fails `UnauthorizedOperator`
    /// if the caller is not a member, `OperatorSelfRemoval` if the caller
    /// names itself, and `UnknownOperator` if the target is absent.
    pub fn remove(&mut self, caller: AccountId, target: AccountId) -> (r: Result<(), Error>)
        requires
            old(self).wf(),
        ensures
            final(self).wf(),
            match r {
                Ok(()) => {
                    &&& old(self)@.contains(caller)
                    &&& target != caller
                    &&& old(self)@.contains(target)
                    &&& final(self)@ == old(self)@.remove(target)
                },
                Err(e) => {
                    &&& final(self)@ == old(self)@
                    &&& match e {
                        Error::UnauthorizedOperator => !old(self)@.contains(caller),
                        Error::OperatorSelfRemoval => old(self)@.contains(caller) && target
                            == caller,
                        Error::UnknownOperator => old(self)@.contains(caller) && target != caller
                            && !old(self)@.contains(target),
                        _ => false,
                    }
                },
            },
    {
        if !self.is_member(caller) {
            return Err(Error::UnauthorizedOperator);
        }
        if target == caller {
            return Err(Error::OperatorSelfRemoval);
        }
        if !self.is_member(target) {
            return Err(Error::UnknownOperator);
        }
        let n = self.members.len();
        let mut kept: Vec<AccountId> = Vec::new();
        let mut i: usize = 0;
        while i < n
            invariant
                n == self.members@.len(),
                i <= n,
                forall|p: int|
                    0 <= p < kept@.len() ==> ((#[trigger] kept@[p]) != target && exists|k: int|
                        0 <= k < i && self.members@[k] == kept@[p]),
                forall|k: int|
                    0 <= k < i && (#[trigger] self.members@[k]) != target ==> exists|p: int|
                        0 <= p < kept@.len() && kept@[p] == self.members@[k],
                forall|p: int, q: int| 0 <= p < q < kept@.len() ==> kept@[p] != kept@[q],
                forall|p: int, q: int| 0 <= p < q < n ==> self.members@[p] != self.members@[q],
            decreases n - i,
        {
            let a = self.members[i];
            if a != target {
                let ghost prev = kept@;
                kept.push(a);
                proof {
                    assert(kept@[kept@.len() - 1] == a);
                    assert(self.members@[i as int] == a);
                    assert forall|k: int|
                        0 <= k < i + 1 && (#[trigger] self.members@[k])
                            != target implies exists|p: int|
                        0 <= p < kept@.len() && kept@[p] == self.members@[k] by {
                        if k < i {
                            let p = choose|p: int|
                                0 <= p < prev.len() && prev[p] == self.members@[k];
                            assert(kept@[p] == self.members@[k]);
                        } else {
                            assert(kept@[kept@.len() - 1] == self.members@[k]);
                        }
                    };
                }
            }
            i += 1;
        }
        proof {
            assert forall|x: AccountId| #[trigger]
                kept@.contains(x) implies (self.members@.contains(x) && x != target) by {
                let p = choose|p: int| 0 <= p < kept@.len() && kept@[p] == x;
                let k = choose|k: int| 0 <= k < i && self.members@[k] == kept@[p];
                assert(self.members@[k] == x);
            };
            assert forall|x: AccountId|
                self.members@.contains(x) && x != target implies #[trigger] kept@.contains(x) by {
                let k = choose|k: int| 0 <= k < self.members@.len() && self.members@[k] == x;
                let p = choose|p: int| 0 <= p < kept@.len() && kept@[p] == self.members@[k];
                assert(kept@[p] == x);
            };
        }
        self.members = kept;
        proof {
            assert(self@ =~= old(self)@.remove(target));
        }
        Ok(())
    }
}

} // verus!
