//! A model filesystem over markers.
//!
//! The engine's decisions are checked against this model: it holds the
//! set of markers currently present and applies the filesystem effect of
//! each action. The outer layer performs the same actions on the real
//! filesystem; tests replay recorded traces against the model.

use vstd::prelude::*;

use crate::model::Action;
use crate::model::Marker;
use crate::model::apply_action;
use crate::model::apply_trace;
use crate::model::lemma_apply_trace_snoc;

verus! {

/// The markers currently present, as a model of the filesystem. The
/// abstract value is the set of present markers; how often a marker was
/// recorded does not matter.
pub struct FsModel {
    present: Vec<Marker>,
}

impl View for FsModel {
    type V = Set<Marker>;

    closed spec fn view(&self) -> Set<Marker> {
        Set::new(|m: Marker| self.present@.contains(m))
    }
}

impl FsModel {
    /// The exact record of the model, finer than the view: even a
    /// re-recorded marker would change it. It pins down "no mutation".
    pub closed spec fn record(&self) -> Seq<Marker> {
        self.present@
    }

    /// A filesystem with nothing present.
    pub fn empty() -> (r: FsModel)
        ensures
            r@ == Set::<Marker>::empty(),
    {
        let r = FsModel { present: Vec::new() };
        proof {
            assert(r@ =~= Set::<Marker>::empty());
        }
        r
    }

    /// Whether the marker's path is present.
    pub fn has(&self, m: Marker) -> (r: bool)
        ensures
            r == self@.contains(m),
    {
        let mut i: usize = 0;
        while i < self.present.len()
            invariant
                i <= self.present.len(),
                forall|k: int| 0 <= k < i ==> self.present@[k] != m,
            decreases self.present@.len() - i,
        {
            if self.present[i] == m {
                return true;
            }
            i += 1;
        }
        false
    }

    /// Record the marker's path as present (a created file or directory).
    pub fn create(&mut self, m: Marker)
        ensures
            final(self)@ == old(self)@.insert(m),
    {
        self.present.push(m);
        proof {
            assert forall|x: Marker|
                self.present@.contains(x) <==> (old(self).present@.contains(x) || x == m) by {
                if old(self).present@.contains(x) {
                    let k = choose|k: int|
                        0 <= k < old(self).present@.len() && old(self).present@[k] == x;
                    assert(self.present@[k] == x);
                }
                if x == m {
                    assert(self.present@[self.present@.len() - 1] == x);
                }
                if self.present@.contains(x) {
                    let k = choose|k: int| 0 <= k < self.present@.len() && self.present@[k] == x;
                    if k < old(self).present@.len() {
                        assert(old(self).present@[k] == x);
                    }
                }
            }
            assert(self@ =~= old(self)@.insert(m));
        }
    }

    /// The idempotent remover: drop the marker's path if present; when it
    /// is absent, succeed without touching anything at all.
    pub fn remove_if_exists(&mut self, m: Marker)
        ensures
            final(self)@ == old(self)@.remove(m),
            !old(self)@.contains(m) ==> final(self).record() == old(self).record(),
    {
        if !self.has(m) {
            proof {
                assert(self@ =~= old(self)@.remove(m));
            }
            return ;
        }
        let mut out: Vec<Marker> = Vec::new();
        let mut i: usize = 0;
        while i < self.present.len()
            invariant
                i <= self.present.len(),
                forall|k: int| 0 <= k < out@.len() ==> out@[k] != m,
                forall|k: int| 0 <= k < out@.len() ==> self.present@.contains(#[trigger] out@[k]),
                forall|k: int|
                    0 <= k < i ==> (self.present@[k] == m || out@.contains(#[trigger] self.present@[k])),
            decreases self.present@.len() - i,
        {
            let x = self.present[i];
            if x != m {
                let ghost old_out = out@;
                out.push(x);
                proof {
                    assert forall|y: Marker| old_out.contains(y) implies out@.contains(y) by {
                        let k = choose|k: int| 0 <= k < old_out.len() && old_out[k] == y;
                        assert(out@[k] == y);
                    }
                    assert(out@[out@.len() - 1] == x);
                }
            }
            i += 1;
        }
        proof {
            assert forall|x: Marker|
                out@.contains(x) <==> (old(self).present@.contains(x) && x != m) by {
                if out@.contains(x) {
                    let k = choose|k: int| 0 <= k < out@.len() && out@[k] == x;
                    assert(self.present@.contains(out@[k]));
                }
                if old(self).present@.contains(x) && x != m {
                    let k = choose|k: int|
                        0 <= k < old(self).present@.len() && old(self).present@[k] == x;
                    assert(out@.contains(self.present@[k]));
                }
            }
        }
        self.present = out;
        proof {
            assert(self@ =~= old(self)@.remove(m));
        }
    }

    /// Apply one action's filesystem effect to the model.
    pub fn apply(&mut self, a: Action)
        ensures
            final(self)@ == apply_action(old(self)@, a),
    {
        match a {
            Action::Remove(m) => self.remove_if_exists(m),
            Action::CreateDirAll(m) => self.create(m),
            Action::CreateEmptyFile(m) => self.create(m),
            Action::CopyFile(_, to) => self.create(to),
            Action::CopyTree(_, to) => self.create(to),
            _ => {},
        }
    }

    /// Replay a whole trace against the model, first action first.
    pub fn apply_all(&mut self, trace: &Vec<Action>)
        ensures
            final(self)@ == apply_trace(old(self)@, trace@),
    {
        let mut i: usize = 0;
        while i < trace.len()
            invariant
                i <= trace.len(),
                self@ == apply_trace(old(self)@, trace@.subrange(0, i as int)),
            decreases trace@.len() - i,
        {
            let ghost prefix = trace@.subrange(0, i as int);
            self.apply(trace[i]);
            proof {
                assert(trace@.subrange(0, i + 1 as int) =~= prefix.push(trace@[i as int]));
                lemma_apply_trace_snoc(old(self)@, prefix, trace@[i as int]);
            }
            i += 1;
        }
        proof {
            assert(trace@.subrange(0, trace@.len() as int) =~= trace@);
        }
    }
}

/// Removal is idempotent: removing the same marker a second time changes
/// nothing, and in the model a removal cannot fail, so the second call
/// succeeds exactly as the first did.
pub proof fn remove_is_idempotent(s: Set<Marker>, m: Marker)
    ensures
        apply_action(apply_action(s, Action::Remove(m)), Action::Remove(m)) == apply_action(
            s,
            Action::Remove(m),
        ),
{
    assert(apply_action(apply_action(s, Action::Remove(m)), Action::Remove(m)) =~= apply_action(
        s,
        Action::Remove(m),
    ));
}

/// Removing an absent marker succeeds and mutates nothing.
pub proof fn remove_absent_is_noop(s: Set<Marker>, m: Marker)
    requires
        !s.contains(m),
    ensures
        apply_action(s, Action::Remove(m)) == s,
{
    assert(apply_action(s, Action::Remove(m)) =~= s);
}

} // verus!
