//! Breakpoints: an ordered set keyed by address and access kind.
use vstd::prelude::*;

verus! {

/// The kind of access that a breakpoint watches.
#[derive(Clone, Copy, Debug, PartialEq, Eq, PartialOrd, Ord, Hash, Structural)]
pub enum AccessType {
    Read,
    Write,
    Execute,
    Jump,
}

/// The rank of an access kind in the breakpoint order.
pub open spec fn access_rank(a: AccessType) -> int {
    match a {
        AccessType::Read => 0,
        AccessType::Write => 1,
        AccessType::Execute => 2,
        AccessType::Jump => 3,
    }
}

fn rank_of(a: AccessType) -> (r: u32)
    ensures
        r == access_rank(a),
{
    match a {
        AccessType::Read => 0,
        AccessType::Write => 1,
        AccessType::Execute => 2,
        AccessType::Jump => 3,
    }
}

/// An address and the kind of access to it that stops the engine.
#[derive(Clone, Copy, Debug, PartialEq, Eq, PartialOrd, Ord, Hash, Structural)]
pub struct Breakpoint {
    pub address: u16,
    pub access_type: AccessType,
}

/// The position of a breakpoint in the set's order: by address, then by kind.
pub open spec fn key_of(b: Breakpoint) -> int {
    b.address * 4 + access_rank(b.access_type)
}

fn key(b: Breakpoint) -> (r: u32)
    ensures
        r == key_of(b),
{
    b.address as u32 * 4 + rank_of(b.access_type)
}

/// Two breakpoints with the same key are the same breakpoint.
proof fn lemma_key_injective(a: Breakpoint, b: Breakpoint)
    requires
        key_of(a) == key_of(b),
    ensures
        a == b,
{
}

impl Breakpoint {
    /// A breakpoint on an address and an access kind.
    pub fn new(address: u16, access_type: AccessType) -> (r: Breakpoint)
        ensures
            r.address == address && r.access_type == access_type,
    {
        Breakpoint { address, access_type }
    }
}

/// The debugger's state: whether it is enabled, whether a breakpoint was
/// hit, and the breakpoints in ascending order.
#[derive(Clone, Debug)]
pub struct Debugger {
    pub enabled: bool,
    pub hit_breakpoint: bool,
    pub breakpoints: Vec<Breakpoint>,
}

/// Whether a sequence of breakpoints is strictly ascending.
pub open spec fn sorted(s: Seq<Breakpoint>) -> bool {
    forall|i: int, j: int| 0 <= i < j < s.len() ==> key_of(s[i]) < key_of(s[j])
}

impl Debugger {
    pub open spec fn wf(&self) -> bool {
        sorted(self.breakpoints@)
    }

    /// A disabled debugger with no breakpoints.
    pub fn new() -> (r: Debugger)
        ensures
            !r.enabled && !r.hit_breakpoint && r.breakpoints@.len() == 0,
            r.wf(),
    {
        Debugger { enabled: false, hit_breakpoint: false, breakpoints: Vec::new() }
    }

    /// Turns breakpoint checks on.
    pub fn enable(&mut self)
        ensures
            final(self).enabled,
            final(self).breakpoints == old(self).breakpoints,
            final(self).hit_breakpoint == old(self).hit_breakpoint,
    {
        self.enabled = true;
    }

    /// Turns breakpoint checks off.
    pub fn disable(&mut self)
        ensures
            !final(self).enabled,
            final(self).breakpoints == old(self).breakpoints,
            final(self).hit_breakpoint == old(self).hit_breakpoint,
    {
        self.enabled = false;
    }

    /// Whether breakpoint checks are on.
    pub fn enabled(&self) -> (r: bool)
        ensures
            r == self.enabled,
    {
        self.enabled
    }

    /// Whether the last run stopped at a breakpoint.
    pub fn hit_breakpoint(&self) -> (r: bool)
        ensures
            r == self.hit_breakpoint,
    {
        self.hit_breakpoint
    }

    /// Records that a run stopped at a breakpoint; the breakpoint itself goes
    /// back to the caller, whose sink receives it.
    pub fn breakpoint_callback(&mut self, param: Breakpoint) -> (r: Breakpoint)
        ensures
            r == param,
            final(self).hit_breakpoint,
            final(self).enabled == old(self).enabled,
            final(self).breakpoints == old(self).breakpoints,
    {
        self.hit_breakpoint = true;
        param
    }

    /// The index at which a breakpoint is or would be inserted.
    fn search(&self, b: Breakpoint) -> (r: usize)
        requires
            self.wf(),
        ensures
            r <= self.breakpoints@.len(),
            forall|i: int| 0 <= i < r ==> key_of(self.breakpoints@[i]) < key_of(b),
            forall|i: int| r <= i < self.breakpoints@.len() ==> key_of(self.breakpoints@[i]) >= key_of(b),
    {
        let k = key(b);
        let mut i: usize = 0;
        while i < self.breakpoints.len() && key(self.breakpoints[i]) < k
            invariant
                self.wf(),
                i <= self.breakpoints@.len(),
                k == key_of(b),
                forall|j: int| 0 <= j < i ==> key_of(self.breakpoints@[j]) < key_of(b),
            decreases self.breakpoints@.len() - i,
        {
            i = i + 1;
        }
        i
    }

    /// The breakpoint equal to `b`, if the set holds it.
    pub fn find(&self, b: Breakpoint) -> (r: Option<Breakpoint>)
        requires
            self.wf(),
        ensures
            r is Some <==> self.breakpoints@.contains(b),
            r matches Some(x) ==> x == b,
    {
        let i = self.search(b);
        if i < self.breakpoints.len() && key(self.breakpoints[i]) == key(b) {
            proof {
                lemma_key_injective(self.breakpoints@[i as int], b);
            }
            Some(self.breakpoints[i])
        } else {
            proof {
                if self.breakpoints@.contains(b) {
                    let j = choose|j: int| 0 <= j < self.breakpoints@.len() && self.breakpoints@[j] == b;
                    if j < i {
                    } else if j > i {
                        assert(key_of(self.breakpoints@[i as int]) < key_of(self.breakpoints@[j]));
                    }
                }
            }
            None
        }
    }

    /// Adds a breakpoint unless the set already holds it; the order is kept.
    pub fn add_breakpoint(&mut self, breakpoint: Breakpoint)
        requires
            old(self).wf(),
        ensures
            final(self).wf(),
            final(self).breakpoints@.to_set() == old(self).breakpoints@.to_set().insert(breakpoint),
            final(self).enabled == old(self).enabled,
    {
        let i = self.search(breakpoint);
        if i < self.breakpoints.len() && key(self.breakpoints[i]) == key(breakpoint) {
            proof {
                lemma_key_injective(self.breakpoints@[i as int], breakpoint);
                assert(self.breakpoints@.to_set() =~= self.breakpoints@.to_set().insert(breakpoint));
            }
            return;
        }
        let ghost before = self.breakpoints@;
        self.breakpoints.insert(i, breakpoint);
        proof {
            assert(self.breakpoints@ == before.insert(i as int, breakpoint));
            assert forall|a: int, b: int| 0 <= a < b < self.breakpoints@.len() implies key_of(self.breakpoints@[a])
                < key_of(self.breakpoints@[b]) by {
                if b < i {
                } else if a < i && b == i {
                } else if a < i && b > i {
                    assert(self.breakpoints@[b] == before[b - 1]);
                } else if a == i {
                    assert(self.breakpoints@[b] == before[b - 1]);
                } else {
                    assert(self.breakpoints@[a] == before[a - 1]);
                    assert(self.breakpoints@[b] == before[b - 1]);
                }
            }
            assert forall|x: Breakpoint| self.breakpoints@.to_set().contains(x) <==> before.to_set().insert(
                breakpoint,
            ).contains(x) by {
                if self.breakpoints@.contains(x) {
                    let j = choose|j: int| 0 <= j < self.breakpoints@.len() && self.breakpoints@[j] == x;
                    if j < i {
                        assert(before[j] == x);
                    } else if j > i {
                        assert(before[j - 1] == x);
                    }
                }
                if before.contains(x) {
                    let j = choose|j: int| 0 <= j < before.len() && before[j] == x;
                    if j < i {
                        assert(self.breakpoints@[j] == x);
                    } else {
                        assert(self.breakpoints@[j + 1] == x);
                    }
                }
                if x == breakpoint {
                    assert(self.breakpoints@[i as int] == x);
                }
            }
            assert(self.breakpoints@.to_set() =~= before.to_set().insert(breakpoint));
        }
    }

    /// Removes the breakpoint at an index; `Err(())` when the index is past the end.
    pub fn remove_breakpoint(&mut self, index: usize) -> (r: Result<Breakpoint, ()>)
        requires
            old(self).wf(),
        ensures
            final(self).wf(),
            index >= old(self).breakpoints@.len() ==> r is Err && final(self).breakpoints@ == old(self).breakpoints@,
            index < old(self).breakpoints@.len() ==> r == Ok::<Breakpoint, ()>(old(self).breakpoints@[index as int])
                && final(self).breakpoints@ == old(self).breakpoints@.remove(index as int),
            final(self).enabled == old(self).enabled,
    {
        if index >= self.breakpoints.len() {
            return Err(());
        }
        let ghost before = self.breakpoints@;
        let b = self.breakpoints.remove(index);
        proof {
            assert forall|a: int, c: int| 0 <= a < c < self.breakpoints@.len() implies key_of(self.breakpoints@[a])
                < key_of(self.breakpoints@[c]) by {
                let a0 = if a < index { a } else { a + 1 };
                let c0 = if c < index { c } else { c + 1 };
                assert(self.breakpoints@[a] == before[a0]);
                assert(self.breakpoints@[c] == before[c0]);
            }
        }
        Ok(b)
    }

    /// The breakpoints in ascending order.
    pub fn get_breakpoints(&self) -> (r: Vec<Breakpoint>)
        ensures
            r@ == self.breakpoints@,
    {
        self.breakpoints.clone()
    }
}

} // verus!
