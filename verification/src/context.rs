//! The slice of the process table this library consumes: per-process
//! records with the fields the attach protocol reads, and the two lookups
//! it performs under the table lock.

use vstd::prelude::*;
use crate::error::Error;
use crate::supervisor::SupervisorResource;

verus! {

/// One process record, holding only the fields the attach protocol
/// consumes. The record itself is owned by the surrounding table.
pub struct Context {
    /// This process's identifier.
    pub pid: usize,
    /// The identifier of this process's parent.
    pub ppid: usize,
    /// Whether this process has opted into supervision.
    pub supervised: bool,
    /// The supervised-side channel endpoint, once a supervisor has
    /// attached; at most one at a time.
    pub supervised_resource: Option<SupervisorResource>,
}

/// The index of the first record with the given pid, or -1 when no
/// record carries it.
pub open spec fn first_with(s: Seq<Context>, pid: usize) -> int
    decreases s.len(),
{
    if s.len() == 0 {
        -1
    } else if s[0].pid == pid {
        0
    } else {
        let rest = first_with(s.drop_first(), pid);
        if rest < 0 {
            -1
        } else {
            rest + 1
        }
    }
}

/// What `first_with` finds: a valid index whose record carries the pid
/// and before which no record does, or -1 when none does anywhere.
pub proof fn lemma_first_with(s: Seq<Context>, pid: usize)
    ensures
        -1 <= first_with(s, pid) < s.len(),
        first_with(s, pid) >= 0 ==> s[first_with(s, pid)].pid == pid,
        first_with(s, pid) >= 0 ==> forall|j: int|
            0 <= j < first_with(s, pid) ==> s[j].pid != pid,
        first_with(s, pid) == -1 ==> forall|j: int| 0 <= j < s.len() ==> s[j].pid != pid,
    decreases s.len(),
{
    if s.len() > 0 && s[0].pid != pid {
        let rest = s.drop_first();
        lemma_first_with(rest, pid);
        if first_with(rest, pid) >= 0 {
            assert forall|j: int| 0 <= j < first_with(s, pid) implies s[j].pid != pid by {
                if j > 0 {
                    assert(rest[j - 1].pid != pid);
                    assert(s[j] == rest[j - 1]);
                }
            }
        } else {
            assert forall|j: int| 0 <= j < s.len() implies s[j].pid != pid by {
                if j > 0 {
                    assert(rest[j - 1].pid != pid);
                    assert(s[j] == rest[j - 1]);
                }
            }
        }
    }
}

/// A record found at an index before which the pid does not occur is the
/// one `first_with` names.
pub proof fn lemma_first_with_found(s: Seq<Context>, pid: usize, i: int)
    requires
        0 <= i < s.len(),
        s[i].pid == pid,
        forall|j: int| 0 <= j < i ==> s[j].pid != pid,
    ensures
        first_with(s, pid) == i,
    decreases i,
{
    if i > 0 {
        lemma_first_with_found(s.drop_first(), pid, i - 1);
    }
}

/// Replacing a record with one that keeps its pid does not move the
/// first occurrence of any pid.
pub proof fn lemma_first_with_update(s: Seq<Context>, pid: usize, i: int, c: Context)
    requires
        0 <= i < s.len(),
        c.pid == s[i].pid,
    ensures
        first_with(s.update(i, c), pid) == first_with(s, pid),
    decreases i,
{
    let t = s.update(i, c);
    if i == 0 {
        assert(t.drop_first() =~= s.drop_first());
    } else {
        assert(t.drop_first() =~= s.drop_first().update(i - 1, c));
        lemma_first_with_update(s.drop_first(), pid, i - 1, c);
    }
}

/// The process table: the records, and the pid of the context making the
/// current call, when the scheduler can resolve one.
pub struct ContextTable {
    /// The process records, in table order.
    pub contexts: Vec<Context>,
    /// The pid of the calling context, or `None` when the scheduler
    /// cannot resolve the current context.
    pub current_pid: Option<usize>,
}

impl ContextTable {
    /// An empty table with no resolvable current context.
    pub fn new() -> (t: ContextTable)
        ensures
            t.contexts@.len() == 0,
            t.current_pid is None,
    {
        ContextTable { contexts: Vec::new(), current_pid: None }
    }

    /// Resolve the pid of the calling context; the lookup failure of the
    /// table is propagated unchanged.
    pub fn current(&self) -> (r: Result<usize, Error>)
        ensures
            match r {
                Ok(pid) => self.current_pid == Some(pid),
                Err(e) => self.current_pid is None && e == Error::NoSuchProcess,
            },
    {
        match self.current_pid {
            Some(pid) => Ok(pid),
            None => Err(Error::NoSuchProcess),
        }
    }

    /// Find the first record with the given pid.
    pub fn find_index(&self, pid: usize) -> (r: Option<usize>)
        ensures
            match r {
                Some(i) => i == first_with(self.contexts@, pid),
                None => first_with(self.contexts@, pid) == -1,
            },
    {
        let n = self.contexts.len();
        let mut i: usize = 0;
        while i < n
            invariant
                n == self.contexts@.len(),
                i <= n,
                forall|j: int| 0 <= j < i ==> self.contexts@[j].pid != pid,
            decreases n - i,
        {
            if self.contexts[i].pid == pid {
                proof {
                    lemma_first_with_found(self.contexts@, pid, i as int);
                }
                return Some(i);
            }
            i = i + 1;
        }
        proof {
            lemma_first_with(self.contexts@, pid);
            if first_with(self.contexts@, pid) >= 0 {
                assert(self.contexts@[first_with(self.contexts@, pid)].pid == pid);
            }
        }
        None
    }
}

} // verus!
