//! Choosing the processes named in an event's entity.
use vstd::prelude::*;

verus! {

/// How many processes a memory event lists.
pub const TOP_MEMORY_COUNT: usize = 5;

/// One process as a sampler saw it; `cpu` in hundredths of a percent.
#[derive(Debug, Clone)]
pub struct ProcessSample {
    pub name: String,
    pub pid: u32,
    pub cpu: u32,
    pub memory_bytes: u64,
}

/// The process at `a` comes before the one at `b` when ranked by memory:
/// more memory first, and in list order among equals.
pub open spec fn ranks_before(s: Seq<ProcessSample>, a: int, b: int) -> bool {
    s[a].memory_bytes > s[b].memory_bytes || (s[a].memory_bytes == s[b].memory_bytes && a < b)
}

/// `r` lists the first `k` processes of `s` ranked by memory, as positions
/// in `s`.
pub open spec fn top_by_memory(s: Seq<ProcessSample>, k: nat, r: Seq<usize>) -> bool {
    &&& r.len() == if k < s.len() {
        k
    } else {
        s.len()
    }
    &&& forall|j: int| 0 <= j < r.len() ==> #[trigger] r[j] < s.len()
    &&& forall|a: int, b: int|
        0 <= a < b < r.len() ==> ranks_before(s, #[trigger] r[a] as int, #[trigger] r[b] as int)
    &&& forall|i: int, j: int|
        #![trigger r.contains(i as usize), r[j]]
        0 <= i < s.len() && !r.contains(i as usize) && 0 <= j < r.len() ==> ranks_before(
            s,
            r[j] as int,
            i,
        )
}

/// `x` stands somewhere in `v`.
pub open spec fn occurs(v: Seq<usize>, x: int) -> bool {
    exists|p: int| 0 <= p < v.len() && v[p] == x
}

/// The position of the busiest process: none for an empty list; among equal
/// loads, the last one.
pub fn busiest_process(procs: &Vec<ProcessSample>) -> (r: Option<usize>)
    ensures
        match r {
            None => procs@.len() == 0,
            Some(i) => {
                &&& i < procs@.len()
                &&& forall|j: int| 0 <= j < procs@.len() ==> #[trigger] procs@[j].cpu <= procs@[i as int].cpu
                &&& forall|j: int| i < j < procs@.len() ==> #[trigger] procs@[j].cpu < procs@[i as int].cpu
            },
        },
{
    if procs.len() == 0 {
        return None;
    }
    let mut best: usize = 0;
    let mut i: usize = 1;
    while i < procs.len()
        invariant
            1 <= i <= procs@.len(),
            best < i,
            forall|j: int| 0 <= j < i ==> #[trigger] procs@[j].cpu <= procs@[best as int].cpu,
            forall|j: int| best < j < i ==> #[trigger] procs@[j].cpu < procs@[best as int].cpu,
        decreases procs@.len() - i,
    {
        if procs[i].cpu >= procs[best].cpu {
            best = i;
        }
        i = i + 1;
    }
    Some(best)
}

/// The positions of the `k` processes using the most memory, most first;
/// among equal use, in list order.
pub fn largest_by_memory(procs: &Vec<ProcessSample>, k: usize) -> (r: Vec<usize>)
    ensures
        top_by_memory(procs@, k as nat, r@),
{
    let n = procs.len();
    let ghost s = procs@;
    let mut idx: Vec<usize> = Vec::new();
    let mut i: usize = 0;
    while i < n
        invariant
            i <= n,
            n == s.len(),
            idx@.len() == i,
            forall|p: int| 0 <= p < i ==> #[trigger] idx@[p] == p,
        decreases n - i,
    {
        idx.push(i);
        i = i + 1;
    }
    let m: usize = if k < n {
        k
    } else {
        n
    };
    proof {
        assert forall|x: int| 0 <= x < n implies #[trigger] occurs(idx@, x) by {
            assert(idx@[x] == x);
        }
    }
    let mut t: usize = 0;
    while t < m
        invariant
            m <= n,
            n == s.len(),
            s == procs@,
            t <= m,
            idx@.len() == n,
            forall|p: int| 0 <= p < n ==> #[trigger] idx@[p] < n,
            forall|p: int, q: int| 0 <= p < q < n ==> idx@[p] != idx@[q],
            forall|x: int| 0 <= x < n ==> #[trigger] occurs(idx@, x),
            forall|a: int, b: int|
                0 <= a < b < t ==> ranks_before(s, #[trigger] idx@[a] as int, #[trigger] idx@[b] as int),
            forall|a: int, b: int|
                0 <= a < t <= b < n ==> ranks_before(s, #[trigger] idx@[a] as int, #[trigger] idx@[b] as int),
        decreases m - t,
    {
        let mut b: usize = t;
        let mut q: usize = t + 1;
        while q < n
            invariant
                t < n,
                t <= b < q <= n,
                n == s.len(),
                s == procs@,
                idx@.len() == n,
                forall|p: int| 0 <= p < n ==> #[trigger] idx@[p] < n,
                forall|p: int, r: int| 0 <= p < r < n ==> idx@[p] != idx@[r],
                forall|c: int| t <= c < q && c != b ==> ranks_before(s, idx@[b as int] as int, #[trigger] idx@[c] as int),
            decreases n - q,
        {
            let cand = idx[q];
            let cur = idx[b];
            if procs[cand].memory_bytes > procs[cur].memory_bytes || (procs[cand].memory_bytes
                == procs[cur].memory_bytes && cand < cur) {
                b = q;
            }
            q = q + 1;
        }
        let ghost before = idx@;
        let x = idx[t];
        let y = idx[b];
        idx.set(t, y);
        idx.set(b, x);
        proof {
            let after = idx@;
            assert forall|p: int| 0 <= p < n implies #[trigger] after[p] == if p == t {
                before[b as int]
            } else if p == b {
                before[t as int]
            } else {
                before[p]
            } by {}
            assert forall|z: int| 0 <= z < n implies #[trigger] occurs(after, z) by {
                assert(occurs(before, z));
                let p0 = choose|p: int| 0 <= p < n && #[trigger] before[p] == z;
                if p0 == t {
                    assert(after[b as int] == z);
                } else if p0 == b {
                    assert(after[t as int] == z);
                } else {
                    assert(after[p0] == z);
                }
                assert(occurs(after, z));
            }
            assert forall|a: int, c: int| 0 <= a < c < t + 1 implies ranks_before(s, #[trigger] after[a] as int, #[trigger] after[c] as int) by {
                if c < t {
                    assert(after[a] == before[a] && after[c] == before[c]);
                } else {
                    assert(after[a] == before[a]);
                    assert(after[c] == before[b as int]);
                }
            }
            assert forall|a: int, c: int| 0 <= a < t + 1 <= c < n implies ranks_before(s, #[trigger] after[a] as int, #[trigger] after[c] as int) by {
                if a < t {
                    assert(after[a] == before[a]);
                    if c == b {
                        assert(after[c] == before[t as int]);
                    } else {
                        assert(after[c] == before[c]);
                    }
                } else {
                    assert(after[a] == before[b as int]);
                    if c == b {
                        assert(after[c] == before[t as int]);
                    } else {
                        assert(after[c] == before[c]);
                    }
                }
            }
        }
        t = t + 1;
    }
    let mut out: Vec<usize> = Vec::new();
    let mut j: usize = 0;
    while j < m
        invariant
            j <= m <= n,
            idx@.len() == n,
            out@ == idx@.subrange(0, j as int),
        decreases m - j,
    {
        out.push(idx[j]);
        j = j + 1;
    }
    proof {
        assert(out@ == idx@.subrange(0, m as int));
        assert forall|x: int, j2: int|
            0 <= x < s.len() && !out@.contains(x as usize) && 0 <= j2 < out@.len() implies ranks_before(
            s,
            out@[j2] as int,
            x,
        ) by {
            assert(occurs(idx@, x));
            let p = choose|p: int| 0 <= p < n && #[trigger] idx@[p] == x;
            if p < m {
                assert(out@[p] == x);
            }
            assert(out@[j2] == idx@[j2]);
        }
    }
    out
}

} // verus!
