use std::rc::Rc;
use vstd::prelude::*;

verus! {

/// A feed-forward topology built from a closed set of combinators.
///
/// `T` labels individual ports of a `Vert`; `A` labels a vertex (an activation,
/// an operation). Composite nodes cache their entry and exit counts and share
/// their operands through `Rc`, so composing never copies a sub-graph.
pub enum Graph<T, A> {
    /// A vertex whose entry and exit ports are named by the two sequences.
    Vert(Rc<Vec<T>>, Rc<Vec<T>>, Rc<A>),
    /// A vertex with anonymous ports: entry count, exit count, label.
    Node(usize, usize, Rc<A>),
    /// The identity wire: one entry, one exit.
    Edge(),
    /// A fan: one entry threaded to the given number of exits.
    Fan(usize),
    /// Routes a block of the first size and a block of the second size in
    /// swapped order.
    Swap(usize, usize),
    /// Parallel composition with its cached entry and exit counts.
    Beside(usize, usize, Rc<Graph<T, A>>, Rc<Graph<T, A>>),
    /// Sequential composition with its cached entry and exit counts.
    Before(usize, usize, Rc<Graph<T, A>>, Rc<Graph<T, A>>),
    /// The graph with no ports.
    Empty(),
}

impl<T, A> Clone for Graph<T, A> {
    /// A shallow copy: the children are shared, not duplicated.
    fn clone(&self) -> (r: Self)
        ensures
            r == *self,
    {
        match self {
            Graph::Vert(inputs, outputs, label) => Graph::Vert(
                Rc::clone(inputs),
                Rc::clone(outputs),
                Rc::clone(label),
            ),
            Graph::Node(m, n, label) => Graph::Node(*m, *n, Rc::clone(label)),
            Graph::Edge() => Graph::Edge(),
            Graph::Fan(n) => Graph::Fan(*n),
            Graph::Swap(m, n) => Graph::Swap(*m, *n),
            Graph::Beside(m, n, x, y) => Graph::Beside(*m, *n, Rc::clone(x), Rc::clone(y)),
            Graph::Before(m, n, x, y) => Graph::Before(*m, *n, Rc::clone(x), Rc::clone(y)),
            Graph::Empty() => Graph::Empty(),
        }
    }
}

impl<T, A> Graph<T, A> {
    /// Entry count, derived from the structure.
    pub open spec fn entries(self) -> nat
        decreases self,
    {
        match self {
            Graph::Vert(inputs, _, _) => inputs@.len(),
            Graph::Node(m, _, _) => m as nat,
            Graph::Edge() => 1,
            Graph::Fan(_) => 1,
            Graph::Swap(m, n) => (m + n) as nat,
            Graph::Beside(_, _, x, y) => (*x).entries() + (*y).entries(),
            Graph::Before(_, _, x, _) => (*x).entries(),
            Graph::Empty() => 0,
        }
    }

    /// Exit count, derived from the structure.
    pub open spec fn exits(self) -> nat
        decreases self,
    {
        match self {
            Graph::Vert(_, outputs, _) => outputs@.len(),
            Graph::Node(_, n, _) => n as nat,
            Graph::Edge() => 1,
            Graph::Fan(n) => n as nat,
            Graph::Swap(m, n) => (n + m) as nat,
            Graph::Beside(_, _, x, y) => (*x).exits() + (*y).exits(),
            Graph::Before(_, _, _, y) => (*y).exits(),
            Graph::Empty() => 0,
        }
    }

    /// Every cached count equals the count derived from the children, and a
    /// swap's total port count fits in `usize`.
    pub open spec fn wf(self) -> bool
        decreases self,
    {
        match self {
            Graph::Swap(m, n) => m + n <= usize::MAX,
            Graph::Beside(m, n, x, y) => {
                &&& m == (*x).entries() + (*y).entries()
                &&& n == (*x).exits() + (*y).exits()
                &&& (*x).wf()
                &&& (*y).wf()
            },
            Graph::Before(m, n, x, y) => {
                &&& m == (*x).entries()
                &&& n == (*y).exits()
                &&& (*x).wf()
                &&& (*y).wf()
            },
            _ => true,
        }
    }

    /// `self` is the sequential composition of `x` and `y` with counts
    /// `(entries(x), exits(y))`.
    pub open spec fn is_before(self, x: Self, y: Self) -> bool {
        &&& self matches Graph::Before(m, n, a, b)
        &&& m == x.entries()
        &&& n == y.exits()
        &&& *a == x
        &&& *b == y
    }

    /// `self` is the parallel composition of `x` and `y` with counts
    /// `(entries(x) + entries(y), exits(x) + exits(y))`.
    pub open spec fn is_beside(self, x: Self, y: Self) -> bool {
        &&& self matches Graph::Beside(m, n, a, b)
        &&& m == x.entries() + y.entries()
        &&& n == x.exits() + y.exits()
        &&& *a == x
        &&& *b == y
    }

    /// `self` is `Empty` for zero copies, and otherwise `g` beside `k - 1`
    /// copies of `g`.
    pub open spec fn is_replication(self, g: Self, k: nat) -> bool
        decreases k,
    {
        if k == 0 {
            self is Empty
        } else {
            &&& self matches Graph::Beside(_, _, a, b)
            &&& self.is_beside(g, *b)
            &&& (*b).is_replication(g, (k - 1) as nat)
        }
    }

    /// The pair (entry count, exit count).
    ///
    /// Composite nodes answer from their cached counts, in constant time.
    pub fn entries_and_exits(&self) -> (r: (usize, usize))
        requires
            self.wf(),
        ensures
            r.0 == self.entries(),
            r.1 == self.exits(),
    {
        match self {
            Graph::Vert(inputs, outputs, _) => (inputs.len(), outputs.len()),
            Graph::Node(m, n, _) => (*m, *n),
            Graph::Edge() => (1, 1),
            Graph::Fan(n) => (1, *n),
            Graph::Swap(m, n) => (*m + *n, *n + *m),
            Graph::Beside(m, n, _, _) => (*m, *n),
            Graph::Before(m, n, _, _) => (*m, *n),
            Graph::Empty() => (0, 0),
        }
    }

    /// A vertex whose entry ports are named by `inputs` and exit ports by
    /// `outputs`.
    pub fn vert(inputs: Vec<T>, outputs: Vec<T>, label: A) -> (r: Graph<T, A>)
        ensures
            r matches Graph::Vert(i, o, l) && *i == inputs && *o == outputs && *l == label,
            r.wf(),
            r.entries() == inputs@.len(),
            r.exits() == outputs@.len(),
    {
        Graph::Vert(Rc::new(inputs), Rc::new(outputs), Rc::new(label))
    }

    /// A vertex with `m` anonymous entry ports and `n` anonymous exit ports.
    pub fn vertex(m: usize, n: usize, label: A) -> (r: Graph<T, A>)
        ensures
            r matches Graph::Node(a, b, l) && a == m && b == n && *l == label,
            r.wf(),
            r.entries() == m,
            r.exits() == n,
    {
        Graph::Node(m, n, Rc::new(label))
    }

    /// The identity wire.
    pub fn edge() -> (r: Graph<T, A>)
        ensures
            r is Edge,
            r.wf(),
            r.entries() == 1,
            r.exits() == 1,
    {
        Graph::Edge()
    }

    /// A fan from one entry to `n` exits.
    pub fn fan(n: usize) -> (r: Graph<T, A>)
        ensures
            r == Graph::<T, A>::Fan(n),
            r.wf(),
            r.entries() == 1,
            r.exits() == n,
    {
        Graph::Fan(n)
    }

    /// Swaps a block of `m` ports with a block of `n` ports.
    pub fn swap(m: usize, n: usize) -> (r: Graph<T, A>)
        requires
            m + n <= usize::MAX,
        ensures
            r == Graph::<T, A>::Swap(m, n),
            r.wf(),
            r.entries() == m + n,
            r.exits() == n + m,
    {
        Graph::Swap(m, n)
    }

    /// The graph with no ports.
    pub fn empty() -> (r: Graph<T, A>)
        ensures
            r is Empty,
            r.wf(),
            r.entries() == 0,
            r.exits() == 0,
    {
        Graph::Empty()
    }

    /// Sequential composition, checked: present exactly when the exits of
    /// `self` match the entries of `other` in number.
    pub fn sequential(&self, other: &Self) -> (r: Option<Graph<T, A>>)
        requires
            self.wf(),
            other.wf(),
        ensures
            r is Some <==> self.exits() == other.entries(),
            r matches Some(g) ==> g.is_before(*self, *other) && g.wf()
                && g.entries() == self.entries() && g.exits() == other.exits(),
    {
        let (m, p) = self.entries_and_exits();
        let (q, n) = other.entries_and_exits();
        if p == q {
            Some(Graph::Before(m, n, Rc::new(self.clone()), Rc::new(other.clone())))
        } else {
            None
        }
    }

    /// Sequential composition, unchecked: always built, with entries of
    /// `self` and exits of `other`, whether or not the ports in between
    /// agree in number.
    pub fn sequential_unchecked(&self, other: &Self) -> (r: Graph<T, A>)
        requires
            self.wf(),
            other.wf(),
        ensures
            r.is_before(*self, *other),
            r.wf(),
            r.entries() == self.entries(),
            r.exits() == other.exits(),
    {
        let (m, _) = self.entries_and_exits();
        let (_, n) = other.entries_and_exits();
        Graph::Before(m, n, Rc::new(self.clone()), Rc::new(other.clone()))
    }

    /// Parallel composition: `self` and `other` side by side, their counts
    /// added.
    pub fn parallel(&self, other: &Self) -> (r: Graph<T, A>)
        requires
            self.wf(),
            other.wf(),
            self.entries() + other.entries() <= usize::MAX,
            self.exits() + other.exits() <= usize::MAX,
        ensures
            r.is_beside(*self, *other),
            r.wf(),
            r.entries() == self.entries() + other.entries(),
            r.exits() == self.exits() + other.exits(),
    {
        let (m, n) = self.entries_and_exits();
        let (p, q) = other.entries_and_exits();
        Graph::Beside(m + p, n + q, Rc::new(self.clone()), Rc::new(other.clone()))
    }

    /// `k` copies of `g` side by side: `Empty` for zero copies, otherwise `g`
    /// beside `k - 1` copies. Every copy shares `g`'s children.
    pub fn replicate(k: usize, g: &Self) -> (r: Graph<T, A>)
        requires
            g.wf(),
            k * g.entries() <= usize::MAX,
            k * g.exits() <= usize::MAX,
        ensures
            r.is_replication(*g, k as nat),
            r.wf(),
            r.entries() == k * g.entries(),
            r.exits() == k * g.exits(),
    {
        let mut acc: Graph<T, A> = Graph::Empty();
        let mut i: usize = 0;
        while i < k
            invariant
                i <= k,
                g.wf(),
                k * g.entries() <= usize::MAX,
                k * g.exits() <= usize::MAX,
                acc.is_replication(*g, i as nat),
                acc.wf(),
                acc.entries() == i * g.entries(),
                acc.exits() == i * g.exits(),
            decreases k - i,
        {
            proof {
                lemma_step_fits(i as nat, k as nat, g.entries());
                lemma_step_fits(i as nat, k as nat, g.exits());
            }
            acc = g.parallel(&acc);
            i = i + 1;
        }
        acc
    }
}

/// One more copy still fits under the bound of `k` copies.
proof fn lemma_step_fits(i: nat, k: nat, c: nat)
    requires
        i < k,
    ensures
        c + i * c == (i + 1) * c,
        (i + 1) * c <= k * c,
{
    assert(c + i * c == (i + 1) * c) by (nonlinear_arith);
    assert((i + 1) * c <= k * c) by (nonlinear_arith)
        requires
            i + 1 <= k,
    ;
}

/// Replication law: `k` copies of a well-formed graph form a well-formed
/// graph with `k` times its entries and `k` times its exits; zero copies
/// have no ports.
pub proof fn lemma_replication_counts<T, A>(r: Graph<T, A>, g: Graph<T, A>, k: nat)
    requires
        g.wf(),
        r.is_replication(g, k),
    ensures
        r.wf(),
        r.entries() == k * g.entries(),
        r.exits() == k * g.exits(),
        k == 0 ==> r.entries() == 0 && r.exits() == 0,
    decreases k,
{
    if k > 0 {
        let b = *r->Beside_3;
        lemma_replication_counts(b, g, (k - 1) as nat);
        lemma_step_fits((k - 1) as nat, k, g.entries());
        lemma_step_fits((k - 1) as nat, k, g.exits());
    }
}

} // verus!
