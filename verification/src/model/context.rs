use vstd::prelude::*;

verus! {

/// Number of entries of `parents` that name `p` as their parent.
pub open spec fn count_children(parents: Seq<Option<int>>, p: int) -> nat
    decreases parents.len(),
{
    if parents.len() == 0 {
        0
    } else {
        count_children(parents.drop_last(), p) + if parents.last() == Some(p) {
            1nat
        } else {
            0nat
        }
    }
}

/// Every context's parent was created before it.
pub open spec fn parents_precede(parents: Seq<Option<int>>) -> bool {
    forall|i: int| 0 <= i < parents.len() ==> (#[trigger] parents[i] matches Some(q) ==> 0 <= q < i)
}

proof fn lemma_count_children_bound(parents: Seq<Option<int>>, p: int)
    ensures
        count_children(parents, p) <= parents.len(),
    decreases parents.len(),
{
    if parents.len() > 0 {
        lemma_count_children_bound(parents.drop_last(), p);
    }
}

/// Whether context `i` is still alive: a handle to it is still held, or
/// its parent is alive (a parent keeps its children; a child does not keep
/// its parent).
pub open spec fn is_alive(parents: Seq<Option<int>>, handles: Seq<int>, i: int) -> bool
    decreases i,
{
    if !(0 <= i < parents.len() && i < handles.len()) {
        false
    } else if handles[i] > 0 {
        true
    } else {
        match parents[i] {
            Some(p) => if 0 <= p < i {
                is_alive(parents, handles, p)
            } else {
                false
            },
            None => false,
        }
    }
}

/// The contexts of one tree: every context has at most one parent, created
/// before it, knows how many children it has, and counts the handles to it
/// that are held. A context stays alive while a handle to it is held or its
/// parent is alive.
pub struct ContextTree {
    parents: Vec<Option<usize>>,
    child_counts: Vec<usize>,
    handles: Vec<usize>,
}

/// A handle to a context of a context tree (a node for service lookup).
/// Handing it back with `Context::release` drops it.
#[derive(Debug, PartialEq, Eq, Structural)]
pub struct Context {
    id: usize,
}

impl View for ContextTree {
    type V = Seq<Option<int>>;

    /// For each context, in creation order, the index of its parent.
    closed spec fn view(&self) -> Seq<Option<int>> {
        self.parents@.map_values(|p: Option<usize>|
            match p {
                Some(i) => Some(i as int),
                None => None,
            })
    }
}

impl ContextTree {
    #[verifier::type_invariant]
    spec fn inv(self) -> bool {
        &&& self.parents@.len() == self.child_counts@.len()
        &&& self.parents@.len() == self.handles@.len()
        &&& forall|i: int|
            0 <= i < self.parents@.len() ==> (#[trigger] self.parents@[i] matches Some(p) ==> p
                < i)
        &&& forall|i: int|
            0 <= i < self.child_counts@.len() ==> #[trigger] self.child_counts@[i]
                == count_children(self@, i)
    }

    /// For each context, the number of handles to it that are held.
    pub closed spec fn handles(&self) -> Seq<int> {
        self.handles@.map_values(|h: usize| h as int)
    }

    /// Whether context `i` is still alive.
    pub open spec fn alive(&self, i: int) -> bool {
        is_alive(self@, self.handles(), i)
    }

    /// A tree with no context.
    pub fn new() -> (t: ContextTree)
        ensures
            t@ == Seq::<Option<int>>::empty(),
            t.handles() == Seq::<int>::empty(),
    {
        let t = ContextTree { parents: Vec::new(), child_counts: Vec::new(), handles: Vec::new() };
        assert(t.handles() =~= Seq::<int>::empty());
        t
    }

    /// Whether context `i` is still alive.
    fn is_alive_at(&self, i: usize) -> (r: bool)
        requires
            i < self@.len(),
        ensures
            r == self.alive(i as int),
    {
        proof {
            use_type_invariant(self);
        }
        let mut cur = i;
        loop
            invariant
                cur < self@.len(),
                self.parents@.len() == self.handles@.len(),
                forall|j: int|
                    0 <= j < self.parents@.len() ==> (#[trigger] self.parents@[j] matches Some(q)
                        ==> q < j),
                self.alive(i as int) == self.alive(cur as int),
            decreases cur,
        {
            if self.handles[cur] > 0 {
                return true;
            }
            match self.parents[cur] {
                Some(p) => {
                    cur = p;
                },
                None => {
                    return false;
                },
            }
        }
    }

    /// The number of contexts in the tree.
    pub fn len(&self) -> (n: usize)
        ensures
            n == self@.len(),
    {
        proof {
            use_type_invariant(self);
        }
        self.parents.len()
    }

    /// Add a context with parent `parent` (or none) at the end.
    fn add(&mut self, parent: Option<usize>) -> (c: Context)
        requires
            old(self)@.len() < usize::MAX,
            parent matches Some(p) ==> p < old(self)@.len(),
        ensures
            c.id == old(self)@.len(),
            final(self).handles() == old(self).handles().push(1),
            parents_precede(final(self)@),
            final(self)@ == old(self)@.push(
                match parent {
                    Some(p) => Some(p as int),
                    None => None,
                },
            ),
    {
        proof {
            use_type_invariant(&*self);
        }
        let ghost old_view = self@;
        let n = self.parents.len();
        let mut t = ContextTree::new();
        std::mem::swap(&mut t, self);
        let ContextTree { parents: mut parents, child_counts: mut counts, handles: mut handles } = t;
        let ghost old_handles = handles@;
        parents.push(parent);
        counts.push(0);
        handles.push(1);
        let ghost new_view = parents@.map_values(|p: Option<usize>|
            match p {
                Some(i) => Some(i as int),
                None => None,
            });
        assert(new_view =~= old_view.push(
            match parent {
                Some(p) => Some(p as int),
                None => None,
            },
        ));
        assert(new_view.drop_last() =~= old_view);
        if let Some(p) = parent {
            proof {
                lemma_count_children_bound(old_view, p as int);
            }
            let c = counts[p] + 1;
            counts.set(p, c);
        }
        proof {
            assert forall|i: int| 0 <= i < counts@.len() implies #[trigger] counts@[i]
                == count_children(new_view, i) by {
                if i == n {
                    lemma_count_children_bound(old_view, i);
                    assert(count_children(old_view, i) == 0) by {
                        lemma_count_children_none(old_view, i);
                    }
                }
            }
        }
        *self = ContextTree { parents, child_counts: counts, handles };
        proof {
            use_type_invariant(&*self);
            assert(self.handles() =~= old_handles.map_values(|h: usize| h as int).push(1));
        }
        Context { id: n }
    }
}

/// A context that is not (yet) in the tree has no children there.
pub proof fn lemma_count_children_none(parents: Seq<Option<int>>, p: int)
    requires
        p >= parents.len(),
        parents_precede(parents),
    ensures
        count_children(parents, p) == 0,
    decreases parents.len(),
{
    if parents.len() > 0 {
        lemma_count_children_none(parents.drop_last(), p);
    }
}

impl Context {
    /// The position of this context in its tree.
    pub closed spec fn index(&self) -> int {
        self.id as int
    }

    /// Create a context without parent; the caller holds the one handle.
    pub fn new_root(tree: &mut ContextTree) -> (c: Context)
        requires
            old(tree)@.len() < usize::MAX,
        ensures
            c.index() == old(tree)@.len(),
            final(tree)@ == old(tree)@.push(None),
            final(tree).handles() == old(tree).handles().push(1),
            parents_precede(final(tree)@),
    {
        tree.add(None)
    }

    /// Create a context whose parent is `parent`; the parent gains one child,
    /// and the caller holds the one handle to the new context.
    pub fn new_child(tree: &mut ContextTree, parent: &Context) -> (c: Context)
        requires
            old(tree)@.len() < usize::MAX,
            parent.index() < old(tree)@.len(),
        ensures
            c.index() == old(tree)@.len(),
            final(tree)@ == old(tree)@.push(Some(parent.index())),
            final(tree).handles() == old(tree).handles().push(1),
            parents_precede(final(tree)@),
    {
        tree.add(Some(parent.id))
    }

    /// A new handle to the parent of this context, when it has a parent that
    /// is still alive; `None` when it has none or the parent is gone.
    pub fn parent(&self, tree: &mut ContextTree) -> (p: Option<Context>)
        requires
            self.index() < old(tree)@.len(),
            old(tree)@[self.index()] matches Some(q) ==> old(tree).handles()[q] < usize::MAX,
        ensures
            final(tree)@ == old(tree)@,
            match old(tree)@[self.index()] {
                Some(q) => if old(tree).alive(q) {
                    p matches Some(c) && c.index() == q && final(tree).handles() == old(
                        tree,
                    ).handles().update(q, old(tree).handles()[q] + 1)
                } else {
                    p is None && final(tree).handles() == old(tree).handles()
                },
                None => p is None && final(tree).handles() == old(tree).handles(),
            },
    {
        proof {
            use_type_invariant(&*tree);
        }
        match tree.parents[self.id] {
            Some(q) => {
                if tree.is_alive_at(q) {
                    let ghost old_handles = tree.handles@;
                    let mut t = ContextTree::new();
                    std::mem::swap(&mut t, tree);
                    let ContextTree { parents, child_counts, handles: mut handles } = t;
                    let h = handles[q] + 1;
                    handles.set(q, h);
                    *tree = ContextTree { parents, child_counts, handles };
                    proof {
                        assert(tree.handles() =~= old_handles.map_values(|h: usize| h as int).update(
                            q as int,
                            old_handles[q as int] + 1,
                        ));
                    }
                    Some(Context { id: q })
                } else {
                    None
                }
            },
            None => None,
        }
    }

    /// Drop this handle; the context stays alive while another handle to it
    /// is held or its parent is alive.
    pub fn release(tree: &mut ContextTree, ctx: Context)
        requires
            ctx.index() < old(tree)@.len(),
            old(tree).handles()[ctx.index()] >= 1,
        ensures
            final(tree)@ == old(tree)@,
            final(tree).handles() == old(tree).handles().update(
                ctx.index(),
                old(tree).handles()[ctx.index()] - 1,
            ),
    {
        proof {
            use_type_invariant(&*tree);
        }
        let ghost old_handles = tree.handles@;
        let mut t = ContextTree::new();
        std::mem::swap(&mut t, tree);
        let ContextTree { parents, child_counts, handles: mut handles } = t;
        let h = handles[ctx.id] - 1;
        handles.set(ctx.id, h);
        *tree = ContextTree { parents, child_counts, handles };
        proof {
            assert(tree.handles() =~= old_handles.map_values(|h: usize| h as int).update(
                ctx.id as int,
                old_handles[ctx.id as int] - 1,
            ));
        }
    }

    /// The number of contexts whose parent is this context.
    pub fn child_count(&self, tree: &ContextTree) -> (n: usize)
        requires
            self.index() < tree@.len(),
        ensures
            n == count_children(tree@, self.index()),
    {
        proof {
            use_type_invariant(tree);
        }
        tree.child_counts[self.id]
    }
}

/// A context without parent whose handles have all been released is gone,
/// whatever children it has: children do not keep their parent alive.
pub proof fn lemma_released_root_gone(parents: Seq<Option<int>>, handles: Seq<int>, r: int)
    requires
        0 <= r < parents.len(),
        r < handles.len(),
        parents[r] is None,
        handles[r] == 0,
    ensures
        !is_alive(parents, handles, r),
{
}

/// A context to which a handle is held is alive, whatever its parent.
pub proof fn lemma_held_context_alive(parents: Seq<Option<int>>, handles: Seq<int>, i: int)
    requires
        0 <= i < parents.len(),
        i < handles.len(),
        handles[i] > 0,
    ensures
        is_alive(parents, handles, i),
{
}

/// A context to which no handle is held lives exactly as long as its
/// parent; without a parent it is gone.
pub proof fn lemma_unheld_context_follows_parent(
    parents: Seq<Option<int>>,
    handles: Seq<int>,
    i: int,
)
    requires
        0 <= i < parents.len(),
        i < handles.len(),
        handles[i] <= 0,
        parents_precede(parents),
    ensures
        parents[i] is None ==> !is_alive(parents, handles, i),
        parents[i] matches Some(p) ==> is_alive(parents, handles, i) == is_alive(
            parents,
            handles,
            p,
        ),
{
    assert(parents[i] matches Some(q) ==> 0 <= q < i);
}

/// A context is alive while its parent is: a parent keeps its children.
pub proof fn lemma_child_of_alive_parent(parents: Seq<Option<int>>, handles: Seq<int>, c: int)
    requires
        0 <= c < parents.len(),
        c < handles.len(),
        parents[c] matches Some(p) && 0 <= p < c && is_alive(parents, handles, p),
    ensures
        is_alive(parents, handles, c),
{
}

/// Creating a context gives its parent (if any) exactly one more child and
/// leaves the child counts of all other contexts unchanged.
pub proof fn lemma_child_count_after_add(parents: Seq<Option<int>>, parent: Option<int>, q: int)
    ensures
        count_children(parents.push(parent), q) == count_children(parents, q) + if parent == Some(
            q,
        ) {
            1nat
        } else {
            0nat
        },
{
    assert(parents.push(parent).drop_last() =~= parents);
}

/// A context that was just created has no children.
pub proof fn lemma_new_context_childless(parents: Seq<Option<int>>, parent: Option<int>)
    requires
        parents_precede(parents),
        parent matches Some(p) ==> 0 <= p < parents.len(),
    ensures
        count_children(parents.push(parent), parents.len() as int) == 0,
{
    lemma_count_children_none(parents, parents.len() as int);
    lemma_child_count_after_add(parents, parent, parents.len() as int);
}

} // verus!
