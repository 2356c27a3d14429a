//! Cooperative, hierarchical cancellation.

use vstd::prelude::*;

verus! {

/// One token of a scope: its own flag and the token it was forked from.
#[derive(Clone, Copy, Debug)]
pub struct TokenNode {
    /// The index of the token this one was forked from; `None` for a root.
    pub parent: Option<usize>,
    /// Whether `cancel` was called on this very token.
    pub cancelled: bool,
}

/// The tokens of one scope.
///
/// The scope owns every flag, so that a token is a plain handle and a child sees
/// the cancellation of its ancestors for as long as both live.
pub struct CancellationScope {
    nodes: Vec<TokenNode>,
}

/// A handle to one token of a [`CancellationScope`].
#[derive(Clone, Copy, Debug, PartialEq, Eq, Structural)]
pub struct CancellationToken {
    id: usize,
}

/// Whether `token` names a node of `nodes`.
pub open spec fn in_scope(nodes: Seq<TokenNode>, token: int) -> bool {
    0 <= token < nodes.len()
}

/// The parent of `token`, if it has one that was created before it.
pub open spec fn parent_of(nodes: Seq<TokenNode>, token: int) -> Option<int> {
    if in_scope(nodes, token) {
        match nodes[token].parent {
            Some(p) => if p < token {
                Some(p as int)
            } else {
                None
            },
            None => None,
        }
    } else {
        None
    }
}

/// Whether `ancestor` is `token` itself or lies on the way from `token` up to its root.
pub open spec fn ancestor_or_self(nodes: Seq<TokenNode>, ancestor: int, token: int) -> bool
    decreases token,
{
    in_scope(nodes, token) && (ancestor == token || match parent_of(nodes, token) {
        Some(p) => ancestor_or_self(nodes, ancestor, p),
        None => false,
    })
}

/// Whether cancellation was requested of `token`: on itself or on one of its ancestors.
pub open spec fn requested(nodes: Seq<TokenNode>, token: int) -> bool
    decreases token,
{
    in_scope(nodes, token) && (nodes[token].cancelled || match parent_of(nodes, token) {
        Some(p) => requested(nodes, p),
        None => false,
    })
}

/// The nodes after `cancel` on `token`: its own flag is set, nothing else changes.
pub open spec fn with_cancelled(nodes: Seq<TokenNode>, token: int) -> Seq<TokenNode> {
    if in_scope(nodes, token) {
        nodes.update(token, TokenNode { parent: nodes[token].parent, cancelled: true })
    } else {
        nodes
    }
}

/// The nodes after a fork of `parent`: one more node, not cancelled, linked to `parent`.
pub open spec fn with_child(nodes: Seq<TokenNode>, parent: usize) -> Seq<TokenNode> {
    nodes.push(
        TokenNode {
            parent: if in_scope(nodes, parent as int) {
                Some(parent)
            } else {
                None
            },
            cancelled: false,
        },
    )
}

/// `later` is `earlier` after some forks and cancels: links stay, flags are only ever set.
pub open spec fn grown_from(later: Seq<TokenNode>, earlier: Seq<TokenNode>) -> bool {
    &&& earlier.len() <= later.len()
    &&& forall|i: int|
        0 <= i < earlier.len() ==> {
            &&& (#[trigger] later[i]).parent == earlier[i].parent
            &&& (earlier[i].cancelled ==> later[i].cancelled)
        }
}

/// A token is cancelled exactly when it or one of its ancestors carries the flag.
pub proof fn lemma_requested_means_flagged_ancestor(nodes: Seq<TokenNode>, token: int)
    ensures
        requested(nodes, token) <==> exists|a: int|
            #[trigger] ancestor_or_self(nodes, a, token) && nodes[a].cancelled,
    decreases token,
{
    if in_scope(nodes, token) {
        assert(ancestor_or_self(nodes, token, token));
        match parent_of(nodes, token) {
            Some(p) => {
                lemma_requested_means_flagged_ancestor(nodes, p);
                if requested(nodes, p) {
                    let a = choose|a: int| #[trigger]
                        ancestor_or_self(nodes, a, p) && nodes[a].cancelled;
                    assert(ancestor_or_self(nodes, a, token));
                }
                if exists|a: int| #[trigger]
                    ancestor_or_self(nodes, a, token) && nodes[a].cancelled {
                    let a = choose|a: int| #[trigger]
                        ancestor_or_self(nodes, a, token) && nodes[a].cancelled;
                    if a != token {
                        assert(ancestor_or_self(nodes, a, p));
                    }
                }
            },
            None => {},
        }
    }
}

/// An ancestor was created before its descendants and lies in the scope.
pub proof fn lemma_ancestor_is_older(nodes: Seq<TokenNode>, ancestor: int, token: int)
    requires
        ancestor_or_self(nodes, ancestor, token),
    ensures
        in_scope(nodes, ancestor),
        ancestor <= token,
    decreases token,
{
    if ancestor != token {
        lemma_ancestor_is_older(nodes, ancestor, parent_of(nodes, token).unwrap());
    }
}

/// Cancellation is inherited: what is requested of a token is requested of all its descendants.
pub proof fn lemma_descendants_inherit(nodes: Seq<TokenNode>, ancestor: int, token: int)
    requires
        ancestor_or_self(nodes, ancestor, token),
        requested(nodes, ancestor),
    ensures
        requested(nodes, token),
    decreases token,
{
    if ancestor != token {
        lemma_descendants_inherit(nodes, ancestor, parent_of(nodes, token).unwrap());
    }
}

/// The ancestors of the tokens that were there stay the same while a scope grows.
pub proof fn lemma_ancestors_are_kept(
    later: Seq<TokenNode>,
    earlier: Seq<TokenNode>,
    ancestor: int,
    token: int,
)
    requires
        grown_from(later, earlier),
        in_scope(earlier, token),
    ensures
        ancestor_or_self(later, ancestor, token) == ancestor_or_self(earlier, ancestor, token),
    decreases token,
{
    match parent_of(earlier, token) {
        Some(p) => {
            lemma_ancestors_are_kept(later, earlier, ancestor, p);
        },
        None => {},
    }
}

/// Cancellation is irreversible: whatever forks and cancels follow, a token of
/// which cancellation was requested stays so.
pub proof fn lemma_requested_is_kept(later: Seq<TokenNode>, earlier: Seq<TokenNode>, token: int)
    requires
        grown_from(later, earlier),
        requested(earlier, token),
    ensures
        requested(later, token),
    decreases token,
{
    if !earlier[token].cancelled {
        lemma_requested_is_kept(later, earlier, parent_of(earlier, token).unwrap());
    }
}

/// A cancel and a fork both grow the scope.
pub proof fn lemma_cancel_and_fork_grow(nodes: Seq<TokenNode>, token: usize)
    ensures
        grown_from(with_cancelled(nodes, token as int), nodes),
        grown_from(with_child(nodes, token), nodes),
{
}

/// After `cancel` on a token, cancellation is requested of it and of every descendant.
pub proof fn lemma_cancel_reaches_descendants(nodes: Seq<TokenNode>, cancelled: int, token: int)
    requires
        ancestor_or_self(nodes, cancelled, token),
    ensures
        requested(with_cancelled(nodes, cancelled), token),
{
    let after = with_cancelled(nodes, cancelled);
    lemma_ancestor_is_older(nodes, cancelled, token);
    lemma_ancestors_are_kept(after, nodes, cancelled, token);
    lemma_descendants_inherit(after, cancelled, token);
}

/// A cancel leaves the tokens alone that do not descend from the cancelled one.
pub proof fn lemma_cancel_spares_the_rest(nodes: Seq<TokenNode>, cancelled: int, token: int)
    requires
        !ancestor_or_self(nodes, cancelled, token),
    ensures
        requested(with_cancelled(nodes, cancelled), token) == requested(nodes, token),
    decreases token,
{
    if in_scope(nodes, token) {
        match parent_of(nodes, token) {
            Some(p) => {
                lemma_cancel_spares_the_rest(nodes, cancelled, p);
            },
            None => {},
        }
    }
}

/// A fork changes nothing for the tokens that were there.
pub proof fn lemma_fork_spares_the_rest(nodes: Seq<TokenNode>, parent: usize, token: int)
    requires
        in_scope(nodes, token),
    ensures
        requested(with_child(nodes, parent), token) == requested(nodes, token),
    decreases token,
{
    match parent_of(nodes, token) {
        Some(p) => {
            lemma_fork_spares_the_rest(nodes, parent, p);
        },
        None => {},
    }
}

/// The child that a fork makes descends from its parent, and cancellation is
/// requested of it exactly when it is requested of the parent.
pub proof fn lemma_child_follows_parent(nodes: Seq<TokenNode>, parent: usize)
    ensures
        requested(with_child(nodes, parent), nodes.len() as int) == requested(
            nodes,
            parent as int,
        ),
        in_scope(nodes, parent as int) ==> ancestor_or_self(
            with_child(nodes, parent),
            parent as int,
            nodes.len() as int,
        ),
{
    if in_scope(nodes, parent as int) {
        lemma_fork_spares_the_rest(nodes, parent, parent as int);
        assert(ancestor_or_self(with_child(nodes, parent), parent as int, parent as int));
    }
}

impl View for CancellationToken {
    type V = usize;

    closed spec fn view(&self) -> usize {
        self.id
    }
}

impl View for CancellationScope {
    type V = Seq<TokenNode>;

    closed spec fn view(&self) -> Seq<TokenNode> {
        self.nodes@
    }
}

impl CancellationScope {
    #[verifier::type_invariant]
    spec fn links_point_back(self) -> bool {
        forall|i: int|
            0 <= i < self.nodes@.len() ==> match (#[trigger] self.nodes@[i]).parent {
                Some(p) => p < i,
                None => true,
            }
    }

    /// Whether cancellation was requested of `token` in this scope.
    pub open spec fn cancelled(&self, token: CancellationToken) -> bool {
        requested(self@, token@ as int)
    }

    /// Creates a scope without tokens.
    pub fn new() -> (scope: Self)
        ensures
            scope@ == Seq::<TokenNode>::empty(),
    {
        CancellationScope { nodes: Vec::new() }
    }

    /// Creates a token without a parent.
    pub fn root(&mut self) -> (token: CancellationToken)
        ensures
            token@ == old(self)@.len(),
            final(self)@ == old(self)@.push(TokenNode { parent: None, cancelled: false }),
    {
        proof {
            use_type_invariant(&*self);
        }
        let mut nodes: Vec<TokenNode> = Vec::new();
        std::mem::swap(&mut nodes, &mut self.nodes);
        let id = nodes.len();
        nodes.push(TokenNode { parent: None, cancelled: false });
        self.nodes = nodes;
        CancellationToken { id }
    }

    /// The number of tokens that were created in this scope.
    pub fn len(&self) -> (n: usize)
        ensures
            n == self@.len(),
    {
        self.nodes.len()
    }
}

impl Clone for CancellationScope {
    /// Copies the scope as it is now. What is cancelled in one of the two
    /// later on is not cancelled in the other.
    fn clone(&self) -> (copy: Self)
        ensures
            copy@ == self@,
    {
        proof {
            use_type_invariant(self);
        }
        let nodes = self.nodes.clone();
        assert(nodes@ =~= self.nodes@) by {
            assert forall|i: int| 0 <= i < nodes@.len() implies nodes@[i] == self.nodes@[i] by {
            }
        }
        CancellationScope { nodes }
    }
}

impl CancellationToken {
    /// Derives a child token. The child is cancelled whenever this token or one of
    /// its ancestors is, now or later.
    ///
    /// A token that `scope` does not hold has no flag to inherit: the child is then a root.
    pub fn fork(self, scope: &mut CancellationScope) -> (child: CancellationToken)
        ensures
            child@ == old(scope)@.len(),
            final(scope)@ == with_child(old(scope)@, self@),
    {
        proof {
            use_type_invariant(&*scope);
        }
        let mut nodes: Vec<TokenNode> = Vec::new();
        std::mem::swap(&mut nodes, &mut scope.nodes);
        let id = nodes.len();
        let parent = if self.id < id {
            Some(self.id)
        } else {
            None
        };
        nodes.push(TokenNode { parent, cancelled: false });
        scope.nodes = nodes;
        CancellationToken { id }
    }

    /// Requests cancellation of this token and, through it, of all its descendants.
    ///
    /// A token that `scope` does not hold has no flag: nothing changes.
    pub fn cancel(self, scope: &mut CancellationScope)
        ensures
            final(scope)@ == with_cancelled(old(scope)@, self@ as int),
    {
        proof {
            use_type_invariant(&*scope);
        }
        if self.id < scope.nodes.len() {
            let mut nodes: Vec<TokenNode> = Vec::new();
            std::mem::swap(&mut nodes, &mut scope.nodes);
            let parent = nodes[self.id].parent;
            nodes.set(self.id, TokenNode { parent, cancelled: true });
            scope.nodes = nodes;
        }
    }

    /// Tells whether cancellation was requested of this token or of one of its
    /// ancestors. Walks up the links, so the cost is the depth of the token.
    pub fn requested_cancel(self, scope: &CancellationScope) -> (yes: bool)
        ensures
            yes == scope.cancelled(self),
    {
        proof {
            use_type_invariant(scope);
        }
        if self.id >= scope.nodes.len() {
            return false;
        }
        let mut current: usize = self.id;
        loop
            invariant
                scope.links_point_back(),
                in_scope(scope@, current as int),
                requested(scope@, self@ as int) == requested(scope@, current as int),
            decreases current,
        {
            if scope.nodes[current].cancelled {
                return true;
            }
            match scope.nodes[current].parent {
                Some(p) => {
                    current = p;
                },
                None => {
                    return false;
                },
            }
        }
    }
}

} // verus!
