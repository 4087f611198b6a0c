use vstd::prelude::*;

verus! {

/// A triangle's three vertex indices, listed in ascending order.
pub open spec fn sorted3(t: (u16, u16, u16)) -> (u16, u16, u16) {
    let (a, b, c) = t;
    if a <= b {
        if b <= c {
            (a, b, c)
        } else if a <= c {
            (a, c, b)
        } else {
            (c, a, b)
        }
    } else {
        if a <= c {
            (b, a, c)
        } else if b <= c {
            (b, c, a)
        } else {
            (c, b, a)
        }
    }
}

/// The undirected edges of a triangle, each written with its smaller index first.
pub open spec fn triangle_edge_set(t: (u16, u16, u16)) -> Set<(u16, u16)> {
    let s = sorted3(t);
    set![(s.0, s.1), (s.0, s.2), (s.1, s.2)]
}

/// `e` is one of the canonical edges of triangle `t`.
pub open spec fn triangle_has_edge(t: (u16, u16, u16), e: (u16, u16)) -> bool {
    let s = sorted3(t);
    e == (s.0, s.1) || e == (s.0, s.2) || e == (s.1, s.2)
}

/// `e` is a canonical edge of one of the triangles.
pub open spec fn mesh_has_edge(tris: Seq<(u16, u16, u16)>, e: (u16, u16)) -> bool {
    exists|i: int| 0 <= i < tris.len() && #[trigger] triangle_has_edge(tris[i], e)
}

/// The deduplicated set of undirected edges of a triangle list.
pub open spec fn edge_set(tris: Seq<(u16, u16, u16)>) -> Set<(u16, u16)> {
    Set::new(|e: (u16, u16)| mesh_has_edge(tris, e))
}

/// Every index of every triangle addresses one of `n` vertices.
pub open spec fn indices_in_range(tris: Seq<(u16, u16, u16)>, n: nat) -> bool {
    forall|i: int| 0 <= i < tris.len() ==> #[trigger] triangle_in_range(tris[i], n)
}

pub open spec fn triangle_in_range(t: (u16, u16, u16), n: nat) -> bool {
    (t.0 as nat) < n && (t.1 as nat) < n && (t.2 as nat) < n
}

/// The edges are exactly the deduplicated edge set of the triangles.
pub open spec fn edges_of(edges: Seq<(u16, u16)>, tris: Seq<(u16, u16, u16)>) -> bool {
    &&& edges.no_duplicates()
    &&& forall|e: (u16, u16)| #[trigger] edges.contains(e) <==> mesh_has_edge(tris, e)
}

/// Returns the triangle's indices in ascending order.
pub fn sort_triangle(t: (u16, u16, u16)) -> (r: (u16, u16, u16))
    ensures
        r == sorted3(t),
        r.0 <= r.1 <= r.2,
{
    let (a, b, c) = t;
    if a <= b {
        if b <= c {
            (a, b, c)
        } else if a <= c {
            (a, c, b)
        } else {
            (c, a, b)
        }
    } else {
        if a <= c {
            (b, a, c)
        } else if b <= c {
            (b, c, a)
        } else {
            (c, b, a)
        }
    }
}

/// The three canonical edges of a triangle: (low, mid), (low, high), (mid, high).
pub fn triangle_edges(t: (u16, u16, u16)) -> (r: [(u16, u16); 3])
    ensures
        r@ == seq![(sorted3(t).0, sorted3(t).1), (sorted3(t).0, sorted3(t).2), (sorted3(t).1, sorted3(t).2)],
        forall|k: int| 0 <= k < 3 ==> r@[k].0 <= r@[k].1,
{
    let (a, b, c) = sort_triangle(t);
    [(a, b), (a, c), (b, c)]
}

/// Whether `e` occurs in `edges`.
pub fn contains_edge(edges: &Vec<(u16, u16)>, e: (u16, u16)) -> (r: bool)
    ensures
        r == edges@.contains(e),
{
    let mut i: usize = 0;
    while i < edges.len()
        invariant
            i <= edges.len(),
            forall|k: int| 0 <= k < i ==> edges@[k] != e,
        decreases edges.len() - i,
    {
        let (x, y) = edges[i];
        if x == e.0 && y == e.1 {
            return true;
        }
        i = i + 1;
    }
    false
}

/// Adds `e` to `edges` unless it is already there.
fn insert_edge(edges: &mut Vec<(u16, u16)>, e: (u16, u16))
    requires
        old(edges)@.no_duplicates(),
    ensures
        final(edges)@.no_duplicates(),
        forall|x: (u16, u16)| #[trigger] final(edges)@.contains(x) <==> (old(edges)@.contains(x) || x == e),
{
    if !contains_edge(edges, e) {
        edges.push(e);
        proof {
            assert forall|x: (u16, u16)| #[trigger] edges@.contains(x) <==> (old(edges)@.contains(x) || x == e) by {
                if x == e {
                    assert(edges@[edges@.len() - 1] == e);
                }
                if old(edges)@.contains(x) {
                    let k = choose|k: int| 0 <= k < old(edges)@.len() && old(edges)@[k] == x;
                    assert(edges@[k] == x);
                }
            }
        }
    }
}

/// The deduplicated undirected edges of a triangle list, each written with its
/// smaller index first, in the order in which they first occur.
pub fn derive_edges(tris: &Vec<(u16, u16, u16)>) -> (r: Vec<(u16, u16)>)
    ensures
        edges_of(r@, tris@),
        r@.to_set() == edge_set(tris@),
{
    let mut edges: Vec<(u16, u16)> = Vec::new();
    let mut i: usize = 0;
    while i < tris.len()
        invariant
            i <= tris.len(),
            edges_of(edges@, tris@.take(i as int)),
        decreases tris.len() - i,
    {
        let t = tris[i];
        let es = triangle_edges(t);
        insert_edge(&mut edges, es[0]);
        insert_edge(&mut edges, es[1]);
        insert_edge(&mut edges, es[2]);
        proof {
            let pre = tris@.take(i as int);
            let post = tris@.take(i + 1);
            assert forall|e: (u16, u16)| #[trigger] edges@.contains(e) <==> mesh_has_edge(post, e) by {
                if mesh_has_edge(post, e) {
                    let k = choose|k: int| 0 <= k < post.len() && #[trigger] triangle_has_edge(post[k], e);
                    if k < i {
                        assert(pre[k] == post[k]);
                        assert(mesh_has_edge(pre, e));
                    } else {
                        assert(post[k] == t);
                    }
                }
                if edges@.contains(e) {
                    if mesh_has_edge(pre, e) {
                        let k = choose|k: int| 0 <= k < pre.len() && #[trigger] triangle_has_edge(pre[k], e);
                        assert(pre[k] == post[k]);
                    } else {
                        assert(post[i as int] == t);
                        assert(triangle_has_edge(post[i as int], e));
                    }
                }
            }
        }
        i = i + 1;
    }
    proof {
        assert(tris@.take(tris@.len() as int) =~= tris@);
        assert(edges@.to_set() =~= edge_set(tris@));
    }
    edges
}

/// A triangle's canonical edges do not depend on how its three indices are
/// labelled: every rotation and every mirror of the triple gives the same
/// ordered triple, and so the same undirected edges.
pub proof fn lemma_edges_invariant_under_relabeling(a: u16, b: u16, c: u16)
    ensures
        sorted3((b, c, a)) == sorted3((a, b, c)),
        sorted3((c, a, b)) == sorted3((a, b, c)),
        sorted3((a, c, b)) == sorted3((a, b, c)),
        sorted3((c, b, a)) == sorted3((a, b, c)),
        sorted3((b, a, c)) == sorted3((a, b, c)),
        triangle_edge_set((b, c, a)) == triangle_edge_set((a, b, c)),
        triangle_edge_set((c, a, b)) == triangle_edge_set((a, b, c)),
        triangle_edge_set((a, c, b)) == triangle_edge_set((a, b, c)),
        triangle_edge_set((c, b, a)) == triangle_edge_set((a, b, c)),
        triangle_edge_set((b, a, c)) == triangle_edge_set((a, b, c)),
{
}

/// Relabelling one triangle of a list (rotating or mirroring its indices)
/// leaves the list's edge set unchanged.
pub proof fn lemma_edge_set_invariant_under_relabeling(
    tris: Seq<(u16, u16, u16)>,
    i: int,
    t: (u16, u16, u16),
)
    requires
        0 <= i < tris.len(),
        t == (tris[i].1, tris[i].2, tris[i].0) || t == (tris[i].2, tris[i].0, tris[i].1)
            || t == (tris[i].0, tris[i].2, tris[i].1) || t == (tris[i].2, tris[i].1, tris[i].0)
            || t == (tris[i].1, tris[i].0, tris[i].2),
    ensures
        edge_set(tris.update(i, t)) == edge_set(tris),
{
    lemma_edges_invariant_under_relabeling(tris[i].0, tris[i].1, tris[i].2);
    let u = tris.update(i, t);
    assert(sorted3(t) == sorted3(tris[i]));
    assert forall|e: (u16, u16)| mesh_has_edge(u, e) <==> mesh_has_edge(tris, e) by {
        if mesh_has_edge(u, e) {
            let k = choose|k: int| 0 <= k < u.len() && #[trigger] triangle_has_edge(u[k], e);
            assert(triangle_has_edge(tris[k], e));
        }
        if mesh_has_edge(tris, e) {
            let k = choose|k: int| 0 <= k < tris.len() && #[trigger] triangle_has_edge(tris[k], e);
            assert(triangle_has_edge(u[k], e));
        }
    }
    assert(edge_set(u) =~= edge_set(tris));
}

/// Why a triangle list was refused.
#[derive(Debug, Clone, Copy, PartialEq, Eq, Structural)]
pub enum TopologyError {
    /// The triangle at this position names a vertex index at or past the vertex count.
    IndexOutOfRange { triangle: usize },
}

/// The connectivity of a mesh: how many vertices it has, its triangles as index
/// triples, and the deduplicated undirected edges derived from them.
/// Fixed once built; the vertex positions live with whoever draws or moves it.
pub struct MeshTopology {
    vertex_count: usize,
    triangles: Vec<(u16, u16, u16)>,
    edges: Vec<(u16, u16)>,
}

impl MeshTopology {
    pub closed spec fn view_vertex_count(&self) -> nat {
        self.vertex_count as nat
    }

    pub closed spec fn view_triangles(&self) -> Seq<(u16, u16, u16)> {
        self.triangles@
    }

    pub closed spec fn view_edges(&self) -> Seq<(u16, u16)> {
        self.edges@
    }

    /// Every triangle index is in range and the edges are derived from the triangles.
    #[verifier::type_invariant]
    spec fn wf(&self) -> bool {
        &&& indices_in_range(self.triangles@, self.vertex_count as nat)
        &&& edges_of(self.edges@, self.triangles@)
    }

    /// Builds the topology of a mesh with `vertex_count` vertices. Refuses the
    /// triangle list, naming the first offending triangle, if any index is out of range.
    pub fn new(vertex_count: usize, triangles: Vec<(u16, u16, u16)>) -> (r: Result<MeshTopology, TopologyError>)
        ensures
            match r {
                Ok(m) => {
                    &&& m.view_vertex_count() == vertex_count
                    &&& m.view_triangles() == triangles@
                },
                Err(TopologyError::IndexOutOfRange { triangle }) => {
                    &&& triangle < triangles@.len()
                    &&& !triangle_in_range(triangles@[triangle as int], vertex_count as nat)
                    &&& indices_in_range(triangles@.take(triangle as int), vertex_count as nat)
                },
            },
            r.is_ok() <==> indices_in_range(triangles@, vertex_count as nat),
    {
        let mut i: usize = 0;
        while i < triangles.len()
            invariant
                i <= triangles.len(),
                indices_in_range(triangles@.take(i as int), vertex_count as nat),
            decreases triangles.len() - i,
        {
            let (a, b, c) = triangles[i];
            if !((a as usize) < vertex_count && (b as usize) < vertex_count && (c as usize) < vertex_count) {
                proof {
                    assert(!triangle_in_range(triangles@[i as int], vertex_count as nat));
                    assert(!indices_in_range(triangles@, vertex_count as nat));
                }
                return Err(TopologyError::IndexOutOfRange { triangle: i });
            }
            proof {
                assert forall|k: int| 0 <= k < i + 1 implies #[trigger] triangle_in_range(
                    triangles@.take(i + 1)[k],
                    vertex_count as nat,
                ) by {
                    if k < i {
                        assert(triangles@.take(i + 1)[k] == triangles@.take(i as int)[k]);
                    }
                }
            }
            i = i + 1;
        }
        proof {
            assert(triangles@.take(triangles@.len() as int) =~= triangles@);
        }
        let edges = derive_edges(&triangles);
        Ok(MeshTopology { vertex_count, triangles, edges })
    }

    /// The number of vertices the triangles index into.
    pub fn vertex_count(&self) -> (r: usize)
        ensures
            r == self.view_vertex_count(),
    {
        self.vertex_count
    }

    /// The triangles, as given at construction.
    pub fn triangles(&self) -> (r: &Vec<(u16, u16, u16)>)
        ensures
            r@ == self.view_triangles(),
            indices_in_range(r@, self.view_vertex_count()),
    {
        proof {
            use_type_invariant(self);
        }
        &self.triangles
    }

    /// The deduplicated undirected edges, smaller index first.
    pub fn edges(&self) -> (r: &Vec<(u16, u16)>)
        ensures
            r@ == self.view_edges(),
            edges_of(r@, self.view_triangles()),
            r@.to_set() == edge_set(self.view_triangles()),
    {
        proof {
            use_type_invariant(self);
            assert(self.edges@.to_set() =~= edge_set(self.triangles@));
        }
        &self.edges
    }
}

} // verus!
