//! The geometry tree of a GeoJSON document and the queries that walk it.
use vstd::prelude::*;

verus! {

broadcast use vstd::std_specs::vec::group_vec_axioms;

/// A geometry of the document.
///
/// `Polygonal` stands for a `Polygon` or a `MultiPolygon`; `shape` is the
/// index of its coordinates in the shape table that goes with the document.
/// `Collection` is a `GeometryCollection`; `Other` is any other kind
/// (points and lines), which never matches, has no area and no distance.
pub enum Geom {
    Polygonal { shape: usize },
    Collection { members: Vec<Geom> },
    Other,
}

/// A feature: an optional geometry, and whether it carries properties.
pub struct Feature {
    pub geometry: Option<Geom>,
    pub has_properties: bool,
}

/// A parsed document: a bare geometry, one feature, or a list of features.
pub enum Document {
    Geometry(Geom),
    Feature(Feature),
    FeatureCollection(Vec<Feature>),
}

/// Every shape index in `g` is below `n`.
pub open spec fn geom_wf(g: Geom, n: nat) -> bool
    decreases g, 1int,
{
    match g {
        Geom::Polygonal { shape } => shape < n,
        Geom::Collection { members } => members_wf(members@, n),
        Geom::Other => true,
    }
}

/// Every geometry of `s` is well formed.
pub open spec fn members_wf(s: Seq<Geom>, n: nat) -> bool
    decreases s, 0int,
{
    if s.len() == 0 {
        true
    } else {
        members_wf(s.subrange(0, s.len() - 1), n) && geom_wf(s[s.len() - 1], n)
    }
}

/// `g` contains the point, where `inside[k]` tells whether shape `k` does.
pub open spec fn geom_matches(g: Geom, inside: Seq<bool>) -> bool
    decreases g, 1int,
{
    match g {
        Geom::Polygonal { shape } => inside[shape as int],
        Geom::Collection { members } => members_match(members@, inside),
        Geom::Other => false,
    }
}

/// Some geometry of `s` contains the point.
pub open spec fn members_match(s: Seq<Geom>, inside: Seq<bool>) -> bool
    decreases s, 0int,
{
    if s.len() == 0 {
        false
    } else {
        members_match(s.subrange(0, s.len() - 1), inside) || geom_matches(s[s.len() - 1], inside)
    }
}

/// The shapes reachable from `g`, through collections at any depth, in
/// document order.
pub open spec fn geom_shapes(g: Geom) -> Seq<usize>
    decreases g, 1int,
{
    match g {
        Geom::Polygonal { shape } => seq![shape],
        Geom::Collection { members } => members_shapes(members@),
        Geom::Other => Seq::empty(),
    }
}

/// The shapes reachable from the geometries of `s`, in order.
pub open spec fn members_shapes(s: Seq<Geom>) -> Seq<usize>
    decreases s, 0int,
{
    if s.len() == 0 {
        Seq::empty()
    } else {
        members_shapes(s.subrange(0, s.len() - 1)) + geom_shapes(s[s.len() - 1])
    }
}

/// The prefix of `s` one longer than `i` adds `s[i]` to the prefix of length `i`.
proof fn lemma_prefix_step<T>(s: Seq<T>, i: int)
    requires
        0 <= i < s.len(),
    ensures
        s.subrange(0, i + 1).subrange(0, i) == s.subrange(0, i),
        s.subrange(0, i + 1)[i] == s[i],
        s.subrange(0, i + 1).len() == i + 1,
{
    assert(s.subrange(0, i + 1).subrange(0, i) =~= s.subrange(0, i));
}

/// The members of a well-formed sequence are well formed.
proof fn lemma_members_wf(s: Seq<Geom>, n: nat, i: int)
    requires
        members_wf(s, n),
        0 <= i < s.len(),
    ensures
        geom_wf(s[i], n),
    decreases s.len(),
{
    if i < s.len() - 1 {
        let t = s.subrange(0, s.len() - 1);
        lemma_members_wf(t, n, i);
        assert(t[i] == s[i]);
    }
}

impl Geom {
    /// Whether every shape index in `self` is below `n`.
    pub fn shapes_below(&self, n: usize) -> (r: bool)
        ensures
            r == geom_wf(*self, n as nat),
        decreases self,
    {
        match self {
            Geom::Polygonal { shape } => *shape < n,
            Geom::Collection { members } => {
                let mut i: usize = 0;
                let mut ok = true;
                while i < members.len()
                    invariant
                        i <= members.len(),
                        *self == (Geom::Collection { members: *members }),
                        ok == members_wf(members@.subrange(0, i as int), n as nat),
                    decreases members.len() - i,
                {
                    proof {
                        assert(decreases_to!(self->members => self->members[i as int]));
                        assert(decreases_to!(*self => self->members));
                        lemma_prefix_step(members@, i as int);
                    }
                    let m = members[i].shapes_below(n);
                    ok = ok && m;
                    i = i + 1;
                }
                assert(members@.subrange(0, members@.len() as int) =~= members@);
                ok
            },
            Geom::Other => true,
        }
    }

    /// Whether the point lies in a polygonal geometry reachable from `self`.
    pub fn matches(&self, inside: &Vec<bool>) -> (r: bool)
        requires
            geom_wf(*self, inside@.len()),
        ensures
            r == geom_matches(*self, inside@),
        decreases self,
    {
        match self {
            Geom::Polygonal { shape } => inside[*shape],
            Geom::Collection { members } => {
                let mut i: usize = 0;
                let mut found = false;
                while i < members.len()
                    invariant
                        i <= members.len(),
                        *self == (Geom::Collection { members: *members }),
                        members_wf(members@, inside@.len()),
                        found == members_match(members@.subrange(0, i as int), inside@),
                    decreases members.len() - i,
                {
                    proof {
                        assert(decreases_to!(self->members => self->members[i as int]));
                        assert(decreases_to!(*self => self->members));
                        lemma_members_wf(members@, inside@.len(), i as int);
                        lemma_prefix_step(members@, i as int);
                    }
                    let m = members[i].matches(inside);
                    found = found || m;
                    i = i + 1;
                }
                assert(members@.subrange(0, members@.len() as int) =~= members@);
                found
            },
            Geom::Other => false,
        }
    }

    /// Appends to `out` the shapes reachable from `self`.
    pub fn collect_shapes(&self, out: &mut Vec<usize>)
        ensures
            final(out)@ == old(out)@ + geom_shapes(*self),
        decreases self,
    {
        match self {
            Geom::Polygonal { shape } => {
                out.push(*shape);
            },
            Geom::Collection { members } => {
                let mut i: usize = 0;
                while i < members.len()
                    invariant
                        i <= members.len(),
                        *self == (Geom::Collection { members: *members }),
                        out@ == old(out)@ + members_shapes(members@.subrange(0, i as int)),
                    decreases members.len() - i,
                {
                    proof {
                        assert(decreases_to!(self->members => self->members[i as int]));
                        assert(decreases_to!(*self => self->members));
                        lemma_prefix_step(members@, i as int);
                    }
                    members[i].collect_shapes(out);
                    proof {
                        let p = members_shapes(members@.subrange(0, i as int));
                        assert(out@ =~= old(out)@ + (p + geom_shapes(members@[i as int])));
                    }
                    i = i + 1;
                }
                assert(members@.subrange(0, members@.len() as int) =~= members@);
            },
            Geom::Other => {
                assert(out@ =~= old(out)@ + geom_shapes(*self));
            },
        }
    }
}

/// `f` has a geometry, and it contains the point.
pub open spec fn feature_matches(f: Feature, inside: Seq<bool>) -> bool {
    match f.geometry {
        Some(g) => geom_matches(g, inside),
        None => false,
    }
}

/// The geometry of `f`, if any, is well formed.
pub open spec fn feature_wf(f: Feature, n: nat) -> bool {
    match f.geometry {
        Some(g) => geom_wf(g, n),
        None => true,
    }
}

/// Every shape index in `d` is below `n`.
pub open spec fn doc_wf(d: Document, n: nat) -> bool {
    match d {
        Document::Geometry(g) => geom_wf(g, n),
        Document::Feature(f) => feature_wf(f, n),
        Document::FeatureCollection(fs) => forall|i: int|
            0 <= i < fs@.len() ==> feature_wf(#[trigger] fs@[i], n),
    }
}

/// The point lies in some polygonal geometry of `d`.
pub open spec fn doc_matches(d: Document, inside: Seq<bool>) -> bool {
    match d {
        Document::Geometry(g) => geom_matches(g, inside),
        Document::Feature(f) => feature_matches(f, inside),
        Document::FeatureCollection(fs) => exists|i: int|
            0 <= i < fs@.len() && feature_matches(#[trigger] fs@[i], inside),
    }
}

/// The positions, in order, of the features of `fs` that contain the point
/// and carry properties.
pub open spec fn property_matches(fs: Seq<Feature>, inside: Seq<bool>) -> Seq<usize>
    decreases fs.len(),
{
    if fs.len() == 0 {
        Seq::empty()
    } else {
        let last = fs[fs.len() - 1];
        let p = property_matches(fs.subrange(0, fs.len() - 1), inside);
        if feature_matches(last, inside) && last.has_properties {
            p.push((fs.len() - 1) as usize)
        } else {
            p
        }
    }
}

/// The positions of the features of `d` whose properties are reported for
/// the point; a bare geometry has none.
pub open spec fn doc_property_matches(d: Document, inside: Seq<bool>) -> Seq<usize> {
    match d {
        Document::Geometry(_) => Seq::empty(),
        Document::Feature(f) => if feature_matches(f, inside) && f.has_properties {
            seq![0usize]
        } else {
            Seq::empty()
        },
        Document::FeatureCollection(fs) => property_matches(fs@, inside),
    }
}

/// The shape that counts for area: a polygonal geometry standing directly
/// there; nothing under a collection.
pub open spec fn top_shape(g: Option<Geom>) -> Seq<usize> {
    match g {
        Some(Geom::Polygonal { shape }) => seq![shape],
        _ => Seq::empty(),
    }
}

/// The shapes of `fs` that count for area, in order.
pub open spec fn features_area_shapes(fs: Seq<Feature>) -> Seq<usize>
    decreases fs.len(),
{
    if fs.len() == 0 {
        Seq::empty()
    } else {
        features_area_shapes(fs.subrange(0, fs.len() - 1)) + top_shape(fs[fs.len() - 1].geometry)
    }
}

/// The shapes of `d` whose areas are summed.
pub open spec fn doc_area_shapes(d: Document) -> Seq<usize> {
    match d {
        Document::Geometry(g) => top_shape(Some(g)),
        Document::Feature(f) => top_shape(f.geometry),
        Document::FeatureCollection(fs) => features_area_shapes(fs@),
    }
}

/// The shapes reachable from the geometry of `f`.
pub open spec fn feature_shapes(f: Feature) -> Seq<usize> {
    match f.geometry {
        Some(g) => geom_shapes(g),
        None => Seq::empty(),
    }
}

/// The shapes reachable from the features of `fs`, in order.
pub open spec fn features_distance_shapes(fs: Seq<Feature>) -> Seq<usize>
    decreases fs.len(),
{
    if fs.len() == 0 {
        Seq::empty()
    } else {
        features_distance_shapes(fs.subrange(0, fs.len() - 1)) + feature_shapes(fs[fs.len() - 1])
    }
}

/// The shapes of `d` whose distances to the point are compared: those under
/// its features; a bare geometry offers none.
pub open spec fn doc_distance_shapes(d: Document) -> Seq<usize> {
    match d {
        Document::Geometry(_) => Seq::empty(),
        Document::Feature(f) => feature_shapes(f),
        Document::FeatureCollection(fs) => features_distance_shapes(fs@),
    }
}

impl Feature {
    /// Whether the feature has a geometry that contains the point.
    pub fn matches(&self, inside: &Vec<bool>) -> (r: bool)
        requires
            feature_wf(*self, inside@.len()),
        ensures
            r == feature_matches(*self, inside@),
    {
        match &self.geometry {
            Some(g) => g.matches(inside),
            None => false,
        }
    }

    /// The shape of the feature that counts for area, if any.
    pub fn area_shape(&self) -> (r: Option<usize>)
        ensures
            top_shape(self.geometry) == match r {
                Some(k) => seq![k],
                None => Seq::<usize>::empty(),
            },
    {
        match &self.geometry {
            Some(Geom::Polygonal { shape }) => Some(*shape),
            _ => None,
        }
    }
}

impl Document {
    /// Whether every shape index in the document is below `n`, as the
    /// queries that take one outcome per shape require.
    pub fn shapes_below(&self, n: usize) -> (r: bool)
        ensures
            r == doc_wf(*self, n as nat),
    {
        match self {
            Document::Geometry(g) => g.shapes_below(n),
            Document::Feature(f) => match &f.geometry {
                Some(g) => g.shapes_below(n),
                None => true,
            },
            Document::FeatureCollection(fs) => {
                let mut i: usize = 0;
                let mut ok = true;
                while ok && i < fs.len()
                    invariant
                        i <= fs.len(),
                        *self == Document::FeatureCollection(*fs),
                        ok == forall|j: int| 0 <= j < i ==> feature_wf(#[trigger] fs@[j], n as nat),
                    decreases fs.len() - i,
                {
                    ok = match &fs[i].geometry {
                        Some(g) => g.shapes_below(n),
                        None => true,
                    };
                    i = i + 1;
                }
                ok
            },
        }
    }

    /// Whether the point lies in a polygonal geometry of the document,
    /// where `inside[k]` tells whether shape `k` contains it.
    pub fn point_included(&self, inside: &Vec<bool>) -> (r: bool)
        requires
            doc_wf(*self, inside@.len()),
        ensures
            r == doc_matches(*self, inside@),
    {
        match self {
            Document::Geometry(g) => g.matches(inside),
            Document::Feature(f) => f.matches(inside),
            Document::FeatureCollection(fs) => {
                let mut i: usize = 0;
                let mut found = false;
                while !found && i < fs.len()
                    invariant
                        i <= fs.len(),
                        *self == Document::FeatureCollection(*fs),
                        forall|j: int| 0 <= j < fs@.len() ==> feature_wf(#[trigger] fs@[j], inside@.len()),
                        found == exists|j: int| 0 <= j < i && feature_matches(#[trigger] fs@[j], inside@),
                    decreases fs.len() - i,
                {
                    found = fs[i].matches(inside);
                    i = i + 1;
                }
                found
            },
        }
    }

    /// The positions of the features that contain the point and carry
    /// properties, in document order.
    pub fn point_included_with_properties(&self, inside: &Vec<bool>) -> (r: Vec<usize>)
        requires
            doc_wf(*self, inside@.len()),
        ensures
            r@ == doc_property_matches(*self, inside@),
    {
        let mut out: Vec<usize> = Vec::new();
        match self {
            Document::Geometry(_) => {},
            Document::Feature(f) => {
                if f.matches(inside) && f.has_properties {
                    out.push(0);
                }
            },
            Document::FeatureCollection(fs) => {
                let mut i: usize = 0;
                while i < fs.len()
                    invariant
                        i <= fs.len(),
                        *self == Document::FeatureCollection(*fs),
                        forall|j: int| 0 <= j < fs@.len() ==> feature_wf(#[trigger] fs@[j], inside@.len()),
                        out@ == property_matches(fs@.subrange(0, i as int), inside@),
                    decreases fs.len() - i,
                {
                    proof {
                        lemma_prefix_step(fs@, i as int);
                    }
                    assert(feature_wf(fs@[i as int], inside@.len()));
                    if fs[i].matches(inside) && fs[i].has_properties {
                        out.push(i);
                    }
                    i = i + 1;
                }
                assert(fs@.subrange(0, fs@.len() as int) =~= fs@);
            },
        }
        assert(out@ =~= doc_property_matches(*self, inside@));
        out
    }

    /// The shapes whose geodesic areas make up the document's area: each
    /// polygonal geometry that stands directly as a feature's geometry or as
    /// the document itself, in order.
    pub fn area_shapes(&self) -> (r: Vec<usize>)
        ensures
            r@ == doc_area_shapes(*self),
    {
        let mut out: Vec<usize> = Vec::new();
        match self {
            Document::Geometry(g) => {
                if let Geom::Polygonal { shape } = g {
                    out.push(*shape);
                }
            },
            Document::Feature(f) => {
                if let Some(k) = f.area_shape() {
                    out.push(k);
                }
            },
            Document::FeatureCollection(fs) => {
                let mut i: usize = 0;
                while i < fs.len()
                    invariant
                        i <= fs.len(),
                        *self == Document::FeatureCollection(*fs),
                        out@ == features_area_shapes(fs@.subrange(0, i as int)),
                    decreases fs.len() - i,
                {
                    proof {
                        lemma_prefix_step(fs@, i as int);
                    }
                    let ghost before = out@;
                    if let Some(k) = fs[i].area_shape() {
                        out.push(k);
                    }
                    assert(out@ =~= before + top_shape(fs@[i as int].geometry));
                    i = i + 1;
                }
                assert(fs@.subrange(0, fs@.len() as int) =~= fs@);
            },
        }
        assert(out@ =~= doc_area_shapes(*self));
        out
    }

    /// The shapes whose distances to the point are compared: every shape
    /// reachable from a feature's geometry, through collections at any
    /// depth, in order; none for a bare geometry.
    pub fn distance_shapes(&self) -> (r: Vec<usize>)
        ensures
            r@ == doc_distance_shapes(*self),
    {
        let mut out: Vec<usize> = Vec::new();
        match self {
            Document::Geometry(_) => {},
            Document::Feature(f) => {
                if let Some(g) = &f.geometry {
                    g.collect_shapes(&mut out);
                }
            },
            Document::FeatureCollection(fs) => {
                let mut i: usize = 0;
                while i < fs.len()
                    invariant
                        i <= fs.len(),
                        *self == Document::FeatureCollection(*fs),
                        out@ == features_distance_shapes(fs@.subrange(0, i as int)),
                    decreases fs.len() - i,
                {
                    proof {
                        lemma_prefix_step(fs@, i as int);
                    }
                    let ghost before = out@;
                    if let Some(g) = &fs[i].geometry {
                        g.collect_shapes(&mut out);
                    }
                    assert(out@ =~= before + feature_shapes(fs@[i as int]));
                    i = i + 1;
                }
                assert(fs@.subrange(0, fs@.len() as int) =~= fs@);
            },
        }
        assert(out@ =~= doc_distance_shapes(*self));
        out
    }
}

} // verus!
