//! Properties of the queries, stated over the specifications of the model.
use vstd::prelude::*;
use crate::model::{
    Document, Feature, Geom, doc_matches, doc_property_matches, feature_matches,
    features_area_shapes, features_distance_shapes, members_shapes, property_matches,
};

verus! {

/// A document made of one polygonal shape, bare or as the geometry of a
/// feature, includes exactly the points that the shape contains.
pub proof fn lemma_single_shape_document(shape: usize, has_properties: bool, inside: Seq<bool>)
    requires
        shape < inside.len(),
    ensures
        doc_matches(Document::Geometry(Geom::Polygonal { shape }), inside) == inside[shape as int],
        doc_matches(
            Document::Feature(Feature { geometry: Some(Geom::Polygonal { shape }), has_properties }),
            inside,
        ) == inside[shape as int],
{
}

/// A document that is a geometry of a kind other than a polygon or a
/// collection, such as a point, never includes a point.
pub proof fn lemma_other_kinds_never_match(inside: Seq<bool>)
    ensures
        !doc_matches(Document::Geometry(Geom::Other), inside),
        !doc_matches(
            Document::Feature(Feature { geometry: Some(Geom::Other), has_properties: true }),
            inside,
        ),
{
}

/// The positions reported with properties are exactly those of the features
/// that contain the point and carry properties, each once, in increasing
/// order.
pub proof fn lemma_property_matches_exact(fs: Seq<Feature>, inside: Seq<bool>)
    requires
        fs.len() <= usize::MAX,
    ensures
        forall|i: int|
            0 <= i < fs.len() ==> (property_matches(fs, inside).contains(i as usize) <==> (
            feature_matches(#[trigger] fs[i], inside) && fs[i].has_properties)),
        forall|j: int|
            0 <= j < property_matches(fs, inside).len() ==> #[trigger] property_matches(
                fs,
                inside,
            )[j] < fs.len(),
        forall|j: int, k: int|
            0 <= j < k < property_matches(fs, inside).len() ==> #[trigger] property_matches(
                fs,
                inside,
            )[j] < #[trigger] property_matches(fs, inside)[k],
    decreases fs.len(),
{
    if fs.len() > 0 {
        let n = fs.len() - 1;
        let t = fs.subrange(0, n);
        lemma_property_matches_exact(t, inside);
        let p = property_matches(t, inside);
        let q = property_matches(fs, inside);
        let hit = feature_matches(fs[n], inside) && fs[n].has_properties;
        if hit {
            assert(q == p.push(n as usize));
        } else {
            assert(q == p);
        }
        assert forall|i: int| 0 <= i < fs.len() implies (q.contains(i as usize) <==> (
        feature_matches(#[trigger] fs[i], inside) && fs[i].has_properties)) by {
            if i < n {
                assert(t[i] == fs[i]);
                if hit {
                    if q.contains(i as usize) {
                        let j = choose|j: int| 0 <= j < q.len() && q[j] == i as usize;
                        assert(j < p.len());
                        assert(p[j] == q[j]);
                    }
                    if p.contains(i as usize) {
                        let j = choose|j: int| 0 <= j < p.len() && p[j] == i as usize;
                        assert(q[j] == p[j]);
                    }
                }
            } else {
                if q.contains(i as usize) && !hit {
                    let j = choose|j: int| 0 <= j < q.len() && q[j] == i as usize;
                    assert(p[j] < t.len());
                }
                if hit {
                    assert(q[q.len() - 1] == i as usize);
                }
            }
        }
    }
}

/// Area counts a polygonal shape that stands directly as a feature's
/// geometry, and nothing that a collection holds: appending a feature whose
/// geometry is a collection leaves the counted shapes as they were, while
/// appending one whose geometry is the shape itself adds that shape.
pub proof fn lemma_area_skips_collections(
    fs: Seq<Feature>,
    members: Vec<Geom>,
    shape: usize,
    has_properties: bool,
)
    ensures
        features_area_shapes(
            fs.push(Feature { geometry: Some(Geom::Collection { members }), has_properties }),
        ) == features_area_shapes(fs),
        features_area_shapes(
            fs.push(Feature { geometry: Some(Geom::Polygonal { shape }), has_properties }),
        ) == features_area_shapes(fs).push(shape),
{
    let c = fs.push(Feature { geometry: Some(Geom::Collection { members }), has_properties });
    let d = fs.push(Feature { geometry: Some(Geom::Polygonal { shape }), has_properties });
    assert(c.subrange(0, fs.len() as int) =~= fs);
    assert(d.subrange(0, fs.len() as int) =~= fs);
    assert(features_area_shapes(c) =~= features_area_shapes(fs));
    assert(features_area_shapes(d) =~= features_area_shapes(fs).push(shape));
}

/// A document that reports the properties of some feature for a point
/// includes that point.
pub proof fn lemma_properties_imply_included(d: Document, inside: Seq<bool>)
    requires
        d is FeatureCollection ==> d->FeatureCollection_0@.len() <= usize::MAX,
        doc_property_matches(d, inside).len() > 0,
    ensures
        doc_matches(d, inside),
{
    if let Document::FeatureCollection(fs) = d {
        lemma_property_matches_exact(fs@, inside);
        let q = property_matches(fs@, inside);
        let i = q[0] as int;
        assert(q.contains(q[0]));
        assert(feature_matches(fs@[i], inside));
    }
}

/// Unlike area, distance reaches into collections: appending a feature whose
/// geometry is a collection adds every shape that the collection holds, at
/// any depth, in order.
pub proof fn lemma_distance_reaches_collections(
    fs: Seq<Feature>,
    members: Vec<Geom>,
    has_properties: bool,
)
    ensures
        features_distance_shapes(
            fs.push(Feature { geometry: Some(Geom::Collection { members }), has_properties }),
        ) == features_distance_shapes(fs) + members_shapes(members@),
{
    let c = fs.push(Feature { geometry: Some(Geom::Collection { members }), has_properties });
    assert(c.subrange(0, fs.len() as int) =~= fs);
}

} // verus!
