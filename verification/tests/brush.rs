use playform::fixed::{Fraci8, Fracu8};
use playform::surface_vertex::{Normal, SurfaceStruct, Vertex, T};

fn surface<M>(corner: M) -> SurfaceStruct<M> {
    SurfaceStruct {
        surface_vertex: Vertex { x: Fracu8::of(10), y: Fracu8::of(20), z: Fracu8::of(30) },
        normal: Normal { x: Fraci8::of(0), y: Fraci8::of(127), z: Fraci8::of(0) },
        corner,
    }
}

#[test]
fn empty_sample_leaves_leaf() {
    let mut leaf: T<u8> = T::Volume(4);
    leaf.brush(T::Volume(None), Some(9));
    assert_eq!(leaf, T::Volume(4));
    let mut leaf: T<u8> = T::Surface(surface(5));
    leaf.brush(T::Volume(None), None);
    assert_eq!(leaf, T::Surface(surface(5)));
}

#[test]
fn volume_sample_replaces_leaf() {
    let mut leaf: T<u8> = T::Surface(surface(5));
    leaf.brush(T::Volume(Some(8)), None);
    assert_eq!(leaf, T::Volume(8));
}

#[test]
fn surface_sample_takes_brush_corner() {
    let mut leaf: T<u8> = T::Volume(4);
    leaf.brush(T::Surface(surface(None)), Some(6));
    assert_eq!(leaf, T::Surface(surface(6)));
}

#[test]
fn surface_sample_keeps_leaf_corner() {
    let mut leaf: T<u8> = T::Volume(4);
    leaf.brush(T::Surface(surface(Some(1))), None);
    assert_eq!(leaf, T::Surface(surface(4)));
    let mut leaf: T<u8> = T::Surface(surface(3));
    leaf.brush(T::Surface(surface(None)), None);
    assert_eq!(leaf, T::Surface(surface(3)));
}

#[test]
fn brushing_twice_is_brushing_once() {
    let samples: [T<Option<u8>>; 4] =
        [T::Volume(None), T::Volume(Some(2)), T::Surface(surface(None)), T::Surface(surface(Some(7)))];
    let leaves: [T<u8>; 2] = [T::Volume(1), T::Surface(surface(9))];
    for s in samples.iter() {
        for low in [None, Some(3u8)] {
            for l in leaves.iter() {
                let mut once = *l;
                once.brush(*s, low);
                let mut twice = once;
                twice.brush(*s, low);
                assert_eq!(once, twice);
            }
        }
    }
}
