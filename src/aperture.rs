use vstd::prelude::*;

verus! {

/// A scale of one, in thousandths: scales are whole numbers of thousandths.
pub const SCALE_ONE: u32 = 1000;

/// A tool shape; every dimension is in millionths of the document unit.
#[derive(Clone, Debug, PartialEq, Eq)]
pub enum Aperture {
    Circle { diameter: u64 },
    Rectangle { width: u64, height: u64 },
    Obround { width: u64, height: u64 },
    Polygon { diameter: u64, vertices: u32 },
    Macro { name: String },
}

/// Half the stroke that a path drawn with aperture `a` is given, in document steps.
///
/// Only a circle gives a stroke: its diameter at the scale, `d * scale / 1000`
/// millionths or `4 * d * scale` steps, doubled when the scale is above one
/// and halved when it is below one.
pub open spec fn half_stroke(a: Aperture, scale: u32) -> int {
    match a {
        Aperture::Circle { diameter } => {
            let ds = (diameter as int) * (scale as int);
            if scale > 1000 {
                4 * ds
            } else if scale < 1000 {
                ds
            } else {
                2 * ds
            }
        },
        _ => 0,
    }
}

/// Does a path drawn with `a` get a stroke at all?
pub open spec fn strokes(a: Aperture) -> bool {
    a is Circle
}

pub proof fn lemma_dim_product_bound(d: u64, scale: u32)
    ensures
        0 <= (d as int) * (scale as int) <= 0x1_0000_0000_0000_0000_0000_0000,
{
    assert(0 <= (d as int) * (scale as int) <= 0x1_0000_0000_0000_0000_0000_0000)
        by (nonlinear_arith)
        requires
            0 <= d <= 0xffff_ffff_ffff_ffff,
            0 <= scale <= 0xffff_ffff,
    ;
}

/// `d * scale`, exact.
pub fn mul_dim(d: u64, scale: u32) -> (r: i128)
    ensures
        r == (d as int) * (scale as int),
        0 <= r <= 0x1_0000_0000_0000_0000_0000_0000,
{
    proof {
        lemma_dim_product_bound(d, scale);
    }
    (d as i128) * (scale as i128)
}

/// Half the stroke of a path drawn with `a` at `scale`, in document steps.
pub fn path_half_stroke(a: &Aperture, scale: u32) -> (r: i128)
    ensures
        r == half_stroke(*a, scale),
        0 <= r <= 4 * 0x1_0000_0000_0000_0000_0000_0000,
{
    match a {
        Aperture::Circle { diameter } => {
            let ds = mul_dim(*diameter, scale);
            if scale > SCALE_ONE {
                4 * ds
            } else if scale < SCALE_ONE {
                ds
            } else {
                2 * ds
            }
        },
        _ => 0,
    }
}

/// Finds the first entry of `apertures` from index `i` on whose id is `id`.
pub open spec fn index_from(apertures: Seq<(i32, Aperture)>, id: i32, i: int) -> Option<int>
    decreases apertures.len() - i,
{
    if i < 0 || i >= apertures.len() {
        None
    } else if apertures[i].0 == id {
        Some(i)
    } else {
        index_from(apertures, id, i + 1)
    }
}

/// Each id stands in the dictionary at most once.
pub open spec fn ids_unique(apertures: Seq<(i32, Aperture)>) -> bool {
    forall|i: int, j: int|
        0 <= i < apertures.len() && 0 <= j < apertures.len() && #[trigger] apertures[i].0
            == #[trigger] apertures[j].0 ==> i == j
}

/// The index of the aperture with id `id` in the dictionary, if any.
pub open spec fn aperture_index(apertures: Seq<(i32, Aperture)>, id: i32) -> Option<int> {
    index_from(apertures, id, 0)
}

pub proof fn lemma_index_from_in_range(apertures: Seq<(i32, Aperture)>, id: i32, i: int)
    requires
        0 <= i,
    ensures
        index_from(apertures, id, i) matches Some(k) ==> (i <= k < apertures.len()
            && apertures[k].0 == id),
        index_from(apertures, id, i) is None <==> forall|j: int|
            i <= j < apertures.len() ==> (#[trigger] apertures[j]).0 != id,
    decreases apertures.len() - i,
{
    if 0 <= i < apertures.len() && apertures[i].0 != id {
        lemma_index_from_in_range(apertures, id, i + 1);
    }
}

/// Looks up `id` in the aperture dictionary.
pub fn find_aperture(apertures: &Vec<(i32, Aperture)>, id: i32) -> (r: Option<usize>)
    ensures
        r is None <==> aperture_index(apertures@, id) is None,
        r matches Some(k) ==> aperture_index(apertures@, id) == Some(k as int),
        r matches Some(k) ==> k < apertures@.len() && apertures@[k as int].0 == id,
        r is None <==> forall|j: int|
            0 <= j < apertures@.len() ==> (#[trigger] apertures@[j]).0 != id,
{
    proof {
        lemma_index_from_in_range(apertures@, id, 0);
    }
    let mut i: usize = 0;
    while i < apertures.len()
        invariant
            i <= apertures@.len(),
            aperture_index(apertures@, id) == index_from(apertures@, id, i as int),
        decreases apertures@.len() - i,
    {
        if apertures[i].0 == id {
            return Some(i);
        }
        i = i + 1;
    }
    None
}

} // verus!
