use vstd::prelude::*;

use crate::bounding_box::BoundingBox;
use crate::geometry::GeometryObject;

verus! {

/// The union of a box with the bounding box of every primitive in a
/// sequence, in order.
pub open spec fn fold_boxes(bb: BoundingBox, objs: Seq<GeometryObject>) -> BoundingBox
    decreases objs.len(),
{
    if objs.len() == 0 {
        bb
    } else {
        fold_boxes(bb, objs.drop_last()).spec_add_box(objs.last().spec_bounding_box())
    }
}

/// A scene: the primitives of one loaded document, in insertion order.
#[derive(Debug)]
pub struct Drawing {
    objects: Vec<GeometryObject>,
}

impl View for Drawing {
    type V = Seq<GeometryObject>;

    closed spec fn view(&self) -> Seq<GeometryObject> {
        self.objects@
    }
}

impl Drawing {
    pub fn new() -> (d: Drawing)
        ensures
            d@ == Seq::<GeometryObject>::empty(),
    {
        Drawing { objects: Vec::new() }
    }

    pub fn from_obs(objects: Vec<GeometryObject>) -> (d: Drawing)
        ensures
            d@ == objects@,
    {
        Drawing { objects }
    }

    pub fn add_object(&mut self, obj: GeometryObject)
        ensures
            final(self)@ == old(self)@.push(obj),
    {
        self.objects.push(obj)
    }

    /// The primitives, for a rendering layer to walk.
    pub fn objects(&self) -> (r: &Vec<GeometryObject>)
        ensures
            r@ == self@,
    {
        &self.objects
    }

    /// The bounding box of the whole scene: every primitive's box folded
    /// into one, seeded with the null identity.
    pub fn calc_bounding_box(&self) -> (bb: BoundingBox)
        ensures
            bb == fold_boxes(BoundingBox::spec_null(), self@),
    {
        let mut bb = BoundingBox::null();
        let n: usize = self.objects.len();
        let mut k: usize = 0;
        while k < n
            invariant
                n == self@.len(),
                bb == fold_boxes(BoundingBox::spec_null(), self@.take(k as int)),
                k <= n,
            decreases n - k,
        {
            let cur = self.objects[k].bounding_box();
            bb.add_assign_box(cur);
            proof {
                assert(self@.take(k + 1 as int).drop_last() =~= self@.take(k as int));
                assert(self@.take(k + 1 as int).last() == self@[k as int]);
            }
            k = k + 1;
        }
        proof {
            assert(self@.take(n as int) =~= self@);
        }
        bb
    }
}

} // verus!
