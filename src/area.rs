//! The playable zones.
use vstd::prelude::*;

verus! {

/// A playable zone, chosen on the area menu.
#[derive(Clone, Copy, Debug, PartialEq, Eq, Structural, Hash, Default)]
pub enum Area {
    #[default]
    Cave,
}

/// Every area, in the order the area menu lists them.
pub open spec fn all_areas_spec() -> Seq<Area> {
    seq![Area::Cave]
}

impl Area {
    /// The name shown on the area's button.
    pub open spec fn label_spec(self) -> Seq<char> {
        match self {
            Area::Cave => "Cave"@,
        }
    }

    /// Every area, in the order the area menu lists them.
    pub fn all() -> (r: Vec<Area>)
        ensures
            r@ == all_areas_spec(),
            forall|a: Area| all_areas_spec().contains(a),
    {
        let r = vec![Area::Cave];
        proof {
            assert forall|a: Area| all_areas_spec().contains(a) by {
                assert(all_areas_spec()[0] == a);
            };
        }
        r
    }

    /// The name shown on the area's button.
    pub fn label(&self) -> (r: &'static str)
        ensures
            r@ == self.label_spec(),
    {
        proof {
            reveal_strlit("Cave");
        }
        match self {
            Area::Cave => "Cave",
        }
    }
}

} // verus!
