//! Placeholders of the tick-counting model.

use vstd::prelude::*;
use crate::cells::Pos;
use crate::level::components::update_component::UpdateComponent;
use crate::tile::Tile;

verus! {

/// What a placeholder at `src` with clock `uc` asks for: once the first
/// count of its clock has run out, its cell is empty.
pub open spec fn transitory_updates(src: Pos, uc: UpdateComponent) -> Option<Seq<(Pos, Tile)>> {
    if uc.0 == 0 {
        Some(seq![(src, Tile::Empty)])
    } else {
        None
    }
}

pub fn transitory_system(src: (usize, usize), update_component: &UpdateComponent) -> (r: Option<
    Vec<((usize, usize), Tile)>,
>)
    ensures
        r is Some == transitory_updates(src, *update_component) is Some,
        r matches Some(v) ==> Some(v@) == transitory_updates(src, *update_component),
{
    if update_component.0 == 0 {
        let mut updates: Vec<((usize, usize), Tile)> = Vec::new();
        updates.push((src, Tile::Empty));
        proof {
            assert(updates@ =~= seq![(src, Tile::Empty)]);
        }
        return Some(updates);
    }
    None
}

} // verus!
