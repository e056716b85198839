//! Directional focus navigation over the buttons of a screen.
use bevy::ecs::entity::Entity;
use bevy::input_focus::directional_navigation::DirectionalNavigationMap;
use bevy::math::CompassOctant;
use vstd::prelude::*;

verus! {

/// bevy's `DirectionalNavigationMap`, the store of the focus graph's edges;
/// opaque here, read through `nav_edges`.
#[verifier::external_type_specification]
#[verifier::external_body]
pub struct ExDirectionalNavigationMap(DirectionalNavigationMap);

/// bevy's `CompassOctant`, the eight directions of navigation; a plain enum
/// whose variants are visible here.
#[verifier::external_type_specification]
pub struct ExCompassOctant(CompassOctant);

/// The slot of a direction in a neighbour table.
pub open spec fn slot(d: CompassOctant) -> u8 {
    match d {
        CompassOctant::North => 0,
        CompassOctant::NorthEast => 1,
        CompassOctant::East => 2,
        CompassOctant::SouthEast => 3,
        CompassOctant::South => 4,
        CompassOctant::SouthWest => 5,
        CompassOctant::West => 6,
        CompassOctant::NorthWest => 7,
    }
}

/// The direction half a turn away.
pub open spec fn opposite(d: CompassOctant) -> CompassOctant {
    match d {
        CompassOctant::North => CompassOctant::South,
        CompassOctant::NorthEast => CompassOctant::SouthWest,
        CompassOctant::East => CompassOctant::West,
        CompassOctant::SouthEast => CompassOctant::NorthWest,
        CompassOctant::South => CompassOctant::North,
        CompassOctant::SouthWest => CompassOctant::NorthEast,
        CompassOctant::West => CompassOctant::East,
        CompassOctant::NorthWest => CompassOctant::SouthEast,
    }
}

/// The edges that a navigation map holds: (element, direction slot) to the
/// neighbouring element. Elements are entities made from their index.
pub uninterp spec fn nav_edges(m: DirectionalNavigationMap) -> Map<(u32, u8), u32>;

/// Every element of `ids` has its next one (wrapping round) as neighbour in
/// direction `d`, and its previous one (wrapping round) in the opposite direction.
pub open spec fn looping_over(edges: Map<(u32, u8), u32>, ids: Seq<u32>, d: CompassOctant) -> bool {
    &&& forall|i: int| #![trigger edges[(ids[i], slot(d))]]
        0 <= i < ids.len() ==> {
            &&& edges.dom().contains((ids[i], slot(d)))
            &&& edges[(ids[i], slot(d))] == ids[(i + 1) % (ids.len() as int)]
        }
    &&& forall|i: int| #![trigger edges[(ids[i], slot(opposite(d)))]]
        0 <= i < ids.len() ==> {
            &&& edges.dom().contains((ids[i], slot(opposite(d))))
            &&& edges[(ids[i], slot(opposite(d)))] == ids[(i + ids.len() - 1) % (ids.len() as int)]
        }
}

/// `ids` form a cycle in direction `d`: for two or more elements, the cycle
/// that `add_looping_edges` builds; for a single element, one with no edge
/// leaving it in direction `d` or its opposite, so that moving is a no-op.
pub open spec fn cycle_over(edges: Map<(u32, u8), u32>, ids: Seq<u32>, d: CompassOctant) -> bool {
    &&& ids.len() >= 2 ==> looping_over(edges, ids, d)
    &&& ids.len() == 1 ==> !edges.dom().contains((ids[0], slot(d))) && !edges.dom().contains((ids[0], slot(opposite(d))))
}

/// `after` and `before` hold the same edges, except those leaving an element of `ids`
/// in direction `d` or in its opposite.
pub open spec fn same_outside(after: Map<(u32, u8), u32>, before: Map<(u32, u8), u32>, ids: Seq<u32>, d: CompassOctant) -> bool {
    forall|k: (u32, u8)|
        !(ids.contains(k.0) && (k.1 == slot(d) || k.1 == slot(opposite(d)))) ==> {
            &&& (#[trigger] after.dom().contains(k)) == before.dom().contains(k)
            &&& before.dom().contains(k) ==> after[k] == before[k]
        }
}

/// The edge set with element `id` taken out, together with every edge to it.
pub open spec fn without_element(edges: Map<(u32, u8), u32>, id: u32) -> Map<(u32, u8), u32> {
    Map::new(|k: (u32, u8)| edges.dom().contains(k) && k.0 != id && edges[k] != id, |k: (u32, u8)| edges[k])
}

/// Relies on `DirectionalNavigationMap::default`: a map without edges.
#[verifier::external_body]
fn nav_map_new() -> (r: DirectionalNavigationMap)
    ensures
        forall|k: (u32, u8)| !nav_edges(r).dom().contains(k),
{
    DirectionalNavigationMap::default()
}

/// Relies on `DirectionalNavigationMap::add_looping_edges`: symmetric edges
/// between consecutive entities, and from the last back to the first, each
/// overwriting the edge it replaces; nothing is added for fewer than two.
#[verifier::external_body]
fn nav_add_looping_edges(m: &mut DirectionalNavigationMap, ids: &Vec<u32>, d: CompassOctant)
    requires
        ids@.no_duplicates(),
    ensures
        ids@.len() < 2 ==> nav_edges(*final(m)) == nav_edges(*old(m)),
        ids@.len() >= 2 ==> looping_over(nav_edges(*final(m)), ids@, d),
        ids@.len() >= 2 ==> same_outside(nav_edges(*final(m)), nav_edges(*old(m)), ids@, d),
{
    let entities: Vec<Entity> = ids.iter().map(|i| Entity::from_raw(*i)).collect();
    m.add_looping_edges(&entities, d);
}

/// Relies on `DirectionalNavigationMap::get_neighbor`: the edge leaving `id`
/// in direction `d`, if there is one.
#[verifier::external_body]
fn nav_get_neighbor(m: &DirectionalNavigationMap, id: u32, d: CompassOctant) -> (r: Option<u32>)
    ensures
        r == (if nav_edges(*m).dom().contains((id, slot(d))) {
            Some(nav_edges(*m)[(id, slot(d))])
        } else {
            None
        }),
{
    m.get_neighbor(Entity::from_raw(id), d).map(|e| e.index())
}

/// Relies on `DirectionalNavigationMap::remove`: the entity loses its own edges
/// and every edge that led to it.
#[verifier::external_body]
fn nav_remove(m: &mut DirectionalNavigationMap, id: u32)
    ensures
        nav_edges(*final(m)) == without_element(nav_edges(*old(m)), id),
{
    m.remove(Entity::from_raw(id));
}

/// Navigation was asked for while no element held focus.
#[derive(Clone, Copy, Debug, PartialEq, Eq, Structural)]
pub struct NoFocusError;

/// The neighbour structure of the elements of a screen, and which of them holds focus.
pub struct FocusGraph {
    map: DirectionalNavigationMap,
    focus: Option<u32>,
}

/// Where focus lands after one move from `from` in direction `d`: the
/// neighbour there, or `from` itself at a dead end.
pub open spec fn step(edges: Map<(u32, u8), u32>, from: u32, d: CompassOctant) -> u32 {
    if edges.dom().contains((from, slot(d))) {
        edges[(from, slot(d))]
    } else {
        from
    }
}

/// Where focus lands after `n` moves from `from` in direction `d`.
pub open spec fn walk(edges: Map<(u32, u8), u32>, from: u32, d: CompassOctant, n: nat) -> u32
    decreases n,
{
    if n == 0 {
        from
    } else {
        walk(edges, step(edges, from, d), d, (n - 1) as nat)
    }
}

impl FocusGraph {
    /// The edges of the graph.
    pub closed spec fn edges(&self) -> Map<(u32, u8), u32> {
        nav_edges(self.map)
    }

    /// The element holding focus, if any.
    pub closed spec fn focus_spec(&self) -> Option<u32> {
        self.focus
    }

    /// A graph without elements, and without focus.
    pub fn new() -> (r: FocusGraph)
        ensures
            forall|k: (u32, u8)| !r.edges().dom().contains(k),
            r.focus_spec() is None,
    {
        FocusGraph { map: nav_map_new(), focus: None }
    }

    /// The element holding focus, if any.
    pub fn focused(&self) -> (r: Option<u32>)
        ensures
            r == self.focus_spec(),
    {
        self.focus
    }

    /// Gives focus to `id`, whatever held it before.
    pub fn set_focus(&mut self, id: u32)
        ensures
            final(self).focus_spec() == Some(id),
            final(self).edges() == old(self).edges(),
    {
        self.focus = Some(id);
    }

    /// The neighbour of `id` in direction `d`, if there is one.
    pub fn neighbor(&self, id: u32, d: CompassOctant) -> (r: Option<u32>)
        ensures
            r == (if self.edges().dom().contains((id, slot(d))) {
                Some(self.edges()[(id, slot(d))])
            } else {
                None
            }),
    {
        nav_get_neighbor(&self.map, id, d)
    }

    /// Links `ids`, in order, into a cycle: each one's neighbour in direction
    /// `d` is the next (the last's is the first), and in the opposite
    /// direction the previous one. Fewer than two elements get no edges.
    pub fn add_looping_edges(&mut self, ids: &Vec<u32>, d: CompassOctant)
        requires
            ids@.no_duplicates(),
        ensures
            ids@.len() < 2 ==> final(self).edges() == old(self).edges(),
            ids@.len() >= 2 ==> looping_over(final(self).edges(), ids@, d),
            ids@.len() >= 2 ==> same_outside(final(self).edges(), old(self).edges(), ids@, d),
            final(self).focus_spec() == old(self).focus_spec(),
    {
        nav_add_looping_edges(&mut self.map, ids, d);
    }

    /// Takes element `id` out of the graph, with every edge to or from it;
    /// if it held focus, no element holds focus afterwards.
    pub fn remove(&mut self, id: u32)
        ensures
            final(self).edges() == without_element(old(self).edges(), id),
            final(self).focus_spec() == (if old(self).focus_spec() == Some(id) {
                None
            } else {
                old(self).focus_spec()
            }),
    {
        nav_remove(&mut self.map, id);
        if self.focus == Some(id) {
            self.focus = None;
        }
    }

    /// Moves focus to its neighbour in direction `d`. At a dead end focus
    /// stays where it is; without focus nothing changes and the call fails.
    pub fn navigate(&mut self, d: CompassOctant) -> (r: Result<(), NoFocusError>)
        ensures
            final(self).edges() == old(self).edges(),
            old(self).focus_spec() is None ==> r is Err && final(self).focus_spec() is None,
            old(self).focus_spec() matches Some(f) ==> r is Ok
                && final(self).focus_spec() == Some(step(old(self).edges(), f, d)),
    {
        match self.focus {
            None => Err(NoFocusError),
            Some(f) => {
                match nav_get_neighbor(&self.map, f, d) {
                    Some(n) => {
                        self.focus = Some(n);
                    },
                    None => {},
                }
                Ok(())
            },
        }
    }
}

/// Turns the keys pressed this frame into a move of focus: up moves north,
/// else down moves south, else nothing moves.
pub fn navigate(graph: &mut FocusGraph, up: bool, down: bool) -> (r: Result<(), NoFocusError>)
    ensures
        final(graph).edges() == old(graph).edges(),
        !up && !down ==> r is Ok && final(graph).focus_spec() == old(graph).focus_spec(),
        (up || down) && old(graph).focus_spec() is None ==> r is Err && final(graph).focus_spec() is None,
        (up || down) ==> (old(graph).focus_spec() matches Some(f) ==> r is Ok
            && final(graph).focus_spec() == Some(step(old(graph).edges(), f, if up { CompassOctant::North } else { CompassOctant::South }))),
{
    if up {
        graph.navigate(CompassOctant::North)
    } else if down {
        graph.navigate(CompassOctant::South)
    } else {
        Ok(())
    }
}

/// On a vertical cycle over `ids`, one move north or south from an element
/// of the cycle lands on an element of the cycle.
pub proof fn lemma_step_stays_in_cycle(edges: Map<(u32, u8), u32>, ids: Seq<u32>, f: u32, d: CompassOctant)
    requires
        cycle_over(edges, ids, CompassOctant::South),
        ids.contains(f),
        d == CompassOctant::North || d == CompassOctant::South,
    ensures
        ids.contains(step(edges, f, d)),
{
    let n = ids.len() as int;
    let i = choose|i: int| 0 <= i < n && ids[i] == f;
    if n == 1 {
        assert(i == 0);
        assert(step(edges, f, d) == f);
    } else if d == CompassOctant::South {
        assert(edges[(ids[i], slot(CompassOctant::South))] == ids[(i + 1) % n]);
        vstd::arithmetic::div_mod::lemma_mod_pos_bound(i + 1, n);
        assert(ids[(i + 1) % n] == ids[(i + 1) % n]);
    } else {
        assert(edges[(ids[i], slot(opposite(CompassOctant::South)))] == ids[(i + n - 1) % n]);
        vstd::arithmetic::div_mod::lemma_mod_pos_bound(i + n - 1, n);
    }
}

/// On a cycle built by `add_looping_edges`, `j` moves in the cycle's direction
/// from the element at position `k` land on the element `j` places further on,
/// wrapping round.
pub proof fn lemma_walk_along_cycle(edges: Map<(u32, u8), u32>, ids: Seq<u32>, d: CompassOctant, k: int, j: nat)
    requires
        ids.len() >= 2,
        looping_over(edges, ids, d),
        0 <= k < ids.len(),
    ensures
        walk(edges, ids[k], d, j) == ids[(k + j) % (ids.len() as int)],
    decreases j,
{
    let n = ids.len() as int;
    if j == 0 {
        vstd::arithmetic::div_mod::lemma_small_mod(k as nat, n as nat);
    } else {
        let k2 = if k + 1 == n { 0 } else { k + 1 };
        assert((k + 1) % n == k2) by {
            if k + 1 == n {
                vstd::arithmetic::div_mod::lemma_mod_self_0(n);
            } else {
                vstd::arithmetic::div_mod::lemma_small_mod((k + 1) as nat, n as nat);
            }
        };
        assert(edges[(ids[k], slot(d))] == ids[(k + 1) % n]);
        assert(step(edges, ids[k], d) == ids[k2]);
        lemma_walk_along_cycle(edges, ids, d, k2, (j - 1) as nat);
        if k + 1 == n {
            vstd::arithmetic::div_mod::lemma_mod_add_multiples_vanish(j - 1, n);
            assert(k + j == n + (j - 1));
        }
    }
}

/// Cycle closure: on a cycle of `n` elements, `n` moves in the cycle's
/// direction bring focus back to where it started.
pub proof fn lemma_cycle_closure(edges: Map<(u32, u8), u32>, ids: Seq<u32>, d: CompassOctant, k: int)
    requires
        cycle_over(edges, ids, d),
        0 <= k < ids.len(),
    ensures
        walk(edges, ids[k], d, ids.len()) == ids[k],
{
    let n = ids.len() as int;
    if n == 1 {
        assert(k == 0);
        assert(step(edges, ids[0], d) == ids[0]);
        assert(walk(edges, ids[0], d, 0) == ids[0]);
        assert(walk(edges, ids[0], d, 1) == walk(edges, ids[0], d, 0));
    } else {
        lemma_walk_along_cycle(edges, ids, d, k, ids.len());
        vstd::arithmetic::div_mod::lemma_mod_add_multiples_vanish(k, n);
        vstd::arithmetic::div_mod::lemma_small_mod(k as nat, n as nat);
    }
}

} // verus!
