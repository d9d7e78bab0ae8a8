//! The screen-link graph, apart from geometry: which screen a link leads to,
//! from which side, and the link that leads back.
//!
//! Two screens whose edges touch are linked both ways (A's right edge to B's
//! left edge, and B's left edge to A's right edge). Where the edges are and how
//! much of them overlaps is measured in the layout editor's coordinates; here
//! a link is only its two ends.
use crate::state::Side;
use vstd::prelude::*;

verus! {

/// The ends of a link between two screens: leaving `from_screen` through
/// `from_side` enters `to_screen` through `to_side`.
#[derive(Debug, Clone, Copy, PartialEq, Eq, Structural)]
pub struct LinkEnds {
    pub from_screen: usize,
    pub from_side: Side,
    pub to_screen: usize,
    pub to_side: Side,
}

/// The side facing `side` on a neighbouring screen.
pub open spec fn spec_opposite(side: Side) -> Side {
    match side {
        Side::Left => Side::Right,
        Side::Right => Side::Left,
        Side::Top => Side::Bottom,
        Side::Bottom => Side::Top,
    }
}

/// The same link walked the other way.
pub open spec fn reversed(l: LinkEnds) -> LinkEnds {
    LinkEnds {
        from_screen: l.to_screen,
        from_side: l.to_side,
        to_screen: l.from_screen,
        to_side: l.from_side,
    }
}

/// Every link in the list has its reverse in the list too.
pub open spec fn bidirectional(links: Seq<LinkEnds>) -> bool {
    forall|i: int|
        0 <= i < links.len() ==> exists|j: int|
            0 <= j < links.len() && #[trigger] links[j] == reversed(#[trigger] links[i])
}

/// The side facing `side` on a neighbouring screen.
pub fn opposite(side: Side) -> (r: Side)
    ensures
        r == spec_opposite(side),
{
    match side {
        Side::Left => Side::Right,
        Side::Right => Side::Left,
        Side::Top => Side::Bottom,
        Side::Bottom => Side::Top,
    }
}

/// The two links between touching edges: from screen `a` through `a_side` to
/// screen `b` through the facing side, and back.
pub fn link_pair(a: usize, a_side: Side, b: usize) -> (pair: (LinkEnds, LinkEnds))
    ensures
        pair.0 == (LinkEnds {
            from_screen: a,
            from_side: a_side,
            to_screen: b,
            to_side: spec_opposite(a_side),
        }),
        pair.1 == reversed(pair.0),
{
    let b_side = opposite(a_side);
    (
        LinkEnds { from_screen: a, from_side: a_side, to_screen: b, to_side: b_side },
        LinkEnds { from_screen: b, from_side: b_side, to_screen: a, to_side: a_side },
    )
}

/// Facing pairs the sides up: no side faces itself, facing twice gives the
/// side back, and the horizontal sides (Left, Right) face each other while the
/// vertical ones (Top, Bottom) face each other. So a link pair always goes
/// from one side of a screen to the facing side of its neighbour and back.
pub proof fn lemma_opposite_pairs_sides(side: Side, a: usize, b: usize)
    ensures
        spec_opposite(side) != side,
        spec_opposite(spec_opposite(side)) == side,
        (side == Side::Left || side == Side::Right) <==> (spec_opposite(side) == Side::Left
            || spec_opposite(side) == Side::Right),
        ({
            let l = LinkEnds { from_screen: a, from_side: side, to_screen: b, to_side: spec_opposite(side) };
            &&& reversed(l).from_side == l.to_side
            &&& reversed(l).to_side != reversed(l).from_side
            &&& spec_opposite(reversed(l).from_side) == reversed(l).to_side
        }),
{
}

/// Whether link `l` leaves `screen` through `side`.
pub open spec fn leaves_through(l: LinkEnds, screen: usize, side: Side) -> bool {
    l.from_screen == screen && l.from_side == side
}

/// The screen that the first link leaving `current_screen` through `side`
/// leads to, or `None` when no link leaves through that side (the cursor then
/// stays on its screen).
pub fn exit_target(links: &[LinkEnds], current_screen: usize, side: Side) -> (r: Option<usize>)
    ensures
        match r {
            Some(target) => exists|i: int|
                0 <= i < links@.len() && leaves_through(#[trigger] links@[i], current_screen, side)
                    && links@[i].to_screen == target && forall|j: int|
                    0 <= j < i ==> !leaves_through(#[trigger] links@[j], current_screen, side),
            None => forall|i: int|
                0 <= i < links@.len() ==> !leaves_through(
                    #[trigger] links@[i],
                    current_screen,
                    side,
                ),
        },
{
    let mut i: usize = 0;
    while i < links.len()
        invariant
            0 <= i <= links@.len(),
            forall|j: int| 0 <= j < i ==> !leaves_through(#[trigger] links@[j], current_screen, side),
        decreases links@.len() - i,
    {
        let link = links[i];
        if link.from_screen == current_screen && link.from_side == side {
            assert(leaves_through(links@[i as int], current_screen, side));
            return Some(link.to_screen);
        }
        i += 1;
    }
    None
}

/// Whether `l` is the reverse of `link`: it leaves the screen `link` enters,
/// through the side `link` enters by, towards the screen `link` leaves.
pub open spec fn is_reverse_of(l: LinkEnds, link: LinkEnds) -> bool {
    l.from_screen == link.to_screen && l.to_screen == link.from_screen && l.from_side
        == link.to_side
}

/// The index of the first link that leads back along `link`, if any.
pub fn reverse_link(links: &[LinkEnds], link: LinkEnds) -> (r: Option<usize>)
    ensures
        match r {
            Some(i) => i < links@.len() && is_reverse_of(links@[i as int], link) && forall|j: int|
                0 <= j < i ==> !is_reverse_of(#[trigger] links@[j], link),
            None => forall|i: int|
                0 <= i < links@.len() ==> !is_reverse_of(#[trigger] links@[i], link),
        },
{
    let mut i: usize = 0;
    while i < links.len()
        invariant
            0 <= i <= links@.len(),
            forall|j: int| 0 <= j < i ==> !is_reverse_of(#[trigger] links@[j], link),
        decreases links@.len() - i,
    {
        let l = links[i];
        if l.from_screen == link.to_screen && l.to_screen == link.from_screen && l.from_side
            == link.to_side {
            return Some(i);
        }
        i += 1;
    }
    None
}

/// Appending a pair of links made by `link_pair` to a list in which every
/// link has its reverse keeps that so.
pub proof fn lemma_link_pair_keeps_bidirectional(
    links: Seq<LinkEnds>,
    a: usize,
    a_side: Side,
    b: usize,
)
    requires
        bidirectional(links),
    ensures
        ({
            let forward = LinkEnds {
                from_screen: a,
                from_side: a_side,
                to_screen: b,
                to_side: spec_opposite(a_side),
            };
            bidirectional(links.push(forward).push(reversed(forward)))
        }),
{
    let forward = LinkEnds {
        from_screen: a,
        from_side: a_side,
        to_screen: b,
        to_side: spec_opposite(a_side),
    };
    let back = reversed(forward);
    let all = links.push(forward).push(back);
    assert(reversed(back) == forward);
    assert forall|i: int| 0 <= i < all.len() implies exists|j: int|
        0 <= j < all.len() && #[trigger] all[j] == reversed(#[trigger] all[i]) by {
        if i < links.len() {
            let j = choose|j: int| 0 <= j < links.len() && #[trigger] links[j] == reversed(links[i]);
            assert(all[j] == links[j]);
            assert(all[i] == links[i]);
        } else if i == links.len() {
            assert(all[links.len() as int + 1] == back);
        } else {
            assert(all[links.len() as int] == forward);
        }
    }
}

/// In a list where every link has its reverse, the reverse of any of its links
/// is found, and it leads back to the screen the link came from, arriving
/// through the side the link left by.
pub proof fn lemma_reverse_found(links: Seq<LinkEnds>, i: int)
    requires
        bidirectional(links),
        0 <= i < links.len(),
    ensures
        exists|j: int| 0 <= j < links.len() && is_reverse_of(#[trigger] links[j], links[i]),
        forall|j: int|
            0 <= j < links.len() && is_reverse_of(#[trigger] links[j], links[i]) ==> links[j].to_screen
                == links[i].from_screen,
{
    let j = choose|j: int| 0 <= j < links.len() && #[trigger] links[j] == reversed(links[i]);
    assert(is_reverse_of(links[j], links[i]));
}

} // verus!
