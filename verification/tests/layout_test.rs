use deskserver::layout::{exit_target, link_pair, opposite, reverse_link, LinkEnds};
use deskserver::state::Side;

fn two_screens_side_by_side() -> Vec<LinkEnds> {
    // Screen 0 (Mac) with screen 1 (Win) to its right.
    let (a, b) = link_pair(0, Side::Right, 1);
    vec![a, b]
}

#[test]
fn link_pair_is_both_ways() {
    let (a, b) = link_pair(0, Side::Bottom, 1);
    assert_eq!(
        a,
        LinkEnds { from_screen: 0, from_side: Side::Bottom, to_screen: 1, to_side: Side::Top }
    );
    assert_eq!(
        b,
        LinkEnds { from_screen: 1, from_side: Side::Top, to_screen: 0, to_side: Side::Bottom }
    );
    assert_eq!(opposite(Side::Left), Side::Right);
    assert_eq!(opposite(opposite(Side::Top)), Side::Top);
}

#[test]
fn exit_through_linked_side() {
    let links = two_screens_side_by_side();
    // Leaving screen 1 through its left edge returns to screen 0.
    assert_eq!(exit_target(&links, 1, Side::Left), Some(0));
    assert_eq!(exit_target(&links, 0, Side::Right), Some(1));
    // No link on that side: the cursor stays.
    assert_eq!(exit_target(&links, 1, Side::Right), None);
    assert_eq!(exit_target(&links, 0, Side::Top), None);
    assert_eq!(exit_target(&[], 0, Side::Top), None);
}

#[test]
fn first_matching_link_wins() {
    let (a, _) = link_pair(0, Side::Right, 1);
    let (c, _) = link_pair(0, Side::Right, 2);
    assert_eq!(exit_target(&[a, c], 0, Side::Right), Some(1));
    assert_eq!(exit_target(&[c, a], 0, Side::Right), Some(2));
}

#[test]
fn reverse_link_found() {
    let links = two_screens_side_by_side();
    assert_eq!(reverse_link(&links, links[0]), Some(1));
    assert_eq!(reverse_link(&links, links[1]), Some(0));
    let lone = LinkEnds { from_screen: 3, from_side: Side::Top, to_screen: 4, to_side: Side::Bottom };
    assert_eq!(reverse_link(&links, lone), None);
}
