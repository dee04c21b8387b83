//! Pure helpers for writing lattice configurations: the text labels of link
//! states and the step helper used while walking the output grid.  The file
//! writing itself lives outside the library.

use vstd::prelude::*;
use crate::datamodel::BoundPoint;
use crate::datamodel::Direction;
use crate::datamodel::Link;
use crate::datamodel::Point;
use crate::datamodel::cluster::spec_step;

verus! {

/// The text label of a link state.
pub open spec fn link_label(l: Link) -> Seq<char> {
    match l {
        Link::In => "In"@,
        Link::Out => "Out"@,
        Link::Blank => "Blank"@,
    }
}

/// The plaquette-file label of a link: the absolute compass direction of
/// its flux, or `B` for blank.  A real vertex contributes its north and
/// east links, a fake vertex its south and west links.
pub open spec fn plaquett_label(l: Link, real_bool: bool, d: Direction) -> Seq<char> {
    if l is Blank {
        "B"@
    } else if real_bool {
        if d is N {
            if l is Out {
                "N"@
            } else {
                "S"@
            }
        } else {
            if l is Out {
                "E"@
            } else {
                "W"@
            }
        }
    } else {
        if d is S {
            if l is Out {
                "S"@
            } else {
                "N"@
            }
        } else {
            if l is Out {
                "W"@
            } else {
                "E"@
            }
        }
    }
}

/// The absolute-direction label of a link for the plaquette output file.
/// `real_bool` says whether the link is viewed from the real (lower-left)
/// or fake (upper-right) corner of the plaquette; a real corner offers its
/// north and east links, a fake corner its south and west links.
pub fn get_plaquett_out_string_from_link(link: &Link, real_bool: bool, direction: &Direction) -> (r:
    &'static str)
    requires
        real_bool ==> (*direction is N || *direction is E),
        !real_bool ==> (*direction is S || *direction is W),
    ensures
        r@ == plaquett_label(*link, real_bool, *direction),
{
    proof {
        reveal_strlit("N");
        reveal_strlit("E");
        reveal_strlit("S");
        reveal_strlit("W");
        reveal_strlit("B");
    }
    if real_bool {
        match direction {
            Direction::N => match link {
                Link::In => "S",
                Link::Out => "N",
                Link::Blank => "B",
            },
            _ => match link {
                Link::In => "W",
                Link::Out => "E",
                Link::Blank => "B",
            },
        }
    } else {
        match direction {
            Direction::S => match link {
                Link::In => "N",
                Link::Out => "S",
                Link::Blank => "B",
            },
            _ => match link {
                Link::In => "E",
                Link::Out => "W",
                Link::Blank => "B",
            },
        }
    }
}

/// The text label of a link state for the vertex output file.
pub fn get_out_string_from_link(link: &Link) -> (r: &'static str)
    ensures
        r@ == link_label(*link),
{
    proof {
        reveal_strlit("In");
        reveal_strlit("Out");
        reveal_strlit("Blank");
    }
    match link {
        Link::In => "In",
        Link::Out => "Out",
        Link::Blank => "Blank",
    }
}

/// Step one unit in `direction` from `location_in`, wrapping at the
/// lattice boundary.
pub fn increment_loc(direction: &Direction, location_in: &BoundPoint) -> (r: BoundPoint)
    requires
        location_in.wf(),
    ensures
        r == spec_step(*location_in, *direction),
        r.wf(),
{
    let increment: Point = match *direction {
        Direction::N => Point { x: 0, y: 1 },
        Direction::E => Point { x: 1, y: 0 },
        Direction::S => Point { x: 0, y: -1 },
        Direction::W => Point { x: -1, y: 0 },
    };
    location_in.add_wrapped(increment)
}

} // verus!
