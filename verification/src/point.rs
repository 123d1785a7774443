//! One point of a laser frame and its 10-byte wire form.

use crate::wire::{read_u16_le, u16_from_le, u16_to_le, write_u16_le};
use vstd::prelude::*;
use vstd::std_specs::convert::FromSpecImpl;

verus! {

/// The two coordinates, each 0x000 to 0xFFF with 0x800 at the centre.
pub type Position = [u16; 2];

/// Red, green and blue intensities, each 0x000 to 0xFFF.
pub type Rgb = [u16; 3];

/// A single point to be rendered by the laser.
///
/// The codec passes every 16-bit value through unchanged; keeping values
/// within twelve bits is left to the device.
#[derive(Debug, Clone, Copy, PartialEq, Eq)]
pub struct Point {
    /// Each coordinate (0x000-0xFFF, 0x800 is center).
    pub pos: Position,
    /// Red, green, blue channel intensities (0x000-0xFFF).
    pub rgb: Rgb,
}

impl Point {
    /// Center coordinate value.
    pub const CENTER_COORD: u16 = 0x800;

    /// Maximum coordinate value (12-bit).
    pub const MAX_COORD: u16 = 0xFFF;

    /// Maximum color value (12-bit).
    pub const MAX_COLOR: u16 = 0xFFF;

    /// Size of a point in bytes when serialized: five 16-bit values.
    pub const SIZE: usize = 10;

    /// The wire form of a point: x, y, r, g, b, each little-endian.
    pub open spec fn wire(self) -> Seq<u8> {
        u16_to_le(self.pos[0]) + u16_to_le(self.pos[1]) + u16_to_le(self.rgb[0]) + u16_to_le(
            self.rgb[1],
        ) + u16_to_le(self.rgb[2])
    }

    /// The wire form as the fixed-size array that holds it.
    pub open spec fn wire_array(self) -> [u8; 10] {
        let w = self.wire();
        [w[0], w[1], w[2], w[3], w[4], w[5], w[6], w[7], w[8], w[9]]
    }

    /// The point that ten wire bytes stand for.
    pub open spec fn from_wire(b: Seq<u8>) -> Point {
        Point {
            pos: [u16_from_le(b[0], b[1]), u16_from_le(b[2], b[3])],
            rgb: [u16_from_le(b[4], b[5]), u16_from_le(b[6], b[7]), u16_from_le(b[8], b[9])],
        }
    }

    /// Create a new point with the given coordinates and color.
    pub fn new(pos: Position, rgb: Rgb) -> (p: Point)
        ensures
            p.pos == pos,
            p.rgb == rgb,
    {
        Point { pos, rgb }
    }

    /// A dark point at the centre of the field.
    pub fn center_blank() -> (p: Point)
        ensures
            p.pos@ == seq![Point::CENTER_COORD, Point::CENTER_COORD],
            p.rgb@ == seq![0u16, 0u16, 0u16],
    {
        let p = Point { pos: [Point::CENTER_COORD, Point::CENTER_COORD], rgb: [0, 0, 0] };
        assert(p.pos@ =~= seq![Point::CENTER_COORD, Point::CENTER_COORD]);
        assert(p.rgb@ =~= seq![0u16, 0u16, 0u16]);
        p
    }

    /// Serializes the point.
    pub fn to_bytes(self) -> (b: [u8; 10])
        ensures
            b@ == self.wire(),
            b == self.wire_array(),
    {
        let x = write_u16_le(self.pos[0]);
        let y = write_u16_le(self.pos[1]);
        let r = write_u16_le(self.rgb[0]);
        let g = write_u16_le(self.rgb[1]);
        let bl = write_u16_le(self.rgb[2]);
        let b = [x[0], x[1], y[0], y[1], r[0], r[1], g[0], g[1], bl[0], bl[1]];
        assert(b@ =~= self.wire());
        assert(b =~= self.wire_array());
        b
    }

    /// Reads a point from its wire form. No value is range-checked.
    pub fn from_bytes(b: [u8; 10]) -> (p: Point)
        ensures
            p == Point::from_wire(b@),
    {
        let x = read_u16_le(b[0], b[1]);
        let y = read_u16_le(b[2], b[3]);
        let r = read_u16_le(b[4], b[5]);
        let g = read_u16_le(b[6], b[7]);
        let bl = read_u16_le(b[8], b[9]);
        Point { pos: [x, y], rgb: [r, g, bl] }
    }
}

impl From<Point> for [u8; 10] {
    fn from(p: Point) -> (b: [u8; 10])
        ensures
            b@ == p.wire(),
    {
        p.to_bytes()
    }
}

impl FromSpecImpl<Point> for [u8; 10] {
    open spec fn obeys_from_spec() -> bool {
        true
    }

    open spec fn from_spec(p: Point) -> [u8; 10] {
        p.wire_array()
    }
}

impl From<[u8; 10]> for Point {
    fn from(b: [u8; 10]) -> (p: Point)
    {
        Point::from_bytes(b)
    }
}

impl FromSpecImpl<[u8; 10]> for Point {
    open spec fn obeys_from_spec() -> bool {
        true
    }

    open spec fn from_spec(b: [u8; 10]) -> Point {
        Point::from_wire(b@)
    }
}

/// Serializing a point and reading the bytes back gives the same point.
pub proof fn lemma_point_round_trip(p: Point)
    ensures
        p.wire().len() == 10,
        Point::from_wire(p.wire()) == p,
{
    let q = Point::from_wire(p.wire());
    assert(q.pos =~= p.pos);
    assert(q.rgb =~= p.rgb);
}

/// Reading ten bytes as a point and serializing it gives the same bytes.
pub proof fn lemma_point_bytes_round_trip(b: Seq<u8>)
    requires
        b.len() == 10,
    ensures
        Point::from_wire(b).wire() == b,
{
    assert(Point::from_wire(b).wire() =~= b);
}

} // verus!
