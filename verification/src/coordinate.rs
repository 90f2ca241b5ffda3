use vstd::prelude::*;

verus! {

/// One cell of the grid: three signed integers.
#[derive(Debug, Clone, Copy, PartialEq, Eq, Hash, Structural)]
pub struct Coordinate {
    pub x: i32,
    pub y: i32,
    pub z: i32,
}

/// The number that is added to a component to make it non-negative.
pub const COMPONENT_SHIFT: u128 = 0x8000_0000;

/// The number of values a component can take.
pub const COMPONENT_SPAN: u128 = 0x1_0000_0000;

impl Coordinate {
    pub fn new(x: i32, y: i32, z: i32) -> (cell: Self)
        ensures
            cell == (Coordinate { x, y, z }),
    {
        Coordinate { x, y, z }
    }

    /// The cell at the origin of the grid.
    pub open spec fn origin() -> Coordinate {
        Coordinate { x: 0, y: 0, z: 0 }
    }

    /// The cell at the origin of the grid.
    pub fn zero() -> (cell: Self)
        ensures
            cell == Coordinate::origin(),
    {
        Coordinate { x: 0, y: 0, z: 0 }
    }

    /// The cell that lies `delta` away from this one, component by component.
    pub open spec fn offset_by(self, delta: Coordinate) -> (int, int, int) {
        (self.x + delta.x, self.y + delta.y, self.z + delta.z)
    }

    /// Whether three integers are the components of a cell.
    pub open spec fn fits(sum: (int, int, int)) -> bool {
        &&& i32::MIN <= sum.0 <= i32::MAX
        &&& i32::MIN <= sum.1 <= i32::MAX
        &&& i32::MIN <= sum.2 <= i32::MAX
    }

    /// The cell that lies `delta` away from this one, or `None` where a
    /// component of it would leave the range of the grid.
    pub fn checked_add(&self, delta: &Coordinate) -> (moved: Option<Coordinate>)
        ensures
            Coordinate::fits(self.offset_by(*delta)) <==> moved is Some,
            moved matches Some(cell) ==> (cell.x as int, cell.y as int, cell.z as int)
                == self.offset_by(*delta),
    {
        let x = self.x.checked_add(delta.x);
        let y = self.y.checked_add(delta.y);
        let z = self.z.checked_add(delta.z);
        match (x, y, z) {
            (Some(x), Some(y), Some(z)) => Some(Coordinate { x, y, z }),
            _ => None,
        }
    }

    /// The number that stands for this cell where cells are keys: each
    /// component is shifted to be non-negative and takes one 32-bit digit.
    pub open spec fn key_spec(self) -> u128 {
        (((self.x + COMPONENT_SHIFT) * COMPONENT_SPAN + (self.y + COMPONENT_SHIFT))
            * COMPONENT_SPAN + (self.z + COMPONENT_SHIFT)) as u128
    }

    /// The number that stands for this cell where cells are keys.
    pub fn key(&self) -> (key: u128)
        ensures
            key == self.key_spec(),
    {
        let x: u128 = (self.x as i64 + 0x8000_0000) as u128;
        let y: u128 = (self.y as i64 + 0x8000_0000) as u128;
        let z: u128 = (self.z as i64 + 0x8000_0000) as u128;
        (x * COMPONENT_SPAN + y) * COMPONENT_SPAN + z
    }

    /// Two cells with the same key are the same cell.
    pub proof fn lemma_key_injective(a: Coordinate, b: Coordinate)
        requires
            a.key_spec() == b.key_spec(),
        ensures
            a == b,
    {
    }
}

} // verus!
