use vstd::prelude::*;

verus! {

/// A histogram resolution: the number of times each power-of-two octave is
/// halved into sub-buckets (negative values merge octaves instead).
pub trait Schema {
    /// The resolution as a mathematical integer.
    spec fn spec_get(&self) -> int;

    fn get(&self) -> (r: isize)
        ensures
            r as int == self.spec_get(),
    ;
}

impl Schema for isize {
    open spec fn spec_get(&self) -> int {
        *self as int
    }

    fn get(&self) -> (r: isize) {
        *self
    }
}

/// The lowest resolution a histogram supports.
pub const MIN_SCHEMA: isize = -4;

/// The highest resolution a histogram supports.
pub const MAX_SCHEMA: isize = 8;

/// A resolution restricted to the supported interval.
#[derive(Debug, Clone, Copy, PartialEq, Eq, Structural)]
pub enum BoundedSchema {
    Neg4,
    Neg3,
    Neg2,
    Neg1,
    Pos0,
    Pos1,
    Pos2,
    Pos3,
    Pos4,
    Pos5,
    Pos6,
    Pos7,
    Pos8,
}

impl BoundedSchema {
    /// The integer each variant stands for.
    pub open spec fn value(&self) -> int {
        match *self {
            BoundedSchema::Neg4 => -4,
            BoundedSchema::Neg3 => -3,
            BoundedSchema::Neg2 => -2,
            BoundedSchema::Neg1 => -1,
            BoundedSchema::Pos0 => 0,
            BoundedSchema::Pos1 => 1,
            BoundedSchema::Pos2 => 2,
            BoundedSchema::Pos3 => 3,
            BoundedSchema::Pos4 => 4,
            BoundedSchema::Pos5 => 5,
            BoundedSchema::Pos6 => 6,
            BoundedSchema::Pos7 => 7,
            BoundedSchema::Pos8 => 8,
        }
    }

    /// The variant that stands for `v`, if any.
    pub open spec fn from_value(v: int) -> Option<BoundedSchema> {
        if v == -4 {
            Some(BoundedSchema::Neg4)
        } else if v == -3 {
            Some(BoundedSchema::Neg3)
        } else if v == -2 {
            Some(BoundedSchema::Neg2)
        } else if v == -1 {
            Some(BoundedSchema::Neg1)
        } else if v == 0 {
            Some(BoundedSchema::Pos0)
        } else if v == 1 {
            Some(BoundedSchema::Pos1)
        } else if v == 2 {
            Some(BoundedSchema::Pos2)
        } else if v == 3 {
            Some(BoundedSchema::Pos3)
        } else if v == 4 {
            Some(BoundedSchema::Pos4)
        } else if v == 5 {
            Some(BoundedSchema::Pos5)
        } else if v == 6 {
            Some(BoundedSchema::Pos6)
        } else if v == 7 {
            Some(BoundedSchema::Pos7)
        } else if v == 8 {
            Some(BoundedSchema::Pos8)
        } else {
            None
        }
    }

    /// Builds the schema for `value`, or hands `value` back when it lies
    /// outside `MIN_SCHEMA..=MAX_SCHEMA`.
    pub fn try_from(value: isize) -> (r: Result<BoundedSchema, isize>)
        ensures
            MIN_SCHEMA <= value <= MAX_SCHEMA <==> r is Ok,
            r matches Ok(s) ==> s.value() == value as int,
            r matches Err(e) ==> e == value,
            r == (match BoundedSchema::from_value(value as int) {
                Some(s) => Ok(s),
                None => Err(value),
            }),
    {
        match value {
            -4 => Ok(BoundedSchema::Neg4),
            -3 => Ok(BoundedSchema::Neg3),
            -2 => Ok(BoundedSchema::Neg2),
            -1 => Ok(BoundedSchema::Neg1),
            0 => Ok(BoundedSchema::Pos0),
            1 => Ok(BoundedSchema::Pos1),
            2 => Ok(BoundedSchema::Pos2),
            3 => Ok(BoundedSchema::Pos3),
            4 => Ok(BoundedSchema::Pos4),
            5 => Ok(BoundedSchema::Pos5),
            6 => Ok(BoundedSchema::Pos6),
            7 => Ok(BoundedSchema::Pos7),
            8 => Ok(BoundedSchema::Pos8),
            _ => Err(value),
        }
    }
}

impl std::convert::TryFrom<isize> for BoundedSchema {
    type Error = isize;

    fn try_from(value: isize) -> (r: Result<BoundedSchema, isize>) {
        BoundedSchema::try_from(value)
    }
}

impl vstd::std_specs::convert::TryFromSpecImpl<isize> for BoundedSchema {
    open spec fn obeys_try_from_spec() -> bool {
        true
    }

    open spec fn try_from_spec(value: isize) -> Result<BoundedSchema, isize> {
        match BoundedSchema::from_value(value as int) {
            Some(s) => Ok(s),
            None => Err(value),
        }
    }
}

impl Schema for BoundedSchema {
    open spec fn spec_get(&self) -> int {
        self.value()
    }

    fn get(&self) -> (r: isize) {
        match *self {
            BoundedSchema::Neg4 => -4,
            BoundedSchema::Neg3 => -3,
            BoundedSchema::Neg2 => -2,
            BoundedSchema::Neg1 => -1,
            BoundedSchema::Pos0 => 0,
            BoundedSchema::Pos1 => 1,
            BoundedSchema::Pos2 => 2,
            BoundedSchema::Pos3 => 3,
            BoundedSchema::Pos4 => 4,
            BoundedSchema::Pos5 => 5,
            BoundedSchema::Pos6 => 6,
            BoundedSchema::Pos7 => 7,
            BoundedSchema::Pos8 => 8,
        }
    }
}

/// Building a bounded schema from any integer of the supported interval and
/// reading it back yields that integer; every other integer is refused.
pub proof fn lemma_bounded_schema_round_trip(value: int)
    ensures
        MIN_SCHEMA <= value <= MAX_SCHEMA ==> (BoundedSchema::from_value(value) matches Some(s)
            && s.spec_get() == value),
        !(MIN_SCHEMA <= value <= MAX_SCHEMA) ==> BoundedSchema::from_value(value) is None,
{
}

} // verus!
