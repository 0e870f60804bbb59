//! How many windows the picker opens at most.

use crate::common_types::text::{parse_i32, spec_parse_i32};
use crate::error::{Error, InputError};
use vstd::prelude::*;
use vstd::string::*;

verus! {

/// The most windows the picker opens: an even number above 0, for the picker
/// lays its windows out in two rows.
#[derive(Debug, Clone, Copy)]
pub struct WindowGridSize {
    half: u32,
}

impl View for WindowGridSize {
    type V = int;

    /// The number of windows.
    closed spec fn view(&self) -> int {
        self.half * 2
    }
}

/// Why a number is no grid size, if it is none.
#[derive(Debug, Clone, Copy, PartialEq, Eq, Structural)]
pub enum GridSizeFault {
    OutOfRange,
    Odd,
    Zero,
}

/// What is wrong with `num` as a number of windows, if anything.
pub open spec fn spec_grid_size_fault(num: int) -> Option<GridSizeFault> {
    if num < 0 || num > u32::MAX {
        Some(GridSizeFault::OutOfRange)
    } else if num % 2 != 0 {
        Some(GridSizeFault::Odd)
    } else if num == 0 {
        Some(GridSizeFault::Zero)
    } else {
        None
    }
}

impl WindowGridSize {
    #[verifier::type_invariant]
    spec fn inv(self) -> bool {
        1 <= self.half <= 0x7fff_ffff
    }

    fn fault_error(fault: GridSizeFault, num: i64, typ: &str) -> (e: Error)
        ensures
            match fault {
                GridSizeFault::OutOfRange => e matches Error::Internal(_),
                _ => e matches Error::Input(InputError::FunctionArguments(_)),
            },
    {
        match fault {
            GridSizeFault::OutOfRange => Error::Internal(
                String::from_str("out of range integral type conversion attempted"),
            ),
            GridSizeFault::Odd => {
                let shown = num.to_string();
                Error::Input(
                    InputError::FunctionArguments(
                        String::from_str("provided ").concat(typ).concat(" number: ").concat(
                            shown.as_str(),
                        ).concat(
                            " is not an even number, but it should be for the window grid size",
                        ),
                    ),
                )
            },
            GridSizeFault::Zero => Error::Input(
                InputError::FunctionArguments(
                    String::from_str("provided ").concat(typ).concat(
                        " number is 0 which is invalid for window grid size",
                    ),
                ),
            ),
        }
    }

    /// What is wrong with `num` as a number of windows, or the grid size of
    /// `num` windows.
    pub fn check(num: i64) -> (r: Result<Self, GridSizeFault>)
        ensures
            match r {
                Ok(size) => spec_grid_size_fault(num as int) is None && size@ == num,
                Err(fault) => spec_grid_size_fault(num as int) == Some(fault),
            },
    {
        if num < 0 || num > 0xffff_ffff {
            Err(GridSizeFault::OutOfRange)
        } else if num % 2 != 0 {
            Err(GridSizeFault::Odd)
        } else if num == 0 {
            Err(GridSizeFault::Zero)
        } else {
            Ok(WindowGridSize { half: (num / 2) as u32 })
        }
    }

    /// The grid size of `num` windows. A negative number is an internal
    /// error; an odd number and 0 are errors of the user.
    pub fn try_from_i32(num: i32) -> (r: Result<Self, Error>)
        ensures
            r is Ok == spec_grid_size_fault(num as int) is None,
            r matches Ok(size) ==> size@ == num,
            r matches Err(e) ==> match spec_grid_size_fault(num as int) {
                Some(GridSizeFault::OutOfRange) => e matches Error::Internal(_),
                _ => e matches Error::Input(InputError::FunctionArguments(_)),
            },
    {
        match Self::check(num as i64) {
            Ok(size) => Ok(size),
            Err(fault) => Err(Self::fault_error(fault, num as i64, "i32")),
        }
    }

    /// The grid size of `num` windows. A number that is negative or too large
    /// is an internal error; an odd number and 0 are errors of the user.
    pub fn try_from_i64(num: i64) -> (r: Result<Self, Error>)
        ensures
            r is Ok == spec_grid_size_fault(num as int) is None,
            r matches Ok(size) ==> size@ == num,
            r matches Err(e) ==> match spec_grid_size_fault(num as int) {
                Some(GridSizeFault::OutOfRange) => e matches Error::Internal(_),
                _ => e matches Error::Input(InputError::FunctionArguments(_)),
            },
    {
        match Self::check(num) {
            Ok(size) => Ok(size),
            Err(fault) => Err(Self::fault_error(fault, num, "i64")),
        }
    }

    /// The grid size that the text `value` stands for.
    pub fn try_from_str(value: &str) -> (r: Result<Self, Error>)
        ensures
            r is Ok == (spec_parse_i32(value@) matches Some(num) && spec_grid_size_fault(
                num as int,
            ) is None),
            r matches Ok(size) ==> (spec_parse_i32(value@) matches Some(num) && size@ == num),
            r matches Err(e) ==> match spec_parse_i32(value@) {
                Some(num) => match spec_grid_size_fault(num as int) {
                    Some(GridSizeFault::OutOfRange) => e matches Error::Internal(_),
                    _ => e matches Error::Input(InputError::FunctionArguments(_)),
                },
                None => e matches Error::Input(InputError::FunctionArguments(_)),
            },
    {
        Self::from_parsed(value, parse_i32(value))
    }

    /// The grid size of the number `parsed` that was read from the text
    /// `value`, or the error that says that there was no number in it.
    pub fn from_parsed(value: &str, parsed: Option<i32>) -> (r: Result<Self, Error>)
        ensures
            r is Ok == (parsed matches Some(num) && spec_grid_size_fault(num as int) is None),
            r matches Ok(size) ==> (parsed matches Some(num) && size@ == num),
            r matches Err(e) ==> match parsed {
                Some(num) => match spec_grid_size_fault(num as int) {
                    Some(GridSizeFault::OutOfRange) => e matches Error::Internal(_),
                    _ => e matches Error::Input(InputError::FunctionArguments(_)),
                },
                None => e.spec_is_arguments(
                    "provided a non integer value: "@ + value@ + " as window grid size"@,
                ),
            },
    {
        match parsed {
            Some(num) => Self::try_from_i32(num),
            None => Err(
                Error::Input(
                    InputError::FunctionArguments(
                        String::from_str("provided a non integer value: ").concat(value).concat(
                            " as window grid size",
                        ),
                    ),
                ),
            ),
        }
    }

    /// The number of windows.
    pub fn to_u32(self) -> (n: u32)
        ensures
            n == self@,
            n >= 2,
            n % 2 == 0,
    {
        proof {
            use_type_invariant(self);
        }
        self.half * 2
    }

    /// The number of windows.
    pub fn to_usize(self) -> (n: usize)
        ensures
            n == self@,
            n >= 2,
    {
        proof {
            use_type_invariant(self);
        }
        (self.half * 2) as usize
    }

    /// The number of windows, where a 32 bit integer holds it.
    pub fn to_i32(self) -> (n: Option<i32>)
        ensures
            n is Some == (self@ <= i32::MAX),
            n matches Some(v) ==> v == self@,
    {
        proof {
            use_type_invariant(self);
        }
        if self.half <= 0x3fff_ffff {
            Some((self.half * 2) as i32)
        } else {
            None
        }
    }
}

impl Default for WindowGridSize {
    fn default() -> (size: Self)
        ensures
            size@ == 6,
    {
        Self { half: 3 }
    }
}

} // verus!
