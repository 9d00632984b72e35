//! The 8-row keyboard/joystick scan tables of chip instance 1. A row holds
//! the active-low key bits of one matrix column (or row, for the reversed
//! table). The rows are named fields rather than an array so that the whole
//! table is a plain value in contracts.

use vstd::prelude::*;

verus! {

#[derive(Clone, Copy, PartialEq, Eq, Structural, Debug)]
#[verifier::ext_equal]
pub struct MatrixRows {
    pub r0: u8,
    pub r1: u8,
    pub r2: u8,
    pub r3: u8,
    pub r4: u8,
    pub r5: u8,
    pub r6: u8,
    pub r7: u8,
}

/// All rows released (active-low: every bit set).
pub open spec fn spec_matrix_released() -> MatrixRows {
    MatrixRows { r0: 0xFF, r1: 0xFF, r2: 0xFF, r3: 0xFF, r4: 0xFF, r5: 0xFF, r6: 0xFF, r7: 0xFF }
}

/// Row `i` of the table (rows past the last repeat it; callers stay below 8).
pub open spec fn spec_row(m: MatrixRows, i: int) -> u8 {
    if i == 0 {
        m.r0
    } else if i == 1 {
        m.r1
    } else if i == 2 {
        m.r2
    } else if i == 3 {
        m.r3
    } else if i == 4 {
        m.r4
    } else if i == 5 {
        m.r5
    } else if i == 6 {
        m.r6
    } else {
        m.r7
    }
}

/// The inverted-AND reduction the port readback performs: starting from
/// `base`, AND in every row whose select bit is cleared (low) in `tst`.
pub open spec fn spec_and_selected_rows(m: MatrixRows, tst: u8, base: u8) -> u8 {
    let a0 = if tst & 0x01 == 0 {
        base & m.r0
    } else {
        base
    };
    let a1 = if tst & 0x02 == 0 {
        a0 & m.r1
    } else {
        a0
    };
    let a2 = if tst & 0x04 == 0 {
        a1 & m.r2
    } else {
        a1
    };
    let a3 = if tst & 0x08 == 0 {
        a2 & m.r3
    } else {
        a2
    };
    let a4 = if tst & 0x10 == 0 {
        a3 & m.r4
    } else {
        a3
    };
    let a5 = if tst & 0x20 == 0 {
        a4 & m.r5
    } else {
        a4
    };
    let a6 = if tst & 0x40 == 0 {
        a5 & m.r6
    } else {
        a5
    };
    if tst & 0x80 == 0 {
        a6 & m.r7
    } else {
        a6
    }
}

impl MatrixRows {
    pub fn released() -> (m: MatrixRows)
        ensures
            m == spec_matrix_released(),
    {
        MatrixRows { r0: 0xFF, r1: 0xFF, r2: 0xFF, r3: 0xFF, r4: 0xFF, r5: 0xFF, r6: 0xFF, r7: 0xFF }
    }

    pub fn row(&self, i: u8) -> (v: u8)
        requires
            i < 8,
        ensures
            v == spec_row(*self, i as int),
    {
        if i == 0 {
            self.r0
        } else if i == 1 {
            self.r1
        } else if i == 2 {
            self.r2
        } else if i == 3 {
            self.r3
        } else if i == 4 {
            self.r4
        } else if i == 5 {
            self.r5
        } else if i == 6 {
            self.r6
        } else {
            self.r7
        }
    }

    pub fn set_row(&mut self, i: u8, v: u8)
        requires
            i < 8,
        ensures
            spec_row(*final(self), i as int) == v,
            forall|j: int| 0 <= j < 8 && j != i ==> spec_row(*final(self), j) == spec_row(
                *old(self),
                j,
            ),
    {
        if i == 0 {
            self.r0 = v;
        } else if i == 1 {
            self.r1 = v;
        } else if i == 2 {
            self.r2 = v;
        } else if i == 3 {
            self.r3 = v;
        } else if i == 4 {
            self.r4 = v;
        } else if i == 5 {
            self.r5 = v;
        } else if i == 6 {
            self.r6 = v;
        } else {
            self.r7 = v;
        }
    }

    /// Inverted-AND reduction over the rows selected (low) in `tst`, starting
    /// from `base` (see `spec_and_selected_rows`).
    pub fn and_selected(&self, tst: u8, base: u8) -> (r: u8)
        ensures
            r == spec_and_selected_rows(*self, tst, base),
    {
        let mut acc = base;
        if tst & 0x01 == 0 {
            acc = acc & self.r0;
        }
        if tst & 0x02 == 0 {
            acc = acc & self.r1;
        }
        if tst & 0x04 == 0 {
            acc = acc & self.r2;
        }
        if tst & 0x08 == 0 {
            acc = acc & self.r3;
        }
        if tst & 0x10 == 0 {
            acc = acc & self.r4;
        }
        if tst & 0x20 == 0 {
            acc = acc & self.r5;
        }
        if tst & 0x40 == 0 {
            acc = acc & self.r6;
        }
        if tst & 0x80 == 0 {
            acc = acc & self.r7;
        }
        acc
    }
}

} // verus!
