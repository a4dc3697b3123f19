use vstd::prelude::*;

verus! {

/// Byte count of each of the sixteen data length classes, by index.
pub open spec fn dlc_size(index: int) -> int {
    if index <= 8 {
        index
    } else if index == 9 {
        12
    } else if index == 10 {
        16
    } else if index == 11 {
        20
    } else if index == 12 {
        24
    } else if index == 13 {
        32
    } else if index == 14 {
        48
    } else {
        64
    }
}

/// Data length code: one of sixteen payload size classes, selected on the wire
/// by a 4-bit index.
#[derive(Debug, Clone, Copy, PartialEq, Eq, Structural)]
pub enum CanDlc {
    Size0,
    Size1,
    Size2,
    Size3,
    Size4,
    Size5,
    Size6,
    Size7,
    Size8,
    Size12,
    Size16,
    Size20,
    Size24,
    Size32,
    Size48,
    Size64,
}

impl CanDlc {
    /// The 4-bit wire index of this class.
    pub open spec fn index_spec(self) -> int {
        match self {
            CanDlc::Size0 => 0,
            CanDlc::Size1 => 1,
            CanDlc::Size2 => 2,
            CanDlc::Size3 => 3,
            CanDlc::Size4 => 4,
            CanDlc::Size5 => 5,
            CanDlc::Size6 => 6,
            CanDlc::Size7 => 7,
            CanDlc::Size8 => 8,
            CanDlc::Size12 => 9,
            CanDlc::Size16 => 10,
            CanDlc::Size20 => 11,
            CanDlc::Size24 => 12,
            CanDlc::Size32 => 13,
            CanDlc::Size48 => 14,
            CanDlc::Size64 => 15,
        }
    }

    /// Number of payload bytes this class carries.
    pub open spec fn size_spec(self) -> int {
        dlc_size(self.index_spec())
    }

    /// The class with a given wire index, for indices below sixteen.
    pub open spec fn from_index_spec(index: int) -> CanDlc {
        if index == 0 {
            CanDlc::Size0
        } else if index == 1 {
            CanDlc::Size1
        } else if index == 2 {
            CanDlc::Size2
        } else if index == 3 {
            CanDlc::Size3
        } else if index == 4 {
            CanDlc::Size4
        } else if index == 5 {
            CanDlc::Size5
        } else if index == 6 {
            CanDlc::Size6
        } else if index == 7 {
            CanDlc::Size7
        } else if index == 8 {
            CanDlc::Size8
        } else if index == 9 {
            CanDlc::Size12
        } else if index == 10 {
            CanDlc::Size16
        } else if index == 11 {
            CanDlc::Size20
        } else if index == 12 {
            CanDlc::Size24
        } else if index == 13 {
            CanDlc::Size32
        } else if index == 14 {
            CanDlc::Size48
        } else {
            CanDlc::Size64
        }
    }

    /// Number of payload bytes this class carries.
    pub fn size(self) -> (r: usize)
        ensures
            r == self.size_spec(),
    {
        match self {
            CanDlc::Size0 => 0,
            CanDlc::Size1 => 1,
            CanDlc::Size2 => 2,
            CanDlc::Size3 => 3,
            CanDlc::Size4 => 4,
            CanDlc::Size5 => 5,
            CanDlc::Size6 => 6,
            CanDlc::Size7 => 7,
            CanDlc::Size8 => 8,
            CanDlc::Size12 => 12,
            CanDlc::Size16 => 16,
            CanDlc::Size20 => 20,
            CanDlc::Size24 => 24,
            CanDlc::Size32 => 32,
            CanDlc::Size48 => 48,
            CanDlc::Size64 => 64,
        }
    }

    /// The 4-bit wire index of this class.
    pub fn index(self) -> (r: u8)
        ensures
            r == self.index_spec(),
            r < 16,
    {
        match self {
            CanDlc::Size0 => 0,
            CanDlc::Size1 => 1,
            CanDlc::Size2 => 2,
            CanDlc::Size3 => 3,
            CanDlc::Size4 => 4,
            CanDlc::Size5 => 5,
            CanDlc::Size6 => 6,
            CanDlc::Size7 => 7,
            CanDlc::Size8 => 8,
            CanDlc::Size12 => 9,
            CanDlc::Size16 => 10,
            CanDlc::Size20 => 11,
            CanDlc::Size24 => 12,
            CanDlc::Size32 => 13,
            CanDlc::Size48 => 14,
            CanDlc::Size64 => 15,
        }
    }

    /// The class with wire index `index`; `None` when the index does not fit in
    /// four bits.
    pub fn from_index(index: u16) -> (r: Option<CanDlc>)
        ensures
            index < 16 ==> r == Some(CanDlc::from_index_spec(index as int)),
            index >= 16 ==> r.is_none(),
    {
        match index {
            0 => Some(CanDlc::Size0),
            1 => Some(CanDlc::Size1),
            2 => Some(CanDlc::Size2),
            3 => Some(CanDlc::Size3),
            4 => Some(CanDlc::Size4),
            5 => Some(CanDlc::Size5),
            6 => Some(CanDlc::Size6),
            7 => Some(CanDlc::Size7),
            8 => Some(CanDlc::Size8),
            9 => Some(CanDlc::Size12),
            10 => Some(CanDlc::Size16),
            11 => Some(CanDlc::Size20),
            12 => Some(CanDlc::Size24),
            13 => Some(CanDlc::Size32),
            14 => Some(CanDlc::Size48),
            15 => Some(CanDlc::Size64),
            _ => None,
        }
    }
}

/// Every index below sixteen names a class whose index reads back, and the
/// sixteen classes carry 0 to 8, 12, 16, 20, 24, 32, 48 and 64 bytes in turn.
pub proof fn lemma_dlc_table()
    ensures
        forall|i: int|
            0 <= i < 16 ==> #[trigger] CanDlc::from_index_spec(i).index_spec() == i,
        forall|d: CanDlc| CanDlc::from_index_spec(#[trigger] d.index_spec()) == d,
        seq![
            CanDlc::from_index_spec(0).size_spec(),
            CanDlc::from_index_spec(1).size_spec(),
            CanDlc::from_index_spec(2).size_spec(),
            CanDlc::from_index_spec(3).size_spec(),
            CanDlc::from_index_spec(4).size_spec(),
            CanDlc::from_index_spec(5).size_spec(),
            CanDlc::from_index_spec(6).size_spec(),
            CanDlc::from_index_spec(7).size_spec(),
            CanDlc::from_index_spec(8).size_spec(),
            CanDlc::from_index_spec(9).size_spec(),
            CanDlc::from_index_spec(10).size_spec(),
            CanDlc::from_index_spec(11).size_spec(),
            CanDlc::from_index_spec(12).size_spec(),
            CanDlc::from_index_spec(13).size_spec(),
            CanDlc::from_index_spec(14).size_spec(),
            CanDlc::from_index_spec(15).size_spec(),
        ] =~= seq![0int, 1, 2, 3, 4, 5, 6, 7, 8, 12, 16, 20, 24, 32, 48, 64],
{
}

} // verus!
