use vstd::prelude::*;

verus! {

/// One frame slot as the VCI driver fills it.
#[derive(Debug, Clone, Copy, Default)]
pub struct VciCanObj {
    pub id: u32,
    pub time_stamp: u32,
    pub time_flag: u8,
    pub send_type: u8,
    pub remote_flag: u8,
    pub extern_flag: u8,
    pub data_len: u8,
    pub data: [u8; 8],
    pub reserved: [u8; 3],
}

/// Channel initialisation record of the VCI driver.
#[derive(Debug, Clone, Copy, Default, PartialEq, Eq, Structural)]
pub struct VciInitConfig {
    pub acc_code: u32,
    pub acc_mask: u32,
    pub reserved: u32,
    pub filter: u8,
    pub timing0: u8,
    pub timing1: u8,
    pub mode: u8,
}

/// Board description returned by the VCI driver.
#[derive(Debug, Clone, Copy)]
pub struct VciBoardInfo {
    pub hw_version: u16,
    pub fw_version: u16,
    pub dr_version: u16,
    pub in_version: u16,
    pub irq_num: u16,
    pub can_num: u8,
    pub str_serial_num: [u8; 20],
    pub str_hw_type: [u8; 40],
    pub reserved: [u16; 4],
}

impl Default for VciBoardInfo {
    fn default() -> (r: Self)
        ensures
            r.hw_version == 0 && r.fw_version == 0 && r.dr_version == 0,
            r.in_version == 0 && r.irq_num == 0 && r.can_num == 0,
            forall|i: int| 0 <= i < 20 ==> r.str_serial_num@[i] == 0,
            forall|i: int| 0 <= i < 40 ==> r.str_hw_type@[i] == 0,
            forall|i: int| 0 <= i < 4 ==> r.reserved@[i] == 0,
    {
        VciBoardInfo {
            hw_version: 0,
            fw_version: 0,
            dr_version: 0,
            in_version: 0,
            irq_num: 0,
            can_num: 0,
            str_serial_num: [0u8; 20],
            str_hw_type: [0u8; 40],
            reserved: [0u16; 4],
        }
    }
}

/// Bit rates that VCI adapters support.
#[derive(Debug, Clone, Copy, PartialEq, Eq, Structural)]
pub enum VciCanBaudRate {
    Baud10K,
    Baud20K,
    Baud33_33K,
    Baud40K,
    Baud50K,
    Baud66_66K,
    Baud80K,
    Baud83_33K,
    Baud100K,
    Baud125K,
    Baud200K,
    Baud250K,
    Baud400K,
    Baud500K,
    Baud666K,
    Baud800K,
    Baud1M,
}

impl VciCanBaudRate {
    /// The rate in kbit/s, as a user names it (33.33 kbit/s is 33).
    pub open spec fn kbps(self) -> u32 {
        match self {
            VciCanBaudRate::Baud10K => 10,
            VciCanBaudRate::Baud20K => 20,
            VciCanBaudRate::Baud33_33K => 33,
            VciCanBaudRate::Baud40K => 40,
            VciCanBaudRate::Baud50K => 50,
            VciCanBaudRate::Baud66_66K => 66,
            VciCanBaudRate::Baud80K => 80,
            VciCanBaudRate::Baud83_33K => 83,
            VciCanBaudRate::Baud100K => 100,
            VciCanBaudRate::Baud125K => 125,
            VciCanBaudRate::Baud200K => 200,
            VciCanBaudRate::Baud250K => 250,
            VciCanBaudRate::Baud400K => 400,
            VciCanBaudRate::Baud500K => 500,
            VciCanBaudRate::Baud666K => 666,
            VciCanBaudRate::Baud800K => 800,
            VciCanBaudRate::Baud1M => 1000,
        }
    }

    /// The bus-timing register pair (timing0, timing1) that selects the rate.
    pub open spec fn timing(self) -> (u8, u8) {
        match self {
            VciCanBaudRate::Baud10K => (0x31, 0x1C),
            VciCanBaudRate::Baud20K => (0x18, 0x1C),
            VciCanBaudRate::Baud33_33K => (0x09, 0x6F),
            VciCanBaudRate::Baud40K => (0x87, 0xFF),
            VciCanBaudRate::Baud50K => (0x09, 0x1C),
            VciCanBaudRate::Baud66_66K => (0x04, 0x6F),
            VciCanBaudRate::Baud80K => (0x83, 0xFF),
            VciCanBaudRate::Baud83_33K => (0x03, 0x6F),
            VciCanBaudRate::Baud100K => (0x04, 0x1C),
            VciCanBaudRate::Baud125K => (0x03, 0x1C),
            VciCanBaudRate::Baud200K => (0x81, 0xFA),
            VciCanBaudRate::Baud250K => (0x01, 0x1C),
            VciCanBaudRate::Baud400K => (0x80, 0xFA),
            VciCanBaudRate::Baud500K => (0x00, 0x1C),
            VciCanBaudRate::Baud666K => (0x80, 0xB6),
            VciCanBaudRate::Baud800K => (0x00, 0x16),
            VciCanBaudRate::Baud1M => (0x00, 0x14),
        }
    }

    /// The rate that a user's number names, if any.
    pub open spec fn of_kbps(value: u32) -> Option<VciCanBaudRate> {
        match value {
            10 => Some(VciCanBaudRate::Baud10K),
            20 => Some(VciCanBaudRate::Baud20K),
            33 => Some(VciCanBaudRate::Baud33_33K),
            40 => Some(VciCanBaudRate::Baud40K),
            50 => Some(VciCanBaudRate::Baud50K),
            66 => Some(VciCanBaudRate::Baud66_66K),
            80 => Some(VciCanBaudRate::Baud80K),
            83 => Some(VciCanBaudRate::Baud83_33K),
            100 => Some(VciCanBaudRate::Baud100K),
            125 => Some(VciCanBaudRate::Baud125K),
            200 => Some(VciCanBaudRate::Baud200K),
            250 => Some(VciCanBaudRate::Baud250K),
            400 => Some(VciCanBaudRate::Baud400K),
            500 => Some(VciCanBaudRate::Baud500K),
            666 => Some(VciCanBaudRate::Baud666K),
            800 => Some(VciCanBaudRate::Baud800K),
            1000 => Some(VciCanBaudRate::Baud1M),
            _ => None,
        }
    }

    pub fn to_timing_values(self) -> (r: (u8, u8))
        ensures
            r == self.timing(),
    {
        match self {
            VciCanBaudRate::Baud10K => (0x31, 0x1C),
            VciCanBaudRate::Baud20K => (0x18, 0x1C),
            VciCanBaudRate::Baud33_33K => (0x09, 0x6F),
            VciCanBaudRate::Baud40K => (0x87, 0xFF),
            VciCanBaudRate::Baud50K => (0x09, 0x1C),
            VciCanBaudRate::Baud66_66K => (0x04, 0x6F),
            VciCanBaudRate::Baud80K => (0x83, 0xFF),
            VciCanBaudRate::Baud83_33K => (0x03, 0x6F),
            VciCanBaudRate::Baud100K => (0x04, 0x1C),
            VciCanBaudRate::Baud125K => (0x03, 0x1C),
            VciCanBaudRate::Baud200K => (0x81, 0xFA),
            VciCanBaudRate::Baud250K => (0x01, 0x1C),
            VciCanBaudRate::Baud400K => (0x80, 0xFA),
            VciCanBaudRate::Baud500K => (0x00, 0x1C),
            VciCanBaudRate::Baud666K => (0x80, 0xB6),
            VciCanBaudRate::Baud800K => (0x00, 0x16),
            VciCanBaudRate::Baud1M => (0x00, 0x14),
        }
    }

    pub fn from_u32(value: u32) -> (r: Option<Self>)
        ensures
            r == Self::of_kbps(value),
            r matches Some(b) ==> b.kbps() == value,
            r is None <==> forall|b: VciCanBaudRate| b.kbps() != value,
    {
        proof {
            lemma_vci_lookup(value);
        }
        match value {
            10 => Some(VciCanBaudRate::Baud10K),
            20 => Some(VciCanBaudRate::Baud20K),
            33 => Some(VciCanBaudRate::Baud33_33K),
            40 => Some(VciCanBaudRate::Baud40K),
            50 => Some(VciCanBaudRate::Baud50K),
            66 => Some(VciCanBaudRate::Baud66_66K),
            80 => Some(VciCanBaudRate::Baud80K),
            83 => Some(VciCanBaudRate::Baud83_33K),
            100 => Some(VciCanBaudRate::Baud100K),
            125 => Some(VciCanBaudRate::Baud125K),
            200 => Some(VciCanBaudRate::Baud200K),
            250 => Some(VciCanBaudRate::Baud250K),
            400 => Some(VciCanBaudRate::Baud400K),
            500 => Some(VciCanBaudRate::Baud500K),
            666 => Some(VciCanBaudRate::Baud666K),
            800 => Some(VciCanBaudRate::Baud800K),
            1000 => Some(VciCanBaudRate::Baud1M),
            _ => None,
        }
    }
}


/// Bit rates that PCAN adapters support.
#[derive(Debug, Clone, Copy, PartialEq, Eq, Structural)]
pub enum PcanBaudRate {
    Baud1M,
    Baud800K,
    Baud500K,
    Baud250K,
    Baud125K,
    Baud100K,
    Baud95K,
    Baud83K,
    Baud50K,
    Baud47K,
    Baud33K,
    Baud20K,
    Baud10K,
    Baud5K,
}

impl PcanBaudRate {
    /// The rate in kbit/s, as a user names it.
    pub open spec fn kbps(self) -> u32 {
        match self {
            PcanBaudRate::Baud1M => 1000,
            PcanBaudRate::Baud800K => 800,
            PcanBaudRate::Baud500K => 500,
            PcanBaudRate::Baud250K => 250,
            PcanBaudRate::Baud125K => 125,
            PcanBaudRate::Baud100K => 100,
            PcanBaudRate::Baud95K => 95,
            PcanBaudRate::Baud83K => 83,
            PcanBaudRate::Baud50K => 50,
            PcanBaudRate::Baud47K => 47,
            PcanBaudRate::Baud33K => 33,
            PcanBaudRate::Baud20K => 20,
            PcanBaudRate::Baud10K => 10,
            PcanBaudRate::Baud5K => 5,
        }
    }

    /// The BTR0/BTR1 register word that selects the rate.
    pub open spec fn btr0btr1(self) -> u16 {
        match self {
            PcanBaudRate::Baud1M => 0x0014,
            PcanBaudRate::Baud800K => 0x0016,
            PcanBaudRate::Baud500K => 0x001C,
            PcanBaudRate::Baud250K => 0x011C,
            PcanBaudRate::Baud125K => 0x031C,
            PcanBaudRate::Baud100K => 0x432F,
            PcanBaudRate::Baud95K => 0xC34E,
            PcanBaudRate::Baud83K => 0x852B,
            PcanBaudRate::Baud50K => 0x472F,
            PcanBaudRate::Baud47K => 0x1414,
            PcanBaudRate::Baud33K => 0x8B2F,
            PcanBaudRate::Baud20K => 0x532F,
            PcanBaudRate::Baud10K => 0x672F,
            PcanBaudRate::Baud5K => 0x7F7F,
        }
    }

    /// The rate that a user's number names, if any.
    pub open spec fn of_kbps(value: u32) -> Option<PcanBaudRate> {
        match value {
            1000 => Some(PcanBaudRate::Baud1M),
            800 => Some(PcanBaudRate::Baud800K),
            500 => Some(PcanBaudRate::Baud500K),
            250 => Some(PcanBaudRate::Baud250K),
            125 => Some(PcanBaudRate::Baud125K),
            100 => Some(PcanBaudRate::Baud100K),
            95 => Some(PcanBaudRate::Baud95K),
            83 => Some(PcanBaudRate::Baud83K),
            50 => Some(PcanBaudRate::Baud50K),
            47 => Some(PcanBaudRate::Baud47K),
            33 => Some(PcanBaudRate::Baud33K),
            20 => Some(PcanBaudRate::Baud20K),
            10 => Some(PcanBaudRate::Baud10K),
            5 => Some(PcanBaudRate::Baud5K),
            _ => None,
        }
    }

    /// The register word handed to the driver's initialisation call.
    pub fn to_u16(self) -> (r: u16)
        ensures
            r == self.btr0btr1(),
    {
        match self {
            PcanBaudRate::Baud1M => 0x0014,
            PcanBaudRate::Baud800K => 0x0016,
            PcanBaudRate::Baud500K => 0x001C,
            PcanBaudRate::Baud250K => 0x011C,
            PcanBaudRate::Baud125K => 0x031C,
            PcanBaudRate::Baud100K => 0x432F,
            PcanBaudRate::Baud95K => 0xC34E,
            PcanBaudRate::Baud83K => 0x852B,
            PcanBaudRate::Baud50K => 0x472F,
            PcanBaudRate::Baud47K => 0x1414,
            PcanBaudRate::Baud33K => 0x8B2F,
            PcanBaudRate::Baud20K => 0x532F,
            PcanBaudRate::Baud10K => 0x672F,
            PcanBaudRate::Baud5K => 0x7F7F,
        }
    }

    pub fn from_u32(value: u32) -> (r: Option<Self>)
        ensures
            r == Self::of_kbps(value),
            r matches Some(b) ==> b.kbps() == value,
            r is None <==> forall|b: PcanBaudRate| b.kbps() != value,
    {
        proof {
            lemma_pcan_lookup(value);
        }
        match value {
            1000 => Some(PcanBaudRate::Baud1M),
            800 => Some(PcanBaudRate::Baud800K),
            500 => Some(PcanBaudRate::Baud500K),
            250 => Some(PcanBaudRate::Baud250K),
            125 => Some(PcanBaudRate::Baud125K),
            100 => Some(PcanBaudRate::Baud100K),
            95 => Some(PcanBaudRate::Baud95K),
            83 => Some(PcanBaudRate::Baud83K),
            50 => Some(PcanBaudRate::Baud50K),
            47 => Some(PcanBaudRate::Baud47K),
            33 => Some(PcanBaudRate::Baud33K),
            20 => Some(PcanBaudRate::Baud20K),
            10 => Some(PcanBaudRate::Baud10K),
            5 => Some(PcanBaudRate::Baud5K),
            _ => None,
        }
    }
}

/// The numbers (kbit/s) that name a VCI rate.
pub open spec fn vci_kbps() -> Set<u32> {
    set![10, 20, 33, 40, 50, 66, 80, 83, 100, 125, 200, 250, 400, 500, 666, 800, 1000]
}

/// Rate lookup is total and exact: every number of the supported set names
/// the one rate of that number, every other number names none; no default
/// stands in for an unknown number.
pub proof fn lemma_vci_lookup(value: u32)
    ensures
        VciCanBaudRate::of_kbps(value) is Some <==> vci_kbps().contains(value),
        VciCanBaudRate::of_kbps(value) matches Some(b) ==> b.kbps() == value,
        forall|b: VciCanBaudRate| #[trigger] VciCanBaudRate::of_kbps(b.kbps()) == Some(b),
        forall|b: VciCanBaudRate| #[trigger] vci_kbps().contains(b.kbps()),
{
}

/// The numbers (kbit/s) that name a PCAN rate.
pub open spec fn pcan_kbps() -> Set<u32> {
    set![1000, 800, 500, 250, 125, 100, 95, 83, 50, 47, 33, 20, 10, 5]
}

/// Rate lookup is total and exact: every number of the supported set names
/// the one rate of that number, every other number names none; no default
/// stands in for an unknown number.
pub proof fn lemma_pcan_lookup(value: u32)
    ensures
        PcanBaudRate::of_kbps(value) is Some <==> pcan_kbps().contains(value),
        PcanBaudRate::of_kbps(value) matches Some(b) ==> b.kbps() == value,
        forall|b: PcanBaudRate| #[trigger] PcanBaudRate::of_kbps(b.kbps()) == Some(b),
        forall|b: PcanBaudRate| #[trigger] pcan_kbps().contains(b.kbps()),
{
}

/// A channel's bit rate, in the terms of one adapter family.
#[derive(Debug, Clone, Copy, PartialEq, Eq, Structural)]
pub enum CanBaudRate {
    ControlCan(VciCanBaudRate),
    Pcan(PcanBaudRate),
}

impl VciCanBaudRate {
    /// The rate that `value` names, or `fallback` when it names none; the
    /// flag is set when the fallback was taken, so that the caller can log it.
    pub fn from_u32_or(value: u32, fallback: Self) -> (r: (Self, bool))
        ensures
            r == (match Self::of_kbps(value) {
                Some(b) => (b, false),
                None => (fallback, true),
            }),
    {
        match Self::from_u32(value) {
            Some(b) => (b, false),
            None => (fallback, true),
        }
    }
}

impl PcanBaudRate {
    /// The rate that `value` names, or `fallback` when it names none; the
    /// flag is set when the fallback was taken, so that the caller can log it.
    pub fn from_u32_or(value: u32, fallback: Self) -> (r: (Self, bool))
        ensures
            r == (match Self::of_kbps(value) {
                Some(b) => (b, false),
                None => (fallback, true),
            }),
    {
        match Self::from_u32(value) {
            Some(b) => (b, false),
            None => (fallback, true),
        }
    }
}

/// One received message as the PCAN driver fills it.
#[derive(Debug, Clone, Copy, Default)]
pub struct PcanMsg {
    pub id: u32,
    pub msgtype: u8,
    pub len: u8,
    pub data: [u8; 8],
}

/// PCAN initialisation parameters: the driver takes the rate word directly.
#[derive(Debug, Clone, Copy, Default, PartialEq, Eq, Structural)]
pub struct PcanInitConfig {
    pub baud_rate: u32,
}

/// Board description in the PCAN layout.
#[derive(Debug, Clone, Copy)]
pub struct PcanBoardInfo {
    pub hw_version: u16,
    pub fw_version: u16,
    pub dr_version: u16,
    pub in_version: u16,
    pub irq_num: u16,
    pub can_num: u8,
    pub str_serial_num: [u8; 20],
    pub str_hw_type: [u8; 40],
    pub reserved: [u16; 4],
}

impl Default for PcanBoardInfo {
    fn default() -> (r: Self)
        ensures
            r.hw_version == 0 && r.fw_version == 0 && r.dr_version == 0,
            r.in_version == 0 && r.irq_num == 0 && r.can_num == 0,
            forall|i: int| 0 <= i < 20 ==> r.str_serial_num@[i] == 0,
            forall|i: int| 0 <= i < 40 ==> r.str_hw_type@[i] == 0,
            forall|i: int| 0 <= i < 4 ==> r.reserved@[i] == 0,
    {
        PcanBoardInfo {
            hw_version: 0,
            fw_version: 0,
            dr_version: 0,
            in_version: 0,
            irq_num: 0,
            can_num: 0,
            str_serial_num: [0u8; 20],
            str_hw_type: [0u8; 40],
            reserved: [0u16; 4],
        }
    }
}

} // verus!
