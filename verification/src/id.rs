use vstd::prelude::*;
use vstd::string::StringExecFns;

use crate::class::Class;
use crate::class::spec_class_of;

verus! {

/// The combined identity of a frame: one variant per recognized class,
/// each carrying that class's own sub-id, plus a bare `Unknown` used when
/// the class byte itself is unrecognized.
#[derive(Copy, Clone, Debug, PartialEq, Eq, Structural)]
pub enum Id {
    NAV(NAV),
    RXM(RXM),
    INF(INF),
    ACK(ACK),
    CFG(CFG),
    UPD(UPD),
    MON(MON),
    AID(AID),
    TIM(TIM),
    ESF(ESF),
    MGA(MGA),
    LOG(LOG),
    SEC(SEC),
    HNR(HNR),
    Unknown,
}

/// Sub-ids of the NAV class; `Unknown` covers every unrecognized byte.
#[derive(Copy, Clone, Debug, PartialEq, Eq, Structural)]
pub enum NAV {
    POSECEF,
    POSLLH,
    STATUS,
    DOP,
    ATT,
    SOL,
    PVT,
    ODO,
    RESETODO,
    VELECEF,
    VELNED,
    HPPOSECEF,
    HPPOSLLH,
    TIMEGPS,
    TIMEUTC,
    CLOCK,
    GIMEGLO,
    TIMEBDS,
    TIMEGAL,
    TIMEELS,
    NMI,
    SVINFO,
    DGPS,
    SBAS,
    ORB,
    SAT,
    GEOFENCE,
    SVIN,
    RELPOSNED,
    SLAS,
    AOPSTATUS,
    EOE,
    Unknown,
}

impl NAV {
    /// The raw wire byte that each sub-id tag encodes to.
    pub open spec fn spec_byte(self) -> u8 {
        match self {
            NAV::POSECEF => 0x01,
            NAV::POSLLH => 0x02,
            NAV::STATUS => 0x03,
            NAV::DOP => 0x04,
            NAV::ATT => 0x05,
            NAV::SOL => 0x06,
            NAV::PVT => 0x07,
            NAV::ODO => 0x09,
            NAV::RESETODO => 0x10,
            NAV::VELECEF => 0x11,
            NAV::VELNED => 0x12,
            NAV::HPPOSECEF => 0x13,
            NAV::HPPOSLLH => 0x14,
            NAV::TIMEGPS => 0x20,
            NAV::TIMEUTC => 0x21,
            NAV::CLOCK => 0x22,
            NAV::GIMEGLO => 0x23,
            NAV::TIMEBDS => 0x24,
            NAV::TIMEGAL => 0x25,
            NAV::TIMEELS => 0x26,
            NAV::NMI => 0x28,
            NAV::SVINFO => 0x30,
            NAV::DGPS => 0x31,
            NAV::SBAS => 0x32,
            NAV::ORB => 0x34,
            NAV::SAT => 0x35,
            NAV::GEOFENCE => 0x39,
            NAV::SVIN => 0x3b,
            NAV::RELPOSNED => 0x3c,
            NAV::SLAS => 0x42,
            NAV::AOPSTATUS => 0x60,
            NAV::EOE => 0x61,
            NAV::Unknown => 0x62,
        }
    }

    /// Resolve this tag to the raw wire byte it encodes to.
    pub fn byte(self) -> (r: u8)
        ensures
            r == self.spec_byte(),
    {
        match self {
            NAV::POSECEF => 0x01,
            NAV::POSLLH => 0x02,
            NAV::STATUS => 0x03,
            NAV::DOP => 0x04,
            NAV::ATT => 0x05,
            NAV::SOL => 0x06,
            NAV::PVT => 0x07,
            NAV::ODO => 0x09,
            NAV::RESETODO => 0x10,
            NAV::VELECEF => 0x11,
            NAV::VELNED => 0x12,
            NAV::HPPOSECEF => 0x13,
            NAV::HPPOSLLH => 0x14,
            NAV::TIMEGPS => 0x20,
            NAV::TIMEUTC => 0x21,
            NAV::CLOCK => 0x22,
            NAV::GIMEGLO => 0x23,
            NAV::TIMEBDS => 0x24,
            NAV::TIMEGAL => 0x25,
            NAV::TIMEELS => 0x26,
            NAV::NMI => 0x28,
            NAV::SVINFO => 0x30,
            NAV::DGPS => 0x31,
            NAV::SBAS => 0x32,
            NAV::ORB => 0x34,
            NAV::SAT => 0x35,
            NAV::GEOFENCE => 0x39,
            NAV::SVIN => 0x3b,
            NAV::RELPOSNED => 0x3c,
            NAV::SLAS => 0x42,
            NAV::AOPSTATUS => 0x60,
            NAV::EOE => 0x61,
            NAV::Unknown => 0x62,
        }
    }

    /// The sub-id tag denoted by a raw id byte: total, with `Unknown`
    /// for every unrecognized value.
    pub open spec fn spec_of_byte(b: u8) -> Self {
        if b == 0x01 {
            NAV::POSECEF
        } else if b == 0x02 {
            NAV::POSLLH
        } else if b == 0x03 {
            NAV::STATUS
        } else if b == 0x04 {
            NAV::DOP
        } else if b == 0x05 {
            NAV::ATT
        } else if b == 0x06 {
            NAV::SOL
        } else if b == 0x07 {
            NAV::PVT
        } else if b == 0x09 {
            NAV::ODO
        } else if b == 0x10 {
            NAV::RESETODO
        } else if b == 0x11 {
            NAV::VELECEF
        } else if b == 0x12 {
            NAV::VELNED
        } else if b == 0x13 {
            NAV::HPPOSECEF
        } else if b == 0x14 {
            NAV::HPPOSLLH
        } else if b == 0x20 {
            NAV::TIMEGPS
        } else if b == 0x21 {
            NAV::TIMEUTC
        } else if b == 0x22 {
            NAV::CLOCK
        } else if b == 0x23 {
            NAV::GIMEGLO
        } else if b == 0x24 {
            NAV::TIMEBDS
        } else if b == 0x25 {
            NAV::TIMEGAL
        } else if b == 0x26 {
            NAV::TIMEELS
        } else if b == 0x28 {
            NAV::NMI
        } else if b == 0x30 {
            NAV::SVINFO
        } else if b == 0x31 {
            NAV::DGPS
        } else if b == 0x32 {
            NAV::SBAS
        } else if b == 0x34 {
            NAV::ORB
        } else if b == 0x35 {
            NAV::SAT
        } else if b == 0x39 {
            NAV::GEOFENCE
        } else if b == 0x3b {
            NAV::SVIN
        } else if b == 0x3c {
            NAV::RELPOSNED
        } else if b == 0x42 {
            NAV::SLAS
        } else if b == 0x60 {
            NAV::AOPSTATUS
        } else if b == 0x61 {
            NAV::EOE
        } else {
            NAV::Unknown
        }
    }

    /// Classify a raw id byte; total over all 256 byte values.
    pub fn of_byte(b: u8) -> (r: Self)
        ensures
            r == Self::spec_of_byte(b),
    {
        if b == 0x01 {
            NAV::POSECEF
        } else if b == 0x02 {
            NAV::POSLLH
        } else if b == 0x03 {
            NAV::STATUS
        } else if b == 0x04 {
            NAV::DOP
        } else if b == 0x05 {
            NAV::ATT
        } else if b == 0x06 {
            NAV::SOL
        } else if b == 0x07 {
            NAV::PVT
        } else if b == 0x09 {
            NAV::ODO
        } else if b == 0x10 {
            NAV::RESETODO
        } else if b == 0x11 {
            NAV::VELECEF
        } else if b == 0x12 {
            NAV::VELNED
        } else if b == 0x13 {
            NAV::HPPOSECEF
        } else if b == 0x14 {
            NAV::HPPOSLLH
        } else if b == 0x20 {
            NAV::TIMEGPS
        } else if b == 0x21 {
            NAV::TIMEUTC
        } else if b == 0x22 {
            NAV::CLOCK
        } else if b == 0x23 {
            NAV::GIMEGLO
        } else if b == 0x24 {
            NAV::TIMEBDS
        } else if b == 0x25 {
            NAV::TIMEGAL
        } else if b == 0x26 {
            NAV::TIMEELS
        } else if b == 0x28 {
            NAV::NMI
        } else if b == 0x30 {
            NAV::SVINFO
        } else if b == 0x31 {
            NAV::DGPS
        } else if b == 0x32 {
            NAV::SBAS
        } else if b == 0x34 {
            NAV::ORB
        } else if b == 0x35 {
            NAV::SAT
        } else if b == 0x39 {
            NAV::GEOFENCE
        } else if b == 0x3b {
            NAV::SVIN
        } else if b == 0x3c {
            NAV::RELPOSNED
        } else if b == 0x42 {
            NAV::SLAS
        } else if b == 0x60 {
            NAV::AOPSTATUS
        } else if b == 0x61 {
            NAV::EOE
        } else {
            NAV::Unknown
        }
    }

    /// The sub-id name as it appears in human-readable renderings.
    pub open spec fn spec_name(self) -> Seq<char> {
        match self {
            NAV::POSECEF => "POSECEF"@,
            NAV::POSLLH => "POSLLH"@,
            NAV::STATUS => "STATUS"@,
            NAV::DOP => "DOP"@,
            NAV::ATT => "ATT"@,
            NAV::SOL => "SOL"@,
            NAV::PVT => "PVT"@,
            NAV::ODO => "ODO"@,
            NAV::RESETODO => "RESETODO"@,
            NAV::VELECEF => "VELECEF"@,
            NAV::VELNED => "VELNED"@,
            NAV::HPPOSECEF => "HPPOSECEF"@,
            NAV::HPPOSLLH => "HPPOSLLH"@,
            NAV::TIMEGPS => "TIMEGPS"@,
            NAV::TIMEUTC => "TIMEUTC"@,
            NAV::CLOCK => "CLOCK"@,
            NAV::GIMEGLO => "GIMEGLO"@,
            NAV::TIMEBDS => "TIMEBDS"@,
            NAV::TIMEGAL => "TIMEGAL"@,
            NAV::TIMEELS => "TIMEELS"@,
            NAV::NMI => "NMI"@,
            NAV::SVINFO => "SVINFO"@,
            NAV::DGPS => "DGPS"@,
            NAV::SBAS => "SBAS"@,
            NAV::ORB => "ORB"@,
            NAV::SAT => "SAT"@,
            NAV::GEOFENCE => "GEOFENCE"@,
            NAV::SVIN => "SVIN"@,
            NAV::RELPOSNED => "RELPOSNED"@,
            NAV::SLAS => "SLAS"@,
            NAV::AOPSTATUS => "AOPSTATUS"@,
            NAV::EOE => "EOE"@,
            NAV::Unknown => "Unknown"@,
        }
    }

    /// The sub-id name as it appears in human-readable renderings.
    pub fn name(self) -> (r: &'static str)
        ensures
            r@ == self.spec_name(),
    {
        match self {
            NAV::POSECEF => "POSECEF",
            NAV::POSLLH => "POSLLH",
            NAV::STATUS => "STATUS",
            NAV::DOP => "DOP",
            NAV::ATT => "ATT",
            NAV::SOL => "SOL",
            NAV::PVT => "PVT",
            NAV::ODO => "ODO",
            NAV::RESETODO => "RESETODO",
            NAV::VELECEF => "VELECEF",
            NAV::VELNED => "VELNED",
            NAV::HPPOSECEF => "HPPOSECEF",
            NAV::HPPOSLLH => "HPPOSLLH",
            NAV::TIMEGPS => "TIMEGPS",
            NAV::TIMEUTC => "TIMEUTC",
            NAV::CLOCK => "CLOCK",
            NAV::GIMEGLO => "GIMEGLO",
            NAV::TIMEBDS => "TIMEBDS",
            NAV::TIMEGAL => "TIMEGAL",
            NAV::TIMEELS => "TIMEELS",
            NAV::NMI => "NMI",
            NAV::SVINFO => "SVINFO",
            NAV::DGPS => "DGPS",
            NAV::SBAS => "SBAS",
            NAV::ORB => "ORB",
            NAV::SAT => "SAT",
            NAV::GEOFENCE => "GEOFENCE",
            NAV::SVIN => "SVIN",
            NAV::RELPOSNED => "RELPOSNED",
            NAV::SLAS => "SLAS",
            NAV::AOPSTATUS => "AOPSTATUS",
            NAV::EOE => "EOE",
            NAV::Unknown => "Unknown",
        }
    }
}

proof fn lemma_nav_byte_inverse(s: NAV)
    ensures
        NAV::spec_of_byte(s.spec_byte()) == s,
{
    match s {
        NAV::POSECEF => {}
        NAV::POSLLH => {}
        NAV::STATUS => {}
        NAV::DOP => {}
        NAV::ATT => {}
        NAV::SOL => {}
        NAV::PVT => {}
        NAV::ODO => {}
        NAV::RESETODO => {}
        NAV::VELECEF => {}
        NAV::VELNED => {}
        NAV::HPPOSECEF => {}
        NAV::HPPOSLLH => {}
        NAV::TIMEGPS => {}
        NAV::TIMEUTC => {}
        NAV::CLOCK => {}
        NAV::GIMEGLO => {}
        NAV::TIMEBDS => {}
        NAV::TIMEGAL => {}
        NAV::TIMEELS => {}
        NAV::NMI => {}
        NAV::SVINFO => {}
        NAV::DGPS => {}
        NAV::SBAS => {}
        NAV::ORB => {}
        NAV::SAT => {}
        NAV::GEOFENCE => {}
        NAV::SVIN => {}
        NAV::RELPOSNED => {}
        NAV::SLAS => {}
        NAV::AOPSTATUS => {}
        NAV::EOE => {}
        NAV::Unknown => {}
    }
}

/// Sub-ids of the RXM class; `Unknown` covers every unrecognized byte.
#[derive(Copy, Clone, Debug, PartialEq, Eq, Structural)]
pub enum RXM {
    SFRBX,
    MEASX,
    RAWX,
    SVSI,
    RTCM,
    PMREQ,
    RLM,
    IMES,
    Unknown,
}

impl RXM {
    /// The raw wire byte that each sub-id tag encodes to.
    pub open spec fn spec_byte(self) -> u8 {
        match self {
            RXM::SFRBX => 0x13,
            RXM::MEASX => 0x14,
            RXM::RAWX => 0x15,
            RXM::SVSI => 0x20,
            RXM::RTCM => 0x32,
            RXM::PMREQ => 0x41,
            RXM::RLM => 0x59,
            RXM::IMES => 0x61,
            RXM::Unknown => 0x62,
        }
    }

    /// Resolve this tag to the raw wire byte it encodes to.
    pub fn byte(self) -> (r: u8)
        ensures
            r == self.spec_byte(),
    {
        match self {
            RXM::SFRBX => 0x13,
            RXM::MEASX => 0x14,
            RXM::RAWX => 0x15,
            RXM::SVSI => 0x20,
            RXM::RTCM => 0x32,
            RXM::PMREQ => 0x41,
            RXM::RLM => 0x59,
            RXM::IMES => 0x61,
            RXM::Unknown => 0x62,
        }
    }

    /// The sub-id tag denoted by a raw id byte: total, with `Unknown`
    /// for every unrecognized value.
    pub open spec fn spec_of_byte(b: u8) -> Self {
        if b == 0x13 {
            RXM::SFRBX
        } else if b == 0x14 {
            RXM::MEASX
        } else if b == 0x15 {
            RXM::RAWX
        } else if b == 0x20 {
            RXM::SVSI
        } else if b == 0x32 {
            RXM::RTCM
        } else if b == 0x41 {
            RXM::PMREQ
        } else if b == 0x59 {
            RXM::RLM
        } else if b == 0x61 {
            RXM::IMES
        } else {
            RXM::Unknown
        }
    }

    /// Classify a raw id byte; total over all 256 byte values.
    pub fn of_byte(b: u8) -> (r: Self)
        ensures
            r == Self::spec_of_byte(b),
    {
        if b == 0x13 {
            RXM::SFRBX
        } else if b == 0x14 {
            RXM::MEASX
        } else if b == 0x15 {
            RXM::RAWX
        } else if b == 0x20 {
            RXM::SVSI
        } else if b == 0x32 {
            RXM::RTCM
        } else if b == 0x41 {
            RXM::PMREQ
        } else if b == 0x59 {
            RXM::RLM
        } else if b == 0x61 {
            RXM::IMES
        } else {
            RXM::Unknown
        }
    }

    /// The sub-id name as it appears in human-readable renderings.
    pub open spec fn spec_name(self) -> Seq<char> {
        match self {
            RXM::SFRBX => "SFRBX"@,
            RXM::MEASX => "MEASX"@,
            RXM::RAWX => "RAWX"@,
            RXM::SVSI => "SVSI"@,
            RXM::RTCM => "RTCM"@,
            RXM::PMREQ => "PMREQ"@,
            RXM::RLM => "RLM"@,
            RXM::IMES => "IMES"@,
            RXM::Unknown => "Unknown"@,
        }
    }

    /// The sub-id name as it appears in human-readable renderings.
    pub fn name(self) -> (r: &'static str)
        ensures
            r@ == self.spec_name(),
    {
        match self {
            RXM::SFRBX => "SFRBX",
            RXM::MEASX => "MEASX",
            RXM::RAWX => "RAWX",
            RXM::SVSI => "SVSI",
            RXM::RTCM => "RTCM",
            RXM::PMREQ => "PMREQ",
            RXM::RLM => "RLM",
            RXM::IMES => "IMES",
            RXM::Unknown => "Unknown",
        }
    }
}

proof fn lemma_rxm_byte_inverse(s: RXM)
    ensures
        RXM::spec_of_byte(s.spec_byte()) == s,
{
    match s {
        RXM::SFRBX => {}
        RXM::MEASX => {}
        RXM::RAWX => {}
        RXM::SVSI => {}
        RXM::RTCM => {}
        RXM::PMREQ => {}
        RXM::RLM => {}
        RXM::IMES => {}
        RXM::Unknown => {}
    }
}

/// Sub-ids of the INF class; `Unknown` covers every unrecognized byte.
#[derive(Copy, Clone, Debug, PartialEq, Eq, Structural)]
pub enum INF {
    ERROR,
    WARNING,
    NOTICE,
    TEST,
    DEBUG,
    Unknown,
}

impl INF {
    /// The raw wire byte that each sub-id tag encodes to.
    pub open spec fn spec_byte(self) -> u8 {
        match self {
            INF::ERROR => 0x00,
            INF::WARNING => 0x01,
            INF::NOTICE => 0x02,
            INF::TEST => 0x03,
            INF::DEBUG => 0x04,
            INF::Unknown => 0x05,
        }
    }

    /// Resolve this tag to the raw wire byte it encodes to.
    pub fn byte(self) -> (r: u8)
        ensures
            r == self.spec_byte(),
    {
        match self {
            INF::ERROR => 0x00,
            INF::WARNING => 0x01,
            INF::NOTICE => 0x02,
            INF::TEST => 0x03,
            INF::DEBUG => 0x04,
            INF::Unknown => 0x05,
        }
    }

    /// The sub-id tag denoted by a raw id byte: total, with `Unknown`
    /// for every unrecognized value.
    pub open spec fn spec_of_byte(b: u8) -> Self {
        if b == 0x00 {
            INF::ERROR
        } else if b == 0x01 {
            INF::WARNING
        } else if b == 0x02 {
            INF::NOTICE
        } else if b == 0x03 {
            INF::TEST
        } else if b == 0x04 {
            INF::DEBUG
        } else {
            INF::Unknown
        }
    }

    /// Classify a raw id byte; total over all 256 byte values.
    pub fn of_byte(b: u8) -> (r: Self)
        ensures
            r == Self::spec_of_byte(b),
    {
        if b == 0x00 {
            INF::ERROR
        } else if b == 0x01 {
            INF::WARNING
        } else if b == 0x02 {
            INF::NOTICE
        } else if b == 0x03 {
            INF::TEST
        } else if b == 0x04 {
            INF::DEBUG
        } else {
            INF::Unknown
        }
    }

    /// The sub-id name as it appears in human-readable renderings.
    pub open spec fn spec_name(self) -> Seq<char> {
        match self {
            INF::ERROR => "ERROR"@,
            INF::WARNING => "WARNING"@,
            INF::NOTICE => "NOTICE"@,
            INF::TEST => "TEST"@,
            INF::DEBUG => "DEBUG"@,
            INF::Unknown => "Unknown"@,
        }
    }

    /// The sub-id name as it appears in human-readable renderings.
    pub fn name(self) -> (r: &'static str)
        ensures
            r@ == self.spec_name(),
    {
        match self {
            INF::ERROR => "ERROR",
            INF::WARNING => "WARNING",
            INF::NOTICE => "NOTICE",
            INF::TEST => "TEST",
            INF::DEBUG => "DEBUG",
            INF::Unknown => "Unknown",
        }
    }
}

proof fn lemma_inf_byte_inverse(s: INF)
    ensures
        INF::spec_of_byte(s.spec_byte()) == s,
{
    match s {
        INF::ERROR => {}
        INF::WARNING => {}
        INF::NOTICE => {}
        INF::TEST => {}
        INF::DEBUG => {}
        INF::Unknown => {}
    }
}

/// Sub-ids of the ACK class; `Unknown` covers every unrecognized byte.
#[derive(Copy, Clone, Debug, PartialEq, Eq, Structural)]
pub enum ACK {
    NAK,
    ACK,
    Unknown,
}

impl ACK {
    /// The raw wire byte that each sub-id tag encodes to.
    pub open spec fn spec_byte(self) -> u8 {
        match self {
            ACK::NAK => 0x00,
            ACK::ACK => 0x01,
            ACK::Unknown => 0x02,
        }
    }

    /// Resolve this tag to the raw wire byte it encodes to.
    pub fn byte(self) -> (r: u8)
        ensures
            r == self.spec_byte(),
    {
        match self {
            ACK::NAK => 0x00,
            ACK::ACK => 0x01,
            ACK::Unknown => 0x02,
        }
    }

    /// The sub-id tag denoted by a raw id byte: total, with `Unknown`
    /// for every unrecognized value.
    pub open spec fn spec_of_byte(b: u8) -> Self {
        if b == 0x00 {
            ACK::NAK
        } else if b == 0x01 {
            ACK::ACK
        } else {
            ACK::Unknown
        }
    }

    /// Classify a raw id byte; total over all 256 byte values.
    pub fn of_byte(b: u8) -> (r: Self)
        ensures
            r == Self::spec_of_byte(b),
    {
        if b == 0x00 {
            ACK::NAK
        } else if b == 0x01 {
            ACK::ACK
        } else {
            ACK::Unknown
        }
    }

    /// The sub-id name as it appears in human-readable renderings.
    pub open spec fn spec_name(self) -> Seq<char> {
        match self {
            ACK::NAK => "NAK"@,
            ACK::ACK => "ACK"@,
            ACK::Unknown => "Unknown"@,
        }
    }

    /// The sub-id name as it appears in human-readable renderings.
    pub fn name(self) -> (r: &'static str)
        ensures
            r@ == self.spec_name(),
    {
        match self {
            ACK::NAK => "NAK",
            ACK::ACK => "ACK",
            ACK::Unknown => "Unknown",
        }
    }
}

proof fn lemma_ack_byte_inverse(s: ACK)
    ensures
        ACK::spec_of_byte(s.spec_byte()) == s,
{
    match s {
        ACK::NAK => {}
        ACK::ACK => {}
        ACK::Unknown => {}
    }
}

/// Sub-ids of the CFG class; `Unknown` covers every unrecognized byte.
#[derive(Copy, Clone, Debug, PartialEq, Eq, Structural)]
pub enum CFG {
    PRT,
    MSG,
    INF,
    RST,
    DAT,
    RATE,
    CFG,
    RXM,
    ANT,
    SBAS,
    NMEA,
    USB,
    ODO,
    NAVX5,
    NAV5,
    TP5,
    RINV,
    ITFM,
    PM2,
    TMODE2,
    GNSS,
    LOGFILTER,
    TXSLOT,
    PWR,
    HNR,
    ESRC,
    DOSC,
    SMGR,
    GEOFENCE,
    DGNSS,
    TMODE3,
    PMS,
    SLAS,
    BATCH,
    Unknown,
}

impl CFG {
    /// The raw wire byte that each sub-id tag encodes to.
    pub open spec fn spec_byte(self) -> u8 {
        match self {
            CFG::PRT => 0x00,
            CFG::MSG => 0x01,
            CFG::INF => 0x02,
            CFG::RST => 0x04,
            CFG::DAT => 0x06,
            CFG::RATE => 0x08,
            CFG::CFG => 0x09,
            CFG::RXM => 0x11,
            CFG::ANT => 0x13,
            CFG::SBAS => 0x16,
            CFG::NMEA => 0x17,
            CFG::USB => 0x1b,
            CFG::ODO => 0x1e,
            CFG::NAVX5 => 0x23,
            CFG::NAV5 => 0x24,
            CFG::TP5 => 0x31,
            CFG::RINV => 0x34,
            CFG::ITFM => 0x39,
            CFG::PM2 => 0x3b,
            CFG::TMODE2 => 0x3d,
            CFG::GNSS => 0x3e,
            CFG::LOGFILTER => 0x47,
            CFG::TXSLOT => 0x53,
            CFG::PWR => 0x57,
            CFG::HNR => 0x5c,
            CFG::ESRC => 0x60,
            CFG::DOSC => 0x61,
            CFG::SMGR => 0x62,
            CFG::GEOFENCE => 0x69,
            CFG::DGNSS => 0x70,
            CFG::TMODE3 => 0x71,
            CFG::PMS => 0x86,
            CFG::SLAS => 0x8d,
            CFG::BATCH => 0x93,
            CFG::Unknown => 0x94,
        }
    }

    /// Resolve this tag to the raw wire byte it encodes to.
    pub fn byte(self) -> (r: u8)
        ensures
            r == self.spec_byte(),
    {
        match self {
            CFG::PRT => 0x00,
            CFG::MSG => 0x01,
            CFG::INF => 0x02,
            CFG::RST => 0x04,
            CFG::DAT => 0x06,
            CFG::RATE => 0x08,
            CFG::CFG => 0x09,
            CFG::RXM => 0x11,
            CFG::ANT => 0x13,
            CFG::SBAS => 0x16,
            CFG::NMEA => 0x17,
            CFG::USB => 0x1b,
            CFG::ODO => 0x1e,
            CFG::NAVX5 => 0x23,
            CFG::NAV5 => 0x24,
            CFG::TP5 => 0x31,
            CFG::RINV => 0x34,
            CFG::ITFM => 0x39,
            CFG::PM2 => 0x3b,
            CFG::TMODE2 => 0x3d,
            CFG::GNSS => 0x3e,
            CFG::LOGFILTER => 0x47,
            CFG::TXSLOT => 0x53,
            CFG::PWR => 0x57,
            CFG::HNR => 0x5c,
            CFG::ESRC => 0x60,
            CFG::DOSC => 0x61,
            CFG::SMGR => 0x62,
            CFG::GEOFENCE => 0x69,
            CFG::DGNSS => 0x70,
            CFG::TMODE3 => 0x71,
            CFG::PMS => 0x86,
            CFG::SLAS => 0x8d,
            CFG::BATCH => 0x93,
            CFG::Unknown => 0x94,
        }
    }

    /// The sub-id tag denoted by a raw id byte: total, with `Unknown`
    /// for every unrecognized value.
    pub open spec fn spec_of_byte(b: u8) -> Self {
        if b == 0x00 {
            CFG::PRT
        } else if b == 0x01 {
            CFG::MSG
        } else if b == 0x02 {
            CFG::INF
        } else if b == 0x04 {
            CFG::RST
        } else if b == 0x06 {
            CFG::DAT
        } else if b == 0x08 {
            CFG::RATE
        } else if b == 0x09 {
            CFG::CFG
        } else if b == 0x11 {
            CFG::RXM
        } else if b == 0x13 {
            CFG::ANT
        } else if b == 0x16 {
            CFG::SBAS
        } else if b == 0x17 {
            CFG::NMEA
        } else if b == 0x1b {
            CFG::USB
        } else if b == 0x1e {
            CFG::ODO
        } else if b == 0x23 {
            CFG::NAVX5
        } else if b == 0x24 {
            CFG::NAV5
        } else if b == 0x31 {
            CFG::TP5
        } else if b == 0x34 {
            CFG::RINV
        } else if b == 0x39 {
            CFG::ITFM
        } else if b == 0x3b {
            CFG::PM2
        } else if b == 0x3d {
            CFG::TMODE2
        } else if b == 0x3e {
            CFG::GNSS
        } else if b == 0x47 {
            CFG::LOGFILTER
        } else if b == 0x53 {
            CFG::TXSLOT
        } else if b == 0x57 {
            CFG::PWR
        } else if b == 0x5c {
            CFG::HNR
        } else if b == 0x60 {
            CFG::ESRC
        } else if b == 0x61 {
            CFG::DOSC
        } else if b == 0x62 {
            CFG::SMGR
        } else if b == 0x69 {
            CFG::GEOFENCE
        } else if b == 0x70 {
            CFG::DGNSS
        } else if b == 0x71 {
            CFG::TMODE3
        } else if b == 0x86 {
            CFG::PMS
        } else if b == 0x8d {
            CFG::SLAS
        } else if b == 0x93 {
            CFG::BATCH
        } else {
            CFG::Unknown
        }
    }

    /// Classify a raw id byte; total over all 256 byte values.
    pub fn of_byte(b: u8) -> (r: Self)
        ensures
            r == Self::spec_of_byte(b),
    {
        if b == 0x00 {
            CFG::PRT
        } else if b == 0x01 {
            CFG::MSG
        } else if b == 0x02 {
            CFG::INF
        } else if b == 0x04 {
            CFG::RST
        } else if b == 0x06 {
            CFG::DAT
        } else if b == 0x08 {
            CFG::RATE
        } else if b == 0x09 {
            CFG::CFG
        } else if b == 0x11 {
            CFG::RXM
        } else if b == 0x13 {
            CFG::ANT
        } else if b == 0x16 {
            CFG::SBAS
        } else if b == 0x17 {
            CFG::NMEA
        } else if b == 0x1b {
            CFG::USB
        } else if b == 0x1e {
            CFG::ODO
        } else if b == 0x23 {
            CFG::NAVX5
        } else if b == 0x24 {
            CFG::NAV5
        } else if b == 0x31 {
            CFG::TP5
        } else if b == 0x34 {
            CFG::RINV
        } else if b == 0x39 {
            CFG::ITFM
        } else if b == 0x3b {
            CFG::PM2
        } else if b == 0x3d {
            CFG::TMODE2
        } else if b == 0x3e {
            CFG::GNSS
        } else if b == 0x47 {
            CFG::LOGFILTER
        } else if b == 0x53 {
            CFG::TXSLOT
        } else if b == 0x57 {
            CFG::PWR
        } else if b == 0x5c {
            CFG::HNR
        } else if b == 0x60 {
            CFG::ESRC
        } else if b == 0x61 {
            CFG::DOSC
        } else if b == 0x62 {
            CFG::SMGR
        } else if b == 0x69 {
            CFG::GEOFENCE
        } else if b == 0x70 {
            CFG::DGNSS
        } else if b == 0x71 {
            CFG::TMODE3
        } else if b == 0x86 {
            CFG::PMS
        } else if b == 0x8d {
            CFG::SLAS
        } else if b == 0x93 {
            CFG::BATCH
        } else {
            CFG::Unknown
        }
    }

    /// The sub-id name as it appears in human-readable renderings.
    pub open spec fn spec_name(self) -> Seq<char> {
        match self {
            CFG::PRT => "PRT"@,
            CFG::MSG => "MSG"@,
            CFG::INF => "INF"@,
            CFG::RST => "RST"@,
            CFG::DAT => "DAT"@,
            CFG::RATE => "RATE"@,
            CFG::CFG => "CFG"@,
            CFG::RXM => "RXM"@,
            CFG::ANT => "ANT"@,
            CFG::SBAS => "SBAS"@,
            CFG::NMEA => "NMEA"@,
            CFG::USB => "USB"@,
            CFG::ODO => "ODO"@,
            CFG::NAVX5 => "NAVX5"@,
            CFG::NAV5 => "NAV5"@,
            CFG::TP5 => "TP5"@,
            CFG::RINV => "RINV"@,
            CFG::ITFM => "ITFM"@,
            CFG::PM2 => "PM2"@,
            CFG::TMODE2 => "TMODE2"@,
            CFG::GNSS => "GNSS"@,
            CFG::LOGFILTER => "LOGFILTER"@,
            CFG::TXSLOT => "TXSLOT"@,
            CFG::PWR => "PWR"@,
            CFG::HNR => "HNR"@,
            CFG::ESRC => "ESRC"@,
            CFG::DOSC => "DOSC"@,
            CFG::SMGR => "SMGR"@,
            CFG::GEOFENCE => "GEOFENCE"@,
            CFG::DGNSS => "DGNSS"@,
            CFG::TMODE3 => "TMODE3"@,
            CFG::PMS => "PMS"@,
            CFG::SLAS => "SLAS"@,
            CFG::BATCH => "BATCH"@,
            CFG::Unknown => "Unknown"@,
        }
    }

    /// The sub-id name as it appears in human-readable renderings.
    pub fn name(self) -> (r: &'static str)
        ensures
            r@ == self.spec_name(),
    {
        match self {
            CFG::PRT => "PRT",
            CFG::MSG => "MSG",
            CFG::INF => "INF",
            CFG::RST => "RST",
            CFG::DAT => "DAT",
            CFG::RATE => "RATE",
            CFG::CFG => "CFG",
            CFG::RXM => "RXM",
            CFG::ANT => "ANT",
            CFG::SBAS => "SBAS",
            CFG::NMEA => "NMEA",
            CFG::USB => "USB",
            CFG::ODO => "ODO",
            CFG::NAVX5 => "NAVX5",
            CFG::NAV5 => "NAV5",
            CFG::TP5 => "TP5",
            CFG::RINV => "RINV",
            CFG::ITFM => "ITFM",
            CFG::PM2 => "PM2",
            CFG::TMODE2 => "TMODE2",
            CFG::GNSS => "GNSS",
            CFG::LOGFILTER => "LOGFILTER",
            CFG::TXSLOT => "TXSLOT",
            CFG::PWR => "PWR",
            CFG::HNR => "HNR",
            CFG::ESRC => "ESRC",
            CFG::DOSC => "DOSC",
            CFG::SMGR => "SMGR",
            CFG::GEOFENCE => "GEOFENCE",
            CFG::DGNSS => "DGNSS",
            CFG::TMODE3 => "TMODE3",
            CFG::PMS => "PMS",
            CFG::SLAS => "SLAS",
            CFG::BATCH => "BATCH",
            CFG::Unknown => "Unknown",
        }
    }
}

proof fn lemma_cfg_byte_inverse(s: CFG)
    ensures
        CFG::spec_of_byte(s.spec_byte()) == s,
{
    match s {
        CFG::PRT => {}
        CFG::MSG => {}
        CFG::INF => {}
        CFG::RST => {}
        CFG::DAT => {}
        CFG::RATE => {}
        CFG::CFG => {}
        CFG::RXM => {}
        CFG::ANT => {}
        CFG::SBAS => {}
        CFG::NMEA => {}
        CFG::USB => {}
        CFG::ODO => {}
        CFG::NAVX5 => {}
        CFG::NAV5 => {}
        CFG::TP5 => {}
        CFG::RINV => {}
        CFG::ITFM => {}
        CFG::PM2 => {}
        CFG::TMODE2 => {}
        CFG::GNSS => {}
        CFG::LOGFILTER => {}
        CFG::TXSLOT => {}
        CFG::PWR => {}
        CFG::HNR => {}
        CFG::ESRC => {}
        CFG::DOSC => {}
        CFG::SMGR => {}
        CFG::GEOFENCE => {}
        CFG::DGNSS => {}
        CFG::TMODE3 => {}
        CFG::PMS => {}
        CFG::SLAS => {}
        CFG::BATCH => {}
        CFG::Unknown => {}
    }
}

/// Sub-ids of the UPD class; `Unknown` covers every unrecognized byte.
#[derive(Copy, Clone, Debug, PartialEq, Eq, Structural)]
pub enum UPD {
    SOS,
    Unknown,
}

impl UPD {
    /// The raw wire byte that each sub-id tag encodes to.
    pub open spec fn spec_byte(self) -> u8 {
        match self {
            UPD::SOS => 0x14,
            UPD::Unknown => 0x15,
        }
    }

    /// Resolve this tag to the raw wire byte it encodes to.
    pub fn byte(self) -> (r: u8)
        ensures
            r == self.spec_byte(),
    {
        match self {
            UPD::SOS => 0x14,
            UPD::Unknown => 0x15,
        }
    }

    /// The sub-id tag denoted by a raw id byte: total, with `Unknown`
    /// for every unrecognized value.
    pub open spec fn spec_of_byte(b: u8) -> Self {
        if b == 0x14 {
            UPD::SOS
        } else {
            UPD::Unknown
        }
    }

    /// Classify a raw id byte; total over all 256 byte values.
    pub fn of_byte(b: u8) -> (r: Self)
        ensures
            r == Self::spec_of_byte(b),
    {
        if b == 0x14 {
            UPD::SOS
        } else {
            UPD::Unknown
        }
    }

    /// The sub-id name as it appears in human-readable renderings.
    pub open spec fn spec_name(self) -> Seq<char> {
        match self {
            UPD::SOS => "SOS"@,
            UPD::Unknown => "Unknown"@,
        }
    }

    /// The sub-id name as it appears in human-readable renderings.
    pub fn name(self) -> (r: &'static str)
        ensures
            r@ == self.spec_name(),
    {
        match self {
            UPD::SOS => "SOS",
            UPD::Unknown => "Unknown",
        }
    }
}

proof fn lemma_upd_byte_inverse(s: UPD)
    ensures
        UPD::spec_of_byte(s.spec_byte()) == s,
{
    match s {
        UPD::SOS => {}
        UPD::Unknown => {}
    }
}

/// Sub-ids of the MON class; `Unknown` covers every unrecognized byte.
#[derive(Copy, Clone, Debug, PartialEq, Eq, Structural)]
pub enum MON {
    IO,
    VER,
    MSGPP,
    RXBUF,
    TXBUF,
    HW,
    HW2,
    RXR,
    PATCH,
    GNSS,
    SMGR,
    BATCH,
    Unknown,
}

impl MON {
    /// The raw wire byte that each sub-id tag encodes to.
    pub open spec fn spec_byte(self) -> u8 {
        match self {
            MON::IO => 0x02,
            MON::VER => 0x04,
            MON::MSGPP => 0x06,
            MON::RXBUF => 0x07,
            MON::TXBUF => 0x08,
            MON::HW => 0x09,
            MON::HW2 => 0x0b,
            MON::RXR => 0x21,
            MON::PATCH => 0x27,
            MON::GNSS => 0x28,
            MON::SMGR => 0x2e,
            MON::BATCH => 0x32,
            MON::Unknown => 0x33,
        }
    }

    /// Resolve this tag to the raw wire byte it encodes to.
    pub fn byte(self) -> (r: u8)
        ensures
            r == self.spec_byte(),
    {
        match self {
            MON::IO => 0x02,
            MON::VER => 0x04,
            MON::MSGPP => 0x06,
            MON::RXBUF => 0x07,
            MON::TXBUF => 0x08,
            MON::HW => 0x09,
            MON::HW2 => 0x0b,
            MON::RXR => 0x21,
            MON::PATCH => 0x27,
            MON::GNSS => 0x28,
            MON::SMGR => 0x2e,
            MON::BATCH => 0x32,
            MON::Unknown => 0x33,
        }
    }

    /// The sub-id tag denoted by a raw id byte: total, with `Unknown`
    /// for every unrecognized value.
    pub open spec fn spec_of_byte(b: u8) -> Self {
        if b == 0x02 {
            MON::IO
        } else if b == 0x04 {
            MON::VER
        } else if b == 0x06 {
            MON::MSGPP
        } else if b == 0x07 {
            MON::RXBUF
        } else if b == 0x08 {
            MON::TXBUF
        } else if b == 0x09 {
            MON::HW
        } else if b == 0x0b {
            MON::HW2
        } else if b == 0x21 {
            MON::RXR
        } else if b == 0x27 {
            MON::PATCH
        } else if b == 0x28 {
            MON::GNSS
        } else if b == 0x2e {
            MON::SMGR
        } else if b == 0x32 {
            MON::BATCH
        } else {
            MON::Unknown
        }
    }

    /// Classify a raw id byte; total over all 256 byte values.
    pub fn of_byte(b: u8) -> (r: Self)
        ensures
            r == Self::spec_of_byte(b),
    {
        if b == 0x02 {
            MON::IO
        } else if b == 0x04 {
            MON::VER
        } else if b == 0x06 {
            MON::MSGPP
        } else if b == 0x07 {
            MON::RXBUF
        } else if b == 0x08 {
            MON::TXBUF
        } else if b == 0x09 {
            MON::HW
        } else if b == 0x0b {
            MON::HW2
        } else if b == 0x21 {
            MON::RXR
        } else if b == 0x27 {
            MON::PATCH
        } else if b == 0x28 {
            MON::GNSS
        } else if b == 0x2e {
            MON::SMGR
        } else if b == 0x32 {
            MON::BATCH
        } else {
            MON::Unknown
        }
    }

    /// The sub-id name as it appears in human-readable renderings.
    pub open spec fn spec_name(self) -> Seq<char> {
        match self {
            MON::IO => "IO"@,
            MON::VER => "VER"@,
            MON::MSGPP => "MSGPP"@,
            MON::RXBUF => "RXBUF"@,
            MON::TXBUF => "TXBUF"@,
            MON::HW => "HW"@,
            MON::HW2 => "HW2"@,
            MON::RXR => "RXR"@,
            MON::PATCH => "PATCH"@,
            MON::GNSS => "GNSS"@,
            MON::SMGR => "SMGR"@,
            MON::BATCH => "BATCH"@,
            MON::Unknown => "Unknown"@,
        }
    }

    /// The sub-id name as it appears in human-readable renderings.
    pub fn name(self) -> (r: &'static str)
        ensures
            r@ == self.spec_name(),
    {
        match self {
            MON::IO => "IO",
            MON::VER => "VER",
            MON::MSGPP => "MSGPP",
            MON::RXBUF => "RXBUF",
            MON::TXBUF => "TXBUF",
            MON::HW => "HW",
            MON::HW2 => "HW2",
            MON::RXR => "RXR",
            MON::PATCH => "PATCH",
            MON::GNSS => "GNSS",
            MON::SMGR => "SMGR",
            MON::BATCH => "BATCH",
            MON::Unknown => "Unknown",
        }
    }
}

proof fn lemma_mon_byte_inverse(s: MON)
    ensures
        MON::spec_of_byte(s.spec_byte()) == s,
{
    match s {
        MON::IO => {}
        MON::VER => {}
        MON::MSGPP => {}
        MON::RXBUF => {}
        MON::TXBUF => {}
        MON::HW => {}
        MON::HW2 => {}
        MON::RXR => {}
        MON::PATCH => {}
        MON::GNSS => {}
        MON::SMGR => {}
        MON::BATCH => {}
        MON::Unknown => {}
    }
}

/// Sub-ids of the AID class; `Unknown` covers every unrecognized byte.
#[derive(Copy, Clone, Debug, PartialEq, Eq, Structural)]
pub enum AID {
    INI,
    HUI,
    ALM,
    EPH,
    AOP,
    Unknown,
}

impl AID {
    /// The raw wire byte that each sub-id tag encodes to.
    pub open spec fn spec_byte(self) -> u8 {
        match self {
            AID::INI => 0x01,
            AID::HUI => 0x02,
            AID::ALM => 0x30,
            AID::EPH => 0x31,
            AID::AOP => 0x33,
            AID::Unknown => 0x34,
        }
    }

    /// Resolve this tag to the raw wire byte it encodes to.
    pub fn byte(self) -> (r: u8)
        ensures
            r == self.spec_byte(),
    {
        match self {
            AID::INI => 0x01,
            AID::HUI => 0x02,
            AID::ALM => 0x30,
            AID::EPH => 0x31,
            AID::AOP => 0x33,
            AID::Unknown => 0x34,
        }
    }

    /// The sub-id tag denoted by a raw id byte: total, with `Unknown`
    /// for every unrecognized value.
    pub open spec fn spec_of_byte(b: u8) -> Self {
        if b == 0x01 {
            AID::INI
        } else if b == 0x02 {
            AID::HUI
        } else if b == 0x30 {
            AID::ALM
        } else if b == 0x31 {
            AID::EPH
        } else if b == 0x33 {
            AID::AOP
        } else {
            AID::Unknown
        }
    }

    /// Classify a raw id byte; total over all 256 byte values.
    pub fn of_byte(b: u8) -> (r: Self)
        ensures
            r == Self::spec_of_byte(b),
    {
        if b == 0x01 {
            AID::INI
        } else if b == 0x02 {
            AID::HUI
        } else if b == 0x30 {
            AID::ALM
        } else if b == 0x31 {
            AID::EPH
        } else if b == 0x33 {
            AID::AOP
        } else {
            AID::Unknown
        }
    }

    /// The sub-id name as it appears in human-readable renderings.
    pub open spec fn spec_name(self) -> Seq<char> {
        match self {
            AID::INI => "INI"@,
            AID::HUI => "HUI"@,
            AID::ALM => "ALM"@,
            AID::EPH => "EPH"@,
            AID::AOP => "AOP"@,
            AID::Unknown => "Unknown"@,
        }
    }

    /// The sub-id name as it appears in human-readable renderings.
    pub fn name(self) -> (r: &'static str)
        ensures
            r@ == self.spec_name(),
    {
        match self {
            AID::INI => "INI",
            AID::HUI => "HUI",
            AID::ALM => "ALM",
            AID::EPH => "EPH",
            AID::AOP => "AOP",
            AID::Unknown => "Unknown",
        }
    }
}

proof fn lemma_aid_byte_inverse(s: AID)
    ensures
        AID::spec_of_byte(s.spec_byte()) == s,
{
    match s {
        AID::INI => {}
        AID::HUI => {}
        AID::ALM => {}
        AID::EPH => {}
        AID::AOP => {}
        AID::Unknown => {}
    }
}

/// Sub-ids of the TIM class; `Unknown` covers every unrecognized byte.
#[derive(Copy, Clone, Debug, PartialEq, Eq, Structural)]
pub enum TIM {
    TP,
    TM2,
    SVIN,
    VRFY,
    DOSC,
    TOS,
    SMEAS,
    VCOCAL,
    FCHG,
    HOC,
    Unknown,
}

impl TIM {
    /// The raw wire byte that each sub-id tag encodes to.
    pub open spec fn spec_byte(self) -> u8 {
        match self {
            TIM::TP => 0x01,
            TIM::TM2 => 0x03,
            TIM::SVIN => 0x04,
            TIM::VRFY => 0x06,
            TIM::DOSC => 0x11,
            TIM::TOS => 0x12,
            TIM::SMEAS => 0x13,
            TIM::VCOCAL => 0x15,
            TIM::FCHG => 0x16,
            TIM::HOC => 0x17,
            TIM::Unknown => 0x18,
        }
    }

    /// Resolve this tag to the raw wire byte it encodes to.
    pub fn byte(self) -> (r: u8)
        ensures
            r == self.spec_byte(),
    {
        match self {
            TIM::TP => 0x01,
            TIM::TM2 => 0x03,
            TIM::SVIN => 0x04,
            TIM::VRFY => 0x06,
            TIM::DOSC => 0x11,
            TIM::TOS => 0x12,
            TIM::SMEAS => 0x13,
            TIM::VCOCAL => 0x15,
            TIM::FCHG => 0x16,
            TIM::HOC => 0x17,
            TIM::Unknown => 0x18,
        }
    }

    /// The sub-id tag denoted by a raw id byte: total, with `Unknown`
    /// for every unrecognized value.
    pub open spec fn spec_of_byte(b: u8) -> Self {
        if b == 0x01 {
            TIM::TP
        } else if b == 0x03 {
            TIM::TM2
        } else if b == 0x04 {
            TIM::SVIN
        } else if b == 0x06 {
            TIM::VRFY
        } else if b == 0x11 {
            TIM::DOSC
        } else if b == 0x12 {
            TIM::TOS
        } else if b == 0x13 {
            TIM::SMEAS
        } else if b == 0x15 {
            TIM::VCOCAL
        } else if b == 0x16 {
            TIM::FCHG
        } else if b == 0x17 {
            TIM::HOC
        } else {
            TIM::Unknown
        }
    }

    /// Classify a raw id byte; total over all 256 byte values.
    pub fn of_byte(b: u8) -> (r: Self)
        ensures
            r == Self::spec_of_byte(b),
    {
        if b == 0x01 {
            TIM::TP
        } else if b == 0x03 {
            TIM::TM2
        } else if b == 0x04 {
            TIM::SVIN
        } else if b == 0x06 {
            TIM::VRFY
        } else if b == 0x11 {
            TIM::DOSC
        } else if b == 0x12 {
            TIM::TOS
        } else if b == 0x13 {
            TIM::SMEAS
        } else if b == 0x15 {
            TIM::VCOCAL
        } else if b == 0x16 {
            TIM::FCHG
        } else if b == 0x17 {
            TIM::HOC
        } else {
            TIM::Unknown
        }
    }

    /// The sub-id name as it appears in human-readable renderings.
    pub open spec fn spec_name(self) -> Seq<char> {
        match self {
            TIM::TP => "TP"@,
            TIM::TM2 => "TM2"@,
            TIM::SVIN => "SVIN"@,
            TIM::VRFY => "VRFY"@,
            TIM::DOSC => "DOSC"@,
            TIM::TOS => "TOS"@,
            TIM::SMEAS => "SMEAS"@,
            TIM::VCOCAL => "VCOCAL"@,
            TIM::FCHG => "FCHG"@,
            TIM::HOC => "HOC"@,
            TIM::Unknown => "Unknown"@,
        }
    }

    /// The sub-id name as it appears in human-readable renderings.
    pub fn name(self) -> (r: &'static str)
        ensures
            r@ == self.spec_name(),
    {
        match self {
            TIM::TP => "TP",
            TIM::TM2 => "TM2",
            TIM::SVIN => "SVIN",
            TIM::VRFY => "VRFY",
            TIM::DOSC => "DOSC",
            TIM::TOS => "TOS",
            TIM::SMEAS => "SMEAS",
            TIM::VCOCAL => "VCOCAL",
            TIM::FCHG => "FCHG",
            TIM::HOC => "HOC",
            TIM::Unknown => "Unknown",
        }
    }
}

proof fn lemma_tim_byte_inverse(s: TIM)
    ensures
        TIM::spec_of_byte(s.spec_byte()) == s,
{
    match s {
        TIM::TP => {}
        TIM::TM2 => {}
        TIM::SVIN => {}
        TIM::VRFY => {}
        TIM::DOSC => {}
        TIM::TOS => {}
        TIM::SMEAS => {}
        TIM::VCOCAL => {}
        TIM::FCHG => {}
        TIM::HOC => {}
        TIM::Unknown => {}
    }
}

/// Sub-ids of the ESF class; `Unknown` covers every unrecognized byte.
#[derive(Copy, Clone, Debug, PartialEq, Eq, Structural)]
pub enum ESF {
    MEAS,
    RAW,
    STATUS,
    INS,
    Unknown,
}

impl ESF {
    /// The raw wire byte that each sub-id tag encodes to.
    pub open spec fn spec_byte(self) -> u8 {
        match self {
            ESF::MEAS => 0x02,
            ESF::RAW => 0x03,
            ESF::STATUS => 0x10,
            ESF::INS => 0x15,
            ESF::Unknown => 0x16,
        }
    }

    /// Resolve this tag to the raw wire byte it encodes to.
    pub fn byte(self) -> (r: u8)
        ensures
            r == self.spec_byte(),
    {
        match self {
            ESF::MEAS => 0x02,
            ESF::RAW => 0x03,
            ESF::STATUS => 0x10,
            ESF::INS => 0x15,
            ESF::Unknown => 0x16,
        }
    }

    /// The sub-id tag denoted by a raw id byte: total, with `Unknown`
    /// for every unrecognized value.
    pub open spec fn spec_of_byte(b: u8) -> Self {
        if b == 0x02 {
            ESF::MEAS
        } else if b == 0x03 {
            ESF::RAW
        } else if b == 0x10 {
            ESF::STATUS
        } else if b == 0x15 {
            ESF::INS
        } else {
            ESF::Unknown
        }
    }

    /// Classify a raw id byte; total over all 256 byte values.
    pub fn of_byte(b: u8) -> (r: Self)
        ensures
            r == Self::spec_of_byte(b),
    {
        if b == 0x02 {
            ESF::MEAS
        } else if b == 0x03 {
            ESF::RAW
        } else if b == 0x10 {
            ESF::STATUS
        } else if b == 0x15 {
            ESF::INS
        } else {
            ESF::Unknown
        }
    }

    /// The sub-id name as it appears in human-readable renderings.
    pub open spec fn spec_name(self) -> Seq<char> {
        match self {
            ESF::MEAS => "MEAS"@,
            ESF::RAW => "RAW"@,
            ESF::STATUS => "STATUS"@,
            ESF::INS => "INS"@,
            ESF::Unknown => "Unknown"@,
        }
    }

    /// The sub-id name as it appears in human-readable renderings.
    pub fn name(self) -> (r: &'static str)
        ensures
            r@ == self.spec_name(),
    {
        match self {
            ESF::MEAS => "MEAS",
            ESF::RAW => "RAW",
            ESF::STATUS => "STATUS",
            ESF::INS => "INS",
            ESF::Unknown => "Unknown",
        }
    }
}

proof fn lemma_esf_byte_inverse(s: ESF)
    ensures
        ESF::spec_of_byte(s.spec_byte()) == s,
{
    match s {
        ESF::MEAS => {}
        ESF::RAW => {}
        ESF::STATUS => {}
        ESF::INS => {}
        ESF::Unknown => {}
    }
}

/// Sub-ids of the MGA class; `Unknown` covers every unrecognized byte.
#[derive(Copy, Clone, Debug, PartialEq, Eq, Structural)]
pub enum MGA {
    GPS,
    GAL,
    BDS,
    QZSS,
    GLO,
    ANO,
    FLASH,
    INI,
    ACKDATA0,
    DBD,
    Unknown,
}

impl MGA {
    /// The raw wire byte that each sub-id tag encodes to.
    pub open spec fn spec_byte(self) -> u8 {
        match self {
            MGA::GPS => 0x00,
            MGA::GAL => 0x02,
            MGA::BDS => 0x03,
            MGA::QZSS => 0x05,
            MGA::GLO => 0x06,
            MGA::ANO => 0x20,
            MGA::FLASH => 0x21,
            MGA::INI => 0x40,
            MGA::ACKDATA0 => 0x60,
            MGA::DBD => 0x80,
            MGA::Unknown => 0x81,
        }
    }

    /// Resolve this tag to the raw wire byte it encodes to.
    pub fn byte(self) -> (r: u8)
        ensures
            r == self.spec_byte(),
    {
        match self {
            MGA::GPS => 0x00,
            MGA::GAL => 0x02,
            MGA::BDS => 0x03,
            MGA::QZSS => 0x05,
            MGA::GLO => 0x06,
            MGA::ANO => 0x20,
            MGA::FLASH => 0x21,
            MGA::INI => 0x40,
            MGA::ACKDATA0 => 0x60,
            MGA::DBD => 0x80,
            MGA::Unknown => 0x81,
        }
    }

    /// The sub-id tag denoted by a raw id byte: total, with `Unknown`
    /// for every unrecognized value.
    pub open spec fn spec_of_byte(b: u8) -> Self {
        if b == 0x00 {
            MGA::GPS
        } else if b == 0x02 {
            MGA::GAL
        } else if b == 0x03 {
            MGA::BDS
        } else if b == 0x05 {
            MGA::QZSS
        } else if b == 0x06 {
            MGA::GLO
        } else if b == 0x20 {
            MGA::ANO
        } else if b == 0x21 {
            MGA::FLASH
        } else if b == 0x40 {
            MGA::INI
        } else if b == 0x60 {
            MGA::ACKDATA0
        } else if b == 0x80 {
            MGA::DBD
        } else {
            MGA::Unknown
        }
    }

    /// Classify a raw id byte; total over all 256 byte values.
    pub fn of_byte(b: u8) -> (r: Self)
        ensures
            r == Self::spec_of_byte(b),
    {
        if b == 0x00 {
            MGA::GPS
        } else if b == 0x02 {
            MGA::GAL
        } else if b == 0x03 {
            MGA::BDS
        } else if b == 0x05 {
            MGA::QZSS
        } else if b == 0x06 {
            MGA::GLO
        } else if b == 0x20 {
            MGA::ANO
        } else if b == 0x21 {
            MGA::FLASH
        } else if b == 0x40 {
            MGA::INI
        } else if b == 0x60 {
            MGA::ACKDATA0
        } else if b == 0x80 {
            MGA::DBD
        } else {
            MGA::Unknown
        }
    }

    /// The sub-id name as it appears in human-readable renderings.
    pub open spec fn spec_name(self) -> Seq<char> {
        match self {
            MGA::GPS => "GPS"@,
            MGA::GAL => "GAL"@,
            MGA::BDS => "BDS"@,
            MGA::QZSS => "QZSS"@,
            MGA::GLO => "GLO"@,
            MGA::ANO => "ANO"@,
            MGA::FLASH => "FLASH"@,
            MGA::INI => "INI"@,
            MGA::ACKDATA0 => "ACKDATA0"@,
            MGA::DBD => "DBD"@,
            MGA::Unknown => "Unknown"@,
        }
    }

    /// The sub-id name as it appears in human-readable renderings.
    pub fn name(self) -> (r: &'static str)
        ensures
            r@ == self.spec_name(),
    {
        match self {
            MGA::GPS => "GPS",
            MGA::GAL => "GAL",
            MGA::BDS => "BDS",
            MGA::QZSS => "QZSS",
            MGA::GLO => "GLO",
            MGA::ANO => "ANO",
            MGA::FLASH => "FLASH",
            MGA::INI => "INI",
            MGA::ACKDATA0 => "ACKDATA0",
            MGA::DBD => "DBD",
            MGA::Unknown => "Unknown",
        }
    }
}

proof fn lemma_mga_byte_inverse(s: MGA)
    ensures
        MGA::spec_of_byte(s.spec_byte()) == s,
{
    match s {
        MGA::GPS => {}
        MGA::GAL => {}
        MGA::BDS => {}
        MGA::QZSS => {}
        MGA::GLO => {}
        MGA::ANO => {}
        MGA::FLASH => {}
        MGA::INI => {}
        MGA::ACKDATA0 => {}
        MGA::DBD => {}
        MGA::Unknown => {}
    }
}

/// Sub-ids of the LOG class; `Unknown` covers every unrecognized byte.
#[derive(Copy, Clone, Debug, PartialEq, Eq, Structural)]
pub enum LOG {
    ERASE,
    STRING,
    CREATE,
    INFO,
    RETRIEVE,
    RETRIEVEPOS,
    RETRIEVESTRING,
    FINDTIME,
    RETRIEVEPOSEXTRA,
    RETRIEVEBATCH,
    BATCH,
    Unknown,
}

impl LOG {
    /// The raw wire byte that each sub-id tag encodes to.
    pub open spec fn spec_byte(self) -> u8 {
        match self {
            LOG::ERASE => 0x03,
            LOG::STRING => 0x04,
            LOG::CREATE => 0x07,
            LOG::INFO => 0x08,
            LOG::RETRIEVE => 0x09,
            LOG::RETRIEVEPOS => 0x0b,
            LOG::RETRIEVESTRING => 0x0d,
            LOG::FINDTIME => 0x0e,
            LOG::RETRIEVEPOSEXTRA => 0x0f,
            LOG::RETRIEVEBATCH => 0x10,
            LOG::BATCH => 0x11,
            LOG::Unknown => 0x12,
        }
    }

    /// Resolve this tag to the raw wire byte it encodes to.
    pub fn byte(self) -> (r: u8)
        ensures
            r == self.spec_byte(),
    {
        match self {
            LOG::ERASE => 0x03,
            LOG::STRING => 0x04,
            LOG::CREATE => 0x07,
            LOG::INFO => 0x08,
            LOG::RETRIEVE => 0x09,
            LOG::RETRIEVEPOS => 0x0b,
            LOG::RETRIEVESTRING => 0x0d,
            LOG::FINDTIME => 0x0e,
            LOG::RETRIEVEPOSEXTRA => 0x0f,
            LOG::RETRIEVEBATCH => 0x10,
            LOG::BATCH => 0x11,
            LOG::Unknown => 0x12,
        }
    }

    /// The sub-id tag denoted by a raw id byte: total, with `Unknown`
    /// for every unrecognized value.
    pub open spec fn spec_of_byte(b: u8) -> Self {
        if b == 0x03 {
            LOG::ERASE
        } else if b == 0x04 {
            LOG::STRING
        } else if b == 0x07 {
            LOG::CREATE
        } else if b == 0x08 {
            LOG::INFO
        } else if b == 0x09 {
            LOG::RETRIEVE
        } else if b == 0x0b {
            LOG::RETRIEVEPOS
        } else if b == 0x0d {
            LOG::RETRIEVESTRING
        } else if b == 0x0e {
            LOG::FINDTIME
        } else if b == 0x0f {
            LOG::RETRIEVEPOSEXTRA
        } else if b == 0x10 {
            LOG::RETRIEVEBATCH
        } else if b == 0x11 {
            LOG::BATCH
        } else {
            LOG::Unknown
        }
    }

    /// Classify a raw id byte; total over all 256 byte values.
    pub fn of_byte(b: u8) -> (r: Self)
        ensures
            r == Self::spec_of_byte(b),
    {
        if b == 0x03 {
            LOG::ERASE
        } else if b == 0x04 {
            LOG::STRING
        } else if b == 0x07 {
            LOG::CREATE
        } else if b == 0x08 {
            LOG::INFO
        } else if b == 0x09 {
            LOG::RETRIEVE
        } else if b == 0x0b {
            LOG::RETRIEVEPOS
        } else if b == 0x0d {
            LOG::RETRIEVESTRING
        } else if b == 0x0e {
            LOG::FINDTIME
        } else if b == 0x0f {
            LOG::RETRIEVEPOSEXTRA
        } else if b == 0x10 {
            LOG::RETRIEVEBATCH
        } else if b == 0x11 {
            LOG::BATCH
        } else {
            LOG::Unknown
        }
    }

    /// The sub-id name as it appears in human-readable renderings.
    pub open spec fn spec_name(self) -> Seq<char> {
        match self {
            LOG::ERASE => "ERASE"@,
            LOG::STRING => "STRING"@,
            LOG::CREATE => "CREATE"@,
            LOG::INFO => "INFO"@,
            LOG::RETRIEVE => "RETRIEVE"@,
            LOG::RETRIEVEPOS => "RETRIEVEPOS"@,
            LOG::RETRIEVESTRING => "RETRIEVESTRING"@,
            LOG::FINDTIME => "FINDTIME"@,
            LOG::RETRIEVEPOSEXTRA => "RETRIEVEPOSEXTRA"@,
            LOG::RETRIEVEBATCH => "RETRIEVEBATCH"@,
            LOG::BATCH => "BATCH"@,
            LOG::Unknown => "Unknown"@,
        }
    }

    /// The sub-id name as it appears in human-readable renderings.
    pub fn name(self) -> (r: &'static str)
        ensures
            r@ == self.spec_name(),
    {
        match self {
            LOG::ERASE => "ERASE",
            LOG::STRING => "STRING",
            LOG::CREATE => "CREATE",
            LOG::INFO => "INFO",
            LOG::RETRIEVE => "RETRIEVE",
            LOG::RETRIEVEPOS => "RETRIEVEPOS",
            LOG::RETRIEVESTRING => "RETRIEVESTRING",
            LOG::FINDTIME => "FINDTIME",
            LOG::RETRIEVEPOSEXTRA => "RETRIEVEPOSEXTRA",
            LOG::RETRIEVEBATCH => "RETRIEVEBATCH",
            LOG::BATCH => "BATCH",
            LOG::Unknown => "Unknown",
        }
    }
}

proof fn lemma_log_byte_inverse(s: LOG)
    ensures
        LOG::spec_of_byte(s.spec_byte()) == s,
{
    match s {
        LOG::ERASE => {}
        LOG::STRING => {}
        LOG::CREATE => {}
        LOG::INFO => {}
        LOG::RETRIEVE => {}
        LOG::RETRIEVEPOS => {}
        LOG::RETRIEVESTRING => {}
        LOG::FINDTIME => {}
        LOG::RETRIEVEPOSEXTRA => {}
        LOG::RETRIEVEBATCH => {}
        LOG::BATCH => {}
        LOG::Unknown => {}
    }
}

/// Sub-ids of the SEC class; `Unknown` covers every unrecognized byte.
#[derive(Copy, Clone, Debug, PartialEq, Eq, Structural)]
pub enum SEC {
    UNIQID,
    Unknown,
}

impl SEC {
    /// The raw wire byte that each sub-id tag encodes to.
    pub open spec fn spec_byte(self) -> u8 {
        match self {
            SEC::UNIQID => 0x03,
            SEC::Unknown => 0x04,
        }
    }

    /// Resolve this tag to the raw wire byte it encodes to.
    pub fn byte(self) -> (r: u8)
        ensures
            r == self.spec_byte(),
    {
        match self {
            SEC::UNIQID => 0x03,
            SEC::Unknown => 0x04,
        }
    }

    /// The sub-id tag denoted by a raw id byte: total, with `Unknown`
    /// for every unrecognized value.
    pub open spec fn spec_of_byte(b: u8) -> Self {
        if b == 0x03 {
            SEC::UNIQID
        } else {
            SEC::Unknown
        }
    }

    /// Classify a raw id byte; total over all 256 byte values.
    pub fn of_byte(b: u8) -> (r: Self)
        ensures
            r == Self::spec_of_byte(b),
    {
        if b == 0x03 {
            SEC::UNIQID
        } else {
            SEC::Unknown
        }
    }

    /// The sub-id name as it appears in human-readable renderings.
    pub open spec fn spec_name(self) -> Seq<char> {
        match self {
            SEC::UNIQID => "UNIQID"@,
            SEC::Unknown => "Unknown"@,
        }
    }

    /// The sub-id name as it appears in human-readable renderings.
    pub fn name(self) -> (r: &'static str)
        ensures
            r@ == self.spec_name(),
    {
        match self {
            SEC::UNIQID => "UNIQID",
            SEC::Unknown => "Unknown",
        }
    }
}

proof fn lemma_sec_byte_inverse(s: SEC)
    ensures
        SEC::spec_of_byte(s.spec_byte()) == s,
{
    match s {
        SEC::UNIQID => {}
        SEC::Unknown => {}
    }
}

/// Sub-ids of the HNR class; `Unknown` covers every unrecognized byte.
#[derive(Copy, Clone, Debug, PartialEq, Eq, Structural)]
pub enum HNR {
    PVT,
    INS,
    Unknown,
}

impl HNR {
    /// The raw wire byte that each sub-id tag encodes to.
    pub open spec fn spec_byte(self) -> u8 {
        match self {
            HNR::PVT => 0x00,
            HNR::INS => 0x02,
            HNR::Unknown => 0x03,
        }
    }

    /// Resolve this tag to the raw wire byte it encodes to.
    pub fn byte(self) -> (r: u8)
        ensures
            r == self.spec_byte(),
    {
        match self {
            HNR::PVT => 0x00,
            HNR::INS => 0x02,
            HNR::Unknown => 0x03,
        }
    }

    /// The sub-id tag denoted by a raw id byte: total, with `Unknown`
    /// for every unrecognized value.
    pub open spec fn spec_of_byte(b: u8) -> Self {
        if b == 0x00 {
            HNR::PVT
        } else if b == 0x02 {
            HNR::INS
        } else {
            HNR::Unknown
        }
    }

    /// Classify a raw id byte; total over all 256 byte values.
    pub fn of_byte(b: u8) -> (r: Self)
        ensures
            r == Self::spec_of_byte(b),
    {
        if b == 0x00 {
            HNR::PVT
        } else if b == 0x02 {
            HNR::INS
        } else {
            HNR::Unknown
        }
    }

    /// The sub-id name as it appears in human-readable renderings.
    pub open spec fn spec_name(self) -> Seq<char> {
        match self {
            HNR::PVT => "PVT"@,
            HNR::INS => "INS"@,
            HNR::Unknown => "Unknown"@,
        }
    }

    /// The sub-id name as it appears in human-readable renderings.
    pub fn name(self) -> (r: &'static str)
        ensures
            r@ == self.spec_name(),
    {
        match self {
            HNR::PVT => "PVT",
            HNR::INS => "INS",
            HNR::Unknown => "Unknown",
        }
    }
}

proof fn lemma_hnr_byte_inverse(s: HNR)
    ensures
        HNR::spec_of_byte(s.spec_byte()) == s,
{
    match s {
        HNR::PVT => {}
        HNR::INS => {}
        HNR::Unknown => {}
    }
}

impl Id {
    /// The raw wire byte that this id encodes to; the bare `Unknown`
    /// encodes to zero.
    pub open spec fn spec_byte(self) -> u8 {
        match self {
            Id::NAV(s) => s.spec_byte(),
            Id::RXM(s) => s.spec_byte(),
            Id::INF(s) => s.spec_byte(),
            Id::ACK(s) => s.spec_byte(),
            Id::CFG(s) => s.spec_byte(),
            Id::UPD(s) => s.spec_byte(),
            Id::MON(s) => s.spec_byte(),
            Id::AID(s) => s.spec_byte(),
            Id::TIM(s) => s.spec_byte(),
            Id::ESF(s) => s.spec_byte(),
            Id::MGA(s) => s.spec_byte(),
            Id::LOG(s) => s.spec_byte(),
            Id::SEC(s) => s.spec_byte(),
            Id::HNR(s) => s.spec_byte(),
            Id::Unknown => 0x00,
        }
    }

    /// Resolve this id to the raw wire byte it encodes to.
    pub fn byte(self) -> (r: u8)
        ensures
            r == self.spec_byte(),
    {
        match self {
            Id::NAV(s) => s.byte(),
            Id::RXM(s) => s.byte(),
            Id::INF(s) => s.byte(),
            Id::ACK(s) => s.byte(),
            Id::CFG(s) => s.byte(),
            Id::UPD(s) => s.byte(),
            Id::MON(s) => s.byte(),
            Id::AID(s) => s.byte(),
            Id::TIM(s) => s.byte(),
            Id::ESF(s) => s.byte(),
            Id::MGA(s) => s.byte(),
            Id::LOG(s) => s.byte(),
            Id::SEC(s) => s.byte(),
            Id::HNR(s) => s.byte(),
            Id::Unknown => 0x00,
        }
    }

    /// The class tag that this id belongs to.
    pub open spec fn spec_class(self) -> Class {
        match self {
            Id::NAV(_) => Class::NAV,
            Id::RXM(_) => Class::RXM,
            Id::INF(_) => Class::INF,
            Id::ACK(_) => Class::ACK,
            Id::CFG(_) => Class::CFG,
            Id::UPD(_) => Class::UPD,
            Id::MON(_) => Class::MON,
            Id::AID(_) => Class::AID,
            Id::TIM(_) => Class::TIM,
            Id::ESF(_) => Class::ESF,
            Id::MGA(_) => Class::MGA,
            Id::LOG(_) => Class::LOG,
            Id::SEC(_) => Class::SEC,
            Id::HNR(_) => Class::HNR,
            Id::Unknown => Class::Unknown,
        }
    }

    /// The class tag that this id belongs to.
    pub fn class(self) -> (r: Class)
        ensures
            r == self.spec_class(),
    {
        match self {
            Id::NAV(_) => Class::NAV,
            Id::RXM(_) => Class::RXM,
            Id::INF(_) => Class::INF,
            Id::ACK(_) => Class::ACK,
            Id::CFG(_) => Class::CFG,
            Id::UPD(_) => Class::UPD,
            Id::MON(_) => Class::MON,
            Id::AID(_) => Class::AID,
            Id::TIM(_) => Class::TIM,
            Id::ESF(_) => Class::ESF,
            Id::MGA(_) => Class::MGA,
            Id::LOG(_) => Class::LOG,
            Id::SEC(_) => Class::SEC,
            Id::HNR(_) => Class::HNR,
            Id::Unknown => Class::Unknown,
        }
    }

    /// The human-readable rendering of this id: "Class-SubId", degrading
    /// to the bare class name when the class itself is unrecognized.
    pub open spec fn spec_render(self) -> Seq<char> {
        match self {
            Id::NAV(s) => Class::NAV.spec_name() + "-"@ + s.spec_name(),
            Id::RXM(s) => Class::RXM.spec_name() + "-"@ + s.spec_name(),
            Id::INF(s) => Class::INF.spec_name() + "-"@ + s.spec_name(),
            Id::ACK(s) => Class::ACK.spec_name() + "-"@ + s.spec_name(),
            Id::CFG(s) => Class::CFG.spec_name() + "-"@ + s.spec_name(),
            Id::UPD(s) => Class::UPD.spec_name() + "-"@ + s.spec_name(),
            Id::MON(s) => Class::MON.spec_name() + "-"@ + s.spec_name(),
            Id::AID(s) => Class::AID.spec_name() + "-"@ + s.spec_name(),
            Id::TIM(s) => Class::TIM.spec_name() + "-"@ + s.spec_name(),
            Id::ESF(s) => Class::ESF.spec_name() + "-"@ + s.spec_name(),
            Id::MGA(s) => Class::MGA.spec_name() + "-"@ + s.spec_name(),
            Id::LOG(s) => Class::LOG.spec_name() + "-"@ + s.spec_name(),
            Id::SEC(s) => Class::SEC.spec_name() + "-"@ + s.spec_name(),
            Id::HNR(s) => Class::HNR.spec_name() + "-"@ + s.spec_name(),
            Id::Unknown => Class::Unknown.spec_name(),
        }
    }

    /// Render this id as "Class-SubId" (or the bare class name for the
    /// bare `Unknown` id).
    pub fn render(self) -> (r: String)
        ensures
            r@ == self.spec_render(),
    {
        let c = self.class();
        let mut out = String::from_str(c.name());
        match self {
            Id::NAV(s) => {
                out.append("-");
                out.append(s.name());
            }
            Id::RXM(s) => {
                out.append("-");
                out.append(s.name());
            }
            Id::INF(s) => {
                out.append("-");
                out.append(s.name());
            }
            Id::ACK(s) => {
                out.append("-");
                out.append(s.name());
            }
            Id::CFG(s) => {
                out.append("-");
                out.append(s.name());
            }
            Id::UPD(s) => {
                out.append("-");
                out.append(s.name());
            }
            Id::MON(s) => {
                out.append("-");
                out.append(s.name());
            }
            Id::AID(s) => {
                out.append("-");
                out.append(s.name());
            }
            Id::TIM(s) => {
                out.append("-");
                out.append(s.name());
            }
            Id::ESF(s) => {
                out.append("-");
                out.append(s.name());
            }
            Id::MGA(s) => {
                out.append("-");
                out.append(s.name());
            }
            Id::LOG(s) => {
                out.append("-");
                out.append(s.name());
            }
            Id::SEC(s) => {
                out.append("-");
                out.append(s.name());
            }
            Id::HNR(s) => {
                out.append("-");
                out.append(s.name());
            }
            Id::Unknown => {}
        }
        out
    }
}

/// The id denoted by a class tag and a raw id byte: total; dispatches to
/// the per-class sub-id table, and yields the bare `Unknown` id when the
/// class is unrecognized, whatever the id byte.
pub open spec fn spec_id_of(c: Class, b: u8) -> Id {
    match c {
        Class::NAV => Id::NAV(NAV::spec_of_byte(b)),
        Class::RXM => Id::RXM(RXM::spec_of_byte(b)),
        Class::INF => Id::INF(INF::spec_of_byte(b)),
        Class::ACK => Id::ACK(ACK::spec_of_byte(b)),
        Class::CFG => Id::CFG(CFG::spec_of_byte(b)),
        Class::UPD => Id::UPD(UPD::spec_of_byte(b)),
        Class::MON => Id::MON(MON::spec_of_byte(b)),
        Class::AID => Id::AID(AID::spec_of_byte(b)),
        Class::TIM => Id::TIM(TIM::spec_of_byte(b)),
        Class::ESF => Id::ESF(ESF::spec_of_byte(b)),
        Class::MGA => Id::MGA(MGA::spec_of_byte(b)),
        Class::LOG => Id::LOG(LOG::spec_of_byte(b)),
        Class::SEC => Id::SEC(SEC::spec_of_byte(b)),
        Class::HNR => Id::HNR(HNR::spec_of_byte(b)),
        Class::Unknown => Id::Unknown,
    }
}

/// Resolve a class tag and a raw id byte to an id; total over all inputs.
pub fn id_of(c: Class, b: u8) -> (r: Id)
    ensures
        r == spec_id_of(c, b),
{
    match c {
        Class::NAV => Id::NAV(NAV::of_byte(b)),
        Class::RXM => Id::RXM(RXM::of_byte(b)),
        Class::INF => Id::INF(INF::of_byte(b)),
        Class::ACK => Id::ACK(ACK::of_byte(b)),
        Class::CFG => Id::CFG(CFG::of_byte(b)),
        Class::UPD => Id::UPD(UPD::of_byte(b)),
        Class::MON => Id::MON(MON::of_byte(b)),
        Class::AID => Id::AID(AID::of_byte(b)),
        Class::TIM => Id::TIM(TIM::of_byte(b)),
        Class::ESF => Id::ESF(ESF::of_byte(b)),
        Class::MGA => Id::MGA(MGA::of_byte(b)),
        Class::LOG => Id::LOG(LOG::of_byte(b)),
        Class::SEC => Id::SEC(SEC::of_byte(b)),
        Class::HNR => Id::HNR(HNR::of_byte(b)),
        Class::Unknown => Id::Unknown,
    }
}

/// Encoding an id to its byte pair and resolving that pair again yields
/// the same id, for every id including the per-class and bare `Unknown`s.
pub proof fn lemma_id_byte_inverse(id: Id)
    ensures
        spec_id_of(id.spec_class(), id.spec_byte()) == id,
{
    match id {
        Id::NAV(s) => lemma_nav_byte_inverse(s),
        Id::RXM(s) => lemma_rxm_byte_inverse(s),
        Id::INF(s) => lemma_inf_byte_inverse(s),
        Id::ACK(s) => lemma_ack_byte_inverse(s),
        Id::CFG(s) => lemma_cfg_byte_inverse(s),
        Id::UPD(s) => lemma_upd_byte_inverse(s),
        Id::MON(s) => lemma_mon_byte_inverse(s),
        Id::AID(s) => lemma_aid_byte_inverse(s),
        Id::TIM(s) => lemma_tim_byte_inverse(s),
        Id::ESF(s) => lemma_esf_byte_inverse(s),
        Id::MGA(s) => lemma_mga_byte_inverse(s),
        Id::LOG(s) => lemma_log_byte_inverse(s),
        Id::SEC(s) => lemma_sec_byte_inverse(s),
        Id::HNR(s) => lemma_hnr_byte_inverse(s),
        Id::Unknown => {}
    }
}

/// Resolving any (class byte, id byte) pair never fails: it yields the bare
/// `Unknown` id exactly when the class byte itself is unrecognized, and
/// otherwise an id of that very class, whatever the id byte.
pub proof fn lemma_taxonomy_total(c: u8, s: u8)
    ensures
        (spec_id_of(spec_class_of(c), s) is Unknown) <==> (spec_class_of(c) is Unknown),
        spec_id_of(spec_class_of(c), s).spec_class() == spec_class_of(c),
{
}

} // verus!
