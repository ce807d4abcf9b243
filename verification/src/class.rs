use vstd::prelude::*;

verus! {

/// The coarse message category of a frame: one of the fourteen recognized
/// class byte values, or `Unknown` for every other byte (including zero).
#[derive(Copy, Clone, Debug, PartialEq, Eq, Structural)]
pub enum Class {
    NAV,
    RXM,
    INF,
    ACK,
    CFG,
    UPD,
    MON,
    AID,
    TIM,
    ESF,
    MGA,
    LOG,
    SEC,
    HNR,
    Unknown,
}

/// The raw wire byte that each class tag encodes to; `Unknown` encodes to zero.
pub open spec fn spec_class_byte(c: Class) -> u8 {
    match c {
        Class::NAV => 0x01,
        Class::RXM => 0x02,
        Class::INF => 0x04,
        Class::ACK => 0x05,
        Class::CFG => 0x06,
        Class::UPD => 0x09,
        Class::MON => 0x0a,
        Class::AID => 0x0b,
        Class::TIM => 0x0d,
        Class::ESF => 0x10,
        Class::MGA => 0x13,
        Class::LOG => 0x21,
        Class::SEC => 0x27,
        Class::HNR => 0x28,
        Class::Unknown => 0x00,
    }
}

/// The class tag denoted by a raw class byte: total, with `Unknown` for
/// every byte outside the fourteen recognized values.
pub open spec fn spec_class_of(b: u8) -> Class {
    if b == 0x01 {
        Class::NAV
    } else if b == 0x02 {
        Class::RXM
    } else if b == 0x04 {
        Class::INF
    } else if b == 0x05 {
        Class::ACK
    } else if b == 0x06 {
        Class::CFG
    } else if b == 0x09 {
        Class::UPD
    } else if b == 0x0a {
        Class::MON
    } else if b == 0x0b {
        Class::AID
    } else if b == 0x0d {
        Class::TIM
    } else if b == 0x10 {
        Class::ESF
    } else if b == 0x13 {
        Class::MGA
    } else if b == 0x21 {
        Class::LOG
    } else if b == 0x27 {
        Class::SEC
    } else if b == 0x28 {
        Class::HNR
    } else {
        Class::Unknown
    }
}

/// Classify a raw class byte; total over all 256 byte values.
pub fn class_of(b: u8) -> (r: Class)
    ensures
        r == spec_class_of(b),
{
    if b == 0x01 {
        Class::NAV
    } else if b == 0x02 {
        Class::RXM
    } else if b == 0x04 {
        Class::INF
    } else if b == 0x05 {
        Class::ACK
    } else if b == 0x06 {
        Class::CFG
    } else if b == 0x09 {
        Class::UPD
    } else if b == 0x0a {
        Class::MON
    } else if b == 0x0b {
        Class::AID
    } else if b == 0x0d {
        Class::TIM
    } else if b == 0x10 {
        Class::ESF
    } else if b == 0x13 {
        Class::MGA
    } else if b == 0x21 {
        Class::LOG
    } else if b == 0x27 {
        Class::SEC
    } else if b == 0x28 {
        Class::HNR
    } else {
        Class::Unknown
    }
}

impl Class {
    /// Resolve this tag to the raw wire byte it encodes to.
    pub fn byte(self) -> (r: u8)
        ensures
            r == spec_class_byte(self),
    {
        match self {
            Class::NAV => 0x01,
            Class::RXM => 0x02,
            Class::INF => 0x04,
            Class::ACK => 0x05,
            Class::CFG => 0x06,
            Class::UPD => 0x09,
            Class::MON => 0x0a,
            Class::AID => 0x0b,
            Class::TIM => 0x0d,
            Class::ESF => 0x10,
            Class::MGA => 0x13,
            Class::LOG => 0x21,
            Class::SEC => 0x27,
            Class::HNR => 0x28,
            Class::Unknown => 0x00,
        }
    }

    /// The class name as it appears in human-readable renderings.
    pub open spec fn spec_name(self) -> Seq<char> {
        match self {
            Class::NAV => "NAV"@,
            Class::RXM => "RXM"@,
            Class::INF => "INF"@,
            Class::ACK => "ACK"@,
            Class::CFG => "CFG"@,
            Class::UPD => "UPD"@,
            Class::MON => "MON"@,
            Class::AID => "AID"@,
            Class::TIM => "TIM"@,
            Class::ESF => "ESF"@,
            Class::MGA => "MGA"@,
            Class::LOG => "LOG"@,
            Class::SEC => "SEC"@,
            Class::HNR => "HNR"@,
            Class::Unknown => "Unknown"@,
        }
    }

    /// The class name as it appears in human-readable renderings.
    pub fn name(self) -> (r: &'static str)
        ensures
            r@ == self.spec_name(),
    {
        match self {
            Class::NAV => "NAV",
            Class::RXM => "RXM",
            Class::INF => "INF",
            Class::ACK => "ACK",
            Class::CFG => "CFG",
            Class::UPD => "UPD",
            Class::MON => "MON",
            Class::AID => "AID",
            Class::TIM => "TIM",
            Class::ESF => "ESF",
            Class::MGA => "MGA",
            Class::LOG => "LOG",
            Class::SEC => "SEC",
            Class::HNR => "HNR",
            Class::Unknown => "Unknown",
        }
    }
}

/// Encoding a class tag to its byte and classifying that byte again yields
/// the same tag, for every tag including `Unknown`.
pub proof fn lemma_class_byte_inverse(c: Class)
    ensures
        spec_class_of(spec_class_byte(c)) == c,
{
}

/// A raw class byte classifies as `Unknown` exactly when it is outside the
/// fourteen recognized class byte values.
pub proof fn lemma_class_of_unknown(b: u8)
    ensures
        (spec_class_of(b) is Unknown) <==> !(b == 0x01 || b == 0x02 || b == 0x04 || b == 0x05
            || b == 0x06 || b == 0x09 || b == 0x0a || b == 0x0b || b == 0x0d || b == 0x10
            || b == 0x13 || b == 0x21 || b == 0x27 || b == 0x28),
{
}

} // verus!
