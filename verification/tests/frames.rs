use ublox::{class_of, id_of, Class, Error, Id, State, Ublox, ACK, MGA, NAV};

#[test]
fn decode_mga_dbd() {
    let bytes = [0xb5, 0x62, 0x13, 0x80, 0x00, 0x00, 0x93, 0xcc];
    let u = Ublox::from_reader(&bytes).unwrap();
    assert_eq!(u.sync_1, 0xb5);
    assert_eq!(u.sync_2, 0x62);
    assert_eq!(u.class, 0x13);
    assert_eq!(u.id, 0x80);
    assert_eq!(u.length, 0);
    assert_eq!(u.payload, vec![]);
    assert_eq!(u.check_a, 0x93);
    assert_eq!(u.check_b, 0xcc);
    assert_eq!(class_of(u.class), Class::MGA);
    assert_eq!(u.id(), Id::MGA(MGA::DBD));
}

#[test]
fn encode_ack_checksum() {
    let u = Ublox::new(Class::ACK, Id::ACK(ACK::ACK), &[0x06, 0x01]).unwrap();
    // The checksummed region is class, id, the little-endian length bytes,
    // then the payload.
    let region = [0x05, 0x01, 0x02, 0x00, 0x06, 0x01];
    let mut a: u8 = 0;
    let mut b: u8 = 0;
    for c in region {
        a = a.wrapping_add(c);
        b = b.wrapping_add(a);
    }
    assert_eq!((a, b), (0x0f, 0x38));
    assert_eq!(u.check_a, a);
    assert_eq!(u.check_b, b);
    assert_eq!(u.length, 2);
    assert_eq!(u.payload, vec![0x06, 0x01]);
}

#[test]
fn sync2_mismatch() {
    let r = Ublox::from_reader(&[0xb5, 0x61]);
    assert_eq!(r.unwrap_err(), Error::Parse(State::Sync2, 0x62, 0x61));
}

#[test]
fn sync1_mismatch() {
    let r = Ublox::from_reader(&[0x42]);
    assert_eq!(r.unwrap_err(), Error::Parse(State::Sync1, 0xb5, 0x42));
}

#[test]
fn checksum_mismatch() {
    let bytes = [0xb5, 0x62, 0x13, 0x80, 0x00, 0x00, 0x93, 0xcd];
    let r = Ublox::from_reader(&bytes);
    assert_eq!(r.unwrap_err(), Error::Checksum((0x93, 0xcd), (0x93, 0xcc)));
}

#[test]
fn unknown_class_byte() {
    assert_eq!(class_of(0xff), Class::Unknown);
    assert_eq!(class_of(0x00), Class::Unknown);
    assert_eq!(class_of(0x03), Class::Unknown);
    assert_eq!(id_of(Class::Unknown, 0x00), Id::Unknown);
    assert_eq!(id_of(Class::Unknown, 0x01), Id::Unknown);
    assert_eq!(id_of(Class::Unknown, 0x80), Id::Unknown);
    assert_eq!(id_of(Class::Unknown, 0xff), Id::Unknown);
}

#[test]
fn known_class_unknown_sub_id() {
    assert_eq!(id_of(Class::ACK, 0x55), Id::ACK(ACK::Unknown));
    assert_eq!(id_of(Class::NAV, 0xff), Id::NAV(NAV::Unknown));
}

#[test]
fn class_bytes_round_trip() {
    let classes = [
        (Class::NAV, 0x01),
        (Class::RXM, 0x02),
        (Class::INF, 0x04),
        (Class::ACK, 0x05),
        (Class::CFG, 0x06),
        (Class::UPD, 0x09),
        (Class::MON, 0x0a),
        (Class::AID, 0x0b),
        (Class::TIM, 0x0d),
        (Class::ESF, 0x10),
        (Class::MGA, 0x13),
        (Class::LOG, 0x21),
        (Class::SEC, 0x27),
        (Class::HNR, 0x28),
        (Class::Unknown, 0x00),
    ];
    for (c, b) in classes {
        assert_eq!(c.byte(), b);
        if c != Class::Unknown {
            assert_eq!(class_of(b), c);
        }
    }
}

#[test]
fn id_bytes_round_trip() {
    let ids = [
        Id::NAV(NAV::PVT),
        Id::NAV(NAV::Unknown),
        Id::ACK(ACK::NAK),
        Id::MGA(MGA::DBD),
        Id::Unknown,
    ];
    for id in ids {
        assert_eq!(id_of(id.class(), id.byte()), id);
    }
    // An unrecognized sub-id encodes to the byte just past the last
    // recognized one of its class.
    assert_eq!(Id::NAV(NAV::Unknown).byte(), 0x62);
    assert_eq!(Id::Unknown.byte(), 0x00);
}

#[test]
fn checksum_depends_on_payload_order() {
    let u = Ublox::new(Class::NAV, Id::NAV(NAV::PVT), &[0x01, 0x02, 0x03]).unwrap();
    let v = Ublox::new(Class::NAV, Id::NAV(NAV::PVT), &[0x03, 0x02, 0x01]).unwrap();
    assert_ne!((u.check_a, u.check_b), (v.check_a, v.check_b));
}

#[test]
fn checksum_deterministic() {
    let u = Ublox::new(Class::NAV, Id::NAV(NAV::PVT), &[0x01, 0x02, 0x03]).unwrap();
    let v = Ublox::new(Class::NAV, Id::NAV(NAV::PVT), &[0x01, 0x02, 0x03]).unwrap();
    assert_eq!((u.check_a, u.check_b), (v.check_a, v.check_b));
}

#[test]
fn round_trip_small_payload() {
    let u = Ublox::new(Class::NAV, Id::NAV(NAV::PVT), &[0x01, 0x02, 0x03]).unwrap();
    let wire = u.wire_bytes();
    let v = Ublox::from_reader(&wire).unwrap();
    assert_eq!(v.sync_1, u.sync_1);
    assert_eq!(v.sync_2, u.sync_2);
    assert_eq!(v.class, u.class);
    assert_eq!(v.id, u.id);
    assert_eq!(v.length, u.length);
    assert_eq!(v.payload, u.payload);
    assert_eq!(v.check_a, u.check_a);
    assert_eq!(v.check_b, u.check_b);
}

#[test]
fn round_trip_empty_payload() {
    let u = Ublox::new(Class::MGA, Id::MGA(MGA::DBD), &[]).unwrap();
    let wire = u.wire_bytes();
    assert_eq!(wire, vec![0xb5, 0x62, 0x13, 0x80, 0x00, 0x00, 0x93, 0xcc]);
    let v = Ublox::from_reader(&wire).unwrap();
    assert_eq!(v.length, 0);
    assert_eq!(v.payload, vec![]);
    assert_eq!((v.check_a, v.check_b), (u.check_a, u.check_b));
}

#[test]
fn round_trip_long_payload() {
    // The 16-bit length is little-endian on the wire: a 300-byte payload is
    // encoded as 0x2c, 0x01 and must decode back to 300.
    let payload: Vec<u8> = (0..300u16).map(|i| (i % 251) as u8).collect();
    let u = Ublox::new(Class::RXM, Id::RXM(ublox::RXM::RAWX), &payload).unwrap();
    let wire = u.wire_bytes();
    assert_eq!(wire[4], 0x2c);
    assert_eq!(wire[5], 0x01);
    let v = Ublox::from_reader(&wire).unwrap();
    assert_eq!(v.length, 300);
    assert_eq!(v.payload, payload);
    assert_eq!((v.check_a, v.check_b), (u.check_a, u.check_b));
}

#[test]
fn payload_too_large() {
    let payload = vec![0u8; 65536];
    assert_eq!(
        Ublox::new(Class::NAV, Id::NAV(NAV::PVT), &payload).unwrap_err(),
        Error::PayloadTooLarge
    );
    let payload = vec![0u8; 65535];
    let u = Ublox::new(Class::NAV, Id::NAV(NAV::PVT), &payload).unwrap();
    assert_eq!(u.length, 65535);
}

#[test]
fn source_exhausted() {
    assert_eq!(Ublox::from_reader(&[]).unwrap_err(), Error::Read);
    assert_eq!(Ublox::from_reader(&[0xb5]).unwrap_err(), Error::Read);
    assert_eq!(
        Ublox::from_reader(&[0xb5, 0x62, 0x13, 0x80, 0x00]).unwrap_err(),
        Error::Read
    );
}

#[test]
fn trailing_bytes_ignored() {
    let bytes = [0xb5, 0x62, 0x13, 0x80, 0x00, 0x00, 0x93, 0xcc, 0xde, 0xad];
    let u = Ublox::from_reader(&bytes).unwrap();
    assert_eq!(u.class, 0x13);
    assert_eq!(u.id, 0x80);
}

#[test]
fn done_state_absorbs() {
    let mut u = Ublox::default();
    assert_eq!(u.parse_one(State::Done, 0x55).unwrap(), State::Done);
    assert_eq!(u.class, 0);
    assert_eq!(u.payload, vec![]);
}

#[test]
fn default_state_is_sync1() {
    assert_eq!(State::default(), State::Sync1);
}

#[test]
fn hex_dump() {
    let u = Ublox::new(Class::MGA, Id::MGA(MGA::DBD), &[]).unwrap();
    assert_eq!(u.to_hex(), "b5621380000093cc");
    let v = Ublox::new(Class::ACK, Id::ACK(ACK::ACK), &[0x06, 0x01]).unwrap();
    assert_eq!(v.to_hex(), "b5620501020006010f38");
}

#[test]
fn render_and_describe() {
    assert_eq!(Id::MGA(MGA::DBD).render(), "MGA-DBD");
    assert_eq!(Id::ACK(ACK::NAK).render(), "ACK-NAK");
    assert_eq!(Id::Unknown.render(), "Unknown");
    let u = Ublox::new(Class::ACK, Id::ACK(ACK::ACK), &[0x06, 0x01]).unwrap();
    assert_eq!(u.describe(), "ACK-ACK: 2: 0601");
    let v = Ublox::new(Class::MGA, Id::MGA(MGA::DBD), &[]).unwrap();
    assert_eq!(v.describe(), "MGA-DBD: 0: ");
}
