use vstd::prelude::*;
use vstd::slice::slice_to_vec;
use vstd::string::StringExecFns;

use crate::class::spec_class_byte;
use crate::class::spec_class_of;
use crate::class::class_of;
use crate::class::Class;
use crate::error::Error;
use crate::id::spec_id_of;
use crate::id::id_of;
use crate::id::Id;

verus! {

/// The decode state machine's states, in the order the wire bytes arrive.
/// `Done` is absorbing: a completed frame consumes no further bytes.
#[derive(Debug, Copy, Clone, PartialEq, Eq, Structural)]
pub enum State {
    Sync1,
    Sync2,
    Class,
    Id,
    LengthLow,
    LengthHigh,
    Payload,
    CheckA,
    CheckB,
    Done,
}

impl Default for State {
    /// A fresh decode starts by looking for the first sync byte.
    fn default() -> (r: Self)
        ensures
            r == State::Sync1,
    {
        State::Sync1
    }
}

/// The mathematical value of a frame: its raw wire fields, with the payload
/// as a byte sequence.
#[verifier::ext_equal]
pub ghost struct FrameModel {
    pub sync_1: u8,
    pub sync_2: u8,
    pub class: u8,
    pub id: u8,
    pub length: u16,
    pub payload: Seq<u8>,
    pub check_a: u8,
    pub check_b: u8,
}

impl FrameModel {
    /// The all-zero frame that a decode starts from.
    pub open spec fn empty() -> FrameModel {
        FrameModel {
            sync_1: 0,
            sync_2: 0,
            class: 0,
            id: 0,
            length: 0,
            payload: Seq::empty(),
            check_a: 0,
            check_b: 0,
        }
    }

    /// A complete, internally consistent frame: fixed sync bytes, length
    /// equal to the payload length, and check bytes equal to the running
    /// checksum of the checksummed region.
    pub open spec fn wellformed(self) -> bool {
        &&& self.sync_1 == 0xb5
        &&& self.sync_2 == 0x62
        &&& self.payload.len() == self.length
        &&& (self.check_a, self.check_b) == spec_checksum(self)
    }
}

/// One step of the running checksum: the byte is added into the first
/// accumulator and the first into the second, both modulo 256.
pub open spec fn spec_ck_next(acc: (u8, u8), c: u8) -> (u8, u8) {
    let a = ((acc.0 + c) % 256) as u8;
    let b = ((acc.1 + a) % 256) as u8;
    (a, b)
}

/// The running checksum of a byte sequence, both accumulators seeded at zero.
pub open spec fn spec_ck(s: Seq<u8>) -> (u8, u8)
    decreases s.len(),
{
    if s.len() == 0 {
        (0u8, 0u8)
    } else {
        spec_ck_next(spec_ck(s.drop_last()), s.last())
    }
}

/// The checksummed region of a frame: class, id, the two little-endian
/// length bytes, then the payload — never the sync or check bytes.
pub open spec fn spec_region(f: FrameModel) -> Seq<u8> {
    seq![f.class, f.id, (f.length as int % 256) as u8, (f.length as int / 256) as u8] + f.payload
}

/// The checksum pair that a frame's own fields call for.
pub open spec fn spec_checksum(f: FrameModel) -> (u8, u8) {
    spec_ck(spec_region(f))
}

/// Extending the checksummed sequence by one byte advances the checksum by
/// one accumulator step.
proof fn lemma_ck_push(s: Seq<u8>, c: u8)
    ensures
        spec_ck(s.push(c)) == spec_ck_next(spec_ck(s), c),
{
    assert(s.push(c).drop_last() =~= s);
}

/// Add two bytes modulo 256.
fn add8(x: u8, y: u8) -> (r: u8)
    ensures
        r == ((x + y) % 256) as u8,
{
    (((x as u16) + (y as u16)) % 256) as u8
}

/// A frame of the protocol, as its raw wire fields. The decode state machine
/// fills it in field by field; the encode path builds it in one step.
#[derive(Debug)]
pub struct Ublox {
    pub sync_1: u8,
    pub sync_2: u8,
    pub class: u8,
    pub id: u8,
    pub length: u16,
    pub payload: Vec<u8>,
    pub check_a: u8,
    pub check_b: u8,
}

impl View for Ublox {
    type V = FrameModel;

    open spec fn view(&self) -> FrameModel {
        FrameModel {
            sync_1: self.sync_1,
            sync_2: self.sync_2,
            class: self.class,
            id: self.id,
            length: self.length,
            payload: self.payload@,
            check_a: self.check_a,
            check_b: self.check_b,
        }
    }
}

impl Default for Ublox {
    /// The all-zero frame that a decode starts from.
    fn default() -> (r: Self)
        ensures
            r@ == FrameModel::empty(),
    {
        let u = Ublox {
            sync_1: 0,
            sync_2: 0,
            class: 0,
            id: 0,
            length: 0,
            payload: Vec::new(),
            check_a: 0,
            check_b: 0,
        };
        proof {
            assert(u@ =~= FrameModel::empty());
        }
        u
    }
}

impl Ublox {
    /// The running checksum over this frame's checksummed region.
    pub fn checksum(&self) -> (r: (u8, u8))
        ensures
            r == spec_checksum(self@),
    {
        let ghost region = spec_region(self@);
        let mut a: u8 = 0;
        let mut b: u8 = 0;

        let lo: u8 = (self.length % 256) as u8;
        let hi: u8 = (self.length / 256) as u8;

        a = add8(a, self.class);
        b = add8(b, a);
        proof {
            lemma_ck_push(Seq::<u8>::empty(), self@.class);
            assert(Seq::<u8>::empty().push(self@.class) =~= region.take(1));
            assert((a, b) == spec_ck(region.take(1)));
        }

        a = add8(a, self.id);
        b = add8(b, a);
        proof {
            lemma_ck_push(region.take(1), self@.id);
            assert(region.take(1).push(self@.id) =~= region.take(2));
            assert((a, b) == spec_ck(region.take(2)));
        }

        a = add8(a, lo);
        b = add8(b, a);
        proof {
            lemma_ck_push(region.take(2), (self@.length as int % 256) as u8);
            assert(region.take(2).push((self@.length as int % 256) as u8) =~= region.take(3));
            assert((a, b) == spec_ck(region.take(3)));
        }

        a = add8(a, hi);
        b = add8(b, a);
        proof {
            lemma_ck_push(region.take(3), (self@.length as int / 256) as u8);
            assert(region.take(3).push((self@.length as int / 256) as u8) =~= region.take(4));
            assert((a, b) == spec_ck(region.take(4)));
        }

        let mut i: usize = 0;
        while i < self.payload.len()
            invariant
                i <= self.payload.len(),
                region == spec_region(self@),
                (a, b) == spec_ck(region.take(4 + i as int)),
            decreases self.payload.len() - i,
        {
            a = add8(a, self.payload[i]);
            b = add8(b, a);
            proof {
                lemma_ck_push(region.take(4 + i as int), self@.payload[i as int]);
                assert(region.take(4 + i as int).push(self@.payload[i as int]) =~= region.take(
                    4 + i as int + 1,
                ));
            }
            i += 1;
        }

        proof {
            assert(region.take(4 + self@.payload.len() as int) =~= region);
        }
        (a, b)
    }

    /// Stamp the checksum: compute it over the region and assign both bytes.
    pub fn checksum_set(&mut self)
        ensures
            final(self)@ == (FrameModel {
                check_a: spec_checksum(old(self)@).0,
                check_b: spec_checksum(old(self)@).1,
                ..old(self)@
            }),
    {
        let (a, b) = self.checksum();
        self.check_a = a;
        self.check_b = b;
    }

    /// Compare the stored check bytes against the recomputed checksum.
    pub fn checksum_validate(&self) -> (r: Result<(), Error>)
        ensures
            r is Ok <==> (self.check_a, self.check_b) == spec_checksum(self@),
            r is Err ==> r->Err_0 == Error::Checksum(
                (self.check_a, self.check_b),
                spec_checksum(self@),
            ),
    {
        let (a, b) = self.checksum();
        if self.check_a == a && self.check_b == b {
            Ok(())
        } else {
            Err(Error::Checksum((self.check_a, self.check_b), (a, b)))
        }
    }
}

/// One transition of the decode state machine: from a state and the frame
/// under construction, consuming one byte, to the next state, the updated
/// frame, and the failure if the byte was refused.
pub open spec fn spec_step(state: State, f: FrameModel, c: u8) -> (State, FrameModel, Option<
    Error,
>) {
    match state {
        State::Sync1 => if c == 0xb5 {
            (State::Sync2, FrameModel { sync_1: c, ..f }, None)
        } else {
            (state, f, Some(Error::Parse(State::Sync1, 0xb5, c)))
        },
        State::Sync2 => if c == 0x62 {
            (State::Class, FrameModel { sync_2: c, ..f }, None)
        } else {
            (state, f, Some(Error::Parse(State::Sync2, 0x62, c)))
        },
        State::Class => (State::Id, FrameModel { class: c, ..f }, None),
        State::Id => (State::LengthLow, FrameModel { id: c, ..f }, None),
        State::LengthLow => (State::LengthHigh, FrameModel { length: c as u16, ..f }, None),
        State::LengthHigh => {
            let l = ((f.length as int % 256) + (c as int) * 256) as u16;
            (
                if l != 0 {
                    State::Payload
                } else {
                    State::CheckA
                },
                FrameModel { length: l, ..f },
                None,
            )
        },
        State::Payload => {
            let p = f.payload.push(c);
            (
                if p.len() == f.length {
                    State::CheckA
                } else {
                    State::Payload
                },
                FrameModel { payload: p, ..f },
                None,
            )
        },
        State::CheckA => (State::CheckB, FrameModel { check_a: c, ..f }, None),
        State::CheckB => {
            let g = FrameModel { check_b: c, ..f };
            if (g.check_a, g.check_b) == spec_checksum(g) {
                (State::Done, g, None)
            } else {
                (state, g, Some(Error::Checksum((g.check_a, g.check_b), spec_checksum(g))))
            }
        },
        State::Done => (State::Done, f, None),
    }
}

/// Run the machine from a state and frame over a byte sequence: stop at
/// `Done`, fail as a step fails, or fail with `Read` if the bytes give out
/// first. Bytes past the completed frame are left untouched.
pub open spec fn spec_run(state: State, f: FrameModel, bytes: Seq<u8>) -> Result<
    FrameModel,
    Error,
>
    decreases bytes.len(),
{
    if state is Done {
        Ok(f)
    } else if bytes.len() == 0 {
        Err(Error::Read)
    } else {
        let (s2, f2, e) = spec_step(state, f, bytes.first());
        match e {
            Option::Some(er) => Err(er),
            Option::None => spec_run(s2, f2, bytes.drop_first()),
        }
    }
}

/// The frame that the encode path builds from a class tag, an id tag and a
/// payload: fixed sync bytes, tags resolved to raw bytes, length set to the
/// payload length, and the checksum stamped.
pub open spec fn spec_new(class: Class, id: Id, payload: Seq<u8>) -> FrameModel {
    let f = FrameModel {
        sync_1: 0xb5,
        sync_2: 0x62,
        class: spec_class_byte(class),
        id: id.spec_byte(),
        length: payload.len() as u16,
        payload: payload,
        check_a: 0,
        check_b: 0,
    };
    FrameModel { check_a: spec_checksum(f).0, check_b: spec_checksum(f).1, ..f }
}

impl Ublox {
    /// Build a checksum-consistent frame from a class tag, an id tag and a
    /// payload of at most 65535 bytes; a larger payload is refused, since its
    /// length cannot be represented in the 16-bit length field.
    pub fn new(class: Class, id: Id, payload: &[u8]) -> (r: Result<Ublox, Error>)
        ensures
            payload@.len() <= 0xffff ==> r is Ok && r->Ok_0@ == spec_new(class, id, payload@),
            payload@.len() > 0xffff ==> r == Err::<Ublox, Error>(Error::PayloadTooLarge),
    {
        if payload.len() > 0xffff {
            return Err(Error::PayloadTooLarge);
        }
        let mut s = Ublox {
            sync_1: 0xb5,
            sync_2: 0x62,
            class: class.byte(),
            id: id.byte(),
            length: payload.len() as u16,
            payload: slice_to_vec(payload),
            check_a: 0,
            check_b: 0,
        };
        s.checksum_set();
        proof {
            assert(s@ =~= spec_new(class, id, payload@));
        }
        Ok(s)
    }

    /// The typed identity of this frame, resolved from its raw class and id
    /// bytes through the taxonomy.
    pub fn id(&self) -> (r: Id)
        ensures
            r == spec_id_of(spec_class_of(self.class), self.id),
    {
        id_of(class_of(self.class), self.id)
    }

    /// Feed one byte to the decode state machine in the given state: the
    /// byte is stored as that state calls for, and the next state is
    /// returned, or the classified failure that refused the byte.
    pub fn parse_one(&mut self, state: State, c: u8) -> (r: Result<State, Error>)
        ensures
            ({
                let (s2, f2, e) = spec_step(state, old(self)@, c);
                &&& final(self)@ == f2
                &&& match e {
                    Option::None => r == Ok::<State, Error>(s2),
                    Option::Some(er) => r == Err::<State, Error>(er),
                }
            }),
    {
        match state {
            State::Sync1 => {
                if c == 0xb5 {
                    self.sync_1 = c;
                    Ok(State::Sync2)
                } else {
                    Err(Error::Parse(State::Sync1, 0xb5, c))
                }
            },
            State::Sync2 => {
                if c == 0x62 {
                    self.sync_2 = c;
                    Ok(State::Class)
                } else {
                    Err(Error::Parse(State::Sync2, 0x62, c))
                }
            },
            State::Class => {
                self.class = c;
                Ok(State::Id)
            },
            State::Id => {
                self.id = c;
                Ok(State::LengthLow)
            },
            State::LengthLow => {
                self.length = c as u16;
                Ok(State::LengthHigh)
            },
            State::LengthHigh => {
                self.length = self.length % 256 + (c as u16) * 256;
                if self.length != 0 {
                    Ok(State::Payload)
                } else {
                    Ok(State::CheckA)
                }
            },
            State::Payload => {
                self.payload.push(c);
                if self.payload.len() == self.length as usize {
                    Ok(State::CheckA)
                } else {
                    Ok(State::Payload)
                }
            },
            State::CheckA => {
                self.check_a = c;
                Ok(State::CheckB)
            },
            State::CheckB => {
                self.check_b = c;
                match self.checksum_validate() {
                    Ok(()) => Ok(State::Done),
                    Err(e) => Err(e),
                }
            },
            State::Done => Ok(State::Done),
        }
    }

    /// Decode one frame from the front of `reader`, driving the state
    /// machine byte by byte from `Sync1` to `Done`; bytes after the frame
    /// are ignored. Fails with `Error::Read` when the bytes give out before
    /// the frame is complete.
    pub fn from_reader(reader: &[u8]) -> (r: Result<Ublox, Error>)
        ensures
            ({
                let d = spec_run(State::Sync1, FrameModel::empty(), reader@);
                match r {
                    Ok(u) => d == Ok::<FrameModel, Error>(u@),
                    Err(e) => d == Err::<FrameModel, Error>(e),
                }
            }),
    {
        let mut state = State::default();
        let mut ublox = Ublox::default();
        let mut i: usize = 0;

        proof {
            assert(reader@.skip(0) =~= reader@);
        }
        while state != State::Done
            invariant
                i <= reader@.len(),
                spec_run(State::Sync1, FrameModel::empty(), reader@) == spec_run(
                    state,
                    ublox@,
                    reader@.skip(i as int),
                ),
            decreases reader@.len() - i,
        {
            if i >= reader.len() {
                return Err(Error::Read);
            }
            let c = reader[i];
            proof {
                assert(reader@.skip(i as int).first() == reader@[i as int]);
                assert(reader@.skip(i as int).drop_first() =~= reader@.skip(i as int + 1));
            }
            match ublox.parse_one(state, c) {
                Ok(s) => {
                    state = s;
                },
                Err(e) => {
                    return Err(e);
                },
            }
            i += 1;
        }
        Ok(ublox)
    }
}

/// The canonical wire bytes of a frame: sync bytes, class, id, little-endian
/// length, payload in order, then the two check bytes.
pub open spec fn spec_wire(f: FrameModel) -> Seq<u8> {
    seq![
        f.sync_1,
        f.sync_2,
        f.class,
        f.id,
        (f.length as int % 256) as u8,
        (f.length as int / 256) as u8,
    ] + f.payload + seq![f.check_a, f.check_b]
}

/// The checksum pair is a function of the checksummed region's bytes alone:
/// identical regions always give identical checksums.
pub proof fn lemma_checksum_deterministic(f: FrameModel, g: FrameModel)
    requires
        spec_region(f) == spec_region(g),
    ensures
        spec_checksum(f) == spec_checksum(g),
{
}

/// From `CheckA`, a frame whose header and payload agree with a wellformed
/// frame `f` is completed exactly by f's two check bytes.
proof fn lemma_run_checks(f: FrameModel, g: FrameModel)
    requires
        f.wellformed(),
        g.sync_1 == f.sync_1,
        g.sync_2 == f.sync_2,
        g.class == f.class,
        g.id == f.id,
        g.length == f.length,
        g.payload == f.payload,
    ensures
        spec_run(State::CheckA, g, seq![f.check_a, f.check_b]) == Ok::<FrameModel, Error>(f),
{
    let bytes = seq![f.check_a, f.check_b];
    let (s1, g1, e1) = spec_step(State::CheckA, g, f.check_a);
    assert(s1 == State::CheckB && e1 is None);
    assert(bytes.drop_first() =~= seq![f.check_b]);
    let (s2, g2, e2) = spec_step(State::CheckB, g1, f.check_b);
    let h = FrameModel { check_b: f.check_b, ..g1 };
    assert(h =~= f);
    assert((h.check_a, h.check_b) == spec_checksum(h));
    assert(s2 == State::Done && g2 == f && e2 is None);
    assert(seq![f.check_b].drop_first() =~= Seq::<u8>::empty());
    assert(spec_run(State::CheckA, g, bytes) == spec_run(State::CheckB, g1, seq![f.check_b]));
    assert(spec_run(State::CheckB, g1, seq![f.check_b]) == spec_run(
        State::Done,
        f,
        Seq::<u8>::empty(),
    ));
    assert(spec_run(State::Done, f, Seq::<u8>::empty()) == Ok::<FrameModel, Error>(f));
}

/// From `Payload` with a strict prefix of a wellformed frame's payload in
/// hand, the rest of that payload followed by the frame's check bytes
/// completes the frame.
proof fn lemma_run_payload(f: FrameModel, g: FrameModel)
    requires
        f.wellformed(),
        g.sync_1 == f.sync_1,
        g.sync_2 == f.sync_2,
        g.class == f.class,
        g.id == f.id,
        g.length == f.length,
        g.payload.len() < f.payload.len(),
        g.payload == f.payload.take(g.payload.len() as int),
    ensures
        spec_run(
            State::Payload,
            g,
            f.payload.skip(g.payload.len() as int) + seq![f.check_a, f.check_b],
        ) == Ok::<FrameModel, Error>(f),
    decreases f.payload.len() - g.payload.len(),
{
    let k = g.payload.len() as int;
    let checks = seq![f.check_a, f.check_b];
    let bytes = f.payload.skip(k) + checks;
    let c = f.payload[k];
    assert(f.payload.skip(k).len() > 0);
    assert(bytes.first() == f.payload.skip(k)[0]);
    assert(f.payload.skip(k)[0] == c);
    let (s1, g1, e1) = spec_step(State::Payload, g, c);
    assert(e1 is None);
    assert(g1.payload =~= f.payload.take(k + 1));
    assert(bytes.drop_first() =~= f.payload.skip(k + 1) + checks);
    if g.payload.len() + 1 == f.payload.len() {
        assert(s1 == State::CheckA);
        assert(g1.payload =~= f.payload);
        assert(f.payload.skip(k + 1) + checks =~= checks);
        lemma_run_checks(f, g1);
    } else {
        assert(s1 == State::Payload);
        lemma_run_payload(f, g1);
    }
}

/// Every frame the encode path builds from a payload that fits the 16-bit
/// length field is wellformed, so `lemma_round_trip` applies to it: encoding
/// and then decoding reproduces it field for field.
pub proof fn lemma_new_wellformed(class: Class, id: Id, payload: Seq<u8>)
    requires
        payload.len() <= 0xffff,
    ensures
        spec_new(class, id, payload).wellformed(),
{
    let f = spec_new(class, id, payload);
    let f0 = FrameModel {
        sync_1: 0xb5,
        sync_2: 0x62,
        class: spec_class_byte(class),
        id: id.spec_byte(),
        length: payload.len() as u16,
        payload: payload,
        check_a: 0,
        check_b: 0,
    };
    assert(spec_region(f) == spec_region(f0));
}

/// Round trip: feeding a wellformed frame's canonical wire bytes to the
/// decode machine, from scratch, reproduces that frame field for field,
/// check bytes included.
pub proof fn lemma_round_trip(f: FrameModel)
    requires
        f.wellformed(),
    ensures
        spec_run(State::Sync1, FrameModel::empty(), spec_wire(f)) == Ok::<FrameModel, Error>(f),
{
    let lo = (f.length as int % 256) as u8;
    let hi = (f.length as int / 256) as u8;
    let checks = seq![f.check_a, f.check_b];
    let w = spec_wire(f);
    let w1 = seq![f.sync_2, f.class, f.id, lo, hi] + f.payload + checks;
    let w2 = seq![f.class, f.id, lo, hi] + f.payload + checks;
    let w3 = seq![f.id, lo, hi] + f.payload + checks;
    let w4 = seq![lo, hi] + f.payload + checks;
    let w5 = seq![hi] + f.payload + checks;
    let w6 = f.payload + checks;

    let e0 = FrameModel::empty();
    let e1 = FrameModel { sync_1: 0xb5, ..e0 };
    let e2 = FrameModel { sync_2: 0x62, ..e1 };
    let e3 = FrameModel { class: f.class, ..e2 };
    let e4 = FrameModel { id: f.id, ..e3 };
    let e5 = FrameModel { length: lo as u16, ..e4 };
    let e6 = FrameModel { length: f.length, ..e5 };

    assert(w.first() == f.sync_1);
    assert(w.drop_first() =~= w1);
    assert(spec_run(State::Sync1, e0, w) == spec_run(State::Sync2, e1, w1));

    assert(w1.first() == f.sync_2);
    assert(w1.drop_first() =~= w2);
    assert(spec_run(State::Sync2, e1, w1) == spec_run(State::Class, e2, w2));

    assert(w2.first() == f.class);
    assert(w2.drop_first() =~= w3);
    assert(spec_run(State::Class, e2, w2) == spec_run(State::Id, e3, w3));

    assert(w3.first() == f.id);
    assert(w3.drop_first() =~= w4);
    assert(spec_run(State::Id, e3, w3) == spec_run(State::LengthLow, e4, w4));

    assert(w4.first() == lo);
    assert(w4.drop_first() =~= w5);
    assert(spec_run(State::LengthLow, e4, w4) == spec_run(State::LengthHigh, e5, w5));

    assert(w5.first() == hi);
    assert(w5.drop_first() =~= w6);
    vstd::arithmetic::div_mod::lemma_fundamental_div_mod(f.length as int, 256);
    let (s6, f6, ee6) = spec_step(State::LengthHigh, e5, hi);
    assert(f6 == e6);
    assert(ee6 is None);

    if f.length == 0 {
        assert(f.payload.len() == 0);
        assert(s6 == State::CheckA);
        assert(spec_run(State::LengthHigh, e5, w5) == spec_run(State::CheckA, e6, w6));
        assert(w6 =~= checks);
        assert(e6.payload =~= f.payload);
        lemma_run_checks(f, e6);
    } else {
        assert(s6 == State::Payload);
        assert(spec_run(State::LengthHigh, e5, w5) == spec_run(State::Payload, e6, w6));
        assert(e6.payload =~= f.payload.take(0));
        assert(w6 =~= f.payload.skip(0) + checks);
        lemma_run_payload(f, e6);
    }
}

/// The lowercase hex digit for a value below sixteen.
pub open spec fn spec_hex_digit(n: int) -> char {
    if n == 0 {
        '0'
    } else if n == 1 {
        '1'
    } else if n == 2 {
        '2'
    } else if n == 3 {
        '3'
    } else if n == 4 {
        '4'
    } else if n == 5 {
        '5'
    } else if n == 6 {
        '6'
    } else if n == 7 {
        '7'
    } else if n == 8 {
        '8'
    } else if n == 9 {
        '9'
    } else if n == 10 {
        'a'
    } else if n == 11 {
        'b'
    } else if n == 12 {
        'c'
    } else if n == 13 {
        'd'
    } else if n == 14 {
        'e'
    } else {
        'f'
    }
}

/// The two lowercase hex digits of one byte, high nibble first.
pub open spec fn spec_hex_byte(b: u8) -> Seq<char> {
    seq![spec_hex_digit(b as int / 16), spec_hex_digit(b as int % 16)]
}

/// The lowercase hex rendering of a byte sequence, byte by byte in order.
pub open spec fn spec_hex(s: Seq<u8>) -> Seq<char>
    decreases s.len(),
{
    if s.len() == 0 {
        Seq::empty()
    } else {
        spec_hex(s.drop_last()) + spec_hex_byte(s.last())
    }
}

/// The decimal rendering of a number, most significant digit first.
pub open spec fn spec_dec(n: int) -> Seq<char>
    decreases n,
{
    if n < 10 {
        seq![spec_hex_digit(n)]
    } else {
        spec_dec(n / 10) + seq![spec_hex_digit(n % 10)]
    }
}

/// The single lowercase hex digit character for a nibble.
fn hex_digit_str(n: u8) -> (r: &'static str)
    requires
        n < 16,
    ensures
        r@ == seq![spec_hex_digit(n as int)],
{
    if n == 0 {
        proof {
            reveal_strlit("0");
            assert("0"@ =~= seq!['0']);
        }
        "0"
    } else if n == 1 {
        proof {
            reveal_strlit("1");
            assert("1"@ =~= seq!['1']);
        }
        "1"
    } else if n == 2 {
        proof {
            reveal_strlit("2");
            assert("2"@ =~= seq!['2']);
        }
        "2"
    } else if n == 3 {
        proof {
            reveal_strlit("3");
            assert("3"@ =~= seq!['3']);
        }
        "3"
    } else if n == 4 {
        proof {
            reveal_strlit("4");
            assert("4"@ =~= seq!['4']);
        }
        "4"
    } else if n == 5 {
        proof {
            reveal_strlit("5");
            assert("5"@ =~= seq!['5']);
        }
        "5"
    } else if n == 6 {
        proof {
            reveal_strlit("6");
            assert("6"@ =~= seq!['6']);
        }
        "6"
    } else if n == 7 {
        proof {
            reveal_strlit("7");
            assert("7"@ =~= seq!['7']);
        }
        "7"
    } else if n == 8 {
        proof {
            reveal_strlit("8");
            assert("8"@ =~= seq!['8']);
        }
        "8"
    } else if n == 9 {
        proof {
            reveal_strlit("9");
            assert("9"@ =~= seq!['9']);
        }
        "9"
    } else if n == 10 {
        proof {
            reveal_strlit("a");
            assert("a"@ =~= seq!['a']);
        }
        "a"
    } else if n == 11 {
        proof {
            reveal_strlit("b");
            assert("b"@ =~= seq!['b']);
        }
        "b"
    } else if n == 12 {
        proof {
            reveal_strlit("c");
            assert("c"@ =~= seq!['c']);
        }
        "c"
    } else if n == 13 {
        proof {
            reveal_strlit("d");
            assert("d"@ =~= seq!['d']);
        }
        "d"
    } else if n == 14 {
        proof {
            reveal_strlit("e");
            assert("e"@ =~= seq!['e']);
        }
        "e"
    } else {
        proof {
            reveal_strlit("f");
            assert("f"@ =~= seq!['f']);
        }
        "f"
    }
}

/// Append the two lowercase hex digits of one byte.
fn push_hex_byte(out: &mut String, b: u8)
    ensures
        final(out)@ == old(out)@ + spec_hex_byte(b),
{
    out.append(hex_digit_str(b / 16));
    out.append(hex_digit_str(b % 16));
    proof {
        assert(old(out)@ + seq![spec_hex_digit(b as int / 16)] + seq![
            spec_hex_digit(b as int % 16),
        ] =~= old(out)@ + spec_hex_byte(b));
    }
}

/// Append the lowercase hex rendering of a byte slice.
fn push_hex(out: &mut String, bytes: &[u8])
    ensures
        final(out)@ == old(out)@ + spec_hex(bytes@),
{
    proof {
        assert(bytes@.take(0) =~= Seq::<u8>::empty());
        assert(old(out)@ + spec_hex(bytes@.take(0)) =~= old(out)@);
    }
    let mut i: usize = 0;
    while i < bytes.len()
        invariant
            i <= bytes@.len(),
            out@ == old(out)@ + spec_hex(bytes@.take(i as int)),
        decreases bytes@.len() - i,
    {
        push_hex_byte(out, bytes[i]);
        proof {
            assert(bytes@.take(i as int + 1).drop_last() =~= bytes@.take(i as int));
            assert(bytes@.take(i as int + 1).last() == bytes@[i as int]);
            assert(old(out)@ + spec_hex(bytes@.take(i as int)) + spec_hex_byte(bytes@[i as int])
                =~= old(out)@ + spec_hex(bytes@.take(i as int + 1)));
        }
        i += 1;
    }
    proof {
        assert(bytes@.take(bytes@.len() as int) =~= bytes@);
    }
}

/// Append the decimal rendering of a number.
fn push_dec(out: &mut String, n: u16)
    ensures
        final(out)@ == old(out)@ + spec_dec(n as int),
    decreases n,
{
    if n < 10 {
        out.append(hex_digit_str(n as u8));
    } else {
        push_dec(out, n / 10);
        out.append(hex_digit_str((n % 10) as u8));
        proof {
            assert(old(out)@ + spec_dec(n as int / 10) + seq![spec_hex_digit(n as int % 10)] =~=
                old(out)@ + spec_dec(n as int));
        }
    }
}

/// The human-readable form of a frame: its id rendering, its length in
/// decimal, and its payload in lowercase hex, separated by ": ".
pub open spec fn spec_describe(f: FrameModel) -> Seq<char> {
    spec_id_of(spec_class_of(f.class), f.id).spec_render() + ": "@ + spec_dec(f.length as int)
        + ": "@ + spec_hex(f.payload)
}

impl Ublox {
    /// Serialize this frame in the canonical wire order.
    pub fn wire_bytes(&self) -> (r: Vec<u8>)
        ensures
            r@ == spec_wire(self@),
    {
        let ghost hdr = seq![
            self@.sync_1,
            self@.sync_2,
            self@.class,
            self@.id,
            (self@.length as int % 256) as u8,
            (self@.length as int / 256) as u8,
        ];
        let mut out: Vec<u8> = Vec::new();
        out.push(self.sync_1);
        out.push(self.sync_2);
        out.push(self.class);
        out.push(self.id);
        out.push((self.length % 256) as u8);
        out.push((self.length / 256) as u8);
        proof {
            assert(out@ =~= hdr + self@.payload.take(0));
        }
        let mut i: usize = 0;
        while i < self.payload.len()
            invariant
                i <= self@.payload.len(),
                out@ == hdr + self@.payload.take(i as int),
            decreases self@.payload.len() - i,
        {
            out.push(self.payload[i]);
            proof {
                assert(hdr + self@.payload.take(i as int) + seq![self@.payload[i as int]] =~= hdr
                    + self@.payload.take(i as int + 1));
            }
            i += 1;
        }
        out.push(self.check_a);
        out.push(self.check_b);
        proof {
            assert(self@.payload.take(self@.payload.len() as int) =~= self@.payload);
            assert(out@ =~= spec_wire(self@));
        }
        out
    }

    /// The lowercase hex dump of this frame's full wire bytes.
    pub fn to_hex(&self) -> (r: String)
        ensures
            r@ == spec_hex(spec_wire(self@)),
    {
        let w = self.wire_bytes();
        let mut out = String::new();
        push_hex(&mut out, w.as_slice());
        proof {
            assert(Seq::<char>::empty() + spec_hex(w@) =~= spec_hex(w@));
        }
        out
    }

    /// Render this frame as "Class-SubId: length: payload-hex".
    pub fn describe(&self) -> (r: String)
        ensures
            r@ == spec_describe(self@),
    {
        let id = self.id();
        let mut out = id.render();
        out.append(": ");
        push_dec(&mut out, self.length);
        out.append(": ");
        push_hex(&mut out, self.payload.as_slice());
        out
    }
}

/// Round trip from the encode path's inputs: for every class tag, id tag and
/// payload that fits the 16-bit length field, decoding the encoded frame's
/// wire bytes reproduces that frame field for field, check bytes included.
pub proof fn lemma_encode_decode(class: Class, id: Id, payload: Seq<u8>)
    requires
        payload.len() <= 0xffff,
    ensures
        spec_run(State::Sync1, FrameModel::empty(), spec_wire(spec_new(class, id, payload)))
            == Ok::<FrameModel, Error>(spec_new(class, id, payload)),
{
    lemma_new_wellformed(class, id, payload);
    lemma_round_trip(spec_new(class, id, payload));
}

/// What a from-scratch decode has established of the frame under
/// construction on reaching each state.
pub open spec fn spec_state_inv(state: State, f: FrameModel) -> bool {
    match state {
        State::Sync1 => f.payload.len() == 0,
        State::Sync2 => f.sync_1 == 0xb5 && f.payload.len() == 0,
        State::Class => f.sync_1 == 0xb5 && f.sync_2 == 0x62 && f.payload.len() == 0,
        State::Id => f.sync_1 == 0xb5 && f.sync_2 == 0x62 && f.payload.len() == 0,
        State::LengthLow => f.sync_1 == 0xb5 && f.sync_2 == 0x62 && f.payload.len() == 0,
        State::LengthHigh => f.sync_1 == 0xb5 && f.sync_2 == 0x62 && f.payload.len() == 0,
        State::Payload => f.sync_1 == 0xb5 && f.sync_2 == 0x62 && f.payload.len() < f.length,
        State::CheckA => f.sync_1 == 0xb5 && f.sync_2 == 0x62 && f.payload.len() == f.length,
        State::CheckB => f.sync_1 == 0xb5 && f.sync_2 == 0x62 && f.payload.len() == f.length,
        State::Done => f.wellformed(),
    }
}

/// Each accepted step preserves what the states establish.
proof fn lemma_step_inv(state: State, f: FrameModel, c: u8)
    requires
        spec_state_inv(state, f),
    ensures
        ({
            let (s2, f2, e) = spec_step(state, f, c);
            e is None ==> spec_state_inv(s2, f2)
        }),
{
}

proof fn lemma_run_inv(state: State, f: FrameModel, bytes: Seq<u8>)
    requires
        spec_state_inv(state, f),
    ensures
        spec_run(state, f, bytes) matches Ok(m) ==> m.wellformed(),
    decreases bytes.len(),
{
    if state is Done {
    } else if bytes.len() == 0 {
    } else {
        let (s2, f2, e) = spec_step(state, f, bytes.first());
        lemma_step_inv(state, f, bytes.first());
        if e is None {
            lemma_run_inv(s2, f2, bytes.drop_first());
        }
    }
}

/// Every frame that a from-scratch decode completes is wellformed: the sync
/// bytes are the fixed constants, the length equals the payload length, and
/// the check bytes equal the recomputed checksum.
pub proof fn lemma_decode_wellformed(bytes: Seq<u8>)
    ensures
        spec_run(State::Sync1, FrameModel::empty(), bytes) matches Ok(m) ==> m.wellformed(),
{
    lemma_run_inv(State::Sync1, FrameModel::empty(), bytes);
}

} // verus!
