use compact_u16::{Action, CompactU16, DecodeError, Decoder};

fn run(bytes: &[u8]) -> (Result<CompactU16, DecodeError>, usize) {
    let mut state = Decoder::new();
    let mut fed = 0;
    loop {
        let event = bytes.get(fed).copied();
        if event.is_some() {
            fed += 1;
        }
        match state.step(event) {
            Action::Read(next) => state = next,
            Action::Done(value) => return (Ok(value), fed),
            Action::Fail(e) => return (Err(e), fed),
        }
    }
}

#[test]
fn decoder_finishes_on_a_final_byte() {
    assert_eq!(
        Decoder::new().step(Some(0x00)),
        Action::Done(CompactU16(0))
    );
    assert_eq!(
        Decoder::new().step(Some(0x7f)),
        Action::Done(CompactU16(127))
    );
}

#[test]
fn decoder_asks_for_more_after_a_continuation() {
    let second = match Decoder::new().step(Some(0xff)) {
        Action::Read(next) => next,
        other => panic!("{:?}", other),
    };
    assert_eq!(second.step(Some(0x7f)), Action::Done(CompactU16(0x3fff)));
    let third = match second.step(Some(0xff)) {
        Action::Read(next) => next,
        other => panic!("{:?}", other),
    };
    assert_eq!(third.step(Some(0x03)), Action::Done(CompactU16(0xffff)));
    assert_eq!(third.step(Some(0x00)), Action::Done(CompactU16(0x3fff)));
}

#[test]
fn decoder_refuses_a_third_continuation() {
    let second = match Decoder::new().step(Some(0x80)) {
        Action::Read(next) => next,
        other => panic!("{:?}", other),
    };
    let third = match second.step(Some(0x80)) {
        Action::Read(next) => next,
        other => panic!("{:?}", other),
    };
    assert_eq!(
        third.step(Some(0x80)),
        Action::Fail(DecodeError::EncodingOutOfBounds)
    );
}

#[test]
fn decoder_fails_when_the_source_ends() {
    assert_eq!(
        Decoder::new().step(None),
        Action::Fail(DecodeError::UnexpectedEndOfInput)
    );
    let second = match Decoder::new().step(Some(0x80)) {
        Action::Read(next) => next,
        other => panic!("{:?}", other),
    };
    assert_eq!(
        second.step(None),
        Action::Fail(DecodeError::UnexpectedEndOfInput)
    );
    let third = match second.step(Some(0x80)) {
        Action::Read(next) => next,
        other => panic!("{:?}", other),
    };
    assert_eq!(
        third.step(None),
        Action::Fail(DecodeError::UnexpectedEndOfInput)
    );
}

#[test]
fn decoder_reads_the_literal_vectors() {
    let values: [(u16, Vec<u8>); 8] = [
        (0x0000, vec![0x00]),
        (0x0001, vec![0x01]),
        (0x007f, vec![0x7f]),
        (0x0080, vec![0x80, 0x01]),
        (0x3fff, vec![0xff, 0x7f]),
        (0x4000, vec![0x80, 0x80, 0x01]),
        (0xc000, vec![0x80, 0x80, 0x03]),
        (0xffff, vec![0xff, 0xff, 0x03]),
    ];
    for (value, bytes) in values {
        assert_eq!(run(&bytes), (Ok(CompactU16(value)), bytes.len()));
    }
}

#[test]
fn decoder_agrees_with_the_buffer_decode() {
    let thirds = [0x00u8, 0x01, 0x03, 0x04, 0x7f, 0x80, 0xff];
    for first in 0..=u8::MAX {
        for second in 0..=u8::MAX {
            for third in thirds {
                let bytes = [first, second, third];
                for len in 0..=3 {
                    let input = &bytes[..len];
                    let (streamed, fed) = run(input);
                    match CompactU16::decode_from_bytes(input) {
                        Ok((value, taken)) => {
                            assert_eq!(streamed, Ok(value));
                            assert_eq!(fed, taken);
                        }
                        Err(e) => assert_eq!(streamed, Err(e)),
                    }
                }
            }
        }
    }
}

#[test]
fn decoder_round_trip_of_every_value() {
    for v in 0..=u16::MAX {
        let bytes = CompactU16(v).encode();
        assert_eq!(run(&bytes), (Ok(CompactU16(v)), bytes.len()));
    }
}
