//! Round-trip and write-once behavior of the out-of-domain frame codec.

use stark_verifier::errors::{DeserializationError, OodFrameError};
use stark_verifier::felt::Felt;
use stark_verifier::ood_frame::{OodFrame, OodFrameTraceStates};

fn felts(values: &[u64]) -> Vec<Felt> {
    values.iter().map(|v| Felt::new(*v)).collect()
}

fn ints(values: &[Felt]) -> Vec<u64> {
    values.iter().map(|f| f.as_int()).collect()
}

fn build_frame(
    current: &[u64],
    next: &[u64],
    lagrange: Option<&[u64]>,
    evals: &[u64],
    main_width: usize,
) -> OodFrame {
    let ts = OodFrameTraceStates::new(
        felts(current),
        felts(next),
        main_width,
        lagrange.map(felts),
    );
    let mut frame = OodFrame::new();
    let flat = frame.set_trace_states(&ts).unwrap();
    // the flattened sequence interleaves the rows and appends the Lagrange
    // evaluations
    assert_eq!(flat.len(), 2 * current.len() + lagrange.map(|l| l.len()).unwrap_or(0));
    frame.set_constraint_evaluations(&felts(evals)).unwrap();
    frame
}

#[test]
fn ood_frame_round_trip_with_lagrange() {
    let current = [1u64, 2, 3, 4];
    let next = [5u64, 6, 7, 8];
    let lagrange = [9u64, 10, 11];
    let evals = [12u64, 13];
    // every split of the width into main and auxiliary parts round-trips
    for main_width in 1..=4usize {
        let aux_width = 4 - main_width;
        let frame = build_frame(&current, &next, Some(&lagrange), &evals, main_width);
        let (ts, out_evals) = frame.parse(main_width, aux_width, 2).unwrap();
        assert_eq!(ints(ts.current_row()), current.to_vec());
        assert_eq!(ints(ts.next_row()), next.to_vec());
        assert_eq!(ints(ts.lagrange_kernel_frame().unwrap()), lagrange.to_vec());
        assert_eq!(ints(&out_evals), evals.to_vec());
    }
}

#[test]
fn ood_frame_round_trip_without_lagrange() {
    let current = [21u64, 22];
    let next = [23u64, 24];
    let evals = [25u64];
    let frame = build_frame(&current, &next, None, &evals, 2);
    let (ts, out_evals) = frame.parse(2, 0, 1).unwrap();
    assert_eq!(ints(ts.current_row()), current.to_vec());
    assert_eq!(ints(ts.next_row()), next.to_vec());
    assert!(ts.lagrange_kernel_frame().is_none());
    assert_eq!(ints(&out_evals), evals.to_vec());
}

#[test]
fn ood_frame_main_and_aux_frames() {
    let current = [1u64, 2, 3];
    let next = [4u64, 5, 6];
    let frame = build_frame(&current, &next, None, &[7], 2);
    let (ts, _) = frame.parse(2, 1, 1).unwrap();
    let main = ts.main_frame();
    assert_eq!(ints(main.current()), vec![1, 2]);
    assert_eq!(ints(main.next()), vec![4, 5]);
    let aux = ts.aux_frame().unwrap();
    assert_eq!(ints(aux.current()), vec![3]);
    assert_eq!(ints(aux.next()), vec![6]);
}

#[test]
fn set_trace_states_is_write_once() {
    let ts = OodFrameTraceStates::new(felts(&[1, 2]), felts(&[3, 4]), 1, None);
    let mut frame = OodFrame::new();
    assert!(frame.set_trace_states(&ts).is_ok());
    // a second write must fail, deterministically, every time
    for _ in 0..3 {
        assert_eq!(
            frame.set_trace_states(&ts).unwrap_err(),
            OodFrameError::TraceStatesAlreadySet
        );
    }
}

#[test]
fn set_constraint_evaluations_is_write_once() {
    let mut frame = OodFrame::new();
    assert!(frame.set_constraint_evaluations(&felts(&[5])).is_ok());
    for _ in 0..3 {
        assert_eq!(
            frame.set_constraint_evaluations(&felts(&[6])).unwrap_err(),
            OodFrameError::EvaluationsAlreadySet
        );
    }
}

#[test]
fn set_constraint_evaluations_rejects_empty() {
    let mut frame = OodFrame::new();
    assert_eq!(
        frame.set_constraint_evaluations(&Vec::new()).unwrap_err(),
        OodFrameError::EmptyEvaluations
    );
    // rejecting the empty write leaves the region unset
    assert!(frame.set_constraint_evaluations(&felts(&[7])).is_ok());
}

#[test]
fn wire_round_trip() {
    let frame = build_frame(&[1, 2], &[3, 4], Some(&[5]), &[6], 1);
    let mut bytes: Vec<u8> = vec![0xAB];
    frame.write_into(&mut bytes);
    assert_eq!(bytes[0], 0xAB);
    let (read_back, pos) = OodFrame::read_from(&bytes, 1).unwrap();
    assert_eq!(pos, bytes.len());
    assert_eq!(read_back, frame);
    let (ts, evals) = read_back.parse(1, 1, 1).unwrap();
    assert_eq!(ints(ts.current_row()), vec![1, 2]);
    assert_eq!(ints(ts.next_row()), vec![3, 4]);
    assert_eq!(ints(&evals), vec![6]);
}

#[test]
fn parse_rejects_malformed_regions() {
    // a frame whose regions were never set runs out of bytes immediately
    let empty = OodFrame::new();
    assert_eq!(
        empty.parse(1, 0, 1).unwrap_err(),
        DeserializationError::UnexpectedEof
    );

    // parsing with a larger width than was written runs out of bytes
    let frame = build_frame(&[1, 2], &[3, 4], None, &[5], 1);
    assert_eq!(
        frame.parse(2, 1, 1).unwrap_err(),
        DeserializationError::UnexpectedEof
    );

    // parsing with a smaller width leaves bytes unconsumed
    let frame = build_frame(&[1, 2], &[3, 4], None, &[5], 1);
    assert_eq!(
        frame.parse(1, 0, 1).unwrap_err(),
        DeserializationError::UnconsumedBytes
    );

    // a byte pattern at or above the modulus is not a field element
    let mut wire: Vec<u8> = Vec::new();
    // trace region: marker 2, then two little-endian element slots
    let mut trace_region: Vec<u8> = vec![2];
    trace_region.extend_from_slice(&u64::MAX.to_le_bytes());
    trace_region.extend_from_slice(&1u64.to_le_bytes());
    wire.extend_from_slice(&(trace_region.len() as u16).to_le_bytes());
    wire.extend_from_slice(&trace_region);
    // lagrange region: zero count
    wire.extend_from_slice(&1u16.to_le_bytes());
    wire.push(0);
    // evaluation region: one valid element
    wire.extend_from_slice(&8u16.to_le_bytes());
    wire.extend_from_slice(&3u64.to_le_bytes());
    let (frame, _) = OodFrame::read_from(&wire, 0).unwrap();
    assert_eq!(
        frame.parse(1, 0, 1).unwrap_err(),
        DeserializationError::InvalidValue
    );
}

#[test]
fn tampered_frame_decodes_differently() {
    let frame = build_frame(&[10, 20], &[30, 40], Some(&[50]), &[60], 1);
    let mut wire: Vec<u8> = Vec::new();
    frame.write_into(&mut wire);
    // flip one byte inside the first element of the trace region: the
    // element region starts after the 2-byte prefix and the 1-byte marker
    let mut tampered = wire.clone();
    tampered[3] ^= 0x01;
    let (tampered_frame, _) = OodFrame::read_from(&tampered, 0).unwrap();
    match tampered_frame.parse(1, 1, 1) {
        Ok((ts, _)) => {
            let untampered: Vec<u64> = vec![10, 20];
            assert_ne!(ints(ts.current_row()), untampered);
        }
        Err(_) => {
            // rejecting the tampered bytes outright also detects the change
        }
    }
}
