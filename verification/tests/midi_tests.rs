use rtp_midi_netsync::error::ParseError;
use rtp_midi_netsync::midi::{build_midi_list, parse_midi_list, MidiEvent, MmcCommand};

#[test]
fn midi_test_parse_mtc_quarter_frame() {
    let buf = [0xF1, 0x23];
    let result = parse_midi_list(&buf, 2).unwrap();

    match result {
        MidiEvent::MtcQuarter { msg_type, value } => {
            assert_eq!(msg_type, 2);
            assert_eq!(value, 3);
        }
        _ => panic!("Expected MtcQuarter event"),
    }
}

#[test]
fn test_buffer_length_validation() {
    let buf = [0xF1, 0x23];
    let result = parse_midi_list(&buf, 10);
    assert_eq!(
        result,
        Err(ParseError::BufferTooSmall {
            requested: (10),
            available: (2)
        })
    );
}

#[test]
fn test_roundtrip_all_types() {
    let events = vec![
        MidiEvent::MtcQuarter {
            msg_type: 3,
            value: 7,
        },
        MidiEvent::MtcFull {
            hour: 1,
            minute: 30,
            second: 45,
            frame: 12,
        },
        MidiEvent::Mmc(MmcCommand::Stop),
        MidiEvent::Mmc(MmcCommand::Play),
        MidiEvent::Other(vec![0x90, 0x60, 0x7F]),
    ];

    for event in events {
        let built = build_midi_list(&event);
        let parsed = parse_midi_list(&built, built.len()).unwrap();
        assert_eq!(event, parsed);
    }
}

#[test]
fn midi_tests_test_parse_mtc_quarter_frame() {
    let buf = [0xF1, 0x23];
    let result = parse_midi_list(&buf, 2).unwrap();

    match result {
        MidiEvent::MtcQuarter { msg_type, value } => {
            assert_eq!(msg_type, 2);
            assert_eq!(value, 3);
        }
        _ => panic!("Expected MtcQuarter event"),
    }
}

#[test]
fn test_parse_mtc_quarter_frame_insufficient_data() {
    let buf = [0xF1];
    let result = parse_midi_list(&buf, 1);

    assert!(result.is_ok());
    match result.unwrap() {
        MidiEvent::Other(bytes) => assert_eq!(bytes, vec![0xF1]),
        _ => panic!("Expected Other event for insufficient MTC quarter frame data"),
    }
}

#[test]
fn test_parse_mtc_quarter_frame_with_padding() {
    let buf = [0xF1, 0x23, 0x00, 0x00];
    let result = parse_midi_list(&buf, 4).unwrap();

    match result {
        MidiEvent::MtcQuarter { msg_type, value } => {
            assert_eq!(msg_type, 2);
            assert_eq!(value, 3);
        }
        _ => panic!("Expected MtcQuarter event"),
    }
}

#[test]
fn test_parse_mtc_full_frame() {
    let buf = [0xF0, 0x7F, 0x7F, 0x01, 0x01, 0x01, 0x23, 0x45, 0x67, 0xF7];
    let result = parse_midi_list(&buf, 10).unwrap();

    match result {
        MidiEvent::MtcFull {
            hour,
            minute,
            second,
            frame,
        } => {
            assert_eq!(hour, 0x01);
            assert_eq!(minute, 0x23);
            assert_eq!(second, 0x45);
            assert_eq!(frame, 0x67);
        }
        _ => panic!("Expected MtcFull event"),
    }
}

#[test]
fn test_parse_mtc_full_wrong_device_id() {
    let buf = [0xF0, 0x7F, 0x00, 0x01, 0x01, 0x01, 0x23, 0x45, 0x67, 0xF7];
    let result = parse_midi_list(&buf, 10).unwrap();

    match result {
        MidiEvent::Other(bytes) => assert_eq!(bytes.len(), 10),
        _ => panic!("Expected Other event for wrong device ID"),
    }
}

#[test]
fn test_parse_mmc_stop() {
    let buf = [0xF0, 0x7F, 0x7F, 0x06, 0x01, 0xF7];
    let result = parse_midi_list(&buf, 6).unwrap();

    match result {
        MidiEvent::Mmc(command) => assert_eq!(command, MmcCommand::Stop),
        _ => panic!("Expected Mmc Stop event"),
    }
}

#[test]
fn test_parse_mmc_play() {
    let buf = [0xF0, 0x7F, 0x7F, 0x06, 0x02, 0xF7];
    let result = parse_midi_list(&buf, 6).unwrap();

    match result {
        MidiEvent::Mmc(command) => assert_eq!(command, MmcCommand::Play),
        _ => panic!("Expected Mmc Play event"),
    }
}

#[test]
fn test_parse_mmc_invalid_command() {
    // A machine-control message whose command is neither stop nor play is
    // no transport command: it is kept as the bytes of the message.
    let buf = [0xF0, 0x7F, 0x7F, 0x06, 0x99, 0xF7];
    let result = parse_midi_list(&buf, 6).unwrap();

    match result {
        MidiEvent::Other(bytes) => assert_eq!(bytes, vec![0xF0, 0x7F, 0x7F, 0x06, 0x99, 0xF7]),
        _ => panic!("Expected Other event for an unknown machine-control command"),
    }
}

#[test]
fn test_parse_other_sysex() {
    let buf = [0xF0, 0x43, 0x12, 0x34, 0xF7];
    let result = parse_midi_list(&buf, 5).unwrap();

    match result {
        MidiEvent::Other(bytes) => assert_eq!(bytes, vec![0xF0, 0x43, 0x12, 0x34, 0xF7]),
        _ => panic!("Expected Other event"),
    }
}

#[test]
fn test_parse_sysex_without_end_byte() {
    let buf = [0xF0, 0x43, 0x12, 0x34];
    let result = parse_midi_list(&buf, 4).unwrap();

    match result {
        MidiEvent::Other(bytes) => assert_eq!(bytes, vec![0xF0, 0x43, 0x12, 0x34]),
        _ => panic!("Expected Other event"),
    }
}

#[test]
fn test_parse_empty_sysex() {
    let buf = [0xF0, 0xF7];
    let result = parse_midi_list(&buf, 2).unwrap();

    match result {
        MidiEvent::Other(bytes) => assert_eq!(bytes, vec![0xF0, 0xF7]),
        _ => panic!("Expected Other event"),
    }
}

#[test]
fn test_parse_sysex_exact_length_but_wrong_content() {
    let buf = [0xF0, 0x7F, 0x7F, 0x99, 0x01, 0xF7];
    let result = parse_midi_list(&buf, 6).unwrap();

    match result {
        MidiEvent::Other(bytes) => assert_eq!(bytes, vec![0xF0, 0x7F, 0x7F, 0x99, 0x01, 0xF7]),
        _ => panic!("Expected Other event"),
    }
}

#[test]
fn test_parse_other_midi() {
    let buf = [0x90, 0x60, 0x7F];
    let result = parse_midi_list(&buf, 3).unwrap();

    match result {
        MidiEvent::Other(bytes) => assert_eq!(bytes, vec![0x90, 0x60, 0x7F]),
        _ => panic!("Expected Other event"),
    }
}

#[test]
fn test_parse_empty_buffer() {
    let buf = [];
    let result = parse_midi_list(&buf, 0);

    assert_eq!(result, Err(ParseError::EmptyBuffer));
}

#[test]
fn test_parse_buffer_too_small() {
    let buf = [0xF1, 0x23];
    let result = parse_midi_list(&buf, 10);

    assert_eq!(
        result,
        Err(ParseError::BufferTooSmall {
            requested: 10,
            available: 2
        })
    );
}

#[test]
fn test_parse_with_exact_buffer_size() {
    let buf = [0xF1, 0x23];
    let result = parse_midi_list(&buf, 2).unwrap();

    match result {
        MidiEvent::MtcQuarter { .. } => {}
        _ => panic!("Expected MtcQuarter event"),
    }
}

#[test]
fn test_build_mtc_quarter_frame() {
    let event = MidiEvent::MtcQuarter {
        msg_type: 2,
        value: 3,
    };
    let result = build_midi_list(&event);

    assert_eq!(result, vec![0xF1, 0x23]);
}

#[test]
fn test_build_mtc_quarter_frame_overflow() {
    let event = MidiEvent::MtcQuarter {
        msg_type: 0xFF,
        value: 0xFF,
    };
    let result = build_midi_list(&event);

    assert_eq!(result, vec![0xF1, 0xFF]);
}

#[test]
fn test_mtc_quarter_frame_bit_masking() {
    let event = MidiEvent::MtcQuarter {
        msg_type: 0x8F,
        value: 0xAB,
    };
    let result = build_midi_list(&event);

    assert_eq!(result, vec![0xF1, 0xFB]);
}

#[test]
fn test_build_mtc_full_frame() {
    let event = MidiEvent::MtcFull {
        hour: 0x01,
        minute: 0x23,
        second: 0x45,
        frame: 0x67,
    };
    let result = build_midi_list(&event);

    assert_eq!(
        result,
        vec![0xF0, 0x7F, 0x7F, 0x01, 0x01, 0x01, 0x23, 0x45, 0x67, 0xF7]
    );
}

#[test]
fn test_build_mmc_stop() {
    let event = MidiEvent::Mmc(MmcCommand::Stop);
    let result = build_midi_list(&event);

    assert_eq!(result, vec![0xF0, 0x7F, 0x7F, 0x06, 0x01, 0xF7]);
}

#[test]
fn test_build_mmc_play() {
    let event = MidiEvent::Mmc(MmcCommand::Play);
    let result = build_midi_list(&event);

    assert_eq!(result, vec![0xF0, 0x7F, 0x7F, 0x06, 0x02, 0xF7]);
}

#[test]
fn test_build_other() {
    let bytes = vec![0x90, 0x60, 0x7F];
    let event = MidiEvent::Other(bytes.clone());
    let result = build_midi_list(&event);

    assert_eq!(result, bytes);
}

#[test]
fn midi_tests_test_roundtrip_mtc_quarter() {
    let wire = [0xF1, 0x23];
    let event = parse_midi_list(&wire, 2).unwrap();
    let rebuilt = build_midi_list(&event);

    assert_eq!(wire.to_vec(), rebuilt);
}

#[test]
fn test_roundtrip_mtc_full() {
    let wire = [0xF0, 0x7F, 0x7F, 0x01, 0x01, 0x01, 0x23, 0x45, 0x67, 0xF7];
    let event = parse_midi_list(&wire, 10).unwrap();
    let rebuilt = build_midi_list(&event);

    assert_eq!(wire.to_vec(), rebuilt);
}

#[test]
fn test_roundtrip_mmc() {
    let stop_bytes = [0xF0, 0x7F, 0x7F, 0x06, 0x01, 0xF7];
    let event = parse_midi_list(&stop_bytes, 6).unwrap();
    let rebuilt = build_midi_list(&event);
    assert_eq!(stop_bytes.to_vec(), rebuilt);

    let play_bytes = [0xF0, 0x7F, 0x7F, 0x06, 0x02, 0xF7];
    let event = parse_midi_list(&play_bytes, 6).unwrap();
    let rebuilt = build_midi_list(&event);
    assert_eq!(play_bytes.to_vec(), rebuilt);
}

#[test]
fn test_roundtrip_other() {
    let wire = [0x90, 0x60, 0x7F];
    let event = parse_midi_list(&wire, 3).unwrap();
    let rebuilt = build_midi_list(&event);

    assert_eq!(wire.to_vec(), rebuilt);
}

#[test]
fn test_partial_sysex_messages() {
    let buf = [0xF0, 0x7F, 0x7F, 0x01, 0x01, 0x01, 0x23, 0x45];
    let result = parse_midi_list(&buf, 8).unwrap();

    match result {
        MidiEvent::Other(bytes) => assert_eq!(bytes.len(), 8),
        _ => panic!("Expected Other event for partial MTC full frame"),
    }

    let buf = [0xF0, 0x7F, 0x7F, 0x06, 0x01];
    let result = parse_midi_list(&buf, 5).unwrap();

    match result {
        MidiEvent::Other(bytes) => assert_eq!(bytes.len(), 5),
        _ => panic!("Expected Other event for partial MMC"),
    }
}

#[test]
fn test_mtc_quarter_edge_cases() {
    let event = MidiEvent::MtcQuarter {
        msg_type: 7,
        value: 15,
    };
    let built = build_midi_list(&event);
    let parsed = parse_midi_list(&built, built.len()).unwrap();

    match parsed {
        MidiEvent::MtcQuarter { msg_type, value } => {
            assert_eq!(msg_type, 7);
            assert_eq!(value, 15);
        }
        _ => panic!("Expected MtcQuarter event"),
    }
}

#[test]
fn test_sysex_wrong_universal_realtime_id() {
    let buf = [0xF0, 0x43, 0x7F, 0x01, 0x01, 0x01, 0x23, 0x45, 0x67, 0xF7];
    let result = parse_midi_list(&buf, 10).unwrap();

    match result {
        MidiEvent::Other(bytes) => assert_eq!(bytes.len(), 10),
        _ => panic!("Expected Other event for wrong Universal Real-Time ID"),
    }
}

#[test]
fn test_sysex_wrong_sub_ids() {
    let buf = [0xF0, 0x7F, 0x7F, 0x99, 0x99, 0x01, 0x23, 0x45, 0x67, 0xF7];
    let result = parse_midi_list(&buf, 10).unwrap();

    match result {
        MidiEvent::Other(bytes) => assert_eq!(bytes.len(), 10),
        _ => panic!("Expected Other event for wrong sub-IDs"),
    }
}

#[test]
fn parse_zero_length_of_a_filled_buffer_is_empty_buffer() {
    assert_eq!(parse_midi_list(&[0xF1, 0x23], 0), Err(ParseError::EmptyBuffer));
}

#[test]
fn parse_length_beyond_an_empty_buffer_is_empty_buffer() {
    assert_eq!(parse_midi_list(&[], 5), Err(ParseError::EmptyBuffer));
}

#[test]
fn parse_length_beyond_a_filled_buffer_is_buffer_too_small() {
    assert_eq!(
        parse_midi_list(&[0x90], 2),
        Err(ParseError::BufferTooSmall { requested: 2, available: 1 })
    );
    assert_eq!(
        parse_midi_list(&[0xF0, 0x7F, 0x7F], usize::MAX),
        Err(ParseError::BufferTooSmall { requested: usize::MAX, available: 3 })
    );
}

#[test]
fn parse_locate_reads_the_time_and_drops_the_subframe() {
    let buf = [
        0xF0, 0x7F, 0x7F, 0x06, 0x44, 0x06, 0x01, 0x02, 0x0F, 0x1E, 0x0A, 0x32, 0xF7,
    ];
    assert_eq!(
        parse_midi_list(&buf, 13),
        Ok(MidiEvent::Mmc(MmcCommand::Locate {
            hour: 2,
            minute: 15,
            second: 30,
            frame: 10,
            subframe: 0,
        }))
    );
}

#[test]
fn build_locate_sends_a_subframe_of_zero() {
    let event = MidiEvent::Mmc(MmcCommand::Locate {
        hour: 2,
        minute: 15,
        second: 30,
        frame: 10,
        subframe: 50,
    });
    assert_eq!(
        build_midi_list(&event),
        vec![0xF0, 0x7F, 0x7F, 0x06, 0x44, 0x06, 0x01, 0x02, 0x0F, 0x1E, 0x0A, 0x00, 0xF7]
    );
}

#[test]
fn parse_other_keeps_only_the_length_asked_for() {
    assert_eq!(
        parse_midi_list(&[0x90, 0x60, 0x7F, 0x11], 2),
        Ok(MidiEvent::Other(vec![0x90, 0x60]))
    );
}

#[test]
fn parse_sysex_runs_to_a_terminator_beyond_the_length() {
    // The terminator is looked for in the whole buffer, so the full frame is
    // read although only four bytes were asked for.
    let buf = [0xF0, 0x7F, 0x7F, 0x01, 0x01, 0x01, 0x23, 0x45, 0x67, 0xF7];
    assert_eq!(
        parse_midi_list(&buf, 4),
        Ok(MidiEvent::MtcFull { hour: 1, minute: 0x23, second: 0x45, frame: 0x67 })
    );
}

#[test]
fn parse_unframed_sysex_keeps_the_length_asked_for() {
    // Wrong device identifier: the bytes asked for are kept, not the command.
    let buf = [0xF0, 0x7F, 0x00, 0x01, 0xF7, 0x55, 0x66];
    assert_eq!(
        parse_midi_list(&buf, 7),
        Ok(MidiEvent::Other(vec![0xF0, 0x7F, 0x00, 0x01, 0xF7, 0x55, 0x66]))
    );
}

#[test]
fn parse_unknown_realtime_sysex_keeps_the_command_only() {
    let buf = [0xF0, 0x7F, 0x7F, 0x99, 0xF7, 0x55, 0x66];
    assert_eq!(
        parse_midi_list(&buf, 7),
        Ok(MidiEvent::Other(vec![0xF0, 0x7F, 0x7F, 0x99, 0xF7]))
    );
}

#[test]
fn parse_locate_comes_before_stop_and_play() {
    // Thirteen bytes with the locate bytes are a locate command; with another
    // command byte the same length is read as stop.
    let locate = [
        0xF0, 0x7F, 0x7F, 0x06, 0x44, 0x06, 0x01, 0x01, 0x02, 0x03, 0x04, 0x00, 0xF7,
    ];
    assert_eq!(
        parse_midi_list(&locate, 13),
        Ok(MidiEvent::Mmc(MmcCommand::Locate {
            hour: 1,
            minute: 2,
            second: 3,
            frame: 4,
            subframe: 0,
        }))
    );
    let stop = [
        0xF0, 0x7F, 0x7F, 0x06, 0x01, 0x06, 0x01, 0x01, 0x02, 0x03, 0x04, 0x00, 0xF7,
    ];
    assert_eq!(parse_midi_list(&stop, 13), Ok(MidiEvent::Mmc(MmcCommand::Stop)));
}

#[test]
fn parse_short_locate_is_kept_as_bytes() {
    let buf = [0xF0, 0x7F, 0x7F, 0x06, 0x44, 0x06, 0x01, 0x01, 0xF7];
    assert_eq!(
        parse_midi_list(&buf, 9),
        Ok(MidiEvent::Other(vec![0xF0, 0x7F, 0x7F, 0x06, 0x44, 0x06, 0x01, 0x01, 0xF7]))
    );
}

#[test]
fn roundtrip_holds_for_events_that_the_wire_carries_whole() {
    let events = vec![
        MidiEvent::MtcQuarter { msg_type: 0, value: 0 },
        MidiEvent::MtcQuarter { msg_type: 15, value: 15 },
        MidiEvent::MtcFull { hour: 23, minute: 59, second: 59, frame: 29 },
        MidiEvent::MtcFull { hour: 0xFF, minute: 0xF6, second: 0xF8, frame: 0 },
        MidiEvent::Mmc(MmcCommand::Stop),
        MidiEvent::Mmc(MmcCommand::Play),
        MidiEvent::Mmc(MmcCommand::Locate {
            hour: 1,
            minute: 2,
            second: 3,
            frame: 4,
            subframe: 0,
        }),
    ];
    for event in events {
        let built = build_midi_list(&event);
        assert_eq!(parse_midi_list(&built, built.len()), Ok(event));
    }
}

#[test]
fn roundtrip_loses_what_the_wire_does_not_carry() {
    let wide = MidiEvent::MtcQuarter { msg_type: 0x12, value: 0x34 };
    let built = build_midi_list(&wide);
    assert_eq!(
        parse_midi_list(&built, built.len()),
        Ok(MidiEvent::MtcQuarter { msg_type: 2, value: 4 })
    );

    let cut = MidiEvent::MtcFull { hour: 0xF7, minute: 1, second: 2, frame: 3 };
    let built = build_midi_list(&cut);
    assert_eq!(
        parse_midi_list(&built, built.len()),
        Ok(MidiEvent::Other(vec![0xF0, 0x7F, 0x7F, 0x01, 0x01, 0xF7]))
    );

    let cut = MidiEvent::Mmc(MmcCommand::Locate {
        hour: 1,
        minute: 0xF7,
        second: 2,
        frame: 3,
        subframe: 0,
    });
    let built = build_midi_list(&cut);
    assert_eq!(
        parse_midi_list(&built, built.len()),
        Ok(MidiEvent::Other(vec![0xF0, 0x7F, 0x7F, 0x06, 0x44, 0x06, 0x01, 0x01, 0xF7]))
    );
}

#[test]
fn clone_keeps_the_event() {
    let event = MidiEvent::Other(vec![1, 2, 3]);
    assert_eq!(event.clone(), event);
    let event = MidiEvent::Mmc(MmcCommand::Locate {
        hour: 1,
        minute: 2,
        second: 3,
        frame: 4,
        subframe: 5,
    });
    assert_eq!(event.clone(), event);
}
