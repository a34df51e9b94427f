use wav_playback::header::{parse, ParseError, TagField, DATA_TAG, FMT_TAG, RIFF_TAG, WAVE_TAG};

fn build_bytes(sample_rate: u32, bits: u16, channels: u16, data_size: u32) -> Vec<u8> {
    let mut b: Vec<u8> = Vec::new();
    b.extend_from_slice(b"RIFF");
    b.extend_from_slice(&(36 + data_size).to_le_bytes());
    b.extend_from_slice(b"WAVE");
    b.extend_from_slice(b"fmt ");
    b.extend_from_slice(&16u32.to_le_bytes());
    b.extend_from_slice(&1u16.to_le_bytes());
    b.extend_from_slice(&channels.to_le_bytes());
    b.extend_from_slice(&sample_rate.to_le_bytes());
    let block_align = channels * (bits / 8);
    b.extend_from_slice(&(sample_rate * block_align as u32).to_le_bytes());
    b.extend_from_slice(&block_align.to_le_bytes());
    b.extend_from_slice(&bits.to_le_bytes());
    b.extend_from_slice(b"data");
    b.extend_from_slice(&data_size.to_le_bytes());
    assert_eq!(b.len(), 44);
    b
}

#[test]
fn parse_valid_header_round_trips_every_field() {
    let b = build_bytes(44100, 16, 1, 2500);
    let h = parse(&b).expect("valid header must parse");
    assert_eq!(h.riff_id, RIFF_TAG);
    assert_eq!(h.declared_file_size, 2536);
    assert_eq!(h.format_tag, WAVE_TAG);
    assert_eq!(h.chunk_format_id, FMT_TAG);
    assert_eq!(h.format_section_size, 16);
    assert_eq!(h.audio_format, 1);
    assert_eq!(h.channel_count, 1);
    assert_eq!(h.sample_rate_hz, 44100);
    assert_eq!(h.byte_rate, 88200);
    assert_eq!(h.block_align, 2);
    assert_eq!(h.bits_per_sample, 16);
    assert_eq!(h.data_section_id, DATA_TAG);
    assert_eq!(h.data_size_bytes, 2500);
}

#[test]
fn parse_valid_stereo_header_round_trips() {
    let b = build_bytes(48000, 16, 2, 96000);
    let h = parse(&b).expect("valid header must parse");
    assert_eq!(h.channel_count, 2);
    assert_eq!(h.sample_rate_hz, 48000);
    assert_eq!(h.byte_rate, 192000);
    assert_eq!(h.block_align, 4);
    assert_eq!(h.data_size_bytes, 96000);
}

#[test]
fn parse_rejects_wrong_length() {
    let b = vec![0u8; 43];
    assert_eq!(parse(&b), Err(ParseError::WrongLength { len: 43 }));
    let b = vec![0u8; 45];
    assert_eq!(parse(&b), Err(ParseError::WrongLength { len: 45 }));
}

#[test]
fn parse_rejects_corrupt_riff_tag() {
    let mut b = build_bytes(44100, 16, 1, 2500);
    b[0] = b'X';
    let actual = u32::from_le_bytes([b'X', b'I', b'F', b'F']);
    assert_eq!(
        parse(&b),
        Err(ParseError::BadTag { field: TagField::RiffId, expected: RIFF_TAG, actual })
    );
}

#[test]
fn parse_rejects_corrupt_wave_tag() {
    let mut b = build_bytes(44100, 16, 1, 2500);
    b[9] = b'a';
    let actual = u32::from_le_bytes([b'W', b'a', b'V', b'E']);
    assert_eq!(
        parse(&b),
        Err(ParseError::BadTag { field: TagField::FormatTag, expected: WAVE_TAG, actual })
    );
}

#[test]
fn parse_rejects_corrupt_fmt_tag() {
    let mut b = build_bytes(44100, 16, 1, 2500);
    b[15] = b'_';
    let actual = u32::from_le_bytes([b'f', b'm', b't', b'_']);
    assert_eq!(
        parse(&b),
        Err(ParseError::BadTag { field: TagField::ChunkFormatId, expected: FMT_TAG, actual })
    );
}

#[test]
fn parse_rejects_corrupt_data_tag() {
    let mut b = build_bytes(44100, 16, 1, 2500);
    b[38] = b'l';
    let actual = u32::from_le_bytes([b'd', b'a', b'l', b'a']);
    assert_eq!(
        parse(&b),
        Err(ParseError::BadTag { field: TagField::DataSectionId, expected: DATA_TAG, actual })
    );
}

#[test]
fn parse_names_first_bad_tag_in_layout_order() {
    let mut b = build_bytes(44100, 16, 1, 2500);
    b[0] = b'Q';
    b[8] = b'Q';
    match parse(&b) {
        Err(ParseError::BadTag { field, .. }) => assert_eq!(field, TagField::RiffId),
        other => panic!("expected BadTag, got {:?}", other),
    }
}
