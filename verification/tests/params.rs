use whep_gateway::error::BitstreamError;
use whep_gateway::params::{
    classify_codec, parse_codec_config, parse_h264_config, parse_h265_config, CodecFamily,
};

fn avc_record(sps: &[u8], pps: &[u8]) -> Vec<u8> {
    let mut record: Vec<u8> = vec![1, 0x64, 0x00, 0x1f, 0xff, 0xe1];
    record.push((sps.len() / 256) as u8);
    record.push((sps.len() % 256) as u8);
    record.extend_from_slice(sps);
    record.push(1);
    record.push((pps.len() / 256) as u8);
    record.push((pps.len() % 256) as u8);
    record.extend_from_slice(pps);
    record
}

fn hevc_record(arrays: &[(u8, Vec<Vec<u8>>)]) -> Vec<u8> {
    let mut record: Vec<u8> = vec![1, 2, 3, 4, 5];
    record.push(arrays.len() as u8);
    for (kind, units) in arrays {
        record.push(*kind);
        record.push((units.len() / 256) as u8);
        record.push((units.len() % 256) as u8);
        for unit in units {
            record.push((unit.len() / 256) as u8);
            record.push((unit.len() % 256) as u8);
            record.extend_from_slice(unit);
        }
    }
    record
}

#[test]
fn h264_record_gives_both_sets_behind_markers() {
    let record = avc_record(&[0x67, 0x64, 0x00], &[0x68, 0xee]);
    let cfg = parse_h264_config(&record).unwrap();
    assert_eq!(cfg, vec![0, 0, 0, 1, 0x67, 0x64, 0x00, 0, 0, 0, 1, 0x68, 0xee]);
}

#[test]
fn h264_record_ignores_what_follows_the_second_set() {
    let mut record = avc_record(&[0x67], &[0x68]);
    record.extend_from_slice(&[9, 9, 9]);
    assert_eq!(parse_h264_config(&record), Ok(vec![0, 0, 0, 1, 0x67, 0, 0, 0, 1, 0x68]));
}

#[test]
fn h264_record_with_empty_sets_gives_two_markers() {
    let record = avc_record(&[], &[]);
    assert_eq!(parse_h264_config(&record), Ok(vec![0, 0, 0, 1, 0, 0, 0, 1]));
}

#[test]
fn h264_record_shorter_than_its_first_length_field_is_refused() {
    assert_eq!(parse_h264_config(&[]), Err(BitstreamError::Truncated));
    assert_eq!(parse_h264_config(&[1, 2, 3, 4, 5, 6, 0]), Err(BitstreamError::Truncated));
}

#[test]
fn h264_record_whose_first_set_reaches_past_the_end_is_refused() {
    let record: Vec<u8> = vec![1, 0x64, 0, 0x1f, 0xff, 0xe1, 0, 9, 0x67, 0x64];
    assert_eq!(parse_h264_config(&record), Err(BitstreamError::Truncated));
}

#[test]
fn h264_record_whose_second_set_reaches_past_the_end_is_refused() {
    let mut record = avc_record(&[0x67, 0x64], &[0x68, 0xee, 0x3c]);
    record.pop();
    assert_eq!(parse_h264_config(&record), Err(BitstreamError::Truncated));
}

#[test]
fn h264_lengths_are_big_endian() {
    let sps: Vec<u8> = (0..300).map(|i| (i % 251) as u8).collect();
    let record = avc_record(&sps, &[0x68]);
    let cfg = parse_h264_config(&record).unwrap();
    assert_eq!(cfg.len(), 4 + 300 + 4 + 1);
    assert_eq!(&cfg[4..304], &sps[..]);
    assert_eq!(&cfg[304..], &[0, 0, 0, 1, 0x68]);
}

#[test]
fn h265_record_gives_every_unit_in_the_order_met() {
    let record = hevc_record(&[
        (0x20, vec![vec![0x40, 0x01]]),
        (0x21, vec![vec![0x42, 0x01, 0x02]]),
        (0x22, vec![vec![0x44], vec![0x45, 0x46]]),
    ]);
    let cfg = parse_h265_config(&record).unwrap();
    assert_eq!(
        cfg,
        vec![
            0, 0, 0, 1, 0x40, 0x01, 0, 0, 0, 1, 0x42, 0x01, 0x02, 0, 0, 0, 1, 0x44, 0, 0, 0, 1,
            0x45, 0x46
        ]
    );
}

#[test]
fn h265_record_without_arrays_gives_nothing() {
    assert_eq!(parse_h265_config(&[1, 2, 3, 4, 5, 0]), Ok(vec![]));
    assert_eq!(parse_h265_config(&[1, 2, 3, 4, 5, 0, 7, 7]), Ok(vec![]));
}

#[test]
fn h265_record_with_an_array_of_no_units_gives_nothing() {
    let record = hevc_record(&[(0x20, vec![])]);
    assert_eq!(parse_h265_config(&record), Ok(vec![]));
}

#[test]
fn h265_record_shorter_than_its_header_is_refused() {
    assert_eq!(parse_h265_config(&[]), Err(BitstreamError::Truncated));
    assert_eq!(parse_h265_config(&[1, 2, 3, 4, 5]), Err(BitstreamError::Truncated));
}

#[test]
fn h265_record_with_a_missing_array_is_refused() {
    let mut record = hevc_record(&[(0x20, vec![vec![0x40]])]);
    record[5] = 2;
    assert_eq!(parse_h265_config(&record), Err(BitstreamError::Truncated));
}

#[test]
fn h265_record_with_a_cut_length_field_is_refused() {
    let record: Vec<u8> = vec![1, 2, 3, 4, 5, 1, 0x20, 0, 1, 0];
    assert_eq!(parse_h265_config(&record), Err(BitstreamError::Truncated));
}

#[test]
fn h265_record_with_a_cut_unit_is_refused() {
    let mut record = hevc_record(&[(0x20, vec![vec![0x40, 0x01, 0x02]])]);
    record.pop();
    assert_eq!(parse_h265_config(&record), Err(BitstreamError::Truncated));
}

#[test]
fn codec_family_goes_by_the_first_four_characters() {
    assert_eq!(classify_codec("avc1.64001f"), Some(CodecFamily::Avc));
    assert_eq!(classify_codec("avc1"), Some(CodecFamily::Avc));
    assert_eq!(classify_codec("hvc1.1.6.L93.B0"), Some(CodecFamily::Hevc));
    assert_eq!(classify_codec("avc"), None);
    assert_eq!(classify_codec("xavc1"), None);
    assert_eq!(classify_codec("hev1.1.6.L93.B0"), None);
    assert_eq!(classify_codec(""), None);
}

#[test]
fn codec_config_is_read_by_family() {
    let avc = avc_record(&[0x67], &[0x68]);
    assert_eq!(
        parse_codec_config("avc1.64001f", &avc),
        Ok(vec![0, 0, 0, 1, 0x67, 0, 0, 0, 1, 0x68])
    );
    let hevc = hevc_record(&[(0x20, vec![vec![0x40]]), (0x21, vec![vec![0x42]])]);
    assert_eq!(
        parse_codec_config("hvc1.1.6.L93.B0", &hevc),
        Ok(vec![0, 0, 0, 1, 0x40, 0, 0, 0, 1, 0x42])
    );
}

#[test]
fn unsupported_codec_is_refused_whatever_the_record_holds() {
    let avc = avc_record(&[0x67], &[0x68]);
    assert_eq!(parse_codec_config("vp09.00.10.08", &avc), Err(BitstreamError::UnsupportedCodec));
    assert_eq!(parse_codec_config("", &[]), Err(BitstreamError::UnsupportedCodec));
}

#[test]
fn supported_codec_with_a_cut_record_is_truncated() {
    assert_eq!(parse_codec_config("avc1.64001f", &[1, 2, 3]), Err(BitstreamError::Truncated));
    assert_eq!(parse_codec_config("hvc1.1.6.L93.B0", &[1, 2, 3]), Err(BitstreamError::Truncated));
}
