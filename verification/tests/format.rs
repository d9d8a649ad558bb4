use avaudio::format::{AudioCommonFormat, AudioFormatInfo};

#[test]
fn common_format_maps_known_raw_values() {
    assert_eq!(AudioCommonFormat::from_raw(1), AudioCommonFormat::PcmFloat32);
    assert_eq!(AudioCommonFormat::from_raw(2), AudioCommonFormat::PcmFloat64);
    assert_eq!(AudioCommonFormat::from_raw(3), AudioCommonFormat::PcmInt16);
    assert_eq!(AudioCommonFormat::from_raw(4), AudioCommonFormat::PcmInt32);
}

#[test]
fn common_format_maps_unknown_values_to_other() {
    assert_eq!(AudioCommonFormat::from_raw(-1), AudioCommonFormat::Other);
}

#[test]
fn format_info_reports_its_common_format() {
    let info = AudioFormatInfo {
        common_format: 3,
        sample_rate_bits: 48_000.0f64.to_bits(),
        channel_count: 2,
        is_interleaved: true,
    };
    assert_eq!(info.common(), AudioCommonFormat::PcmInt16);
    assert_eq!(AudioCommonFormat::from_raw(0), AudioCommonFormat::Other);
    assert_eq!(AudioCommonFormat::from_raw(5), AudioCommonFormat::Other);
}
