use avaudio::pcm_buffer::{
    channel_geometry, regions_are_disjoint, split_channels, ChannelGeometry, PCMBufferLayoutInfo,
    PCMChannelData,
};

fn layout(
    stride: u32,
    channel_count: u32,
    frame_length: u32,
    frame_capacity: u32,
    buffer_count: u32,
    minimum_buffer_byte_size: u32,
    interleaved: bool,
) -> PCMBufferLayoutInfo {
    PCMBufferLayoutInfo {
        stride,
        channel_count,
        frame_length,
        frame_capacity,
        buffer_count,
        minimum_buffer_byte_size,
        interleaved,
    }
}

#[test]
fn interleaved_geometry_exposes_all_valid_samples() {
    let l = layout(2, 2, 4, 8, 1, 32, true);
    assert_eq!(
        channel_geometry(&l, 4),
        Some(ChannelGeometry {
            region_count: 1,
            samples_per_region: 8,
            interleaved_channel_count: Some(2),
        })
    );
}

#[test]
fn interleaved_geometry_is_capped_by_buffer_size_and_rounded_to_frames() {
    // 28 bytes hold 7 four-byte samples; only 3 whole stereo frames fit.
    let l = layout(2, 2, 4, 8, 1, 28, true);
    assert_eq!(
        channel_geometry(&l, 4),
        Some(ChannelGeometry {
            region_count: 1,
            samples_per_region: 6,
            interleaved_channel_count: Some(2),
        })
    );
}

#[test]
fn frame_length_is_capped_by_capacity() {
    let l = layout(1, 2, 100, 3, 2, 1024, false);
    assert_eq!(
        channel_geometry(&l, 2),
        Some(ChannelGeometry {
            region_count: 2,
            samples_per_region: 3,
            interleaved_channel_count: None,
        })
    );
}

#[test]
fn interleaved_geometry_rejects_unsupported_layouts() {
    assert_eq!(channel_geometry(&layout(2, 2, 4, 4, 2, 32, true), 4), None);
    assert_eq!(channel_geometry(&layout(3, 2, 4, 4, 1, 32, true), 4), None);
    assert_eq!(channel_geometry(&layout(0, 0, 4, 4, 1, 32, true), 4), None);
}

#[test]
fn deinterleaved_geometry_is_capped_by_smallest_buffer() {
    let l = layout(1, 3, 10, 10, 3, 20, false);
    assert_eq!(
        channel_geometry(&l, 4),
        Some(ChannelGeometry {
            region_count: 3,
            samples_per_region: 5,
            interleaved_channel_count: None,
        })
    );
}

#[test]
fn deinterleaved_geometry_rejects_unsupported_layouts() {
    assert_eq!(channel_geometry(&layout(2, 2, 4, 4, 2, 32, false), 4), None);
    assert_eq!(channel_geometry(&layout(1, 2, 4, 4, 1, 32, false), 4), None);
}

#[test]
fn empty_buffer_has_empty_regions() {
    let l = layout(1, 2, 0, 16, 2, 64, false);
    assert_eq!(
        channel_geometry(&l, 4),
        Some(ChannelGeometry {
            region_count: 2,
            samples_per_region: 0,
            interleaved_channel_count: None,
        })
    );
}

#[test]
fn disjoint_regions_are_detected() {
    assert!(regions_are_disjoint(&vec![0, 16, 32], 16));
    assert!(regions_are_disjoint(&vec![32, 0], 16));
    assert!(regions_are_disjoint(&vec![], 16));
    assert!(regions_are_disjoint(&vec![100], 16));
}

#[test]
fn overlapping_regions_are_detected() {
    assert!(!regions_are_disjoint(&vec![0, 8], 16));
    assert!(!regions_are_disjoint(&vec![64, 0, 60], 8));
    assert!(!regions_are_disjoint(&vec![5, 5], 1));
}

#[test]
fn zero_length_regions_never_overlap() {
    assert!(regions_are_disjoint(&vec![7, 7, 7], 0));
}

#[test]
fn split_interleaved_stereo() {
    let samples = [1i16, 2, 3, 4, 5, 6];
    let data = PCMChannelData::Interleaved {
        channel_count: 2,
        samples: &samples,
    };
    assert_eq!(split_channels(&data), vec![vec![1, 3, 5], vec![2, 4, 6]]);
}

#[test]
fn split_interleaved_with_partial_frame() {
    let samples = [1i32, 2, 3, 4, 5, 6, 7];
    let data = PCMChannelData::Interleaved {
        channel_count: 3,
        samples: &samples,
    };
    assert_eq!(
        split_channels(&data),
        vec![vec![1, 4, 7], vec![2, 5], vec![3, 6]]
    );
}

#[test]
fn split_interleaved_more_channels_than_samples() {
    let samples = [9u8];
    let data = PCMChannelData::Interleaved {
        channel_count: 3,
        samples: &samples,
    };
    assert_eq!(split_channels(&data), vec![vec![9], vec![], vec![]]);
}

#[test]
fn split_deinterleaved_copies_each_channel() {
    let left = [0.5f32, -0.5];
    let right = [0.25f32, -0.25];
    let data = PCMChannelData::Deinterleaved(vec![&left[..], &right[..]]);
    assert_eq!(
        split_channels(&data),
        vec![vec![0.5f32, -0.5], vec![0.25f32, -0.25]]
    );
}

#[test]
fn split_empty_data() {
    let data: PCMChannelData<'_, i16> = PCMChannelData::Deinterleaved(vec![]);
    assert!(split_channels(&data).is_empty());
    let none: [i16; 0] = [];
    let data = PCMChannelData::Interleaved {
        channel_count: 2,
        samples: &none,
    };
    assert_eq!(split_channels(&data), vec![Vec::<i16>::new(), Vec::new()]);
}

#[test]
fn interleaved_geometry_splits_into_equal_channels() {
    let l = layout(3, 3, 5, 5, 1, 26, true);
    let g = channel_geometry(&l, 2).unwrap();
    assert_eq!(g.samples_per_region, 12);
    let samples: Vec<i16> = (0..g.samples_per_region as i16).collect();
    let data = PCMChannelData::Interleaved {
        channel_count: g.interleaved_channel_count.unwrap(),
        samples: &samples,
    };
    let channels = split_channels(&data);
    assert_eq!(channels.len(), 3);
    assert!(channels.iter().all(|c| c.len() == 4));
    assert_eq!(channels[1], vec![1, 4, 7, 10]);
}

#[test]
fn interleaved_split_keeps_every_sample() {
    let samples: Vec<i32> = (10..17).collect();
    let data = PCMChannelData::Interleaved {
        channel_count: 3,
        samples: &samples,
    };
    let channels = split_channels(&data);
    for (i, sample) in samples.iter().enumerate() {
        assert_eq!(channels[i % 3][i / 3], *sample);
    }
    let total: usize = channels.iter().map(Vec::len).sum();
    assert_eq!(total, samples.len());
}

#[test]
fn exposed_regions_fit_in_the_smallest_buffer() {
    let layouts = [
        layout(2, 2, 4, 8, 1, 28, true),
        layout(2, 2, 100, 100, 1, 30, true),
        layout(1, 3, 10, 10, 3, 21, false),
        layout(1, 2, 100, 3, 2, 1024, false),
        layout(4, 4, 9, 9, 1, 7, true),
    ];
    for l in layouts {
        for size in [2usize, 4] {
            let g = channel_geometry(&l, size).unwrap();
            assert!(g.samples_per_region * size <= l.minimum_buffer_byte_size as usize);
            let frames = l.frame_length.min(l.frame_capacity) as usize;
            if l.interleaved {
                assert!(g.samples_per_region <= frames * l.channel_count as usize);
                assert_eq!(g.region_count, 1);
            } else {
                assert!(g.samples_per_region <= frames);
                assert_eq!(g.region_count, l.channel_count as usize);
            }
        }
    }
}
