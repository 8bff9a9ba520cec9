use btrimmer::errors::TrimError;
use btrimmer::extract::extract_range;

fn sixteen_bytes() -> Vec<u8> {
    (0u8..16).collect()
}

#[test]
fn mid_range_extraction() {
    let data = sixteen_bytes();
    let out = extract_range(&data, 4, Some(4)).unwrap();
    assert_eq!(out, vec![0x04, 0x05, 0x06, 0x07]);
}

#[test]
fn tail_from_offset_twelve() {
    let data = sixteen_bytes();
    let out = extract_range(&data, 12, None).unwrap();
    assert_eq!(out, vec![0x0C, 0x0D, 0x0E, 0x0F]);
}

#[test]
fn offset_past_end_is_empty_success() {
    let data = sixteen_bytes();
    let out = extract_range(&data, 20, None).unwrap();
    assert!(out.is_empty());
}

#[test]
fn round_trip_identity() {
    let data = sixteen_bytes();
    let out = extract_range(&data, 0, Some(data.len())).unwrap();
    assert_eq!(out, data);
    let all = extract_range(&data, 0, None).unwrap();
    assert_eq!(all, data);
}

#[test]
fn tail_extraction_every_offset() {
    let data = sixteen_bytes();
    for offset in 0..=data.len() {
        let out = extract_range(&data, offset, None).unwrap();
        assert_eq!(out.len(), data.len() - offset);
        assert_eq!(&out[..], &data[offset..]);
    }
}

#[test]
fn offset_at_end_is_empty_success() {
    let data = sixteen_bytes();
    let out = extract_range(&data, data.len(), None).unwrap();
    assert!(out.is_empty());
}

#[test]
fn exact_size_extraction() {
    let data = sixteen_bytes();
    for offset in 0..=data.len() {
        for size in 0..=(data.len() - offset) {
            let out = extract_range(&data, offset, Some(size)).unwrap();
            assert_eq!(out.len(), size);
            assert_eq!(&out[..], &data[offset..offset + size]);
        }
    }
}

#[test]
fn insufficient_data_fails() {
    let data = sixteen_bytes();
    assert_eq!(
        extract_range(&data, 14, Some(3)),
        Err(TrimError::Insufficient {
            size: 3,
            offset: 14
        })
    );
    assert_eq!(
        extract_range(&data, 0, Some(17)),
        Err(TrimError::Insufficient {
            size: 17,
            offset: 0
        })
    );
    assert_eq!(
        extract_range(&data, 20, Some(1)),
        Err(TrimError::Insufficient {
            size: 1,
            offset: 20
        })
    );
}

#[test]
fn zero_size_always_succeeds() {
    let data = sixteen_bytes();
    // Even past the end: an exact read of nothing needs nothing.
    assert_eq!(extract_range(&data, 20, Some(0)), Ok(vec![]));
    assert_eq!(extract_range(&data, 0, Some(0)), Ok(vec![]));
}

#[test]
fn empty_input() {
    let data: Vec<u8> = vec![];
    assert_eq!(extract_range(&data, 0, None), Ok(vec![]));
    assert_eq!(extract_range(&data, 0, Some(0)), Ok(vec![]));
    assert_eq!(
        extract_range(&data, 0, Some(1)),
        Err(TrimError::Insufficient { size: 1, offset: 0 })
    );
}
