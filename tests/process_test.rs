use sophgo_hal::rom::{check, process, Error, HeaderInfo, Operations};

#[test]
fn process_success() {
    let mut content = vec![0u8; 4098];
    let ops = Operations {
        refill_header: None,
        set_image_content: Some(&[0x11, 0x22]),
        resize_image_full_length: 4098,
    };
    let ans = process(&mut content, &ops);
    assert_eq!(ans, Ok(()));
    let mut expected = vec![0u8; 4096];
    expected.push(0x11);
    expected.push(0x22);
    assert_eq!(content, expected);
    let mut content = vec![0u8; 4098];
    let ops = Operations {
        refill_header: Some(HeaderInfo {
            blcp_image_checksum: 0x11112222,
            bl2_image_checksum: 0x33334444,
            bl2_image_size: 0x55556666,
        }),
        set_image_content: Some(&[0x11, 0x22]),
        resize_image_full_length: 4098,
    };
    let ans = process(&mut content, &ops);
    assert_eq!(ans, Ok(()));
    let mut expected = vec![0u8; 4098];
    expected[..12].copy_from_slice(&[
        0x43, 0x56, 0x42, 0x4C, 0x30, 0x31, 0x0A, 0x00, 0x00, 0x00, 0x00, 0x00,
    ]);
    expected[0xBC..0xC0].copy_from_slice(&[0xF8, 0x02, 0x00, 0x00]);
    expected[0xC0..0xC4].copy_from_slice(&[0x22, 0x22, 0x11, 0x11]);
    expected[0xD4..0xD8].copy_from_slice(&[0x44, 0x44, 0x33, 0x33]);
    expected[0xD8..0xDC].copy_from_slice(&[0x66, 0x66, 0x55, 0x55]);
    expected[0xC..0x10].copy_from_slice(&[0xA5, 0xAC, 0xFE, 0xCA]);
    expected[4096..].copy_from_slice(&[0x11, 0x22]);
    assert_eq!(content, expected);
}

#[test]
fn process_error_output_buffer_length() {
    let mut content = vec![0u8; 50];
    let ops = Operations {
        refill_header: None,
        set_image_content: None,
        resize_image_full_length: 100,
    };
    let ans = process(&mut content, &ops);
    assert_eq!(ans, Err(Error::OutputBufferLength { wrong_length: 50 }))
}

#[test]
fn process_error_image_full_length() {
    let mut content = vec![0u8; 501];
    let ops = Operations {
        refill_header: None,
        set_image_content: None,
        resize_image_full_length: 500,
    };
    let ans = process(&mut content, &ops);
    assert_eq!(
        ans,
        Err(Error::ImageFullLength {
            wrong_full_length: 500
        })
    );
}

#[test]
fn process_error_image_content_length() {
    let mut content = vec![0u8; 5000];
    let ops = Operations {
        refill_header: None,
        set_image_content: Some(&[0x11, 0x22]),
        resize_image_full_length: 600,
    };
    let ans = process(&mut content, &ops);
    assert_eq!(
        ans,
        Err(Error::ImageFullLength {
            wrong_full_length: 600
        })
    );
}

fn blob(extra: &[u8]) -> Vec<u8> {
    let mut b = vec![0x6F, 0x00, 0x00, 0x02];
    b.extend(std::iter::repeat(0u8).take(28));
    b.extend_from_slice(extra);
    b
}

#[test]
fn header_patch_leaves_payload_area_alone() {
    let mut content = vec![0x5Au8; 4098];
    let ops = Operations {
        refill_header: Some(HeaderInfo {
            blcp_image_checksum: 0x11112222,
            bl2_image_checksum: 0x33334444,
            bl2_image_size: 0x55556666,
        }),
        set_image_content: None,
        resize_image_full_length: 4096,
    };
    assert_eq!(process(&mut content, &ops), Ok(()));
    assert_eq!(&content[..12], b"CVBL01\n\0\0\0\0\0");
    assert_eq!(&content[0x10..0xBC], &vec![0x5Au8; 0xAC][..]);
    assert!(content[0x800..].iter().all(|&b| b == 0x5A));
}

#[test]
fn process_payload_exceeding_full_length() {
    let mut content = vec![0u8; 5000];
    let ops = Operations {
        refill_header: None,
        set_image_content: Some(&[0x11, 0x22]),
        resize_image_full_length: 4097,
    };
    assert_eq!(
        process(&mut content, &ops),
        Err(Error::ImageContentLength {
            wrong_content_length: 2,
            wrong_full_length: 4097
        })
    );
    assert!(content.iter().all(|&b| b == 0));
}

#[test]
fn process_payload_filling_to_one_short() {
    let mut content = vec![0u8; 4098];
    let ops = Operations {
        refill_header: None,
        set_image_content: Some(&[0x11]),
        resize_image_full_length: 4098,
    };
    assert_eq!(process(&mut content, &ops), Ok(()));
    assert_eq!(content[4096], 0x11);
    assert_eq!(content[4097], 0);
}

#[test]
fn process_short_buffer_untouched() {
    let mut content = vec![7u8; 4095];
    let ops = Operations {
        refill_header: Some(HeaderInfo {
            blcp_image_checksum: 1,
            bl2_image_checksum: 2,
            bl2_image_size: 3,
        }),
        set_image_content: None,
        resize_image_full_length: 4096,
    };
    assert_eq!(
        process(&mut content, &ops),
        Err(Error::OutputBufferLength { wrong_length: 4095 })
    );
    assert!(content.iter().all(|&b| b == 7));
}

#[test]
fn check_raw_blob_operations() {
    let input = blob(&[1, 2, 3, 4, 5, 6, 7, 8]);
    let ops = check(&input).unwrap();
    let header = ops.refill_header.as_ref().unwrap();
    assert_eq!(header.blcp_image_checksum, 0xCAFE0000);
    assert_eq!(header.bl2_image_checksum, 0xCAFE6808);
    assert_eq!(header.bl2_image_size, 512);
    assert_eq!(ops.set_image_content, Some(&input[..]));
    assert_eq!(ops.resize_image_full_length, 4096 + 512);
}

#[test]
fn check_aligned_blob_gets_full_padding_block() {
    let mut extra: Vec<u8> = (0..=255u8).collect();
    extra.extend(std::iter::repeat(0u8).take(512 - 32 - 256));
    let input = blob(&extra);
    assert_eq!(input.len(), 512);
    let ops = check(&input).unwrap();
    let header = ops.refill_header.as_ref().unwrap();
    assert_eq!(header.bl2_image_size, 1024);
    assert_eq!(header.bl2_image_checksum, 0xCAFEBB62);
    assert_eq!(ops.resize_image_full_length, 4096 + 1024);
}

#[test]
fn check_then_process_round() {
    let input = blob(&[9, 9, 9]);
    let ops = check(&input).unwrap();
    let mut image = vec![0u8; ops.resize_image_full_length];
    assert_eq!(process(&mut image, &ops), Ok(()));
    assert_eq!(&image[..6], b"CVBL01");
    assert_eq!(&image[0xD8..0xDC], &[0x00, 0x02, 0x00, 0x00]);
    assert_eq!(&image[4096..4096 + input.len()], &input[..]);
}

#[test]
fn check_errors() {
    assert_eq!(check(&[0x6F, 0, 0]).err(), Some(Error::HeadLength { wrong_length: 3 }));
    assert_eq!(
        check(&[0x6F, 0, 0, 2, 0]).err(),
        Some(Error::HeadLength { wrong_length: 5 })
    );
    assert_eq!(
        check(&[1, 2, 3, 4]).err(),
        Some(Error::MagicNumber { wrong_magic: 0x04030201 })
    );
    assert_eq!(
        check(&[0x43, 0x56, 0x42, 0x4C, 0x30]).err(),
        Some(Error::UnsupportedFormat { magic: 0x4C425643 })
    );
    assert_eq!(
        check(&[0x46, 0x4C, 0x45, 0x7F]).err(),
        Some(Error::UnsupportedFormat { magic: 0x7F454C46 })
    );
    let mut bad = blob(&[0; 8]);
    bad[31] = 0xEE;
    let mut wrong_magic = [0u8; 32];
    wrong_magic.copy_from_slice(&bad[..32]);
    assert_eq!(check(&bad).err(), Some(Error::RawBlobMagic { wrong_magic }));
}
