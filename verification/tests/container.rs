use purpleifypdf::PageRange;
use purpleifypdf::Quality;
use purpleifypdf::TransformationState;
use purpleifypdf::pdf_to_images::HeaderTag;
use purpleifypdf::pdf_to_images::ImageHeader;
use purpleifypdf::pdf_to_images::Images;
use purpleifypdf::pdf_to_images::ReadStep;
use purpleifypdf::pdf_to_images::encode_container;

fn state_with_range(page_count: usize, range: Option<PageRange>) -> TransformationState {
    TransformationState::try_new("t".to_string(), page_count, range, Quality::High, None).unwrap()
}

fn get_unchecked() -> Images {
    Images::new(state_with_range(3, None))
}

#[test]
fn can_create() {
    get_unchecked();
}

#[test]
fn can_read() {
    let mut images = get_unchecked();
    let buffer_size: usize = 1000;
    let mut safety: usize = 0;
    loop {
        match images.poll(buffer_size).unwrap() {
            ReadStep::Data(_) => {}
            ReadStep::NeedPage(offset) => images.supply_page(vec![offset as u8; 10]),
            ReadStep::End => break,
        }
        safety += 1;
        assert!(safety < 100);
    }
}

/// Splits a container stream into its (tag, payload) blocks, checking every
/// header's magic prefix and offset on the way.
fn walk_blocks(buf: &[u8]) -> Vec<(Vec<u8>, Vec<u8>)> {
    let mut blocks = Vec::new();
    let mut i = 0;
    loop {
        if i == buf.len() {
            break;
        } else if i > buf.len() {
            panic!("Attempting to read past end");
        }

        let start = i;
        let stop = start + 4;
        assert_eq!(&buf[start..stop], b"PPDF");

        let start = stop;
        let stop = start + 4;
        let offset_bytes: [u8; 4] = buf[start..stop].try_into().unwrap();
        let offset = u32::from_be_bytes(offset_bytes) as usize;

        let start = stop;
        let stop = start + 3;
        let tag = buf[start..stop].to_vec();

        let payload_start = stop;
        let payload_stop = i + offset;
        let payload = buf[payload_start..payload_stop].to_vec();
        blocks.push((tag, payload));
        i += offset;
    }
    blocks
}

#[test]
fn valid_headers() {
    let pages = vec![vec![1u8, 1], vec![2u8], vec![3u8, 3, 3]];
    let stream = encode_container(state_with_range(3, None), &pages).unwrap();
    let blocks = walk_blocks(&stream);

    let meta_count = blocks.iter().filter(|(tag, _)| tag == b"MET").count();
    assert_eq!(meta_count, 1);
    for (tag, _) in &blocks {
        assert!(tag == b"MET" || tag == b"IMG");
    }
}

#[test]
fn stream_is_one_metadata_block_then_one_image_block_per_page() {
    let pages = vec![vec![1u8, 1], vec![2u8], vec![3u8, 3, 3]];
    let stream = encode_container(state_with_range(3, None), &pages).unwrap();
    let blocks = walk_blocks(&stream);

    assert_eq!(blocks.len(), 4);
    assert_eq!(blocks[0].0, b"MET");
    for (i, page) in pages.iter().enumerate() {
        assert_eq!(blocks[1 + i].0, b"IMG");
        assert_eq!(&blocks[1 + i].1, page);
    }
}

#[test]
fn metadata_block_is_the_json_record() {
    let pages = vec![vec![9u8]];
    let range = PageRange { starting_index: 0, count: 1 };
    let stream = encode_container(state_with_range(3, Some(range)), &pages).unwrap();
    let blocks = walk_blocks(&stream);

    // The record carries the original title and the page count; a changed
    // title or count changes these bytes.
    assert_eq!(blocks[0].1, br#"{"originalTitle":"t","pageCount":3}"#);
}

#[test]
fn single_page_range_streams_one_image_block() {
    // A 3-page document restricted to its first page: one metadata block, one
    // image block, end of stream.
    let range = PageRange { starting_index: 0, count: 1 };
    let mut images = Images::new(state_with_range(3, Some(range)));
    let mut data: Vec<u8> = Vec::new();
    let mut supplied: Vec<usize> = Vec::new();
    let mut safety: usize = 0;
    loop {
        match images.poll(7).unwrap() {
            ReadStep::Data(mut d) => data.append(&mut d),
            ReadStep::NeedPage(offset) => {
                supplied.push(offset);
                images.supply_page(vec![0xAB, 0xCD]);
            }
            ReadStep::End => break,
        }
        safety += 1;
        assert!(safety < 100);
    }
    assert_eq!(supplied, vec![0]);
    let blocks = walk_blocks(&data);
    assert_eq!(blocks.len(), 2);
    assert_eq!(blocks[0].0, b"MET");
    assert_eq!(blocks[1].0, b"IMG");
    assert_eq!(blocks[1].1, vec![0xAB, 0xCD]);
}

#[test]
fn empty_range_streams_only_metadata() {
    let range = PageRange { starting_index: 100, count: 10 };
    let stream = encode_container(state_with_range(3, Some(range)), &Vec::new()).unwrap();
    let blocks = walk_blocks(&stream);
    assert_eq!(blocks.len(), 1);
    assert_eq!(blocks[0].0, b"MET");
}

#[test]
fn header_size_limit() {
    assert!(ImageHeader::try_new(HeaderTag::Img, (u32::MAX - 11) as usize).is_some());
    assert!(ImageHeader::try_new(HeaderTag::Img, (u32::MAX - 10) as usize).is_none());
}

#[test]
fn header_bytes_are_exact() {
    let header = ImageHeader::try_new(HeaderTag::Met, 5).unwrap();
    assert_eq!(header.to_bytes(), vec![80, 80, 68, 70, 0, 0, 0, 16, 77, 69, 84]);
    let header = ImageHeader::try_new(HeaderTag::Img, 256).unwrap();
    assert_eq!(header.to_bytes(), vec![80, 80, 68, 70, 0, 0, 1, 11, 73, 77, 71]);
}
