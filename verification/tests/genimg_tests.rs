use paber::genimg::{extract_image_bytes, Candidate, Content, GenError, GenResponse, Part};

fn response_with(parts: Vec<Part>) -> GenResponse {
    GenResponse { candidates: Some(vec![Candidate { content: Content { parts } }]) }
}

#[test]
fn no_candidates_means_no_image() {
    let r = GenResponse { candidates: None };
    assert_eq!(extract_image_bytes(&r), Err(GenError::NoImage));
    let r = GenResponse { candidates: Some(vec![]) };
    assert_eq!(extract_image_bytes(&r), Err(GenError::NoImage));
}

#[test]
fn parts_without_inline_data_mean_no_image() {
    let r = response_with(vec![Part { inline_data: None }, Part { inline_data: None }]);
    assert_eq!(extract_image_bytes(&r), Err(GenError::NoImage));
}

#[test]
fn inline_data_is_decoded() {
    let r = response_with(vec![Part { inline_data: Some(b"aGVsbG8=".to_vec()) }]);
    assert_eq!(extract_image_bytes(&r), Ok(b"hello".to_vec()));
}

#[test]
fn newlines_are_stripped_before_decoding() {
    let r = response_with(vec![Part { inline_data: Some(b"aGVs\nbG8=\n".to_vec()) }]);
    assert_eq!(extract_image_bytes(&r), Ok(b"hello".to_vec()));
}

#[test]
fn invalid_base64_is_reported() {
    let r = response_with(vec![Part { inline_data: Some(b"!!!".to_vec()) }]);
    assert_eq!(extract_image_bytes(&r), Err(GenError::BadBase64));
}

#[test]
fn empty_inline_data_decodes_to_nothing() {
    let r = response_with(vec![Part { inline_data: Some(Vec::new()) }]);
    assert_eq!(extract_image_bytes(&r), Ok(Vec::new()));
}

#[test]
fn first_carrying_part_wins() {
    let r = response_with(vec![
        Part { inline_data: None },
        Part { inline_data: Some(b"Zmlyc3Q=".to_vec()) },
        Part { inline_data: Some(b"c2Vjb25k".to_vec()) },
    ]);
    assert_eq!(extract_image_bytes(&r), Ok(b"first".to_vec()));
}

#[test]
fn only_the_first_candidate_is_read() {
    let empty = Candidate { content: Content { parts: vec![Part { inline_data: None }] } };
    let carrying = Candidate {
        content: Content { parts: vec![Part { inline_data: Some(b"aGVsbG8=".to_vec()) }] },
    };
    let r = GenResponse { candidates: Some(vec![empty, carrying]) };
    assert_eq!(extract_image_bytes(&r), Err(GenError::NoImage));
}
