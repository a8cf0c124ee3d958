use ibc_relay_core::bytes::{
    bytes32_eq, bytes_eq, copy_segments, segments_eq, split_bytes, u64_be_bytes,
};
use ibc_relay_core::height::Height;
use ibc_relay_core::path::{
    decode_segment, encode_key_path, gather, gather_unordered, is_well_padded, join_key_path,
    plan_fetch,
    Arrival, Fetched, GatherError, KVPair, PathError,
};

#[test]
fn split_keeps_empty_pieces() {
    assert_eq!(split_bytes(b"", b'\\'), vec![Vec::<u8>::new()]);
    assert_eq!(split_bytes(b"abc", b'\\'), vec![b"abc".to_vec()]);
    assert_eq!(
        split_bytes(b"a\\b", b'\\'),
        vec![b"a".to_vec(), b"b".to_vec()]
    );
    assert_eq!(
        split_bytes(b"\\a\\\\b\\", b'\\'),
        vec![
            b"".to_vec(),
            b"a".to_vec(),
            b"".to_vec(),
            b"b".to_vec(),
            b"".to_vec()
        ]
    );
}

#[test]
fn split_agrees_with_std() {
    for text in ["", "x", "a\\b", "\\", "\\\\", "ab\\cd\\ef", "aWJj\\a2V5"] {
        let expected: Vec<Vec<u8>> = text.split('\\').map(|p| p.as_bytes().to_vec()).collect();
        assert_eq!(split_bytes(text.as_bytes(), b'\\'), expected);
    }
}

#[test]
fn byte_comparisons() {
    assert!(bytes_eq(b"abc", b"abc"));
    assert!(!bytes_eq(b"abc", b"abd"));
    assert!(!bytes_eq(b"abc", b"ab"));
    assert!(bytes_eq(b"", b""));
    let mut other = [7u8; 32];
    assert!(bytes32_eq(&[7u8; 32], &other));
    other[31] = 8;
    assert!(!bytes32_eq(&[7u8; 32], &other));
    let a = vec![b"x".to_vec(), b"yz".to_vec()];
    assert!(segments_eq(&a, &copy_segments(&a)));
    assert!(!segments_eq(&a, &vec![b"x".to_vec()]));
    assert!(!segments_eq(&a, &vec![b"x".to_vec(), b"yy".to_vec()]));
}

#[test]
fn plain_path_lives_in_the_default_store() {
    let path = encode_key_path(false, b"clients/07-tendermint-0/clientState").unwrap();
    assert_eq!(
        path,
        vec![
            b"ibc".to_vec(),
            b"clients/07-tendermint-0/clientState".to_vec()
        ]
    );
    // A backslash means nothing in a plain path.
    let path = encode_key_path(false, b"a\\b\\c").unwrap();
    assert_eq!(path, vec![b"ibc".to_vec(), b"a\\b\\c".to_vec()]);
    let path = encode_key_path(false, b"").unwrap();
    assert_eq!(path, vec![b"ibc".to_vec(), Vec::new()]);
}

#[test]
fn base64_path_names_store_and_key() {
    let path = encode_key_path(true, b"aWJj\\a2V5").unwrap();
    assert_eq!(path, vec![b"ibc".to_vec(), b"key".to_vec()]);
    let path = encode_key_path(true, b"aQ==\\a2U=").unwrap();
    assert_eq!(path, vec![b"i".to_vec(), b"ke".to_vec()]);
    let path = encode_key_path(true, b"\\").unwrap();
    assert_eq!(path, vec![Vec::<u8>::new(), Vec::<u8>::new()]);
}

#[test]
fn base64_path_must_have_two_segments() {
    assert_eq!(encode_key_path(true, b"aWJj"), Err(PathError::InvalidPath));
    assert_eq!(
        encode_key_path(true, b"aWJj\\a2V5\\a2V5"),
        Err(PathError::InvalidPath)
    );
    assert_eq!(encode_key_path(true, b""), Err(PathError::InvalidPath));
    // The number of segments is tested before any segment is decoded.
    assert_eq!(
        encode_key_path(true, b"!!\\!!\\!!"),
        Err(PathError::InvalidPath)
    );
}

#[test]
fn base64_path_must_decode() {
    assert_eq!(
        encode_key_path(true, b"aWJj\\!!!!"),
        Err(PathError::InvalidEncoding)
    );
    assert_eq!(
        encode_key_path(true, b"a\\a2V5"),
        Err(PathError::InvalidEncoding)
    );
    assert_eq!(
        encode_key_path(true, b"aWJj\\a2V5 "),
        Err(PathError::InvalidEncoding)
    );
}

#[test]
fn badly_padded_segments_are_refused_without_panic() {
    for text in ["=", "====", "AAAA====", "AA=A", "A=AA", "=AAA", "AAAAA=A"] {
        assert!(!is_well_padded(text.as_bytes()), "{}", text);
        assert_eq!(
            decode_segment(text.as_bytes()),
            Err(PathError::InvalidEncoding)
        );
    }
    for text in ["", "AAAA", "AAA=", "AA==", "AAAAAA==", "A", "A===", "AA=A====AAA="] {
        assert!(is_well_padded(text.as_bytes()), "{}", text);
    }
}

#[test]
fn segments_decode_as_base64() {
    assert_eq!(decode_segment(b""), Ok(Vec::new()));
    assert_eq!(decode_segment(b"aWJj"), Ok(b"ibc".to_vec()));
    assert_eq!(decode_segment(b"aGVsbG8gd29ybGQ="), Ok(b"hello world".to_vec()));
    assert_eq!(decode_segment(b"//8="), Ok(vec![0xff, 0xff]));
    assert_eq!(decode_segment(b"A"), Err(PathError::InvalidEncoding));
    assert_eq!(decode_segment(b"A==="), Err(PathError::InvalidEncoding));
    assert_eq!(decode_segment(b"a b="), Err(PathError::InvalidEncoding));
}

#[test]
fn fetch_of_a_path_with_wrong_arity_is_refused() {
    let height = Height::new(1, 5);
    let good = vec![b"ibc".to_vec(), b"k".to_vec()];
    let one = vec![b"ibc".to_vec()];
    let three = vec![b"ibc".to_vec(), b"k".to_vec(), b"x".to_vec()];
    let none: Vec<Vec<u8>> = vec![];
    for bad in [one, three, none] {
        for paths in [
            vec![bad.clone()],
            vec![good.clone(), bad.clone()],
            vec![bad.clone(), good.clone()],
            vec![good.clone(), bad.clone(), good.clone()],
        ] {
            assert_eq!(plan_fetch(paths, height).unwrap_err(), PathError::InvalidPath);
        }
    }
}

#[test]
fn fetch_plan_keeps_paths_and_height() {
    let height = Height::new(1, 5);
    let a = vec![b"ibc".to_vec(), b"a".to_vec()];
    let b = vec![b"ibc".to_vec(), b"b".to_vec()];
    let plan = plan_fetch(vec![a.clone(), b.clone()], height).unwrap();
    assert_eq!(plan.len(), 2);
    assert!(!plan.is_empty());
    assert_eq!(plan.at_height(), height);
    assert_eq!(plan.path(0), a);
    assert_eq!(plan.path(1), b);
    let empty = plan_fetch(vec![], height).unwrap();
    assert!(empty.is_empty());
    assert_eq!(empty.len(), 0);
}

#[test]
fn gather_matches_answers_to_paths() {
    let height = Height::new(2, 9);
    let a = vec![b"ibc".to_vec(), b"a".to_vec()];
    let b = vec![b"ibc".to_vec(), b"b".to_vec()];
    let plan = plan_fetch(vec![a.clone(), b.clone()], height).unwrap();
    let answers = vec![
        Fetched { value: b"va".to_vec(), proof: b"pa".to_vec() },
        Fetched { value: b"vb".to_vec(), proof: b"pb".to_vec() },
    ];
    let out = gather(&plan, answers).unwrap();
    assert_eq!(out.len(), 2);
    assert_eq!(out[0].pair.path, a);
    assert_eq!(out[0].pair.value, b"va".to_vec());
    assert_eq!(out[0].proof, b"pa".to_vec());
    assert_eq!(out[0].height, height);
    assert_eq!(out[1].pair.path, b);
    assert_eq!(out[1].pair.value, b"vb".to_vec());
    assert_eq!(out[1].proof, b"pb".to_vec());
    assert_eq!(out[1].height, height);
}

#[test]
fn gather_needs_one_answer_per_path() {
    let height = Height::new(2, 9);
    let a = vec![b"ibc".to_vec(), b"a".to_vec()];
    let plan = plan_fetch(vec![a.clone(), a.clone()], height).unwrap();
    let one = vec![Fetched { value: vec![], proof: vec![] }];
    assert_eq!(gather(&plan, one).unwrap_err(), GatherError::Incomplete);
    assert_eq!(gather(&plan, vec![]).unwrap_err(), GatherError::Incomplete);
    let three = vec![
        Fetched { value: vec![], proof: vec![] },
        Fetched { value: vec![], proof: vec![] },
        Fetched { value: vec![], proof: vec![] },
    ];
    assert_eq!(gather(&plan, three).unwrap_err(), GatherError::Incomplete);
}

#[test]
fn pair_duplicate_is_equal() {
    let pair = KVPair { path: vec![b"ibc".to_vec(), b"k".to_vec()], value: b"v".to_vec() };
    let copy = pair.duplicate();
    assert_eq!(copy.path, pair.path);
    assert_eq!(copy.value, pair.value);
}

#[test]
fn unordered_gather_restores_the_order_of_the_plan() {
    let height = Height::new(2, 9);
    let paths: Vec<Vec<Vec<u8>>> =
        (0u8..3).map(|i| vec![b"ibc".to_vec(), vec![b'k', i]]).collect();
    let plan = plan_fetch(paths.clone(), height).unwrap();
    let arrival = |index: usize| Arrival {
        index,
        answer: Fetched { value: vec![b'v', index as u8], proof: vec![b'p', index as u8] },
    };
    for order in [[0usize, 1, 2], [2, 1, 0], [1, 2, 0], [2, 0, 1]] {
        let out = gather_unordered(&plan, order.iter().map(|i| arrival(*i)).collect()).unwrap();
        assert_eq!(out.len(), 3);
        for i in 0..3 {
            assert_eq!(out[i].pair.path, paths[i]);
            assert_eq!(out[i].pair.value, vec![b'v', i as u8]);
            assert_eq!(out[i].proof, vec![b'p', i as u8]);
            assert_eq!(out[i].height, height);
        }
    }
}

#[test]
fn unordered_gather_needs_each_path_answered_once() {
    let height = Height::new(2, 9);
    let paths: Vec<Vec<Vec<u8>>> =
        (0u8..3).map(|i| vec![b"ibc".to_vec(), vec![b'k', i]]).collect();
    let plan = plan_fetch(paths, height).unwrap();
    let arrival =
        |index: usize| Arrival { index, answer: Fetched { value: vec![], proof: vec![] } };
    let bad: Vec<Vec<usize>> = vec![
        vec![],
        vec![0, 1],
        vec![0, 1, 1],
        vec![0, 1, 3],
        vec![0, 1, 2, 2],
        vec![0, 1, 2, 3],
        vec![usize::MAX, 0, 1],
    ];
    for order in bad {
        let r = gather_unordered(&plan, order.iter().map(|i| arrival(*i)).collect());
        assert_eq!(r.unwrap_err(), GatherError::Incomplete);
    }
    let empty = plan_fetch(vec![], height).unwrap();
    assert_eq!(gather_unordered(&empty, vec![]).unwrap().len(), 0);
    assert_eq!(
        gather_unordered(&empty, vec![arrival(0)]).unwrap_err(),
        GatherError::Incomplete
    );
}

#[test]
fn key_path_is_joined_from_decoded_segments() {
    assert_eq!(
        join_key_path(Some(b"ibc".to_vec()), Some(b"key".to_vec())),
        Ok(vec![b"ibc".to_vec(), b"key".to_vec()])
    );
    assert_eq!(
        join_key_path(None, Some(b"key".to_vec())),
        Err(PathError::InvalidEncoding)
    );
    assert_eq!(
        join_key_path(Some(b"ibc".to_vec()), None),
        Err(PathError::InvalidEncoding)
    );
    assert_eq!(join_key_path(None, None), Err(PathError::InvalidEncoding));
}

#[test]
fn integers_are_written_most_significant_byte_first() {
    assert_eq!(u64_be_bytes(0), vec![0u8; 8]);
    assert_eq!(u64_be_bytes(1), vec![0, 0, 0, 0, 0, 0, 0, 1]);
    assert_eq!(u64_be_bytes(0x0102030405060708), vec![1, 2, 3, 4, 5, 6, 7, 8]);
    assert_eq!(u64_be_bytes(u64::MAX), vec![0xff; 8]);
    for n in [255u64, 256, 65535, 65536, 1 << 32, (1 << 56) + 7, u64::MAX - 1] {
        assert_eq!(u64_be_bytes(n), n.to_be_bytes().to_vec());
    }
}
