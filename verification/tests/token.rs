use datafusion_fdw::token::ScanToken;

#[test]
fn a_token_packs_generation_and_index_side_by_side() {
    let token = ScanToken { index: 5, generation: 0 };
    assert_eq!(token.to_datum(), 5);
    let token = ScanToken { index: 5, generation: 1 };
    assert_eq!(token.to_datum(), 0x1_0000_0005);
    let token = ScanToken { index: u32::MAX, generation: 0x7FFF_FFFF };
    assert_eq!(token.to_datum(), i64::MAX);
    let token = ScanToken { index: 0, generation: 0x8000_0000 };
    assert_eq!(token.to_datum(), i64::MIN);
    let token = ScanToken { index: u32::MAX, generation: u32::MAX };
    assert_eq!(token.to_datum(), -1);
}

#[test]
fn a_token_comes_back_from_its_datum() {
    for token in [
        ScanToken { index: 0, generation: 0 },
        ScanToken { index: 1, generation: 0 },
        ScanToken { index: 0, generation: 1 },
        ScanToken { index: 77, generation: 3 },
        ScanToken { index: u32::MAX, generation: 0x7FFF_FFFF },
        ScanToken { index: 0, generation: 0x8000_0000 },
        ScanToken { index: 12, generation: 0xFFFF_FFFE },
        ScanToken { index: u32::MAX, generation: u32::MAX },
    ] {
        assert_eq!(ScanToken::from_datum(token.to_datum()), token);
    }
}

#[test]
fn a_datum_comes_back_from_its_token() {
    for datum in [0i64, 1, -1, 42, i64::MAX, i64::MIN, -4_294_967_296, 4_294_967_296] {
        assert_eq!(ScanToken::from_datum(datum).to_datum(), datum);
    }
    assert_eq!(ScanToken::from_datum(-1), ScanToken { index: u32::MAX, generation: u32::MAX });
    assert_eq!(ScanToken::from_datum(4_294_967_296), ScanToken { index: 0, generation: 1 });
}

#[test]
fn the_list_of_a_token_holds_its_datum() {
    let token = ScanToken { index: 9, generation: 2 };
    let list = token.serialize_to_list();
    assert_eq!(list, vec![0x2_0000_0009]);
    assert_eq!(ScanToken::deserialize_from_list(&list), Some(token));
}

#[test]
fn an_empty_list_carries_no_token() {
    assert_eq!(ScanToken::deserialize_from_list(&Vec::new()), None);
}

#[test]
fn only_the_first_integer_of_a_list_counts() {
    let list = vec![3i64, 99, -5];
    assert_eq!(
        ScanToken::deserialize_from_list(&list),
        Some(ScanToken { index: 3, generation: 0 })
    );
}
