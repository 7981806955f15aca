use std::str::FromStr;

use types::{Error, File, Rank, Square, FILES, RANKS, SQUARES, SQUARES_LEN};

#[test]
fn square_test_index() {
    assert_eq!(0, Square::A1.to_index());
    assert_eq!(63, Square::H8.to_index());
}

#[test]
fn square_test_from_index() {
    assert_eq!(Square::A1, Square::from_index(0));
    assert_eq!(Square::H1, Square::from_index(7));
    assert_eq!(Square::A3, Square::from_index(16));
    assert_eq!(Square::H3, Square::from_index(23));
    assert_eq!(Square::A8, Square::from_index(56));
    assert_eq!(Square::H8, Square::from_index(63));
    assert_eq!(Square::A1, Square::from_index(64));
}

#[test]
fn test_from_file_rank() {
    assert_eq!(Square::A1, Square::from_file_rank(File::A, Rank::One));
    assert_eq!(Square::H1, Square::from_file_rank(File::H, Rank::One));
    assert_eq!(Square::E3, Square::from_file_rank(File::E, Rank::Three));
    assert_eq!(Square::F4, Square::from_file_rank(File::F, Rank::Four));
    assert_eq!(Square::A8, Square::from_file_rank(File::A, Rank::Eight));
    assert_eq!(Square::H8, Square::from_file_rank(File::H, Rank::Eight));
}

#[test]
fn test_file_of() {
    assert_eq!(File::A, Square::A1.file_of());
    assert_eq!(File::H, Square::H1.file_of());
    assert_eq!(File::E, Square::E3.file_of());
    assert_eq!(File::F, Square::F7.file_of());
    assert_eq!(File::A, Square::A8.file_of());
    assert_eq!(File::H, Square::H8.file_of());
}

#[test]
fn test_rank_of() {
    assert_eq!(Rank::One, Square::A1.rank_of());
    assert_eq!(Rank::One, Square::H1.rank_of());
    assert_eq!(Rank::Three, Square::A3.rank_of());
    assert_eq!(Rank::Three, Square::H3.rank_of());
    assert_eq!(Rank::Eight, Square::A8.rank_of());
    assert_eq!(Rank::Eight, Square::H8.rank_of());
    assert_eq!(Rank::One, Square::A1.rank_of());
}

#[test]
fn square_test_from_str() {
    let result = Square::from_str("a1");
    match result {
        Ok(n) => assert_eq!(Square::A1, n),
        Err(_) => panic!("Test failed"),
    }

    let result = Square::from_str("A1");
    match result {
        Ok(n) => assert_eq!(Square::A1, n),
        Err(_) => panic!("Test failed"),
    }

    let result = Square::from_str("f5");
    match result {
        Ok(n) => assert_eq!(Square::F5, n),
        Err(_) => panic!("Test failed"),
    }

    let result = Square::from_str("h9");
    match result {
        Ok(_) => panic!("Test failed"),
        Err(e) => assert_eq!(Error::InvalidSquare, e),
    }
}

#[test]
fn square_test_print() {
    assert_eq!("a1", Square::A1.to_string());
    assert_eq!("f4", Square::F4.to_string());
    assert_eq!("h8", Square::H8.to_string());
}

#[test]
fn square_table_is_in_index_order() {
    assert_eq!(64, SQUARES_LEN);
    assert_eq!(Square::A1, SQUARES[0]);
    assert_eq!(Square::B1, SQUARES[1]);
    assert_eq!(Square::H1, SQUARES[7]);
    assert_eq!(Square::A2, SQUARES[8]);
    assert_eq!(Square::E4, SQUARES[28]);
    assert_eq!(Square::H8, SQUARES[63]);
    for (i, s) in SQUARES.iter().enumerate() {
        assert_eq!(i, s.to_index());
    }
}

#[test]
fn square_index_bijection() {
    for i in 0..64usize {
        assert_eq!(i, Square::from_index(i).to_index());
    }
    for s in SQUARES {
        assert_eq!(s, Square::from_index(s.to_index()));
    }
}

#[test]
fn square_from_index_keeps_the_low_six_bits() {
    assert_eq!(Square::from_index(0), Square::from_index(64));
    assert_eq!(Square::E4, Square::from_index(28));
    assert_eq!(Square::E4, Square::from_index(28 + 64));
    assert_eq!(Square::B1, Square::from_index(65));
    assert_eq!(Square::H8, Square::from_index(127));
    assert_eq!(Square::H8, Square::from_index(usize::MAX));
    assert_eq!(Square::A1, Square::from_index(usize::MAX - 63));
    for i in 0..1024usize {
        assert_eq!(i & 63, Square::from_index(i).to_index());
        assert_eq!(i % 64, Square::from_index(i).to_index());
        assert_eq!(Square::from_index(i), Square::from_index(i + 64));
    }
}

#[test]
fn square_file_and_rank_follow_the_index() {
    for i in 0..1024usize {
        let s = Square::from_index(i);
        assert_eq!(File::from_index(i), s.file_of());
        assert_eq!(Rank::from_index(i), s.rank_of());
    }
    for s in SQUARES {
        assert_eq!(s.to_index() % 8, s.file_of().to_index());
        assert_eq!(s.to_index() / 8, s.rank_of().to_index());
    }
}

#[test]
fn square_decomposition_round_trip() {
    for f in FILES {
        for r in RANKS {
            let s = Square::from_file_rank(f, r);
            assert_eq!(f, s.file_of());
            assert_eq!(r, s.rank_of());
            assert_eq!(r.to_index() * 8 + f.to_index(), s.to_index());
        }
    }
    for s in SQUARES {
        assert_eq!(s, Square::from_file_rank(s.file_of(), s.rank_of()));
    }
    assert_eq!(Square::E4, Square::from_file_rank(File::E, Rank::Four));
    assert_eq!(28, Square::from_file_rank(File::E, Rank::Four).to_index());
}

#[test]
fn square_notation_round_trip() {
    for s in SQUARES {
        let text = s.to_string();
        assert_eq!(2, text.chars().count());
        assert_eq!(format!("{}{}", s.file_of().to_string(), s.rank_of().to_string()), text);
        assert_eq!(Ok(s), Square::from_str(&text));
        assert_eq!(Ok(s), Square::from_str(&text.to_uppercase()));
    }
    assert_eq!("e4", Square::E4.to_string());
    assert_eq!("e4", Square::from_index(28).to_string());
    assert_eq!(Ok(Square::E4), "e4".parse::<Square>());
}

#[test]
fn square_from_str_needs_two_characters() {
    assert_eq!(Err(Error::InvalidSquare), Square::from_str(""));
    assert_eq!(Err(Error::InvalidSquare), Square::from_str("e"));
    assert_eq!(Err(Error::InvalidSquare), Square::from_str("4"));
    assert_eq!(Err(Error::InvalidSquare), Square::from_str("\u{e9}"));
}

#[test]
fn square_from_str_turns_component_errors_into_its_own() {
    assert_eq!(Err(Error::InvalidSquare), Square::from_str("h9"));
    assert_eq!(Err(Error::InvalidSquare), Square::from_str("i1"));
    assert_eq!(Err(Error::InvalidSquare), Square::from_str("i9"));
    assert_eq!(Err(Error::InvalidSquare), Square::from_str("4e"));
    assert_eq!(Err(Error::InvalidSquare), Square::from_str("e0"));
    assert_eq!(Err(Error::InvalidSquare), Square::from_str(" e4"));
    assert_eq!(Err(Error::InvalidSquare), Square::from_str("e 4"));
    assert_eq!(Err(Error::InvalidSquare), Square::from_str("a\u{e9}"));
    assert_eq!(Err(Error::InvalidSquare), Square::from_str("\u{e9}4"));
}

#[test]
fn square_from_str_ignores_what_follows() {
    assert_eq!(Ok(Square::E4), Square::from_str("e4e5"));
    assert_eq!(Ok(Square::A1), Square::from_str("a1 "));
    assert_eq!(Ok(Square::H8), Square::from_str("H8\u{e9}"));
    assert_eq!(Ok(Square::C7), Square::from_str("c79"));
}
