use cb::symbol::{resolve, Char, CharVal};

const ALL: [(CharVal, u32); 25] = [
    (CharVal::EnDash, 0x2013),
    (CharVal::EmDash, 0x2014),
    (CharVal::Minus, 0x2212),
    (CharVal::Times, 0x00D7),
    (CharVal::Div, 0x00F7),
    (CharVal::Sim, 0x223C),
    (CharVal::Approx, 0x2248),
    (CharVal::Gte, 0x2265),
    (CharVal::Lte, 0x2264),
    (CharVal::In, 0x2208),
    (CharVal::Ni, 0x220B),
    (CharVal::Union, 0x222A),
    (CharVal::Intersection, 0x2229),
    (CharVal::Subset, 0x2282),
    (CharVal::SubsetEq, 0x2286),
    (CharVal::Supset, 0x2283),
    (CharVal::SupsetEq, 0x2287),
    (CharVal::RightArrow, 0x27F6),
    (CharVal::MapsTo, 0x27FC),
    (CharVal::LeftArrow, 0x27F5),
    (CharVal::MapsFrom, 0x27FB),
    (CharVal::Prime, 0x2032),
    (CharVal::PlusMinus, 0x00B1),
    (CharVal::Degree, 0x00B0),
    (CharVal::TradeMark, 0x2122),
];

#[test]
fn minus_resolves_to_minus_sign() {
    assert_eq!(resolve(CharVal::Minus), "\u{2212}");
    assert_eq!(resolve(CharVal::Minus), "−");
}

#[test]
fn union_resolves_to_cup() {
    assert_eq!(resolve(CharVal::Union), "∪");
}

#[test]
fn every_symbol_resolves_to_its_codepoint() {
    for (v, cp) in ALL {
        let s = resolve(v);
        let chars: Vec<char> = s.chars().collect();
        assert_eq!(chars.len(), 1);
        assert_eq!(chars[0] as u32, cp);
        assert_eq!(v.codepoint(), cp);
    }
}

#[test]
fn char_as_str_is_one_character() {
    assert_eq!(Char::from(CharVal::Degree).as_str(), "°");
    assert_eq!(Char::from(CharVal::TradeMark).as_str(), "™");
    assert_eq!(Char::from(CharVal::EnDash).as_str(), "–");
}

#[test]
fn printed_line_is_character_and_newline() {
    assert_eq!(Char::from(CharVal::Approx).line(), "≈\n");
    for (v, cp) in ALL {
        let expected = format!("{}\n", char::from_u32(cp).unwrap());
        assert_eq!(Char::from(v).line(), expected);
    }
}
