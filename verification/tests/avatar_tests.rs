use scathanna_core::avatar::{avatar_slot, parse_avatar_id, AvatarError, AVATAR_COUNT};

#[test]
fn names_give_their_place_in_the_list() {
    let names = ["frog", "panda", "turkey", "pig", "hamster", "chicken", "bunny"];
    for (i, name) in names.iter().enumerate() {
        assert_eq!(parse_avatar_id(name), Ok(i as u8));
    }
}

#[test]
fn numbers_are_taken_as_they_are() {
    assert_eq!(parse_avatar_id("0"), Ok(0));
    assert_eq!(parse_avatar_id("3"), Ok(3));
    assert_eq!(parse_avatar_id("7"), Ok(7));
    assert_eq!(parse_avatar_id("200"), Ok(200));
    assert_eq!(parse_avatar_id("255"), Ok(255));
}

#[test]
fn a_plus_sign_and_leading_zeros_are_accepted() {
    assert_eq!(parse_avatar_id("+5"), Ok(5));
    assert_eq!(parse_avatar_id("007"), Ok(7));
    assert_eq!(parse_avatar_id("+000255"), Ok(255));
    assert_eq!(parse_avatar_id("0000000000000000000000000000000000000001"), Ok(1));
}

#[test]
fn numbers_that_do_not_fit_in_a_byte_are_refused() {
    assert_eq!(parse_avatar_id("256"), Err(AvatarError::UnknownAvatar));
    assert_eq!(parse_avatar_id("1000"), Err(AvatarError::UnknownAvatar));
    assert_eq!(parse_avatar_id("99999999999999999999999999"), Err(AvatarError::UnknownAvatar));
    assert_eq!(parse_avatar_id("-1"), Err(AvatarError::UnknownAvatar));
    assert_eq!(parse_avatar_id("-0"), Err(AvatarError::UnknownAvatar));
}

#[test]
fn other_texts_are_refused() {
    for text in ["", "+", "++1", "1+", " 1", "1 ", "1.0", "0x10", "Frog", "frog ", "frogs", "fro", "pigpig", "\u{663}", "fr\u{f6}g", "\u{1F438}"] {
        assert_eq!(parse_avatar_id(text), Err(AvatarError::UnknownAvatar), "{:?}", text);
    }
}

#[test]
fn numbers_are_read_as_the_standard_library_reads_them() {
    let alphabet = ['0', '1', '2', '5', '6', '9', '+', '-', ' ', 'a', '\u{e9}'];
    let mut texts: Vec<String> = vec![String::new()];
    let mut last: Vec<String> = vec![String::new()];
    for _ in 0..4 {
        let mut next = Vec::new();
        for t in &last {
            for c in alphabet {
                let mut longer = t.clone();
                longer.push(c);
                next.push(longer);
            }
        }
        texts.extend(next.iter().cloned());
        last = next;
    }
    for n in 0..=300u32 {
        texts.push(format!("{}", n));
        texts.push(format!("+{}", n));
        texts.push(format!("00{}", n));
    }
    for t in &texts {
        let expected: Result<u8, AvatarError> = match t.parse::<u8>() {
            Ok(v) => Ok(v),
            Err(_) => Err(AvatarError::UnknownAvatar),
        };
        assert_eq!(parse_avatar_id(t), expected, "{:?}", t);
    }
}

#[test]
fn the_error_lists_the_names() {
    assert_eq!(
        AvatarError::UnknownAvatar.message(),
        "avatar options: frog,panda,turkey,pig,hamster,chicken,bunny"
    );
}

#[test]
fn a_number_without_an_avatar_shows_the_first() {
    assert_eq!(AVATAR_COUNT, 7);
    for id in 0..7u8 {
        assert_eq!(avatar_slot(id), id as usize);
    }
    assert_eq!(avatar_slot(7), 0);
    assert_eq!(avatar_slot(200), 0);
    assert_eq!(avatar_slot(255), 0);
}
