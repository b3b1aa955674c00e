use prestoedit::highlight::{get_color, parse_color, Color};
use prestoedit::strmap::StrMap;

#[test]
fn link_is_written_with_a_percent_sign() {
    assert_eq!(parse_color("%fg".to_string()), Some(Color::Link("fg".to_string())));
    assert_eq!(parse_color("%".to_string()), Some(Color::Link("".to_string())));
}

#[test]
fn hex_color_has_six_digits() {
    assert_eq!(parse_color("#ff8000".to_string()), Some(Color::Hex { r: 255, g: 128, b: 0 }));
    assert_eq!(parse_color("#FF8000".to_string()), Some(Color::Hex { r: 255, g: 128, b: 0 }));
    assert_eq!(parse_color("#000001".to_string()), Some(Color::Hex { r: 0, g: 0, b: 1 }));
    assert_eq!(parse_color("#abcdef".to_string()), Some(Color::Hex { r: 0xab, g: 0xcd, b: 0xef }));
}

#[test]
fn hex_color_of_another_length_is_invalid() {
    assert_eq!(parse_color("#fff".to_string()), Some(Color::Invalid));
    assert_eq!(parse_color("#ff80001".to_string()), Some(Color::Invalid));
    assert_eq!(parse_color("#".to_string()), Some(Color::Invalid));
}

#[test]
fn anything_else_is_invalid() {
    assert_eq!(parse_color("red".to_string()), Some(Color::Invalid));
    assert_eq!(parse_color("".to_string()), Some(Color::Invalid));
    assert_eq!(parse_color("#gggggg".to_string()), Some(Color::Invalid));
    assert_eq!(parse_color("#ééé".to_string()), Some(Color::Invalid));
    assert_eq!(parse_color("#+-1234".to_string()), Some(Color::Invalid));
}

#[test]
fn signed_hex_numbers_keep_their_low_bits() {
    let plus = i64::from_str_radix("+12345", 16).unwrap();
    assert_eq!(
        parse_color("#+12345".to_string()),
        Some(Color::Hex {
            r: ((plus & 0xFF0000) >> 16) as u8,
            g: ((plus & 0x00FF00) >> 8) as u8,
            b: (plus & 0x0000FF) as u8,
        })
    );
    let minus = i64::from_str_radix("-12345", 16).unwrap();
    assert_eq!(
        parse_color("#-12345".to_string()),
        Some(Color::Hex {
            r: ((minus & 0xFF0000) >> 16) as u8,
            g: ((minus & 0x00FF00) >> 8) as u8,
            b: (minus & 0x0000FF) as u8,
        })
    );
    assert_eq!(parse_color("#-00000".to_string()), Some(Color::Hex { r: 0, g: 0, b: 0 }));
}

fn table() -> StrMap<Color> {
    let mut map = StrMap::new();
    map.insert("fg".to_string(), Color::Hex { r: 1, g: 2, b: 3 });
    map.insert("text".to_string(), Color::Link("fg".to_string()));
    map.insert("title".to_string(), Color::Link("text".to_string()));
    map.insert("loop".to_string(), Color::Link("pool".to_string()));
    map.insert("pool".to_string(), Color::Link("loop".to_string()));
    map.insert("self".to_string(), Color::Link("self".to_string()));
    map.insert("lost".to_string(), Color::Link("nowhere".to_string()));
    map
}

#[test]
fn plain_colors_resolve_to_themselves() {
    let map = table();
    assert_eq!(get_color(&map, Color::Base16(4)), Some(Color::Base16(4)));
    assert_eq!(get_color(&map, Color::Invalid), Some(Color::Invalid));
    assert_eq!(
        get_color(&StrMap::new(), Color::Hex { r: 9, g: 9, b: 9 }),
        Some(Color::Hex { r: 9, g: 9, b: 9 })
    );
}

#[test]
fn links_are_followed_transitively() {
    let map = table();
    assert_eq!(get_color(&map, Color::Link("fg".to_string())), Some(Color::Hex { r: 1, g: 2, b: 3 }));
    assert_eq!(
        get_color(&map, Color::Link("title".to_string())),
        Some(Color::Hex { r: 1, g: 2, b: 3 })
    );
}

#[test]
fn links_to_nowhere_and_circles_resolve_to_nothing() {
    let map = table();
    assert_eq!(get_color(&map, Color::Link("nowhere".to_string())), None);
    assert_eq!(get_color(&map, Color::Link("lost".to_string())), None);
    assert_eq!(get_color(&map, Color::Link("loop".to_string())), None);
    assert_eq!(get_color(&map, Color::Link("self".to_string())), None);
    assert_eq!(get_color(&StrMap::new(), Color::Link("fg".to_string())), None);
}

#[test]
fn a_chain_through_every_entry_still_resolves() {
    let mut map = StrMap::new();
    map.insert("a".to_string(), Color::Link("b".to_string()));
    map.insert("b".to_string(), Color::Link("c".to_string()));
    map.insert("c".to_string(), Color::Base16(7));
    assert_eq!(get_color(&map, Color::Link("a".to_string())), Some(Color::Base16(7)));
}

#[test]
fn colors_compare_by_their_names() {
    assert!(Color::Link("fg".to_string()).same(&Color::link("fg")));
    assert!(!Color::Link("fg".to_string()).same(&Color::link("bg")));
    assert!(Color::Hex { r: 1, g: 2, b: 3 }.same(&Color::Hex { r: 1, g: 2, b: 3 }));
    assert!(!Color::Hex { r: 1, g: 2, b: 3 }.same(&Color::Base16(1)));
    assert_eq!(Color::link("fg").clone(), Color::Link("fg".to_string()));
}
