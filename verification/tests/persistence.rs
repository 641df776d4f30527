use plise::codec::{decode, encode, price_from_bytes};
use plise::plise::PliseName;
use plise::price::Price;

fn sample_book() -> Price {
    let mut book = Price::default();
    book.plise_name = PliseName::Ince;
    book.color_price.beyaz = 12345;
    book.color_price.ahsap = 0;
    book.tul_price = 99_999_999;
    book.ince_kar = 33;
    book.kdv = 0;
    book
}

#[test]
fn encode_shape() {
    let bytes = encode(&Price::default());
    assert_eq!(bytes.len(), 378);
    // The default book selects Klasik, stored as tag zero.
    assert_eq!(&bytes[0..21], b"00000000000000000000\n");
    // White aluminum at 120.00, stored as 12000 cents.
    assert_eq!(&bytes[21..42], b"00000000000000012000\n");
    for i in 0..18 {
        assert_eq!(bytes[21 * i + 20], b'\n');
    }
}

#[test]
fn round_trip_default_book() {
    let book = Price::default();
    assert_eq!(decode(&encode(&book)), Some(book));
}

#[test]
fn round_trip_changed_book() {
    let book = sample_book();
    assert_eq!(decode(&encode(&book)), Some(book));
}

#[test]
fn decode_rejects_wrong_length() {
    assert_eq!(decode(&Vec::new()), None);
    let bytes = encode(&Price::default());
    let mut short = bytes.clone();
    short.pop();
    assert_eq!(decode(&short), None);
    let mut long = bytes.clone();
    long.push(b'\n');
    assert_eq!(decode(&long), None);
}

#[test]
fn decode_rejects_a_stray_byte() {
    let mut bytes = encode(&Price::default());
    bytes[25] = b'x';
    assert_eq!(decode(&bytes), None);
    let mut bytes = encode(&Price::default());
    bytes[20] = b' ';
    assert_eq!(decode(&bytes), None);
}

#[test]
fn decode_rejects_an_unknown_family_tag() {
    let mut bytes = encode(&Price::default());
    bytes[19] = b'3';
    assert_eq!(decode(&bytes), None);
}

#[test]
fn decode_rejects_an_oversized_value() {
    let mut bytes = encode(&Price::default());
    for b in bytes.iter_mut().take(20 + 21).skip(21) {
        if *b != b'\n' {
            *b = b'9';
        }
    }
    assert_eq!(decode(&bytes), None);
}

#[test]
fn loading_nothing_gives_defaults_and_asks_for_a_rewrite() {
    assert_eq!(price_from_bytes(None), (Price::default(), true));
}

#[test]
fn loading_a_stored_book_gives_it_back() {
    let book = sample_book();
    let bytes = encode(&book);
    assert_eq!(price_from_bytes(Some(&bytes)), (book, false));
}

#[test]
fn loading_garbage_gives_defaults_and_asks_for_a_rewrite() {
    let garbage: Vec<u8> = b"not a price book".to_vec();
    assert_eq!(price_from_bytes(Some(&garbage)), (Price::default(), true));
}

#[test]
fn loading_a_book_over_the_caps_gives_defaults() {
    let mut book = Price::default();
    book.serit_price = 100_000_001;
    let bytes = encode(&book);
    assert_eq!(price_from_bytes(Some(&bytes)), (Price::default(), true));
}
