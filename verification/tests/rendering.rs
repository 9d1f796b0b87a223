use chunk_tag::chunk_type::chunk::ChunkType;
use std::convert::TryFrom;
use std::str::FromStr;

#[test]
fn rendering_is_the_four_characters() {
    let chunk = ChunkType::try_from([82, 117, 83, 116]).unwrap();
    let text = chunk.to_string();
    assert_eq!(text, "RuSt");
    assert_eq!(text.len(), 4);
    assert_eq!(text.as_bytes(), &[82, 117, 83, 116]);
}

#[test]
fn rendering_keeps_the_order_of_the_bytes() {
    let chunk = ChunkType::try_from([97, 98, 99, 100]).unwrap();
    assert_eq!(chunk.to_string(), "abcd");
}

#[test]
fn rendering_shows_non_letters_as_their_ascii_characters() {
    let chunk = ChunkType::try_from([82, 117, 49, 116]).unwrap();
    assert_eq!(chunk.to_string(), "Ru1t");
    let chunk = ChunkType::try_from([0, 32, 64, 127]).unwrap();
    assert_eq!(chunk.to_string(), "\0 @\u{7f}");
}

#[test]
fn parse_then_render_gives_the_text_back() {
    for text in ["RuSt", "rust", "RUST", "IHDR", "IDAT", "IEND", "tEXt", "bLOb", "AZaz"] {
        assert_eq!(ChunkType::from_str(text).unwrap().to_string(), text);
    }
}

#[test]
fn parse_then_render_on_every_letter() {
    for b in (b'A'..=b'Z').chain(b'a'..=b'z') {
        let text = String::from_utf8(vec![b, b, b, b]).unwrap();
        assert_eq!(ChunkType::from_str(&text).unwrap().to_string(), text);
    }
}

#[test]
fn render_then_parse_gives_the_chunk_type_back() {
    let chunk = ChunkType::try_from([73, 72, 68, 82]).unwrap();
    assert_eq!(ChunkType::from_str(&chunk.to_string()), Ok(chunk));
}

#[test]
fn bytes_are_what_was_given() {
    let chunk = ChunkType::from_str("tEXt").unwrap();
    assert_eq!(chunk.bytes(), [116, 69, 88, 116]);
}
