use alarm_panel::buffer::CodeBuffer;
use alarm_panel::buffer::CodeValidity;
use alarm_panel::symbol::Symbol;

fn filled(symbols: &[Symbol]) -> CodeBuffer {
    let mut b = CodeBuffer::new();
    for s in symbols {
        b.append(*s);
    }
    b
}

#[test]
fn new_buffer_is_empty() {
    let b = CodeBuffer::new();
    assert_eq!(b.len(), 0);
    assert_eq!(b.as_text(), "");
}

#[test]
fn append_accumulates_in_order() {
    let b = filled(&[Symbol::Digit1, Symbol::Digit2, Symbol::KeyA, Symbol::Digit0]);
    assert_eq!(b.len(), 4);
    assert_eq!(b.as_text(), "12A0");
}

#[test]
fn append_past_capacity_is_dropped() {
    let mut b = CodeBuffer::new();
    for _ in 0..12 {
        b.append(Symbol::Digit7);
    }
    assert_eq!(b.len(), 8);
    assert_eq!(b.as_text(), "77777777");
}

#[test]
fn reset_empties_any_buffer() {
    let mut b = filled(&[Symbol::Digit1, Symbol::Digit2, Symbol::Digit3]);
    b.reset();
    assert_eq!(b.len(), 0);
    assert_eq!(b.as_text(), "");

    let mut full = CodeBuffer::new();
    for _ in 0..8 {
        full.append(Symbol::KeyD);
    }
    full.reset();
    assert_eq!(full.len(), 0);
    assert_eq!(full.as_text(), "");
}

#[test]
fn validity_classifies_lengths() {
    let mut b = CodeBuffer::new();
    assert_eq!(b.validity(), CodeValidity::TooShort);
    for _ in 0..3 {
        b.append(Symbol::Digit5);
    }
    assert_eq!(b.validity(), CodeValidity::TooShort);
    b.append(Symbol::Digit5);
    assert_eq!(b.validity(), CodeValidity::Proper);
    for _ in 0..4 {
        b.append(Symbol::Digit5);
    }
    assert_eq!(b.len(), 8);
    assert_eq!(b.validity(), CodeValidity::Proper);
}

#[test]
fn equals_compares_length_then_elements() {
    let a = filled(&[Symbol::Digit1, Symbol::Digit2, Symbol::Digit3, Symbol::Digit4]);
    let same = filled(&[Symbol::Digit1, Symbol::Digit2, Symbol::Digit3, Symbol::Digit4]);
    let shorter = filled(&[Symbol::Digit1, Symbol::Digit2, Symbol::Digit3]);
    let other = filled(&[Symbol::Digit1, Symbol::Digit2, Symbol::Digit9, Symbol::Digit4]);
    assert!(a.equals(&same));
    assert!(same.equals(&a));
    assert!(!a.equals(&shorter));
    assert!(!shorter.equals(&a));
    assert!(!a.equals(&other));
}

#[test]
fn copy_from_replaces_content() {
    let src = filled(&[Symbol::Digit8, Symbol::Digit6, Symbol::KeyB]);
    let mut dst = filled(&[Symbol::Digit1, Symbol::Digit1, Symbol::Digit1, Symbol::Digit1]);
    dst.copy_from(&src);
    assert!(dst.equals(&src));
    assert_eq!(dst.as_text(), "86B");
}

#[test]
fn glyphs_cover_every_symbol() {
    let all = [
        (Symbol::Digit0, "0"),
        (Symbol::Digit1, "1"),
        (Symbol::Digit2, "2"),
        (Symbol::Digit3, "3"),
        (Symbol::Digit4, "4"),
        (Symbol::Digit5, "5"),
        (Symbol::Digit6, "6"),
        (Symbol::Digit7, "7"),
        (Symbol::Digit8, "8"),
        (Symbol::Digit9, "9"),
        (Symbol::KeyA, "A"),
        (Symbol::KeyB, "B"),
        (Symbol::KeyC, "C"),
        (Symbol::KeyD, "D"),
        (Symbol::Star, "*"),
        (Symbol::Hash, "#"),
        (Symbol::NoKey, " "),
    ];
    for (sym, text) in all {
        assert_eq!(sym.glyph(), text);
    }
}

#[test]
fn code_symbols_are_digits_and_letters() {
    assert!(Symbol::Digit0.is_code_symbol());
    assert!(Symbol::Digit9.is_code_symbol());
    assert!(Symbol::KeyA.is_code_symbol());
    assert!(Symbol::KeyD.is_code_symbol());
    assert!(!Symbol::Star.is_code_symbol());
    assert!(!Symbol::Hash.is_code_symbol());
    assert!(!Symbol::NoKey.is_code_symbol());
}
