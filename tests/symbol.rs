use codeview::symbol::{self, BuildInfo};
use codeview::{LeafId, SectionSink, Symbol};

fn test_symbol(symbol: Symbol, data: &[u8]) {
    let mut sink = SectionSink::<()>::new();
    symbol::write(&symbol, &mut sink).unwrap();
    assert_eq!(sink.data, data);
}

#[test]
fn symbols() {
    test_symbol(
        Symbol::BuildInfo(BuildInfo {
            leaf: LeafId(0x4455_6677),
        }),
        &[6, 0, 0x4C, 0x11, 0x77, 0x66, 0x55, 0x44],
    );
}

#[test]
fn symbol_size_is_eight() {
    let s = Symbol::BuildInfo(BuildInfo { leaf: LeafId(1) });
    assert_eq!(symbol::size(&s), 8);
}
