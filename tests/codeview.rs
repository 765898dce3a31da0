use std::cell::RefCell;
use std::rc::Rc;

use codeview::leaf::{BuildInfo, StringId, SubstrList};
use codeview::symbol;
use codeview::{
    Block, Codeview, Error, FileId, Leaf, LeafId, Line, Lines, SectionSink, SectionWrite,
    Subsection, Symbol,
};

fn string_leaf(content: &str) -> Leaf {
    Leaf::StringId(StringId { substr: LeafId::null(), content: content.to_string() })
}

fn build_info_symbol(id: u32) -> Symbol {
    Symbol::BuildInfo(symbol::BuildInfo { leaf: LeafId(id) })
}

fn run(cv: &Codeview<()>) -> (Result<(), Error<std::convert::Infallible>>, Vec<String>) {
    let names = Rc::new(RefCell::new(Vec::new()));
    let r = cv.write(|name: &str| {
        names.borrow_mut().push(name.to_string());
        SectionSink::<()>::new()
    });
    let asked = names.borrow().clone();
    (r, asked)
}

#[test]
fn leaf_ids_start_at_base_and_count_up() {
    let mut cv = Codeview::<()>::new();
    let a = cv.add_leaf(string_leaf("a"));
    let b = cv.add_leaf(Leaf::SubstrList(SubstrList { strings: vec![a] }));
    let c = cv.add_leaf(Leaf::BuildInfo(BuildInfo::new(a, a, a, a, b)));
    assert_eq!((a.0, b.0, c.0), (0x1000, 0x1001, 0x1002));
}

#[test]
fn type_stream_is_signature_then_leaves() {
    let mut cv = Codeview::<()>::new();
    cv.add_leaf(string_leaf("hi"));
    cv.add_leaf(Leaf::SubstrList(SubstrList { strings: vec![LeafId(0x1000)] }));
    let mut sink = SectionSink::<()>::new();
    cv.write_type_stream(&mut sink).unwrap();
    assert_eq!(
        sink.data,
        vec![
            4, 0, 0, 0, //
            9, 0, 0x05, 0x16, 0, 0, 0, 0, b'h', b'i', 0, //
            10, 0, 0x04, 0x16, 1, 0, 0, 0, 0x00, 0x10, 0, 0,
        ]
    );
}

#[test]
fn empty_streams_hold_only_the_signature() {
    let cv = Codeview::<()>::new();
    let mut types = SectionSink::<()>::new();
    cv.write_type_stream(&mut types).unwrap();
    let mut symbols = SectionSink::<()>::new();
    cv.write_symbol_stream(&mut symbols).unwrap();
    assert_eq!(types.data, vec![4, 0, 0, 0]);
    assert_eq!(symbols.data, vec![4, 0, 0, 0]);
}

#[test]
fn symbols_subsection_is_framed_and_padded() {
    let mut cv = Codeview::<()>::new();
    cv.add_subsection(Subsection::Symbols(vec![build_info_symbol(0x1007)]));
    cv.add_subsection(Subsection::Symbols(vec![]));
    let mut sink = SectionSink::<()>::new();
    cv.write_symbol_stream(&mut sink).unwrap();
    assert_eq!(
        sink.data,
        vec![
            4, 0, 0, 0, //
            0xF1, 0, 0, 0, 8, 0, 0, 0, 6, 0, 0x4C, 0x11, 0x07, 0x10, 0, 0, //
            0xF1, 0, 0, 0, 0, 0, 0, 0,
        ]
    );
    assert_eq!(sink.data.len() % 4, 0);
}

#[test]
fn write_drives_both_streams_through_the_factory() {
    let mut cv = Codeview::<()>::new();
    let id = cv.add_leaf(string_leaf("x"));
    cv.add_subsection(Subsection::Symbols(vec![build_info_symbol(id.0)]));
    let (r, asked) = run(&cv);
    assert!(r.is_ok());
    assert_eq!(asked, vec![".debug$T".to_string(), ".debug$S".to_string()]);
    let mut types = SectionSink::<()>::new();
    cv.write_type_stream(&mut types).unwrap();
    assert_eq!(types.data, vec![4, 0, 0, 0, 8, 0, 0x05, 0x16, 0, 0, 0, 0, b'x', 0]);
    let mut symbols = SectionSink::<()>::new();
    cv.write_symbol_stream(&mut symbols).unwrap();
    assert_eq!(
        symbols.data,
        vec![4, 0, 0, 0, 0xF1, 0, 0, 0, 8, 0, 0, 0, 6, 0, 0x4C, 0x11, 0, 0x10, 0, 0]
    );
}

#[test]
fn lines_subsection_aborts_symbol_stream() {
    let mut cv = Codeview::<()>::new();
    cv.add_subsection(Subsection::Symbols(vec![build_info_symbol(1)]));
    cv.add_subsection(Subsection::Lines(Lines {
        address: (),
        blocks: vec![Block {
            file: FileId(0),
            lines: vec![Line { offset: 0, line_start: 1, line_delta: None, is_statement: true }],
        }],
    }));
    let mut sink = SectionSink::<()>::new();
    assert!(matches!(cv.write_symbol_stream(&mut sink), Err(Error::UnsupportedSubsection)));
    assert!(sink.data.is_empty());

    let (r, _asked) = run(&cv);
    assert!(matches!(r, Err(Error::UnsupportedSubsection)));
}

#[test]
fn bad_leaf_stops_the_type_stream() {
    let mut cv = Codeview::<()>::new();
    cv.add_leaf(string_leaf("ok"));
    cv.add_leaf(string_leaf("bad\0"));
    let mut sink = SectionSink::<()>::new();
    match cv.write_type_stream(&mut sink) {
        Err(Error::StringError(s)) => assert_eq!(s, "bad\0"),
        other => panic!("unexpected result {:?}", other),
    }
    assert_eq!(sink.data, vec![4, 0, 0, 0, 9, 0, 0x05, 0x16, 0, 0, 0, 0, b'o', b'k', 0]);
}

#[test]
fn bad_leaf_fails_the_whole_write() {
    let mut cv = Codeview::<()>::new();
    cv.add_leaf(string_leaf("a\0"));
    cv.add_subsection(Subsection::Symbols(vec![build_info_symbol(1)]));
    let (r, asked) = run(&cv);
    assert!(matches!(r, Err(Error::StringError(_))));
    assert_eq!(asked, vec![".debug$T".to_string()]);
}

#[test]
fn sink_placeholders_write_zeros_and_record_offsets() {
    let mut sink = SectionSink::<u32>::new();
    sink.write(&[1, 2, 3]).unwrap();
    sink.write_rva(&10).unwrap();
    sink.write_section(&20).unwrap();
    sink.write_secrel(&30).unwrap();
    assert_eq!(sink.data, vec![1, 2, 3, 0, 0, 0, 0, 0, 0, 0, 0, 0, 0]);
    assert_eq!(sink.reloc_rva, vec![(3, 10)]);
    assert_eq!(sink.reloc_section, vec![(7, 20)]);
    assert_eq!(sink.reloc_secrel, vec![(9, 30)]);
}

#[test]
fn streams_register_no_relocations() {
    let mut cv = Codeview::<()>::new();
    let id = cv.add_leaf(string_leaf("x"));
    cv.add_subsection(Subsection::Symbols(vec![build_info_symbol(id.0)]));
    let mut types = SectionSink::<()>::new();
    cv.write_type_stream(&mut types).unwrap();
    let mut symbols = SectionSink::<()>::new();
    cv.write_symbol_stream(&mut symbols).unwrap();
    for sink in [&types, &symbols] {
        assert!(sink.reloc_rva.is_empty());
        assert!(sink.reloc_section.is_empty());
        assert!(sink.reloc_secrel.is_empty());
    }
}
