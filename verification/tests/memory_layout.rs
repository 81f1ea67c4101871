use dfu_core::memory_layout::MemoryLayout;

#[test]
fn parsing() {
    let s = "04*032Kg,01*128Kg,07*256Kg";
    let m = MemoryLayout::try_from(s).unwrap();
    assert_eq!(
        m.as_slice(),
        &[
            32768, 32768, 32768, 32768, 131072, 262144, 262144, 262144, 262144, 262144, 262144,
            262144
        ]
    );
}

#[test]
fn parsing_stm32_defuse_extensions() {
    let s = "4*32Kg,1*128Kg";
    let m = MemoryLayout::try_from(s).unwrap();
    assert_eq!(m.as_slice(), &[32768, 32768, 32768, 32768, 131072]);
}

use dfu_core::memory_layout::Error;

fn pages(s: &str) -> Vec<u32> {
    MemoryLayout::try_from(s).unwrap().as_slice().to_vec()
}

#[test]
fn units() {
    assert_eq!(pages("1*7 g"), vec![7]);
    assert_eq!(pages("1*7Kg"), vec![7 * 1024]);
    assert_eq!(pages("1*7Mg"), vec![7 * 1024 * 1024]);
    assert_eq!(pages("2*4095Mg"), vec![4095 * 1024 * 1024; 2]);
    assert_eq!(pages("1*4294967295 g"), vec![u32::MAX]);
}

#[test]
fn order_of_entries_is_kept() {
    assert_eq!(pages("16*4 g,8*8 g").len(), 24);
    assert_eq!(pages("2*1 g,1*2 g,3*3 g"), vec![1, 1, 2, 3, 3, 3]);
    assert_eq!(pages("0*4 g,1*8 g"), vec![8]);
    assert_eq!(pages("0*4 g"), Vec::<u32>::new());
}

#[test]
fn kind_of_pages_is_not_looked_at() {
    assert_eq!(pages("01*016Ka,03*016Kg"), vec![16384; 4]);
    assert_eq!(pages("1*2 *"), vec![2]);
}

#[test]
fn numbers_may_carry_a_plus_sign() {
    assert_eq!(pages("+2*+3 g"), vec![3, 3]);
}

#[test]
fn entry_without_star() {
    assert!(matches!(MemoryLayout::try_from(""), Err(Error::InvalidPageFormat(s)) if s == ""));
    assert!(
        matches!(MemoryLayout::try_from("4x32Kg"), Err(Error::InvalidPageFormat(s)) if s == "4x32Kg")
    );
    assert!(
        matches!(MemoryLayout::try_from("4*32Kg,"), Err(Error::InvalidPageFormat(s)) if s == "")
    );
    assert!(
        matches!(MemoryLayout::try_from("4*32Kg,,1*1 g"), Err(Error::InvalidPageFormat(s)) if s == "")
    );
}

#[test]
fn size_without_unit_and_kind() {
    assert!(matches!(MemoryLayout::try_from("4*"), Err(Error::ParseErrorPageSize(s)) if s == ""));
    assert!(matches!(MemoryLayout::try_from("4*K"), Err(Error::ParseErrorPageSize(s)) if s == "K"));
    assert!(matches!(MemoryLayout::try_from("x*K"), Err(Error::ParseErrorPageSize(s)) if s == "K"));
}

#[test]
fn count_that_is_no_number() {
    assert!(
        matches!(MemoryLayout::try_from("x*32Kg"), Err(Error::ParseErrorPageCount(s)) if s == "x")
    );
    assert!(matches!(MemoryLayout::try_from("*32Kg"), Err(Error::ParseErrorPageCount(s)) if s == ""));
    assert!(
        matches!(MemoryLayout::try_from("-1*32Kg"), Err(Error::ParseErrorPageCount(s)) if s == "-1")
    );
    assert!(matches!(MemoryLayout::try_from("+*32Kg"), Err(Error::ParseErrorPageCount(s)) if s == "+"));
    assert!(
        matches!(MemoryLayout::try_from(" 4*32Kg"), Err(Error::ParseErrorPageCount(s)) if s == " 4")
    );
    assert!(
        matches!(MemoryLayout::try_from("4294967296*1 g"), Err(Error::ParseErrorPageCount(s)) if s == "4294967296")
    );
    // the count is read before the size and the unit
    assert!(
        matches!(MemoryLayout::try_from("x*yQg"), Err(Error::ParseErrorPageCount(s)) if s == "x")
    );
}

#[test]
fn size_that_is_no_number() {
    assert!(
        matches!(MemoryLayout::try_from("4*3x2Kg"), Err(Error::ParseErrorPageSize(s)) if s == "3x2")
    );
    assert!(matches!(MemoryLayout::try_from("4*Kg"), Err(Error::ParseErrorPageSize(s)) if s == ""));
    assert!(
        matches!(MemoryLayout::try_from("4*4294967296 g"), Err(Error::ParseErrorPageSize(s)) if s == "4294967296")
    );
    // the size is read before the unit
    assert!(matches!(MemoryLayout::try_from("4*yQg"), Err(Error::ParseErrorPageSize(s)) if s == "y"));
    // a second star belongs to the size
    assert!(
        matches!(MemoryLayout::try_from("4*3*2Kg"), Err(Error::ParseErrorPageSize(s)) if s == "3*2")
    );
}

#[test]
fn size_in_bytes_beyond_32_bits() {
    assert!(
        matches!(MemoryLayout::try_from("1*4096Mg"), Err(Error::ParseErrorPageSize(s)) if s == "4096")
    );
    assert!(
        matches!(MemoryLayout::try_from("1*4194304Kg"), Err(Error::ParseErrorPageSize(s)) if s == "4194304")
    );
    assert_eq!(pages("1*4194303Kg"), vec![4194303 * 1024]);
}

#[test]
fn unknown_unit() {
    assert!(matches!(MemoryLayout::try_from("4*32Gg"), Err(Error::InvalidPrefix(s)) if s == "G"));
    assert!(matches!(MemoryLayout::try_from("4*32kg"), Err(Error::InvalidPrefix(s)) if s == "k"));
    assert!(matches!(MemoryLayout::try_from("4*32g"), Err(Error::InvalidPrefix(s)) if s == "2"));
    assert!(
        matches!(MemoryLayout::try_from("4*32\u{e9}g"), Err(Error::InvalidPrefix(s)) if s == "\u{e9}")
    );
}

#[test]
fn first_refused_entry_is_reported() {
    assert!(
        matches!(MemoryLayout::try_from("1*1 g,x*1 g,1*1Qg"), Err(Error::ParseErrorPageCount(s)) if s == "x")
    );
    assert!(
        matches!(MemoryLayout::try_from("1*1 g,1*1Qg,x*1 g"), Err(Error::InvalidPrefix(s)) if s == "Q")
    );
}

#[test]
fn layout_from_pages_and_empty_layout() {
    assert!(MemoryLayout::new().as_slice().is_empty());
    assert!(MemoryLayout::default().as_slice().is_empty());
    let layout = MemoryLayout::from(vec![4, 8, 16]);
    assert_eq!(layout.as_slice(), &[4, 8, 16]);
    assert_eq!(layout.len(), 3);
    assert_eq!(layout.iter().sum::<u32>(), 28);
    let pages: &[u32] = layout.as_ref();
    assert_eq!(pages, &[4, 8, 16]);
}

#[test]
fn layout_written_out_page_by_page_reads_back() {
    for text in ["04*032Kg,01*128Kg,07*256Kg", "4*32Kg,1*128Kg", "16*4 g,8*8 g"] {
        let first = pages(text);
        let written: Vec<String> = first.iter().map(|page| format!("1*{} g", page)).collect();
        assert_eq!(pages(&written.join(",")), first);
    }
}
