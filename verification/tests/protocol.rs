use dfu_core::memory_layout;
use dfu_core::{DfuProtocol, Error};

#[test]
fn plain_dfu_needs_no_interface_string() {
    assert!(matches!(
        DfuProtocol::new("", (0x01, 0x10)),
        Ok(DfuProtocol::Dfu)
    ));
    assert!(matches!(
        DfuProtocol::new("whatever", (0x01, 0x10)),
        Ok(DfuProtocol::Dfu)
    ));
}

#[test]
fn dfuse_interface_string() {
    let protocol =
        DfuProtocol::new("@Internal Flash  /0x08000000/04*016Kg,01*064Kg,07*128Kg", (0x01, 0x1a))
            .unwrap();
    match protocol {
        DfuProtocol::Dfuse {
            address,
            memory_layout,
        } => {
            assert_eq!(address, 0x0800_0000);
            let mut expected = vec![16 * 1024; 4];
            expected.push(64 * 1024);
            expected.extend_from_slice(&[128 * 1024; 7]);
            assert_eq!(memory_layout.as_slice(), expected.as_slice());
        }
        DfuProtocol::Dfu => panic!("a DfuSe device was taken for plain DFU"),
    }
}

#[test]
fn dfuse_address_forms() {
    let address = |text: &str| match DfuProtocol::new(text, (0x01, 0x1a)) {
        Ok(DfuProtocol::Dfuse { address, .. }) => address,
        _ => panic!("refused: {}", text),
    };
    assert_eq!(address("@x/0x0/1*1 g"), 0);
    assert_eq!(address("@x/0xffffffff/1*1 g"), 0xffff_ffff);
    assert_eq!(address("@x/0xDeadBeef/1*1 g"), 0xdead_beef);
    assert_eq!(address("@x/0x+1f/1*1 g"), 0x1f);
    assert_eq!(address("/0x10/1*1 g"), 0x10);
    assert_eq!(address("@a/b/c/0x000000000010/1*1 g"), 0x10);
}

#[test]
fn unknown_versions() {
    for version in [(0x01, 0x00), (0x01, 0x1b), (0x00, 0x10), (0x02, 0x1a), (0x1a, 0x01)] {
        assert!(matches!(
            DfuProtocol::new("@x/0x0/1*1 g", version),
            Err(Error::UnknownProtocol)
        ));
    }
}

#[test]
fn interface_string_without_its_parts() {
    assert!(matches!(
        DfuProtocol::new("", (0x01, 0x1a)),
        Err(Error::InvalidInterfaceString)
    ));
    assert!(matches!(
        DfuProtocol::new("no slash at all", (0x01, 0x1a)),
        Err(Error::InvalidInterfaceString)
    ));
    assert!(matches!(
        DfuProtocol::new("0x08000000/1*1 g", (0x01, 0x1a)),
        Err(Error::InvalidInterfaceString)
    ));
}

#[test]
fn layout_is_read_before_the_address() {
    assert!(matches!(
        DfuProtocol::new("only/garbage", (0x01, 0x1a)),
        Err(Error::MemoryLayout(memory_layout::Error::InvalidPageFormat(s))) if s == "garbage"
    ));
    assert!(matches!(
        DfuProtocol::new("@x/nonsense/1*1Qg", (0x01, 0x1a)),
        Err(Error::MemoryLayout(memory_layout::Error::InvalidPrefix(s))) if s == "Q"
    ));
    assert!(matches!(
        DfuProtocol::new("@x/0x0/", (0x01, 0x1a)),
        Err(Error::MemoryLayout(memory_layout::Error::InvalidPageFormat(s))) if s == ""
    ));
}

#[test]
fn addresses_that_are_refused() {
    for text in [
        "@x/08000000/1*1 g",
        "@x/0X08000000/1*1 g",
        "@x/0x/1*1 g",
        "@x/0x1g/1*1 g",
        "@x/0x100000000/1*1 g",
        "@x/ 0x10/1*1 g",
        "@x/0x-1/1*1 g",
        "@x//1*1 g",
        "@x/0/1*1 g",
    ] {
        assert!(
            matches!(
                DfuProtocol::new(text, (0x01, 0x1a)),
                Err(Error::InvalidAddress)
            ),
            "accepted: {}",
            text
        );
    }
}
