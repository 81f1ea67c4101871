use dfu_core::detach::Detach;
use dfu_core::download::{DownloadLoop, Step};
use dfu_core::functional_descriptor::FunctionalDescriptor;
use dfu_core::get_status::{self, WaitState};
use dfu_core::memory_layout::MemoryLayout;
use dfu_core::sans_io::{slice_length, stream_length};
use dfu_core::{DfuProtocol, DfuSansIo, Error, State, UsbWriteControl};

fn descriptor(manifestation_tolerant: bool, will_detach: bool, transfer_size: u16) -> FunctionalDescriptor {
    FunctionalDescriptor {
        can_download: true,
        can_upload: false,
        manifestation_tolerant,
        will_detach,
        detach_timeout: 250,
        transfer_size,
        dfu_version: (0x01, 0x1a),
    }
}

fn reply(state: State) -> [u8; 6] {
    [0, 0, 0, 0, state.into(), 0]
}

/// Opens a download: two status queries, with the device idle.
fn open<'a>(dfu: &'a DfuSansIo, protocol: &'a DfuProtocol<MemoryLayout>, length: u32) -> DownloadLoop<'a> {
    let mut buffer = [0u8; 6];
    let command = dfu.download(protocol, length).unwrap();
    let (command, control) = command.get_status(&mut buffer);
    assert_eq!(
        (control.request_type, control.request, control.value),
        (0b1010_0001, 3, 0)
    );
    let (command, control) = command.chain(&reply(State::DfuIdle)).unwrap();
    assert!(control.is_none());
    let (command, _) = command.get_status(&mut buffer);
    command.chain(&reply(State::DfuIdle)).unwrap().unwrap()
}

/// Lets the device report the states in turn, and hands back what follows.
fn wait<'a>(mut wait: WaitState<DownloadLoop<'a>>, states: &[State]) -> DownloadLoop<'a> {
    let mut buffer = [0u8; 6];
    for state in states {
        wait = match wait.next() {
            get_status::Step::Wait(query, _) => {
                let (recv, _) = query.get_status(&mut buffer);
                recv.chain(&reply(*state)).unwrap().unwrap()
            }
            get_status::Step::Break(_) => panic!("the wait ended early"),
        };
    }
    match wait.next() {
        get_status::Step::Break(download) => download,
        get_status::Step::Wait(_, _) => panic!("the wait did not end"),
    }
}

fn header<D>(control: &UsbWriteControl<D>) -> (u8, u8, u16) {
    (control.request_type, control.request, control.value)
}

#[test]
fn error_state_asks_for_clear_status() {
    let dfu = DfuSansIo::new(descriptor(true, false, 6));
    let mut buffer = [0u8; 6];
    let command = dfu.download(&DfuProtocol::Dfu, 6).unwrap();
    let (command, _) = command.get_status(&mut buffer);
    let (command, control) = command.chain(&reply(State::DfuError)).unwrap();
    let control = control.unwrap();
    assert_eq!(header(&control), (0b0010_0001, 4, 0));
    assert_eq!(control.buffer.len(), 0);
    let (command, _) = command.get_status(&mut buffer);
    match command.chain(&reply(State::DfuError)).unwrap() {
        Err(Error::InvalidState { got, expected }) => {
            assert_eq!(got, State::DfuError);
            assert_eq!(expected, State::DfuIdle);
        }
        _ => panic!("a device in its error state was accepted"),
    }
}

#[test]
fn plain_dfu_step_by_step() {
    let dfu = DfuSansIo::new(descriptor(false, true, 4));
    let download = open(&dfu, &DfuProtocol::Dfu, 6);

    let chunk = match download.next() {
        Step::DownloadChunk(chunk) => chunk,
        _ => panic!("plain DFU starts with a chunk"),
    };
    let (waiting, control) = chunk.download(b"abcdef").unwrap();
    assert_eq!(header(&control), (0b0010_0001, 1, 0));
    assert_eq!(control.buffer, b"abcd");
    let download = wait(waiting, &[State::DfuDnbusy, State::DfuDnloadSync, State::DfuDnloadIdle]);

    let chunk = match download.next() {
        Step::DownloadChunk(chunk) => chunk,
        _ => panic!("the second chunk is due"),
    };
    let (waiting, control) = chunk.download(b"ef").unwrap();
    assert_eq!(header(&control), (0b0010_0001, 1, 1));
    assert_eq!(control.buffer, b"ef");
    let download = wait(waiting, &[State::DfuDnloadIdle]);

    let chunk = match download.next() {
        Step::DownloadChunk(chunk) => chunk,
        _ => panic!("the empty chunk is due"),
    };
    let (waiting, control) = chunk.download(b"").unwrap();
    assert_eq!(header(&control), (0b0010_0001, 1, 2));
    assert!(control.buffer.is_empty());
    // not manifestation tolerant: the device stays in the manifestation phase
    let download = wait(waiting, &[State::DfuManifestSync]);
    assert!(matches!(download.next(), Step::Break));
}

#[test]
fn end_of_the_download_by_descriptor() {
    for (tolerant, will_detach) in [(false, false), (false, true), (true, false), (true, true)] {
        let dfu = DfuSansIo::new(descriptor(tolerant, will_detach, 4));
        let download = open(&dfu, &DfuProtocol::Dfu, 0);
        let chunk = match download.next() {
            Step::DownloadChunk(chunk) => chunk,
            _ => panic!(),
        };
        let (waiting, _) = chunk.download(b"").unwrap();
        // a device that does not tolerate manifestation never leaves that
        // phase, so its first report of it ends the wait
        let download = if tolerant {
            wait(waiting, &[State::DfuManifest, State::DfuIdle])
        } else {
            wait(waiting, &[State::DfuManifest])
        };
        match download.next() {
            Step::UsbReset => assert!(!tolerant && !will_detach),
            Step::Break => assert!(tolerant || will_detach),
            _ => panic!("the download went on after its end"),
        }
    }
}

#[test]
fn tolerant_device_must_not_stay_in_manifest_without_reply() {
    let dfu = DfuSansIo::new(descriptor(true, false, 4));
    let download = open(&dfu, &DfuProtocol::Dfu, 0);
    let chunk = match download.next() {
        Step::DownloadChunk(chunk) => chunk,
        _ => panic!(),
    };
    let (waiting, _) = chunk.download(b"").unwrap();
    let mut buffer = [0u8; 6];
    match waiting.next() {
        get_status::Step::Wait(query, _) => {
            let (recv, _) = query.get_status(&mut buffer);
            assert!(matches!(
                recv.chain(&reply(State::DfuDnloadIdle)).unwrap(),
                Err(Error::InvalidState {
                    got: State::DfuDnloadIdle,
                    expected: State::DfuManifest
                })
            ));
        }
        _ => panic!(),
    }
}

#[test]
fn dfuse_erases_then_sets_the_address_then_sends() {
    let dfu = DfuSansIo::new(descriptor(true, false, 8));
    let protocol = DfuProtocol::Dfuse {
        address: 0x0800_0000,
        memory_layout: MemoryLayout::try_from("1*4 g,1*16 g").unwrap(),
    };
    let download = open(&dfu, &protocol, 5);

    let erase = match download.next() {
        Step::Erase(erase) => erase,
        _ => panic!("the first page must be erased"),
    };
    let (waiting, control) = erase.erase().unwrap();
    assert_eq!(header(&control), (0b0010_0001, 1, 0));
    assert_eq!(control.buffer, [0x41, 0x00, 0x00, 0x00, 0x08]);
    let download = wait(waiting, &[State::DfuDnbusy, State::DfuDnloadIdle]);

    let erase = match download.next() {
        Step::Erase(erase) => erase,
        _ => panic!("the second page must be erased"),
    };
    let (waiting, control) = erase.erase().unwrap();
    assert_eq!(control.buffer, [0x41, 0x04, 0x00, 0x00, 0x08]);
    let download = wait(waiting, &[State::DfuDnloadIdle]);

    let set_address = match download.next() {
        Step::SetAddress(set_address) => set_address,
        _ => panic!("the address must be set"),
    };
    let (waiting, control) = set_address.set_address();
    assert_eq!(header(&control), (0b0010_0001, 1, 0));
    assert_eq!(control.buffer, [0x21, 0x00, 0x00, 0x00, 0x08]);
    let download = wait(waiting, &[State::DfuDnloadIdle]);

    let chunk = match download.next() {
        Step::DownloadChunk(chunk) => chunk,
        _ => panic!("the chunk is due"),
    };
    let (waiting, control) = chunk.download(b"12345").unwrap();
    assert_eq!(header(&control), (0b0010_0001, 1, 2));
    assert_eq!(control.buffer, b"12345");
    let download = wait(waiting, &[State::DfuDnloadIdle]);

    let chunk = match download.next() {
        Step::DownloadChunk(chunk) => chunk,
        _ => panic!("the empty chunk is due"),
    };
    let (waiting, control) = chunk.download(b"").unwrap();
    assert_eq!(header(&control), (0b0010_0001, 1, 3));
    let download = wait(waiting, &[State::DfuManifest, State::DfuIdle]);
    assert!(matches!(download.next(), Step::Break));
}

#[test]
fn erase_without_pages_left() {
    let dfu = DfuSansIo::new(descriptor(true, false, 8));
    let protocol = DfuProtocol::Dfuse {
        address: 0,
        memory_layout: MemoryLayout::new(),
    };
    let download = open(&dfu, &protocol, 1);
    match download.next() {
        Step::Erase(erase) => assert!(matches!(erase.erase(), Err(Error::NoSpaceLeft))),
        _ => panic!(),
    }
}

#[test]
fn erase_beyond_the_address_space() {
    let mut dfu = DfuSansIo::new(descriptor(true, false, 8));
    dfu.set_address(0xffff_fff8);
    let protocol = DfuProtocol::Dfuse {
        address: 0,
        memory_layout: MemoryLayout::try_from("4*4 g").unwrap(),
    };
    let mut download = open(&dfu, &protocol, 7);
    for erased in [0xffff_fff8u32, 0xffff_fffc] {
        let erase = match download.next() {
            Step::Erase(erase) => erase,
            _ => panic!(),
        };
        match erase.erase() {
            Ok((waiting, control)) => {
                assert_eq!(erased, 0xffff_fff8);
                assert_eq!(control.buffer[1..], erased.to_le_bytes());
                download = wait(waiting, &[State::DfuDnloadIdle]);
            }
            Err(Error::EraseLimitReached) => {
                assert_eq!(erased, 0xffff_fffc);
                return;
            }
            Err(_) => panic!(),
        }
    }
    panic!("the erase went beyond the address space");
}

#[test]
fn position_beyond_32_bits() {
    let mut dfu = DfuSansIo::new(descriptor(true, false, 6));
    dfu.set_address(0xffff_fff0);
    let protocol = DfuProtocol::Dfuse {
        address: 0,
        memory_layout: MemoryLayout::try_from("2*4 g").unwrap(),
    };
    let mut download = open(&dfu, &protocol, 8);
    let mut sent = 0;
    loop {
        download = match download.next() {
            Step::Erase(erase) => wait(erase.erase().unwrap().0, &[State::DfuDnloadIdle]),
            Step::SetAddress(set) => wait(set.set_address().0, &[State::DfuDnloadIdle]),
            Step::DownloadChunk(chunk) => match chunk.download(b"123456") {
                Ok((waiting, _)) => {
                    sent += 1;
                    wait(waiting, &[State::DfuDnloadIdle])
                }
                Err(Error::MaximumTransferSizeExceeded) => break,
                Err(_) => panic!(),
            },
            _ => panic!(),
        };
    }
    assert_eq!(sent, 2);
}

#[test]
fn block_number_beyond_16_bits() {
    let dfu = DfuSansIo::new(descriptor(true, false, 1));
    let mut download = open(&dfu, &DfuProtocol::Dfu, 70000);
    let mut sent: u32 = 0;
    loop {
        let chunk = match download.next() {
            Step::DownloadChunk(chunk) => chunk,
            _ => panic!(),
        };
        match chunk.download(b"xy") {
            Ok((waiting, control)) => {
                assert_eq!(control.value as u32, sent);
                assert_eq!(control.buffer, b"x");
                sent += 1;
                download = wait(waiting, &[State::DfuDnloadIdle]);
            }
            Err(Error::MaximumChunksExceeded) => break,
            Err(_) => panic!(),
        }
    }
    assert_eq!(sent, 65535);
}

#[test]
fn transfer_size_of_zero_ends_the_firmware_at_once() {
    let dfu = DfuSansIo::new(descriptor(true, false, 0));
    let download = open(&dfu, &DfuProtocol::Dfu, 3);
    let chunk = match download.next() {
        Step::DownloadChunk(chunk) => chunk,
        _ => panic!(),
    };
    let (waiting, control) = chunk.download(b"abc").unwrap();
    assert!(control.buffer.is_empty());
    // bytes were at hand, so the device is waited for as after any chunk
    let download = wait(waiting, &[State::DfuDnloadIdle]);
    assert!(matches!(download.next(), Step::DownloadChunk(_)));
}

#[test]
fn detach_requests() {
    let dfu = DfuSansIo::new(descriptor(true, true, 6));
    let control = dfu.detach();
    assert_eq!(header(&control), (0b0010_0001, 0, 1000));
    assert_eq!(control.buffer.len(), 0);

    let (next, control) = Detach::new(descriptor(true, true, 6), "next").detach();
    assert_eq!(next, "next");
    assert_eq!(header(&control), (0b0010_0001, 0, 250));
    assert_eq!(control.buffer.len(), 0);
}

#[test]
fn write_and_read_records() {
    let control = UsbWriteControl::new(1, 2, 3, [4u8, 5]);
    assert_eq!(header(&control), (1, 2, 3));
    assert_eq!(control.buffer, [4, 5]);
    let mut buffer = [9u8; 3];
    let control = dfu_core::UsbReadControl::new(6, 7, 8, &mut buffer);
    assert_eq!(
        (control.request_type, control.request, control.value),
        (6, 7, 8)
    );
    control.buffer[1] = 0;
    assert_eq!(buffer, [9, 0, 9]);
}

#[test]
fn firmware_lengths() {
    assert!(matches!(slice_length(0), Ok(0)));
    assert!(matches!(slice_length(0xffff_ffff), Ok(0xffff_ffff)));
    assert!(matches!(stream_length(0), Ok(0)));
    assert!(matches!(stream_length(0xffff_ffff), Ok(0xffff_ffff)));
    assert!(matches!(
        stream_length(0x1_0000_0000),
        Err(Error::MaximumTransferSizeExceeded)
    ));
    assert!(matches!(
        stream_length(u64::MAX),
        Err(Error::MaximumTransferSizeExceeded)
    ));
    if usize::BITS > 32 {
        assert!(matches!(
            slice_length(0x1_0000_0000u64 as usize),
            Err(Error::OutOfCapabilities)
        ));
        assert!(matches!(
            slice_length(usize::MAX),
            Err(Error::OutOfCapabilities)
        ));
    }
}
