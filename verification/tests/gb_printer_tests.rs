use std::sync::mpsc::channel;

use gb_gba_emu::gb::printer::GbPrinter;

/// The bytes of a packet: magic, command, compression, length, payload, checksum and
/// the two answer bytes.
fn frame(cmd: u8, compression: u8, payload: &[u8], good_crc: bool) -> Vec<u8> {
    let len = payload.len() as u16;
    let mut bytes = vec![0x88, 0x33, cmd, compression, len as u8, (len >> 8) as u8];
    bytes.extend_from_slice(payload);
    let mut crc: u16 = 0;
    for &b in &bytes[2..] {
        crc = crc.wrapping_add(b as u16);
    }
    if !good_crc {
        crc = crc.wrapping_add(1);
    }
    bytes.extend_from_slice(&[crc as u8, (crc >> 8) as u8, 0, 0]);
    bytes
}

fn exchange(printer: &mut GbPrinter, bytes: &[u8]) -> Vec<u8> {
    bytes.iter().map(|&b| printer.send(b)).collect()
}

#[test]
fn init_packet_answers_alive_then_status() {
    let mut printer = GbPrinter::new(None);
    let replies = exchange(&mut printer, &frame(0x01, 0, &[], true));
    assert_eq!(replies.len(), 10);
    assert_eq!(replies[8], 0x81);
    assert_eq!(replies[9], 0x00);
}

#[test]
fn data_then_print_sends_an_image() {
    let (tx, rx) = channel();
    let mut printer = GbPrinter::new(Some(tx));
    // Two tile rows (640 bytes): every tile row has low plane 0xFF and high plane 0x00,
    // so every pixel has colour index 1.
    let data: Vec<u8> = (0..640).map(|i| if i % 2 == 0 { 0xFF } else { 0x00 }).collect();
    exchange(&mut printer, &frame(0x04, 0, &data, true));
    // Print with palette 0xE4: index 1 maps to shade 3 - 1 = 2, gray 85.
    exchange(&mut printer, &frame(0x02, 0, &[0x01, 0x13, 0xE4, 0x40], true));
    let image = rx.try_recv().expect("an image");
    assert_eq!(image.width, 160);
    assert_eq!(image.height, 16);
    assert_eq!(image.data.len(), 160 * 16);
    assert!(image.data.iter().all(|&g| g == 85));
}

#[test]
fn compressed_data_repeats_runs() {
    let (tx, rx) = channel();
    let mut printer = GbPrinter::new(Some(tx));
    // 0x80 | (40 - 2): the next byte 0xFF repeated 40 times; then 1 + 39 copied bytes.
    let mut payload = vec![0x80 | 38, 0xFF, 39];
    payload.extend(std::iter::repeat(0xFF).take(40));
    exchange(&mut printer, &frame(0x04, 1, &payload, true));
    exchange(&mut printer, &frame(0x02, 0, &[0x01, 0x13, 0x00, 0x40], true));
    let image = rx.try_recv().expect("an image");
    assert_eq!(image.height, 2);
    // Both planes set: colour index 3; palette 0x00 maps it to shade 3, black.
    assert!(image.data.iter().all(|&g| g == 0));
}

#[test]
fn bad_checksum_skips_the_command() {
    let (tx, rx) = channel();
    let mut printer = GbPrinter::new(Some(tx));
    let data = vec![0u8; 640];
    exchange(&mut printer, &frame(0x04, 0, &data, false));
    exchange(&mut printer, &frame(0x02, 0, &[0x01, 0x13, 0xE4, 0x40], true));
    assert!(rx.try_recv().is_err());
}

#[test]
fn stray_byte_resets_to_idle() {
    let mut printer = GbPrinter::new(None);
    assert_eq!(printer.send(0x88), 0);
    assert_eq!(printer.send(0x12), 0);
    let replies = exchange(&mut printer, &frame(0x0F, 0, &[], true));
    assert_eq!(replies[8], 0x81);
}

#[test]
fn printed_image_is_kept_for_the_byte_that_printed_it() {
    let (tx, rx) = channel();
    let mut printer = GbPrinter::new(Some(tx));
    let data: Vec<u8> = (0..640).map(|i| if i % 2 == 0 { 0xFF } else { 0x00 }).collect();
    exchange(&mut printer, &frame(0x04, 0, &data, true));
    let print = frame(0x02, 0, &[0x01, 0x13, 0xE4, 0x40], true);
    // Up to the last checksum byte nothing is printed.
    for &b in &print[..print.len() - 3] {
        printer.send(b);
        assert!(printer.printed_image().is_none());
    }
    printer.send(print[print.len() - 3]);
    let kept = printer.printed_image().clone().expect("a printed image");
    assert_eq!((kept.width, kept.height), (160, 16));
    assert!(kept.data.iter().all(|&g| g == 85));
    let sent = rx.try_recv().expect("an image");
    assert_eq!(sent.data, kept.data);
    // The next byte clears it.
    printer.send(0);
    assert!(printer.printed_image().is_none());
}
