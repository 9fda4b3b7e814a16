//! The Game Boy Printer, a serial-link peripheral.
//!
//! The printer receives packets one byte at a time: the magic bytes 0x88 0x33, a command,
//! a compression flag, a little-endian data length, the data, a little-endian checksum,
//! and two bytes during which it answers 0x81 (alive) and then its status. A checked
//! packet runs its command: 0x01 clears the image buffer, 0x04 appends (possibly
//! run-length compressed) tile data, and 0x02 prints the buffered rows as an image.
use vstd::prelude::*;
use crate::common::LinkEndpoint;
use crate::bits::lemma_and_le_u8;

verus! {

/// Bytes of image buffer: nine bands of 0x280 bytes (two tile rows of 20 tiles).
pub const PRINTER_DATA_SIZE: usize = 0x1680;
/// Bytes of packet buffer.
pub const PRINTER_PACKET_SIZE: usize = 0x400;

/// A printed image: `width` by `height` gray levels, 255 white to 0 black.
#[derive(Clone, Debug)]
pub struct PrinterImage {
    pub width: usize,
    pub height: usize,
    pub data: Vec<u8>,
}

#[verifier::external_type_specification]
#[verifier::external_body]
#[verifier::reject_recursive_types(T)]
pub struct ExSender<T>(std::sync::mpsc::Sender<T>);

/// Sends a printed image down the channel.
///
/// Calls `Sender::send`; the send fails only when the receiver is gone, and that
/// outcome is dropped, so nothing is stated.
#[verifier::external_body]
fn send_image(tx: &std::sync::mpsc::Sender<PrinterImage>, image: PrinterImage) {
    let _ = tx.send(image);
}

/// The printer's state as a value.
pub struct PrinterModel {
    pub status: u8,
    pub state: u32,
    pub data: Seq<u8>,
    pub packet: Seq<u8>,
    pub count: usize,
    pub datacount: usize,
    pub datasize: usize,
    pub result: u8,
    pub has_output: bool,
    /// The image the last byte received printed, as width, height and gray levels.
    pub printed: Option<(usize, usize, Seq<u8>)>,
}

/// The wrapping 16-bit sum of `packet[from..to]`.
pub open spec fn byte_sum(packet: Seq<u8>, from: int, to: int) -> u16
    decreases to - from,
{
    if to <= from {
        0
    } else {
        ((byte_sum(packet, from, to - 1) + packet[to - 1]) % 0x10000) as u16
    }
}

/// `data` with `len` bytes from `dest` on set to `b`.
pub open spec fn fill_run(data: Seq<u8>, dest: int, len: int, b: u8) -> Seq<u8> {
    Seq::new(data.len(), |j: int| if dest <= j < dest + len { b } else { data[j] })
}

/// `data` with `len` bytes from `dest` on copied from `packet` at `src`, where both exist.
pub open spec fn copy_run(data: Seq<u8>, dest: int, packet: Seq<u8>, src: int, len: int) -> Seq<u8> {
    Seq::new(
        data.len(),
        |j: int| if dest <= j < dest + len && src + (j - dest) < packet.len() { packet[src + (j - dest)] } else { data[j] },
    )
}

/// Decompresses `packet[src..end]` into `data` at `dest`: a control byte with bit 7 set
/// repeats the next byte (control & 0x7F) + 2 times; otherwise the next control + 1
/// bytes are copied. Returns the buffer and the index after the last byte written.
pub open spec fn unpack(packet: Seq<u8>, end: int, src: int, dest: int, data: Seq<u8>) -> (Seq<u8>, int)
    decreases if src < end { end - src } else { 0 },
{
    if src >= end {
        (data, dest)
    } else {
        let control = packet[src];
        if control & 0x80 != 0 {
            let len = (control & 0x7F) + 2;
            unpack(packet, end, src + 2, dest + len, fill_run(data, dest, len, packet[src + 1]))
        } else {
            let len = control + 1;
            unpack(packet, end, src + 1 + len, dest + len, copy_run(data, dest, packet, src + 1, len))
        }
    }
}

/// The gray level of shade `s`: 0 white (255) to 3 black (0).
pub open spec fn gray_level(s: u8) -> u8 {
    if s == 0 { 255 } else if s == 1 { 170 } else if s == 2 { 85 } else { 0 }
}

/// The gray level of pixel (`x`, `y`) of the printed image: the tile pixel's color,
/// through the palette byte, inverted.
pub open spec fn printed_pixel(data: Seq<u8>, palbyte: u8, y: int, x: int) -> u8 {
    let tile = (y / 8) * 20 + x / 8;
    let offset = tile * 16 + (y % 8) * 2;
    let bx = (7 - x % 8) as u8;
    let ci = ((data[offset] >> bx) & 1) | (((data[offset + 1] >> bx) << 1u8) & 2);
    gray_level((3 - ((palbyte >> (ci * 2) as u8) & 3)) as u8)
}

impl PrinterModel {
    /// The buffers have their sizes and the data length fits 16 bits.
    pub open spec fn buffers_ok(self) -> bool {
        &&& self.data.len() == PRINTER_DATA_SIZE
        &&& self.packet.len() == PRINTER_PACKET_SIZE
        &&& self.datasize <= 0xFFFF
    }

    /// The buffers are in order and the byte count matches the packet state.
    pub open spec fn wf(self) -> bool {
        &&& self.buffers_ok()
        &&& self.state <= 7
        &&& self.state == 0 ==> self.count == 0
        &&& self.state == 1 ==> self.count == 1
        &&& self.state == 2 ==> 2 <= self.count <= 5
        &&& self.state == 3 ==> 6 <= self.count < self.datasize + 6
        &&& self.state == 4 ==> self.count == self.datasize + 6
        &&& self.state == 5 ==> self.count == self.datasize + 7
        &&& self.state == 6 ==> self.count == self.datasize + 8
        &&& self.state == 7 ==> self.count == self.datasize + 9
    }

    /// Whether the packet's checksum matches the sum of its header and data bytes.
    pub open spec fn crc_ok(self) -> bool {
        let ds = self.datasize as int;
        byte_sum(self.packet, 2, 6 + ds) == (self.packet[6 + ds] + self.packet[7 + ds] * 256) as u16
    }

    /// The rows of image data buffered.
    pub open spec fn image_height(self) -> int {
        (self.datacount / 40) as int
    }

    /// The printed image's gray levels, row by row.
    pub open spec fn image(self) -> Seq<u8> {
        Seq::new(
            (160 * self.image_height()) as nat,
            |k: int| printed_pixel(self.data, self.packet[8], k / 160, k % 160),
        )
    }

    /// The printer after a data packet's payload is stored.
    pub open spec fn receive(self) -> PrinterModel {
        if self.packet[3] != 0 {
            let (d, dest) = unpack(self.packet, 6 + self.datasize, 6, self.datacount as int, self.data);
            PrinterModel { data: d, datacount: dest as usize, ..self }
        } else {
            PrinterModel {
                data: copy_run(self.data, self.datacount as int, self.packet, 6, self.datasize as int),
                datacount: (self.datacount + self.datasize) as usize,
                ..self
            }
        }
    }

    /// The printer after a checked packet's command runs.
    pub open spec fn command(self) -> PrinterModel {
        if self.packet[2] == 0x01 {
            PrinterModel { datacount: 0, status: 0, ..self }
        } else if self.packet[2] == 0x02 {
            if self.image_height() > 0 && self.has_output {
                PrinterModel { printed: Some((160usize, self.image_height() as usize, self.image())), ..self }
            } else {
                self
            }
        } else if self.packet[2] == 0x04 {
            self.receive()
        } else {
            self
        }
    }

    /// Whether the byte completing a packet prints an image: the packet checks and its
    /// command is 0x02, with rows buffered and somewhere to send them.
    pub open spec fn prints(self) -> bool {
        self.state == 5 && self.crc_ok() && self.packet[2] == 0x02 && self.image_height() > 0 && self.has_output
    }

    /// The state machine after reset.
    pub open spec fn reset(self) -> PrinterModel {
        PrinterModel { state: 0, datasize: 0, datacount: 0, count: 0, status: 0, result: 0, ..self }
    }

    /// The printer after it receives byte `v`.
    pub open spec fn send(self, v: u8) -> PrinterModel {
        let p = PrinterModel {
            packet: if self.count < self.packet.len() { self.packet.update(self.count as int, v) } else { self.packet },
            count: (self.count + 1) as usize,
            printed: None,
            ..self
        };
        if p.state == 0 {
            if v == 0x88 { PrinterModel { state: 1, ..p } } else { p.reset() }
        } else if p.state == 1 {
            if v == 0x33 { PrinterModel { state: 2, ..p } } else { p.reset() }
        } else if p.state == 2 {
            if p.count == 6 {
                let ds = (p.packet[4] + p.packet[5] * 256) as usize;
                PrinterModel { datasize: ds, state: if ds > 0 { 3 } else { 4 }, ..p }
            } else {
                p
            }
        } else if p.state == 3 {
            if p.count == p.datasize + 6 { PrinterModel { state: 4, ..p } } else { p }
        } else if p.state == 4 {
            PrinterModel { state: 5, ..p }
        } else if p.state == 5 {
            let q = if p.crc_ok() { p.command() } else { p };
            PrinterModel { state: 6, ..q }
        } else if p.state == 6 {
            PrinterModel { result: 0x81, state: 7, ..p }
        } else {
            PrinterModel { result: p.status, state: 0, count: 0, ..p }
        }
    }

    /// What the printer answers to byte `v`.
    pub open spec fn reply(self, v: u8) -> u8 {
        self.send(v).result
    }

    /// Whether byte `v` can be received: a packet that completes with it has at most
    /// 1016 data bytes, so that it and its checksum fit the packet buffer; a printed image
    /// has at most 144 rows, the rows the image buffer holds; and the buffered count
    /// stays far from the top of `usize`.
    pub open spec fn accepts(self, v: u8) -> bool {
        &&& self.state == 5 ==> self.datasize <= 1016
        &&& self.state == 5 && self.datasize <= 1016 && self.prints_with(v) ==> self.image_height() <= 144
        &&& self.datacount <= usize::MAX - 0x40000
    }

    /// Whether the packet completing with byte `v` prints.
    pub open spec fn prints_with(self, v: u8) -> bool {
        let p = PrinterModel {
            packet: if self.count < self.packet.len() { self.packet.update(self.count as int, v) } else { self.packet },
            count: (self.count + 1) as usize,
            ..self
        };
        p.prints()
    }
}

/// The Game Boy Printer.
#[derive(Debug)]
pub struct GbPrinter {
    status: u8,
    state: u32,
    data: Vec<u8>,
    packet: Vec<u8>,
    count: usize,
    datacount: usize,
    datasize: usize,
    result: u8,
    image_tx: Option<std::sync::mpsc::Sender<PrinterImage>>,
    printed: Option<PrinterImage>,
}

/// A printed image as width, height and gray levels.
pub open spec fn image_value(img: PrinterImage) -> (usize, usize, Seq<u8>) {
    (img.width, img.height, img.data@)
}

impl View for GbPrinter {
    type V = PrinterModel;

    closed spec fn view(&self) -> PrinterModel {
        PrinterModel {
            status: self.status,
            state: self.state,
            data: self.data@,
            packet: self.packet@,
            count: self.count,
            datacount: self.datacount,
            datasize: self.datasize,
            result: self.result,
            has_output: self.image_tx is Some,
            printed: match self.printed {
                Some(img) => Some(image_value(img)),
                None => None,
            },
        }
    }
}


impl GbPrinter {
    pub open spec fn wf(&self) -> bool {
        self@.wf()
    }

    /// An idle printer with empty buffers; printed images go to `image_tx`, or nowhere.
    pub fn new(image_tx: Option<std::sync::mpsc::Sender<PrinterImage>>) -> (p: Self)
        ensures
            p.wf(),
            p@ == (PrinterModel {
                status: 0,
                state: 0,
                data: Seq::new(PRINTER_DATA_SIZE as nat, |i: int| 0u8),
                packet: Seq::new(PRINTER_PACKET_SIZE as nat, |i: int| 0u8),
                count: 0,
                datacount: 0,
                datasize: 0,
                result: 0,
                has_output: image_tx is Some,
                printed: None,
            }),
    {
        let p = GbPrinter {
            status: 0,
            state: 0,
            data: vec![0u8; PRINTER_DATA_SIZE],
            packet: vec![0u8; PRINTER_PACKET_SIZE],
            count: 0,
            datacount: 0,
            datasize: 0,
            result: 0,
            image_tx,
            printed: None,
        };
        assert(p@.data =~= Seq::new(PRINTER_DATA_SIZE as nat, |i: int| 0u8));
        assert(p@.packet =~= Seq::new(PRINTER_PACKET_SIZE as nat, |i: int| 0u8));
        p
    }

    /// Whether the packet's checksum matches.
    fn check_crc(&self) -> (ok: bool)
        requires
            self@.buffers_ok(),
            self.datasize <= 1016,
        ensures
            ok == self@.crc_ok(),
    {
        let mut crc: u16 = 0;
        let end = 6 + self.datasize;
        let mut i: usize = 2;
        while i < end
            invariant
                self@.buffers_ok(),
                self.datasize <= 1016,
                end == 6 + self.datasize,
                2 <= i <= end,
                crc == byte_sum(self@.packet, 2, i as int),
            decreases end - i,
        {
            crc = crc.wrapping_add(self.packet[i] as u16);
            i = i + 1;
        }
        let lo = self.packet[6 + self.datasize] as u16;
        let hi = self.packet[7 + self.datasize] as u16;
        let msgcrc = lo.wrapping_add(hi << 8u16);
        assert((hi << 8u16) == hi * 256) by (bit_vector)
            requires
                hi < 256,
        ;
        crc == msgcrc
    }

    fn reset(&mut self)
        requires
            old(self)@.data.len() == PRINTER_DATA_SIZE,
            old(self)@.packet.len() == PRINTER_PACKET_SIZE,
        ensures
            final(self)@ == old(self)@.reset(),
            final(self)@.buffers_ok(),
    {
        self.state = 0;
        self.datasize = 0;
        self.datacount = 0;
        self.count = 0;
        self.status = 0;
        self.result = 0;
    }

    /// The image that the buffered rows print as.
    fn print_image(&self) -> (img: PrinterImage)
        requires
            self@.buffers_ok(),
            1 <= self@.image_height() <= 144,
        ensures
            img.width == 160,
            img.height == self@.image_height(),
            img.data@ == self@.image(),
    {
        let height = self.datacount / 40;
        let palbyte = self.packet[8];
        let mut img_data: Vec<u8> = Vec::new();
        let mut y: usize = 0;
        while y < height
            invariant
                self@.buffers_ok(),
                height == self@.image_height(),
                height <= 144,
                palbyte == self@.packet[8],
                y <= height,
                img_data@.len() == y * 160,
                forall|k: int| 0 <= k < y * 160 ==> #[trigger] img_data@[k] == printed_pixel(self@.data, palbyte, k / 160, k % 160),
            decreases height - y,
        {
            let mut x: usize = 0;
            while x < 160
                invariant
                    self@.buffers_ok(),
                    height <= 144,
                    y < height,
                    palbyte == self@.packet[8],
                    x <= 160,
                    img_data@.len() == y * 160 + x,
                    forall|k: int| 0 <= k < y * 160 + x ==> #[trigger] img_data@[k] == printed_pixel(self@.data, palbyte, k / 160, k % 160),
                decreases 160 - x,
            {
                let tile = (y / 8) * 20 + x / 8;
                let offset = tile * 16 + (y % 8) * 2;
                assert(offset + 1 < PRINTER_DATA_SIZE) by (nonlinear_arith)
                    requires
                        y < 144,
                        x < 160,
                        tile == (y / 8) * 20 + x / 8,
                        offset == tile * 16 + (y % 8) * 2,
                ;
                let bx = (7 - x % 8) as u8;
                let d0 = self.data[offset];
                let d1 = self.data[offset + 1];
                let ci = ((d0 >> bx) & 1) | (((d1 >> bx) << 1u8) & 2);
                assert(ci <= 3) by (bit_vector)
                    requires
                        ci == ((d0 >> bx) & 1) | (((d1 >> bx) << 1u8) & 2),
                ;
                assert(((palbyte >> (ci * 2)) & 3) <= 3) by (bit_vector);
                let sh = 3 - ((palbyte >> (ci * 2)) & 3);
                let level: u8 = if sh == 0 { 255 } else if sh == 1 { 170 } else if sh == 2 { 85 } else { 0 };
                proof {
                    let k = (y * 160 + x) as int;
                    assert(k / 160 == y && k % 160 == x) by (nonlinear_arith)
                        requires
                            k == y * 160 + x,
                            x < 160,
                    ;
                }
                img_data.push(level);
                x = x + 1;
            }
            y = y + 1;
        }
        assert(img_data@ =~= self@.image());
        PrinterImage { width: 160, height, data: img_data }
    }

    /// Prints the buffered rows, if there are any and somewhere to send them: the image is
    /// sent down the channel and kept as the printed image.
    fn output_image(&mut self)
        requires
            old(self)@.buffers_ok(),
            old(self)@.has_output && old(self)@.image_height() > 0 ==> old(self)@.image_height() <= 144,
        ensures
            final(self)@ == (if old(self)@.image_height() > 0 && old(self)@.has_output {
                PrinterModel {
                    printed: Some((160usize, old(self)@.image_height() as usize, old(self)@.image())),
                    ..old(self)@
                }
            } else {
                old(self)@
            }),
    {
        let height = self.datacount / 40;
        if height == 0 {
            return;
        }
        match &self.image_tx {
            Some(tx) => {
                let copy = self.print_image();
                send_image(tx, copy);
                let img = self.print_image();
                self.printed = Some(img);
            },
            None => {},
        }
    }
}


impl GbPrinter {
    /// Stores a data packet's payload: copied as is, or decompressed when byte 3 of the
    /// packet is nonzero. Bytes past the end of the image buffer are dropped, but still
    /// counted.
    fn receive(&mut self)
        requires
            old(self)@.buffers_ok(),
            old(self).datasize <= 1016,
            old(self).datacount <= usize::MAX - 0x40000,
        ensures
            final(self)@ == old(self)@.receive(),
            final(self)@.buffers_ok(),
    {
        let ghost pre = self@;
        if self.packet[3] != 0 {
            let end: usize = 6 + self.datasize;
            let mut dataidx: usize = 6;
            let mut destidx: usize = self.datacount;
            while dataidx < end
                invariant
                    self@.buffers_ok(),
                    self.datasize == pre.datasize,
                    self.datasize <= 1016,
                    end == 6 + self.datasize,
                    6 <= dataidx,
                    pre.datacount <= usize::MAX - 0x40000,
                    destidx <= pre.datacount + 129 * (dataidx - 6),
                    dataidx <= end + 129,
                    self@ == (PrinterModel { data: self@.data, ..pre }),
                    unpack(pre.packet, end as int, dataidx as int, destidx as int, self@.data)
                        == unpack(pre.packet, end as int, 6, pre.datacount as int, pre.data),
                decreases end + 129 - dataidx,
            {
                let control = self.packet[dataidx];
                dataidx = dataidx + 1;
                if control & 0x80 != 0 {
                    proof { lemma_and_le_u8(control, 0x7F); }
                    let curlen: usize = ((control & 0x7F) + 2) as usize;
                    let b = self.packet[dataidx];
                    let ghost d0 = self@.data;
                    let dest0 = destidx;
                    let mut k: usize = 0;
                    while k < curlen
                        invariant
                            self@.buffers_ok(),
                            self@ == (PrinterModel { data: self@.data, ..pre }),
                            k <= curlen,
                            curlen <= 129,
                            destidx == dest0 + k,
                            dest0 <= usize::MAX - 0x1000,
                            self@.data == fill_run(d0, dest0 as int, k as int, b),
                        decreases curlen - k,
                    {
                        if destidx < self.data.len() {
                            self.data.set(destidx, b);
                        }
                        destidx = destidx + 1;
                        k = k + 1;
                        assert(self@.data =~= fill_run(d0, dest0 as int, k as int, b));
                    }
                    dataidx = dataidx + 1;
                } else {
                    assert(control & 0x80 == 0 ==> control < 128) by (bit_vector);
                    let curlen: usize = (control + 1) as usize;
                    let ghost d0 = self@.data;
                    let mut k: usize = 0;
                    while k < curlen
                        invariant
                            self@.buffers_ok(),
                            self@ == (PrinterModel { data: self@.data, ..pre }),
                            k <= curlen,
                            curlen <= 128,
                            dataidx <= 1023,
                            destidx <= usize::MAX - 0x1000,
                            self@.data == copy_run(d0, destidx as int, pre.packet, dataidx as int, k as int),
                        decreases curlen - k,
                    {
                        if destidx + k < self.data.len() && dataidx + k < self.packet.len() {
                            let v = self.packet[dataidx + k];
                            self.data.set(destidx + k, v);
                        }
                        k = k + 1;
                        assert(self@.data =~= copy_run(d0, destidx as int, pre.packet, dataidx as int, k as int));
                    }
                    destidx = destidx + curlen;
                    dataidx = dataidx + curlen;
                }
            }
            self.datacount = destidx;
        } else {
            let ghost d0 = self@.data;
            let mut i: usize = 0;
            while i < self.datasize
                invariant
                    self@.buffers_ok(),
                    self@ == (PrinterModel { data: self@.data, ..pre }),
                    i <= self.datasize,
                    self.datasize <= 1016,
                    self.datacount <= usize::MAX - 0x40000,
                    self@.data == copy_run(d0, pre.datacount as int, pre.packet, 6, i as int),
                decreases self.datasize - i,
            {
                if self.datacount + i < self.data.len() && 6 + i < self.packet.len() {
                    let v = self.packet[6 + i];
                    self.data.set(self.datacount + i, v);
                }
                i = i + 1;
                assert(self@.data =~= copy_run(d0, pre.datacount as int, pre.packet, 6, i as int));
            }
            self.datacount = self.datacount + self.datasize;
        }
    }

    /// Runs a checked packet's command.
    fn command(&mut self)
        requires
            old(self)@.buffers_ok(),
            old(self).datasize <= 1016,
            old(self).datacount <= usize::MAX - 0x40000,
            old(self)@.packet[2] == 0x02 && old(self)@.has_output && old(self)@.image_height() > 0
                ==> old(self)@.image_height() <= 144,
        ensures
            final(self)@ == old(self)@.command(),
            final(self)@.buffers_ok(),
    {
        let cmd = self.packet[2];
        if cmd == 0x01 {
            self.datacount = 0;
            self.status = 0;
        } else if cmd == 0x02 {
            self.output_image();
        } else if cmd == 0x04 {
            self.receive();
        }
    }

    /// The image the last byte received printed, if it printed one.
    pub fn printed_image(&self) -> (img: &Option<PrinterImage>)
        ensures
            match img {
                Some(i) => self@.printed == Some(image_value(*i)),
                None => self@.printed is None,
            },
    {
        &self.printed
    }

    /// Receives byte `v` of a packet and returns the printer's answer.
    pub fn send(&mut self, v: u8) -> (r: u8)
        requires
            old(self).wf(),
            old(self)@.accepts(v),
        ensures
            final(self)@ == old(self)@.send(v),
            r == final(self)@.result,
            final(self).wf(),
            old(self)@.prints_with(v) ==> final(self)@.printed == Some(
                (160usize, final(self)@.image_height() as usize, final(self)@.image()),
            ),
            !old(self)@.prints_with(v) ==> final(self)@.printed is None,
    {
        self.printed = None;
        if self.count < self.packet.len() {
            self.packet.set(self.count, v);
        }
        self.count = self.count + 1;
        if self.state == 0 {
            if v == 0x88 {
                self.state = 1;
            } else {
                self.reset();
            }
        } else if self.state == 1 {
            if v == 0x33 {
                self.state = 2;
            } else {
                self.reset();
            }
        } else if self.state == 2 {
            if self.count == 6 {
                let lo = self.packet[4] as usize;
                let hi = self.packet[5] as usize;
                assert((hi << 8usize) == hi * 256) by (bit_vector)
                    requires
                        hi < 256,
                ;
                self.datasize = lo + (hi << 8usize);
                if self.datasize > 0 {
                    self.state = 3;
                } else {
                    self.state = 4;
                }
            }
        } else if self.state == 3 {
            if self.count == self.datasize + 6 {
                self.state = 4;
            }
        } else if self.state == 4 {
            self.state = 5;
        } else if self.state == 5 {
            if self.check_crc() {
                self.command();
            }
            self.state = 6;
        } else if self.state == 6 {
            self.result = 0x81;
            self.state = 7;
        } else {
            self.result = self.status;
            self.state = 0;
            self.count = 0;
        }
        self.result
    }
}

impl LinkEndpoint for GbPrinter {
    open spec fn accepts_byte(&self, byte: u8) -> bool {
        self.wf() && self@.accepts(byte)
    }

    /// Passes the byte to the printer and returns its answer; never fails.
    fn transfer_byte(&mut self, byte: u8) -> (r: std::io::Result<u8>)
        ensures
            r matches Ok(b) && b == final(self)@.result,
            final(self)@ == old(self)@.send(byte),
            final(self).wf(),
    {
        Ok(self.send(byte))
    }
}

/// The bytes of a packet as a Game Boy sends them: the magic bytes, the command, the
/// compression flag, the little-endian length of the payload, the payload, the
/// little-endian checksum `crc`, and two bytes during which the printer answers.
pub open spec fn packet_frame(cmd: u8, compression: u8, payload: Seq<u8>, crc: u16) -> Seq<u8> {
    seq![0x88u8, 0x33u8, cmd, compression, (payload.len() % 256) as u8, (payload.len() / 256) as u8]
        + payload + seq![(crc % 256) as u8, (crc / 256) as u8, 0u8, 0u8]
}

/// The checksum a packet must carry: the sum of its command, compression flag, length
/// and payload bytes.
pub open spec fn packet_crc(cmd: u8, compression: u8, payload: Seq<u8>) -> u16 {
    byte_sum(packet_frame(cmd, compression, payload, 0), 2, 6 + payload.len() as int)
}

/// `buf` with its first bytes replaced by `bytes`, as far as it reaches.
pub open spec fn stored(buf: Seq<u8>, bytes: Seq<u8>) -> Seq<u8> {
    Seq::new(buf.len(), |i: int| if i < bytes.len() { bytes[i] } else { buf[i] })
}

/// The printer after it receives `bytes` in order.
pub open spec fn send_all(p: PrinterModel, bytes: Seq<u8>) -> PrinterModel
    decreases bytes.len(),
{
    if bytes.len() == 0 {
        p
    } else {
        send_all(p, bytes.drop_last()).send(bytes.last())
    }
}

/// The stage of the packet state machine after `k` bytes of a packet with `n` payload
/// bytes, up to the first checksum byte.
pub open spec fn packet_stage(n: int, k: int) -> u32 {
    if k == 0 {
        0
    } else if k == 1 {
        1
    } else if k < 6 {
        2
    } else if k < n + 6 {
        3
    } else if k == n + 6 {
        4
    } else {
        5
    }
}

/// The printer after the first `k` bytes of the packet `f` with `n` payload bytes, up to
/// the first checksum byte.
pub open spec fn packet_prefix(p: PrinterModel, f: Seq<u8>, n: int, k: int) -> PrinterModel {
    PrinterModel {
        packet: stored(p.packet, f.take(k)),
        count: k as usize,
        state: packet_stage(n, k),
        datasize: if k >= 6 { n as usize } else { p.datasize },
        printed: if k == 0 { p.printed } else { None },
        ..p
    }
}

proof fn lemma_send_all_step(p: PrinterModel, f: Seq<u8>, k: int)
    requires
        0 <= k < f.len(),
    ensures
        send_all(p, f.take(k + 1)) == send_all(p, f.take(k)).send(f[k]),
{
    assert(f.take(k + 1).drop_last() =~= f.take(k));
}

proof fn lemma_stored_step(buf: Seq<u8>, f: Seq<u8>, k: int)
    requires
        0 <= k < f.len(),
    ensures
        (if k < buf.len() { stored(buf, f.take(k)).update(k, f[k]) } else { stored(buf, f.take(k)) })
            =~= stored(buf, f.take(k + 1)),
{
}

proof fn lemma_byte_sum_agree(a: Seq<u8>, b: Seq<u8>, from: int, to: int)
    requires
        forall|i: int| from <= i < to ==> a[i] == b[i],
    ensures
        byte_sum(a, from, to) == byte_sum(b, from, to),
    decreases to - from,
{
    if to > from {
        lemma_byte_sum_agree(a, b, from, to - 1);
    }
}

/// Each byte of the packet up to the first checksum byte moves the printer along the
/// packet stages and into the packet buffer.
proof fn lemma_packet_prefix(p: PrinterModel, f: Seq<u8>, n: int, k: int)
    requires
        p.wf(),
        p.state == 0,
        0 <= n <= 1016,
        f.len() == n + 10,
        f[0] == 0x88,
        f[1] == 0x33,
        f[4] + f[5] * 256 == n,
        0 <= k <= n + 7,
    ensures
        send_all(p, f.take(k)) == packet_prefix(p, f, n, k),
    decreases k,
{
    if k == 0 {
        assert(f.take(0) =~= Seq::<u8>::empty());
        assert(stored(p.packet, f.take(0)) =~= p.packet);
    } else {
        let j = k - 1;
        lemma_packet_prefix(p, f, n, j);
        lemma_send_all_step(p, f, j);
        lemma_stored_step(p.packet, f, j);
        let e = packet_prefix(p, f, n, j);
        if j == 5 {
            let pk = stored(p.packet, f.take(6));
            assert(pk[4] == f[4] && pk[5] == f[5]);
        }
        assert(e.send(f[j]) == packet_prefix(p, f, n, k));
    }
}

/// The byte that completes the checksum: the command runs when the checksum matches.
proof fn lemma_checksum_byte(q: PrinterModel, v: u8)
    requires
        q.state == 5,
        q.count < q.packet.len(),
    ensures
        ({
            let c = PrinterModel {
                packet: q.packet.update(q.count as int, v),
                count: (q.count + 1) as usize,
                printed: None,
                ..q
            };
            q.send(v) == (PrinterModel { state: 6, ..(if c.crc_ok() { c.command() } else { c }) })
        }),
{
}

/// The two answer bytes: 0x81, then the status, after which the printer is idle.
proof fn lemma_answer_bytes(q: PrinterModel, a: u8, b: u8)
    requires
        q.state == 6,
    ensures
        q.send(a).result == 0x81,
        q.send(a).send(b) == (PrinterModel {
            packet: q.send(a).send(b).packet,
            state: 0,
            count: 0,
            result: q.status,
            printed: None,
            ..q
        }),
{
}

/// A command changes neither the packet, the byte count nor the stage.
proof fn lemma_command_keeps(q: PrinterModel)
    ensures
        q.command().packet == q.packet,
        q.command().count == q.count,
        q.command().state == q.state,
        q.command().datasize == q.datasize,
        q.command().result == q.result,
        q.command().has_output == q.has_output,
{
}

/// A packet framed as the Game Boy sends it, from an idle printer: its command runs
/// exactly when the checksum matches, the printer answers 0x81 to the first answer
/// byte and its status to the second, and it is idle again after the packet.
pub proof fn lemma_packet_exchange(p: PrinterModel, cmd: u8, compression: u8, payload: Seq<u8>, crc: u16)
    requires
        p.wf(),
        p.state == 0,
        payload.len() <= 1016,
    ensures
        ({
            let f = packet_frame(cmd, compression, payload, crc);
            let n = payload.len() as int;
            let checked = PrinterModel {
                packet: stored(p.packet, f.take(n + 8)),
                count: (n + 8) as usize,
                state: 5,
                datasize: n as usize,
                printed: None,
                ..p
            };
            let r = if crc == packet_crc(cmd, compression, payload) { checked.command() } else { checked };
            &&& send_all(p, f.take(n + 8)).printed == r.printed
            &&& send_all(p, f.take(n + 9)).result == 0x81
            &&& send_all(p, f) == (PrinterModel {
                packet: stored(p.packet, f),
                state: 0,
                count: 0,
                result: r.status,
                printed: None,
                ..r
            })
        }),
{
    let f = packet_frame(cmd, compression, payload, crc);
    let n = payload.len() as int;
    assert(f[4] + f[5] * 256 == n);
    lemma_packet_prefix(p, f, n, n + 7);
    let e7 = packet_prefix(p, f, n, n + 7);
    let checked = PrinterModel {
        packet: stored(p.packet, f.take(n + 8)),
        count: (n + 8) as usize,
        state: 5,
        datasize: n as usize,
        printed: None,
        ..p
    };
    lemma_stored_step(p.packet, f, n + 7);
    assert(checked == (PrinterModel {
        packet: e7.packet.update(e7.count as int, f[n + 7]),
        count: (e7.count + 1) as usize,
        printed: None,
        ..e7
    }));
    lemma_checksum_byte(e7, f[n + 7]);
    let g = packet_frame(cmd, compression, payload, 0);
    lemma_byte_sum_agree(checked.packet, g, 2, 6 + n);
    assert(checked.packet[6 + n] == f[6 + n]);
    assert(checked.packet[7 + n] == f[7 + n]);
    assert(checked.crc_ok() == (crc == packet_crc(cmd, compression, payload)));
    let r = if crc == packet_crc(cmd, compression, payload) { checked.command() } else { checked };
    lemma_command_keeps(checked);
    lemma_send_all_step(p, f, n + 7);
    let e8 = send_all(p, f.take(n + 8));
    assert(e8 == (PrinterModel { state: 6, ..r }));
    lemma_send_all_step(p, f, n + 8);
    lemma_send_all_step(p, f, n + 9);
    lemma_answer_bytes(e8, f[n + 8], f[n + 9]);
    lemma_stored_step(p.packet, f, n + 8);
    lemma_stored_step(p.packet, f, n + 9);
    assert(f.take(n + 10) =~= f);
    assert(send_all(p, f).packet == stored(p.packet, f));
}

} // verus!
