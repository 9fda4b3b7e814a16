//! The four DMA channels' registers.
use vstd::prelude::*;

verus! {

/// When a DMA channel starts: the start-timing field of its control register.
#[derive(Debug, Clone, Copy, PartialEq, Eq, Structural)]
pub enum DmaTrigger {
    Immediate,
    VBlank,
    HBlank,
    Special,
}

/// The start-timing code of a trigger.
pub open spec fn trigger_code(t: DmaTrigger) -> u16 {
    match t {
        DmaTrigger::Immediate => 0,
        DmaTrigger::VBlank => 1,
        DmaTrigger::HBlank => 2,
        DmaTrigger::Special => 3,
    }
}

impl DmaTrigger {
    /// The start-timing code of the trigger.
    pub fn code(self) -> (c: u16)
        ensures
            c == trigger_code(self),
    {
        match self {
            DmaTrigger::Immediate => 0,
            DmaTrigger::VBlank => 1,
            DmaTrigger::HBlank => 2,
            DmaTrigger::Special => 3,
        }
    }
}

/// One DMA channel.
#[derive(Debug, Clone, Copy, PartialEq, Eq, Structural)]
pub struct DmaChannel {
    /// The source address register.
    pub source_addr: u32,
    /// The destination address register.
    pub dest_addr: u32,
    /// The source address of the running transfer.
    pub current_source: u32,
    /// The destination address of the running transfer.
    pub current_dest: u32,
    /// The source address latched at enable.
    pub shadow_source: u32,
    /// The destination address latched at enable.
    pub shadow_dest: u32,
    /// The transfer count register.
    pub count: u32,
    /// The count latched at enable, for repeats.
    pub shadow_count: u32,
    /// The control register.
    pub control: u16,
    /// Whether the channel is enabled.
    pub enabled: bool,
}

impl DmaChannel {
    pub open spec fn spec_zero() -> DmaChannel {
        DmaChannel {
            source_addr: 0,
            dest_addr: 0,
            current_source: 0,
            current_dest: 0,
            shadow_source: 0,
            shadow_dest: 0,
            count: 0,
            shadow_count: 0,
            control: 0,
            enabled: false,
        }
    }
}

impl Default for DmaChannel {
    /// A disabled channel with every register zero.
    fn default() -> (c: Self)
        ensures
            c == DmaChannel::spec_zero(),
    {
        DmaChannel {
            source_addr: 0,
            dest_addr: 0,
            current_source: 0,
            current_dest: 0,
            shadow_source: 0,
            shadow_dest: 0,
            count: 0,
            shadow_count: 0,
            control: 0,
            enabled: false,
        }
    }
}

/// The four DMA channels.
#[derive(Debug, Clone)]
pub struct DmaController {
    pub channels: [DmaChannel; 4],
}

impl DmaController {
    /// Four disabled channels.
    pub fn new() -> (d: Self)
        ensures
            d.channels@ == Seq::new(4, |i: int| DmaChannel::spec_zero()),
    {
        let d = DmaController {
            channels: [DmaChannel::default(), DmaChannel::default(), DmaChannel::default(), DmaChannel::default()],
        };
        assert(d.channels@ =~= Seq::new(4, |i: int| DmaChannel::spec_zero()));
        d
    }
}

} // verus!
