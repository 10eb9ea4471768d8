//! Self-test of the PL230 DMA controller: a memory-to-memory transfer of a
//! pseudo-random pattern on channel 0.
//!
//! The steps to take are computed here; whoever drives the hardware carries
//! them out in order and hands back what it reads.
use vstd::prelude::*;
use crate::lfsr::lfsr_next;
use crate::lfsr;

verus! {

/// Words in a transfer of the self-test.
pub const DMA_LEN: usize = 16;

/// First word of the pattern.
pub const PATTERN_SEED: u32 = 0x1111_1111;

/// Words in the channel control area: four per entry, eight channels, and a
/// primary and an alternate entry for each.
pub const CONTROL_AREA_WORDS: usize = 64;

/// How many times progress is reported before the wait is given up.
pub const POLL_LIMIT: u32 = 16;

/// Field code for 32-bit transfers and for address steps of four bytes.
pub const WIDTH_WORD: u32 = 2;

/// Arbitration after two to the power of this many transfers.
pub const R_POWER_1024: u32 = 10;

/// Cycle type of a channel that has nothing left to do.
pub const CYCLE_STOP: u32 = 0;

/// Cycle type of a software-triggered transfer that runs to its end.
pub const CYCLE_AUTO_REQUEST: u32 = 2;

/// The fields of a channel control word.
pub struct ControlFields {
    pub cycle_ctrl: u32,
    pub next_useburst: u32,
    pub n_minus_1: u32,
    pub r_power: u32,
    pub src_prot_ctrl: u32,
    pub dst_prot_ctrl: u32,
    pub src_size: u32,
    pub src_inc: u32,
    pub dst_size: u32,
    pub dst_inc: u32,
}

/// The control word of a channel, laid out as the controller reads it.
#[derive(Clone, Copy, Debug, PartialEq, Eq)]
pub struct DmaChanControl(pub u32);

impl View for DmaChanControl {
    type V = ControlFields;

    open spec fn view(&self) -> ControlFields {
        control_fields(self.0)
    }
}

/// Where each field lies in the word: the cycle type at the bottom, then the
/// burst flag, the transfer count, the arbitration rate, the two protection
/// fields, and the four two-bit size and step fields at the top.
pub open spec fn control_fields(word: u32) -> ControlFields {
    ControlFields {
        cycle_ctrl: word & 7,
        next_useburst: (word >> 3) & 1,
        n_minus_1: (word >> 4) & 0x3ff,
        r_power: (word >> 14) & 0xf,
        src_prot_ctrl: (word >> 18) & 7,
        dst_prot_ctrl: (word >> 21) & 7,
        src_size: (word >> 24) & 3,
        src_inc: (word >> 26) & 3,
        dst_size: (word >> 28) & 3,
        dst_inc: (word >> 30) & 3,
    }
}

impl DmaChanControl {
    /// The cycle type of the channel.
    pub fn cycle_ctrl(&self) -> (value: u32)
        ensures
            value == self@.cycle_ctrl,
            value as int == self.0 as int % 8,
    {
        let word: u32 = self.0;
        assert(word & 7 == word % 8) by (bit_vector);
        self.0 & 7
    }

    /// Replaces the cycle type with the low bits of `value`.
    pub fn set_cycle_ctrl(&mut self, value: u32)
        ensures
            final(self)@ == (ControlFields { cycle_ctrl: value & 7, ..old(self)@ }),
            value <= 7 ==> final(self)@.cycle_ctrl == value,
    {
        let word: u32 = self.0;
        let updated: u32 = (word & !7u32) | (value & 7);
        assert((value <= 7 ==> value & 7 == value)
            && updated & 7 == value & 7
            && (updated >> 3) & 1 == (word >> 3) & 1
            && (updated >> 4) & 0x3ff == (word >> 4) & 0x3ff
            && (updated >> 14) & 0xf == (word >> 14) & 0xf
            && (updated >> 18) & 7 == (word >> 18) & 7
            && (updated >> 21) & 7 == (word >> 21) & 7
            && (updated >> 24) & 3 == (word >> 24) & 3
            && (updated >> 26) & 3 == (word >> 26) & 3
            && (updated >> 28) & 3 == (word >> 28) & 3
            && (updated >> 30) & 3 == (word >> 30) & 3) by (bit_vector)
            requires
                updated == (word & !7u32) | (value & 7),
        ;
        self.0 = updated;
    }

    /// Replaces the number of transfers, less one with the low bits of `value`.
    pub fn set_n_minus_1(&mut self, value: u32)
        ensures
            final(self)@ == (ControlFields { n_minus_1: value & 0x3ff, ..old(self)@ }),
            value <= 0x3ff ==> final(self)@.n_minus_1 == value,
    {
        let word: u32 = self.0;
        let updated: u32 = (word & !(0x3ffu32 << 4)) | ((value & 0x3ff) << 4);
        assert((value <= 0x3ff ==> value & 0x3ff == value)
            && (updated >> 4) & 0x3ff == value & 0x3ff
            && updated & 7 == word & 7
            && (updated >> 3) & 1 == (word >> 3) & 1
            && (updated >> 14) & 0xf == (word >> 14) & 0xf
            && (updated >> 18) & 7 == (word >> 18) & 7
            && (updated >> 21) & 7 == (word >> 21) & 7
            && (updated >> 24) & 3 == (word >> 24) & 3
            && (updated >> 26) & 3 == (word >> 26) & 3
            && (updated >> 28) & 3 == (word >> 28) & 3
            && (updated >> 30) & 3 == (word >> 30) & 3) by (bit_vector)
            requires
                updated == (word & !(0x3ffu32 << 4)) | ((value & 0x3ff) << 4),
        ;
        self.0 = updated;
    }

    /// Replaces the arbitration rate with the low bits of `value`.
    pub fn set_r_power(&mut self, value: u32)
        ensures
            final(self)@ == (ControlFields { r_power: value & 0xf, ..old(self)@ }),
            value <= 0xf ==> final(self)@.r_power == value,
    {
        let word: u32 = self.0;
        let updated: u32 = (word & !(0xfu32 << 14)) | ((value & 0xf) << 14);
        assert((value <= 0xf ==> value & 0xf == value)
            && (updated >> 14) & 0xf == value & 0xf
            && updated & 7 == word & 7
            && (updated >> 3) & 1 == (word >> 3) & 1
            && (updated >> 4) & 0x3ff == (word >> 4) & 0x3ff
            && (updated >> 18) & 7 == (word >> 18) & 7
            && (updated >> 21) & 7 == (word >> 21) & 7
            && (updated >> 24) & 3 == (word >> 24) & 3
            && (updated >> 26) & 3 == (word >> 26) & 3
            && (updated >> 28) & 3 == (word >> 28) & 3
            && (updated >> 30) & 3 == (word >> 30) & 3) by (bit_vector)
            requires
                updated == (word & !(0xfu32 << 14)) | ((value & 0xf) << 14),
        ;
        self.0 = updated;
    }

    /// Replaces the width of source reads with the low bits of `value`.
    pub fn set_src_size(&mut self, value: u32)
        ensures
            final(self)@ == (ControlFields { src_size: value & 3, ..old(self)@ }),
            value <= 3 ==> final(self)@.src_size == value,
    {
        let word: u32 = self.0;
        let updated: u32 = (word & !(3u32 << 24)) | ((value & 3) << 24);
        assert((value <= 3 ==> value & 3 == value)
            && (updated >> 24) & 3 == value & 3
            && updated & 7 == word & 7
            && (updated >> 3) & 1 == (word >> 3) & 1
            && (updated >> 4) & 0x3ff == (word >> 4) & 0x3ff
            && (updated >> 14) & 0xf == (word >> 14) & 0xf
            && (updated >> 18) & 7 == (word >> 18) & 7
            && (updated >> 21) & 7 == (word >> 21) & 7
            && (updated >> 26) & 3 == (word >> 26) & 3
            && (updated >> 28) & 3 == (word >> 28) & 3
            && (updated >> 30) & 3 == (word >> 30) & 3) by (bit_vector)
            requires
                updated == (word & !(3u32 << 24)) | ((value & 3) << 24),
        ;
        self.0 = updated;
    }

    /// Replaces the step of the source address with the low bits of `value`.
    pub fn set_src_inc(&mut self, value: u32)
        ensures
            final(self)@ == (ControlFields { src_inc: value & 3, ..old(self)@ }),
            value <= 3 ==> final(self)@.src_inc == value,
    {
        let word: u32 = self.0;
        let updated: u32 = (word & !(3u32 << 26)) | ((value & 3) << 26);
        assert((value <= 3 ==> value & 3 == value)
            && (updated >> 26) & 3 == value & 3
            && updated & 7 == word & 7
            && (updated >> 3) & 1 == (word >> 3) & 1
            && (updated >> 4) & 0x3ff == (word >> 4) & 0x3ff
            && (updated >> 14) & 0xf == (word >> 14) & 0xf
            && (updated >> 18) & 7 == (word >> 18) & 7
            && (updated >> 21) & 7 == (word >> 21) & 7
            && (updated >> 24) & 3 == (word >> 24) & 3
            && (updated >> 28) & 3 == (word >> 28) & 3
            && (updated >> 30) & 3 == (word >> 30) & 3) by (bit_vector)
            requires
                updated == (word & !(3u32 << 26)) | ((value & 3) << 26),
        ;
        self.0 = updated;
    }

    /// Replaces the width of destination writes with the low bits of `value`.
    pub fn set_dst_size(&mut self, value: u32)
        ensures
            final(self)@ == (ControlFields { dst_size: value & 3, ..old(self)@ }),
            value <= 3 ==> final(self)@.dst_size == value,
    {
        let word: u32 = self.0;
        let updated: u32 = (word & !(3u32 << 28)) | ((value & 3) << 28);
        assert((value <= 3 ==> value & 3 == value)
            && (updated >> 28) & 3 == value & 3
            && updated & 7 == word & 7
            && (updated >> 3) & 1 == (word >> 3) & 1
            && (updated >> 4) & 0x3ff == (word >> 4) & 0x3ff
            && (updated >> 14) & 0xf == (word >> 14) & 0xf
            && (updated >> 18) & 7 == (word >> 18) & 7
            && (updated >> 21) & 7 == (word >> 21) & 7
            && (updated >> 24) & 3 == (word >> 24) & 3
            && (updated >> 26) & 3 == (word >> 26) & 3
            && (updated >> 30) & 3 == (word >> 30) & 3) by (bit_vector)
            requires
                updated == (word & !(3u32 << 28)) | ((value & 3) << 28),
        ;
        self.0 = updated;
    }

    /// Replaces the step of the destination address with the low bits of `value`.
    pub fn set_dst_inc(&mut self, value: u32)
        ensures
            final(self)@ == (ControlFields { dst_inc: value & 3, ..old(self)@ }),
            value <= 3 ==> final(self)@.dst_inc == value,
    {
        let word: u32 = self.0;
        let updated: u32 = (word & !(3u32 << 30)) | ((value & 3) << 30);
        assert((value <= 3 ==> value & 3 == value)
            && (updated >> 30) & 3 == value & 3
            && updated & 7 == word & 7
            && (updated >> 3) & 1 == (word >> 3) & 1
            && (updated >> 4) & 0x3ff == (word >> 4) & 0x3ff
            && (updated >> 14) & 0xf == (word >> 14) & 0xf
            && (updated >> 18) & 7 == (word >> 18) & 7
            && (updated >> 21) & 7 == (word >> 21) & 7
            && (updated >> 24) & 3 == (word >> 24) & 3
            && (updated >> 26) & 3 == (word >> 26) & 3
            && (updated >> 28) & 3 == (word >> 28) & 3) by (bit_vector)
            requires
                updated == (word & !(3u32 << 30)) | ((value & 3) << 30),
        ;
        self.0 = updated;
    }
}

/// What a reported number stands for.
#[derive(Clone, Copy, Debug, PartialEq, Eq)]
pub enum Label {
    Channels,
    BasePointer,
    SourceStart,
    DestinationStart,
    Progress,
    ErrorIndex,
    ErrorSource,
    ErrorDestination,
    Verdict,
}

/// The text that a number is reported under.
pub open spec fn label_text(label: Label) -> Seq<char> {
    match label {
        Label::Channels => "channels"@,
        Label::BasePointer => "baseptr"@,
        Label::SourceStart => "src start"@,
        Label::DestinationStart => "dst start"@,
        Label::Progress => "progress as baseptr[2]"@,
        Label::ErrorIndex => "error in iter "@,
        Label::ErrorSource => "src: "@,
        Label::ErrorDestination => "dst: "@,
        Label::Verdict => "basic dma result (1=pass)"@,
    }
}

impl Label {
    /// The text that the number is reported under.
    pub fn text(&self) -> (text: &'static str)
        ensures
            text@ == label_text(*self),
    {
        match self {
            Label::Channels => "channels",
            Label::BasePointer => "baseptr",
            Label::SourceStart => "src start",
            Label::DestinationStart => "dst start",
            Label::Progress => "progress as baseptr[2]",
            Label::ErrorIndex => "error in iter ",
            Label::ErrorSource => "src: ",
            Label::ErrorDestination => "dst: ",
            Label::Verdict => "basic dma result (1=pass)",
        }
    }
}

/// The controller registers that the self-test writes.
#[derive(Clone, Copy, Debug, PartialEq, Eq)]
pub enum DmaRegister {
    /// The enable bit of the controller as a whole.
    MasterEnable,
    /// Address of the channel control area.
    ControlBasePointer,
    /// Channels whose peripheral requests are masked.
    RequestMaskSet,
    /// Channels that are switched on.
    EnableSet,
    /// Channels that get a software request.
    SoftwareRequest,
}

/// One step of the self-test.
#[derive(Clone, Copy, Debug, PartialEq, Eq)]
pub enum DmaStep {
    /// Report a number.
    Report { label: Label, value: u32 },
    /// Write zero to this many words of the channel control area.
    ClearControlArea { words: usize },
    /// Write a register.
    Write { register: DmaRegister, value: u32 },
    /// Fill the source and the destination region with these words.
    FillRegions { source: [u32; 16], destination: [u32; 16] },
    /// Write the primary control entry of channel 0.
    SetChannel { dst_end_ptr: u32, src_end_ptr: u32, control: u32 },
    /// Read the control word of channel 0, and report it with [`progress_report`].
    ReportProgress,
    /// Make what the controller wrote to memory visible to the processor.
    FlushCache,
}

/// Where the control area and the two regions lie.
#[derive(Clone, Copy, Debug, PartialEq, Eq)]
pub struct Placement {
    pub base_ptr: u32,
    pub src_start: u32,
    pub dst_start: u32,
}

/// Address of the last word of a region of `DMA_LEN` words.
pub open spec fn last_word(start: u32) -> int {
    start + 4 * (DMA_LEN - 1)
}

impl Placement {
    /// Both regions end within the address space.
    pub open spec fn fits(&self) -> bool {
        &&& last_word(self.src_start) <= u32::MAX
        &&& last_word(self.dst_start) <= u32::MAX
    }
}

/// What the channel is asked to do: one auto-request cycle over `DMA_LEN`
/// words, both addresses going up word by word, with no arbitration before the
/// end.
pub open spec fn transfer_fields() -> ControlFields {
    ControlFields {
        cycle_ctrl: CYCLE_AUTO_REQUEST,
        next_useburst: 0,
        n_minus_1: (DMA_LEN - 1) as u32,
        r_power: R_POWER_1024,
        src_prot_ctrl: 0,
        dst_prot_ctrl: 0,
        src_size: WIDTH_WORD,
        src_inc: WIDTH_WORD,
        dst_size: WIDTH_WORD,
        dst_inc: WIDTH_WORD,
    }
}

/// The control word of the transfer.
pub const TRANSFER_CONTROL: u32 = 0xaa02_80f2;

/// Builds the control word of the transfer.
pub fn transfer_control() -> (control: DmaChanControl)
    ensures
        control@ == transfer_fields(),
        control.0 == TRANSFER_CONTROL,
        control.0 == 0xaa02_80f2,
{
    let mut cc = DmaChanControl(0);
    proof {
        lemma_zero_fields();
    }
    cc.set_src_size(WIDTH_WORD);
    cc.set_src_inc(WIDTH_WORD);
    cc.set_dst_size(WIDTH_WORD);
    cc.set_dst_inc(WIDTH_WORD);
    cc.set_r_power(R_POWER_1024);
    cc.set_n_minus_1(DMA_LEN as u32 - 1);
    cc.set_cycle_ctrl(CYCLE_AUTO_REQUEST);
    proof {
        assert(2u32 & 3 == 2 && 10u32 & 0xf == 10 && 15u32 & 0x3ff == 15 && 2u32 & 7 == 2)
            by (bit_vector);
        lemma_transfer_word();
        law_fields_determine_word(cc, DmaChanControl(TRANSFER_CONTROL));
    }
    cc
}

proof fn lemma_zero_fields()
    ensures
        control_fields(0) == (ControlFields {
            cycle_ctrl: 0,
            next_useburst: 0,
            n_minus_1: 0,
            r_power: 0,
            src_prot_ctrl: 0,
            dst_prot_ctrl: 0,
            src_size: 0,
            src_inc: 0,
            dst_size: 0,
            dst_inc: 0,
        }),
{
    assert(forall|s: u32, m: u32| s < 32 ==> #[trigger] ((0u32 >> s) & m) == 0) by (bit_vector);
    assert(0u32 & 7 == 0) by (bit_vector);
}

proof fn lemma_transfer_word()
    ensures
        control_fields(TRANSFER_CONTROL) == transfer_fields(),
{
    assert(0xaa02_80f2u32 & 7 == 2 && (0xaa02_80f2u32 >> 3) & 1 == 0 && (0xaa02_80f2u32 >> 4)
        & 0x3ff == 15 && (0xaa02_80f2u32 >> 14) & 0xf == 10 && (0xaa02_80f2u32 >> 18) & 7 == 0 && (
    0xaa02_80f2u32 >> 21) & 7 == 0 && (0xaa02_80f2u32 >> 24) & 3 == 2 && (0xaa02_80f2u32 >> 26)
        & 3 == 2 && (0xaa02_80f2u32 >> 28) & 3 == 2 && (0xaa02_80f2u32 >> 30) & 3 == 2)
        by (bit_vector);
}

/// The fields cover the whole word: two control words with equal fields are equal.
pub proof fn law_fields_determine_word(a: DmaChanControl, b: DmaChanControl)
    requires
        a@ == b@,
    ensures
        a == b,
{
    let x = a.0;
    let y = b.0;
    assert(x == y) by (bit_vector)
        requires
            x & 7 == y & 7,
            (x >> 3) & 1 == (y >> 3) & 1,
            (x >> 4) & 0x3ff == (y >> 4) & 0x3ff,
            (x >> 14) & 0xf == (y >> 14) & 0xf,
            (x >> 18) & 7 == (y >> 18) & 7,
            (x >> 21) & 7 == (y >> 21) & 7,
            (x >> 24) & 3 == (y >> 24) & 3,
            (x >> 26) & 3 == (y >> 26) & 3,
            (x >> 28) & 3 == (y >> 28) & 3,
            (x >> 30) & 3 == (y >> 30) & 3,
    ;
}

/// The pattern that the source region is filled with.
pub open spec fn test_pattern() -> Seq<u32> {
    lfsr::pattern(PATTERN_SEED, DMA_LEN as nat)
}

/// Makes the pattern that the source region is filled with.
pub fn source_pattern() -> (region: [u32; 16])
    ensures
        region@ == test_pattern(),
{
    let mut region: [u32; 16] = [0u32; 16];
    let mut state: u32 = PATTERN_SEED;
    let mut i: usize = 0;
    while i < DMA_LEN
        invariant
            i <= DMA_LEN,
            state == lfsr::state_after(PATTERN_SEED, i as nat),
            forall|j: int|
                0 <= j < i ==> #[trigger] region@[j] == lfsr::state_after(PATTERN_SEED, j as nat),
        decreases DMA_LEN - i,
    {
        region[i] = state;
        state = lfsr_next(state);
        i = i + 1;
    }
    region
}

/// How far the self-test has come.
#[derive(Clone, Copy, Debug, PartialEq, Eq)]
pub enum TestPhase {
    /// Waiting for the channel, having reported progress `timeout` times.
    Polling { timeout: u32 },
    /// The wait is over; the regions are to be compared.
    Comparing,
}

/// A run of the self-test.
pub struct BasicTests {
    pub phase: TestPhase,
}

/// A destination region that nothing has been transferred to.
pub open spec fn blank_region() -> Seq<u32> {
    Seq::new(DMA_LEN as nat, |i: int| 0)
}

/// The steps that set the controller up and start the transfer, where `fill` is
/// the one that fills the regions.
pub open spec fn setup_steps(channels_minus_1: u32, at: Placement, fill: DmaStep) -> Seq<DmaStep> {
    seq![
        DmaStep::Report { label: Label::Channels, value: (channels_minus_1 + 1) as u32 },
        DmaStep::ClearControlArea { words: CONTROL_AREA_WORDS },
        DmaStep::Write { register: DmaRegister::MasterEnable, value: 1 },
        fill,
        DmaStep::SetChannel {
            dst_end_ptr: last_word(at.dst_start) as u32,
            src_end_ptr: last_word(at.src_start) as u32,
            control: TRANSFER_CONTROL,
        },
        DmaStep::Write { register: DmaRegister::ControlBasePointer, value: at.base_ptr },
        DmaStep::Write { register: DmaRegister::RequestMaskSet, value: 1 },
        DmaStep::Write { register: DmaRegister::EnableSet, value: 1 },
        DmaStep::Report { label: Label::BasePointer, value: at.base_ptr },
        DmaStep::Report { label: Label::SourceStart, value: at.src_start },
        DmaStep::Report { label: Label::DestinationStart, value: at.dst_start },
        DmaStep::Write { register: DmaRegister::SoftwareRequest, value: 1 },
    ]
}

/// The reports on the words from `from` on at which the regions differ.
pub open spec fn mismatch_reports(src: Seq<u32>, dst: Seq<u32>, from: int) -> Seq<DmaStep>
    decreases src.len() - from,
{
    if from >= src.len() {
        Seq::empty()
    } else if src[from] != dst[from] {
        seq![
            DmaStep::Report { label: Label::ErrorIndex, value: from as u32 },
            DmaStep::Report { label: Label::ErrorSource, value: src[from] },
            DmaStep::Report { label: Label::ErrorDestination, value: dst[from] },
        ] + mismatch_reports(src, dst, from + 1)
    } else {
        mismatch_reports(src, dst, from + 1)
    }
}

/// Starts the self-test: gives the steps that set up the controller, whose
/// status register holds `channels_minus_1`, and kick off the transfer.
pub fn basic_tests(channels_minus_1: u32, at: Placement) -> (started: (BasicTests, Vec<DmaStep>))
    requires
        channels_minus_1 < u32::MAX,
        at.fits(),
    ensures
        started.0.phase == (TestPhase::Polling { timeout: 0 }),
        started.1@.len() > 3,
        started.1@[3] matches DmaStep::FillRegions { source, destination } && source@
            == test_pattern() && destination@ == blank_region(),
        started.1@ == setup_steps(channels_minus_1, at, started.1@[3]),
{
    let control = transfer_control();
    let span: u32 = 4 * (DMA_LEN as u32 - 1);
    let mut steps: Vec<DmaStep> = Vec::new();
    steps.push(DmaStep::Report { label: Label::Channels, value: channels_minus_1 + 1 });
    steps.push(DmaStep::ClearControlArea { words: CONTROL_AREA_WORDS });
    steps.push(DmaStep::Write { register: DmaRegister::MasterEnable, value: 1 });
    let source: [u32; 16] = source_pattern();
    let destination: [u32; 16] = [0u32; 16];
    assert(destination@ =~= blank_region());
    steps.push(DmaStep::FillRegions { source, destination });
    steps.push(
        DmaStep::SetChannel {
            dst_end_ptr: at.dst_start + span,
            src_end_ptr: at.src_start + span,
            control: control.0,
        },
    );
    steps.push(
        DmaStep::Write { register: DmaRegister::ControlBasePointer, value: at.base_ptr },
    );
    steps.push(DmaStep::Write { register: DmaRegister::RequestMaskSet, value: 1 });
    steps.push(DmaStep::Write { register: DmaRegister::EnableSet, value: 1 });
    steps.push(DmaStep::Report { label: Label::BasePointer, value: at.base_ptr });
    steps.push(DmaStep::Report { label: Label::SourceStart, value: at.src_start });
    steps.push(DmaStep::Report { label: Label::DestinationStart, value: at.dst_start });
    steps.push(DmaStep::Write { register: DmaRegister::SoftwareRequest, value: 1 });
    (BasicTests { phase: TestPhase::Polling { timeout: 0 } }, steps)
}

/// The report of progress, on the control word that channel 0 holds now.
pub fn progress_report(control: u32) -> (step: DmaStep)
    ensures
        step == (DmaStep::Report { label: Label::Progress, value: control }),
{
    DmaStep::Report { label: Label::Progress, value: control }
}

impl BasicTests {
    /// Decides, on the control word that channel 0 holds now, whether to report
    /// progress and wait on or to go and compare the regions. Waiting ends when
    /// the controller has put the cycle type back to stop, or when progress has
    /// been reported `POLL_LIMIT` times.
    pub fn poll(&mut self, control: u32) -> (step: DmaStep)
        requires
            old(self).phase is Polling,
        ensures
            keeps_waiting(old(self).phase->timeout, control) ==> {
                &&& step == DmaStep::ReportProgress
                &&& final(self).phase == (TestPhase::Polling {
                    timeout: (old(self).phase->timeout + 1) as u32,
                })
            },
            !keeps_waiting(old(self).phase->timeout, control) ==> {
                &&& step == DmaStep::FlushCache
                &&& final(self).phase == TestPhase::Comparing
            },
    {
        match self.phase {
            TestPhase::Polling { timeout } => {
                if DmaChanControl(control).cycle_ctrl() != CYCLE_STOP && timeout < POLL_LIMIT {
                    self.phase = TestPhase::Polling { timeout: timeout + 1 };
                    DmaStep::ReportProgress
                } else {
                    self.phase = TestPhase::Comparing;
                    DmaStep::FlushCache
                }
            },
            TestPhase::Comparing => DmaStep::FlushCache,
        }
    }

    /// Compares the regions word by word, reports every difference and then the
    /// verdict, and returns the verdict.
    pub fn finish(&self, src: &[u32; 16], dst: &[u32; 16]) -> (outcome: (Vec<DmaStep>, bool))
        requires
            self.phase is Comparing,
        ensures
            outcome.1 == (src@ == dst@),
            outcome.0@ == mismatch_reports(src@, dst@, 0).push(
                DmaStep::Report { label: Label::Verdict, value: if outcome.1 { 1 } else { 0 } },
            ),
    {
        let mut steps: Vec<DmaStep> = Vec::new();
        let mut passing = true;
        let mut i: usize = 0;
        while i < DMA_LEN
            invariant
                i <= DMA_LEN,
                src@.len() == DMA_LEN,
                dst@.len() == DMA_LEN,
                passing == (forall|j: int| 0 <= j < i ==> src@[j] == #[trigger] dst@[j]),
                steps@ + mismatch_reports(src@, dst@, i as int) == mismatch_reports(src@, dst@, 0),
            decreases DMA_LEN - i,
        {
            let ghost before = steps@;
            if src[i] != dst[i] {
                steps.push(DmaStep::Report { label: Label::ErrorIndex, value: i as u32 });
                steps.push(DmaStep::Report { label: Label::ErrorSource, value: src[i] });
                steps.push(DmaStep::Report { label: Label::ErrorDestination, value: dst[i] });
                passing = false;
                assert(steps@ + mismatch_reports(src@, dst@, i + 1) =~= before + mismatch_reports(
                    src@,
                    dst@,
                    i as int,
                ));
            }
            i = i + 1;
        }
        assert(steps@ =~= steps@ + mismatch_reports(src@, dst@, i as int));
        assert(passing == (src@ == dst@)) by {
            if passing {
                assert(src@ =~= dst@);
            }
        }
        steps.push(
            DmaStep::Report { label: Label::Verdict, value: if passing { 1 } else { 0 } },
        );
        (steps, passing)
    }
}

/// Whether a control word says that the channel is still at work, with the
/// patience for it not used up.
pub open spec fn keeps_waiting(timeout: u32, control: u32) -> bool {
    control_fields(control).cycle_ctrl != CYCLE_STOP && timeout < POLL_LIMIT
}

/// How often progress is reported when the control word reads as `words`, one
/// reading after the other, starting from `timeout` reports.
pub open spec fn reports_while_waiting(words: Seq<u32>, timeout: u32) -> nat
    decreases words.len(),
{
    if words.len() > 0 && keeps_waiting(timeout, words[0]) {
        1 + reports_while_waiting(words.skip(1), (timeout + 1) as u32)
    } else {
        0
    }
}

/// Whatever the controller does, the wait ends: progress is reported at most
/// `POLL_LIMIT` times, and exactly as often as the channel was seen at work if
/// that is no more than that.
pub proof fn law_wait_is_bounded(words: Seq<u32>, timeout: u32)
    requires
        timeout <= POLL_LIMIT,
    ensures
        reports_while_waiting(words, timeout) <= POLL_LIMIT - timeout,
        reports_while_waiting(words, timeout) <= words.len(),
        forall|i: int|
            0 <= i < reports_while_waiting(words, timeout) ==> control_fields(
                #[trigger] words[i],
            ).cycle_ctrl != CYCLE_STOP,
        ({
            let n = reports_while_waiting(words, timeout) as int;
            n < words.len() ==> n == POLL_LIMIT - timeout || control_fields(words[n]).cycle_ctrl
                == CYCLE_STOP
        }),
    decreases words.len(),
{
    if words.len() > 0 && keeps_waiting(timeout, words[0]) {
        let rest = words.skip(1);
        let next = (timeout + 1) as u32;
        law_wait_is_bounded(rest, next);
        let n = reports_while_waiting(words, timeout) as int;
        assert forall|i: int| 0 <= i < n implies control_fields(
            #[trigger] words[i],
        ).cycle_ctrl != CYCLE_STOP by {
            if i > 0 {
                assert(words[i] == rest[i - 1]);
            }
        }
        if n < words.len() {
            assert(words[n] == rest[n - 1]);
        }
    }
}

/// A destination that nothing was written to differs from the source in every
/// word, so a transfer that did not happen never passes by chance.
pub proof fn law_untouched_destination_is_caught()
    ensures
        forall|i: int| 0 <= i < DMA_LEN ==> #[trigger] test_pattern()[i] != blank_region()[i],
        mismatch_reports(test_pattern(), blank_region(), 0).len() == 3 * DMA_LEN,
        test_pattern() != blank_region(),
{
    let dst = blank_region();
    assert forall|i: int| 0 <= i < DMA_LEN implies #[trigger] test_pattern()[i] != dst[i] by {
        lfsr::law_zero_is_isolated(PATTERN_SEED, i as nat);
    }
    lemma_mismatch_count(test_pattern(), dst, 0);
    assert(test_pattern()[0] != dst[0]);
}

proof fn lemma_mismatch_count(src: Seq<u32>, dst: Seq<u32>, from: int)
    requires
        0 <= from <= src.len(),
        forall|i: int| from <= i < src.len() ==> #[trigger] src[i] != dst[i],
    ensures
        mismatch_reports(src, dst, from).len() == 3 * (src.len() - from),
    decreases src.len() - from,
{
    if from < src.len() {
        lemma_mismatch_count(src, dst, from + 1);
    }
}

/// Equal regions give no report but the verdict, and unequal ones always give
/// at least one more.
pub proof fn law_silent_if_and_only_if_equal(src: Seq<u32>, dst: Seq<u32>)
    requires
        src.len() == dst.len(),
    ensures
        mismatch_reports(src, dst, 0).len() == 0 <==> src == dst,
{
    lemma_silent_from(src, dst, 0);
    if mismatch_reports(src, dst, 0).len() == 0 {
        assert(src =~= dst);
    }
}

proof fn lemma_silent_from(src: Seq<u32>, dst: Seq<u32>, from: int)
    requires
        0 <= from <= src.len(),
    ensures
        mismatch_reports(src, dst, from).len() == 0 <==> (forall|i: int|
            from <= i < src.len() ==> #[trigger] src[i] == dst[i]),
    decreases src.len() - from,
{
    if from < src.len() {
        lemma_silent_from(src, dst, from + 1);
        if forall|i: int| from + 1 <= i < src.len() ==> #[trigger] src[i] == dst[i] {
            if src[from] == dst[from] {
                assert forall|i: int| from <= i < src.len() implies #[trigger] src[i] == dst[i] by {}
            }
        }
    }
}

/// In numbers: the word is the sum of its fields, each times the value of its
/// place, and no field reaches the place of the next.
pub proof fn law_control_word_in_numbers(control: DmaChanControl)
    ensures
        control.0 as int == control@.cycle_ctrl + 0x8 * control@.next_useburst + 0x10
            * control@.n_minus_1 + 0x4000 * control@.r_power + 0x4_0000 * control@.src_prot_ctrl
            + 0x20_0000 * control@.dst_prot_ctrl + 0x100_0000 * control@.src_size + 0x400_0000
            * control@.src_inc + 0x1000_0000 * control@.dst_size + 0x4000_0000 * control@.dst_inc,
        control@.cycle_ctrl < 8,
        control@.next_useburst < 2,
        control@.n_minus_1 < 1024,
        control@.r_power < 16,
        control@.src_prot_ctrl < 8,
        control@.dst_prot_ctrl < 8,
        control@.src_size < 4,
        control@.src_inc < 4,
        control@.dst_size < 4,
        control@.dst_inc < 4,
{
    let word = control.0;
    assert(word == (word & 7) + 0x8 * ((word >> 3) & 1) + 0x10 * ((word >> 4) & 0x3ff) + 0x4000 * ((
    word >> 14) & 0xf) + 0x4_0000 * ((word >> 18) & 7) + 0x20_0000 * ((word >> 21) & 7) + 0x100_0000
        * ((word >> 24) & 3) + 0x400_0000 * ((word >> 26) & 3) + 0x1000_0000 * ((word >> 28) & 3)
        + 0x4000_0000 * ((word >> 30) & 3)) by (bit_vector);
    assert((word & 7) < 8 && ((word >> 3) & 1) < 2 && ((word >> 4) & 0x3ff) < 1024 && ((word >> 14)
        & 0xf) < 16 && ((word >> 18) & 7) < 8 && ((word >> 21) & 7) < 8 && ((word >> 24) & 3) < 4
        && ((word >> 26) & 3) < 4 && ((word >> 28) & 3) < 4 && ((word >> 30) & 3) < 4)
        by (bit_vector);
}

/// The channel is asked for sixteen words, read and written as words, with both
/// addresses going up by words, in one auto-request cycle with the longest run
/// between arbitrations, and for nothing else.
pub proof fn law_transfer_fields()
    ensures
        transfer_fields().cycle_ctrl == 2,
        transfer_fields().n_minus_1 + 1 == 16,
        transfer_fields().r_power == 10,
        transfer_fields().src_size == 2,
        transfer_fields().src_inc == 2,
        transfer_fields().dst_size == 2,
        transfer_fields().dst_inc == 2,
        transfer_fields().next_useburst == 0,
        transfer_fields().src_prot_ctrl == 0,
        transfer_fields().dst_prot_ctrl == 0,
        control_fields(0xaa02_80f2) == transfer_fields(),
{
    lemma_transfer_word();
}

/// The end pointers of the channel are the addresses of the last words of the
/// two regions, fifteen words past their starts, so that the sixteen words that
/// end there are the regions themselves. The controller is told of the control
/// area that was cleared, and what is reported of the hardware and the placement
/// is what it is. The transfer is requested last, when all else is set.
pub proof fn law_setup_of_the_transfer(channels_minus_1: u32, at: Placement, fill: DmaStep)
    requires
        channels_minus_1 < u32::MAX,
    ensures
        at.fits() <==> at.src_start + 60 <= u32::MAX && at.dst_start + 60 <= u32::MAX,
        at.src_start + 60 <= u32::MAX && at.dst_start + 60 <= u32::MAX ==> ({
            let steps = setup_steps(channels_minus_1, at, fill);
            &&& steps.len() == 12
            &&& steps[0] matches DmaStep::Report { label, value } && label == Label::Channels
                && value as int == channels_minus_1 + 1
            &&& steps[1] == (DmaStep::ClearControlArea { words: 64 })
            &&& steps[2] == (DmaStep::Write { register: DmaRegister::MasterEnable, value: 1 })
            &&& steps[3] == fill
            &&& steps[4] matches DmaStep::SetChannel { dst_end_ptr, src_end_ptr, control }
                && dst_end_ptr as int == at.dst_start + 4 * 15 && src_end_ptr as int
                == at.src_start + 4 * 15 && control == 0xaa02_80f2
            &&& steps[5] == (DmaStep::Write {
                register: DmaRegister::ControlBasePointer,
                value: at.base_ptr,
            })
            &&& steps[6] == (DmaStep::Write { register: DmaRegister::RequestMaskSet, value: 1 })
            &&& steps[7] == (DmaStep::Write { register: DmaRegister::EnableSet, value: 1 })
            &&& steps[8] == (DmaStep::Report { label: Label::BasePointer, value: at.base_ptr })
            &&& steps[9] == (DmaStep::Report { label: Label::SourceStart, value: at.src_start })
            &&& steps[10] == (DmaStep::Report {
                label: Label::DestinationStart,
                value: at.dst_start,
            })
            &&& steps[11] == (DmaStep::Write { register: DmaRegister::SoftwareRequest, value: 1 })
        }),
{
}

/// The source holds sixteen words, of which each is twice the one before it, less
/// what no longer fits, and odd if and only if an odd number of the bits 31, 21,
/// 1 and 0 of the one before it are set. The destination holds sixteen zeros.
pub proof fn law_regions_in_numbers(i: int)
    requires
        0 <= i < 15,
    ensures
        test_pattern().len() == 16,
        test_pattern()[0] == 0x1111_1111,
        ({
            let word = test_pattern()[i] as int;
            let next = test_pattern()[i + 1] as int;
            &&& next / 2 == word % 0x8000_0000
            &&& next % 2 == (word / 0x8000_0000 + (word / 0x20_0000) % 2 + (word / 2) % 2 + word
                % 2) % 2
        }),
        blank_region().len() == 16,
        blank_region()[i] == 0,
        blank_region()[i + 1] == 0,
{
    lfsr::law_pattern_steps(PATTERN_SEED, DMA_LEN as nat, i);
    lfsr::law_next_in_numbers(test_pattern()[i]);
}

/// The wait goes on if and only if the low three bits of the control word are not
/// all zero and progress has been reported less than sixteen times.
pub proof fn law_when_waiting_goes_on(timeout: u32, control: u32)
    ensures
        keeps_waiting(timeout, control) <==> control as int % 8 != 0 && timeout < 16,
{
    assert(control & 7 == control % 8) by (bit_vector);
}

/// What is reported of two regions grows with them: a further pair of words adds
/// nothing if they are equal, and else its place, the word of the source and the
/// word of the destination, behind what was reported of the pairs before it.
pub proof fn law_reports_word_by_word(src: Seq<u32>, dst: Seq<u32>, a: u32, b: u32)
    requires
        src.len() == dst.len(),
    ensures
        mismatch_reports(Seq::empty(), Seq::empty(), 0).len() == 0,
        a == b ==> mismatch_reports(src.push(a), dst.push(b), 0) == mismatch_reports(src, dst, 0),
        a != b ==> mismatch_reports(src.push(a), dst.push(b), 0) == mismatch_reports(src, dst, 0)
            + seq![
            DmaStep::Report { label: Label::ErrorIndex, value: src.len() as u32 },
            DmaStep::Report { label: Label::ErrorSource, value: a },
            DmaStep::Report { label: Label::ErrorDestination, value: b },
        ],
{
    lemma_reports_of_longer_regions(src, dst, a, b, 0);
    assert(a == b ==> mismatch_reports(src.push(a), dst.push(b), 0) =~= mismatch_reports(
        src,
        dst,
        0,
    ));
}

proof fn lemma_reports_of_longer_regions(
    src: Seq<u32>,
    dst: Seq<u32>,
    a: u32,
    b: u32,
    from: int,
)
    requires
        src.len() == dst.len(),
        0 <= from <= src.len(),
    ensures
        mismatch_reports(src.push(a), dst.push(b), from) == mismatch_reports(src, dst, from) + (
        if a == b {
            Seq::empty()
        } else {
            seq![
                DmaStep::Report { label: Label::ErrorIndex, value: src.len() as u32 },
                DmaStep::Report { label: Label::ErrorSource, value: a },
                DmaStep::Report { label: Label::ErrorDestination, value: b },
            ]
        }),
    decreases src.len() - from,
{
    let src2 = src.push(a);
    let dst2 = dst.push(b);
    let tail = if a == b {
        Seq::empty()
    } else {
        seq![
            DmaStep::Report { label: Label::ErrorIndex, value: src.len() as u32 },
            DmaStep::Report { label: Label::ErrorSource, value: a },
            DmaStep::Report { label: Label::ErrorDestination, value: b },
        ]
    };
    if from < src.len() {
        lemma_reports_of_longer_regions(src, dst, a, b, from + 1);
    } else {
        assert(mismatch_reports(src2, dst2, from + 1) =~= Seq::<DmaStep>::empty());
        assert(src2[from] == a && dst2[from] == b);
    }
    assert(mismatch_reports(src2, dst2, from) =~= mismatch_reports(src, dst, from) + tail);
}

/// The text that each number is reported under.
pub proof fn law_label_texts()
    ensures
        label_text(Label::Channels) == "channels"@,
        label_text(Label::BasePointer) == "baseptr"@,
        label_text(Label::SourceStart) == "src start"@,
        label_text(Label::DestinationStart) == "dst start"@,
        label_text(Label::Progress) == "progress as baseptr[2]"@,
        label_text(Label::ErrorIndex) == "error in iter "@,
        label_text(Label::ErrorSource) == "src: "@,
        label_text(Label::ErrorDestination) == "dst: "@,
        label_text(Label::Verdict) == "basic dma result (1=pass)"@,
{
}

} // verus!
