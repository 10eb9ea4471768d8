use xous_core::dma::{
    basic_tests, progress_report, source_pattern, transfer_control, BasicTests, DmaChanControl, DmaRegister,
    DmaStep, Label, Placement, TestPhase, CYCLE_AUTO_REQUEST, TRANSFER_CONTROL,
};

const AT: Placement =
    Placement { base_ptr: 0x5000_0000, src_start: 0x6100_0000, dst_start: 0x6100_0100 };

fn report(label: Label, value: u32) -> DmaStep {
    DmaStep::Report { label, value }
}

#[test]
fn control_word_of_the_transfer() {
    assert_eq!(transfer_control(), DmaChanControl(0xaa02_80f2));
    assert_eq!(transfer_control().cycle_ctrl(), CYCLE_AUTO_REQUEST);
}

#[test]
fn control_fields_do_not_touch_each_other() {
    let mut word = DmaChanControl(0xffff_ffff);
    word.set_n_minus_1(0);
    assert_eq!(word.0, 0xffff_c00f);
    word.set_r_power(0);
    assert_eq!(word.0, 0xfffc_000f);
    word.set_src_size(0x10);
    assert_eq!(word.0, 0xfcfc_000f);
    word.set_src_inc(1);
    assert_eq!(word.0, 0xf4fc_000f);
    word.set_dst_size(2);
    assert_eq!(word.0, 0xe4fc_000f);
    word.set_dst_inc(0);
    assert_eq!(word.0, 0x24fc_000f);
    word.set_cycle_ctrl(0xa);
    assert_eq!(word.0, 0x24fc_000a);
    assert_eq!(word.cycle_ctrl(), 2);
}

#[test]
fn pattern_of_the_source() {
    assert_eq!(
        source_pattern(),
        [
            0x1111_1111, 0x2222_2223, 0x4444_4447, 0x8888_888e,
            0x1111_111c, 0x2222_2238, 0x4444_4471, 0x8888_88e3,
            0x1111_11c7, 0x2222_238e, 0x4444_471c, 0x8888_8e38,
            0x1111_1c71, 0x2222_38e3, 0x4444_71c7, 0x8888_e38e,
        ]
    );
}

#[test]
fn setup_of_the_controller() {
    let (tests, steps) = basic_tests(7, AT);
    assert_eq!(tests.phase, TestPhase::Polling { timeout: 0 });
    assert_eq!(
        steps,
        vec![
            report(Label::Channels, 8),
            DmaStep::ClearControlArea { words: 64 },
            DmaStep::Write { register: DmaRegister::MasterEnable, value: 1 },
            DmaStep::FillRegions { source: source_pattern(), destination: [0; 16] },
            DmaStep::SetChannel {
                dst_end_ptr: 0x6100_013c,
                src_end_ptr: 0x6100_003c,
                control: TRANSFER_CONTROL,
            },
            DmaStep::Write { register: DmaRegister::ControlBasePointer, value: 0x5000_0000 },
            DmaStep::Write { register: DmaRegister::RequestMaskSet, value: 1 },
            DmaStep::Write { register: DmaRegister::EnableSet, value: 1 },
            report(Label::BasePointer, 0x5000_0000),
            report(Label::SourceStart, 0x6100_0000),
            report(Label::DestinationStart, 0x6100_0100),
            DmaStep::Write { register: DmaRegister::SoftwareRequest, value: 1 },
        ]
    );
}

#[test]
fn wait_ends_when_the_channel_stops() {
    let (mut tests, _) = basic_tests(0, AT);
    assert_eq!(tests.poll(TRANSFER_CONTROL), DmaStep::ReportProgress);
    assert_eq!(progress_report(0xaa02_8001), report(Label::Progress, 0xaa02_8001));
    assert_eq!(tests.poll(0xaa02_8001), DmaStep::ReportProgress);
    assert_eq!(tests.phase, TestPhase::Polling { timeout: 2 });
    assert_eq!(tests.poll(0xaa02_8000), DmaStep::FlushCache);
    assert_eq!(tests.phase, TestPhase::Comparing);
}

#[test]
fn wait_ends_when_the_channel_never_stops() {
    let (mut tests, _) = basic_tests(0, AT);
    for _ in 0..16 {
        assert_eq!(tests.poll(TRANSFER_CONTROL), DmaStep::ReportProgress);
    }
    assert_eq!(tests.poll(TRANSFER_CONTROL), DmaStep::FlushCache);
}

#[test]
fn equal_regions_pass() {
    let tests = BasicTests { phase: TestPhase::Comparing };
    let (reports, passing) = tests.finish(&source_pattern(), &source_pattern());
    assert!(passing);
    assert_eq!(reports, vec![report(Label::Verdict, 1)]);
}

#[test]
fn a_wrong_word_fails() {
    let tests = BasicTests { phase: TestPhase::Comparing };
    let src = source_pattern();
    let mut dst = src;
    dst[3] = 7;
    let (reports, passing) = tests.finish(&src, &dst);
    assert!(!passing);
    assert_eq!(
        reports,
        vec![
            report(Label::ErrorIndex, 3),
            report(Label::ErrorSource, src[3]),
            report(Label::ErrorDestination, 7),
            report(Label::Verdict, 0),
        ]
    );
}

#[test]
fn an_untouched_destination_fails_everywhere() {
    let tests = BasicTests { phase: TestPhase::Comparing };
    let (reports, passing) = tests.finish(&source_pattern(), &[0; 16]);
    assert!(!passing);
    assert_eq!(reports.len(), 3 * 16 + 1);
}

#[test]
fn labels_of_the_reports() {
    assert_eq!(Label::Channels.text(), "channels");
    assert_eq!(Label::BasePointer.text(), "baseptr");
    assert_eq!(Label::SourceStart.text(), "src start");
    assert_eq!(Label::DestinationStart.text(), "dst start");
    assert_eq!(Label::Progress.text(), "progress as baseptr[2]");
    assert_eq!(Label::ErrorIndex.text(), "error in iter ");
    assert_eq!(Label::ErrorSource.text(), "src: ");
    assert_eq!(Label::ErrorDestination.text(), "dst: ");
    assert_eq!(Label::Verdict.text(), "basic dma result (1=pass)");
}
