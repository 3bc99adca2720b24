use julius::recog_process::{AlignUnitType, Output, ResultStatus};
use julius::{AdinCallbackType, CallbackType};

#[test]
fn status_decodes_each_engine_code() {
    assert_eq!(ResultStatus::from_repr(-8), Some(ResultStatus::RejectLong));
    assert_eq!(ResultStatus::from_repr(-7), Some(ResultStatus::BufferOverflow));
    assert_eq!(ResultStatus::from_repr(-6), Some(ResultStatus::RejectPower));
    assert_eq!(ResultStatus::from_repr(-5), Some(ResultStatus::Terminate));
    assert_eq!(ResultStatus::from_repr(-4), Some(ResultStatus::OnlySilence));
    assert_eq!(ResultStatus::from_repr(-3), Some(ResultStatus::RejectGmm));
    assert_eq!(ResultStatus::from_repr(-2), Some(ResultStatus::RejectShort));
    assert_eq!(ResultStatus::from_repr(-1), Some(ResultStatus::Fail));
    assert_eq!(ResultStatus::from_repr(0), Some(ResultStatus::Success));
}

#[test]
fn unknown_status_is_no_success() {
    for code in [1, 2, 9, -9, -100, i32::MAX, i32::MIN] {
        assert_eq!(ResultStatus::from_repr(code), None);
    }
}

#[test]
fn status_code_round_trip() {
    let all = [
        ResultStatus::RejectLong,
        ResultStatus::BufferOverflow,
        ResultStatus::RejectPower,
        ResultStatus::Terminate,
        ResultStatus::OnlySilence,
        ResultStatus::RejectGmm,
        ResultStatus::RejectShort,
        ResultStatus::Fail,
        ResultStatus::Success,
    ];
    for (i, s) in all.iter().enumerate() {
        assert_eq!(ResultStatus::from_repr(s.code()), Some(*s));
        for (j, t) in all.iter().enumerate() {
            assert_eq!(s.code() == t.code(), i == j);
        }
    }
    for code in -20..20 {
        if let Some(s) = ResultStatus::from_repr(code) {
            assert_eq!(s.code(), code);
        } else {
            assert!(!(-8..=0).contains(&code));
        }
    }
}

#[test]
fn output_status_decodes_the_raw_code() {
    let out = Output::new(-4, Vec::new());
    assert_eq!(out.raw_status(), -4);
    assert_eq!(out.status(), ResultStatus::OnlySilence);
    let ok = Output::new(0, Vec::new());
    assert_eq!(ok.status(), ResultStatus::Success);
    assert!(ok.get_sent().is_empty());
}

#[test]
fn output_keeps_an_unknown_status_undecoded() {
    let out = Output::new(3, Vec::new());
    assert_eq!(out.raw_status(), 3);
    assert_eq!(ResultStatus::from_repr(out.raw_status()), None);
}

#[test]
fn align_unit_codes() {
    assert_eq!(AlignUnitType::from_repr(0), Some(AlignUnitType::Word));
    assert_eq!(AlignUnitType::from_repr(1), Some(AlignUnitType::Phoneme));
    assert_eq!(AlignUnitType::from_repr(2), Some(AlignUnitType::State));
    assert_eq!(AlignUnitType::from_repr(3), None);
    assert_eq!(AlignUnitType::from_repr(-1), None);
    for u in [AlignUnitType::Word, AlignUnitType::Phoneme, AlignUnitType::State] {
        assert_eq!(AlignUnitType::from_repr(u.code()), Some(u));
    }
}

#[test]
fn event_codes_follow_the_engine_order() {
    let events = [
        CallbackType::Poll,
        CallbackType::EventProcessOnline,
        CallbackType::EventProcessOffline,
        CallbackType::EventStreamBegin,
        CallbackType::EventStreamEnd,
        CallbackType::EventSpeechReady,
        CallbackType::EventSpeechStart,
        CallbackType::EventSpeechStop,
        CallbackType::EventRecognitionBegin,
        CallbackType::EventRecognitionEnd,
        CallbackType::EventSegmentBegin,
        CallbackType::EventSegmentEnd,
        CallbackType::EventPass1Begin,
        CallbackType::EventPass1Frame,
        CallbackType::EventPass1End,
        CallbackType::ResultPass1Interim,
        CallbackType::ResultPass1,
        CallbackType::ResultPass1Graph,
        CallbackType::StatusParam,
        CallbackType::EventPass2Begin,
        CallbackType::EventPass2End,
        CallbackType::Result,
        CallbackType::ResultGmm,
        CallbackType::ResultGraph,
        CallbackType::ResultConfnet,
    ];
    for (i, e) in events.iter().enumerate() {
        assert_eq!(e.code(), i as i32);
        assert_eq!(CallbackType::from_repr(i as u32), Some(*e));
    }
    let late = [
        (CallbackType::EventPause, 27),
        (CallbackType::EventResume, 28),
        (CallbackType::PauseFunction, 29),
        (CallbackType::DebugPass2Pop, 30),
        (CallbackType::DebugPass2Push, 31),
        (CallbackType::ResultPass1Determined, 32),
    ];
    for (e, code) in late {
        assert_eq!(e.code(), code);
        assert_eq!(CallbackType::from_repr(code as u32), Some(e));
    }
}

#[test]
fn event_codes_leave_the_audio_codes_out() {
    assert_eq!(CallbackType::from_repr(25), None);
    assert_eq!(CallbackType::from_repr(26), None);
    assert_eq!(CallbackType::from_repr(33), None);
    assert_eq!(CallbackType::from_repr(u32::MAX), None);
    assert_eq!(AdinCallbackType::from_repr(25), Some(AdinCallbackType::Captured));
    assert_eq!(AdinCallbackType::from_repr(26), Some(AdinCallbackType::Triggered));
    assert_eq!(AdinCallbackType::from_repr(24), None);
    assert_eq!(AdinCallbackType::from_repr(27), None);
    assert_eq!(AdinCallbackType::Captured.code(), 25);
    assert_eq!(AdinCallbackType::Triggered.code(), 26);
}
