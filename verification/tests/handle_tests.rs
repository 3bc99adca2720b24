use julius::adin::{ADIn, Driver, Overrun, ReadHook};
use julius::recog_process::{Output, RecogProcess};
use julius::{c_string, AdinCallbackType, Binding, CallbackType, Error, JConf, Recog, Registration, Release};

fn decoder() -> Recog {
    let jconf = JConf::new(0x1000).unwrap();
    match Recog::from_jconf(jconf, 0x2000) {
        Ok(r) => r,
        Err(_) => panic!("a decoder"),
    }
}

#[test]
fn null_configuration_is_a_failure() {
    assert_eq!(JConf::new(0).err(), Some(Error::JConfFailed));
    let j = JConf::new(0x10).unwrap();
    assert_eq!(j.as_raw_ptr(), 0x10);
}

#[test]
fn configuration_text_with_a_zero_byte_is_refused() {
    assert_eq!(JConf::from_string("-h a\0-v b", 0x10).err(), Some(Error::InteriorNul { position: 4 }));
    assert_eq!(JConf::from_string("\0", 0).err(), Some(Error::InteriorNul { position: 0 }));
    assert_eq!(JConf::from_string("a\0b\0", 0x10).err(), Some(Error::InteriorNul { position: 1 }));
}

#[test]
fn configuration_from_text() {
    let j = JConf::from_string("-palign\n-input file\n", 0x40).unwrap();
    assert_eq!(j.as_raw_ptr(), 0x40);
    assert_eq!(JConf::from_string("-palign", 0).err(), Some(Error::JConfFailed));
    assert_eq!(JConf::from_string("", 0x40).unwrap().as_raw_ptr(), 0x40);
}

#[test]
fn c_string_appends_the_closing_zero() {
    assert_eq!(c_string("abc"), Ok(vec![b'a', b'b', b'c', 0]));
    assert_eq!(c_string(""), Ok(vec![0]));
    assert_eq!(c_string("é"), Ok(vec![0xC3, 0xA9, 0]));
    assert_eq!(c_string("ab\0"), Err(Error::InteriorNul { position: 2 }));
    // The place counts bytes, not characters.
    assert_eq!(c_string("é\0"), Err(Error::InteriorNul { position: 2 }));
}

#[test]
fn released_configuration_is_freed() {
    let j = JConf::new(0x77).unwrap();
    assert_eq!(j.release(), Release::Config(0x77));
}

#[test]
fn decoder_takes_the_configuration_over() {
    let jconf = JConf::new(0x1000).unwrap();
    let recog = match Recog::from_jconf(jconf, 0x2000) {
        Ok(r) => r,
        Err(_) => panic!("a decoder"),
    };
    assert_eq!(recog.as_raw_ptr(), 0x2000);
    assert!(recog.get_processes().next().is_none());
    assert_eq!(recog.get_adin().samp_num(), 0);
    // One teardown, of the decoder: the configuration goes with it.
    assert_eq!(recog.release(), Release::Decoder(0x2000));
}

#[test]
fn failed_decoder_hands_the_configuration_back() {
    let jconf = JConf::new(0x1000).unwrap();
    match Recog::from_jconf(jconf, 0) {
        Ok(_) => panic!("no decoder"),
        Err((e, back)) => {
            assert_eq!(e, Error::RecogFailed);
            assert_eq!(back.as_raw_ptr(), 0x1000);
            assert_eq!(back.release(), Release::Config(0x1000));
        }
    }
}

#[test]
fn rewrapped_handle_frees_nothing() {
    assert!(Recog::rewrap(0, None, ADIn::idle()).is_none());
    let view = Recog::rewrap(0x2000, None, ADIn::idle()).unwrap();
    assert_eq!(view.as_raw_ptr(), 0x2000);
    assert_eq!(view.release(), Release::Nothing);
}

#[test]
fn processes_are_walked_in_list_order() {
    let third = RecogProcess::new(1, Output::new(-1, Vec::new()), None);
    let second = RecogProcess::new(0, Output::new(-6, Vec::new()), Some(third));
    let first = RecogProcess::new(1, Output::new(0, Vec::new()), Some(second));
    let recog = Recog::rewrap(0x2000, Some(first), ADIn::idle()).unwrap();
    let mut it = recog.get_processes();
    let p = it.next().unwrap();
    assert!(p.is_live());
    assert_eq!(p.result().raw_status(), 0);
    let p = it.next().unwrap();
    assert!(!p.is_live());
    assert_eq!(p.result().raw_status(), -6);
    let p = it.next().unwrap();
    assert!(p.is_live());
    assert_eq!(p.result().raw_status(), -1);
    assert!(it.next().is_none());
    let codes: Vec<i32> = recog.get_processes().collect().iter().map(|p| p.result().raw_status()).collect();
    assert_eq!(codes, vec![0, -6, -1]);
}

#[test]
fn only_the_flag_one_is_live() {
    assert!(RecogProcess::new(1, Output::new(0, Vec::new()), None).is_live());
    assert!(!RecogProcess::new(0, Output::new(0, Vec::new()), None).is_live());
    assert!(!RecogProcess::new(2, Output::new(0, Vec::new()), None).is_live());
    assert!(!RecogProcess::new(255, Output::new(0, Vec::new()), None).is_live());
}

#[test]
fn process_links_to_its_successor() {
    let second = RecogProcess::new(0, Output::new(-2, Vec::new()), None);
    let first = RecogProcess::new(1, Output::new(0, Vec::new()), Some(second));
    assert_eq!(first.next_process().unwrap().result().raw_status(), -2);
    assert!(first.next_process().unwrap().next_process().is_none());
}

#[test]
fn refresh_takes_the_engine_state_in() {
    let mut recog = decoder();
    let slot = ADIn::new(Driver { ad_read: ReadHook::Driver, ..ADIn::idle().driver() }, vec![0; 16], 16, 4).unwrap();
    recog.refresh(Some(RecogProcess::new(1, Output::new(0, Vec::new()), None)), slot);
    assert_eq!(recog.get_processes().collect().len(), 1);
    assert_eq!(recog.get_adin().samp_num(), 12);
    assert_eq!(recog.as_raw_ptr(), 0x2000);
    assert_eq!(recog.release(), Release::Decoder(0x2000));
}

#[test]
fn adin_init_reads_the_answer() {
    let recog = decoder();
    assert_eq!(recog.adin_init(1), Ok(()));
    assert_eq!(recog.adin_init(0), Err(Error::AdinInitFailed));
}

#[test]
fn open_stream_reads_the_answer() {
    let recog = decoder();
    assert_eq!(recog.open_stream(0), Ok(()));
    assert_eq!(recog.open_stream(-1), Err(Error::StreamInput));
    assert_eq!(recog.open_stream(-2), Err(Error::StreamBegin));
}

#[test]
fn stream_name_is_a_c_string_or_nothing() {
    assert_eq!(Recog::stream_name(None), Ok(None));
    assert_eq!(Recog::stream_name(Some("wav/sample.wav")), Ok(Some(b"wav/sample.wav\0".to_vec())));
    assert_eq!(Recog::stream_name(Some("")), Ok(Some(vec![0])));
    assert_eq!(Recog::stream_name(Some("a\0b")), Err(Error::InteriorNul { position: 1 }));
}

#[test]
fn stream_codes_are_handed_on() {
    let recog = decoder();
    assert_eq!(recog.recognize_stream(0), Ok(()));
    assert_eq!(recog.recognize_stream(-1), Err(Error::Process(-1)));
    assert_eq!(recog.recognize_stream(7), Err(Error::Process(7)));
    assert_eq!(recog.close_stream(0), Ok(()));
    assert_eq!(recog.close_stream(-1), Err(Error::Process(-1)));
    assert_eq!(recog.close_stream(i32::MIN), Err(Error::Process(i32::MIN)));
}

#[test]
fn messages_name_the_cause() {
    assert_eq!(Error::JConfFailed.message(), "JConf failed");
    assert_eq!(Error::RecogFailed.message(), "Recog failed");
    assert_eq!(Error::AdinInitFailed.message(), "Failed to initialize input device");
    assert_eq!(Error::StreamInput.message(), "Error in input stream");
    assert_eq!(Error::StreamBegin.message(), "Failed to begin input stream");
    assert_eq!(Error::Process(-1).message(), "-1");
    assert_eq!(Error::Process(0).message(), "0");
    assert_eq!(Error::Process(7).message(), "7");
    assert_eq!(Error::Process(1204).message(), "1204");
    assert_eq!(Error::Process(i32::MAX).message(), "2147483647");
    assert_eq!(Error::Process(i32::MIN).message(), "-2147483648");
    assert_eq!(
        Error::InteriorNul { position: 12 }.message(),
        "nul byte found in provided data at position: 12"
    );
    assert_eq!(
        Error::InteriorNul { position: 0 }.message(),
        "nul byte found in provided data at position: 0"
    );
}

#[test]
fn registrations_name_trampoline_and_code() {
    let recog = decoder();
    let reg = recog.add_callback(CallbackType::Result, 0xBEEF);
    assert_eq!(reg, Registration { binding: Binding::Event(CallbackType::Result), context: 0xBEEF });
    assert_eq!(reg.code(), Some(21));
    let reg = recog.add_callback(CallbackType::Poll, 1);
    assert_eq!(reg.code(), Some(0));
    let reg = recog.add_callback_adin(AdinCallbackType::Triggered, 0xF00D);
    assert_eq!(reg, Registration { binding: Binding::Audio(AdinCallbackType::Triggered), context: 0xF00D });
    assert_eq!(reg.code(), Some(26));
    let reg = recog.add_callback_adin_inject(5);
    assert_eq!(reg, Registration { binding: Binding::Inject, context: 5 });
    assert_eq!(reg.code(), None);
}

#[test]
fn custom_adin_prepares_the_slot() {
    let mut recog = decoder();
    let slot = ADIn::new(
        Driver {
            ad_standby: true,
            ad_begin: true,
            ad_end: true,
            ad_resume: true,
            ad_pause: true,
            ad_terminate: true,
            ad_read: ReadHook::Driver,
            ad_input_name: true,
            silence_cut_default: true,
            enable_thread: true,
            down_sample: true,
        },
        vec![5; 8],
        8,
        3,
    )
    .unwrap();
    recog.refresh(None, slot);
    let reg = recog.custom_adin(0xABC);
    assert_eq!(reg, Registration { binding: Binding::Inject, context: 0xABC });
    let adin = recog.get_adin();
    assert_eq!(adin.driver().ad_read, ReadHook::Dummy);
    assert!(!adin.driver().ad_standby);
    assert!(!adin.driver().ad_begin);
    assert!(!adin.driver().ad_end);
    assert!(!adin.driver().ad_resume);
    assert!(!adin.driver().ad_pause);
    assert!(!adin.driver().ad_terminate);
    assert!(!adin.driver().ad_input_name);
    assert!(!adin.driver().silence_cut_default);
    assert!(!adin.driver().enable_thread);
    assert!(!adin.driver().down_sample);
    assert_eq!(adin.bp(), 3);
    assert_eq!(adin.buffer(), &[5i16; 8][..]);
    assert_eq!(recog.as_raw_ptr(), 0x2000);
}

#[test]
fn injection_round_asks_for_the_room_that_is_left() {
    let mut recog = decoder();
    recog.refresh(None, ADIn::new(ADIn::idle().driver(), vec![0; 10], 10, 4).unwrap());
    recog.custom_adin(0);
    let mut asked: Vec<usize> = Vec::new();
    let mut producer = |n: usize| {
        asked.push(n);
        Some(vec![1i16, 2, 3])
    };
    assert_eq!(recog.adin_inject_cb(&mut producer), Ok(3));
    assert_eq!(asked, vec![6]);
    assert_eq!(recog.get_adin().buffer(), &[0, 0, 0, 0, 1, 2, 3, 0, 0, 0][..]);
    assert_eq!(recog.get_adin().bp(), 4);
}

#[test]
fn injection_round_reports_the_end_of_the_stream() {
    let mut recog = decoder();
    recog.refresh(None, ADIn::new(ADIn::idle().driver(), vec![9; 4], 4, 0).unwrap());
    let mut producer = |_n: usize| None::<Vec<i16>>;
    assert_eq!(recog.adin_inject_cb(&mut producer), Ok(-1));
    assert_eq!(recog.get_adin().buffer(), &[9, 9, 9, 9][..]);
}

#[test]
fn injection_round_refuses_an_overrun() {
    let mut recog = decoder();
    recog.refresh(None, ADIn::new(ADIn::idle().driver(), vec![9; 4], 4, 2).unwrap());
    let mut producer = |n: usize| Some(vec![1i16; n + 1]);
    assert_eq!(recog.adin_inject_cb(&mut producer), Err(Overrun { offered: 3, room: 2 }));
    assert_eq!(recog.get_adin().buffer(), &[9, 9, 9, 9][..]);
    assert_eq!(recog.get_adin().bp(), 2);
}

#[test]
fn producer_state_lives_across_rounds() {
    let mut recog = decoder();
    recog.refresh(None, ADIn::new(ADIn::idle().driver(), vec![0; 6], 6, 0).unwrap());
    let mut rest: Vec<Vec<i16>> = vec![vec![3, 4], vec![1, 2]];
    let mut producer = move |_n: usize| rest.pop();
    assert_eq!(recog.adin_inject_cb(&mut producer), Ok(2));
    assert_eq!(&recog.get_adin().buffer()[..2], &[1, 2][..]);
    assert_eq!(recog.adin_inject_cb(&mut producer), Ok(2));
    assert_eq!(&recog.get_adin().buffer()[..2], &[3, 4][..]);
    assert_eq!(recog.adin_inject_cb(&mut producer), Ok(-1));
}
