//! A verified core for bindings to a callback-driven speech decoder.
//!
//! The engine itself is reached through its C interface by the code around
//! this library. The library holds what that code decides and computes: the
//! handles and what becomes of them, the codes that the engine speaks in,
//! the injection of audio, and the reading of results. Native objects are
//! known here by their addresses, and what the engine answers is handed to
//! the library as plain values.

pub mod adin;
pub mod callback;
pub mod error;
pub mod iter;
pub mod recog_process;
pub mod sentence_align;

pub use crate::callback::{AdinCallbackType, Binding, CallbackType, Registration};
pub use crate::error::{c_string, nul_free, Error};

use crate::adin::{ADIn, ADInView, Driver, Overrun, END_OF_STREAM};
use crate::iter::BindIterator;
use crate::recog_process::RecogProcess;
use vstd::prelude::*;
use vstd::string::StringSliceAdditionalSpecFns;

verus! {

/// What is to be freed when a handle goes away.
#[derive(Debug, Clone, Copy, PartialEq, Eq, Structural)]
pub enum Release {
    /// Nothing: the engine keeps what the handle looked at.
    Nothing,
    /// The configuration at this address, and nothing else.
    Config(usize),
    /// The decoder at this address; its teardown takes along all that the
    /// decoder owns, its configuration included.
    Decoder(usize),
}

/// The handle on a configuration of the engine. It owns the configuration
/// until a decoder is made from it.
#[derive(Debug)]
pub struct JConf {
    raw: usize,
}

impl JConf {
    #[verifier::type_invariant]
    spec fn inv(self) -> bool {
        self.raw != 0
    }

    /// The address of the configuration.
    pub closed spec fn address(&self) -> usize {
        self.raw
    }

    /// What is to be freed when the handle goes away.
    pub open spec fn spec_release(&self) -> Release {
        Release::Config(self.address())
    }

    /// Takes over the configuration that the engine made, at the address
    /// `raw`; the null address means that the engine made none.
    pub fn new(raw: usize) -> (r: Result<JConf, Error>)
        ensures
            match r {
                Ok(jconf) => raw != 0 && jconf.address() == raw,
                Err(e) => raw == 0 && e == Error::JConfFailed,
            },
    {
        if raw == 0 {
            Err(Error::JConfFailed)
        } else {
            Ok(JConf { raw })
        }
    }

    /// Takes over the configuration that the engine made of the text
    /// `string`, at the address `raw`. The engine is handed `c_string` of the
    /// text; a text that `c_string` refuses never reaches it, and `raw` is
    /// then not looked at.
    pub fn from_string(string: &str, raw: usize) -> (r: Result<JConf, Error>)
        ensures
            match r {
                Ok(jconf) => {
                    &&& nul_free(string.spec_bytes(), string.spec_bytes().len() as int)
                    &&& raw != 0
                    &&& jconf.address() == raw
                },
                Err(Error::InteriorNul { position }) => {
                    &&& position < string.spec_bytes().len()
                    &&& string.spec_bytes()[position as int] == 0
                    &&& nul_free(string.spec_bytes(), position as int)
                },
                Err(e) => {
                    &&& nul_free(string.spec_bytes(), string.spec_bytes().len() as int)
                    &&& raw == 0
                    &&& e == Error::JConfFailed
                },
            },
    {
        match c_string(string) {
            Ok(_) => JConf::new(raw),
            Err(e) => Err(e),
        }
    }

    /// The address of the configuration, for calls into the engine. Whoever
    /// uses it answers for what the engine does with it.
    pub fn as_raw_ptr(&self) -> (raw: usize)
        ensures
            raw == self.address(),
            raw != 0,
    {
        proof {
            use_type_invariant(self);
        }
        self.raw
    }

    /// Gives the handle up: the configuration is to be freed.
    pub fn release(self) -> (r: Release)
        ensures
            r == self.spec_release(),
    {
        Release::Config(self.raw)
    }
}

/// The handle on a decoder of the engine, with what the engine shows of it:
/// the list of its recognition processes and its audio input slot.
///
/// A handle either owns the decoder, and with it the configuration that the
/// decoder was made from, or looks at a decoder that the engine keeps, as the
/// handle does that a closure is called with.
#[derive(Debug)]
pub struct Recog {
    raw: usize,
    config: Option<usize>,
    process_list: Option<Box<RecogProcess>>,
    adin: ADIn,
}

impl Recog {
    #[verifier::type_invariant]
    spec fn inv(self) -> bool {
        self.raw != 0
    }

    /// The address of the decoder.
    pub closed spec fn address(&self) -> usize {
        self.raw
    }

    /// The address of the configuration that the handle took over when it
    /// came to own the decoder; `None` for a handle that owns nothing.
    pub closed spec fn owned_config(&self) -> Option<usize> {
        self.config
    }

    /// Whether the handle owns the decoder.
    pub open spec fn owns(&self) -> bool {
        self.owned_config() is Some
    }

    /// The first recognition process, if the decoder has any.
    pub closed spec fn first_process(&self) -> Option<&RecogProcess> {
        match self.process_list {
            Some(b) => Some(&*b),
            None => None,
        }
    }

    /// The recognition processes, in list order.
    pub open spec fn process_chain(&self) -> Seq<&RecogProcess> {
        match self.first_process() {
            Some(p) => p.chain(),
            None => Seq::empty(),
        }
    }

    /// The audio input slot.
    pub closed spec fn audio(&self) -> ADIn {
        self.adin
    }

    /// What is to be freed when the handle goes away.
    pub open spec fn spec_release(&self) -> Release {
        if self.owns() {
            Release::Decoder(self.address())
        } else {
            Release::Nothing
        }
    }

    /// What making a decoder from `jconf` comes to, where the engine answered
    /// with the address `raw`: with a decoder, the handle owns it and the
    /// configuration has moved into it; without one, the configuration is
    /// still the caller's.
    pub open spec fn created(jconf: JConf, raw: usize, r: Result<Recog, (Error, JConf)>) -> bool {
        match r {
            Ok(recog) => {
                &&& raw != 0
                &&& recog.address() == raw
                &&& recog.owned_config() == Some(jconf.address())
                &&& recog.first_process() is None
            },
            Err((e, back)) => raw == 0 && e == Error::RecogFailed && back == jconf,
        }
    }
}

impl Recog {
    /// Makes the handle on the decoder that the engine made from `jconf`, at
    /// the address `raw`; the null address means that the engine made none.
    /// With a decoder, the configuration moves into it and is never freed
    /// on its own; without one, the configuration is handed back.
    pub fn from_jconf(jconf: JConf, raw: usize) -> (r: Result<Recog, (Error, JConf)>)
        ensures
            Self::created(jconf, raw, r),
            r matches Ok(recog) ==> recog.audio()@ == (ADInView {
                driver: Driver::idle(),
                buffer: Seq::empty(),
                bpmax: 0,
                bp: 0,
            }),
    {
        if raw == 0 {
            Err((Error::RecogFailed, jconf))
        } else {
            let config = jconf.as_raw_ptr();
            Ok(Recog { raw, config: Some(config), process_list: None, adin: ADIn::idle() })
        }
    }

    /// Makes a handle that looks at the decoder at the address `raw`, which
    /// the engine keeps, with what the engine shows of it at this moment. It
    /// owns nothing: when it goes away, nothing is freed. `None` for the
    /// null address.
    pub fn rewrap(raw: usize, process_list: Option<RecogProcess>, adin: ADIn) -> (r: Option<Recog>)
        ensures
            r is Some <==> raw != 0,
            r matches Some(recog) ==> {
                &&& recog.address() == raw
                &&& !recog.owns()
                &&& recog.audio() == adin
                &&& match process_list {
                    Some(p) => recog.first_process() == Some(&p),
                    None => recog.first_process() is None,
                }
            },
    {
        if raw == 0 {
            None
        } else {
            let process_list = match process_list {
                Some(p) => Some(Box::new(p)),
                None => None,
            };
            Some(Recog { raw, config: None, process_list, adin })
        }
    }

    /// Takes in what the engine shows of the decoder at this moment. The
    /// handle stays the same handle.
    pub fn refresh(&mut self, process_list: Option<RecogProcess>, adin: ADIn)
        ensures
            final(self).address() == old(self).address(),
            final(self).owned_config() == old(self).owned_config(),
            final(self).audio() == adin,
            match process_list {
                Some(p) => final(self).first_process() == Some(&p),
                None => final(self).first_process() is None,
            },
    {
        proof {
            use_type_invariant(&*self);
        }
        let process_list = match process_list {
            Some(p) => Some(Box::new(p)),
            None => None,
        };
        *self = Recog { raw: self.raw, config: self.config, process_list, adin };
    }

    /// A lazy walk over the recognition processes, in list order. The walk
    /// follows each process's link and yields the processes themselves.
    pub fn get_processes<'a>(&'a self) -> (it: BindIterator<
        &'a RecogProcess,
        &'a RecogProcess,
        impl Fn(&'a RecogProcess) -> Option<&'a RecogProcess>,
        impl Fn(&'a RecogProcess) -> &'a RecogProcess,
    >)
        ensures
            it.current() == self.first_process(),
            it.is_chain(self.process_chain()),
            forall|n: &'a RecogProcess, v: &'a RecogProcess| #[trigger]
                it.constructor().ensures((n,), v) ==> v == n,
    {
        let get_next = |curr: &'a RecogProcess| -> (r: Option<&'a RecogProcess>)
            ensures
                r == curr.link(),
            { curr.next_process() };
        let ctor = |curr: &'a RecogProcess| -> (r: &'a RecogProcess)
            ensures
                r == curr,
            { curr };
        let head: Option<&'a RecogProcess> = match &self.process_list {
            Some(b) => Some(&**b),
            None => None,
        };
        proof {
            match head {
                Some(p) => {
                    p.lemma_chain();
                    p.lemma_chain_links();
                },
                None => {},
            }
        }
        let it = BindIterator::new(head, get_next, ctor);
        it
    }

    /// Reads the engine's answer to the setting up of its audio input: 1 is
    /// success, 0 failure. The engine gives no other answer.
    pub fn adin_init(&self, ret: i32) -> (r: Result<(), Error>)
        requires
            ret == 0 || ret == 1,
        ensures
            r == (if ret == 1 {
                Ok::<(), Error>(())
            } else {
                Err::<(), Error>(Error::AdinInitFailed)
            }),
    {
        if ret == 1 {
            Ok(())
        } else {
            Err(Error::AdinInitFailed)
        }
    }

    /// The audio input slot.
    pub fn get_adin(&self) -> (a: &ADIn)
        ensures
            *a == self.audio(),
    {
        &self.adin
    }

    /// Sets the decoder up for injected audio: the audio input slot is made
    /// ready for injection, and the closure at the address `context` is to be
    /// bound as the producer of the samples.
    ///
    /// This takes the place of the driver's hooks, of the read hook and of
    /// the switches for the cutting of silence, the capture thread and the
    /// sampling down.
    pub fn custom_adin(&mut self, context: usize) -> (reg: Registration)
        ensures
            reg == (Registration { binding: Binding::Inject, context }),
            final(self).audio()@ == (ADInView {
                driver: Driver::injecting(),
                ..old(self).audio()@
            }),
            final(self).address() == old(self).address(),
            final(self).owned_config() == old(self).owned_config(),
            final(self).first_process() == old(self).first_process(),
    {
        proof {
            use_type_invariant(&*self);
        }
        let mut taken = Recog { raw: self.raw, config: None, process_list: None, adin: ADIn::idle() };
        std::mem::swap(self, &mut taken);
        let Recog { raw, config, process_list, adin } = taken;
        let mut adin = adin;
        adin.ad_read_inject_prepare();
        *self = Recog { raw, config, process_list, adin };
        self.add_callback_adin_inject(context)
    }

    /// The name of a file or device as the engine takes it: `c_string` of
    /// the name, or nothing where no name is given.
    pub fn stream_name(file_or_dev_name: Option<&str>) -> (r: Result<Option<Vec<u8>>, Error>)
        ensures
            match file_or_dev_name {
                None => r == Ok::<Option<Vec<u8>>, Error>(None),
                Some(name) => match r {
                    Ok(Some(v)) => nul_free(name.spec_bytes(), name.spec_bytes().len() as int)
                        && v@ == name.spec_bytes().push(0u8),
                    Ok(None) => false,
                    Err(Error::InteriorNul { position }) => {
                        &&& position < name.spec_bytes().len()
                        &&& name.spec_bytes()[position as int] == 0
                        &&& nul_free(name.spec_bytes(), position as int)
                    },
                    Err(_) => false,
                },
            },
    {
        match file_or_dev_name {
            Some(name) => match c_string(name) {
                Ok(v) => Ok(Some(v)),
                Err(e) => Err(e),
            },
            None => Ok(None),
        }
    }

    /// Reads the engine's answer to the opening of a stream: 0 is success,
    /// -1 an error in the input stream, -2 a failure to begin capture. The
    /// engine gives no other answer.
    pub fn open_stream(&self, ret: i32) -> (r: Result<(), Error>)
        requires
            -2 <= ret <= 0,
        ensures
            r == (if ret == 0 {
                Ok::<(), Error>(())
            } else if ret == -1 {
                Err::<(), Error>(Error::StreamInput)
            } else {
                Err::<(), Error>(Error::StreamBegin)
            }),
    {
        if ret == 0 {
            Ok(())
        } else if ret == -1 {
            Err(Error::StreamInput)
        } else {
            Err(Error::StreamBegin)
        }
    }

    /// Reads the engine's answer to the processing of a stream: 0 is
    /// success, and any other code is handed on as it is.
    pub fn recognize_stream(&self, ret: i32) -> (r: Result<(), Error>)
        ensures
            r == (if ret == 0 {
                Ok::<(), Error>(())
            } else {
                Err::<(), Error>(Error::Process(ret))
            }),
    {
        if ret == 0 {
            Ok(())
        } else {
            Err(Error::Process(ret))
        }
    }

    /// Reads the engine's answer to the closing of a stream: 0 is success,
    /// and any other code is handed on as it is.
    pub fn close_stream(&self, ret: i32) -> (r: Result<(), Error>)
        ensures
            r == (if ret == 0 {
                Ok::<(), Error>(())
            } else {
                Err::<(), Error>(Error::Process(ret))
            }),
    {
        if ret == 0 {
            Ok(())
        } else {
            Err(Error::Process(ret))
        }
    }

    /// What binds the closure at the address `context` to an event: the
    /// trampoline for events, under the event's code.
    pub fn add_callback(&self, cb_type: CallbackType, context: usize) -> (reg: Registration)
        ensures
            reg == (Registration { binding: Binding::Event(cb_type), context }),
            reg.spec_code() == Some(cb_type.spec_code()),
    {
        Registration { binding: Binding::Event(cb_type), context }
    }

    /// What binds the closure at the address `context` to an audio
    /// notification: the trampoline for audio, under the notification's code.
    pub fn add_callback_adin(&self, cb_type: AdinCallbackType, context: usize) -> (reg:
        Registration)
        ensures
            reg == (Registration { binding: Binding::Audio(cb_type), context }),
            reg.spec_code() == Some(cb_type.spec_code()),
    {
        Registration { binding: Binding::Audio(cb_type), context }
    }

    /// What binds the closure at the address `context` as the producer of
    /// injected samples.
    pub fn add_callback_adin_inject(&self, context: usize) -> (reg: Registration)
        ensures
            reg == (Registration { binding: Binding::Inject, context }),
    {
        Registration { binding: Binding::Inject, context }
    }

    /// A configuration has one owner at a time. Where a decoder was made
    /// from it, giving the decoder's handle up tears down the decoder, which
    /// takes the configuration along, and there is no handle left to free
    /// the configuration a second time; where none was made, the handle that
    /// comes back frees the configuration, once.
    pub proof fn lemma_one_owner(jconf: JConf, raw: usize, r: Result<Recog, (Error, JConf)>)
        requires
            Self::created(jconf, raw, r),
        ensures
            match r {
                Ok(recog) => {
                    &&& recog.owns()
                    &&& recog.owned_config() == Some(jconf.address())
                    &&& recog.spec_release() == Release::Decoder(raw)
                },
                Err((_, back)) => back.spec_release() == Release::Config(jconf.address()),
            },
    {
    }

    /// What one round of injection comes to, where the producer answered
    /// the request with `data`: samples that fit the room are copied in and
    /// counted, samples that do not fit are refused and nothing is copied,
    /// and the end of the stream is reported as such.
    pub open spec fn injection(
        before: ADInView,
        data: Option<Vec<i16>>,
        r: Result<i32, Overrun>,
        after: ADInView,
    ) -> bool {
        match data {
            Some(d) => if d@.len() <= before.room() {
                r == Ok::<i32, Overrun>(d@.len() as i32) && after == before.injected(d@)
            } else {
                r == Err::<i32, Overrun>(
                    Overrun { offered: d@.len() as usize, room: before.room() as usize },
                ) && after == before
            },
            None => r == Ok::<i32, Overrun>(END_OF_STREAM) && after == before,
        }
    }

    /// One round of injection: asks the producer for as many samples as the
    /// audio input slot has room for, and takes what it hands over. The
    /// count that is to be reported to the engine comes back, or the overrun
    /// of a producer that handed over more than it was asked for.
    pub fn adin_inject_cb<F: FnMut(usize) -> Option<Vec<i16>>>(&mut self, ad_read: &mut F) -> (r:
        Result<i32, Overrun>)
        requires
            call_requires(*old(ad_read), (old(self).audio()@.room() as usize,)),
        ensures
            exists|data: Option<Vec<i16>>|
                call_ensures(*old(ad_read), (old(self).audio()@.room() as usize,), data)
                    && #[trigger] Self::injection(old(self).audio()@, data, r, final(self).audio()@),
            final(self).audio()@.well_formed(),
            final(self).address() == old(self).address(),
            final(self).owned_config() == old(self).owned_config(),
            final(self).first_process() == old(self).first_process(),
    {
        proof {
            use_type_invariant(&*self);
        }
        let mut taken = Recog { raw: self.raw, config: None, process_list: None, adin: ADIn::idle() };
        std::mem::swap(self, &mut taken);
        let Recog { raw, config, process_list, adin } = taken;
        let mut adin = adin;
        let room = adin.samp_num() as usize;
        let data = ad_read(room);
        let r = match &data {
            Some(d) => adin.inject(Some(d.as_slice())),
            None => adin.inject(None),
        };
        *self = Recog { raw, config, process_list, adin };
        assert(Self::injection(old(self).audio()@, data, r, self.audio()@));
        r
    }

    /// The address of the decoder, for calls into the engine. Whoever uses
    /// it answers for what the engine does with it.
    pub fn as_raw_ptr(&self) -> (raw: usize)
        ensures
            raw == self.address(),
            raw != 0,
    {
        proof {
            use_type_invariant(self);
        }
        self.raw
    }

    /// Gives the handle up. A handle that owns its decoder has the decoder
    /// torn down; one that only looked at a decoder frees nothing.
    pub fn release(self) -> (r: Release)
        ensures
            r == self.spec_release(),
    {
        match self.config {
            Some(_) => Release::Decoder(self.raw),
            None => Release::Nothing,
        }
    }
}

} // verus!
