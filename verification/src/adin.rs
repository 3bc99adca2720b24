//! The audio input slot of a decoder, and the injection of samples into it.
//!
//! The engine pulls samples: it calls a read hook again and again, each time
//! with the room left in its buffer. Injection turns this round: the driver's
//! hooks are switched off, a read hook that does nothing is put in their
//! place, and the samples of a producer are copied into the buffer where the
//! engine expects the next ones.

use vstd::prelude::*;

verus! {

/// What stands in the place of the engine's read hook.
#[derive(Debug, Clone, Copy, PartialEq, Eq, Structural)]
pub enum ReadHook {
    /// No hook.
    Absent,
    /// The hook of an audio driver.
    Driver,
    /// The hook that reads nothing and reports one sample.
    Dummy,
}

/// The driver side of an audio input slot: which hooks are installed, and
/// the switches that decide how the engine treats the input.
#[derive(Debug, Clone, Copy, PartialEq, Eq, Structural)]
pub struct Driver {
    /// The stand-by hook is installed.
    pub ad_standby: bool,
    /// The hook that begins capture is installed.
    pub ad_begin: bool,
    /// The hook that ends capture is installed.
    pub ad_end: bool,
    /// The hook that resumes capture is installed.
    pub ad_resume: bool,
    /// The hook that pauses capture is installed.
    pub ad_pause: bool,
    /// The hook that terminates capture is installed.
    pub ad_terminate: bool,
    /// The read hook.
    pub ad_read: ReadHook,
    /// The hook that names the input is installed.
    pub ad_input_name: bool,
    /// Silence is cut by default.
    pub silence_cut_default: bool,
    /// Capture runs in a thread of its own.
    pub enable_thread: bool,
    /// The input is sampled down.
    pub down_sample: bool,
}

impl Driver {
    /// The driver side of a slot that nothing was installed in.
    pub open spec fn idle() -> Driver {
        Driver {
            ad_standby: false,
            ad_begin: false,
            ad_end: false,
            ad_resume: false,
            ad_pause: false,
            ad_terminate: false,
            ad_read: ReadHook::Absent,
            ad_input_name: false,
            silence_cut_default: false,
            enable_thread: false,
            down_sample: false,
        }
    }

    /// The driver side of a slot that takes injected samples: no hook but the
    /// dummy read hook, and every switch off.
    pub open spec fn injecting() -> Driver {
        Driver {
            ad_standby: false,
            ad_begin: false,
            ad_end: false,
            ad_resume: false,
            ad_pause: false,
            ad_terminate: false,
            ad_read: ReadHook::Dummy,
            ad_input_name: false,
            silence_cut_default: false,
            enable_thread: false,
            down_sample: false,
        }
    }
}

/// An audio input slot as a mathematical value.
pub struct ADInView {
    /// The driver side.
    pub driver: Driver,
    /// The sample buffer.
    pub buffer: Seq<i16>,
    /// The length of the buffer.
    pub bpmax: int,
    /// The place in the buffer where the next samples go.
    pub bp: int,
}

impl ADInView {
    /// The place of the next samples lies within the buffer, whose length
    /// fits the engine's integer.
    pub open spec fn well_formed(self) -> bool {
        &&& 0 <= self.bp <= self.bpmax <= i32::MAX
        &&& self.buffer.len() == self.bpmax
    }

    /// The room that is left for samples.
    pub open spec fn room(self) -> int {
        self.bpmax - self.bp
    }

    /// The slot after `data` was copied to the place of the next samples.
    pub open spec fn injected(self, data: Seq<i16>) -> ADInView {
        ADInView {
            buffer: self.buffer.subrange(0, self.bp) + data + self.buffer.subrange(
                self.bp + data.len(),
                self.bpmax,
            ),
            ..self
        }
    }

    /// The slot after the engine has taken `cnt` samples over.
    pub open spec fn advanced(self, cnt: int) -> ADInView {
        ADInView { bp: self.bp + cnt, ..self }
    }

    /// The slot after the engine was handed each of `bufs` in turn and took
    /// it over.
    pub open spec fn fed(self, bufs: Seq<Seq<i16>>) -> ADInView
        decreases bufs.len(),
    {
        if bufs.len() == 0 {
            self
        } else {
            self.fed(bufs.drop_last()).injected(bufs.last()).advanced(bufs.last().len() as int)
        }
    }
}

/// The samples of `bufs`, one buffer after the other.
pub open spec fn stream_of(bufs: Seq<Seq<i16>>) -> Seq<i16>
    decreases bufs.len(),
{
    if bufs.len() == 0 {
        Seq::empty()
    } else {
        stream_of(bufs.drop_last()) + bufs.last()
    }
}

/// Injection hands the engine the producer's samples unchanged and in
/// order: where the buffers of `bufs` fit, together, the room that is left,
/// the samples that the engine has taken over after the last of them are
/// those of the buffers, one after the other. What lay in the buffer before
/// them is untouched, and the driver side stays as it is.
pub proof fn lemma_fed_stream(slot: ADInView, bufs: Seq<Seq<i16>>)
    requires
        slot.well_formed(),
        stream_of(bufs).len() <= slot.room(),
    ensures
        slot.fed(bufs).well_formed(),
        slot.fed(bufs).bp == slot.bp + stream_of(bufs).len(),
        slot.fed(bufs).bpmax == slot.bpmax,
        slot.fed(bufs).driver == slot.driver,
        slot.fed(bufs).buffer.subrange(slot.bp, slot.fed(bufs).bp) == stream_of(bufs),
        slot.fed(bufs).buffer.subrange(0, slot.bp) == slot.buffer.subrange(0, slot.bp),
    decreases bufs.len(),
{
    if bufs.len() == 0 {
        assert(slot.buffer.subrange(slot.bp, slot.bp) =~= Seq::<i16>::empty());
    } else {
        let head = bufs.drop_last();
        let last = bufs.last();
        lemma_fed_stream(slot, head);
        let mid = slot.fed(head);
        let end = slot.fed(bufs);
        assert(end == mid.injected(last).advanced(last.len() as int));
        assert(end.buffer.subrange(slot.bp, end.bp) =~= stream_of(head) + last) by {
            assert forall|k: int| 0 <= k < end.bp - slot.bp implies end.buffer.subrange(
                slot.bp,
                end.bp,
            )[k] == (stream_of(head) + last)[k] by {
                if k < stream_of(head).len() {
                    assert(mid.buffer.subrange(slot.bp, mid.bp)[k] == stream_of(head)[k]);
                }
            }
        }
        assert(end.buffer.subrange(0, slot.bp) =~= slot.buffer.subrange(0, slot.bp)) by {
            assert forall|k: int| 0 <= k < slot.bp implies end.buffer[k] == slot.buffer[k] by {
                assert(mid.buffer.subrange(0, slot.bp)[k] == slot.buffer.subrange(0, slot.bp)[k]);
            }
        }
    }
}

/// What the read hook reports at the end of the stream.
pub const END_OF_STREAM: i32 = -1;

/// A producer handed over more samples than the buffer has room for.
#[derive(Debug, Clone, Copy, PartialEq, Eq, Structural)]
pub struct Overrun {
    /// The number of samples that were handed over.
    pub offered: usize,
    /// The room that was left.
    pub room: usize,
}

/// The audio input slot of a decoder.
#[derive(Debug)]
pub struct ADIn {
    driver: Driver,
    buffer: Vec<i16>,
    bpmax: i32,
    bp: i32,
}

impl View for ADIn {
    type V = ADInView;

    closed spec fn view(&self) -> ADInView {
        ADInView {
            driver: self.driver,
            buffer: self.buffer@,
            bpmax: self.bpmax as int,
            bp: self.bp as int,
        }
    }
}

impl ADIn {
    #[verifier::type_invariant]
    spec fn inv(self) -> bool {
        &&& 0 <= self.bp <= self.bpmax
        &&& self.buffer@.len() == self.bpmax
    }

    /// A slot with the given driver side, buffer and place of the next
    /// samples; `None` where the place lies outside the buffer or `bpmax` is
    /// not the buffer's length.
    pub fn new(driver: Driver, buffer: Vec<i16>, bpmax: i32, bp: i32) -> (r: Option<ADIn>)
        ensures
            r is Some <==> 0 <= bp <= bpmax && buffer@.len() == bpmax,
            r matches Some(a) ==> a@ == (ADInView {
                driver,
                buffer: buffer@,
                bpmax: bpmax as int,
                bp: bp as int,
            }) && a@.well_formed(),
    {
        if 0 <= bp && bp <= bpmax && buffer.len() == bpmax as usize {
            Some(ADIn { driver, buffer, bpmax, bp })
        } else {
            None
        }
    }

    /// A slot that nothing was installed in, with no buffer.
    pub fn idle() -> (a: ADIn)
        ensures
            a@ == (ADInView { driver: Driver::idle(), buffer: Seq::empty(), bpmax: 0, bp: 0 }),
            a@.well_formed(),
    {
        ADIn {
            driver: Driver {
                ad_standby: false,
                ad_begin: false,
                ad_end: false,
                ad_resume: false,
                ad_pause: false,
                ad_terminate: false,
                ad_read: ReadHook::Absent,
                ad_input_name: false,
                silence_cut_default: false,
                enable_thread: false,
                down_sample: false,
            },
            buffer: Vec::new(),
            bpmax: 0,
            bp: 0,
        }
    }

    /// The driver side of the slot.
    pub fn driver(&self) -> (d: Driver)
        ensures
            d == self@.driver,
    {
        self.driver
    }

    /// The sample buffer.
    pub fn buffer(&self) -> (b: &[i16])
        ensures
            b@ == self@.buffer,
            self@.well_formed(),
    {
        proof {
            use_type_invariant(self);
        }
        self.buffer.as_slice()
    }

    /// The place in the buffer where the next samples go.
    pub fn bp(&self) -> (p: i32)
        ensures
            p == self@.bp,
            self@.well_formed(),
    {
        proof {
            use_type_invariant(self);
        }
        self.bp
    }

    /// The room that is left for samples: the number of samples that a
    /// producer is asked for.
    pub fn samp_num(&self) -> (n: i32)
        ensures
            n == self@.room(),
            0 <= n,
            self@.well_formed(),
    {
        proof {
            use_type_invariant(self);
        }
        self.bpmax - self.bp
    }

    /// Makes the slot ready for injection: switches every hook of the driver
    /// off, installs the dummy read hook and clears the switches. The buffer
    /// stays as it is.
    pub fn ad_read_inject_prepare(&mut self)
        ensures
            final(self)@ == (ADInView { driver: Driver::injecting(), ..old(self)@ }),
    {
        proof {
            use_type_invariant(&*self);
        }
        self.driver =
        Driver {
            ad_standby: false,
            ad_begin: false,
            ad_end: false,
            ad_resume: false,
            ad_pause: false,
            ad_terminate: false,
            ad_read: ReadHook::Dummy,
            ad_input_name: false,
            silence_cut_default: false,
            enable_thread: false,
            down_sample: false,
        };
    }

    /// The dummy read hook: reads nothing and reports one sample, whatever
    /// room it is offered.
    pub fn dummy_ad_read(_sampnum: i32) -> (cnt: i32)
        ensures
            cnt == 1,
    {
        1
    }

    /// Takes what a producer handed over. Samples are copied to the place of
    /// the next samples, and their number is reported; the end of the stream
    /// is reported as `END_OF_STREAM` and leaves the slot as it is. The
    /// samples must fit the room that is left.
    pub fn ad_read_inject_callback(&mut self, data: Option<&[i16]>) -> (cnt: i32)
        requires
            data matches Some(d) ==> d@.len() <= old(self)@.room(),
        ensures
            match data {
                Some(d) => cnt == d@.len() && final(self)@ == old(self)@.injected(d@),
                None => cnt == END_OF_STREAM && final(self)@ == old(self)@,
            },
            final(self)@.well_formed(),
    {
        proof {
            use_type_invariant(&*self);
        }
        match data {
            Some(d) => {
                let cnt = d.len();
                let base = self.bp as usize;
                let mut slot = ADIn { driver: self.driver, buffer: Vec::new(), bpmax: 0, bp: 0 };
                std::mem::swap(self, &mut slot);
                let ADIn { driver, buffer, bpmax, bp } = slot;
                let mut buffer = buffer;
                let mut i: usize = 0;
                while i < cnt
                    invariant
                        i <= cnt,
                        cnt == d@.len(),
                        base == bp,
                        base + cnt <= buffer@.len(),
                        buffer@.len() == bpmax,
                        buffer@.len() == old(self).buffer@.len(),
                        forall|k: int| 0 <= k < base ==> buffer@[k] == old(self).buffer@[k],
                        forall|k: int| base <= k < base + i ==> buffer@[k] == d@[k - base],
                        forall|k: int|
                            base + i <= k < buffer@.len() ==> buffer@[k] == old(self).buffer@[k],
                    decreases cnt - i,
                {
                    buffer.set(base + i, d[i]);
                    i += 1;
                }
                *self = ADIn { driver, buffer, bpmax, bp };
                assert(self@.buffer =~= old(self)@.injected(d@).buffer);
                cnt as i32
            },
            None => END_OF_STREAM,
        }
    }

    /// Takes what a producer handed over, as `ad_read_inject_callback` does,
    /// but first holds the samples against the room that is left: where they
    /// do not fit, nothing is copied and the overrun is reported.
    pub fn inject(&mut self, data: Option<&[i16]>) -> (r: Result<i32, Overrun>)
        ensures
            match data {
                Some(d) => if d@.len() <= old(self)@.room() {
                    r == Ok::<i32, Overrun>(d@.len() as i32) && final(self)@ == old(
                        self,
                    )@.injected(d@)
                } else {
                    r == Err::<i32, Overrun>(
                        Overrun { offered: d@.len() as usize, room: old(self)@.room() as usize },
                    ) && final(self)@ == old(self)@
                },
                None => r == Ok::<i32, Overrun>(END_OF_STREAM) && final(self)@ == old(self)@,
            },
            final(self)@.well_formed(),
    {
        let room = self.samp_num() as usize;
        match data {
            Some(d) => {
                if d.len() <= room {
                    Ok(self.ad_read_inject_callback(Some(d)))
                } else {
                    Err(Overrun { offered: d.len(), room })
                }
            },
            None => Ok(self.ad_read_inject_callback(None)),
        }
    }

    /// The engine takes `cnt` of the samples that were copied in: the place
    /// of the next samples moves on by `cnt`.
    pub fn advance(&mut self, cnt: i32)
        requires
            0 <= cnt <= old(self)@.room(),
        ensures
            final(self)@ == old(self)@.advanced(cnt as int),
            final(self)@.well_formed(),
    {
        proof {
            use_type_invariant(&*self);
        }
        self.bp = self.bp + cnt;
    }
}

} // verus!
