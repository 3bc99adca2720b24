//! Recognition processes and their results.

use crate::iter::BindIterator;
use crate::sentence_align::SentenceAlign;
use vstd::prelude::*;

verus! {

/// How a recognition pass ended.
#[derive(Debug, Clone, Copy, PartialEq, Eq, Structural)]
pub enum ResultStatus {
    /// The input was rejected as too long.
    RejectLong,
    /// The input buffer overflowed.
    BufferOverflow,
    /// The input was rejected by its power.
    RejectPower,
    /// The pass was terminated on request.
    Terminate,
    /// The input held nothing but silence.
    OnlySilence,
    /// The input was rejected by the Gaussian-mixture gate.
    RejectGmm,
    /// The input was rejected as too short.
    RejectShort,
    /// The search failed.
    Fail,
    /// The pass succeeded.
    Success,
}

impl ResultStatus {
    /// The engine's integer for this status.
    pub open spec fn spec_code(self) -> i32 {
        match self {
            ResultStatus::RejectLong => -8i32,
            ResultStatus::BufferOverflow => -7i32,
            ResultStatus::RejectPower => -6i32,
            ResultStatus::Terminate => -5i32,
            ResultStatus::OnlySilence => -4i32,
            ResultStatus::RejectGmm => -3i32,
            ResultStatus::RejectShort => -2i32,
            ResultStatus::Fail => -1i32,
            ResultStatus::Success => 0i32,
        }
    }

    /// The status that an engine integer stands for, if it stands for one.
    pub open spec fn spec_from_repr(discriminant: i32) -> Option<ResultStatus> {
        if discriminant == -8 {
            Some(ResultStatus::RejectLong)
        } else if discriminant == -7 {
            Some(ResultStatus::BufferOverflow)
        } else if discriminant == -6 {
            Some(ResultStatus::RejectPower)
        } else if discriminant == -5 {
            Some(ResultStatus::Terminate)
        } else if discriminant == -4 {
            Some(ResultStatus::OnlySilence)
        } else if discriminant == -3 {
            Some(ResultStatus::RejectGmm)
        } else if discriminant == -2 {
            Some(ResultStatus::RejectShort)
        } else if discriminant == -1 {
            Some(ResultStatus::Fail)
        } else if discriminant == 0 {
            Some(ResultStatus::Success)
        } else {
            None
        }
    }

    /// The engine's integer for this status.
    pub fn code(self) -> (c: i32)
        ensures
            c == self.spec_code(),
    {
        match self {
            ResultStatus::RejectLong => -8,
            ResultStatus::BufferOverflow => -7,
            ResultStatus::RejectPower => -6,
            ResultStatus::Terminate => -5,
            ResultStatus::OnlySilence => -4,
            ResultStatus::RejectGmm => -3,
            ResultStatus::RejectShort => -2,
            ResultStatus::Fail => -1,
            ResultStatus::Success => 0,
        }
    }

    /// Decodes an engine integer; `None` for one that names no status.
    pub fn from_repr(discriminant: i32) -> (r: Option<ResultStatus>)
        ensures
            r == Self::spec_from_repr(discriminant),
    {
        match discriminant {
            -8 => Some(ResultStatus::RejectLong),
            -7 => Some(ResultStatus::BufferOverflow),
            -6 => Some(ResultStatus::RejectPower),
            -5 => Some(ResultStatus::Terminate),
            -4 => Some(ResultStatus::OnlySilence),
            -3 => Some(ResultStatus::RejectGmm),
            -2 => Some(ResultStatus::RejectShort),
            -1 => Some(ResultStatus::Fail),
            0 => Some(ResultStatus::Success),
            _ => None,
        }
    }

    /// Decoding and encoding are inverse to each other: every status decodes
    /// from its own integer and from no other, and an integer that stands
    /// for a status is that status's integer.
    pub proof fn lemma_status_codes_one_to_one(status: ResultStatus, discriminant: i32)
        ensures
            Self::spec_from_repr(status.spec_code()) == Some(status),
            Self::spec_from_repr(discriminant) == Some(status) <==> discriminant
                == status.spec_code(),
    {
    }

    /// Exactly the integers from -8 to 0 stand for a status, and no integer
    /// but 0 decodes to success.
    pub proof fn lemma_unknown_status_is_no_success(discriminant: i32)
        ensures
            Self::spec_from_repr(discriminant) is Some <==> -8 <= discriminant <= 0,
            Self::spec_from_repr(discriminant) == Some(ResultStatus::Success) <==> discriminant
                == 0,
    {
    }
}

/// The unit by which an alignment segment is cut.
#[derive(Debug, Clone, Copy, PartialEq, Eq, Structural)]
pub enum AlignUnitType {
    /// One record per word.
    Word,
    /// One record per phoneme.
    Phoneme,
    /// One record per HMM state.
    State,
}

impl AlignUnitType {
    /// The engine's integer for this unit.
    pub open spec fn spec_code(self) -> i16 {
        match self {
            AlignUnitType::Word => 0i16,
            AlignUnitType::Phoneme => 1i16,
            AlignUnitType::State => 2i16,
        }
    }

    /// The unit that an engine integer stands for, if it stands for one.
    pub open spec fn spec_from_repr(discriminant: i16) -> Option<AlignUnitType> {
        if discriminant == 0 {
            Some(AlignUnitType::Word)
        } else if discriminant == 1 {
            Some(AlignUnitType::Phoneme)
        } else if discriminant == 2 {
            Some(AlignUnitType::State)
        } else {
            None
        }
    }

    /// The engine's integer for this unit.
    pub fn code(self) -> (c: i16)
        ensures
            c == self.spec_code(),
    {
        match self {
            AlignUnitType::Word => 0,
            AlignUnitType::Phoneme => 1,
            AlignUnitType::State => 2,
        }
    }

    /// Decodes an engine integer; `None` for one that names no unit.
    pub fn from_repr(discriminant: i16) -> (r: Option<AlignUnitType>)
        ensures
            r == Self::spec_from_repr(discriminant),
    {
        match discriminant {
            0 => Some(AlignUnitType::Word),
            1 => Some(AlignUnitType::Phoneme),
            2 => Some(AlignUnitType::State),
            _ => None,
        }
    }

    /// Every unit decodes from its own integer and from no other.
    pub proof fn lemma_unit_codes_one_to_one(unit: AlignUnitType, discriminant: i16)
        ensures
            Self::spec_from_repr(unit.spec_code()) == Some(unit),
            Self::spec_from_repr(discriminant) == Some(unit) <==> discriminant == unit.spec_code(),
    {
    }
}

/// One recognised sentence: the head of its chain of alignment segments.
#[derive(Debug)]
pub struct Sentence {
    align: Option<Box<SentenceAlign>>,
}

impl Sentence {
    /// The first alignment segment, if the sentence has any.
    pub closed spec fn first_align(&self) -> Option<&SentenceAlign> {
        match self.align {
            Some(b) => Some(&*b),
            None => None,
        }
    }

    /// The alignment segments of the sentence, in chain order.
    pub open spec fn align_chain(&self) -> Seq<&SentenceAlign> {
        match self.first_align() {
            Some(a) => a.chain(),
            None => Seq::empty(),
        }
    }

    /// A sentence whose chain of alignment segments starts at `align`.
    pub fn new(align: Option<SentenceAlign>) -> (r: Self)
        ensures
            match align {
                Some(a) => r.first_align() == Some(&a),
                None => r.first_align() is None,
            },
    {
        match align {
            Some(a) => Sentence { align: Some(Box::new(a)) },
            None => Sentence { align: None },
        }
    }

    /// A lazy walk over the alignment segments, in chain order. The walk
    /// follows each segment's link and yields the segments themselves.
    pub fn get_align<'a>(&'a self) -> (it: BindIterator<
        &'a SentenceAlign,
        &'a SentenceAlign,
        impl Fn(&'a SentenceAlign) -> Option<&'a SentenceAlign>,
        impl Fn(&'a SentenceAlign) -> &'a SentenceAlign,
    >)
        ensures
            it.current() == self.first_align(),
            it.is_chain(self.align_chain()),
            forall|n: &'a SentenceAlign, v: &'a SentenceAlign| #[trigger]
                it.constructor().ensures((n,), v) ==> v == n,
    {
        let get_next = |curr: &'a SentenceAlign| -> (r: Option<&'a SentenceAlign>)
            ensures
                r == curr.link(),
            { curr.next_segment() };
        let ctor = |curr: &'a SentenceAlign| -> (r: &'a SentenceAlign)
            ensures
                r == curr,
            { curr };
        let head: Option<&'a SentenceAlign> = match &self.align {
            Some(b) => Some(&**b),
            None => None,
        };
        proof {
            match head {
                Some(a) => {
                    a.lemma_chain();
                    a.lemma_chain_links();
                },
                None => {},
            }
        }
        let it = BindIterator::new(head, get_next, ctor);
        it
    }
}

/// The result of one recognition pass: a status and the recognised
/// sentences.
#[derive(Debug)]
pub struct Output {
    status: i32,
    sent: Vec<Sentence>,
}

impl Output {
    /// The engine's integer for the status.
    pub closed spec fn status_code(&self) -> i32 {
        self.status
    }

    /// The recognised sentences.
    pub closed spec fn sentences(&self) -> Seq<Sentence> {
        self.sent@
    }

    /// A result with the given status integer and sentences.
    pub fn new(status: i32, sent: Vec<Sentence>) -> (r: Self)
        ensures
            r.status_code() == status,
            r.sentences() == sent@,
    {
        Output { status, sent }
    }

    /// The engine's integer for the status, undecoded.
    pub fn raw_status(&self) -> (c: i32)
        ensures
            c == self.status_code(),
    {
        self.status
    }

    /// The status, decoded. The status integer must stand for a status;
    /// `ResultStatus::from_repr` on `raw_status` tells whether it does.
    pub fn status(&self) -> (s: ResultStatus)
        requires
            ResultStatus::spec_from_repr(self.status_code()) is Some,
        ensures
            ResultStatus::spec_from_repr(self.status_code()) == Some(s),
    {
        match ResultStatus::from_repr(self.status) {
            Some(s) => s,
            None => vstd::pervasive::unreached(),
        }
    }

    /// The recognised sentences, borrowed.
    pub fn get_sent(&self) -> (s: &[Sentence])
        ensures
            s@ == self.sentences(),
    {
        self.sent.as_slice()
    }
}

/// One recognition process of a decoder: whether it is live, its current
/// result, and the process that follows it in the decoder's list.
#[derive(Debug)]
pub struct RecogProcess {
    live: u8,
    result: Output,
    next: Option<Box<RecogProcess>>,
}

impl RecogProcess {
    /// The engine's liveness flag.
    pub closed spec fn live_flag(&self) -> u8 {
        self.live
    }

    /// The current result.
    pub closed spec fn output(&self) -> Output {
        self.result
    }

    /// The process that follows this one, if any.
    pub closed spec fn link(&self) -> Option<&RecogProcess> {
        match self.next {
            Some(b) => Some(&*b),
            None => None,
        }
    }

    /// This process and those that follow it, in order.
    pub closed spec fn chain(&self) -> Seq<&RecogProcess>
        decreases self,
    {
        match self.next {
            Some(b) => seq![self] + b.chain(),
            None => seq![self],
        }
    }

    /// The chain of a process starts with the process itself and goes on
    /// with the chain of the process that follows it.
    pub proof fn lemma_chain(&self)
        ensures
            self.chain().len() >= 1,
            self.chain()[0] == self,
            self.chain().skip(1) == match self.link() {
                Some(n) => n.chain(),
                None => Seq::empty(),
            },
    {
        match self.next {
            Some(b) => {
                assert((seq![self] + b.chain()).skip(1) =~= b.chain());
            },
            None => {
                assert(seq![self].skip(1) =~= Seq::<&RecogProcess>::empty());
            },
        }
    }

    /// In the chain of a process, each process is followed by its link, and
    /// the last has none.
    pub proof fn lemma_chain_links(&self)
        ensures
            forall|i: int|
                0 <= i < self.chain().len() ==> (#[trigger] self.chain()[i]).link() == (if i + 1
                    < self.chain().len() {
                    Some(self.chain()[i + 1])
                } else {
                    None
                }),
        decreases self,
    {
        match self.next {
            Some(b) => {
                b.lemma_chain_links();
                b.lemma_chain();
                let whole = self.chain();
                let rest = b.chain();
                assert(whole =~= seq![self] + rest);
                assert forall|i: int| 0 <= i < whole.len() implies (#[trigger] whole[i]).link()
                    == (if i + 1 < whole.len() {
                    Some(whole[i + 1])
                } else {
                    None
                }) by {
                    if i == 0 {
                        assert(whole[1] == rest[0]);
                    } else {
                        assert(whole[i] == rest[i - 1]);
                        if i + 1 < whole.len() {
                            assert(whole[i + 1] == rest[i]);
                        }
                    }
                }
            },
            None => {},
        }
    }

    /// A process with the given liveness flag and result, followed by `next`.
    pub fn new(live: u8, result: Output, next: Option<RecogProcess>) -> (r: Self)
        ensures
            r.live_flag() == live,
            r.output() == result,
            match next {
                Some(n) => r.link() == Some(&n),
                None => r.link() is None,
            },
    {
        match next {
            Some(n) => RecogProcess { live, result, next: Some(Box::new(n)) },
            None => RecogProcess { live, result, next: None },
        }
    }

    /// Whether the process is live: its flag is 1.
    pub fn is_live(&self) -> (r: bool)
        ensures
            r == (self.live_flag() == 1),
    {
        self.live == 1
    }

    /// The current result, borrowed.
    pub fn result(&self) -> (r: &Output)
        ensures
            *r == self.output(),
    {
        &self.result
    }

    /// The process that follows this one, if any.
    pub fn next_process(&self) -> (r: Option<&RecogProcess>)
        ensures
            r == self.link(),
    {
        match &self.next {
            Some(b) => Some(&**b),
            None => None,
        }
    }
}

} // verus!
