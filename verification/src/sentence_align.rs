//! Alignment segments of a recognised sentence and the phoneme symbols they
//! refer to.

use crate::recog_process::AlignUnitType;
use std::str::Utf8Error;
use vstd::prelude::*;
use vstd::string::StringExecFns;
use vstd::utf8::{decode_utf8, valid_utf8};

verus! {

/// The error of a failed UTF-8 decoding, carried through as it is.
#[verifier::external_type_specification]
#[verifier::external_body]
pub struct ExUtf8Error(Utf8Error);

/// `std::str::from_utf8`: succeeds exactly on well-formed UTF-8, and the
/// string it gives back then holds the characters that the bytes encode.
#[verifier::external_body]
fn str_from_utf8(bytes: &[u8]) -> (r: Result<&str, Utf8Error>)
    ensures
        r is Ok <==> valid_utf8(bytes@),
        r matches Ok(s) ==> s@ == decode_utf8(bytes@),
{
    std::str::from_utf8(bytes)
}

/// Decodes a name that the engine keeps as raw bytes, without taking it over.
fn decode_name(bytes: &Vec<u8>) -> (r: Result<String, Utf8Error>)
    ensures
        r is Ok <==> valid_utf8(bytes@),
        r matches Ok(s) ==> s@ == decode_utf8(bytes@),
{
    match str_from_utf8(bytes.as_slice()) {
        Ok(s) => Ok(String::from_str(s)),
        Err(e) => Err(e),
    }
}

/// A physical HMM definition, known by its name.
#[derive(Debug)]
pub struct HTKHMMData {
    name: Vec<u8>,
}

impl HTKHMMData {
    /// The bytes of the name, as the engine holds them.
    pub closed spec fn name_bytes(&self) -> Seq<u8> {
        self.name@
    }

    /// A definition with the given name bytes.
    pub fn new(name: Vec<u8>) -> (r: Self)
        ensures
            r.name_bytes() == name@,
    {
        HTKHMMData { name }
    }

    /// The name as text; an error where the bytes are not UTF-8.
    pub fn name(&self) -> (r: Result<String, Utf8Error>)
        ensures
            r is Ok <==> valid_utf8(self.name_bytes()),
            r matches Ok(s) ==> s@ == decode_utf8(self.name_bytes()),
    {
        decode_name(&self.name)
    }
}

/// A set of context-dependent definitions that a pseudo phoneme stands for,
/// known by its name.
#[derive(Debug)]
pub struct CDSet {
    name: Vec<u8>,
}

impl CDSet {
    /// The bytes of the name, as the engine holds them.
    pub closed spec fn name_bytes(&self) -> Seq<u8> {
        self.name@
    }

    /// A set with the given name bytes.
    pub fn new(name: Vec<u8>) -> (r: Self)
        ensures
            r.name_bytes() == name@,
    {
        CDSet { name }
    }

    /// The name as text; an error where the bytes are not UTF-8.
    pub fn name(&self) -> (r: Result<String, Utf8Error>)
        ensures
            r is Ok <==> valid_utf8(self.name_bytes()),
            r matches Ok(s) ==> s@ == decode_utf8(self.name_bytes()),
    {
        decode_name(&self.name)
    }
}

/// What a logical phoneme resolves to.
#[derive(Debug)]
pub enum HMMBody {
    /// A defined phoneme: one physical definition.
    Defined(HTKHMMData),
    /// A pseudo phoneme: a set of definitions.
    Pseudo(CDSet),
}

/// A logical phoneme symbol: a name and what it resolves to.
#[derive(Debug)]
pub struct HMMLogical {
    name: Vec<u8>,
    body: HMMBody,
}

impl HMMLogical {
    /// The bytes of the name, as the engine holds them.
    pub closed spec fn name_bytes(&self) -> Seq<u8> {
        self.name@
    }

    /// What the symbol resolves to.
    pub closed spec fn body(&self) -> HMMBody {
        self.body
    }

    /// Whether the symbol is a pseudo phoneme.
    pub open spec fn pseudo(&self) -> bool {
        self.body() is Pseudo
    }

    /// The text of the symbol: a pseudo phoneme in braces, a defined phoneme
    /// by its name alone where its definition has the same name, and else
    /// followed by the definition's name in square brackets.
    pub open spec fn symbol_text(&self) -> Seq<char> {
        match self.body() {
            HMMBody::Pseudo(_) => seq!['{'] + decode_utf8(self.name_bytes()) + seq!['}'],
            HMMBody::Defined(d) => if decode_utf8(d.name_bytes()) == decode_utf8(
                self.name_bytes(),
            ) {
                decode_utf8(self.name_bytes())
            } else {
                decode_utf8(self.name_bytes()) + seq!['['] + decode_utf8(d.name_bytes())
                    + seq![']']
            },
        }
    }

    /// Whether every name that the symbol's text is made of is UTF-8.
    pub open spec fn symbol_decodes(&self) -> bool {
        &&& valid_utf8(self.name_bytes())
        &&& self.body() matches HMMBody::Defined(d) ==> valid_utf8(d.name_bytes())
    }

    /// A defined phoneme.
    pub fn new_defined(name: Vec<u8>, defined: HTKHMMData) -> (r: Self)
        ensures
            r.name_bytes() == name@,
            r.body() == HMMBody::Defined(defined),
    {
        HMMLogical { name, body: HMMBody::Defined(defined) }
    }

    /// A pseudo phoneme.
    pub fn new_pseudo(name: Vec<u8>, cd_set: CDSet) -> (r: Self)
        ensures
            r.name_bytes() == name@,
            r.body() == HMMBody::Pseudo(cd_set),
    {
        HMMLogical { name, body: HMMBody::Pseudo(cd_set) }
    }

    /// The name as text; an error where the bytes are not UTF-8.
    pub fn name(&self) -> (r: Result<String, Utf8Error>)
        ensures
            r is Ok <==> valid_utf8(self.name_bytes()),
            r matches Ok(s) ==> s@ == decode_utf8(self.name_bytes()),
    {
        decode_name(&self.name)
    }

    /// Whether the symbol is a pseudo phoneme.
    pub fn is_pseudo(&self) -> (r: bool)
        ensures
            r == self.pseudo(),
    {
        match &self.body {
            HMMBody::Pseudo(_) => true,
            HMMBody::Defined(_) => false,
        }
    }

    /// The definition of a defined phoneme.
    pub fn defined(&self) -> (r: &HTKHMMData)
        requires
            !self.pseudo(),
        ensures
            self.body() == HMMBody::Defined(*r),
    {
        match &self.body {
            HMMBody::Defined(d) => d,
            HMMBody::Pseudo(_) => vstd::pervasive::unreached(),
        }
    }

    /// The definition set of a pseudo phoneme.
    pub fn cd_set(&self) -> (r: &CDSet)
        requires
            self.pseudo(),
        ensures
            self.body() == HMMBody::Pseudo(*r),
    {
        match &self.body {
            HMMBody::Pseudo(s) => s,
            HMMBody::Defined(_) => vstd::pervasive::unreached(),
        }
    }

    /// Renders the symbol as text. Fails, with the error of the first name
    /// that does not decode, exactly where a name it needs is not UTF-8.
    pub fn symbol(&self) -> (r: Result<String, Utf8Error>)
        ensures
            r is Ok <==> self.symbol_decodes(),
            r matches Ok(s) ==> s@ == self.symbol_text(),
    {
        let name = match self.name() {
            Ok(n) => n,
            Err(e) => {
                return Err(e);
            },
        };
        match &self.body {
            HMMBody::Pseudo(_) => {
                proof {
                    reveal_strlit("{");
                    reveal_strlit("}");
                }
                let mut out = String::from_str("{");
                out.append(name.as_str());
                out.append("}");
                assert(out@ =~= self.symbol_text());
                Ok(out)
            },
            HMMBody::Defined(d) => {
                let definition = match d.name() {
                    Ok(n) => n,
                    Err(e) => {
                        return Err(e);
                    },
                };
                if name == definition {
                    Ok(name)
                } else {
                    proof {
                        reveal_strlit("[");
                        reveal_strlit("]");
                    }
                    let mut out = name;
                    out.append("[");
                    out.append(definition.as_str());
                    out.append("]");
                    assert(out@ =~= self.symbol_text());
                    Ok(out)
                }
            },
        }
    }
}

/// Why a set of arrays is no alignment segment.
#[derive(Debug, Clone, Copy, PartialEq, Eq, Structural)]
pub enum LayoutError {
    /// The number of units is negative.
    NegativeCount,
    /// The unit type names no unit.
    UnknownUnit,
    /// An array that the unit type reads has another length than the number
    /// of units.
    ArrayLength,
}

/// Whether arrays of the given lengths hold one entry per unit, as far as a
/// segment cut by `unit` reads them.
pub open spec fn arrays_fit(
    unit: AlignUnitType,
    num: int,
    w: int,
    ph: int,
    loc: int,
    is_iwsp: Option<int>,
    begin_frame: int,
    end_frame: int,
    avgscore: int,
) -> bool {
    &&& begin_frame == num
    &&& end_frame == num
    &&& avgscore == num
    &&& match unit {
        AlignUnitType::Word => w == num,
        AlignUnitType::Phoneme => ph == num,
        AlignUnitType::State => {
            &&& ph == num
            &&& loc == num
            &&& is_iwsp matches Some(n) ==> n == num
        },
    }
}

/// One alignment segment of a sentence: parallel arrays with one entry per
/// unit, and the segment that follows it in the sentence's chain.
///
/// Scores are kept as the bit patterns of the engine's single-precision
/// numbers.
#[derive(Debug)]
pub struct SentenceAlign {
    num: i32,
    unittype: i16,
    w: Vec<i32>,
    ph: Vec<HMMLogical>,
    loc: Vec<i16>,
    is_iwsp: Option<Vec<u8>>,
    begin_frame: Vec<i32>,
    end_frame: Vec<i32>,
    avgscore: Vec<u32>,
    allscore: u32,
    next: Option<Box<SentenceAlign>>,
}

/// The lengths of an optional array.
pub open spec fn optional_len(array: Option<Seq<u8>>) -> Option<int> {
    match array {
        Some(a) => Some(a.len() as int),
        None => None,
    }
}

impl SentenceAlign {
    #[verifier::type_invariant]
    spec fn inv(self) -> bool {
        &&& 0 <= self.num
        &&& AlignUnitType::spec_from_repr(self.unittype) matches Some(unit) && arrays_fit(
            unit,
            self.num as int,
            self.w@.len() as int,
            self.ph@.len() as int,
            self.loc@.len() as int,
            optional_len(self.iwsp_flags()),
            self.begin_frame@.len() as int,
            self.end_frame@.len() as int,
            self.avgscore@.len() as int,
        )
    }

    /// The number of units.
    pub closed spec fn num(&self) -> int {
        self.num as int
    }

    /// The engine's integer for the unit type.
    pub closed spec fn unit_code(&self) -> i16 {
        self.unittype
    }

    /// The unit by which the segment is cut.
    pub open spec fn unit(&self) -> AlignUnitType {
        AlignUnitType::spec_from_repr(self.unit_code()).unwrap()
    }

    /// The word of each unit (read in a segment cut by words).
    pub closed spec fn words(&self) -> Seq<i32> {
        self.w@
    }

    /// The phoneme of each unit (read in a segment cut by phonemes or states).
    pub closed spec fn phonemes(&self) -> Seq<HMMLogical> {
        self.ph@
    }

    /// The state's place in its phoneme, for each unit (read in a segment cut
    /// by states).
    pub closed spec fn locs(&self) -> Seq<i16> {
        self.loc@
    }

    /// For each unit, non-zero where the state is an inter-word pause; absent
    /// where the engine does not tell (read in a segment cut by states).
    pub closed spec fn iwsp_flags(&self) -> Option<Seq<u8>> {
        match self.is_iwsp {
            Some(v) => Some(v@),
            None => None,
        }
    }

    /// The first frame of each unit.
    pub closed spec fn begin_frames(&self) -> Seq<i32> {
        self.begin_frame@
    }

    /// The last frame of each unit.
    pub closed spec fn end_frames(&self) -> Seq<i32> {
        self.end_frame@
    }

    /// The score of each unit, averaged over its frames.
    pub closed spec fn avgscores(&self) -> Seq<u32> {
        self.avgscore@
    }

    /// The score of the whole segment.
    pub closed spec fn allscore_bits(&self) -> u32 {
        self.allscore
    }

    /// The segment that follows this one, if any.
    pub closed spec fn link(&self) -> Option<&SentenceAlign> {
        match self.next {
            Some(b) => Some(&*b),
            None => None,
        }
    }

    /// This segment and those that follow it, in order.
    pub closed spec fn chain(&self) -> Seq<&SentenceAlign>
        decreases self,
    {
        match self.next {
            Some(b) => seq![self] + b.chain(),
            None => seq![self],
        }
    }

    /// The unit type names a unit, the number of units is not negative, and
    /// each array that the unit type reads has one entry per unit.
    pub open spec fn well_formed(&self) -> bool {
        &&& 0 <= self.num() <= i32::MAX
        &&& AlignUnitType::spec_from_repr(self.unit_code()) is Some
        &&& arrays_fit(
            self.unit(),
            self.num(),
            self.words().len() as int,
            self.phonemes().len() as int,
            self.locs().len() as int,
            optional_len(self.iwsp_flags()),
            self.begin_frames().len() as int,
            self.end_frames().len() as int,
            self.avgscores().len() as int,
        )
    }

    /// The chain of a segment starts with the segment itself and goes on
    /// with the chain of the segment that follows it.
    pub proof fn lemma_chain(&self)
        ensures
            self.chain().len() >= 1,
            self.chain()[0] == self,
            self.chain().skip(1) == match self.link() {
                Some(n) => n.chain(),
                None => Seq::empty(),
            },
    {
        match self.next {
            Some(b) => {
                assert((seq![self] + b.chain()).skip(1) =~= b.chain());
            },
            None => {
                assert(seq![self].skip(1) =~= Seq::<&SentenceAlign>::empty());
            },
        }
    }

    /// In the chain of a segment, each segment is followed by its link, and
    /// the last has none.
    pub proof fn lemma_chain_links(&self)
        ensures
            forall|i: int|
                0 <= i < self.chain().len() ==> (#[trigger] self.chain()[i]).link() == (if i + 1
                    < self.chain().len() {
                    Some(self.chain()[i + 1])
                } else {
                    None
                }),
        decreases self,
    {
        match self.next {
            Some(b) => {
                b.lemma_chain_links();
                b.lemma_chain();
                let whole = self.chain();
                let rest = b.chain();
                assert(whole =~= seq![self] + rest);
                assert forall|i: int| 0 <= i < whole.len() implies (#[trigger] whole[i]).link()
                    == (if i + 1 < whole.len() {
                    Some(whole[i + 1])
                } else {
                    None
                }) by {
                    if i == 0 {
                        assert(whole[1] == rest[0]);
                    } else {
                        assert(whole[i] == rest[i - 1]);
                        if i + 1 < whole.len() {
                            assert(whole[i + 1] == rest[i]);
                        }
                    }
                }
            },
            None => {},
        }
    }

    /// Builds a segment from the engine's fields. The arrays are checked
    /// against the number of units; which ones, the unit type decides.
    pub fn new(
        num: i32,
        unittype: i16,
        w: Vec<i32>,
        ph: Vec<HMMLogical>,
        loc: Vec<i16>,
        is_iwsp: Option<Vec<u8>>,
        begin_frame: Vec<i32>,
        end_frame: Vec<i32>,
        avgscore: Vec<u32>,
        allscore: u32,
        next: Option<SentenceAlign>,
    ) -> (r: Result<SentenceAlign, LayoutError>)
        ensures
            match r {
                Ok(a) => {
                    &&& 0 <= num
                    &&& AlignUnitType::spec_from_repr(unittype) is Some
                    &&& a.well_formed()
                    &&& a.num() == num
                    &&& a.unit_code() == unittype
                    &&& a.words() == w@
                    &&& a.phonemes() == ph@
                    &&& a.locs() == loc@
                    &&& a.iwsp_flags() == match is_iwsp {
                        Some(v) => Some(v@),
                        None => None,
                    }
                    &&& a.begin_frames() == begin_frame@
                    &&& a.end_frames() == end_frame@
                    &&& a.avgscores() == avgscore@
                    &&& a.allscore_bits() == allscore
                    &&& match next {
                        Some(n) => a.link() == Some(&n),
                        None => a.link() is None,
                    }
                },
                Err(LayoutError::NegativeCount) => num < 0,
                Err(LayoutError::UnknownUnit) => 0 <= num && AlignUnitType::spec_from_repr(
                    unittype,
                ) is None,
                Err(LayoutError::ArrayLength) => {
                    &&& 0 <= num
                    &&& AlignUnitType::spec_from_repr(unittype) matches Some(unit)
                    &&& !arrays_fit(
                        unit,
                        num as int,
                        w@.len() as int,
                        ph@.len() as int,
                        loc@.len() as int,
                        match is_iwsp {
                            Some(v) => Some(v@.len() as int),
                            None => None,
                        },
                        begin_frame@.len() as int,
                        end_frame@.len() as int,
                        avgscore@.len() as int,
                    )
                },
            },
    {
        if num < 0 {
            return Err(LayoutError::NegativeCount);
        }
        let unit = match AlignUnitType::from_repr(unittype) {
            Some(u) => u,
            None => {
                return Err(LayoutError::UnknownUnit);
            },
        };
        let n = num as usize;
        let common = begin_frame.len() == n && end_frame.len() == n && avgscore.len() == n;
        let own = match unit {
            AlignUnitType::Word => w.len() == n,
            AlignUnitType::Phoneme => ph.len() == n,
            AlignUnitType::State => ph.len() == n && loc.len() == n && match &is_iwsp {
                Some(v) => v.len() == n,
                None => true,
            },
        };
        if !(common && own) {
            return Err(LayoutError::ArrayLength);
        }
        let next = match next {
            Some(n) => Some(Box::new(n)),
            None => None,
        };
        Ok(
            SentenceAlign {
                num,
                unittype,
                w,
                ph,
                loc,
                is_iwsp,
                begin_frame,
                end_frame,
                avgscore,
                allscore,
                next,
            },
        )
    }

    /// The number of units. Every segment is well formed.
    pub fn len(&self) -> (n: usize)
        ensures
            n == self.num(),
            self.well_formed(),
    {
        proof {
            use_type_invariant(self);
        }
        self.num as usize
    }

    /// The score of the whole segment.
    pub fn allscore(&self) -> (r: u32)
        ensures
            r == self.allscore_bits(),
    {
        self.allscore
    }

    /// The segment that follows this one, if any.
    pub fn next_segment(&self) -> (r: Option<&SentenceAlign>)
        ensures
            r == self.link(),
    {
        match &self.next {
            Some(b) => Some(&**b),
            None => None,
        }
    }
}

/// One unit of a segment cut by words.
#[derive(Debug, Clone, Copy, PartialEq, Eq, Structural)]
pub struct SentenceAlignFrameWord {
    /// The first frame of the word.
    pub begin_frame: i32,
    /// The last frame of the word.
    pub end_frame: i32,
    /// The score averaged over the frames, as the bits of a single-precision
    /// number.
    pub avgscore: u32,
    /// The word's identifier.
    pub w: i32,
}

/// One unit of a segment cut by phonemes.
#[derive(Debug)]
pub struct SentenceAlignFramePhoneme<'a> {
    /// The first frame of the phoneme.
    pub begin_frame: i32,
    /// The last frame of the phoneme.
    pub end_frame: i32,
    /// The score averaged over the frames, as the bits of a single-precision
    /// number.
    pub avgscore: u32,
    /// The phoneme, borrowed from the segment.
    pub ph: &'a HMMLogical,
}

/// One unit of a segment cut by HMM states.
#[derive(Debug)]
pub struct SentenceAlignFrameState<'a> {
    /// The first frame of the state.
    pub begin_frame: i32,
    /// The last frame of the state.
    pub end_frame: i32,
    /// The score averaged over the frames, as the bits of a single-precision
    /// number.
    pub avgscore: u32,
    /// The phoneme that the state belongs to, borrowed from the segment.
    pub ph: &'a HMMLogical,
    /// The state's place in its phoneme.
    pub loc: i16,
    /// Whether the state is an inter-word pause, where the engine tells.
    pub is_iwsp: Option<bool>,
}

/// What every view of a segment offers, whatever its unit.
pub trait IAlignFrame {
    /// The segment that the view looks at.
    spec fn segment(&self) -> &SentenceAlign;

    /// The segment that the view looks at.
    fn sentence_align(&self) -> (r: &SentenceAlign)
        ensures
            r == self.segment(),
    ;

    /// The score of the whole segment, as the bits of a single-precision
    /// number.
    fn allscore(&self) -> (r: u32)
        ensures
            r == self.segment().allscore_bits(),
    {
        self.sentence_align().allscore()
    }
}

/// A segment seen as one record per word.
#[derive(Debug)]
pub struct WordFrame<'a>(&'a SentenceAlign);

/// A segment seen as one record per phoneme.
#[derive(Debug)]
pub struct PhonemeFrame<'a>(&'a SentenceAlign);

/// A segment seen as one record per HMM state.
#[derive(Debug)]
pub struct StateFrame<'a>(&'a SentenceAlign);

/// A segment seen by its unit.
#[derive(Debug)]
pub enum SentenceAlignWithType<'a> {
    /// Cut by words.
    Word(WordFrame<'a>),
    /// Cut by phonemes.
    Phoneme(PhonemeFrame<'a>),
    /// Cut by HMM states.
    State(StateFrame<'a>),
}

impl<'a> IAlignFrame for WordFrame<'a> {
    closed spec fn segment(&self) -> &SentenceAlign {
        self.0
    }

    fn sentence_align(&self) -> (r: &SentenceAlign) {
        self.0
    }
}

impl<'a> IAlignFrame for PhonemeFrame<'a> {
    closed spec fn segment(&self) -> &SentenceAlign {
        self.0
    }

    fn sentence_align(&self) -> (r: &SentenceAlign) {
        self.0
    }
}

impl<'a> IAlignFrame for StateFrame<'a> {
    closed spec fn segment(&self) -> &SentenceAlign {
        self.0
    }

    fn sentence_align(&self) -> (r: &SentenceAlign) {
        self.0
    }
}

impl SentenceAlign {
    /// The view of the segment that fits its unit.
    pub fn t(&self) -> (r: SentenceAlignWithType<'_>)
        ensures
            self.well_formed(),
            match self.unit() {
                AlignUnitType::Word => r matches SentenceAlignWithType::Word(f) && f.segment()
                    == self,
                AlignUnitType::Phoneme => r matches SentenceAlignWithType::Phoneme(f)
                    && f.segment() == self,
                AlignUnitType::State => r matches SentenceAlignWithType::State(f) && f.segment()
                    == self,
            },
    {
        proof {
            use_type_invariant(self);
        }
        match AlignUnitType::from_repr(self.unittype) {
            Some(AlignUnitType::Word) => SentenceAlignWithType::Word(WordFrame(self)),
            Some(AlignUnitType::Phoneme) => SentenceAlignWithType::Phoneme(PhonemeFrame(self)),
            Some(AlignUnitType::State) => SentenceAlignWithType::State(StateFrame(self)),
            None => vstd::pervasive::unreached(),
        }
    }
}

impl<'a> WordFrame<'a> {
    #[verifier::type_invariant]
    spec fn inv(self) -> bool {
        self.0.unit() == AlignUnitType::Word
    }

    /// The record of unit `k`.
    pub open spec fn frame_at(&self, k: int) -> SentenceAlignFrameWord {
        SentenceAlignFrameWord {
            begin_frame: self.segment().begin_frames()[k],
            end_frame: self.segment().end_frames()[k],
            avgscore: self.segment().avgscores()[k],
            w: self.segment().words()[k],
        }
    }

    /// The records of the segment, one per word, in order.
    pub fn frame_iter(&self) -> (frames: Vec<SentenceAlignFrameWord>)
        ensures
            self.segment().unit() == AlignUnitType::Word,
            frames@.len() == self.segment().num(),
            forall|k: int| 0 <= k < frames@.len() ==> #[trigger] frames@[k] == self.frame_at(k),
    {
        proof {
            use_type_invariant(self);
            use_type_invariant(self.0);
        }
        let a = self.0;
        let n = a.num as usize;
        let mut frames: Vec<SentenceAlignFrameWord> = Vec::new();
        let mut i: usize = 0;
        while i < n
            invariant
                a == self.0,
                a == self.segment(),
                n == a.num(),
                a.w@.len() == n,
                a.begin_frame@.len() == n,
                a.end_frame@.len() == n,
                a.avgscore@.len() == n,
                i <= n,
                frames@.len() == i,
                forall|k: int| 0 <= k < i ==> #[trigger] frames@[k] == self.frame_at(k),
            decreases n - i,
        {
            frames.push(
                SentenceAlignFrameWord {
                    w: a.w[i],
                    begin_frame: a.begin_frame[i],
                    end_frame: a.end_frame[i],
                    avgscore: a.avgscore[i],
                },
            );
            i += 1;
        }
        frames
    }
}

impl<'a> PhonemeFrame<'a> {
    #[verifier::type_invariant]
    spec fn inv(self) -> bool {
        self.0.unit() == AlignUnitType::Phoneme
    }

    /// The record of unit `k`.
    pub open spec fn frame_at(&self, k: int) -> SentenceAlignFramePhoneme<'a> {
        SentenceAlignFramePhoneme {
            begin_frame: self.segment().begin_frames()[k],
            end_frame: self.segment().end_frames()[k],
            avgscore: self.segment().avgscores()[k],
            ph: &self.segment().phonemes()[k],
        }
    }

    /// The records of the segment, one per phoneme, in order.
    pub fn frame_iter(&self) -> (frames: Vec<SentenceAlignFramePhoneme<'a>>)
        ensures
            self.segment().unit() == AlignUnitType::Phoneme,
            frames@.len() == self.segment().num(),
            forall|k: int| 0 <= k < frames@.len() ==> #[trigger] frames@[k] == self.frame_at(k),
    {
        proof {
            use_type_invariant(self);
            use_type_invariant(self.0);
        }
        let a = self.0;
        let n = a.num as usize;
        let mut frames: Vec<SentenceAlignFramePhoneme<'a>> = Vec::new();
        let mut i: usize = 0;
        while i < n
            invariant
                a == self.0,
                a == self.segment(),
                n == a.num(),
                a.ph@.len() == n,
                a.begin_frame@.len() == n,
                a.end_frame@.len() == n,
                a.avgscore@.len() == n,
                i <= n,
                frames@.len() == i,
                forall|k: int| 0 <= k < i ==> #[trigger] frames@[k] == self.frame_at(k),
            decreases n - i,
        {
            frames.push(
                SentenceAlignFramePhoneme {
                    ph: &a.ph[i],
                    begin_frame: a.begin_frame[i],
                    end_frame: a.end_frame[i],
                    avgscore: a.avgscore[i],
                },
            );
            i += 1;
        }
        frames
    }
}

impl<'a> StateFrame<'a> {
    #[verifier::type_invariant]
    spec fn inv(self) -> bool {
        self.0.unit() == AlignUnitType::State
    }

    /// The record of unit `k`. The pause flag is present exactly where the
    /// segment has the array of flags, and set where the unit's flag is not
    /// zero.
    pub open spec fn frame_at(&self, k: int) -> SentenceAlignFrameState<'a> {
        SentenceAlignFrameState {
            begin_frame: self.segment().begin_frames()[k],
            end_frame: self.segment().end_frames()[k],
            avgscore: self.segment().avgscores()[k],
            ph: &self.segment().phonemes()[k],
            loc: self.segment().locs()[k],
            is_iwsp: match self.segment().iwsp_flags() {
                Some(flags) => Some(flags[k] != 0),
                None => None,
            },
        }
    }

    /// The records of the segment, one per HMM state, in order.
    pub fn frame_iter(&self) -> (frames: Vec<SentenceAlignFrameState<'a>>)
        ensures
            self.segment().unit() == AlignUnitType::State,
            frames@.len() == self.segment().num(),
            forall|k: int| 0 <= k < frames@.len() ==> #[trigger] frames@[k] == self.frame_at(k),
    {
        proof {
            use_type_invariant(self);
            use_type_invariant(self.0);
        }
        let a = self.0;
        let n = a.num as usize;
        let mut frames: Vec<SentenceAlignFrameState<'a>> = Vec::new();
        let mut i: usize = 0;
        while i < n
            invariant
                a == self.0,
                a == self.segment(),
                n == a.num(),
                a.ph@.len() == n,
                a.loc@.len() == n,
                a.is_iwsp matches Some(v) ==> v@.len() == n,
                a.begin_frame@.len() == n,
                a.end_frame@.len() == n,
                a.avgscore@.len() == n,
                i <= n,
                frames@.len() == i,
                forall|k: int| 0 <= k < i ==> #[trigger] frames@[k] == self.frame_at(k),
            decreases n - i,
        {
            let is_iwsp = match &a.is_iwsp {
                Some(flags) => Some(flags[i] != 0),
                None => None,
            };
            frames.push(
                SentenceAlignFrameState {
                    ph: &a.ph[i],
                    loc: a.loc[i],
                    is_iwsp,
                    begin_frame: a.begin_frame[i],
                    end_frame: a.end_frame[i],
                    avgscore: a.avgscore[i],
                },
            );
            i += 1;
        }
        frames
    }
}

} // verus!
