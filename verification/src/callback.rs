//! The events that closures are bound to, and what binds them.
//!
//! The engine calls back through a function pointer and one address that it
//! hands back unchanged. A closure is bound by handing the engine a
//! trampoline that fits the kind of event, the event's code, and the address
//! of the closure.

use vstd::prelude::*;

verus! {

/// The events of the decoder that a closure can be bound to.
#[derive(Debug, Clone, Copy, PartialEq, Eq, Structural)]
pub enum CallbackType {
    /// Called periodically while the engine recognises.
    Poll,
    /// The engine became active.
    EventProcessOnline,
    /// The engine became inactive.
    EventProcessOffline,
    /// An input stream began.
    EventStreamBegin,
    /// An input stream ended.
    EventStreamEnd,
    /// The engine is ready for speech.
    EventSpeechReady,
    /// Speech was detected.
    EventSpeechStart,
    /// The end of speech was detected.
    EventSpeechStop,
    /// Recognition of an input began.
    EventRecognitionBegin,
    /// Recognition of an input ended.
    EventRecognitionEnd,
    /// A segment of a long input began.
    EventSegmentBegin,
    /// A segment of a long input ended.
    EventSegmentEnd,
    /// The first pass began.
    EventPass1Begin,
    /// The first pass took one frame.
    EventPass1Frame,
    /// The first pass ended.
    EventPass1End,
    /// An interim result of the first pass is there.
    ResultPass1Interim,
    /// The result of the first pass is there.
    ResultPass1,
    /// The word graph of the first pass is there.
    ResultPass1Graph,
    /// The parameters of the input are there.
    StatusParam,
    /// The second pass began.
    EventPass2Begin,
    /// The second pass ended.
    EventPass2End,
    /// The final result is there.
    Result,
    /// The result of the Gaussian-mixture computation is there.
    ResultGmm,
    /// The word graph of the final result is there.
    ResultGraph,
    /// The confusion network of the final result is there.
    ResultConfnet,
    /// The engine was paused.
    EventPause,
    /// The engine was resumed.
    EventResume,
    /// Called while the engine is paused; the engine goes on when it returns.
    PauseFunction,
    /// The second pass popped a hypothesis (for debugging).
    DebugPass2Pop,
    /// The second pass pushed a hypothesis (for debugging).
    DebugPass2Push,
    /// A word of the first pass was determined.
    ResultPass1Determined,
}

impl CallbackType {
    /// The engine's code for this event.
    pub open spec fn spec_code(self) -> i32 {
        match self {
            CallbackType::Poll => 0i32,
            CallbackType::EventProcessOnline => 1i32,
            CallbackType::EventProcessOffline => 2i32,
            CallbackType::EventStreamBegin => 3i32,
            CallbackType::EventStreamEnd => 4i32,
            CallbackType::EventSpeechReady => 5i32,
            CallbackType::EventSpeechStart => 6i32,
            CallbackType::EventSpeechStop => 7i32,
            CallbackType::EventRecognitionBegin => 8i32,
            CallbackType::EventRecognitionEnd => 9i32,
            CallbackType::EventSegmentBegin => 10i32,
            CallbackType::EventSegmentEnd => 11i32,
            CallbackType::EventPass1Begin => 12i32,
            CallbackType::EventPass1Frame => 13i32,
            CallbackType::EventPass1End => 14i32,
            CallbackType::ResultPass1Interim => 15i32,
            CallbackType::ResultPass1 => 16i32,
            CallbackType::ResultPass1Graph => 17i32,
            CallbackType::StatusParam => 18i32,
            CallbackType::EventPass2Begin => 19i32,
            CallbackType::EventPass2End => 20i32,
            CallbackType::Result => 21i32,
            CallbackType::ResultGmm => 22i32,
            CallbackType::ResultGraph => 23i32,
            CallbackType::ResultConfnet => 24i32,
            CallbackType::EventPause => 27i32,
            CallbackType::EventResume => 28i32,
            CallbackType::PauseFunction => 29i32,
            CallbackType::DebugPass2Pop => 30i32,
            CallbackType::DebugPass2Push => 31i32,
            CallbackType::ResultPass1Determined => 32i32,
        }
    }

    /// The event that an engine code stands for, if it stands for one.
    pub open spec fn spec_from_repr(discriminant: u32) -> Option<CallbackType> {
        if discriminant == 0 {
            Some(CallbackType::Poll)
        } else if discriminant == 1 {
            Some(CallbackType::EventProcessOnline)
        } else if discriminant == 2 {
            Some(CallbackType::EventProcessOffline)
        } else if discriminant == 3 {
            Some(CallbackType::EventStreamBegin)
        } else if discriminant == 4 {
            Some(CallbackType::EventStreamEnd)
        } else if discriminant == 5 {
            Some(CallbackType::EventSpeechReady)
        } else if discriminant == 6 {
            Some(CallbackType::EventSpeechStart)
        } else if discriminant == 7 {
            Some(CallbackType::EventSpeechStop)
        } else if discriminant == 8 {
            Some(CallbackType::EventRecognitionBegin)
        } else if discriminant == 9 {
            Some(CallbackType::EventRecognitionEnd)
        } else if discriminant == 10 {
            Some(CallbackType::EventSegmentBegin)
        } else if discriminant == 11 {
            Some(CallbackType::EventSegmentEnd)
        } else if discriminant == 12 {
            Some(CallbackType::EventPass1Begin)
        } else if discriminant == 13 {
            Some(CallbackType::EventPass1Frame)
        } else if discriminant == 14 {
            Some(CallbackType::EventPass1End)
        } else if discriminant == 15 {
            Some(CallbackType::ResultPass1Interim)
        } else if discriminant == 16 {
            Some(CallbackType::ResultPass1)
        } else if discriminant == 17 {
            Some(CallbackType::ResultPass1Graph)
        } else if discriminant == 18 {
            Some(CallbackType::StatusParam)
        } else if discriminant == 19 {
            Some(CallbackType::EventPass2Begin)
        } else if discriminant == 20 {
            Some(CallbackType::EventPass2End)
        } else if discriminant == 21 {
            Some(CallbackType::Result)
        } else if discriminant == 22 {
            Some(CallbackType::ResultGmm)
        } else if discriminant == 23 {
            Some(CallbackType::ResultGraph)
        } else if discriminant == 24 {
            Some(CallbackType::ResultConfnet)
        } else if discriminant == 27 {
            Some(CallbackType::EventPause)
        } else if discriminant == 28 {
            Some(CallbackType::EventResume)
        } else if discriminant == 29 {
            Some(CallbackType::PauseFunction)
        } else if discriminant == 30 {
            Some(CallbackType::DebugPass2Pop)
        } else if discriminant == 31 {
            Some(CallbackType::DebugPass2Push)
        } else if discriminant == 32 {
            Some(CallbackType::ResultPass1Determined)
        } else {
            None
        }
    }

    /// The engine's code for this event.
    pub fn code(self) -> (c: i32)
        ensures
            c == self.spec_code(),
    {
        match self {
            CallbackType::Poll => 0,
            CallbackType::EventProcessOnline => 1,
            CallbackType::EventProcessOffline => 2,
            CallbackType::EventStreamBegin => 3,
            CallbackType::EventStreamEnd => 4,
            CallbackType::EventSpeechReady => 5,
            CallbackType::EventSpeechStart => 6,
            CallbackType::EventSpeechStop => 7,
            CallbackType::EventRecognitionBegin => 8,
            CallbackType::EventRecognitionEnd => 9,
            CallbackType::EventSegmentBegin => 10,
            CallbackType::EventSegmentEnd => 11,
            CallbackType::EventPass1Begin => 12,
            CallbackType::EventPass1Frame => 13,
            CallbackType::EventPass1End => 14,
            CallbackType::ResultPass1Interim => 15,
            CallbackType::ResultPass1 => 16,
            CallbackType::ResultPass1Graph => 17,
            CallbackType::StatusParam => 18,
            CallbackType::EventPass2Begin => 19,
            CallbackType::EventPass2End => 20,
            CallbackType::Result => 21,
            CallbackType::ResultGmm => 22,
            CallbackType::ResultGraph => 23,
            CallbackType::ResultConfnet => 24,
            CallbackType::EventPause => 27,
            CallbackType::EventResume => 28,
            CallbackType::PauseFunction => 29,
            CallbackType::DebugPass2Pop => 30,
            CallbackType::DebugPass2Push => 31,
            CallbackType::ResultPass1Determined => 32,
        }
    }

    /// Decodes an engine code; `None` for one that names no event of this
    /// kind.
    pub fn from_repr(discriminant: u32) -> (r: Option<CallbackType>)
        ensures
            r == Self::spec_from_repr(discriminant),
    {
        match discriminant {
            0 => Some(CallbackType::Poll),
            1 => Some(CallbackType::EventProcessOnline),
            2 => Some(CallbackType::EventProcessOffline),
            3 => Some(CallbackType::EventStreamBegin),
            4 => Some(CallbackType::EventStreamEnd),
            5 => Some(CallbackType::EventSpeechReady),
            6 => Some(CallbackType::EventSpeechStart),
            7 => Some(CallbackType::EventSpeechStop),
            8 => Some(CallbackType::EventRecognitionBegin),
            9 => Some(CallbackType::EventRecognitionEnd),
            10 => Some(CallbackType::EventSegmentBegin),
            11 => Some(CallbackType::EventSegmentEnd),
            12 => Some(CallbackType::EventPass1Begin),
            13 => Some(CallbackType::EventPass1Frame),
            14 => Some(CallbackType::EventPass1End),
            15 => Some(CallbackType::ResultPass1Interim),
            16 => Some(CallbackType::ResultPass1),
            17 => Some(CallbackType::ResultPass1Graph),
            18 => Some(CallbackType::StatusParam),
            19 => Some(CallbackType::EventPass2Begin),
            20 => Some(CallbackType::EventPass2End),
            21 => Some(CallbackType::Result),
            22 => Some(CallbackType::ResultGmm),
            23 => Some(CallbackType::ResultGraph),
            24 => Some(CallbackType::ResultConfnet),
            27 => Some(CallbackType::EventPause),
            28 => Some(CallbackType::EventResume),
            29 => Some(CallbackType::PauseFunction),
            30 => Some(CallbackType::DebugPass2Pop),
            31 => Some(CallbackType::DebugPass2Push),
            32 => Some(CallbackType::ResultPass1Determined),
            _ => None,
        }
    }

    /// Every event decodes from its own code and from no other, and its code
    /// is none of the two that the audio notifications have.
    pub proof fn lemma_event_codes_one_to_one(event: CallbackType, discriminant: u32)
        ensures
            0 <= event.spec_code() <= 32,
            Self::spec_from_repr(event.spec_code() as u32) == Some(event),
            Self::spec_from_repr(discriminant) == Some(event) <==> discriminant
                == event.spec_code(),
            AdinCallbackType::spec_from_repr(event.spec_code() as u32) is None,
    {
    }
}

/// The audio notifications of the decoder that a closure can be bound to.
#[derive(Debug, Clone, Copy, PartialEq, Eq, Structural)]
pub enum AdinCallbackType {
    /// Samples were captured.
    Captured,
    /// Captured samples passed the detection of speech.
    Triggered,
}

impl AdinCallbackType {
    /// The engine's code for this notification.
    pub open spec fn spec_code(self) -> i32 {
        match self {
            AdinCallbackType::Captured => 25i32,
            AdinCallbackType::Triggered => 26i32,
        }
    }

    /// The notification that an engine code stands for, if it stands for one.
    pub open spec fn spec_from_repr(discriminant: u32) -> Option<AdinCallbackType> {
        if discriminant == 25 {
            Some(AdinCallbackType::Captured)
        } else if discriminant == 26 {
            Some(AdinCallbackType::Triggered)
        } else {
            None
        }
    }

    /// The engine's code for this notification.
    pub fn code(self) -> (c: i32)
        ensures
            c == self.spec_code(),
    {
        match self {
            AdinCallbackType::Captured => 25,
            AdinCallbackType::Triggered => 26,
        }
    }

    /// Decodes an engine code; `None` for one that names no audio
    /// notification.
    pub fn from_repr(discriminant: u32) -> (r: Option<AdinCallbackType>)
        ensures
            r == Self::spec_from_repr(discriminant),
    {
        match discriminant {
            25 => Some(AdinCallbackType::Captured),
            26 => Some(AdinCallbackType::Triggered),
            _ => None,
        }
    }

    /// Every notification decodes from its own code and from no other.
    pub proof fn lemma_audio_codes_one_to_one(event: AdinCallbackType, discriminant: u32)
        ensures
            Self::spec_from_repr(event.spec_code() as u32) == Some(event),
            Self::spec_from_repr(discriminant) == Some(event) <==> discriminant
                == event.spec_code(),
    {
    }
}

/// The trampoline that the engine is to call for a binding.
#[derive(Debug, Clone, Copy, PartialEq, Eq, Structural)]
pub enum Binding {
    /// The trampoline for events: it calls the closure with the decoder.
    Event(CallbackType),
    /// The trampoline for audio notifications: it calls the closure with the
    /// decoder and the captured samples.
    Audio(AdinCallbackType),
    /// The trampoline for injection: it asks the closure for samples.
    Inject,
}

/// What is handed to the engine to bind a closure: the trampoline and the
/// event that it is bound to, and the address of the closure, which the
/// engine hands back on each call.
#[derive(Debug, Clone, Copy, PartialEq, Eq, Structural)]
pub struct Registration {
    /// The trampoline and its event.
    pub binding: Binding,
    /// The address of the closure.
    pub context: usize,
}

impl Registration {
    /// The engine's code of the event, where the event has one of its own.
    pub open spec fn spec_code(self) -> Option<i32> {
        match self.binding {
            Binding::Event(e) => Some(e.spec_code()),
            Binding::Audio(e) => Some(e.spec_code()),
            Binding::Inject => None,
        }
    }

    /// The engine's code of the event, where the event has one of its own;
    /// injection goes by the code that the engine's build gives it.
    pub fn code(&self) -> (c: Option<i32>)
        ensures
            c == self.spec_code(),
    {
        match self.binding {
            Binding::Event(e) => Some(e.code()),
            Binding::Audio(e) => Some(e.code()),
            Binding::Inject => None,
        }
    }
}

} // verus!
