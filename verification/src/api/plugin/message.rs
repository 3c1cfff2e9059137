use vstd::prelude::*;

verus! {

/// A message that the host, or another plugin, sends to the plugin.
#[derive(Clone, Copy, Debug, PartialEq, Eq, Structural)]
pub enum Message {
    /// The user's plane crashed.
    PlaneCrashed,
    /// A plane was loaded; the payload is its index, 0 for the user's plane.
    PlaneLoaded(usize),
    /// A plane was unloaded; the payload is its index, 0 for the user's plane.
    PlaneUnloaded(usize),
    /// A livery was loaded; the payload is the index of the plane.
    LiveryLoaded(usize),
    /// The user's plane was positioned at a new airport.
    AirportLoaded,
    /// New scenery was loaded.
    SceneryLoaded,
    /// The user changed the number of planes.
    AirplaneCountChanged,
    /// The host is about to write its preferences.
    WillWritePrefs,
    /// The host is about to leave virtual reality.
    ExitingVr,
    /// The host has entered virtual reality.
    EnteredVr,
    /// Another plugin wants to take over the other planes.
    ReleasePlanes,
    /// Sound banks were loaded; the payload is the bank.
    FmodBankLoaded(usize),
    /// Sound banks are about to be unloaded; the payload is the bank.
    FmodBankUnloading(usize),
    /// Data refs were added; the payload is their new number.
    DataRefsAdded(usize),
    /// Any other message: the sender, the code and the parameter as they came.
    Custom(usize, usize, usize),
}

impl Message {
    /// The message that a code stands for. `param` is the pointer-sized
    /// parameter as an integer; it is never followed as a pointer.
    pub open spec fn decoded(from: i32, message: i32, param: usize) -> Message {
        if message == 101 {
            Message::PlaneCrashed
        } else if message == 102 {
            Message::PlaneLoaded(param)
        } else if message == 103 {
            Message::AirportLoaded
        } else if message == 104 {
            Message::SceneryLoaded
        } else if message == 105 {
            Message::AirplaneCountChanged
        } else if message == 106 {
            Message::PlaneUnloaded(param)
        } else if message == 107 {
            Message::WillWritePrefs
        } else if message == 108 {
            Message::LiveryLoaded(param)
        } else if message == 109 {
            Message::EnteredVr
        } else if message == 110 {
            Message::ExitingVr
        } else if message == 111 {
            Message::ReleasePlanes
        } else if message == 112 {
            Message::FmodBankLoaded(param)
        } else if message == 113 {
            Message::FmodBankUnloading(param)
        } else if message == 114 {
            Message::DataRefsAdded(param)
        } else {
            Message::Custom(from as usize, message as usize, param)
        }
    }

    /// Decodes what the host delivered at the plugin's message entry point.
    pub fn decode(from: i32, message: i32, param: usize) -> (r: Message)
        ensures
            r == Message::decoded(from, message, param),
    {
        match message {
            101 => Message::PlaneCrashed,
            102 => Message::PlaneLoaded(param),
            103 => Message::AirportLoaded,
            104 => Message::SceneryLoaded,
            105 => Message::AirplaneCountChanged,
            106 => Message::PlaneUnloaded(param),
            107 => Message::WillWritePrefs,
            108 => Message::LiveryLoaded(param),
            109 => Message::EnteredVr,
            110 => Message::ExitingVr,
            111 => Message::ReleasePlanes,
            112 => Message::FmodBankLoaded(param),
            113 => Message::FmodBankUnloading(param),
            114 => Message::DataRefsAdded(param),
            _ => Message::Custom(
                #[verifier::truncate]
                (from as usize),
                #[verifier::truncate]
                (message as usize),
                param,
            ),
        }
    }

    /// A code that the host gives no meaning to comes out as `Custom`, with
    /// the parameter untouched.
    pub proof fn lemma_unknown_code_is_custom(from: i32, message: i32, param: usize)
        requires
            !(101 <= message <= 114),
        ensures
            Message::decoded(from, message, param) matches Message::Custom(_, _, p) && p == param,
    {
    }

    /// The parameter of a message that carries one is the parameter that came.
    pub proof fn lemma_payload_preserved(from: i32, message: i32, param: usize)
        ensures
            match Message::decoded(from, message, param) {
                Message::PlaneLoaded(p)
                | Message::PlaneUnloaded(p)
                | Message::LiveryLoaded(p)
                | Message::FmodBankLoaded(p)
                | Message::FmodBankUnloading(p)
                | Message::DataRefsAdded(p)
                | Message::Custom(_, _, p) => p == param,
                _ => true,
            },
    {
    }
}

/// A value that can travel as the parameter of a message.
pub trait AsMessageParam {
    /// The pointer-sized parameter, as an integer.
    spec fn message_param(&self) -> usize;

    /// The pointer-sized parameter, as an integer.
    fn as_message_param(&self) -> (r: usize)
        ensures
            r == self.message_param(),
    ;
}

/// The parameter of a message that carries none.
#[derive(Clone, Copy, Debug, PartialEq, Eq, Structural)]
pub struct NoMessageParam;

impl AsMessageParam for NoMessageParam {
    /// The null pointer.
    open spec fn message_param(&self) -> usize {
        0
    }

    fn as_message_param(&self) -> (r: usize) {
        0
    }
}

} // verus!
