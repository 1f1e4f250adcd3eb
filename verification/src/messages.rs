//! The messages that the web interface sends to the player.
use vstd::prelude::*;

verus! {

/// A command for the player.
pub enum CmdVal {
    /// Adds an external subtitle track: its address, title and language.
    SubAdd(String, String, String),
    /// Removes the subtitle track with this identifier.
    SubRemove(String),
    /// Any other command.
    Other {
        /// Whether the command changes what is played, and if so, whether it loads a file.
        media_transition: Option<bool>,
        /// The name of the command, followed by its arguments.
        parts: Vec<String>,
    },
}

/// The property that is to be observed, under the type of its value.
pub enum PropKey {
    Bool(String),
    Int(String),
    Fp(String),
    Str(String),
}

/// The value that a property is set to.
pub enum PropVal {
    Bool(bool),
    /// The bits of a 64-bit floating-point number.
    Num(u64),
    Str(String),
}

/// What a message asks for.
pub enum InMsgFn {
    MpvSetProp,
    MpvObserveProp,
    MpvSetGpuVideoProcessing,
    MpvCommand,
}

/// The arguments of a message.
pub enum InMsgArgs {
    StProp(String, PropVal),
    ObProp(PropKey),
    Flag(bool),
    Cmd(CmdVal),
}

/// A message of the web interface to the player.
pub struct InMsg(pub InMsgFn, pub InMsgArgs);

} // verus!
