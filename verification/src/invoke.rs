//! The commands that the player can ask of its host, by the names under
//! which the host knows them.

use vstd::prelude::*;
use crate::errors::RehashError;

verus! {

/// A command of the host.
#[derive(Debug, Clone, Copy, PartialEq, Eq, Structural)]
pub enum InvokeCommands {
    GetDesktopBuild,
    WasmLog,
    WasmError,
    CreateVideoStream,
    GetChunk,
}

impl InvokeCommands {
    /// The name under which the host knows this command.
    pub open spec fn spec_name(self) -> Seq<char> {
        match self {
            InvokeCommands::GetDesktopBuild => "get_desktop_build"@,
            InvokeCommands::WasmLog => "wasm_log"@,
            InvokeCommands::WasmError => "wasm_error"@,
            InvokeCommands::CreateVideoStream => "create_video_stream"@,
            InvokeCommands::GetChunk => "get_chunk"@,
        }
    }

    /// The command that the host knows under `name`, if there is one.
    pub open spec fn spec_try_from(name: Seq<char>) -> Option<InvokeCommands> {
        if name == "get_desktop_build"@ {
            Some(InvokeCommands::GetDesktopBuild)
        } else if name == "wasm_log"@ {
            Some(InvokeCommands::WasmLog)
        } else if name == "wasm_error"@ {
            Some(InvokeCommands::WasmError)
        } else if name == "create_video_stream"@ {
            Some(InvokeCommands::CreateVideoStream)
        } else if name == "get_chunk"@ {
            Some(InvokeCommands::GetChunk)
        } else {
            None
        }
    }

    /// The name under which the host knows this command.
    pub fn name(&self) -> (name: &'static str)
        ensures
            name@ == self.spec_name(),
    {
        match self {
            InvokeCommands::GetDesktopBuild => "get_desktop_build",
            InvokeCommands::WasmLog => "wasm_log",
            InvokeCommands::WasmError => "wasm_error",
            InvokeCommands::CreateVideoStream => "create_video_stream",
            InvokeCommands::GetChunk => "get_chunk",
        }
    }

    /// The command that the host knows under `value`. Any other name is an
    /// unknown invoke command.
    pub fn try_from(value: &str) -> (r: Result<InvokeCommands, RehashError>)
        ensures
            r is Ok <==> Self::spec_try_from(value@) is Some,
            r matches Ok(command) ==> Self::spec_try_from(value@) == Some(command),
            r matches Err(e) ==> e.0@ == "Unknown invoke command"@,
    {
        let name = String::from_str(value);
        if name == String::from_str("get_desktop_build") {
            Ok(InvokeCommands::GetDesktopBuild)
        } else if name == String::from_str("wasm_log") {
            Ok(InvokeCommands::WasmLog)
        } else if name == String::from_str("wasm_error") {
            Ok(InvokeCommands::WasmError)
        } else if name == String::from_str("create_video_stream") {
            Ok(InvokeCommands::CreateVideoStream)
        } else if name == String::from_str("get_chunk") {
            Ok(InvokeCommands::GetChunk)
        } else {
            Err(RehashError::from_text("Unknown invoke command"))
        }
    }

    /// Each command is found again under its name.
    pub proof fn lemma_name_round_trip(self)
        ensures
            Self::spec_try_from(self.spec_name()) == Some(self),
    {
        reveal_strlit("get_desktop_build");
        reveal_strlit("wasm_log");
        reveal_strlit("wasm_error");
        reveal_strlit("create_video_stream");
        reveal_strlit("get_chunk");
        assert("get_desktop_build"@.len() == 17);
        assert("wasm_log"@.len() == 8);
        assert("wasm_error"@.len() == 10);
        assert("create_video_stream"@.len() == 19);
        assert("get_chunk"@.len() == 9);
    }
}

} // verus!
