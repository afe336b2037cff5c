use vstd::prelude::*;

verus! {

/// Arguments of `run_code`: Luau source to run in Studio.
#[derive(Debug, Clone)]
pub struct RunCode {
    pub command: String,
}

/// Arguments of `insert_model`: the marketplace query for the model.
#[derive(Debug, Clone)]
pub struct InsertModel {
    pub query: String,
}

/// Arguments of `get_console_output` (none).
#[derive(Debug, Clone)]
pub struct GetConsoleOutput {}

/// Arguments of `get_studio_mode` (none).
#[derive(Debug, Clone)]
pub struct GetStudioMode {}

/// Arguments of `start_stop_play`: `start_play`, `stop` or `run_server`.
#[derive(Debug, Clone)]
pub struct StartStopPlay {
    pub mode: String,
}

/// Arguments of `run_script_in_play_mode`.
#[derive(Debug, Clone)]
pub struct RunScriptInPlayMode {
    pub code: String,
    pub timeout: Option<u32>,
    pub mode: String,
}

/// The tool invocations that are relayed to the Studio plugin.
#[derive(Debug, Clone)]
pub enum ToolArgumentValues {
    RunCode(RunCode),
    InsertModel(InsertModel),
    GetConsoleOutput(GetConsoleOutput),
    StartStopPlay(StartStopPlay),
    RunScriptInPlayMode(RunScriptInPlayMode),
    GetStudioMode(GetStudioMode),
}

/// A command for the Studio plugin, tagged with the request id its reply must carry.
/// The id is the 128-bit value of a UUID.
#[derive(Debug, Clone)]
pub struct ToolArguments {
    pub args: ToolArgumentValues,
    pub id: Option<u128>,
}

/// The plugin's reply to a command: whether it ran, its output or error text, and the command's id.
#[derive(Debug, Clone)]
pub struct RunCommandResponse {
    pub success: bool,
    pub response: String,
    pub id: u128,
}

/// The result of a relayed command: its output, or the error text the plugin reported.
pub type CommandResult = Result<String, String>;

/// What a tool call answers the MCP client: a success carrying the command's output, or an
/// error carrying its error text.
pub struct ToolReply {
    pub is_error: bool,
    pub text: String,
}

/// `reply` answers a tool call whose command produced `result`.
pub open spec fn answers(result: CommandResult, reply: ToolReply) -> bool {
    &&& result matches Ok(out) ==> !reply.is_error && reply.text == out
    &&& result matches Err(err) ==> reply.is_error && reply.text == err
}

/// The answer to a tool call whose command produced `result`.
pub fn tool_reply(result: CommandResult) -> (reply: ToolReply)
    ensures
        answers(result, reply),
{
    match result {
        Ok(out) => ToolReply { is_error: false, text: out },
        Err(err) => ToolReply { is_error: true, text: err },
    }
}

/// The bit layout of a random (version 4, RFC 4122 variant) UUID read as a big-endian `u128`:
/// the version nibble is 4 and the two variant bits are `10`.
pub open spec fn is_random_uuid(id: u128) -> bool {
    &&& (id >> 76u128) & 0xfu128 == 4
    &&& (id >> 62u128) & 0x3u128 == 2
}

/// `uuid::Uuid::new_v4`, taken as its big-endian 128-bit value (`Uuid::as_u128`).
/// The bits come from the operating system's random source; whatever they are, the crate sets
/// the version and variant bits, and that is all this contract states.
#[verifier::external_body]
fn new_random_id() -> (id: u128)
    ensures
        is_random_uuid(id),
{
    uuid::Uuid::new_v4().as_u128()
}

impl ToolArguments {
    /// A command for `args` with a fresh random request id, and that id.
    pub fn new(args: ToolArgumentValues) -> (res: (Self, u128))
        ensures
            res.0.args == args,
            res.0.id == Some(res.1),
            is_random_uuid(res.1),
    {
        ToolArguments { args, id: None }.with_id()
    }

    /// The same command under a fresh random request id, and that id.
    pub fn with_id(self) -> (res: (Self, u128))
        ensures
            res.0.args == self.args,
            res.0.id == Some(res.1),
            is_random_uuid(res.1),
    {
        let id = new_random_id();
        (ToolArguments { args: self.args, id: Some(id) }, id)
    }
}

/// A tool call is answered as an error exactly when its command failed, and the answer's text
/// is the command's output or error text, unchanged.
pub proof fn law_reply_marks_failures(result: CommandResult, reply: ToolReply)
    requires
        answers(result, reply),
    ensures
        reply.is_error <==> result is Err,
        reply.text == match result {
            Ok(out) => out,
            Err(err) => err,
        },
{
}

} // verus!
