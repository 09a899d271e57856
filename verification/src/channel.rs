use vstd::prelude::*;

use crate::command::ChannelCommand;
use crate::error::{Error, ErrorKind};
use crate::mode::ChannelMode;

verus! {

/// The protocol version assumed until the server says otherwise.
pub const DEFAULT_SONIC_PROTOCOL_VERSION: usize = 1;

/// The buffer size used until the server announces its own.
pub const UNINITIALIZED_MODE_MAX_BUFFER_SIZE: usize = 200;

/// The word every server greeting starts with.
pub open spec fn greeting_word() -> Seq<char> {
    "CONNECTED"@
}

/// Whether a greeting line accepts the connection.
pub open spec fn is_greeting(message: Seq<char>) -> bool {
    greeting_word().is_prefix_of(message)
}

/// What the server's reply to a start command announces.
#[derive(Debug, Clone, Copy, PartialEq, Eq)]
pub struct StartResponse {
    /// The mode the channel now runs in.
    pub mode: ChannelMode,
    /// The largest buffer the server accepts.
    pub max_buffer_size: usize,
    /// The protocol version the server speaks.
    pub protocol_version: usize,
}

/// The model of a channel's state: its mode (`None` until it is started),
/// its buffer size and its protocol version.
pub struct ChannelModel {
    pub mode: Option<ChannelMode>,
    pub max_buffer_size: usize,
    pub protocol_version: usize,
}

impl ChannelModel {
    /// The state of a channel that has just connected.
    pub open spec fn fresh() -> ChannelModel {
        ChannelModel {
            mode: None,
            max_buffer_size: UNINITIALIZED_MODE_MAX_BUFFER_SIZE,
            protocol_version: DEFAULT_SONIC_PROTOCOL_VERSION,
        }
    }

    /// Whether the channel may be started: only if it never was.
    pub open spec fn start_allowed(self) -> bool {
        self.mode is None
    }

    /// The state after the server answered a start command with `response`.
    pub open spec fn after_start(self, response: StartResponse) -> ChannelModel {
        ChannelModel {
            mode: Some(response.mode),
            max_buffer_size: response.max_buffer_size,
            protocol_version: response.protocol_version,
        }
    }

    /// Whether the channel may run `command`: a command tied to a mode runs
    /// only on a channel started in that mode.
    pub open spec fn command_allowed(self, command: ChannelCommand) -> bool {
        match command.spec_required_mode() {
            None => true,
            Some(required) => self.mode == Some(required),
        }
    }
}

/// Everything a channel knows of itself besides its stream.
#[derive(Debug)]
pub struct ChannelState {
    mode: Option<ChannelMode>,
    max_buffer_size: usize,
    protocol_version: usize,
}

impl View for ChannelState {
    type V = ChannelModel;

    closed spec fn view(&self) -> ChannelModel {
        ChannelModel {
            mode: self.mode,
            max_buffer_size: self.max_buffer_size,
            protocol_version: self.protocol_version,
        }
    }
}

impl ChannelState {
    /// The state of a channel that has just connected.
    pub fn new() -> (state: ChannelState)
        ensures
            state@ == ChannelModel::fresh(),
    {
        ChannelState {
            mode: None,
            max_buffer_size: UNINITIALIZED_MODE_MAX_BUFFER_SIZE,
            protocol_version: DEFAULT_SONIC_PROTOCOL_VERSION,
        }
    }

    /// Decides a connection from the first line the server sent: it is
    /// accepted when the line starts with `CONNECTED`, and the channel then
    /// starts out fresh; otherwise it is refused with `ConnectToServer`.
    pub fn from_greeting(message: &str) -> (res: Result<ChannelState, Error>)
        ensures
            res is Ok <==> is_greeting(message@),
            res matches Ok(state) ==> state@ == ChannelModel::fresh(),
            res matches Ok(state) ==> (state@.mode is None && state@.max_buffer_size == 200
                && state@.protocol_version == 1),
            res matches Err(e) ==> e.spec_kind() == ErrorKind::ConnectToServer,
    {
        if starts_with_greeting(message) {
            Ok(ChannelState::new())
        } else {
            Err(Error::new(ErrorKind::ConnectToServer))
        }
    }

    /// The mode the channel was started in, if any.
    pub fn mode(&self) -> (mode: Option<ChannelMode>)
        ensures
            mode == self@.mode,
    {
        self.mode
    }

    /// The buffer size for the channel's reads and writes.
    pub fn max_buffer_size(&self) -> (size: usize)
        ensures
            size == self@.max_buffer_size,
    {
        self.max_buffer_size
    }

    /// The protocol version the channel speaks.
    pub fn protocol_version(&self) -> (version: usize)
        ensures
            version == self@.protocol_version,
    {
        self.protocol_version
    }

    /// Decides whether the channel may be started: only a channel that was
    /// never started may, any other is refused with `RunCommand`.
    pub fn check_start(&self) -> (res: Result<(), Error>)
        ensures
            res is Ok <==> self@.start_allowed(),
            res matches Err(e) ==> e.spec_kind() == ErrorKind::RunCommand,
    {
        if self.mode.is_some() {
            Err(Error::new(ErrorKind::RunCommand))
        } else {
            Ok(())
        }
    }

    /// Takes over what the server announced in reply to the start command.
    /// Only a channel that was never started takes it over; a started one
    /// refuses with `RunCommand` and stays as it was.
    pub fn apply_start(&mut self, response: StartResponse) -> (res: Result<(), Error>)
        ensures
            res is Ok <==> old(self)@.start_allowed(),
            res is Ok ==> final(self)@ == old(self)@.after_start(response),
            res is Ok ==> final(self)@.mode == Some(response.mode),
            res is Ok ==> final(self)@.max_buffer_size == response.max_buffer_size,
            res is Ok ==> final(self)@.protocol_version == response.protocol_version,
            res matches Err(e) ==> (e.spec_kind() == ErrorKind::RunCommand && final(self)@ == old(
                self,
            )@),
    {
        if self.mode.is_some() {
            return Err(Error::new(ErrorKind::RunCommand));
        }
        self.max_buffer_size = response.max_buffer_size;
        self.protocol_version = response.protocol_version;
        self.mode = Some(response.mode);
        Ok(())
    }

    /// Decides whether the channel may run `command`; a refused command gets
    /// `UnsupportedCommand`, naming the command's method and the channel's
    /// mode.
    pub fn authorize(&self, command: ChannelCommand) -> (res: Result<(), Error>)
        ensures
            res is Ok <==> self@.command_allowed(command),
            res matches Err(e) ==> (e.spec_kind() matches ErrorKind::UnsupportedCommand((name, mode))
                && name@ == command.spec_name() && mode == self@.mode),
    {
        match command.required_mode() {
            None => Ok(()),
            Some(required) => {
                let mode = self.mode;
                let matches = match mode {
                    Some(current) => current == required,
                    None => false,
                };
                if matches {
                    Ok(())
                } else {
                    Err(Error::new(ErrorKind::UnsupportedCommand((command.name(), mode))))
                }
            },
        }
    }
}

/// A channel is started at most once: whatever the server announced, a
/// started channel refuses to start again.
pub proof fn lemma_start_only_once(state: ChannelModel, response: StartResponse)
    ensures
        !state.after_start(response).start_allowed(),
{
}

/// `quit` and `ping` run on every channel, started or not.
pub proof fn lemma_quit_and_ping_always_allowed(state: ChannelModel)
    ensures
        state.command_allowed(ChannelCommand::Quit),
        state.command_allowed(ChannelCommand::Ping),
{
}

/// A channel that was never started runs exactly the commands tied to no mode.
pub proof fn lemma_fresh_channel_commands(command: ChannelCommand)
    ensures
        ChannelModel::fresh().command_allowed(command) <==> command.spec_required_mode() is None,
{
}

/// A channel started in a mode runs exactly the commands of that mode and
/// those tied to no mode, whatever it ran in before.
pub proof fn lemma_started_channel_commands(
    state: ChannelModel,
    response: StartResponse,
    command: ChannelCommand,
)
    ensures
        state.after_start(response).command_allowed(command) <==> (
        command.spec_required_mode() is None || command.spec_required_mode() == Some(response.mode)),
{
}

/// No channel runs commands of two different modes.
pub proof fn lemma_one_mode_per_channel(state: ChannelModel, a: ChannelCommand, b: ChannelCommand)
    requires
        state.command_allowed(a),
        state.command_allowed(b),
        a.spec_required_mode() is Some,
        b.spec_required_mode() is Some,
    ensures
        a.spec_required_mode() == b.spec_required_mode(),
{
}

/// A greeting is accepted exactly when its first nine characters spell
/// `CONNECTED`; nothing after them matters.
pub proof fn lemma_greeting_is_connected_prefix(message: Seq<char>, rest: Seq<char>)
    ensures
        is_greeting(message) <==> (message.len() >= 9 && message.subrange(0, 9) == seq![
            'C',
            'O',
            'N',
            'N',
            'E',
            'C',
            'T',
            'E',
            'D',
        ]),
        is_greeting(message) ==> is_greeting(message + rest),
{
    reveal_strlit("CONNECTED");
    let word = seq!['C', 'O', 'N', 'N', 'E', 'C', 'T', 'E', 'D'];
    assert(greeting_word() =~= word);
    if is_greeting(message) {
        assert((message + rest).subrange(0, 9) =~= message.subrange(0, 9));
    }
}

/// A started channel holds exactly what the server announced, whatever it
/// held before and whatever the mode.
pub proof fn lemma_start_takes_over_reply(
    before: ChannelModel,
    other: ChannelModel,
    response: StartResponse,
)
    ensures
        before.after_start(response).mode == Some(response.mode),
        before.after_start(response).max_buffer_size == response.max_buffer_size,
        before.after_start(response).protocol_version == response.protocol_version,
        before.after_start(response) == other.after_start(response),
{
}

/// A fresh channel has no mode, a buffer of 200 and protocol version 1.
pub proof fn lemma_fresh_values()
    ensures
        ChannelModel::fresh().mode is None,
        ChannelModel::fresh().max_buffer_size == 200,
        ChannelModel::fresh().protocol_version == 1,
        ChannelModel::fresh().start_allowed(),
{
}

/// Whether `message` starts with the greeting word.
fn starts_with_greeting(message: &str) -> (ok: bool)
    ensures
        ok == is_greeting(message@),
{
    let word = "CONNECTED";
    proof {
        reveal_strlit("CONNECTED");
    }
    let word_len = word.unicode_len();
    let message_len = message.unicode_len();
    if message_len < word_len {
        return false;
    }
    let mut i: usize = 0;
    while i < word_len
        invariant
            word@ == greeting_word(),
            word_len == word@.len(),
            message_len == message@.len(),
            word_len <= message_len,
            i <= word_len,
            forall|j: int| 0 <= j < i ==> word@[j] == message@[j],
        decreases word_len - i,
    {
        if word.get_char(i) != message.get_char(i) {
            assert(!(word@ =~= message@.subrange(0, word@.len() as int))) by {
                assert(message@.subrange(0, word@.len() as int)[i as int] == message@[i as int]);
            }
            return false;
        }
        i = i + 1;
    }
    assert(word@ =~= message@.subrange(0, word@.len() as int));
    true
}

} // verus!
