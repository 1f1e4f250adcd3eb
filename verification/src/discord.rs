//! What the user watches, shown in Discord: the commands of the web interface, and the worker that
//! keeps the connection.
use vstd::prelude::*;

verus! {

/// The application that the shell is to Discord.
pub const DISCORD_APP_ID: &'static str = "1452620752263319665";

/// A command to the worker.
#[derive(Debug)]
pub enum DiscordCommand {
    /// Connect to Discord.
    Connect,
    /// End the connection.
    Disconnect,
    /// Show what the user watches.
    SetActivity {
        state: String,
        details: String,
        large_image: Option<String>,
        start_timestamp: Option<i64>,
        end_timestamp: Option<i64>,
    },
    /// Show nothing.
    ClearActivity,
}

/// The texts of a `DiscordCommand`.
pub enum DiscordCommandModel {
    Connect,
    Disconnect,
    SetActivity {
        state: Seq<char>,
        details: Seq<char>,
        large_image: Option<Seq<char>>,
        start_timestamp: Option<i64>,
        end_timestamp: Option<i64>,
    },
    ClearActivity,
}

impl View for DiscordCommand {
    type V = DiscordCommandModel;

    open spec fn view(&self) -> DiscordCommandModel {
        match *self {
            DiscordCommand::Connect => DiscordCommandModel::Connect,
            DiscordCommand::Disconnect => DiscordCommandModel::Disconnect,
            DiscordCommand::SetActivity {
                state,
                details,
                large_image,
                start_timestamp,
                end_timestamp,
            } => DiscordCommandModel::SetActivity {
                state: state@,
                details: details@,
                large_image: match large_image {
                    Some(image) => Some(image@),
                    None => None,
                },
                start_timestamp,
                end_timestamp,
            },
            DiscordCommand::ClearActivity => DiscordCommandModel::ClearActivity,
        }
    }
}

/// The sending end of the queue of commands. Commands wait in it until they are handed to the
/// worker; once the worker has gone, the queue is closed and takes no more.
#[derive(Debug)]
pub struct DiscordRpc {
    commands: Vec<DiscordCommand>,
    open: bool,
}

/// What a `DiscordRpc` stands for.
#[verifier::ext_equal]
pub struct DiscordQueue {
    /// The commands that wait, oldest first.
    pub commands: Seq<DiscordCommandModel>,
    /// Whether the worker is there.
    pub open: bool,
}

impl View for DiscordRpc {
    type V = DiscordQueue;

    closed spec fn view(&self) -> DiscordQueue {
        DiscordQueue {
            commands: self.commands@.map_values(|command: DiscordCommand| command@),
            open: self.open,
        }
    }
}

impl DiscordQueue {
    /// The queue with one more command, if it is open.
    pub open spec fn sent(self, command: DiscordCommandModel) -> Self {
        if self.open {
            DiscordQueue { commands: self.commands.push(command), ..self }
        } else {
            self
        }
    }

    /// What the sender of a command is told.
    pub open spec fn receipt(self, result: Result<(), String>) -> bool {
        match result {
            Ok(_) => self.open,
            Err(error) => !self.open && error@
                == "Failed to send Discord command: sending on a closed channel"@,
        }
    }
}

impl DiscordRpc {
    /// An open queue without commands.
    pub fn new() -> (rpc: Self)
        ensures
            rpc@ == (DiscordQueue { commands: Seq::empty(), open: true }),
    {
        let rpc = DiscordRpc { commands: Vec::new(), open: true };
        assert(rpc@.commands =~= Seq::empty());
        rpc
    }

    /// Asks for a connection to Discord.
    pub fn connect(&mut self) -> (result: Result<(), String>)
        ensures
            final(self)@ == old(self)@.sent(DiscordCommandModel::Connect),
            old(self)@.receipt(result),
    {
        self.send(DiscordCommand::Connect)
    }

    /// Asks for the end of the connection.
    pub fn disconnect(&mut self) -> (result: Result<(), String>)
        ensures
            final(self)@ == old(self)@.sent(DiscordCommandModel::Disconnect),
            old(self)@.receipt(result),
    {
        self.send(DiscordCommand::Disconnect)
    }

    /// Asks to show what the user watches.
    pub fn set_activity(
        &mut self,
        state: &str,
        details: &str,
        large_image: Option<&str>,
        start_timestamp: Option<i64>,
        end_timestamp: Option<i64>,
    ) -> (result: Result<(), String>)
        ensures
            final(self)@ == old(self)@.sent(
                DiscordCommandModel::SetActivity {
                    state: state@,
                    details: details@,
                    large_image: match large_image {
                        Some(image) => Some(image@),
                        None => None,
                    },
                    start_timestamp,
                    end_timestamp,
                },
            ),
            old(self)@.receipt(result),
    {
        let large_image = match large_image {
            Some(image) => Some(image.to_owned()),
            None => None,
        };
        self.send(
            DiscordCommand::SetActivity {
                state: state.to_owned(),
                details: details.to_owned(),
                large_image,
                start_timestamp,
                end_timestamp,
            },
        )
    }

    /// Asks to show nothing.
    pub fn clear_activity(&mut self) -> (result: Result<(), String>)
        ensures
            final(self)@ == old(self)@.sent(DiscordCommandModel::ClearActivity),
            old(self)@.receipt(result),
    {
        self.send(DiscordCommand::ClearActivity)
    }

    /// Puts a command into the queue.
    pub fn send(&mut self, command: DiscordCommand) -> (result: Result<(), String>)
        ensures
            final(self)@ == old(self)@.sent(command@),
            old(self)@.receipt(result),
    {
        if !self.open {
            return Err("Failed to send Discord command: sending on a closed channel".to_owned());
        }
        self.commands.push(command);
        assert(self@ =~= old(self)@.sent(command@));
        Ok(())
    }

    /// Takes the commands that wait, oldest first, to hand them to the worker.
    pub fn take_commands(&mut self) -> (taken: Vec<DiscordCommand>)
        ensures
            taken@.map_values(|command: DiscordCommand| command@) == old(self)@.commands,
            final(self)@ == (DiscordQueue { commands: Seq::empty(), ..old(self)@ }),
    {
        let mut taken: Vec<DiscordCommand> = Vec::new();
        taken.append(&mut self.commands);
        assert(taken@ =~= old(self).commands@);
        assert(self@.commands =~= Seq::empty());
        taken
    }

    /// Closes the queue, since the worker has gone.
    pub fn close(&mut self)
        ensures
            final(self)@ == (DiscordQueue { open: false, ..old(self)@ }),
    {
        self.open = false;
    }
}

/// What Discord is told to show.
#[derive(Debug)]
pub struct ActivityPayload {
    pub state: String,
    pub details: String,
    pub large_image: String,
    pub large_text: String,
    /// The beginning and the end of what is watched, if one of them is known.
    pub timestamps: Option<(Option<i64>, Option<i64>)>,
}

/// The texts of an `ActivityPayload`.
pub struct ActivityModel {
    pub state: Seq<char>,
    pub details: Seq<char>,
    pub large_image: Seq<char>,
    pub large_text: Seq<char>,
    pub timestamps: Option<(Option<i64>, Option<i64>)>,
}

impl View for ActivityPayload {
    type V = ActivityModel;

    open spec fn view(&self) -> ActivityModel {
        ActivityModel {
            state: self.state@,
            details: self.details@,
            large_image: self.large_image@,
            large_text: self.large_text@,
            timestamps: self.timestamps,
        }
    }
}

/// What the worker has to do.
#[derive(Debug)]
pub enum DiscordAction {
    /// Nothing.
    Nothing,
    /// Tell the web interface whether the shell is connected.
    Report(bool),
    /// Open a connection, then go on with `on_connected`.
    OpenConnection,
    /// Close the connection.
    CloseConnection,
    /// Show this on the connection, then go on with `on_shown`.
    SetActivity(ActivityPayload),
    /// Show nothing on the connection, then go on with `on_shown`.
    ClearActivity,
}

/// The texts of a `DiscordAction`.
pub enum DiscordActionModel {
    Nothing,
    Report(bool),
    OpenConnection,
    CloseConnection,
    SetActivity(ActivityModel),
    ClearActivity,
}

impl View for DiscordAction {
    type V = DiscordActionModel;

    open spec fn view(&self) -> DiscordActionModel {
        match *self {
            DiscordAction::Nothing => DiscordActionModel::Nothing,
            DiscordAction::Report(connected) => DiscordActionModel::Report(connected),
            DiscordAction::OpenConnection => DiscordActionModel::OpenConnection,
            DiscordAction::CloseConnection => DiscordActionModel::CloseConnection,
            DiscordAction::SetActivity(payload) => DiscordActionModel::SetActivity(payload@),
            DiscordAction::ClearActivity => DiscordActionModel::ClearActivity,
        }
    }
}

/// The worker, which knows whether there is a connection.
#[derive(Debug)]
pub struct DiscordWorker {
    connected: bool,
}

impl View for DiscordWorker {
    type V = bool;

    closed spec fn view(&self) -> bool {
        self.connected
    }
}

/// What a command makes of a worker that is connected or not: only the request for a connection
/// does anything without one, and a connection is ended at once.
pub open spec fn command_action(
    connected: bool,
    command: DiscordCommandModel,
) -> DiscordActionModel {
    match command {
        DiscordCommandModel::Connect => if connected {
            DiscordActionModel::Report(true)
        } else {
            DiscordActionModel::OpenConnection
        },
        DiscordCommandModel::Disconnect => if connected {
            DiscordActionModel::CloseConnection
        } else {
            DiscordActionModel::Nothing
        },
        DiscordCommandModel::SetActivity {
            state,
            details,
            large_image,
            start_timestamp,
            end_timestamp,
        } => if connected {
            DiscordActionModel::SetActivity(
                ActivityModel {
                    state,
                    details,
                    large_image: match large_image {
                        Some(image) => image,
                        None => "stremio_logo"@,
                    },
                    large_text: "Stremio"@,
                    timestamps: if start_timestamp is None && end_timestamp is None {
                        None
                    } else {
                        Some((start_timestamp, end_timestamp))
                    },
                },
            )
        } else {
            DiscordActionModel::Nothing
        },
        DiscordCommandModel::ClearActivity => if connected {
            DiscordActionModel::ClearActivity
        } else {
            DiscordActionModel::Nothing
        },
    }
}

/// Something that happens to the worker.
pub enum DiscordEvent {
    /// A command comes in.
    Command(DiscordCommandModel),
    /// A connection was opened, or not.
    Connected(bool),
    /// Discord shows what it was told, or the connection is broken.
    Shown(bool),
}

/// Whether there is a connection after an event.
pub open spec fn connected_after(connected: bool, event: DiscordEvent) -> bool {
    match event {
        DiscordEvent::Command(command) => connected && !(command is Disconnect),
        DiscordEvent::Connected(succeeded) => succeeded,
        DiscordEvent::Shown(succeeded) => connected && succeeded,
    }
}

/// What the worker has to do about an event.
pub open spec fn event_action(connected: bool, event: DiscordEvent) -> DiscordActionModel {
    match event {
        DiscordEvent::Command(command) => command_action(connected, command),
        DiscordEvent::Connected(succeeded) => DiscordActionModel::Report(succeeded),
        DiscordEvent::Shown(succeeded) => if succeeded {
            DiscordActionModel::Nothing
        } else {
            DiscordActionModel::Report(false)
        },
    }
}

impl DiscordWorker {
    /// A worker without a connection.
    pub fn new() -> (worker: Self)
        ensures
            !worker@,
    {
        DiscordWorker { connected: false }
    }

    /// Takes a command.
    pub fn on_command(&mut self, command: DiscordCommand) -> (action: DiscordAction)
        ensures
            action@ == event_action(old(self)@, DiscordEvent::Command(command@)),
            final(self)@ == connected_after(old(self)@, DiscordEvent::Command(command@)),
    {
        match command {
            DiscordCommand::Connect => if self.connected {
                DiscordAction::Report(true)
            } else {
                DiscordAction::OpenConnection
            },
            DiscordCommand::Disconnect => if self.connected {
                self.connected = false;
                DiscordAction::CloseConnection
            } else {
                DiscordAction::Nothing
            },
            DiscordCommand::SetActivity {
                state,
                details,
                large_image,
                start_timestamp,
                end_timestamp,
            } => {
                if !self.connected {
                    return DiscordAction::Nothing;
                }
                let large_image = match large_image {
                    Some(image) => image,
                    None => "stremio_logo".to_owned(),
                };
                let timestamps = match (start_timestamp, end_timestamp) {
                    (None, None) => None,
                    (start, end) => Some((start, end)),
                };
                DiscordAction::SetActivity(
                    ActivityPayload {
                        state,
                        details,
                        large_image,
                        large_text: "Stremio".to_owned(),
                        timestamps,
                    },
                )
            },
            DiscordCommand::ClearActivity => if self.connected {
                DiscordAction::ClearActivity
            } else {
                DiscordAction::Nothing
            },
        }
    }

    /// What came of opening a connection.
    pub fn on_connected(&mut self, succeeded: bool) -> (action: DiscordAction)
        ensures
            action@ == event_action(old(self)@, DiscordEvent::Connected(succeeded)),
            final(self)@ == connected_after(old(self)@, DiscordEvent::Connected(succeeded)),
    {
        self.connected = succeeded;
        DiscordAction::Report(succeeded)
    }

    /// What came of showing something: a connection that fails is given up.
    pub fn on_shown(&mut self, succeeded: bool) -> (action: DiscordAction)
        ensures
            action@ == event_action(old(self)@, DiscordEvent::Shown(succeeded)),
            final(self)@ == connected_after(old(self)@, DiscordEvent::Shown(succeeded)),
    {
        if succeeded {
            DiscordAction::Nothing
        } else {
            self.connected = false;
            DiscordAction::Report(false)
        }
    }

    /// The queue was closed, so that the worker ends, and its connection with it.
    pub fn on_queue_closed(self) -> (action: DiscordAction)
        ensures
            action@ == if self@ {
                DiscordActionModel::CloseConnection
            } else {
                DiscordActionModel::Nothing
            },
    {
        if self.connected {
            DiscordAction::CloseConnection
        } else {
            DiscordAction::Nothing
        }
    }
}

/// What the web interface is told is what holds.
pub proof fn law_reports_are_true(connected: bool, event: DiscordEvent)
    ensures
        event_action(connected, event) matches DiscordActionModel::Report(told) ==> told
            == connected_after(connected, event),
{
}

/// The connection is used only where there is one, and a second one is never opened.
pub proof fn law_connection_is_used_while_it_lasts(connected: bool, event: DiscordEvent)
    ensures
        match event_action(connected, event) {
            DiscordActionModel::SetActivity(_) => connected && connected_after(connected, event),
            DiscordActionModel::ClearActivity => connected && connected_after(connected, event),
            DiscordActionModel::CloseConnection => connected && !connected_after(connected, event),
            DiscordActionModel::OpenConnection => !connected && !connected_after(connected, event),
            _ => true,
        },
{
}

/// A queue to which commands are sent one after the other.
pub open spec fn sent_all(queue: DiscordQueue, commands: Seq<DiscordCommandModel>) -> DiscordQueue
    decreases commands.len(),
{
    if commands.len() == 0 {
        queue
    } else {
        sent_all(queue, commands.drop_last()).sent(commands.last())
    }
}

/// The worker takes what was sent in the order in which it was sent: whatever is sent to an open
/// queue waits in it behind what waited before. A closed queue takes nothing.
pub proof fn law_commands_keep_their_order(
    queue: DiscordQueue,
    commands: Seq<DiscordCommandModel>,
)
    ensures
        sent_all(queue, commands).open == queue.open,
        sent_all(queue, commands).commands == if queue.open {
            queue.commands + commands
        } else {
            queue.commands
        },
    decreases commands.len(),
{
    if commands.len() == 0 {
        assert(queue.commands + commands =~= queue.commands);
    } else {
        law_commands_keep_their_order(queue, commands.drop_last());
        assert((queue.commands + commands.drop_last()).push(commands.last()) =~= queue.commands
            + commands);
    }
}

/// What the web interface asks for is done. Without a connection, the request for one opens it,
/// and nothing else does anything. With one, it is reported again, ended, or shows exactly the state
/// and details that were asked for, with the image and times that were given: the picture of the
/// shell where there is no image, and no times where neither is known.
pub proof fn law_commands_are_carried_out(
    connected: bool,
    state: Seq<char>,
    details: Seq<char>,
    large_image: Option<Seq<char>>,
    start_timestamp: Option<i64>,
    end_timestamp: Option<i64>,
)
    ensures
        ({
            let act = |command: DiscordCommandModel|
                event_action(connected, DiscordEvent::Command(command));
            let shown = act(
                DiscordCommandModel::SetActivity {
                    state,
                    details,
                    large_image,
                    start_timestamp,
                    end_timestamp,
                },
            );
            &&& !connected ==> act(DiscordCommandModel::Connect)
                == DiscordActionModel::OpenConnection
            &&& connected ==> act(DiscordCommandModel::Connect) == DiscordActionModel::Report(true)
            &&& connected ==> act(DiscordCommandModel::Disconnect)
                == DiscordActionModel::CloseConnection
            &&& connected ==> act(DiscordCommandModel::ClearActivity)
                == DiscordActionModel::ClearActivity
            &&& !connected ==> act(DiscordCommandModel::Disconnect) == DiscordActionModel::Nothing
                && act(DiscordCommandModel::ClearActivity) == DiscordActionModel::Nothing && shown
                == DiscordActionModel::Nothing
            &&& connected ==> shown is SetActivity && {
                let payload = shown->SetActivity_0;
                &&& payload.state == state && payload.details == details
                &&& large_image matches Some(image) ==> payload.large_image == image
                &&& large_image is None ==> payload.large_image == "stremio_logo"@
                &&& payload.large_text == "Stremio"@
                &&& start_timestamp is Some || end_timestamp is Some ==> payload.timestamps == Some(
                    (start_timestamp, end_timestamp),
                )
                &&& start_timestamp is None && end_timestamp is None ==> payload.timestamps is None
            }
        }),
{
}

/// There is a connection from the moment that one was opened until it is ended or fails: a command
/// other than the one that ends it keeps it, and so does showing something.
pub proof fn law_connection_lasts(connected: bool, command: DiscordCommandModel)
    ensures
        connected_after(connected, DiscordEvent::Connected(true)),
        !connected_after(connected, DiscordEvent::Connected(false)),
        connected_after(connected, DiscordEvent::Shown(true)) == connected,
        !connected_after(connected, DiscordEvent::Shown(false)),
        !connected_after(connected, DiscordEvent::Command(DiscordCommandModel::Disconnect)),
        command != DiscordCommandModel::Disconnect ==> connected_after(
            connected,
            DiscordEvent::Command(command),
        ) == connected,
        event_action(connected, DiscordEvent::Connected(true)) == DiscordActionModel::Report(true),
        event_action(connected, DiscordEvent::Connected(false)) == DiscordActionModel::Report(
            false,
        ),
        event_action(connected, DiscordEvent::Shown(true)) == DiscordActionModel::Nothing,
        event_action(connected, DiscordEvent::Shown(false)) == DiscordActionModel::Report(false),
{
}

/// The sender of a command is told that it was taken exactly if the queue is open.
pub proof fn law_receipt_is_true(queue: DiscordQueue, result: Result<(), String>)
    requires
        queue.receipt(result),
    ensures
        result is Ok <==> queue.open,
        result matches Err(error) ==> error@
            == "Failed to send Discord command: sending on a closed channel"@,
{
}

/// The models of commands and actions are those of their own texts.
pub proof fn law_models_of_commands_and_actions(
    state: String,
    details: String,
    large_image: Option<String>,
    start: Option<i64>,
    end: Option<i64>,
    payload: ActivityPayload,
    connected: bool,
)
    ensures
        DiscordCommand::Connect@ == DiscordCommandModel::Connect,
        DiscordCommand::Disconnect@ == DiscordCommandModel::Disconnect,
        DiscordCommand::ClearActivity@ == DiscordCommandModel::ClearActivity,
        (DiscordCommand::SetActivity {
            state,
            details,
            large_image,
            start_timestamp: start,
            end_timestamp: end,
        })@ == (DiscordCommandModel::SetActivity {
            state: state@,
            details: details@,
            large_image: if large_image is Some {
                Some(large_image->0@)
            } else {
                None
            },
            start_timestamp: start,
            end_timestamp: end,
        }),
        payload@.state == payload.state@ && payload@.details == payload.details@,
        payload@.large_image == payload.large_image@ && payload@.large_text == payload.large_text@,
        payload@.timestamps == payload.timestamps,
        DiscordAction::Nothing@ == DiscordActionModel::Nothing,
        DiscordAction::Report(connected)@ == DiscordActionModel::Report(connected),
        DiscordAction::OpenConnection@ == DiscordActionModel::OpenConnection,
        DiscordAction::CloseConnection@ == DiscordActionModel::CloseConnection,
        DiscordAction::SetActivity(payload)@ == DiscordActionModel::SetActivity(payload@),
        DiscordAction::ClearActivity@ == DiscordActionModel::ClearActivity,
{
}

/// Discord knows the shell by this number.
pub proof fn law_application_number()
    ensures
        DISCORD_APP_ID@ == "1452620752263319665"@,
{
}

} // verus!
