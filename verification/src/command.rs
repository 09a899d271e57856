use vstd::prelude::*;

use crate::mode::ChannelMode;

verus! {

/// The commands a channel offers, one for each of its command methods.
#[derive(Debug, Clone, Copy, PartialEq, Eq, Structural)]
pub enum ChannelCommand {
    Quit,
    Ping,
    Push,
    PushWithLocale,
    Pop,
    Flushc,
    Flushb,
    Flusho,
    BucketCount,
    ObjectCount,
    WordCount,
    Query,
    QueryWithLimit,
    QueryWithLimitAndOffset,
    Suggest,
    SuggestWithLimit,
    Consolidate,
    Backup,
    Restore,
}

impl ChannelCommand {
    /// The name of the channel method that runs the command.
    pub open spec fn spec_name(self) -> Seq<char> {
        match self {
            ChannelCommand::Quit => "quit"@,
            ChannelCommand::Ping => "ping"@,
            ChannelCommand::Push => "push"@,
            ChannelCommand::PushWithLocale => "push_with_locale"@,
            ChannelCommand::Pop => "pop"@,
            ChannelCommand::Flushc => "flushc"@,
            ChannelCommand::Flushb => "flushb"@,
            ChannelCommand::Flusho => "flusho"@,
            ChannelCommand::BucketCount => "bucket_count"@,
            ChannelCommand::ObjectCount => "object_count"@,
            ChannelCommand::WordCount => "word_count"@,
            ChannelCommand::Query => "query"@,
            ChannelCommand::QueryWithLimit => "query_with_limit"@,
            ChannelCommand::QueryWithLimitAndOffset => "query_with_limit_and_offset"@,
            ChannelCommand::Suggest => "suggest"@,
            ChannelCommand::SuggestWithLimit => "suggest_with_limit"@,
            ChannelCommand::Consolidate => "consolidate"@,
            ChannelCommand::Backup => "backup"@,
            ChannelCommand::Restore => "restore"@,
        }
    }

    /// The mode a channel must have been started in to run the command;
    /// `None` for the commands that every channel runs.
    pub open spec fn spec_required_mode(self) -> Option<ChannelMode> {
        match self {
            ChannelCommand::Quit | ChannelCommand::Ping => None,
            ChannelCommand::Push
            | ChannelCommand::PushWithLocale
            | ChannelCommand::Pop
            | ChannelCommand::Flushc
            | ChannelCommand::Flushb
            | ChannelCommand::Flusho
            | ChannelCommand::BucketCount
            | ChannelCommand::ObjectCount
            | ChannelCommand::WordCount => Some(ChannelMode::Ingest),
            ChannelCommand::Query
            | ChannelCommand::QueryWithLimit
            | ChannelCommand::QueryWithLimitAndOffset
            | ChannelCommand::Suggest
            | ChannelCommand::SuggestWithLimit => Some(ChannelMode::Search),
            ChannelCommand::Consolidate
            | ChannelCommand::Backup
            | ChannelCommand::Restore => Some(ChannelMode::Control),
        }
    }

    /// The name of the channel method that runs the command.
    pub fn name(&self) -> (name: &'static str)
        ensures
            name@ == self.spec_name(),
    {
        match self {
            ChannelCommand::Quit => "quit",
            ChannelCommand::Ping => "ping",
            ChannelCommand::Push => "push",
            ChannelCommand::PushWithLocale => "push_with_locale",
            ChannelCommand::Pop => "pop",
            ChannelCommand::Flushc => "flushc",
            ChannelCommand::Flushb => "flushb",
            ChannelCommand::Flusho => "flusho",
            ChannelCommand::BucketCount => "bucket_count",
            ChannelCommand::ObjectCount => "object_count",
            ChannelCommand::WordCount => "word_count",
            ChannelCommand::Query => "query",
            ChannelCommand::QueryWithLimit => "query_with_limit",
            ChannelCommand::QueryWithLimitAndOffset => "query_with_limit_and_offset",
            ChannelCommand::Suggest => "suggest",
            ChannelCommand::SuggestWithLimit => "suggest_with_limit",
            ChannelCommand::Consolidate => "consolidate",
            ChannelCommand::Backup => "backup",
            ChannelCommand::Restore => "restore",
        }
    }

    /// The mode a channel must have been started in to run the command.
    pub fn required_mode(&self) -> (mode: Option<ChannelMode>)
        ensures
            mode == self.spec_required_mode(),
    {
        match self {
            ChannelCommand::Quit | ChannelCommand::Ping => None,
            ChannelCommand::Push
            | ChannelCommand::PushWithLocale
            | ChannelCommand::Pop
            | ChannelCommand::Flushc
            | ChannelCommand::Flushb
            | ChannelCommand::Flusho
            | ChannelCommand::BucketCount
            | ChannelCommand::ObjectCount
            | ChannelCommand::WordCount => Some(ChannelMode::Ingest),
            ChannelCommand::Query
            | ChannelCommand::QueryWithLimit
            | ChannelCommand::QueryWithLimitAndOffset
            | ChannelCommand::Suggest
            | ChannelCommand::SuggestWithLimit => Some(ChannelMode::Search),
            ChannelCommand::Consolidate
            | ChannelCommand::Backup
            | ChannelCommand::Restore => Some(ChannelMode::Control),
        }
    }
}

/// The commands every channel runs are exactly `quit` and `ping`.
pub proof fn lemma_modeless_commands(c: ChannelCommand)
    ensures
        c.spec_required_mode() is None <==> (c == ChannelCommand::Quit || c == ChannelCommand::Ping),
{
}

/// The commands that need an ingest channel are exactly `push`,
/// `push_with_locale`, `pop`, the three flushes and the three counts.
pub proof fn lemma_ingest_commands(c: ChannelCommand)
    ensures
        c.spec_required_mode() == Some(ChannelMode::Ingest) <==> (c == ChannelCommand::Push || c
            == ChannelCommand::PushWithLocale || c == ChannelCommand::Pop || c
            == ChannelCommand::Flushc || c == ChannelCommand::Flushb || c == ChannelCommand::Flusho
            || c == ChannelCommand::BucketCount || c == ChannelCommand::ObjectCount || c
            == ChannelCommand::WordCount),
{
}

/// The commands that need a search channel are exactly the three queries
/// and the two suggests.
pub proof fn lemma_search_commands(c: ChannelCommand)
    ensures
        c.spec_required_mode() == Some(ChannelMode::Search) <==> (c == ChannelCommand::Query || c
            == ChannelCommand::QueryWithLimit || c == ChannelCommand::QueryWithLimitAndOffset || c
            == ChannelCommand::Suggest || c == ChannelCommand::SuggestWithLimit),
{
}

/// The commands that need a control channel are exactly `consolidate`,
/// `backup` and `restore`.
pub proof fn lemma_control_commands(c: ChannelCommand)
    ensures
        c.spec_required_mode() == Some(ChannelMode::Control) <==> (c == ChannelCommand::Consolidate
            || c == ChannelCommand::Backup || c == ChannelCommand::Restore),
{
}

/// Distinct commands are named by distinct methods, so a refusal's name
/// identifies the command.
#[verifier::rlimit(50)]
pub proof fn lemma_command_names_distinct(a: ChannelCommand, b: ChannelCommand)
    ensures
        a.spec_name() == b.spec_name() <==> a == b,
{
    reveal_strlit("quit");
    reveal_strlit("ping");
    reveal_strlit("push");
    reveal_strlit("push_with_locale");
    reveal_strlit("pop");
    reveal_strlit("flushc");
    reveal_strlit("flushb");
    reveal_strlit("flusho");
    reveal_strlit("bucket_count");
    reveal_strlit("object_count");
    reveal_strlit("word_count");
    reveal_strlit("query");
    reveal_strlit("query_with_limit");
    reveal_strlit("query_with_limit_and_offset");
    reveal_strlit("suggest");
    reveal_strlit("suggest_with_limit");
    reveal_strlit("consolidate");
    reveal_strlit("backup");
    reveal_strlit("restore");
    let na = a.spec_name();
    let nb = b.spec_name();
    if na == nb {
        assert(na.len() == nb.len());
        assert(na[0] == nb[0]);
        assert(na[1] == nb[1]);
        assert(na[na.len() - 1] == nb[nb.len() - 1]);
        match a {
            ChannelCommand::Quit => {},
            ChannelCommand::Ping => {},
            ChannelCommand::Push => {},
            ChannelCommand::PushWithLocale => {},
            ChannelCommand::Pop => {},
            ChannelCommand::Flushc => {},
            ChannelCommand::Flushb => {},
            ChannelCommand::Flusho => {},
            ChannelCommand::BucketCount => {},
            ChannelCommand::ObjectCount => {},
            ChannelCommand::WordCount => {},
            ChannelCommand::Query => {},
            ChannelCommand::QueryWithLimit => {},
            ChannelCommand::QueryWithLimitAndOffset => {},
            ChannelCommand::Suggest => {},
            ChannelCommand::SuggestWithLimit => {},
            ChannelCommand::Consolidate => {},
            ChannelCommand::Backup => {},
            ChannelCommand::Restore => {},
        }
    }
}

} // verus!
