use vstd::prelude::*;

verus! {

/// Channel modes supported by the sonic search backend.
#[derive(Debug, Clone, Copy, PartialEq, Eq, Structural)]
pub enum ChannelMode {
    /// Search channel mode: `query`, `suggest`, `ping` and `quit`.
    Search,
    /// Ingest channel mode: `push`, `pop`, `flushc`, `flushb`, `flusho`,
    /// `bucket_count`, `object_count`, `word_count`, `ping` and `quit`.
    Ingest,
    /// Control channel mode: `consolidate`, `backup`, `restore`, `ping` and `quit`.
    Control,
}

impl ChannelMode {
    /// The protocol name of the mode, as sent to the server.
    pub open spec fn spec_str(self) -> Seq<char> {
        match self {
            ChannelMode::Search => "search"@,
            ChannelMode::Ingest => "ingest"@,
            ChannelMode::Control => "control"@,
        }
    }

    /// Converts the mode to its protocol name.
    pub fn to_str(&self) -> (name: &str)
        ensures
            name@ == self.spec_str(),
    {
        match self {
            ChannelMode::Search => "search",
            ChannelMode::Ingest => "ingest",
            ChannelMode::Control => "control",
        }
    }
}

/// Distinct modes have distinct protocol names, so the name sent to the
/// server always identifies the mode.
pub proof fn lemma_mode_names_distinct(a: ChannelMode, b: ChannelMode)
    ensures
        a.spec_str() == b.spec_str() <==> a == b,
{
    reveal_strlit("search");
    reveal_strlit("ingest");
    reveal_strlit("control");
    if a != b {
        assert(a.spec_str()[0] != b.spec_str()[0]);
    }
}

/// Each mode's protocol name is its own name in lower case.
pub proof fn lemma_mode_names_spelled(m: ChannelMode)
    ensures
        m == ChannelMode::Search ==> m.spec_str() == seq!['s', 'e', 'a', 'r', 'c', 'h'],
        m == ChannelMode::Ingest ==> m.spec_str() == seq!['i', 'n', 'g', 'e', 's', 't'],
        m == ChannelMode::Control ==> m.spec_str() == seq!['c', 'o', 'n', 't', 'r', 'o', 'l'],
{
    reveal_strlit("search");
    reveal_strlit("ingest");
    reveal_strlit("control");
    assert("search"@ =~= seq!['s', 'e', 'a', 'r', 'c', 'h']);
    assert("ingest"@ =~= seq!['i', 'n', 'g', 'e', 's', 't']);
    assert("control"@ =~= seq!['c', 'o', 'n', 't', 'r', 'o', 'l']);
}

} // verus!
