use vstd::prelude::*;

use crate::error::{Error, ErrorKind};

verus! {

/// What the driver of an exchange with the server must do next.
#[derive(Debug, Clone, Copy, PartialEq, Eq, Structural)]
pub enum ExchangeStep {
    /// Write the command's message to the stream.
    WriteCommand,
    /// Read one more line from the stream.
    ReadLine,
    /// The exchange is over; its reply is complete.
    Done,
}

/// The model of an exchange: whether the command still has to be written,
/// how many reply lines are wanted and have been read, and the reply so far.
pub struct ExchangeModel {
    pub pending_write: bool,
    pub wanted: nat,
    pub lines_read: nat,
    pub reply: Seq<char>,
}

impl ExchangeModel {
    /// An exchange that writes a command, then reads `wanted` reply lines.
    pub open spec fn command(wanted: nat) -> ExchangeModel {
        ExchangeModel { pending_write: true, wanted, lines_read: 0, reply: Seq::empty() }
    }

    /// An exchange that only reads `wanted` lines.
    pub open spec fn reading(wanted: nat) -> ExchangeModel {
        ExchangeModel { pending_write: false, wanted, lines_read: 0, reply: Seq::empty() }
    }

    /// What must happen next.
    pub open spec fn step(self) -> ExchangeStep {
        if self.pending_write {
            ExchangeStep::WriteCommand
        } else if self.lines_read < self.wanted {
            ExchangeStep::ReadLine
        } else {
            ExchangeStep::Done
        }
    }

    /// The exchange once the command has been written.
    pub open spec fn after_write(self) -> ExchangeModel {
        ExchangeModel { pending_write: false, ..self }
    }

    /// The exchange once `line` has been read.
    pub open spec fn after_line(self, line: Seq<char>) -> ExchangeModel {
        ExchangeModel { lines_read: self.lines_read + 1, reply: self.reply + line, ..self }
    }

    /// The exchange once `lines` have been read, in order.
    pub open spec fn after_lines(self, lines: Seq<Seq<char>>) -> ExchangeModel
        decreases lines.len(),
    {
        if lines.len() == 0 {
            self
        } else {
            self.after_lines(lines.drop_last()).after_line(lines.last())
        }
    }
}

/// The lines joined in order, each as it was read (with its line ending).
pub open spec fn concat_lines(lines: Seq<Seq<char>>) -> Seq<char>
    decreases lines.len(),
{
    if lines.len() == 0 {
        Seq::empty()
    } else {
        concat_lines(lines.drop_last()) + lines.last()
    }
}

/// One command's exchange with the server, or the reading of the greeting:
/// the driver performs the step that `next_step` names and reports its
/// outcome, until the step is `Done`.
pub struct Exchange {
    pending_write: bool,
    wanted: usize,
    lines_read: usize,
    reply: String,
}

impl View for Exchange {
    type V = ExchangeModel;

    closed spec fn view(&self) -> ExchangeModel {
        ExchangeModel {
            pending_write: self.pending_write,
            wanted: self.wanted as nat,
            lines_read: self.lines_read as nat,
            reply: self.reply@,
        }
    }
}

impl Exchange {
    /// The bounds every exchange keeps: it never reads more than it wants.
    pub closed spec fn wf(&self) -> bool {
        self.lines_read <= self.wanted
    }

    /// An exchange that writes a command, then reads `wanted` reply lines.
    pub fn command(wanted: usize) -> (ex: Exchange)
        ensures
            ex.wf(),
            ex@ == ExchangeModel::command(wanted as nat),
            ex@.pending_write,
            ex@.wanted == wanted,
            ex@.lines_read == 0,
            ex@.reply == Seq::<char>::empty(),
    {
        Exchange { pending_write: true, wanted, lines_read: 0, reply: String::new() }
    }

    /// An exchange that only reads `wanted` lines, such as the greeting.
    pub fn reading(wanted: usize) -> (ex: Exchange)
        ensures
            ex.wf(),
            ex@ == ExchangeModel::reading(wanted as nat),
            !ex@.pending_write,
            ex@.wanted == wanted,
            ex@.lines_read == 0,
            ex@.reply == Seq::<char>::empty(),
    {
        Exchange { pending_write: false, wanted, lines_read: 0, reply: String::new() }
    }

    /// What the driver must do next.
    pub fn next_step(&self) -> (step: ExchangeStep)
        ensures
            step == self@.step(),
            step == ExchangeStep::WriteCommand <==> self@.pending_write,
            step == ExchangeStep::ReadLine <==> (!self@.pending_write && self@.lines_read
                < self@.wanted),
            step == ExchangeStep::Done <==> (!self@.pending_write && self@.lines_read
                >= self@.wanted),
    {
        if self.pending_write {
            ExchangeStep::WriteCommand
        } else if self.lines_read < self.wanted {
            ExchangeStep::ReadLine
        } else {
            ExchangeStep::Done
        }
    }

    /// Reports how writing the command went: a failed write ends the
    /// exchange with `WriteToStream`.
    pub fn command_written(&mut self, written: bool) -> (res: Result<(), Error>)
        requires
            old(self).wf(),
            old(self)@.step() == ExchangeStep::WriteCommand,
        ensures
            final(self).wf(),
            res is Ok <==> written,
            written ==> final(self)@ == old(self)@.after_write(),
            written ==> !final(self)@.pending_write,
            final(self)@.wanted == old(self)@.wanted,
            final(self)@.lines_read == old(self)@.lines_read,
            final(self)@.reply == old(self)@.reply,
            !written ==> final(self)@ == old(self)@,
            res matches Err(e) ==> e.spec_kind() == ErrorKind::WriteToStream,
    {
        if written {
            self.pending_write = false;
            Ok(())
        } else {
            Err(Error::new(ErrorKind::WriteToStream))
        }
    }

    /// Reports the line just read, or that reading failed: a line joins the
    /// reply as it is; a failed read ends the exchange with `ReadStream`.
    pub fn line_read(&mut self, line: Result<&str, ()>) -> (res: Result<(), Error>)
        requires
            old(self).wf(),
            old(self)@.step() == ExchangeStep::ReadLine,
        ensures
            final(self).wf(),
            res is Ok <==> line is Ok,
            line matches Ok(l) ==> final(self)@ == old(self)@.after_line(l@),
            line matches Ok(l) ==> final(self)@.reply == old(self)@.reply + l@,
            line is Ok ==> final(self)@.lines_read == old(self)@.lines_read + 1,
            final(self)@.wanted == old(self)@.wanted,
            final(self)@.pending_write == old(self)@.pending_write,
            line is Err ==> final(self)@ == old(self)@,
            res matches Err(e) ==> e.spec_kind() == ErrorKind::ReadStream,
    {
        match line {
            Ok(l) => {
                self.reply.append(l);
                self.lines_read = self.lines_read + 1;
                Ok(())
            },
            Err(()) => Err(Error::new(ErrorKind::ReadStream)),
        }
    }

    /// The reply read so far.
    pub fn into_reply(self) -> (reply: String)
        ensures
            reply@ == self@.reply,
    {
        self.reply
    }
}

/// An exchange that writes its command and then reads its lines ends with
/// exactly those lines, in order, as its reply; it asks for a line as long
/// as fewer than the wanted number were read, and for nothing after.
pub proof fn lemma_exchange_reply(start: ExchangeModel, lines: Seq<Seq<char>>)
    requires
        start == ExchangeModel::command(start.wanted) || start == ExchangeModel::reading(
            start.wanted,
        ),
        lines.len() <= start.wanted,
    ensures
        ({
            let end = start.after_write().after_lines(lines);
            &&& end.reply == concat_lines(lines)
            &&& end.lines_read == lines.len()
            &&& end.wanted == start.wanted
            &&& !end.pending_write
            &&& end.step() == (if lines.len() < start.wanted {
                ExchangeStep::ReadLine
            } else {
                ExchangeStep::Done
            })
        }),
    decreases lines.len(),
{
    if lines.len() > 0 {
        lemma_exchange_reply(start, lines.drop_last());
    }
}

/// A command exchange built to read `n` reply lines, once its command is
/// written, asks for a line exactly while fewer than `n` lines were read, is
/// done after the `n`-th, and replies with those lines joined in order.
pub proof fn lemma_command_exchange_reads_n_lines(n: nat, lines: Seq<Seq<char>>)
    requires
        lines.len() == n,
    ensures
        ExchangeModel::command(n).step() == ExchangeStep::WriteCommand,
        ExchangeModel::command(n).after_write().after_lines(lines).step() == ExchangeStep::Done,
        ExchangeModel::command(n).after_write().after_lines(lines).reply == concat_lines(lines),
        forall|k: nat|
            k < n ==> #[trigger] ExchangeModel::command(n).after_write().after_lines(
                lines.take(k as int),
            ).step() == ExchangeStep::ReadLine,
{
    let start = ExchangeModel::command(n);
    assert(start.wanted == n);
    lemma_exchange_reply(start, lines);
    assert forall|k: nat| k < n implies #[trigger] ExchangeModel::command(n).after_write().after_lines(
        lines.take(k as int),
    ).step() == ExchangeStep::ReadLine by {
        lemma_exchange_reply(start, lines.take(k as int));
    }
}

/// A reading exchange built for `n` lines (such as the one-line greeting)
/// asks for a line exactly while fewer than `n` were read, is done after the
/// `n`-th, and replies with those lines joined in order.
pub proof fn lemma_reading_exchange_reads_n_lines(n: nat, lines: Seq<Seq<char>>)
    requires
        lines.len() == n,
    ensures
        ExchangeModel::reading(n).after_lines(lines).step() == ExchangeStep::Done,
        ExchangeModel::reading(n).after_lines(lines).reply == concat_lines(lines),
        forall|k: nat|
            k < n ==> #[trigger] ExchangeModel::reading(n).after_lines(lines.take(k as int)).step()
                == ExchangeStep::ReadLine,
{
    let start = ExchangeModel::reading(n);
    assert(start.wanted == n);
    assert(start.after_write() == start);
    lemma_exchange_reply(start, lines);
    assert forall|k: nat| k < n implies #[trigger] ExchangeModel::reading(n).after_lines(
        lines.take(k as int),
    ).step() == ExchangeStep::ReadLine by {
        lemma_exchange_reply(start, lines.take(k as int));
    }
}

/// Joining lines keeps each line as it is and in order: no lines give
/// nothing, one line gives itself, and joining two runs of lines gives the
/// two joins one after the other.
pub proof fn lemma_concat_lines(a: Seq<Seq<char>>, b: Seq<Seq<char>>, line: Seq<char>)
    ensures
        concat_lines(Seq::empty()) == Seq::<char>::empty(),
        concat_lines(seq![line]) == line,
        concat_lines(a + b) == concat_lines(a) + concat_lines(b),
    decreases b.len(),
{
    assert(seq![line].drop_last() =~= Seq::<Seq<char>>::empty());
    assert(Seq::<char>::empty() + line =~= line);
    if b.len() == 0 {
        assert(a + b =~= a);
        assert(concat_lines(a) + Seq::<char>::empty() =~= concat_lines(a));
    } else {
        lemma_concat_lines(a, b.drop_last(), line);
        assert((a + b).drop_last() =~= a + b.drop_last());
        assert((a + b).last() == b.last());
        assert(concat_lines(a) + concat_lines(b.drop_last()) + b.last() =~= concat_lines(a) + (
        concat_lines(b.drop_last()) + b.last()));
    }
}

} // verus!
