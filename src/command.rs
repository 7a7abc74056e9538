//! Running shell commands: the command line, the exit status, and how a
//! command's output and status share one body stream.
//!
//! The body of a command response is the command's output, one chunk per
//! line, then one chunk that is `ExitStatus:` followed by the JSON of the exit
//! status, then the end of the body.
use vstd::prelude::*;
use crate::codec::{Frame, FrameModel, extend};
use crate::error::Error;
use crate::json::{JsonValue, get_spec, member, lemma_differ_at};
use crate::request::{CommandExec, Request, RequestModel, texts};

verus! {

/// A shell command to be run on a host: the shell's program and arguments,
/// then the command text as the last argument.
pub struct Command {
    pub cmd: Vec<String>,
}

/// The argument list of a command run through `shell`, or `/bin/sh -c` when
/// none is given.
pub open spec fn command_line(cmd: Seq<char>, shell: Option<Seq<&str>>) -> Seq<Seq<char>> {
    match shell {
        Some(s) => s.map_values(|a: &str| a@).push(cmd),
        None => seq!["/bin/sh"@, "-c"@, cmd],
    }
}

impl Command {
    /// A command that runs `cmd` through `shell` (each of its words a
    /// separate item), or through `/bin/sh -c` when no shell is given.
    pub fn new(cmd: &str, shell: Option<&[&str]>) -> (r: Command)
        ensures
            texts(r.cmd@) == command_line(cmd@, match shell {
                Some(s) => Some(s@),
                None => None,
            }),
    {
        let mut args: Vec<String> = Vec::new();
        match shell {
            Some(s) => {
                let mut i: usize = 0;
                while i < s.len()
                    invariant
                        i <= s@.len(),
                        args@.len() == i,
                        forall|k: int| 0 <= k < i ==> (#[trigger] args@[k])@ == s@[k]@,
                    decreases s@.len() - i,
                {
                    let a: &str = s[i];
                    assert(a == s@[i as int]);
                    let owned = a.to_owned();
                    assert(owned@ == a@);
                    args.push(owned);
                    assert(args@[i as int]@ == s@[i as int]@);
                    i = i + 1;
                }
                assert(texts(args@) =~= s@.map_values(|a: &str| a@));
            },
            None => {
                args.push("/bin/sh".to_owned());
                args.push("-c".to_owned());
            },
        }
        args.push(cmd.to_owned());
        let r = Command { cmd: args };
        assert(texts(r.cmd@) =~= command_line(cmd@, match shell {
            Some(s) => Some(s@),
            None => None,
        }));
        r
    }

    /// The argument list: program first.
    pub fn args(&self) -> (r: &Vec<String>)
        ensures
            r@ == self.cmd@,
    {
        &self.cmd
    }

    /// The request that runs this command.
    pub fn exec(&self) -> (r: Request)
        ensures
            r@ == RequestModel::CommandExec(texts(self.cmd@)),
    {
        Request::CommandExec(CommandExec { cmd: self.cmd.clone() })
    }
}

/// How a finished command ended.
#[derive(Clone, Copy, Debug, PartialEq, Eq, Structural)]
pub struct ExitStatus {
    /// Whether it ended with exit code zero. Termination by a signal is no
    /// success.
    pub success: bool,
    /// Its exit code; `None` when a signal ended it.
    pub code: Option<i32>,
}

/// The status header shape: `{"success": <bool>, "code": <int or null>}`.
pub open spec fn encodes_status(j: JsonValue, s: ExitStatus) -> bool {
    match j {
        JsonValue::Object(f) => f@.len() == 2 && f@[0].0@ == "success"@ && f@[0].1 == JsonValue::Bool(
            s.success,
        ) && f@[1].0@ == "code"@ && f@[1].1 == match s.code {
            Some(c) => JsonValue::Int(c as i64),
            None => JsonValue::Null,
        },
        _ => false,
    }
}

/// The exit status that the JSON `j` holds, if any. A missing code is `None`.
pub open spec fn status_of(j: JsonValue) -> Option<ExitStatus> {
    match get_spec(j, "success"@) {
        Some(JsonValue::Bool(b)) => match get_spec(j, "code"@) {
            None | Some(JsonValue::Null) => Some(ExitStatus { success: b, code: None }),
            Some(JsonValue::Int(c)) => if i32::MIN <= c <= i32::MAX {
                Some(ExitStatus { success: b, code: Some(c as i32) })
            } else {
                None
            },
            _ => None,
        },
        _ => None,
    }
}

impl ExitStatus {
    /// The status of a command that ended with `code`, or by a signal when
    /// `code` is `None`.
    pub fn from_code(code: Option<i32>) -> (r: ExitStatus)
        ensures
            r.code == code,
            r.success == (code == Some(0i32)),
    {
        let success = match code {
            Some(c) => c == 0,
            None => false,
        };
        ExitStatus { success, code }
    }

    /// The JSON of this status.
    pub fn to_json(&self) -> (j: JsonValue)
        ensures
            encodes_status(j, *self),
    {
        let code = match self.code {
            Some(c) => JsonValue::Int(c as i64),
            None => JsonValue::Null,
        };
        JsonValue::pair("success", JsonValue::Bool(self.success), "code", code)
    }

    /// The status that the JSON `j` holds, if it holds one.
    pub fn from_json(j: &JsonValue) -> (r: Option<ExitStatus>)
        ensures
            r == status_of(*j),
    {
        let success = match j.get("success") {
            Some(JsonValue::Bool(b)) => *b,
            _ => {
                return None;
            },
        };
        match j.get("code") {
            None | Some(JsonValue::Null) => Some(ExitStatus { success, code: None }),
            Some(JsonValue::Int(c)) => {
                if i32::MIN as i64 <= *c && *c <= i32::MAX as i64 {
                    Some(ExitStatus { success, code: Some(*c as i32) })
                } else {
                    None
                }
            },
            _ => None,
        }
    }
}

/// Round trip: the JSON of a status reads back as that status.
pub proof fn lemma_status_round_trip(s: ExitStatus, j: JsonValue)
    requires
        encodes_status(j, s),
    ensures
        status_of(j) == Some(s),
{
    reveal_strlit("success");
    reveal_strlit("code");
    let f = j->Object_0;
    lemma_differ_at("success"@, "code"@, 0);
    assert(f@.drop_first()[0] == f@[1]);
    assert(get_spec(j, "success"@) == Some(JsonValue::Bool(s.success)));
    assert(member(f@, "code"@) == member(f@.drop_first(), "code"@));
    assert(get_spec(j, "code"@) == Some(f@[1].1));
    match s.code {
        Some(c) => {
            assert((c as i64) as i32 == c);
        },
        None => {},
    }
}

/// The bytes `ExitStatus:` that open the status chunk.
pub open spec fn status_prefix() -> Seq<u8> {
    seq![69u8, 120u8, 105u8, 116u8, 83u8, 116u8, 97u8, 116u8, 117u8, 115u8, 58u8]
}

/// Whether a chunk opens with `ExitStatus:`.
pub open spec fn has_status_prefix(c: Seq<u8>) -> bool {
    c.len() >= 11 && c.take(11) == status_prefix()
}

fn prefix_bytes() -> (r: Vec<u8>)
    ensures
        r@ == status_prefix(),
{
    let mut r: Vec<u8> = Vec::new();
    r.push(69u8);
    r.push(120u8);
    r.push(105u8);
    r.push(116u8);
    r.push(83u8);
    r.push(116u8);
    r.push(97u8);
    r.push(116u8);
    r.push(117u8);
    r.push(115u8);
    r.push(58u8);
    assert(r@ =~= status_prefix());
    r
}

/// The chunk that carries a command's exit status, given the status's JSON
/// text.
pub fn status_chunk(status_json: &[u8]) -> (r: Vec<u8>)
    ensures
        r@ == status_prefix() + status_json@,
{
    let mut r = prefix_bytes();
    extend(&mut r, status_json);
    r
}

/// The JSON text after `ExitStatus:`, when the chunk opens with it.
pub fn status_text(chunk: &[u8]) -> (r: Option<Vec<u8>>)
    ensures
        has_status_prefix(chunk@) ==> (r matches Some(t) && t@ == chunk@.skip(11)),
        !has_status_prefix(chunk@) ==> r is None,
{
    let p = prefix_bytes();
    if chunk.len() < 11 {
        return None;
    }
    let mut i: usize = 0;
    while i < 11
        invariant
            p@ == status_prefix(),
            chunk@.len() >= 11,
            i <= 11,
            forall|k: int| 0 <= k < i ==> chunk@[k] == p@[k],
        decreases 11 - i,
    {
        if chunk[i] != p[i] {
            assert(chunk@.take(11)[i as int] != status_prefix()[i as int]);
            return None;
        }
        i = i + 1;
    }
    assert(chunk@.take(11) =~= status_prefix());
    let mut t: Vec<u8> = Vec::new();
    let mut j: usize = 11;
    while j < chunk.len()
        invariant
            11 <= j <= chunk@.len(),
            t@ == chunk@.subrange(11, j as int),
        decreases chunk@.len() - j,
    {
        t.push(chunk[j]);
        j = j + 1;
        assert(t@ =~= chunk@.subrange(11, j as int));
    }
    assert(t@ =~= chunk@.skip(11));
    Some(t)
}

/// The output chunks of a command: its lines in order, leaving out empty
/// ones, which would read as the end of the body.
pub open spec fn output_chunks(lines: Seq<Seq<u8>>) -> Seq<Seq<u8>>
    decreases lines.len(),
{
    if lines.len() == 0 {
        Seq::empty()
    } else {
        let init = output_chunks(lines.drop_last());
        if lines.last().len() > 0 {
            init.push(lines.last())
        } else {
            init
        }
    }
}

/// The byte sequences of a list of byte vectors.
pub open spec fn byte_seqs(v: Seq<Vec<u8>>) -> Seq<Seq<u8>> {
    v.map_values(|l: Vec<u8>| l@)
}

/// The frames of a list of frames.
pub open spec fn frame_models(v: Seq<Frame>) -> Seq<FrameModel> {
    v.map_values(|f: Frame| f@)
}

/// The body chunks of a command response: the output chunks, then the status
/// chunk.
pub open spec fn response_chunks(lines: Seq<Seq<u8>>, status_json: Seq<u8>) -> Seq<Seq<u8>> {
    output_chunks(lines).push(status_prefix() + status_json)
}

/// The body frame of one line of a command's output; none for an empty line,
/// which would read as the end of the body.
pub fn output_frame(line: &[u8]) -> (r: Option<Frame>)
    ensures
        line@.len() == 0 ==> r is None,
        line@.len() > 0 ==> (r matches Some(f) && f@ == FrameModel::Body(Some(line@))),
{
    if line.len() == 0 {
        return None;
    }
    let mut c: Vec<u8> = Vec::new();
    extend(&mut c, line);
    assert(c@ =~= line@);
    Some(Frame::Body { chunk: Some(c) })
}

/// The body frames of a command response: each output line that is not
/// empty, in order; then the status chunk; then the end of the body.
pub fn command_body(lines: &Vec<Vec<u8>>, status_json: &[u8]) -> (r: Vec<Frame>)
    ensures
        frame_models(r@) == response_chunks(byte_seqs(lines@), status_json@).map_values(
            |c: Seq<u8>| FrameModel::Body(Some(c)),
        ).push(FrameModel::Body(None)),
{
    let mut r: Vec<Frame> = Vec::new();
    let mut i: usize = 0;
    while i < lines.len()
        invariant
            i <= lines@.len(),
            frame_models(r@) == output_chunks(byte_seqs(lines@).take(i as int)).map_values(
                |c: Seq<u8>| FrameModel::Body(Some(c)),
            ),
        decreases lines@.len() - i,
    {
        let line = &lines[i];
        let ghost before = byte_seqs(lines@).take(i as int);
        let ghost after = byte_seqs(lines@).take(i + 1);
        let ghost old_r = r@;
        assert(after.drop_last() =~= before);
        assert(after.last() == line@);
        if let Some(f) = output_frame(line.as_slice()) {
            r.push(f);
            assert(output_chunks(after) == output_chunks(before).push(line@));
            assert(frame_models(r@) =~= frame_models(old_r).push(FrameModel::Body(Some(line@))));
            assert(frame_models(r@) =~= output_chunks(after).map_values(
                |c: Seq<u8>| FrameModel::Body(Some(c)),
            ));
        } else {
            assert(output_chunks(after) == output_chunks(before));
        }
        i = i + 1;
    }
    assert(byte_seqs(lines@).take(i as int) =~= byte_seqs(lines@));
    let ghost body_r = r@;
    let sc = status_chunk(status_json);
    let ghost sc_view = sc@;
    r.push(Frame::Body { chunk: Some(sc) });
    r.push(Frame::Body { chunk: None });
    assert(frame_models(r@) =~= frame_models(body_r).push(FrameModel::Body(Some(sc_view))).push(
        FrameModel::Body(None),
    ));
    assert(frame_models(r@) =~= response_chunks(byte_seqs(lines@), status_json@).map_values(
        |c: Seq<u8>| FrameModel::Body(Some(c)),
    ).push(FrameModel::Body(None)));
    r
}

proof fn lemma_output_chunks_from(lines: Seq<Seq<u8>>)
    ensures
        forall|k: int| 0 <= k < output_chunks(lines).len() ==> exists|j: int| 0 <= j < lines.len()
            && (#[trigger] output_chunks(lines)[k]) == lines[j],
    decreases lines.len(),
{
    if lines.len() > 0 {
        let init = lines.drop_last();
        lemma_output_chunks_from(init);
        assert forall|k: int| 0 <= k < output_chunks(lines).len() implies exists|j: int| 0 <= j
            < lines.len() && (#[trigger] output_chunks(lines)[k]) == lines[j] by {
            if k < output_chunks(init).len() {
                let j = choose|j: int| 0 <= j < init.len() && output_chunks(init)[k] == init[j];
                assert(lines[j] == init[j]);
            } else {
                assert(output_chunks(lines)[k] == lines[lines.len() - 1]);
            }
        }
    }
}

/// The status chunk is the last chunk of a command response, and no other
/// chunk opens with `ExitStatus:`, as long as no output line does.
pub proof fn lemma_status_chunk_last(lines: Seq<Seq<u8>>, status_json: Seq<u8>)
    requires
        forall|i: int| 0 <= i < lines.len() ==> !has_status_prefix(#[trigger] lines[i]),
    ensures
        has_status_prefix(response_chunks(lines, status_json).last()),
        forall|k: int| 0 <= k < response_chunks(lines, status_json).len() - 1
            ==> !has_status_prefix(#[trigger] response_chunks(lines, status_json)[k]),
{
    let cs = response_chunks(lines, status_json);
    assert((status_prefix() + status_json).take(11) =~= status_prefix());
    lemma_output_chunks_from(lines);
    assert forall|k: int| 0 <= k < cs.len() - 1 implies !has_status_prefix(#[trigger] cs[k]) by {
        assert(cs[k] == output_chunks(lines)[k]);
        let j = choose|j: int| 0 <= j < lines.len() && output_chunks(lines)[k] == lines[j];
    }
}

/// Where the exit status of a running command stands on the client side.
#[derive(PartialEq, Eq, Structural)]
pub enum SlotState {
    /// No status has arrived yet.
    Pending,
    /// The status chunk arrived with this status.
    Resolved(ExitStatus),
    /// The stream ended or was dropped before any status arrived.
    Dropped,
}

/// The slot after one body chunk, which carries `status` when it is a status
/// chunk: the first status fills a pending slot.
pub open spec fn slot_step(s: SlotState, status: Option<ExitStatus>) -> SlotState {
    match (s, status) {
        (SlotState::Pending, Some(x)) => SlotState::Resolved(x),
        _ => s,
    }
}

/// The slot once the stream is over: a slot still pending is dropped.
pub open spec fn slot_close(s: SlotState) -> SlotState {
    match s {
        SlotState::Pending => SlotState::Dropped,
        _ => s,
    }
}

/// The slot after a run of body chunks.
pub open spec fn slot_run(s: SlotState, chunks: Seq<Option<ExitStatus>>) -> SlotState
    decreases chunks.len(),
{
    if chunks.len() == 0 {
        s
    } else {
        slot_run(slot_step(s, chunks[0]), chunks.drop_first())
    }
}

/// The one-shot slot that the status chunk of a command response fills.
pub struct StatusSlot {
    pub state: SlotState,
}

impl StatusSlot {
    /// An empty slot.
    pub fn new() -> (r: StatusSlot)
        ensures
            r.state == SlotState::Pending,
    {
        StatusSlot { state: SlotState::Pending }
    }

    /// A body chunk arrived; `status` is the status it carries when it is a
    /// status chunk whose JSON holds one. Returns whether the chunk is output
    /// to pass on: all but the status chunk that fills the slot.
    pub fn receive(&mut self, status: Option<ExitStatus>) -> (passes: bool)
        ensures
            final(self).state == slot_step(old(self).state, status),
            passes == !(old(self).state is Pending && status is Some),
    {
        match (&self.state, status) {
            (SlotState::Pending, Some(s)) => {
                self.state = SlotState::Resolved(s);
                false
            },
            _ => true,
        }
    }

    /// The stream ended, or its reader dropped it.
    pub fn close(&mut self)
        ensures
            final(self).state == slot_close(old(self).state),
    {
        match self.state {
            SlotState::Pending => {
                self.state = SlotState::Dropped;
            },
            _ => {},
        }
    }

    /// The exit status, once it is known: the status received, or the error
    /// of a stream dropped before it.
    pub fn outcome(&self) -> (r: Option<Result<ExitStatus, Error>>)
        ensures
            self.state is Pending ==> r is None,
            self.state matches SlotState::Resolved(s) ==> r == Some(Ok::<ExitStatus, Error>(s)),
            self.state is Dropped ==> r matches Some(Err(Error::StreamDropped)),
    {
        match &self.state {
            SlotState::Pending => None,
            SlotState::Resolved(s) => Some(Ok(*s)),
            SlotState::Dropped => Some(Err(Error::StreamDropped)),
        }
    }
}

/// A drained stream resolves its exit status: after output chunks, the
/// status chunk fills the slot, and closing the stream keeps that status.
pub proof fn lemma_drained_stream_resolves(outputs: Seq<Option<ExitStatus>>, s: ExitStatus)
    requires
        forall|i: int| 0 <= i < outputs.len() ==> (#[trigger] outputs[i]) is None,
    ensures
        slot_close(slot_run(SlotState::Pending, outputs.push(Some(s)))) == SlotState::Resolved(s),
    decreases outputs.len(),
{
    let evs = outputs.push(Some(s));
    if outputs.len() == 0 {
        assert(evs.drop_first() =~= Seq::<Option<ExitStatus>>::empty());
        assert(evs[0] == Some(s));
        assert(slot_run(SlotState::Resolved(s), evs.drop_first()) == SlotState::Resolved(s));
    } else {
        assert(evs[0] is None);
        assert(evs.drop_first() =~= outputs.drop_first().push(Some(s)));
        assert forall|i: int| 0 <= i < outputs.drop_first().len() implies (
        #[trigger] outputs.drop_first()[i]) is None by {
            assert(outputs.drop_first()[i] == outputs[i + 1]);
        }
        lemma_drained_stream_resolves(outputs.drop_first(), s);
        assert(slot_run(SlotState::Pending, evs) == slot_run(SlotState::Pending, evs.drop_first()));
    }
}

/// A stream dropped before its status chunk resolves to the dropped-stream
/// error.
pub proof fn lemma_dropped_stream_fails(outputs: Seq<Option<ExitStatus>>)
    requires
        forall|i: int| 0 <= i < outputs.len() ==> (#[trigger] outputs[i]) is None,
    ensures
        slot_close(slot_run(SlotState::Pending, outputs)) == SlotState::Dropped,
    decreases outputs.len(),
{
    if outputs.len() > 0 {
        assert(outputs[0] is None);
        assert forall|i: int| 0 <= i < outputs.drop_first().len() implies (
        #[trigger] outputs.drop_first()[i]) is None by {
            assert(outputs.drop_first()[i] == outputs[i + 1]);
        }
        lemma_dropped_stream_fails(outputs.drop_first());
    }
}

/// The lines of a command's output joined in order, as they are collected.
pub open spec fn joined(ls: Seq<Seq<char>>) -> Seq<char>
    decreases ls.len(),
{
    if ls.len() == 0 {
        Seq::empty()
    } else {
        joined(ls.drop_last()) + ls.last()
    }
}

/// The output lines of a command, joined.
pub fn collect_output(lines: &Vec<String>) -> (r: String)
    ensures
        r@ == joined(texts(lines@)),
{
    let mut r = String::new();
    let mut i: usize = 0;
    while i < lines.len()
        invariant
            i <= lines@.len(),
            r@ == joined(texts(lines@.take(i as int))),
        decreases lines@.len() - i,
    {
        let line = &lines[i];
        r.append(line.as_str());
        let ghost t = texts(lines@.take(i + 1));
        assert(t.drop_last() =~= texts(lines@.take(i as int)));
        i = i + 1;
    }
    assert(lines@.take(i as int) =~= lines@);
    r
}

/// The result of a finished command: its output when it succeeded, else the
/// command error that carries the output.
pub fn command_result(output: String, status: ExitStatus) -> (r: Result<String, Error>)
    ensures
        status.success ==> r == Ok::<String, Error>(output),
        !status.success ==> (r matches Err(Error::Command(o)) && o == output),
{
    if status.success {
        Ok(output)
    } else {
        Err(Error::Command(output))
    }
}

/// The client's handle on a running command: its output stream, which can be
/// taken once, and the slot its exit status arrives in.
pub struct Child {
    /// Whether the output stream is still here to be taken.
    pub stream: bool,
    pub slot: StatusSlot,
}

impl Child {
    /// A handle whose stream is present and whose status is pending.
    pub fn new() -> (r: Child)
        ensures
            r.stream,
            r.slot.state == SlotState::Pending,
    {
        Child { stream: true, slot: StatusSlot::new() }
    }

    /// Take the output stream: only the first call gets it.
    pub fn take_stream(&mut self) -> (r: bool)
        ensures
            r == old(self).stream,
            !final(self).stream,
            final(self).slot == old(self).slot,
    {
        let r = self.stream;
        self.stream = false;
        r
    }

    /// The command's result from the lines its stream gave, once the stream is
    /// over: `None` when the stream was taken; else the joined output, or the
    /// command error when the status tells of failure, or the dropped-stream
    /// error when no status came.
    pub fn result(&self, lines: &Vec<String>) -> (r: Option<Result<String, Error>>)
        ensures
            !self.stream ==> r is None,
            self.stream && self.slot.state is Resolved && self.slot.state->Resolved_0.success ==> (r
                matches Some(Ok(o)) && o@ == joined(texts(lines@))),
            self.stream && self.slot.state is Resolved && !self.slot.state->Resolved_0.success ==> (r
                matches Some(Err(Error::Command(o))) && o@ == joined(texts(lines@))),
            self.stream && !(self.slot.state is Resolved) ==> r matches Some(Err(Error::StreamDropped)),
    {
        if !self.stream {
            return None;
        }
        match &self.slot.state {
            SlotState::Resolved(s) => Some(command_result(collect_output(lines), *s)),
            _ => Some(Err(Error::StreamDropped)),
        }
    }
}

/// The one command provider: runs the program directly.
pub struct Generic;

impl Generic {
    /// Always available.
    pub fn available() -> (r: bool)
        ensures
            r,
    {
        true
    }

    /// The program to spawn and its arguments; an empty argument list is an
    /// error.
    pub fn split_program(cmd: &Vec<String>) -> (r: Result<(String, Vec<String>), Error>)
        ensures
            cmd@.len() == 0 ==> (r matches Err(Error::Msg(m)) && m@ == "Invalid shell provided"@),
            cmd@.len() > 0 ==> (r matches Ok((p, a)) && p == cmd@[0] && a@ == cmd@.drop_first()),
    {
        if cmd.len() == 0 {
            return Err(Error::Msg("Invalid shell provided".to_owned()));
        }
        let mut args: Vec<String> = Vec::new();
        let mut i: usize = 1;
        while i < cmd.len()
            invariant
                1 <= i <= cmd@.len(),
                args@ == cmd@.subrange(1, i as int),
            decreases cmd@.len() - i,
        {
            args.push(cmd[i].clone());
            i = i + 1;
            assert(args@ =~= cmd@.subrange(1, i as int));
        }
        assert(args@ =~= cmd@.drop_first());
        Ok((cmd[0].clone(), args))
    }
}

/// The command provider of every host.
pub fn factory() -> (r: Result<Generic, Error>)
    ensures
        r is Ok,
{
    if Generic::available() {
        Ok(Generic)
    } else {
        Err(Error::ProviderUnavailable("Command".to_owned()))
    }
}

} // verus!
