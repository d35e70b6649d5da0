//! Streaming support: a buffer that lifts Zed commands out of a token stream.
use vstd::prelude::*;
use crate::channels::acp::commands::{
    command_json, commands_view, parse_zed_command_chars, zed_command_of, ZedCommand, ZedCommandView,
};
use crate::json::{array, array_exec, json_str, json_str_exec, member, member_exec, object, object_exec};
use crate::text::{
    chars_of, ends_with_exec, eq_chars, push_chars, seqs_of, starts_with_exec, string_of, utf8_bytes,
    utf8_len, utf8_len_exec,
};

verus! {

/// Largest buffered text, in UTF-8 bytes, before it is given up as plain text.
pub const MAX_COMMAND_BUFFER_SIZE: usize = 256;

/// Where the command buffer stands.
#[derive(Debug, Clone, Copy, PartialEq, Eq, Structural)]
pub enum BufferState {
    /// No potential command detected.
    Idle,
    /// Saw `[`; waiting to see whether a second `[` follows.
    PotentialCommand,
    /// Saw `[[`; buffering until `]]`.
    BufferingCommand,
}

/// The result of feeding characters to the buffer: the new state and
/// pending text, the text to flush, and the commands found.
pub struct Scan {
    pub state: BufferState,
    pub buffer: Seq<char>,
    pub out: Seq<char>,
    pub commands: Seq<ZedCommandView>,
}

/// The commands in an optional command.
pub open spec fn opt_seq(c: Option<ZedCommandView>) -> Seq<ZedCommandView> {
    match c {
        Some(c) => seq![c],
        None => Seq::empty(),
    }
}

/// One character through the buffer's state machine.
pub open spec fn step(state: BufferState, buffer: Seq<char>, ch: char) -> Scan {
    match state {
        BufferState::Idle => {
            if ch == '[' {
                Scan { state: BufferState::PotentialCommand, buffer: buffer.push(ch), out: Seq::empty(), commands: Seq::empty() }
            } else {
                Scan { state: BufferState::Idle, buffer, out: seq![ch], commands: Seq::empty() }
            }
        },
        BufferState::PotentialCommand => {
            let b = buffer.push(ch);
            if b == "[["@ {
                Scan { state: BufferState::BufferingCommand, buffer: b, out: Seq::empty(), commands: Seq::empty() }
            } else if ch == '[' {
                Scan { state: BufferState::PotentialCommand, buffer: seq![ch], out: buffer, commands: Seq::empty() }
            } else {
                Scan { state: BufferState::Idle, buffer: Seq::empty(), out: b, commands: Seq::empty() }
            }
        },
        BufferState::BufferingCommand => {
            let b = buffer.push(ch);
            if "]]"@.is_suffix_of(b) {
                match zed_command_of(b) {
                    Some(c) => Scan { state: BufferState::Idle, buffer: Seq::empty(), out: Seq::empty(), commands: seq![c] },
                    None => Scan { state: BufferState::Idle, buffer: Seq::empty(), out: b, commands: Seq::empty() },
                }
            } else if utf8_bytes(b) > MAX_COMMAND_BUFFER_SIZE {
                Scan { state: BufferState::Idle, buffer: Seq::empty(), out: b, commands: Seq::empty() }
            } else if utf8_bytes(b) >= 6 && !"[[ZED:"@.is_prefix_of(b) {
                Scan { state: BufferState::Idle, buffer: Seq::empty(), out: b, commands: Seq::empty() }
            } else {
                Scan { state: BufferState::BufferingCommand, buffer: b, out: Seq::empty(), commands: Seq::empty() }
            }
        },
    }
}

/// The characters of `chunk`, one after the other, through the state machine.
pub open spec fn scan(state: BufferState, buffer: Seq<char>, chunk: Seq<char>) -> Scan
    decreases chunk.len(),
{
    if chunk.len() == 0 {
        Scan { state, buffer, out: Seq::empty(), commands: Seq::empty() }
    } else {
        let prev = scan(state, buffer, chunk.drop_last());
        let last = step(prev.state, prev.buffer, chunk.last());
        Scan {
            state: last.state,
            buffer: last.buffer,
            out: prev.out + last.out,
            commands: prev.commands + last.commands,
        }
    }
}

/// The text a step of the state machine takes in as a command: the
/// buffered command text when it closes and parses, else nothing.
pub open spec fn step_consumed(state: BufferState, buffer: Seq<char>, ch: char) -> Seq<char> {
    let b = buffer.push(ch);
    if state == BufferState::BufferingCommand && "]]"@.is_suffix_of(b) && zed_command_of(b) is Some {
        b
    } else {
        Seq::empty()
    }
}

/// The text passed on for `chunk`, with the text of each command found put
/// back in its place.
pub open spec fn restored(state: BufferState, buffer: Seq<char>, chunk: Seq<char>) -> Seq<char>
    decreases chunk.len(),
{
    if chunk.len() == 0 {
        Seq::empty()
    } else {
        let prev = scan(state, buffer, chunk.drop_last());
        restored(state, buffer, chunk.drop_last()) + step(prev.state, prev.buffer, chunk.last()).out
            + step_consumed(prev.state, prev.buffer, chunk.last())
    }
}

proof fn lemma_step_keeps_text(state: BufferState, buffer: Seq<char>, ch: char)
    requires
        state == BufferState::Idle ==> buffer.len() == 0,
    ensures
        buffer.push(ch) == step(state, buffer, ch).out + step_consumed(state, buffer, ch) + step(state, buffer, ch).buffer,
        step(state, buffer, ch).state == BufferState::Idle ==> step(state, buffer, ch).buffer.len() == 0,
{
    let b = buffer.push(ch);
    assert(Seq::<char>::empty() + Seq::<char>::empty() + b =~= b);
    assert(b + Seq::<char>::empty() + Seq::<char>::empty() =~= b);
    assert(Seq::<char>::empty() + b + Seq::<char>::empty() =~= b);
    assert(buffer + Seq::<char>::empty() + seq![ch] =~= b);
    if state == BufferState::Idle {
        assert(seq![ch] + Seq::<char>::empty() + buffer =~= b);
    }
}

/// Nothing is lost: from an idle buffer (or one holding back text), the
/// held-back text and the chunk are exactly the text passed on, with each
/// command's own text put back where it was found, followed by the text
/// still held back. A bracketed span that is not a command is passed on as
/// it is.
pub proof fn lemma_nothing_lost(state: BufferState, buffer: Seq<char>, chunk: Seq<char>)
    requires
        state == BufferState::Idle ==> buffer.len() == 0,
    ensures
        buffer + chunk == restored(state, buffer, chunk) + scan(state, buffer, chunk).buffer,
        scan(state, buffer, chunk).state == BufferState::Idle ==> scan(state, buffer, chunk).buffer.len() == 0,
    decreases chunk.len(),
{
    if chunk.len() == 0 {
        assert(buffer + chunk =~= buffer);
        assert(Seq::<char>::empty() + buffer =~= buffer);
    } else {
        let d = chunk.drop_last();
        let ch = chunk.last();
        lemma_nothing_lost(state, buffer, d);
        let prev = scan(state, buffer, d);
        lemma_step_keeps_text(prev.state, prev.buffer, ch);
        let r = step(prev.state, prev.buffer, ch);
        let c = step_consumed(prev.state, prev.buffer, ch);
        let rd = restored(state, buffer, d);
        assert(buffer + chunk =~= (buffer + d).push(ch));
        assert((rd + prev.buffer).push(ch) =~= rd + prev.buffer.push(ch));
        assert(rd + (r.out + c + r.buffer) =~= rd + r.out + c + r.buffer);
    }
}

/// Buffers stream chunks to detect and extract Zed commands: text outside
/// commands is passed on at once, commands may be split across chunks, and
/// at most `MAX_COMMAND_BUFFER_SIZE` bytes are held back.
pub struct ZedCommandBuffer {
    state: BufferState,
    buffer: Vec<char>,
    buffer_bytes: usize,
    commands: Vec<ZedCommand>,
    flushed_text: String,
}

impl ZedCommandBuffer {
    /// Where the state machine stands.
    pub closed spec fn state_of(&self) -> BufferState { self.state }
    /// Text held back because it may start a command.
    pub closed spec fn pending(&self) -> Seq<char> { self.buffer@ }
    /// Commands found so far.
    pub closed spec fn found(&self) -> Seq<ZedCommandView> { commands_view(self.commands@) }
    /// Text passed on so far.
    pub closed spec fn flushed(&self) -> Seq<char> { self.flushed_text@ }

    /// The buffer's invariant: the byte count is right and bounded, and
    /// nothing is pending while idle.
    pub closed spec fn wf(&self) -> bool {
        &&& self.buffer_bytes == utf8_bytes(self.buffer@)
        &&& self.buffer_bytes <= MAX_COMMAND_BUFFER_SIZE
        &&& (self.state == BufferState::Idle ==> self.buffer@.len() == 0)
    }

    /// An empty buffer.
    pub fn new() -> (b: Self)
        ensures
            b.wf(),
            b.state_of() == BufferState::Idle,
            b.pending() == Seq::<char>::empty(),
            b.found() == Seq::<ZedCommandView>::empty(),
            b.flushed() == Seq::<char>::empty(),
    {
        let b = ZedCommandBuffer {
            state: BufferState::Idle,
            buffer: Vec::new(),
            buffer_bytes: 0,
            commands: Vec::new(),
            flushed_text: String::new(),
        };
        assert(b.found() =~= Seq::<ZedCommandView>::empty());
        b
    }
}

impl ZedCommandBuffer {
    fn clear_buffer(&mut self)
        ensures
            final(self).buffer@ == Seq::<char>::empty(),
            final(self).buffer_bytes == 0,
            final(self).state == old(self).state,
            final(self).commands == old(self).commands,
            final(self).flushed_text == old(self).flushed_text,
    {
        self.buffer = Vec::new();
        self.buffer_bytes = 0;
    }

    /// One character through the state machine; text to pass on goes to `out`.
    fn feed(&mut self, ch: char, out: &mut String)
        requires
            old(self).wf(),
        ensures
            final(self).wf(),
            final(self).state == step(old(self).state, old(self).buffer@, ch).state,
            final(self).buffer@ == step(old(self).state, old(self).buffer@, ch).buffer,
            final(out)@ == old(out)@ + step(old(self).state, old(self).buffer@, ch).out,
            final(self).found() == old(self).found() + step(old(self).state, old(self).buffer@, ch).commands,
            final(self).flushed_text == old(self).flushed_text,
    {
        proof {
            reveal_strlit("[[");
            reveal_strlit("]]");
            reveal_strlit("[[ZED:");
            assert(utf8_bytes(Seq::<char>::empty()) == 0);
        }
        let ghost old_found = self.found();
        let ghost b = self.buffer@.push(ch);
        match self.state {
            BufferState::Idle => {
                if ch == '[' {
                    self.state = BufferState::PotentialCommand;
                    self.buffer.push(ch);
                    self.buffer_bytes = self.buffer_bytes + utf8_len_exec(ch);
                    proof {
                        assert(self.buffer@.drop_last() =~= Seq::<char>::empty());
                    }
                } else {
                    crate::text::push_char(out, ch);
                    assert(seq![ch] =~= Seq::<char>::empty().push(ch));
                }
            },
            BufferState::PotentialCommand => {
                self.buffer.push(ch);
                self.buffer_bytes = self.buffer_bytes + utf8_len_exec(ch);
                assert(self.buffer@.drop_last() == old(self).buffer@);
                let pair = chars_of("[[");
                if eq_chars(self.buffer.as_slice(), pair.as_slice()) {
                    self.state = BufferState::BufferingCommand;
                    proof {
                        assert(self.buffer@ =~= "[["@.subrange(0, 2));
                        assert(self.buffer@.drop_last() =~= seq!['[']);
                        assert(seq!['['].drop_last() =~= Seq::<char>::empty());
                        assert(('[' as u32) == 91);
                        assert(utf8_len('[') == 1);
                        assert(seq!['['].last() == '[');
                        assert(utf8_bytes(Seq::<char>::empty()) == 0);
                        assert(utf8_bytes(seq!['[']) == 1);
                        assert(utf8_bytes(self.buffer@) == 2);
                    }
                } else {
                    // Not a command start: pass on what was held back, then
                    // take this character afresh.
                    self.buffer.pop();
                    assert(self.buffer@ =~= old(self).buffer@);
                    push_chars(out, self.buffer.as_slice());
                    self.clear_buffer();
                    self.state = BufferState::Idle;
                    if ch == '[' {
                        self.state = BufferState::PotentialCommand;
                        self.buffer.push(ch);
                        self.buffer_bytes = utf8_len_exec(ch);
                        assert(self.buffer@ =~= seq![ch]);
                        assert(self.buffer@.drop_last() =~= Seq::<char>::empty());
                    } else {
                        crate::text::push_char(out, ch);
                        assert(old(out)@ + old(self).buffer@ + seq![ch] =~= old(out)@ + b);
                    }
                }
            },
            BufferState::BufferingCommand => {
                self.buffer.push(ch);
                self.buffer_bytes = self.buffer_bytes + utf8_len_exec(ch);
                assert(self.buffer@.drop_last() == old(self).buffer@);
                let close = chars_of("]]");
                let open = chars_of("[[ZED:");
                if ends_with_exec(self.buffer.as_slice(), close.as_slice()) {
                    match parse_zed_command_chars(self.buffer.as_slice()) {
                        Some(cmd) => {
                            self.commands.push(cmd);
                            assert(self.found() =~= old_found + opt_seq(zed_command_of(b)));
                        },
                        None => {
                            push_chars(out, self.buffer.as_slice());
                        },
                    }
                    self.clear_buffer();
                    self.state = BufferState::Idle;
                } else if self.buffer_bytes > MAX_COMMAND_BUFFER_SIZE {
                    push_chars(out, self.buffer.as_slice());
                    self.clear_buffer();
                    self.state = BufferState::Idle;
                } else if self.buffer_bytes >= 6 && !starts_with_exec(self.buffer.as_slice(), open.as_slice()) {
                    push_chars(out, self.buffer.as_slice());
                    self.clear_buffer();
                    self.state = BufferState::Idle;
                }
            },
        }
        proof {
            assert(self.buffer_bytes == utf8_bytes(self.buffer@));
            assert(self.buffer_bytes <= MAX_COMMAND_BUFFER_SIZE);
            assert(Seq::<ZedCommandView>::empty() =~= opt_seq(None));
            assert(old_found + Seq::<ZedCommandView>::empty() =~= old_found);
            assert(old(out)@ + Seq::<char>::empty() =~= old(out)@);
        }
    }
}

impl ZedCommandBuffer {
    /// Feeds a chunk of streamed text through the buffer and returns the
    /// text to pass on at once; commands found are kept for `finalize`.
    pub fn process_chunk(&mut self, chunk: &str) -> (to_flush: String)
        requires
            old(self).wf(),
        ensures
            final(self).wf(),
            final(self).state_of() == scan(old(self).state_of(), old(self).pending(), chunk@).state,
            final(self).pending() == scan(old(self).state_of(), old(self).pending(), chunk@).buffer,
            to_flush@ == scan(old(self).state_of(), old(self).pending(), chunk@).out,
            final(self).found() == old(self).found() + scan(old(self).state_of(), old(self).pending(), chunk@).commands,
            final(self).flushed() == old(self).flushed() + to_flush@,
            utf8_bytes(final(self).pending()) <= MAX_COMMAND_BUFFER_SIZE,
    {
        let mut to_flush = String::new();
        let ghost st0 = self.state;
        let ghost buf0 = self.buffer@;
        let ghost found0 = self.found();
        let cs = chars_of(chunk);
        let mut i: usize = 0;
        assert(Seq::<char>::empty() + Seq::<char>::empty() =~= Seq::<char>::empty());
        assert(found0 + Seq::<ZedCommandView>::empty() =~= found0);
        while i < cs.len()
            invariant
                cs@ == chunk@,
                0 <= i <= cs.len(),
                self.wf(),
                self.state == scan(st0, buf0, cs@.take(i as int)).state,
                self.buffer@ == scan(st0, buf0, cs@.take(i as int)).buffer,
                to_flush@ == scan(st0, buf0, cs@.take(i as int)).out,
                self.found() == found0 + scan(st0, buf0, cs@.take(i as int)).commands,
                self.flushed_text@ == old(self).flushed_text@,
            decreases cs.len() - i,
        {
            let ch = cs[i];
            proof {
                let next = cs@.take(i + 1);
                assert(next.drop_last() =~= cs@.take(i as int));
                assert(next.last() == ch);
            }
            self.feed(ch, &mut to_flush);
            proof {
                let prev = scan(st0, buf0, cs@.take(i as int));
                let last = step(prev.state, prev.buffer, ch);
                assert(found0 + prev.commands + last.commands =~= found0 + (prev.commands + last.commands));
                assert(to_flush@ =~= prev.out + last.out);
            }
            i = i + 1;
        }
        assert(cs@.take(cs@.len() as int) =~= chunk@);
        crate::text::push_str(&mut self.flushed_text, to_flush.as_str());
        to_flush
    }

    /// Everything passed on, followed by any text still held back, and the
    /// commands found.
    pub fn finalize(self) -> (r: (String, Vec<ZedCommand>))
        ensures
            r.0@ == self.flushed() + self.pending(),
            commands_view(r.1@) == self.found(),
    {
        let mut final_text = self.flushed_text;
        if self.buffer.len() > 0 {
            push_chars(&mut final_text, self.buffer.as_slice());
        } else {
            assert(final_text@ + self.buffer@ =~= final_text@);
        }
        (final_text, self.commands)
    }

    /// Like `finalize`, through a mutable reference: the passed-on text, the
    /// pending text and the commands are taken out; the state is left as it is.
    pub fn finalize_ref(&mut self) -> (r: (String, Vec<ZedCommand>))
        requires
            old(self).wf(),
        ensures
            r.0@ == old(self).flushed() + old(self).pending(),
            commands_view(r.1@) == old(self).found(),
            final(self).wf(),
            final(self).state_of() == old(self).state_of(),
            final(self).pending() == Seq::<char>::empty(),
            final(self).flushed() == Seq::<char>::empty(),
            final(self).found() == Seq::<ZedCommandView>::empty(),
    {
        let mut final_text = String::new();
        std::mem::swap(&mut final_text, &mut self.flushed_text);
        if self.buffer.len() > 0 {
            push_chars(&mut final_text, self.buffer.as_slice());
            self.clear_buffer();
        } else {
            assert(final_text@ + self.buffer@ =~= final_text@);
        }
        let mut commands: Vec<ZedCommand> = Vec::new();
        std::mem::swap(&mut commands, &mut self.commands);
        assert(self.found() =~= Seq::<ZedCommandView>::empty());
        (final_text, commands)
    }

    /// The commands found so far.
    pub fn commands(&self) -> (r: &[ZedCommand])
        ensures
            commands_view(r@) == self.found(),
    {
        self.commands.as_slice()
    }
}


/// A chunk of a provider's token stream.
#[derive(Debug, Clone)]
pub struct StreamChunk {
    /// Text added by this chunk.
    pub delta: String,
    /// The stream ends with this chunk.
    pub is_final: bool,
    /// Tokens in this chunk.
    pub token_count: usize,
}

/// The JSON-RPC progress notification that carries `text` for `request_id`.
pub open spec fn progress_message(request_id: Seq<char>, text: Seq<char>) -> Seq<char> {
    object(seq![
        member("jsonrpc"@, json_str("2.0"@)),
        member("method"@, json_str("progress"@)),
        member("params"@, object(seq![
            member("requestId"@, json_str(request_id)),
            member("text"@, json_str(text)),
            member("type"@, json_str("text/delta"@)),
        ])),
    ])
}

/// Each command as JSON.
pub open spec fn commands_json(cs: Seq<ZedCommandView>) -> Seq<Seq<char>> {
    cs.map_values(|c: ZedCommandView| command_json(c))
}

/// The completion message: the full response text and the commands found.
pub open spec fn final_message(request_id: Seq<char>, text: Seq<char>, commands: Seq<ZedCommandView>) -> Seq<char> {
    object(seq![
        member("requestId"@, json_str(request_id)),
        member("response"@, json_str(text)),
        member("status"@, json_str("complete"@)),
        member("zedCommands"@, array(commands_json(commands))),
    ])
}

/// Streaming processor: passes text deltas on as progress notifications
/// while lifting Zed commands out of the stream.
pub struct StreamProcessor {
    request_id: String,
    buffer: ZedCommandBuffer,
    is_complete: bool,
}

fn str_json(s: &str) -> (r: Vec<char>)
    ensures
        r@ == json_str(s@),
{
    let cs = chars_of(s);
    json_str_exec(cs.as_slice())
}

fn progress_message_exec(request_id: &str, text: &str) -> (r: String)
    ensures
        r@ == progress_message(request_id@, text@),
{
    let id = chars_of(request_id);
    let tx = chars_of(text);
    let mut params: Vec<Vec<char>> = Vec::new();
    params.push(member_exec("requestId", json_str_exec(id.as_slice())));
    params.push(member_exec("text", json_str_exec(tx.as_slice())));
    params.push(member_exec("type", str_json("text/delta")));
    let mut top: Vec<Vec<char>> = Vec::new();
    top.push(member_exec("jsonrpc", str_json("2.0")));
    top.push(member_exec("method", str_json("progress")));
    assert(seqs_of(params@) =~= seq![
        member("requestId"@, json_str(request_id@)),
        member("text"@, json_str(text@)),
        member("type"@, json_str("text/delta"@)),
    ]);
    top.push(member_exec("params", object_exec(&params)));
    assert(seqs_of(top@) =~= seq![
        member("jsonrpc"@, json_str("2.0"@)),
        member("method"@, json_str("progress"@)),
        member("params"@, object(seqs_of(params@))),
    ]);
    let r = object_exec(&top);
    string_of(r.as_slice())
}

pub(crate) fn final_message_exec(request_id: &str, text: &str, commands: &Vec<ZedCommand>) -> (r: String)
    ensures
        r@ == final_message(request_id@, text@, commands_view(commands@)),
{
    let ghost cv = commands_view(commands@);
    let mut elems: Vec<Vec<char>> = Vec::new();
    let mut i: usize = 0;
    while i < commands.len()
        invariant
            0 <= i <= commands.len(),
            cv == commands_view(commands@),
            seqs_of(elems@) == commands_json(cv.take(i as int)),
        decreases commands.len() - i,
    {
        let j = commands[i].to_json();
        assert(cv[i as int] == commands@[i as int]@);
        assert(j@ == command_json(cv[i as int]));
        let ghost prev = seqs_of(elems@);
        elems.push(j);
        assert(seqs_of(elems@) =~= prev.push(j@));
        assert(cv.take(i + 1) =~= cv.take(i as int).push(cv[i as int]));
        assert(commands_json(cv.take(i + 1)) =~= commands_json(cv.take(i as int)).push(command_json(cv[i as int])));
        i = i + 1;
    }
    assert(cv.take(commands@.len() as int) =~= cv);
    let id = chars_of(request_id);
    let tx = chars_of(text);
    let mut top: Vec<Vec<char>> = Vec::new();
    top.push(member_exec("requestId", json_str_exec(id.as_slice())));
    top.push(member_exec("response", json_str_exec(tx.as_slice())));
    top.push(member_exec("status", str_json("complete")));
    top.push(member_exec("zedCommands", array_exec(&elems)));
    assert(seqs_of(top@) =~= seq![
        member("requestId"@, json_str(request_id@)),
        member("response"@, json_str(text@)),
        member("status"@, json_str("complete"@)),
        member("zedCommands"@, array(commands_json(cv))),
    ]);
    let r = object_exec(&top);
    string_of(r.as_slice())
}

impl StreamProcessor {
    /// The request this processor answers.
    pub closed spec fn request(&self) -> Seq<char> { self.request_id@ }
    /// The command buffer.
    pub closed spec fn buf(&self) -> ZedCommandBuffer { self.buffer }
    /// The stream has ended.
    pub closed spec fn complete(&self) -> bool { self.is_complete }

    /// A processor for `request_id`, with an empty buffer.
    pub fn new(request_id: String) -> (p: Self)
        ensures
            p.request() == request_id@,
            p.buf().wf(),
            p.buf().state_of() == BufferState::Idle,
            p.buf().pending() == Seq::<char>::empty(),
            p.buf().found() == Seq::<ZedCommandView>::empty(),
            p.buf().flushed() == Seq::<char>::empty(),
            !p.complete(),
    {
        StreamProcessor { request_id, buffer: ZedCommandBuffer::new(), is_complete: false }
    }

    /// Handles one chunk of the provider stream. A final chunk marks the
    /// stream complete and sends nothing; otherwise the chunk goes through
    /// the command buffer and the text passed on, if any, is sent as a
    /// progress notification.
    pub fn process_chunk(&mut self, chunk: &StreamChunk) -> (r: Option<String>)
        requires
            old(self).buf().wf(),
        ensures
            final(self).buf().wf(),
            final(self).request() == old(self).request(),
            chunk.is_final ==> r is None && final(self).complete() && final(self).buf() == old(self).buf(),
            !chunk.is_final ==> ({
                let sc = scan(old(self).buf().state_of(), old(self).buf().pending(), chunk.delta@);
                &&& final(self).complete() == old(self).complete()
                &&& final(self).buf().state_of() == sc.state
                &&& final(self).buf().pending() == sc.buffer
                &&& final(self).buf().found() == old(self).buf().found() + sc.commands
                &&& final(self).buf().flushed() == old(self).buf().flushed() + sc.out
                &&& (sc.out.len() == 0 ==> r is None)
                &&& (sc.out.len() > 0 ==> r is Some && r->0@ == progress_message(old(self).request(), sc.out))
            }),
    {
        if chunk.is_final {
            self.is_complete = true;
            return None;
        }
        let text_delta = self.buffer.process_chunk(chunk.delta.as_str());
        if text_delta.as_str().is_empty() {
            None
        } else {
            Some(progress_message_exec(self.request_id.as_str(), text_delta.as_str()))
        }
    }

    /// The full text passed on (with any text still held back) and the
    /// commands found.
    pub fn finalize(self) -> (r: (String, Vec<ZedCommand>))
        ensures
            r.0@ == self.buf().flushed() + self.buf().pending(),
            commands_view(r.1@) == self.buf().found(),
    {
        self.buffer.finalize()
    }

    /// The completion message for the whole stream.
    pub fn build_final_message(self) -> (r: String)
        ensures
            r@ == final_message(self.request(), self.buf().flushed() + self.buf().pending(), self.buf().found()),
    {
        let request_id = self.request_id.clone();
        let (full_text, zed_commands) = self.finalize();
        final_message_exec(request_id.as_str(), full_text.as_str(), &zed_commands)
    }

    /// The completion message, built through a mutable reference: the
    /// buffer is emptied as by `finalize_ref` and the stream marked complete.
    pub fn build_final_message_ref(&mut self) -> (r: String)
        requires
            old(self).buf().wf(),
        ensures
            r@ == final_message(old(self).request(), old(self).buf().flushed() + old(self).buf().pending(), old(self).buf().found()),
            final(self).buf().wf(),
            final(self).complete(),
            final(self).request() == old(self).request(),
    {
        let request_id = self.request_id.clone();
        let (full_text, zed_commands) = self.buffer.finalize_ref();
        self.is_complete = true;
        final_message_exec(request_id.as_str(), full_text.as_str(), &zed_commands)
    }

    /// Whether the stream has ended.
    pub fn is_complete(&self) -> (r: bool)
        ensures
            r == self.complete(),
    {
        self.is_complete
    }

    /// The command buffer.
    pub fn buffer(&self) -> (r: &ZedCommandBuffer)
        ensures
            *r == self.buf(),
    {
        &self.buffer
    }
}

/// A command split across chunks is found as if it came in one: feeding `x`
/// and then `y` ends in the same state, passes on the same text and finds
/// the same commands as feeding `x + y`.
pub proof fn lemma_scan_split(state: BufferState, buffer: Seq<char>, x: Seq<char>, y: Seq<char>)
    ensures
        ({
            let first = scan(state, buffer, x);
            let second = scan(first.state, first.buffer, y);
            let whole = scan(state, buffer, x + y);
            &&& whole.state == second.state
            &&& whole.buffer == second.buffer
            &&& whole.out == first.out + second.out
            &&& whole.commands == first.commands + second.commands
        }),
    decreases y.len(),
{
    let first = scan(state, buffer, x);
    if y.len() == 0 {
        assert(x + y =~= x);
        assert(first.out + Seq::<char>::empty() =~= first.out);
        assert(first.commands + Seq::<ZedCommandView>::empty() =~= first.commands);
    } else {
        lemma_scan_split(state, buffer, x, y.drop_last());
        assert((x + y).drop_last() =~= x + y.drop_last());
        assert((x + y).last() == y.last());
        let second_prev = scan(first.state, first.buffer, y.drop_last());
        let last = step(second_prev.state, second_prev.buffer, y.last());
        assert(first.out + second_prev.out + last.out =~= first.out + (second_prev.out + last.out));
        assert(first.commands + second_prev.commands + last.commands =~= first.commands
            + (second_prev.commands + last.commands));
    }
}

/// Text without `[` passes through an idle buffer unchanged.
pub proof fn lemma_scan_plain(chunk: Seq<char>)
    requires
        forall|i: int| 0 <= i < chunk.len() ==> chunk[i] != '[',
    ensures
        scan(BufferState::Idle, Seq::empty(), chunk).state == BufferState::Idle,
        scan(BufferState::Idle, Seq::empty(), chunk).buffer == Seq::<char>::empty(),
        scan(BufferState::Idle, Seq::empty(), chunk).out == chunk,
        scan(BufferState::Idle, Seq::empty(), chunk).commands == Seq::<ZedCommandView>::empty(),
    decreases chunk.len(),
{
    if chunk.len() > 0 {
        lemma_scan_plain(chunk.drop_last());
        assert(chunk.drop_last() + seq![chunk.last()] =~= chunk);
        assert(Seq::<ZedCommandView>::empty() + Seq::<ZedCommandView>::empty() =~= Seq::<ZedCommandView>::empty());
    }
}

/// The buffer never holds back more than `MAX_COMMAND_BUFFER_SIZE` bytes.
pub proof fn lemma_pending_bounded(b: &ZedCommandBuffer)
    requires
        b.wf(),
    ensures
        utf8_bytes(b.pending()) <= MAX_COMMAND_BUFFER_SIZE,
{
}

} // verus!
