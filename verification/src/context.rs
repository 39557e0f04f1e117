//! The context model: handle issue, binding slots, buffer contents, and the
//! append-only command log.
//!
//! [`GL`] stands for the live graphics context. It owns the full state the
//! library relies on: which handle each binding slot holds, which bytes each
//! buffer was last given, and the log of every [`Command`] decided so far.
//! Binding is a stack-less, single-slot protocol per target: a bind
//! overwrites the slot's previous occupant, so composite operations bind what
//! they need and unbind on exit.

use vstd::prelude::*;

use crate::command::BufferKind;
use crate::command::Command;
use crate::command::DataUsage;

verus! {

/// Marker for families of context-dependent types an embedder may group.
pub trait ContextTypes {
}

/// The abstract state of a context: the command log, one occupant per
/// binding slot, the next unissued handle, and the byte contents last
/// uploaded to each buffer handle.
#[verifier::ext_equal]
pub ghost struct GLState {
    pub log: Seq<Command>,
    pub array_buffer: Option<u32>,
    pub element_array_buffer: Option<u32>,
    pub vertex_array: Option<u32>,
    pub program: Option<u32>,
    pub texture_2d: Option<u32>,
    pub next_handle: u32,
    pub contents: Map<u32, Seq<u8>>,
}

impl GLState {
    /// The state with one more command in the log, all else equal.
    pub open spec fn push(self, c: Command) -> GLState {
        GLState { log: self.log.push(c), ..self }
    }

    /// The state with a batch of commands appended to the log, all else equal.
    pub open spec fn append(self, cs: Seq<Command>) -> GLState {
        GLState { log: self.log + cs, ..self }
    }

    /// The occupant of the buffer slot for the given target.
    pub open spec fn buffer_slot(self, kind: BufferKind) -> Option<u32> {
        match kind {
            BufferKind::Array => self.array_buffer,
            BufferKind::ElementArray => self.element_array_buffer,
        }
    }

    /// The state with the buffer slot for the given target replaced.
    pub open spec fn with_buffer_slot(self, kind: BufferKind, v: Option<u32>) -> GLState {
        match kind {
            BufferKind::Array => GLState { array_buffer: v, ..self },
            BufferKind::ElementArray => GLState { element_array_buffer: v, ..self },
        }
    }

    /// The state with the vertex-array slot replaced.
    pub open spec fn with_vertex_array(self, v: Option<u32>) -> GLState {
        GLState { vertex_array: v, ..self }
    }

    /// The state with the active program replaced.
    pub open spec fn with_program(self, v: Option<u32>) -> GLState {
        GLState { program: v, ..self }
    }

    /// The state with the two-dimensional texture slot replaced.
    pub open spec fn with_texture(self, v: Option<u32>) -> GLState {
        GLState { texture_2d: v, ..self }
    }

    /// The state with the next unissued handle advanced past `h`.
    pub open spec fn with_next_handle(self, h: u32) -> GLState {
        GLState { next_handle: h, ..self }
    }

    /// The state with one buffer's contents replaced by the given bytes.
    pub open spec fn with_upload(self, handle: u32, data: Seq<u8>) -> GLState {
        GLState { contents: self.contents.insert(handle, data), ..self }
    }
}

/// The context handle. Every resource operation takes it mutably and appends
/// the calls it decides on to the log; an embedder drains the log and replays
/// it against the live driver.
pub struct GL {
    log: Vec<Command>,
    array_buffer: Option<u32>,
    element_array_buffer: Option<u32>,
    vertex_array: Option<u32>,
    program: Option<u32>,
    texture_2d: Option<u32>,
    next_handle: u32,
    contents: Ghost<Map<u32, Seq<u8>>>,
}

impl View for GL {
    type V = GLState;

    closed spec fn view(&self) -> GLState {
        GLState {
            log: self.log@,
            array_buffer: self.array_buffer,
            element_array_buffer: self.element_array_buffer,
            vertex_array: self.vertex_array,
            program: self.program,
            texture_2d: self.texture_2d,
            next_handle: self.next_handle,
            contents: self.contents@,
        }
    }
}

impl GL {
    /// A fresh context: empty log, every slot empty, no contents recorded.
    pub fn new() -> (gl: GL)
        ensures
            gl@ == (GLState {
                log: Seq::<Command>::empty(),
                array_buffer: None,
                element_array_buffer: None,
                vertex_array: None,
                program: None,
                texture_2d: None,
                next_handle: 1u32,
                contents: Map::<u32, Seq<u8>>::empty(),
            }),
    {
        GL {
            log: Vec::new(),
            array_buffer: None,
            element_array_buffer: None,
            vertex_array: None,
            program: None,
            texture_2d: None,
            next_handle: 1,
            contents: Ghost(Map::empty()),
        }
    }

    /// The commands decided so far, oldest first.
    pub fn commands(&self) -> (r: &Vec<Command>)
        ensures
            r@ == self@.log,
    {
        &self.log
    }

    /// Hand the accumulated commands to the embedder and clear the log;
    /// every other part of the state is kept.
    pub fn take_commands(&mut self) -> (r: Vec<Command>)
        ensures
            r@ == old(self)@.log,
            final(self)@ == (GLState { log: Seq::<Command>::empty(), ..old(self)@ }),
    {
        let mut out: Vec<Command> = Vec::new();
        core::mem::swap(&mut out, &mut self.log);
        out
    }

    /// Append one command to the log.
    pub(crate) fn emit(&mut self, c: Command)
        ensures
            final(self)@ == old(self)@.push(c),
    {
        self.log.push(c);
    }

    /// Issue the next handle, or report exhaustion of the handle space.
    pub(crate) fn fresh_handle(&mut self) -> (r: Option<u32>)
        ensures
            old(self)@.next_handle < 0xFFFF_FFFFu32 ==> r == Some(old(self)@.next_handle)
                && final(self)@ == old(self)@.with_next_handle((old(self)@.next_handle + 1) as u32),
            old(self)@.next_handle == 0xFFFF_FFFFu32 ==> r is None && final(self)@ == old(self)@,
    {
        if self.next_handle == 0xFFFF_FFFFu32 {
            None
        } else {
            let h: u32 = self.next_handle;
            self.next_handle = h + 1;
            Some(h)
        }
    }

    /// Issue the next handle; the caller has ruled exhaustion out.
    pub(crate) fn fresh_handle_now(&mut self) -> (h: u32)
        requires
            old(self)@.next_handle < 0xFFFF_FFFFu32,
        ensures
            h == old(self)@.next_handle,
            final(self)@ == old(self)@.with_next_handle((old(self)@.next_handle + 1) as u32),
    {
        let h: u32 = self.next_handle;
        self.next_handle = h + 1;
        h
    }

    /// Log a bind of the given target and record the slot's new occupant.
    pub(crate) fn do_bind_buffer(&mut self, kind: BufferKind, handle: Option<u32>)
        ensures
            final(self)@ == old(self)@.push(Command::BindBuffer(kind, handle)).with_buffer_slot(
                kind,
                handle,
            ),
    {
        self.log.push(Command::BindBuffer(kind, handle));
        match kind {
            BufferKind::Array => {
                self.array_buffer = handle;
            },
            BufferKind::ElementArray => {
                self.element_array_buffer = handle;
            },
        }
    }

    /// Log a vertex-array bind and record the slot's new occupant.
    pub(crate) fn do_bind_vertex_array(&mut self, handle: Option<u32>)
        ensures
            final(self)@ == old(self)@.push(Command::BindVertexArray(handle)).with_vertex_array(
                handle,
            ),
    {
        self.log.push(Command::BindVertexArray(handle));
        self.vertex_array = handle;
    }

    /// Log a program activation and record it.
    pub(crate) fn do_use_program(&mut self, handle: Option<u32>)
        ensures
            final(self)@ == old(self)@.push(Command::UseProgram(handle)).with_program(handle),
    {
        self.log.push(Command::UseProgram(handle));
        self.program = handle;
    }

    /// Log a texture bind and record the slot's new occupant.
    pub(crate) fn do_bind_texture(&mut self, handle: Option<u32>)
        ensures
            final(self)@ == old(self)@.push(Command::BindTexture(handle)).with_texture(handle),
    {
        self.log.push(Command::BindTexture(handle));
        self.texture_2d = handle;
    }

    /// Log an upload of `data` to the buffer bound at `kind` and record the
    /// buffer's new contents.
    pub(crate) fn do_buffer_data(&mut self, kind: BufferKind, data: Vec<u8>, usage: DataUsage)
        requires
            old(self)@.buffer_slot(kind) is Some,
        ensures
            final(self)@ == old(self)@.push(Command::BufferData(kind, data, usage)).with_upload(
                old(self)@.buffer_slot(kind)->0,
                data@,
            ),
    {
        let handle: u32 = match kind {
            BufferKind::Array => self.array_buffer.unwrap(),
            BufferKind::ElementArray => self.element_array_buffer.unwrap(),
        };
        let ghost bytes = data@;
        self.log.push(Command::BufferData(kind, data, usage));
        proof {
            self.contents@ = self.contents@.insert(handle, bytes);
        }
    }
}

/// Uploading the same bytes to the same buffer twice leaves the recorded
/// contents exactly as one upload does: re-upload is idempotent.
pub proof fn lemma_upload_idempotent(s: GLState, handle: u32, data: Seq<u8>)
    ensures
        s.with_upload(handle, data).with_upload(handle, data) == s.with_upload(handle, data),
{
    assert(s.contents.insert(handle, data).insert(handle, data) =~= s.contents.insert(
        handle,
        data,
    ));
    assert(s.with_upload(handle, data).with_upload(handle, data) =~= s.with_upload(handle, data));
}

} // verus!
