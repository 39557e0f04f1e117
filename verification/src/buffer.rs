//! Buffer objects, vertex arrays, index buffers, and mapped write views.
//!
//! A [`Buffer`] owns one handle and is tagged at the type level with the
//! binding target it was created for, so a vertex-data buffer can never be
//! bound to the index-data target or the other way round. An [`IndexBuffer`]
//! pairs an element-array buffer with the element count a draw call needs.
//! A [`MapArray`] is a scoped writable view over a mapped buffer range that
//! flushes the whole requested range and unmaps exactly once when closed.

use vstd::prelude::*;

use core::marker::PhantomData;

use crate::command::BufferKind;
use crate::command::Command;
use crate::command::DataUsage;
use crate::context::GL;
use crate::context::GLState;

use vstd::string::StringExecFns;

verus! {

/// Ties a buffer's type-level tag to its binding target.
pub trait BufferType {
    /// The binding target this tag stands for.
    spec fn spec_target() -> BufferKind;

    /// The binding target this tag stands for.
    fn target() -> (k: BufferKind)
        ensures
            k == Self::spec_target(),
    ;
}

/// Tag for buffers holding vertex data.
pub struct BufferTypeArray;

impl BufferType for BufferTypeArray {
    open spec fn spec_target() -> BufferKind {
        BufferKind::Array
    }

    fn target() -> (k: BufferKind) {
        BufferKind::Array
    }
}

/// Tag for buffers holding index data.
pub struct BufferTypeElementArray;

impl BufferType for BufferTypeElementArray {
    open spec fn spec_target() -> BufferKind {
        BufferKind::ElementArray
    }

    fn target() -> (k: BufferKind) {
        BufferKind::ElementArray
    }
}

/// An owned buffer handle, tagged with the target it binds to.
pub struct Buffer<B: BufferType> {
    /// The handle issued by the context at creation.
    pub vbo: u32,
    /// Carries the type-level target tag; holds no data.
    pub _marker: PhantomData<B>,
}

/// A buffer of vertex data.
pub type ArrayBuffer = Buffer<BufferTypeArray>;

/// A buffer of index data.
pub type ElementArrayBuffer = Buffer<BufferTypeElementArray>;

impl<B: BufferType> Buffer<B> {
    /// Allocate a buffer handle. Fails only when the context has no handle
    /// left to issue.
    pub fn new(gl: &mut GL) -> (r: Result<Buffer<B>, String>)
        ensures
            old(gl)@.next_handle < 0xFFFF_FFFFu32 ==> (r matches Ok(b) && b.vbo == old(
                gl,
            )@.next_handle && final(gl)@ == old(gl)@.with_next_handle(
                (old(gl)@.next_handle + 1) as u32,
            ).push(Command::CreateBuffer(old(gl)@.next_handle))),
            old(gl)@.next_handle == 0xFFFF_FFFFu32 ==> r is Err && final(gl)@ == old(gl)@,
    {
        match gl.fresh_handle() {
            None => Err(String::from_str("the context has no buffer handle left to issue")),
            Some(h) => {
                gl.emit(Command::CreateBuffer(h));
                Ok(Buffer { vbo: h, _marker: PhantomData })
            },
        }
    }

    /// Bind this buffer to its target, replacing the slot's occupant.
    pub fn bind(&self, gl: &mut GL)
        ensures
            final(gl)@ == old(gl)@.push(
                Command::BindBuffer(B::spec_target(), Some(self.vbo)),
            ).with_buffer_slot(B::spec_target(), Some(self.vbo)),
    {
        gl.do_bind_buffer(B::target(), Some(self.vbo));
    }

    /// Clear this buffer's target slot.
    pub fn unbind(&self, gl: &mut GL)
        ensures
            final(gl)@ == old(gl)@.push(
                Command::BindBuffer(B::spec_target(), None),
            ).with_buffer_slot(B::spec_target(), None),
    {
        gl.do_bind_buffer(B::target(), None);
    }

    /// Upload `data` for immutable use. The buffer must currently occupy its
    /// own target slot; the upload replaces the buffer's visible contents.
    pub fn static_draw_data(&self, gl: &mut GL, data: &Vec<u8>)
        requires
            old(gl)@.buffer_slot(B::spec_target()) == Some(self.vbo),
        ensures
            final(gl)@.log.len() == old(gl)@.log.len() + 1,
            final(gl)@.log.take(old(gl)@.log.len() as int) == old(gl)@.log,
            final(gl)@.log.last() matches Command::BufferData(k, bytes, u) && k
                == B::spec_target() && bytes@ == data@ && u == DataUsage::StaticDraw,
            final(gl)@ == (GLState {
                log: final(gl)@.log,
                contents: old(gl)@.contents.insert(self.vbo, data@),
                ..old(gl)@
            }),
    {
        self.upload(gl, data, DataUsage::StaticDraw);
    }

    /// Upload `data` marked for frequent re-upload; otherwise as
    /// [`Buffer::static_draw_data`].
    pub fn dynamic_draw_data(&self, gl: &mut GL, data: &Vec<u8>)
        requires
            old(gl)@.buffer_slot(B::spec_target()) == Some(self.vbo),
        ensures
            final(gl)@.log.len() == old(gl)@.log.len() + 1,
            final(gl)@.log.take(old(gl)@.log.len() as int) == old(gl)@.log,
            final(gl)@.log.last() matches Command::BufferData(k, bytes, u) && k
                == B::spec_target() && bytes@ == data@ && u == DataUsage::DynamicDraw,
            final(gl)@ == (GLState {
                log: final(gl)@.log,
                contents: old(gl)@.contents.insert(self.vbo, data@),
                ..old(gl)@
            }),
    {
        self.upload(gl, data, DataUsage::DynamicDraw);
    }

    /// Upload 16-bit indices as their little-endian byte image; otherwise as
    /// [`Buffer::static_draw_data`].
    pub fn element_draw_data(&self, gl: &mut GL, data: &Vec<u16>)
        requires
            old(gl)@.buffer_slot(B::spec_target()) == Some(self.vbo),
        ensures
            final(gl)@.log.len() == old(gl)@.log.len() + 1,
            final(gl)@.log.take(old(gl)@.log.len() as int) == old(gl)@.log,
            final(gl)@.log.last() matches Command::BufferData(k, bytes, u) && k
                == B::spec_target() && bytes@ == u16_le_bytes(data@) && u == DataUsage::StaticDraw,
            final(gl)@ == (GLState {
                log: final(gl)@.log,
                contents: old(gl)@.contents.insert(self.vbo, u16_le_bytes(data@)),
                ..old(gl)@
            }),
    {
        let bytes = u16s_to_le_bytes(data);
        let ghost pre = gl@;
        gl.do_buffer_data(B::target(), bytes, DataUsage::StaticDraw);
        proof {
            assert(final(gl)@.log.take(pre.log.len() as int) =~= pre.log);
        }
    }

    fn upload(&self, gl: &mut GL, data: &Vec<u8>, usage: DataUsage)
        requires
            old(gl)@.buffer_slot(B::spec_target()) == Some(self.vbo),
        ensures
            final(gl)@.log.len() == old(gl)@.log.len() + 1,
            final(gl)@.log.take(old(gl)@.log.len() as int) == old(gl)@.log,
            final(gl)@.log.last() matches Command::BufferData(k, bytes, u) && k
                == B::spec_target() && bytes@ == data@ && u == usage,
            final(gl)@ == (GLState {
                log: final(gl)@.log,
                contents: old(gl)@.contents.insert(self.vbo, data@),
                ..old(gl)@
            }),
    {
        let payload = clone_bytes(data);
        let ghost pre = gl@;
        gl.do_buffer_data(B::target(), payload, usage);
        proof {
            assert(final(gl)@.log.take(pre.log.len() as int) =~= pre.log);
        }
    }

    /// Release the handle; the buffer is consumed, so the release happens
    /// exactly once.
    pub fn delete(self, gl: &mut GL)
        ensures
            final(gl)@ == old(gl)@.push(Command::DeleteBuffer(self.vbo)),
    {
        gl.emit(Command::DeleteBuffer(self.vbo));
    }
}

/// Copy a byte vector.
pub(crate) fn clone_bytes(data: &Vec<u8>) -> (r: Vec<u8>)
    ensures
        r@ == data@,
{
    let mut r: Vec<u8> = Vec::new();
    let mut i: usize = 0;
    while i < data.len()
        invariant
            i <= data@.len(),
            r@ == data@.take(i as int),
        decreases data@.len() - i,
    {
        r.push(data[i]);
        proof {
            assert(data@.take((i + 1) as int) =~= data@.take(i as int).push(data@[i as int]));
        }
        i = i + 1;
    }
    proof {
        assert(data@.take(data@.len() as int) =~= data@);
    }
    r
}

/// The little-endian byte image of a sequence of 16-bit values: each value
/// contributes its low byte, then its high byte.
pub open spec fn u16_le_bytes(s: Seq<u16>) -> Seq<u8>
    decreases s.len(),
{
    if s.len() == 0 {
        Seq::empty()
    } else {
        u16_le_bytes(s.drop_last()) + seq![(s.last() % 256) as u8, (s.last() / 256) as u8]
    }
}

/// Build the little-endian byte image of `data`.
fn u16s_to_le_bytes(data: &Vec<u16>) -> (r: Vec<u8>)
    ensures
        r@ == u16_le_bytes(data@),
{
    let mut r: Vec<u8> = Vec::new();
    let mut i: usize = 0;
    while i < data.len()
        invariant
            i <= data@.len(),
            r@ == u16_le_bytes(data@.take(i as int)),
        decreases data@.len() - i,
    {
        let x: u16 = data[i];
        r.push((x % 256) as u8);
        r.push((x / 256) as u8);
        proof {
            let t = data@.take((i + 1) as int);
            assert(t.drop_last() =~= data@.take(i as int));
            assert(t.last() == x);
            assert(r@ =~= u16_le_bytes(data@.take(i as int)) + seq![
                (x % 256) as u8,
                (x / 256) as u8,
            ]);
        }
        i = i + 1;
    }
    proof {
        assert(data@.take(data@.len() as int) =~= data@);
    }
    r
}

/// An owned vertex-array handle: the aggregate binding state that links
/// buffers' attribute descriptions to a program.
pub struct VertexArray {
    vao: u32,
}

impl VertexArray {
    /// The handle issued by the context at creation.
    pub closed spec fn handle(&self) -> u32 {
        self.vao
    }

    /// Allocate a vertex-array handle. Fails only when the context has no
    /// handle left to issue.
    pub fn new(gl: &mut GL) -> (r: Result<VertexArray, String>)
        ensures
            old(gl)@.next_handle < 0xFFFF_FFFFu32 ==> (r matches Ok(v) && v.handle() == old(
                gl,
            )@.next_handle && final(gl)@ == old(gl)@.with_next_handle(
                (old(gl)@.next_handle + 1) as u32,
            ).push(Command::CreateVertexArray(old(gl)@.next_handle))),
            old(gl)@.next_handle == 0xFFFF_FFFFu32 ==> r is Err && final(gl)@ == old(gl)@,
    {
        match gl.fresh_handle() {
            None => Err(String::from_str("the context has no vertex-array handle left to issue")),
            Some(h) => {
                gl.emit(Command::CreateVertexArray(h));
                Ok(VertexArray { vao: h })
            },
        }
    }

    /// Make this vertex array the active aggregate-binding target.
    pub fn bind(&self, gl: &mut GL)
        ensures
            final(gl)@ == old(gl)@.push(
                Command::BindVertexArray(Some(self.handle())),
            ).with_vertex_array(Some(self.handle())),
    {
        gl.do_bind_vertex_array(Some(self.vao));
    }

    /// Clear the aggregate-binding target.
    pub fn unbind(&self, gl: &mut GL)
        ensures
            final(gl)@ == old(gl)@.push(Command::BindVertexArray(None)).with_vertex_array(None),
    {
        gl.do_bind_vertex_array(None);
    }

    /// Release the handle; the vertex array is consumed, so the release
    /// happens exactly once.
    pub fn delete(self, gl: &mut GL)
        ensures
            final(gl)@ == old(gl)@.push(Command::DeleteVertexArray(self.handle())),
    {
        gl.emit(Command::DeleteVertexArray(self.vao));
    }
}

/// An element-array buffer paired with the element count a draw call needs.
pub struct IndexBuffer {
    /// The underlying element-array buffer.
    pub veb: ElementArrayBuffer,
    /// How many 16-bit indices the buffer holds.
    pub size: usize,
}

impl IndexBuffer {
    /// The handle of the underlying element-array buffer.
    pub closed spec fn handle(&self) -> u32 {
        self.veb.vbo
    }

    /// Create an element-array buffer, upload `index` as 16-bit values,
    /// leave the element target unbound, and record the element count.
    /// Fails only when the context has no handle left to issue.
    pub fn new(gl: &mut GL, index: &Vec<u16>) -> (r: Result<IndexBuffer, String>)
        requires
            index@.len() <= 0x7FFF_FFFF,
        ensures
            old(gl)@.next_handle < 0xFFFF_FFFFu32 ==> {
                let h = old(gl)@.next_handle;
                let n = old(gl)@.log.len() as int;
                &&& r matches Ok(ib) && ib.size == index@.len() && ib.handle() == h
                &&& final(gl)@.log.len() == n + 4
                &&& final(gl)@.log.take(n) == old(gl)@.log
                &&& final(gl)@.log[n] == Command::CreateBuffer(h)
                &&& final(gl)@.log[n + 1] == Command::BindBuffer(BufferKind::ElementArray, Some(h))
                &&& final(gl)@.log[n + 2] matches Command::BufferData(k, bytes, u) && k
                    == BufferKind::ElementArray && bytes@ == u16_le_bytes(index@) && u
                    == DataUsage::StaticDraw
                &&& final(gl)@.log[n + 3] == Command::BindBuffer(BufferKind::ElementArray, None)
                &&& final(gl)@ == (GLState {
                    log: final(gl)@.log,
                    element_array_buffer: None,
                    next_handle: (h + 1) as u32,
                    contents: old(gl)@.contents.insert(h, u16_le_bytes(index@)),
                    ..old(gl)@
                })
            },
            old(gl)@.next_handle == 0xFFFF_FFFFu32 ==> r is Err && final(gl)@ == old(gl)@,
    {
        let ghost pre = gl@;
        let veb = match Buffer::<BufferTypeElementArray>::new(gl) {
            Ok(b) => b,
            Err(e) => {
                return Err(e);
            },
        };
        let ghost s1 = gl@;
        veb.bind(gl);
        let ghost s2 = gl@;
        veb.element_draw_data(gl, index);
        let ghost s3 = gl@;
        veb.unbind(gl);
        proof {
            let n = pre.log.len() as int;
            let h = pre.next_handle;
            assert(s1.log == pre.log.push(Command::CreateBuffer(h)));
            assert(s2.log == s1.log.push(
                Command::BindBuffer(BufferKind::ElementArray, Some(h)),
            ));
            assert(s3.log.len() == s2.log.len() + 1);
            assert forall|i: int| 0 <= i < s2.log.len() implies s3.log[i] == s2.log[i] by {
                assert(s3.log.take(s2.log.len() as int)[i] == s3.log[i]);
            }
            let flog = final(gl)@.log;
            assert(flog == s3.log.push(Command::BindBuffer(BufferKind::ElementArray, None)));
            assert(flog.take(n) =~= pre.log);
            assert(flog[n] == s2.log[n] && s2.log[n] == Command::CreateBuffer(h));
            assert(flog[n + 1] == s2.log[n + 1]);
            assert(flog[n + 2] == s3.log[n + 2] && s3.log[n + 2] == s3.log.last());
            assert(final(gl)@ =~= (GLState {
                log: flog,
                element_array_buffer: None,
                next_handle: (h + 1) as u32,
                contents: pre.contents.insert(h, u16_le_bytes(index@)),
                ..pre
            }));
        }
        Ok(IndexBuffer { veb, size: index.len() })
    }

    /// Bind the underlying element-array buffer.
    pub fn bind(&self, gl: &mut GL)
        ensures
            final(gl)@ == old(gl)@.push(
                Command::BindBuffer(BufferKind::ElementArray, Some(self.handle())),
            ).with_buffer_slot(BufferKind::ElementArray, Some(self.handle())),
    {
        self.veb.bind(gl);
    }

    /// Release the underlying handle; the index buffer is consumed, so the
    /// release happens exactly once.
    pub fn delete(self, gl: &mut GL)
        ensures
            final(gl)@ == old(gl)@.push(Command::DeleteBuffer(self.handle())),
    {
        self.veb.delete(gl);
    }
}

/// The abstract state of a mapped write view: the element count and element
/// byte size it was requested with, and the writes staged so far in order.
pub ghost struct MapArrayView<T> {
    pub len: usize,
    pub elem_size: usize,
    pub writes: Seq<(usize, T)>,
}

/// A scoped writable view over a mapped range of the buffer bound at the
/// vertex-data target. Writes are staged; [`MapArray::close`] hands them to
/// the embedder, flushes exactly the requested byte range, and unmaps exactly
/// once, however many writes were staged.
pub struct MapArray<T> {
    len: usize,
    elem_size: usize,
    writes: Vec<(usize, T)>,
}

impl<T> View for MapArray<T> {
    type V = MapArrayView<T>;

    closed spec fn view(&self) -> MapArrayView<T> {
        MapArrayView { len: self.len, elem_size: self.elem_size, writes: self.writes@ }
    }
}

impl<T> MapArray<T> {
    /// Map `len` elements of `elem_size` bytes each, for writing with
    /// explicit flush. The buffer to map must occupy the vertex-data slot.
    /// A mapping the driver cannot satisfy surfaces as a replay failure at
    /// the embedder; the model itself always grants the view.
    pub fn new(gl: &mut GL, len: usize, elem_size: usize) -> (r: Result<MapArray<T>, String>)
        requires
            old(gl)@.buffer_slot(BufferKind::Array) is Some,
            len * elem_size <= 0x7FFF_FFFF,
        ensures
            r matches Ok(m) && m@ == (MapArrayView::<T> {
                len,
                elem_size,
                writes: Seq::empty(),
            }),
            final(gl)@ == old(gl)@.push(
                Command::MapBufferRange(BufferKind::Array, 0, (len * elem_size) as u32),
            ),
    {
        let bytes: usize = len * elem_size;
        gl.emit(Command::MapBufferRange(BufferKind::Array, 0, bytes as u32));
        Ok(MapArray { len, elem_size, writes: Vec::new() })
    }

    /// The element count the view was requested with.
    pub fn len(&self) -> (r: usize)
        ensures
            r == self@.len,
    {
        self.len
    }

    /// Stage a write of `value` to element `index`.
    pub fn write(&mut self, index: usize, value: T)
        requires
            index < old(self)@.len,
        ensures
            final(self)@ == (MapArrayView {
                writes: old(self)@.writes.push((index, value)),
                ..old(self)@
            }),
    {
        self.writes.push((index, value));
    }

    /// Close the view: flush exactly the requested byte range, unmap exactly
    /// once, and hand the staged writes back for the embedder to apply,
    /// whatever subset of elements was written.
    pub fn close(self, gl: &mut GL) -> (writes: Vec<(usize, T)>)
        requires
            self@.len * self@.elem_size <= 0x7FFF_FFFF,
        ensures
            writes@ == self@.writes,
            final(gl)@ == old(gl)@.push(
                Command::FlushMappedBufferRange(
                    BufferKind::Array,
                    0,
                    (self@.len * self@.elem_size) as u32,
                ),
            ).push(Command::UnmapBuffer(BufferKind::Array)),
    {
        let bytes: usize = self.len * self.elem_size;
        gl.emit(Command::FlushMappedBufferRange(BufferKind::Array, 0, bytes as u32));
        gl.emit(Command::UnmapBuffer(BufferKind::Array));
        self.writes
    }
}

} // verus!
