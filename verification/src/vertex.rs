//! A vertex array with its vertex buffer: how the attributes of one vertex
//! record are laid out, the commands that upload it, and the commands that
//! draw it.

use vstd::prelude::*;
use crate::command::{lemma_after_concat, lemma_after_push, BufferUsage, Command, Draw, ElementType, Pipeline};

verus! {

/// One attribute of a vertex record: so many components of one type.
#[derive(Clone, Copy, Debug, PartialEq, Eq, Structural)]
pub struct Attribute {
    pub components: u32,
    pub element: ElementType,
}

impl Attribute {
    /// The number of bytes that the attribute takes in a vertex record.
    pub open spec fn byte_size(self) -> int {
        self.components * self.element.spec_size()
    }
}

/// The byte offset of the attribute with index `i` in a vertex record: the
/// attributes are packed in the order of the layout, without gaps, so it is
/// the sum of the sizes of those before it.
pub open spec fn offset_of(layout: Seq<Attribute>, i: int) -> int
    decreases i,
{
    if i <= 0 {
        0
    } else {
        offset_of(layout, i - 1) + layout[i - 1].byte_size()
    }
}

/// The number of bytes that all attributes of a layout take together.
pub open spec fn record_size(layout: Seq<Attribute>) -> int {
    offset_of(layout, layout.len() as int)
}

/// Whether uploaded data and a description of it belong together: the data
/// is `vertex_num` records of `stride` bytes each, the attributes lie inside
/// one record, and every attribute has an index.
pub open spec fn fits(size: usize, layout: Seq<Attribute>, stride: i32, vertex_num: i32) -> bool {
    &&& stride >= 0
    &&& vertex_num >= 0
    &&& size == vertex_num * stride
    &&& layout.len() <= u32::MAX
    &&& record_size(layout) <= stride
}

/// The commands that bind the first `n` attributes of a layout, in order:
/// for each, one that switches it on and one that says where it lies.
pub open spec fn attribute_commands(layout: Seq<Attribute>, stride: i32, n: int) -> Seq<Command>
    decreases n,
{
    if n <= 0 {
        Seq::empty()
    } else {
        attribute_commands(layout, stride, n - 1).push(
            Command::EnableVertexAttribArray((n - 1) as u32),
        ).push(
            Command::VertexAttribPointer {
                index: (n - 1) as u32,
                components: layout[n - 1].components,
                element: layout[n - 1].element,
                stride,
                offset: offset_of(layout, n - 1) as usize,
            },
        )
    }
}

/// Offsets grow with the index.
pub proof fn lemma_offset_monotonic(layout: Seq<Attribute>, i: int, j: int)
    requires
        0 <= i <= j <= layout.len(),
    ensures
        0 <= offset_of(layout, i) <= offset_of(layout, j),
    decreases j,
{
    if j > 0 {
        if i < j {
            lemma_offset_monotonic(layout, i, j - 1);
        } else {
            lemma_offset_monotonic(layout, i - 1, j - 1);
        }
        let a = layout[j - 1];
        assert(a.byte_size() >= 0) by (nonlinear_arith)
            requires
                a.byte_size() == a.components * a.element.spec_size(),
                a.components >= 0,
                a.element.spec_size() >= 1,
        ;
    }
}

/// In a layout that fits, the attributes lie one behind the other inside the
/// record: each starts where the one before it ends, none reaches beyond the
/// stride, and two different ones do not overlap.
pub proof fn lemma_attributes_packed(
    size: usize,
    layout: Seq<Attribute>,
    stride: i32,
    vertex_num: i32,
    i: int,
    j: int,
)
    requires
        fits(size, layout, stride, vertex_num),
        0 <= i < j < layout.len(),
    ensures
        offset_of(layout, 0) == 0,
        offset_of(layout, i + 1) == offset_of(layout, i) + layout[i].byte_size(),
        0 <= offset_of(layout, i),
        offset_of(layout, i) + layout[i].byte_size() <= offset_of(layout, j),
        offset_of(layout, j) + layout[j].byte_size() <= stride,
{
    lemma_offset_monotonic(layout, 0, i);
    lemma_offset_monotonic(layout, i + 1, j);
    lemma_offset_monotonic(layout, j + 1, layout.len() as int);
}

/// Binding attributes changes nothing that the model of the pipeline holds.
pub proof fn lemma_attribute_commands_effect(
    layout: Seq<Attribute>,
    stride: i32,
    n: int,
    p: Pipeline,
)
    ensures
        p.after_all(attribute_commands(layout, stride, n)) == p,
    decreases n,
{
    if n > 0 {
        lemma_attribute_commands_effect(layout, stride, n - 1, p);
        let before = attribute_commands(layout, stride, n - 1);
        let enable = Command::EnableVertexAttribArray((n - 1) as u32);
        let pointer = Command::VertexAttribPointer {
            index: (n - 1) as u32,
            components: layout[n - 1].components,
            element: layout[n - 1].element,
            stride,
            offset: offset_of(layout, n - 1) as usize,
        };
        lemma_after_push(p, before, enable);
        lemma_after_push(p, before.push(enable), pointer);
    }
}

/// What a `Vertex` holds.
pub struct VertexView {
    pub vao: u32,
    pub vbo: u32,
    pub size: usize,
    pub usage: BufferUsage,
    pub layout: Seq<Attribute>,
    pub stride: i32,
    pub vertex_num: i32,
}

impl VertexView {
    /// The commands that upload the data once and bind the attributes: bind
    /// the vertex array and the buffer, hand over the data, bind each
    /// attribute from index 0 on, and unbind the buffer and the vertex array.
    pub open spec fn upload_commands(self) -> Seq<Command> {
        seq![
            Command::BindVertexArray(self.vao),
            Command::BindBuffer(self.vbo),
            Command::BufferData { size: self.size, usage: self.usage },
        ] + attribute_commands(self.layout, self.stride, self.layout.len() as int) + seq![
            Command::BindBuffer(0),
            Command::BindVertexArray(0),
        ]
    }

    /// The commands that draw the buffer: bind the vertex array, draw all
    /// its vertices as triangles from the first on, unbind the vertex array.
    pub open spec fn draw_commands(self) -> Seq<Command> {
        seq![
            Command::BindVertexArray(self.vao),
            Command::DrawArrays { first: 0, count: self.vertex_num },
            Command::BindVertexArray(0),
        ]
    }
}

/// A vertex array and the vertex buffer behind it. The value owns both
/// handles and cannot be copied.
pub struct Vertex {
    vao: u32,
    vbo: u32,
    size: usize,
    usage: BufferUsage,
    layout: Vec<Attribute>,
    stride: i32,
    vertex_num: i32,
}

impl View for Vertex {
    type V = VertexView;

    closed spec fn view(&self) -> VertexView {
        VertexView {
            vao: self.vao,
            vbo: self.vbo,
            size: self.size,
            usage: self.usage,
            layout: self.layout@,
            stride: self.stride,
            vertex_num: self.vertex_num,
        }
    }
}

impl Vertex {
    #[verifier::type_invariant]
    spec fn inv(self) -> bool {
        fits(self.size, self.layout@, self.stride, self.vertex_num)
    }

    /// Whether `new` takes these arguments.
    pub fn accepts(size: usize, layout: &Vec<Attribute>, stride: i32, vertex_num: i32) -> (r: bool)
        ensures
            r == fits(size, layout@, stride, vertex_num),
    {
        if stride < 0 || vertex_num < 0 || layout.len() > 0xFFFF_FFFF {
            return false;
        }
        assert(0 <= vertex_num * stride <= 0x7FFF_FFFF * 0x7FFF_FFFF) by (nonlinear_arith)
            requires
                0 <= vertex_num <= 0x7FFF_FFFF,
                0 <= stride <= 0x7FFF_FFFF,
        ;
        if size as u64 != (vertex_num as u64) * (stride as u64) {
            return false;
        }
        let mut total: u64 = 0;
        let mut i: usize = 0;
        while i < layout.len()
            invariant
                0 <= i <= layout.len(),
                0 <= stride,
                total == offset_of(layout@, i as int),
                total <= stride,
            decreases layout.len() - i,
        {
            let a = layout[i];
            assert(a.byte_size() <= 4 * 0xFFFF_FFFF) by (nonlinear_arith)
                requires
                    a.byte_size() == a.components * a.element.spec_size(),
                    0 <= a.components <= 0xFFFF_FFFF,
                    1 <= a.element.spec_size() <= 4,
            ;
            assert(a.byte_size() >= 0) by (nonlinear_arith)
                requires
                    a.byte_size() == a.components * a.element.spec_size(),
                    0 <= a.components,
                    1 <= a.element.spec_size(),
            ;
            total = total + (a.components as u64) * a.element.size();
            i = i + 1;
            if total > stride as u64 {
                proof {
                    lemma_offset_monotonic(layout@, i as int, layout@.len() as int);
                }
                return false;
            }
        }
        true
    }

    /// Takes the handles of a freshly made vertex array and buffer, with the
    /// size in bytes of the data that goes into the buffer and the
    /// description of its layout. Gives the value that owns the two handles
    /// and the commands that upload the data and bind the attributes; there
    /// is no other way to get such commands, so the data is uploaded once.
    pub fn new(
        vao: u32,
        vbo: u32,
        size: usize,
        usage: BufferUsage,
        layout: Vec<Attribute>,
        stride: i32,
        vertex_num: i32,
    ) -> (r: (Vertex, Vec<Command>))
        requires
            fits(size, layout@, stride, vertex_num),
        ensures
            r.0@ == (VertexView { vao, vbo, size, usage, layout: layout@, stride, vertex_num }),
            r.1@ == r.0@.upload_commands(),
    {
        let vertex = Vertex { vao, vbo, size, usage, layout, stride, vertex_num };
        let commands = vertex.upload();
        (vertex, commands)
    }

    /// The handle of the vertex array.
    pub fn vao(&self) -> (r: u32)
        ensures
            r == self@.vao,
    {
        self.vao
    }

    /// The handle of the vertex buffer.
    pub fn vbo(&self) -> (r: u32)
        ensures
            r == self@.vbo,
    {
        self.vbo
    }

    /// The number of vertices in the buffer.
    pub fn vertex_num(&self) -> (r: i32)
        ensures
            r == self@.vertex_num,
    {
        self.vertex_num
    }

    /// The commands that upload the data and bind the attributes.
    fn upload(&self) -> (r: Vec<Command>)
        ensures
            r@ == self@.upload_commands(),
    {
        proof {
            use_type_invariant(self);
        }
        let mut r: Vec<Command> = Vec::new();
        r.push(Command::BindVertexArray(self.vao));
        r.push(Command::BindBuffer(self.vbo));
        r.push(Command::BufferData { size: self.size, usage: self.usage });
        let ghost head = r@;
        let mut offset: usize = 0;
        let mut i: usize = 0;
        assert(r@ =~= head + attribute_commands(self.layout@, self.stride, 0));
        while i < self.layout.len()
            invariant
                0 <= i <= self.layout.len(),
                fits(self.size, self.layout@, self.stride, self.vertex_num),
                offset == offset_of(self.layout@, i as int),
                r@ == head + attribute_commands(self.layout@, self.stride, i as int),
            decreases self.layout.len() - i,
        {
            let a = self.layout[i];
            proof {
                lemma_offset_monotonic(self.layout@, i as int, i + 1);
                lemma_offset_monotonic(self.layout@, i + 1, self.layout@.len() as int);
            }
            let ghost before = attribute_commands(self.layout@, self.stride, i as int);
            r.push(Command::EnableVertexAttribArray(i as u32));
            r.push(
                Command::VertexAttribPointer {
                    index: i as u32,
                    components: a.components,
                    element: a.element,
                    stride: self.stride,
                    offset,
                },
            );
            let step: u64 = (a.components as u64) * a.element.size();
            offset = offset + step as usize;
            i = i + 1;
            assert(r@ =~= head + attribute_commands(self.layout@, self.stride, i as int));
        }
        r.push(Command::BindBuffer(0));
        r.push(Command::BindVertexArray(0));
        assert(r@ =~= self@.upload_commands());
        r
    }

    /// The commands that draw the buffer. The vertex array is unbound again
    /// afterwards, so that no later draw finds it bound.
    pub fn draw(&self) -> (r: Vec<Command>)
        ensures
            r@ == self@.draw_commands(),
            fits(self@.size, self@.layout, self@.stride, self@.vertex_num),
    {
        proof {
            use_type_invariant(self);
        }
        let mut r: Vec<Command> = Vec::new();
        r.push(Command::BindVertexArray(self.vao));
        r.push(Command::DrawArrays { first: 0, count: self.vertex_num });
        r.push(Command::BindVertexArray(0));
        assert(r@ =~= self@.draw_commands());
        r
    }
}

/// Uploading draws nothing and leaves no vertex array bound; nothing else
/// that the model of the pipeline holds changes.
pub proof fn lemma_upload_effect(v: VertexView, p: Pipeline)
    ensures
        p.after_all(v.upload_commands()) == (Pipeline { vertex_array: 0, ..p }),
{
    let s0 = Seq::<Command>::empty();
    let a = Command::BindVertexArray(v.vao);
    let b = Command::BindBuffer(v.vbo);
    let d = Command::BufferData { size: v.size, usage: v.usage };
    let head = s0.push(a).push(b).push(d);
    let middle = attribute_commands(v.layout, v.stride, v.layout.len() as int);
    let x = Command::BindBuffer(0);
    let y = Command::BindVertexArray(0);
    let tail = s0.push(x).push(y);
    assert(p.after_all(s0) == p);
    lemma_after_push(p, s0, a);
    lemma_after_push(p, s0.push(a), b);
    lemma_after_push(p, s0.push(a).push(b), d);
    let p1 = Pipeline { vertex_array: v.vao, ..p };
    assert(p.after_all(head) == p1);
    lemma_attribute_commands_effect(v.layout, v.stride, v.layout.len() as int, p1);
    assert(p1.after_all(s0) == p1);
    lemma_after_push(p1, s0, x);
    lemma_after_push(p1, s0.push(x), y);
    lemma_after_concat(p, head, middle);
    lemma_after_concat(p, head + middle, tail);
    assert(v.upload_commands() =~= head + middle + tail);
}

/// Drawing a buffer makes exactly one draw call, of all its vertices and in
/// the state that the pipeline is in, and leaves no vertex array bound.
pub proof fn lemma_draw_effect(v: VertexView, p: Pipeline)
    ensures
        p.after_all(v.draw_commands()) == (Pipeline {
            vertex_array: 0,
            drawn: p.drawn.push(
                Draw {
                    vertex_array: v.vao,
                    mode: p.polygon_mode,
                    first: 0,
                    count: v.vertex_num,
                    program: p.program,
                    matrices: p.matrices,
                },
            ),
            ..p
        }),
{
    let s0 = Seq::<Command>::empty();
    let a = Command::BindVertexArray(v.vao);
    let d = Command::DrawArrays { first: 0, count: v.vertex_num };
    let u = Command::BindVertexArray(0);
    assert(p.after_all(s0) == p);
    lemma_after_push(p, s0, a);
    lemma_after_push(p, s0.push(a), d);
    lemma_after_push(p, s0.push(a).push(d), u);
    assert(v.draw_commands() =~= s0.push(a).push(d).push(u));
}

} // verus!
