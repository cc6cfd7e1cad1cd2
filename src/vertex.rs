use vstd::prelude::*;

verus! {

/// A three-component vector. Each component is the IEEE-754 single-precision
/// bit pattern of the value, so equality and hashing are bit-wise.
#[derive(Clone, Copy, Debug, PartialEq, Eq, Hash, Structural)]
pub struct Vec3 {
    pub x: u32,
    pub y: u32,
    pub z: u32,
}

/// A two-component vector of single-precision bit patterns.
#[derive(Clone, Copy, Debug, PartialEq, Eq, Hash, Structural)]
pub struct Vec2 {
    pub x: u32,
    pub y: u32,
}

/// A mesh vertex: position, color and texture coordinate.
#[derive(Clone, Copy, Debug, PartialEq, Eq, Hash, Structural)]
pub struct Vertex {
    pub pos: Vec3,
    pub color: Vec3,
    pub tex_coord: Vec2,
}

/// Size in bytes of one vertex in a vertex buffer (eight 4-byte floats).
pub const VERTEX_SIZE: u32 = 32;

/// Byte size of a three-component float vector.
pub const VEC3_SIZE: u32 = 12;

/// How consecutive vertices are fetched from the bound vertex buffer.
#[derive(Clone, Copy, Debug, PartialEq, Eq, Structural)]
pub enum InputRate {
    Vertex,
    Instance,
}

/// Layout of one vertex attribute in memory.
#[derive(Clone, Copy, Debug, PartialEq, Eq, Structural)]
pub enum AttributeFormat {
    /// Three 32-bit floats.
    R32G32B32Sfloat,
    /// Two 32-bit floats.
    R32G32Sfloat,
}

/// The vertex-buffer binding that the pipelines read vertices from.
#[derive(Clone, Copy, Debug, PartialEq, Eq, Structural)]
pub struct VertexBinding {
    pub binding: u32,
    pub stride: u32,
    pub input_rate: InputRate,
}

/// One shader input read from the vertex binding.
#[derive(Clone, Copy, Debug, PartialEq, Eq, Structural)]
pub struct VertexAttribute {
    pub binding: u32,
    pub location: u32,
    pub format: AttributeFormat,
    pub offset: u32,
}

impl Vertex {
    pub fn new(pos: Vec3, color: Vec3, tex_coord: Vec2) -> (r: Self)
        ensures
            r.pos == pos,
            r.color == color,
            r.tex_coord == tex_coord,
    {
        Vertex { pos, color, tex_coord }
    }

    /// Vertices are read per vertex from binding 0, one `VERTEX_SIZE` record each.
    pub fn binding_description() -> (r: VertexBinding)
        ensures
            r == (VertexBinding { binding: 0, stride: VERTEX_SIZE, input_rate: InputRate::Vertex }),
    {
        VertexBinding { binding: 0, stride: VERTEX_SIZE, input_rate: InputRate::Vertex }
    }

    /// Position at location 0, color at location 1, texture coordinate at
    /// location 2, laid out back to back in that order.
    pub fn attribute_descriptions() -> (r: [VertexAttribute; 3])
        ensures
            r@ == seq![
                VertexAttribute { binding: 0, location: 0, format: AttributeFormat::R32G32B32Sfloat, offset: 0 },
                VertexAttribute { binding: 0, location: 1, format: AttributeFormat::R32G32B32Sfloat, offset: VEC3_SIZE },
                VertexAttribute { binding: 0, location: 2, format: AttributeFormat::R32G32Sfloat, offset: (2 * VEC3_SIZE) as u32 },
            ],
    {
        let pos = VertexAttribute {
            binding: 0,
            location: 0,
            format: AttributeFormat::R32G32B32Sfloat,
            offset: 0,
        };
        let color = VertexAttribute {
            binding: 0,
            location: 1,
            format: AttributeFormat::R32G32B32Sfloat,
            offset: VEC3_SIZE,
        };
        let tex_coord = VertexAttribute {
            binding: 0,
            location: 2,
            format: AttributeFormat::R32G32Sfloat,
            offset: VEC3_SIZE + VEC3_SIZE,
        };
        let r = [pos, color, tex_coord];
        assert(r@ =~= seq![pos, color, tex_coord]);
        r
    }

    pub fn pos(&self) -> (r: Vec3)
        ensures
            r == self.pos,
    {
        self.pos
    }

    pub fn color(&self) -> (r: Vec3)
        ensures
            r == self.color,
    {
        self.color
    }

    pub fn tex_coord(&self) -> (r: Vec2)
        ensures
            r == self.tex_coord,
    {
        self.tex_coord
    }

    pub fn set_tex_coord(&mut self, tex_coord: Vec2)
        ensures
            *final(self) == (Vertex { tex_coord, ..*old(self) }),
    {
        self.tex_coord = tex_coord;
    }

    pub fn set_color(&mut self, color: Vec3)
        ensures
            *final(self) == (Vertex { color, ..*old(self) }),
    {
        self.color = color;
    }

    pub fn set_pos(&mut self, pos: Vec3)
        ensures
            *final(self) == (Vertex { pos, ..*old(self) }),
    {
        self.pos = pos;
    }
}

} // verus!
