//! What the draw call is given: the primitive that a particle is drawn as,
//! and the arguments of the indirect draw.

use vstd::prelude::*;
use vstd::bytes::spec_u32_to_le_bytes;
use crate::dispatch::INDIRECT_ARGS_SIZE;

verus! {

/// How a particle is drawn: as one point, or as a quad of two triangles.
#[derive(Clone, Copy, Debug, PartialEq, Eq, Structural)]
pub enum ParticleRenderShape {
    Points,
    Quads,
}

impl ParticleRenderShape {
    /// Vertices drawn per particle: one for a point, six for the two
    /// triangles of a quad.
    pub open spec fn spec_vertex_count(self) -> u32 {
        match self {
            ParticleRenderShape::Points => 1,
            ParticleRenderShape::Quads => 6,
        }
    }

    /// The other shape.
    pub open spec fn spec_toggled(self) -> ParticleRenderShape {
        match self {
            ParticleRenderShape::Points => ParticleRenderShape::Quads,
            ParticleRenderShape::Quads => ParticleRenderShape::Points,
        }
    }

    pub fn vertex_count(self) -> (count: u32)
        ensures
            count == self.spec_vertex_count(),
    {
        match self {
            ParticleRenderShape::Points => 1,
            ParticleRenderShape::Quads => 6,
        }
    }

    pub fn toggled(self) -> (other: ParticleRenderShape)
        ensures
            other == self.spec_toggled(),
    {
        match self {
            ParticleRenderShape::Points => ParticleRenderShape::Quads,
            ParticleRenderShape::Quads => ParticleRenderShape::Points,
        }
    }
}

/// The four words of an indirect draw, in the order in which the draw reads
/// them. The second word is the counter that compaction increments.
#[derive(Clone, Copy, Debug, PartialEq, Eq, Structural)]
pub struct IndirectArgs {
    pub vertex_count: u32,
    pub instance_count: u32,
    pub first_vertex: u32,
    pub first_instance: u32,
}

/// The four bytes of a word, low byte first or high byte first.
pub open spec fn word_bytes(word: u32, low_byte_first: bool) -> Seq<u8> {
    if low_byte_first {
        spec_u32_to_le_bytes(word)
    } else {
        spec_u32_to_le_bytes(word).reverse()
    }
}

impl IndirectArgs {
    /// The arguments that draw `instances` particles of the given shape.
    pub open spec fn drawing(shape: ParticleRenderShape, instances: u32) -> IndirectArgs {
        IndirectArgs {
            vertex_count: shape.spec_vertex_count(),
            instance_count: instances,
            first_vertex: 0,
            first_instance: 0,
        }
    }

    pub open spec fn spec_words(self) -> Seq<u32> {
        seq![self.vertex_count, self.instance_count, self.first_vertex, self.first_instance]
    }

    /// The sixteen bytes of the four words in their order, each word with
    /// its low byte first or each with its high byte first.
    pub open spec fn spec_bytes(self, low_byte_first: bool) -> Seq<u8> {
        word_bytes(self.vertex_count, low_byte_first) + word_bytes(
            self.instance_count,
            low_byte_first,
        ) + word_bytes(self.first_vertex, low_byte_first) + word_bytes(
            self.first_instance,
            low_byte_first,
        )
    }

    pub fn draw(shape: ParticleRenderShape, instances: u32) -> (args: IndirectArgs)
        ensures
            args == IndirectArgs::drawing(shape, instances),
    {
        IndirectArgs {
            vertex_count: shape.vertex_count(),
            instance_count: instances,
            first_vertex: 0,
            first_instance: 0,
        }
    }

    /// The arguments as the bytes that are written to the counter buffer:
    /// the four words in their order, each in the byte order of the machine.
    pub fn bytes(&self) -> (bytes: Vec<u8>)
        ensures
            bytes@ == self.spec_bytes(true) || bytes@ == self.spec_bytes(false),
            bytes@.len() == INDIRECT_ARGS_SIZE,
    {
        indirect_args_bytes(self)
    }

    /// The arguments as they lie in the buffer, word by word.
    pub fn words(&self) -> (words: [u32; 4])
        ensures
            words@ == self.spec_words(),
    {
        let words = [self.vertex_count, self.instance_count, self.first_vertex, self.first_instance];
        assert(words@ =~= self.spec_words());
        words
    }
}

/// `bytemuck::cast_slice` hands out the memory of one
/// `wgpu::wgt::DrawIndirectArgs` as bytes. That type is four words of four
/// bytes each, in the order of the fields and with nothing between them, so
/// there are sixteen bytes: the words in their order, each with its low byte
/// first on a machine that stores words so, and each with its high byte
/// first on the others. A cast to bytes cannot fail.
#[verifier::external_body]
fn indirect_args_bytes(args: &IndirectArgs) -> (bytes: Vec<u8>)
    ensures
        bytes@ == args.spec_bytes(true) || bytes@ == args.spec_bytes(false),
        bytes@.len() == 16,
{
    let raw = wgpu::wgt::DrawIndirectArgs {
        vertex_count: args.vertex_count,
        instance_count: args.instance_count,
        first_vertex: args.first_vertex,
        first_instance: args.first_instance,
    };
    bytemuck::cast_slice::<wgpu::wgt::DrawIndirectArgs, u8>(&[raw]).to_vec()
}

} // verus!
